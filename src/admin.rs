use vstd::prelude::*;

verus! {

/// The export that reports the guest's Asyncify state as an `i32`.
pub const GET_STATE_EXPORT: &'static str = "asyncify_get_state";

/// One of the Asyncify control exports that the linker invokes on the guest,
/// always with an empty argument list.
#[derive(Clone, Copy, Debug, PartialEq, Eq, Structural)]
pub enum AdminCall {
    StartUnwind,
    StopUnwind,
    StartRewind,
}

impl AdminCall {
    pub open spec fn spec_export_name(self) -> Seq<char> {
        match self {
            AdminCall::StartUnwind => "asyncify_start_unwind"@,
            AdminCall::StopUnwind => "asyncify_stop_unwind"@,
            AdminCall::StartRewind => "asyncify_start_rewind"@,
        }
    }

    /// The name under which the transformed guest exports this helper.
    pub fn export_name(&self) -> (r: &'static str)
        ensures
            r@ == self.spec_export_name(),
    {
        match self {
            AdminCall::StartUnwind => "asyncify_start_unwind",
            AdminCall::StopUnwind => "asyncify_stop_unwind",
            AdminCall::StartRewind => "asyncify_start_rewind",
        }
    }
}

} // verus!
