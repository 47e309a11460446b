use vstd::prelude::*;

use crate::error::LinkerError;
use crate::value::WasmVal;

verus! {

/// Whether a reply of `asyncify_get_state` means the guest runs normally.
///
/// A guest without the helper (the export is not found) counts as normal; a
/// successful reply is normal exactly when its first result is the `i32` zero;
/// any other failure of the call is not normal.
pub open spec fn spec_reply_is_normal(reply: Result<Vec<WasmVal>, LinkerError>) -> bool {
    match reply {
        Ok(v) => v@.len() > 0 && v@[0] == WasmVal::I32(0),
        Err(e) => e is InstanceNotFoundFunc,
    }
}

pub fn reply_is_normal(reply: &Result<Vec<WasmVal>, LinkerError>) -> (r: bool)
    ensures
        r == spec_reply_is_normal(*reply),
{
    match reply {
        Ok(v) => {
            if v.len() > 0 {
                match v[0] {
                    WasmVal::I32(i) => i == 0,
                    _ => false,
                }
            } else {
                false
            }
        },
        Err(LinkerError::InstanceNotFoundFunc(_)) => true,
        Err(_) => false,
    }
}

} // verus!
