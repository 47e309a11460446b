use vstd::prelude::*;

use crate::admin::AdminCall;
use crate::error::LinkerError;
use crate::state::{reply_is_normal, spec_reply_is_normal};
use crate::value::WasmVal;

verus! {

/// The outcome of one poll of a top-level call.
pub enum CallPoll {
    Ready(Result<Vec<WasmVal>, LinkerError>),
    Pending,
}

/// A call into the guest that a poll asks for.
pub enum GuestCall {
    /// `asyncify_get_state`, with no arguments.
    GetState,
    /// One of the Asyncify control exports, with no arguments.
    Admin(AdminCall),
    /// The export that the top-level call names, with its arguments.
    Export,
}

/// Where a poll of a top-level call stands, waiting for the reply of the guest
/// call it asked for last.
pub enum PollStage {
    /// Asked for the guest's state before invoking the export.
    StateBefore,
    /// Asked the guest to rewind to its suspended frames.
    Rewinding,
    /// Invoked the export.
    Exported,
    /// Asked for the guest's state after the export returned these results.
    StateAfter(Vec<WasmVal>),
    /// Asked the guest to stop unwinding; this is what the poll will yield.
    Stopping(Result<Vec<WasmVal>, LinkerError>),
}

/// What a poll does next: make a guest call and wait in a stage, or finish.
pub enum PollStep {
    Invoke(PollStage, GuestCall),
    Finish(CallPoll),
}

/// The first step of every poll: ask the guest for its state.
pub fn poll_begin() -> (r: PollStep)
    ensures
        r == PollStep::Invoke(PollStage::StateBefore, GuestCall::GetState),
{
    PollStep::Invoke(PollStage::StateBefore, GuestCall::GetState)
}

/// The transition table of the resumption protocol: from the stage a poll
/// waits in and the reply of the guest call it made, the next guest call or
/// the outcome of the poll.
///
/// A guest that is not normal is rewound before the export is invoked; the
/// export's error finishes the poll; after a successful export a guest that
/// is not normal has unwound and the poll is pending; a ready outcome is
/// yielded only after the guest was asked to stop unwinding, and a failure of
/// the rewind, or of that request after a successful export, is yielded as the
/// poll's error.
pub open spec fn next_step(stage: PollStage, reply: Result<Vec<WasmVal>, LinkerError>) -> PollStep {
    match stage {
        PollStage::StateBefore => if spec_reply_is_normal(reply) {
            PollStep::Invoke(PollStage::Exported, GuestCall::Export)
        } else {
            PollStep::Invoke(PollStage::Rewinding, GuestCall::Admin(AdminCall::StartRewind))
        },
        PollStage::Rewinding => match reply {
            Ok(_) => PollStep::Invoke(PollStage::Exported, GuestCall::Export),
            Err(e) => PollStep::Invoke(
                PollStage::Stopping(Err(e)),
                GuestCall::Admin(AdminCall::StopUnwind),
            ),
        },
        PollStage::Exported => match reply {
            Ok(v) => PollStep::Invoke(PollStage::StateAfter(v), GuestCall::GetState),
            Err(e) => PollStep::Invoke(
                PollStage::Stopping(Err(e)),
                GuestCall::Admin(AdminCall::StopUnwind),
            ),
        },
        PollStage::StateAfter(v) => if spec_reply_is_normal(reply) {
            PollStep::Invoke(
                PollStage::Stopping(Ok(v)),
                GuestCall::Admin(AdminCall::StopUnwind),
            )
        } else {
            PollStep::Finish(CallPoll::Pending)
        },
        PollStage::Stopping(out) => match (out, reply) {
            (Ok(_), Err(e)) => PollStep::Finish(CallPoll::Ready(Err(e))),
            _ => PollStep::Finish(CallPoll::Ready(out)),
        },
    }
}

/// One step of the resumption protocol.
pub fn poll_step(stage: PollStage, reply: Result<Vec<WasmVal>, LinkerError>) -> (r: PollStep)
    ensures
        r == next_step(stage, reply),
{
    match stage {
        PollStage::StateBefore => {
            if reply_is_normal(&reply) {
                PollStep::Invoke(PollStage::Exported, GuestCall::Export)
            } else {
                PollStep::Invoke(PollStage::Rewinding, GuestCall::Admin(AdminCall::StartRewind))
            }
        },
        PollStage::Rewinding => match reply {
            Ok(_) => PollStep::Invoke(PollStage::Exported, GuestCall::Export),
            Err(e) => PollStep::Invoke(
                PollStage::Stopping(Err(e)),
                GuestCall::Admin(AdminCall::StopUnwind),
            ),
        },
        PollStage::Exported => match reply {
            Ok(v) => PollStep::Invoke(PollStage::StateAfter(v), GuestCall::GetState),
            Err(e) => PollStep::Invoke(
                PollStage::Stopping(Err(e)),
                GuestCall::Admin(AdminCall::StopUnwind),
            ),
        },
        PollStage::StateAfter(v) => {
            if reply_is_normal(&reply) {
                PollStep::Invoke(PollStage::Stopping(Ok(v)), GuestCall::Admin(AdminCall::StopUnwind))
            } else {
                PollStep::Finish(CallPoll::Pending)
            }
        },
        PollStage::Stopping(out) => match (out, reply) {
            (Ok(_), Err(e)) => PollStep::Finish(CallPoll::Ready(Err(e))),
            (out, _) => PollStep::Finish(CallPoll::Ready(out)),
        },
    }
}

} // verus!
