use vstd::prelude::*;

use crate::call::{next_step, CallPoll, GuestCall, PollStage, PollStep};
use crate::error::LinkerError;
use crate::state::spec_reply_is_normal;
use crate::value::WasmVal;
use crate::prepare::{comma_free, joined, segments};
use crate::parked::{
    replay, resume_times, resumes_only_suspended, resumptions, suspend_all,
    suspensions, StackEvent,
};

verus! {

proof fn lemma_replay_suspend_all<F>(s: Seq<F>, xs: Seq<F>)
    ensures
        replay(s, suspend_all(xs)) == (s + xs, Seq::<F>::empty()),
    decreases xs.len(),
{
    if xs.len() == 0 {
        assert(suspend_all(xs) =~= Seq::<StackEvent<F>>::empty());
        assert(s + xs =~= s);
    } else {
        let init = xs.drop_last();
        assert(suspend_all(xs).drop_last() =~= suspend_all(init));
        lemma_replay_suspend_all(s, init);
        assert((s + init).push(xs.last()) =~= s + xs);
    }
}

proof fn lemma_replay_append<F>(s: Seq<F>, a: Seq<StackEvent<F>>, b: Seq<StackEvent<F>>)
    ensures
        replay(s, a + b) == (
            replay(replay(s, a).0, b).0,
            replay(s, a).1 + replay(replay(s, a).0, b).1,
        ),
    decreases b.len(),
{
    let mid = replay(s, a);
    if b.len() == 0 {
        assert(a + b =~= a);
        assert(mid.1 + Seq::<F>::empty() =~= mid.1);
    } else {
        assert((a + b).drop_last() =~= a + b.drop_last());
        assert((a + b).last() == b.last());
        lemma_replay_append(s, a, b.drop_last());
        let inner = replay(mid.0, b.drop_last());
        assert(mid.1 + inner.1.push(inner.0.last()) =~= (mid.1 + inner.1).push(inner.0.last()));
    }
}

proof fn lemma_replay_resumes<F>(t: Seq<F>, k: nat)
    requires
        k <= t.len(),
    ensures
        replay(t, resume_times(k)) == (t.take(t.len() - k), t.reverse().take(k as int)),
    decreases k,
{
    if k == 0 {
        assert(resume_times::<F>(0) =~= Seq::<StackEvent<F>>::empty());
        assert(t.take(t.len() as int) =~= t);
        assert(t.reverse().take(0) =~= Seq::<F>::empty());
    } else {
        assert(resume_times::<F>(k).drop_last() =~= resume_times::<F>((k - 1) as nat));
        lemma_replay_resumes(t, (k - 1) as nat);
        let before = replay(t, resume_times::<F>((k - 1) as nat));
        assert(before.0.len() > 0);
        assert(before.0.drop_last() =~= t.take(t.len() - k));
        assert(before.1.push(before.0.last()) =~= t.reverse().take(k as int));
    }
}

/// Parked futures are resumed in strict reverse order of their suspension:
/// parking `xs` on any stack `s` and then resuming as many frames hands the
/// futures back last-parked first, and leaves `s` as it was.
pub proof fn lemma_lifo_resumption<F>(s: Seq<F>, xs: Seq<F>)
    ensures
        replay(s, suspend_all(xs) + resume_times(xs.len())) == (s, xs.reverse()),
{
    lemma_replay_append(s, suspend_all(xs), resume_times(xs.len()));
    lemma_replay_suspend_all(s, xs);
    lemma_replay_resumes(s + xs, xs.len());
    assert((s + xs).take(s.len() as int) =~= s);
    assert((s + xs).reverse().take(xs.len() as int) =~= xs.reverse());
    assert(Seq::<F>::empty() + xs.reverse() =~= xs.reverse());
}

/// The number of parked futures equals the number of import frames the guest
/// holds suspended: those parked by unwinding and not yet rewound, on top of
/// the `s.len()` already parked, as long as every resumption finds a frame.
pub proof fn lemma_depth_tracks_suspensions<F>(s: Seq<F>, evs: Seq<StackEvent<F>>)
    requires
        resumes_only_suspended(s.len(), evs),
    ensures
        replay(s, evs).0.len() == s.len() + suspensions(evs) - resumptions(evs),
    decreases evs.len(),
{
    if evs.len() > 0 {
        let init = evs.drop_last();
        assert forall|i: int| 0 <= i <= init.len() implies #[trigger] resumptions(init.take(i))
            <= s.len() + suspensions(init.take(i)) by {
            assert(init.take(i) =~= evs.take(i));
        }
        lemma_depth_tracks_suspensions(s, init);
        assert(evs.take(evs.len() as int) =~= evs);
    }
}

/// A run of trampoline steps that starts with nothing parked and resumes every
/// frame it suspended leaves nothing parked: the instance is quiescent again.
pub proof fn lemma_balanced_run_is_quiescent<F>(evs: Seq<StackEvent<F>>)
    requires
        resumes_only_suspended(0, evs),
        suspensions(evs) == resumptions(evs),
    ensures
        replay(Seq::<F>::empty(), evs).0.len() == 0,
{
    lemma_depth_tracks_suspensions(Seq::<F>::empty(), evs);
}

/// A poll yields a successful result only on completion: it finishes with
/// `Ready(Ok(v))` only when the guest was waiting to stop unwinding with `v`
/// and that request succeeded, and it waits to stop unwinding with `v` only
/// after the export returned `v` and the guest then reported the normal state.
/// Every ready outcome, failed or not, comes after the guest was asked to
/// stop unwinding.
pub proof fn lemma_success_only_when_normal(
    stage: PollStage,
    reply: Result<Vec<WasmVal>, LinkerError>,
    v: Vec<WasmVal>,
)
    ensures
        next_step(stage, reply) == PollStep::Finish(CallPoll::Ready(Ok(v))) ==> stage == PollStage::Stopping(Ok(v))
            && reply is Ok,
        next_step(stage, reply) == PollStep::Invoke(
            PollStage::Stopping(Ok(v)),
            GuestCall::Admin(crate::admin::AdminCall::StopUnwind),
        ) ==> stage == PollStage::StateAfter(v) && spec_reply_is_normal(reply),
        next_step(stage, reply) matches PollStep::Finish(CallPoll::Ready(_)) ==> stage is Stopping,
{
}

proof fn lemma_segments_len(s: Seq<char>)
    ensures
        segments(s).len() >= 1,
    decreases s.len(),
{
    if s.len() > 0 {
        lemma_segments_len(s.drop_last());
    }
}

/// Appending text without commas extends the last segment.
proof fn lemma_segments_extend(a: Seq<char>, x: Seq<char>)
    requires
        comma_free(x),
    ensures
        segments(a + x) == segments(a).update(
            segments(a).len() - 1,
            segments(a).last() + x,
        ),
    decreases x.len(),
{
    lemma_segments_len(a);
    if x.len() == 0 {
        assert(a + x =~= a);
        assert(segments(a).last() + x =~= segments(a).last());
        assert(segments(a).update(segments(a).len() - 1, segments(a).last()) =~= segments(a));
    } else {
        let xi = x.drop_last();
        lemma_segments_extend(a, xi);
        assert((a + x).drop_last() =~= a + xi);
        assert((a + x).last() == x.last());
        assert((segments(a).last() + xi).push(x.last()) =~= segments(a).last() + x);
        assert(segments(a + x) =~= segments(a).update(segments(a).len() - 1, segments(a).last() + x));
    }
}

/// Only the listed imports are made suspendable: the `asyncify-imports`
/// argument built from a non-empty list of comma-free names splits back into
/// exactly those names, and the one built from no names holds only the empty
/// segment, which names no import.
pub proof fn lemma_listed_imports_round_trip(names: Seq<Seq<char>>)
    requires
        forall|i: int| 0 <= i < names.len() ==> comma_free(#[trigger] names[i]),
    ensures
        names.len() > 0 ==> segments(joined(names)) == names,
        names.len() == 0 ==> segments(joined(names)) == seq![Seq::<char>::empty()],
    decreases names.len(),
{
    if names.len() == 1 {
        lemma_segments_extend(Seq::empty(), names[0]);
        assert(Seq::<char>::empty() + names[0] =~= names[0]);
        assert(seq![Seq::<char>::empty()].update(0, Seq::<char>::empty() + names[0]) =~= names);
    } else if names.len() > 1 {
        let init = names.drop_last();
        lemma_listed_imports_round_trip(init);
        let a = joined(init) + seq![','];
        lemma_segments_extend(a, names.last());
        assert(a.drop_last() =~= joined(init));
        assert(segments(a) == init.push(Seq::<char>::empty()));
        assert(Seq::<char>::empty() + names.last() =~= names.last());
        assert(segments(a).update(segments(a).len() - 1, segments(a).last() + names.last()) =~= names);
    }
}

} // verus!
