use vstd::prelude::*;

use crate::admin::AdminCall;
use crate::error::HOST_FUTURE_TRAP;
use crate::value::WasmVal;

verus! {

/// What happened to the stack of parked futures at one step of a trampoline.
pub enum StackEvent<F> {
    /// A host future answered `Pending` and was parked on top.
    Suspend(F),
    /// The guest rewound into a suspended import frame and the top future was taken.
    Resume,
}

/// The stack after one event.
pub open spec fn step_stack<F>(s: Seq<F>, e: StackEvent<F>) -> Seq<F> {
    match e {
        StackEvent::Suspend(f) => s.push(f),
        StackEvent::Resume => if s.len() > 0 { s.drop_last() } else { s },
    }
}

/// The stack after a sequence of events, and the futures taken by the
/// resumptions among them, in the order they were taken.
pub open spec fn replay<F>(s: Seq<F>, evs: Seq<StackEvent<F>>) -> (Seq<F>, Seq<F>)
    decreases evs.len(),
{
    if evs.len() == 0 {
        (s, Seq::empty())
    } else {
        let before = replay(s, evs.drop_last());
        let e = evs.last();
        let taken = match e {
            StackEvent::Resume => if before.0.len() > 0 { before.1.push(before.0.last()) } else { before.1 },
            StackEvent::Suspend(_) => before.1,
        };
        (step_stack(before.0, e), taken)
    }
}

/// The number of suspensions among the events.
pub open spec fn suspensions<F>(evs: Seq<StackEvent<F>>) -> nat
    decreases evs.len(),
{
    if evs.len() == 0 {
        0
    } else {
        suspensions(evs.drop_last()) + if evs.last() is Suspend { 1nat } else { 0nat }
    }
}

/// The number of resumptions among the events.
pub open spec fn resumptions<F>(evs: Seq<StackEvent<F>>) -> nat
    decreases evs.len(),
{
    if evs.len() == 0 {
        0
    } else {
        resumptions(evs.drop_last()) + if evs.last() is Resume { 1nat } else { 0nat }
    }
}

/// Every resumption finds a suspended frame to resume: at no prefix do the
/// resumptions outnumber the futures parked before it.
pub open spec fn resumes_only_suspended<F>(depth: nat, evs: Seq<StackEvent<F>>) -> bool {
    forall|i: int|
        0 <= i <= evs.len() ==> #[trigger] resumptions(evs.take(i)) <= depth + suspensions(evs.take(i))
}

/// The events that park each future of `xs`, in order.
pub open spec fn suspend_all<F>(xs: Seq<F>) -> Seq<StackEvent<F>> {
    xs.map_values(|f: F| StackEvent::Suspend(f))
}

/// `n` resumptions.
pub open spec fn resume_times<F>(n: nat) -> Seq<StackEvent<F>> {
    Seq::new(n, |i: int| StackEvent::Resume)
}

/// The outcome of polling a host future once.
pub enum HostPoll {
    /// The future resolved to these results.
    Ready(Vec<WasmVal>),
    /// The future resolved to an error.
    Failed,
    /// The future is not done yet.
    Pending,
}

/// Which future a trampoline call is to poll.
pub enum Entry<F> {
    /// The guest runs normally: the import is entered afresh and a new future is
    /// to be made from its arguments.
    Fresh,
    /// The guest is rewinding into a suspended frame: this is its parked future.
    Resumed(F),
    /// The guest is rewinding but no future is parked.
    Orphaned,
}

/// What a trampoline call reports once its future was polled.
pub struct HostStep {
    /// Status handed back to the engine: zero, or the code of a guest trap.
    pub code: u8,
    /// Values to write into the import's result slots.
    pub results: Vec<WasmVal>,
    /// Control export to invoke on the guest before the trampoline returns.
    pub admin: AdminCall,
}

/// The status and results a sync host function hands back to the engine: its
/// results with status zero, or no results and its error code as the code of
/// a guest trap.
pub fn sync_outcome(result: Result<Vec<WasmVal>, u32>, return_len: usize) -> (r: (u8, Vec<WasmVal>))
    requires
        match result {
            Ok(v) => v@.len() == return_len,
            Err(c) => 1 <= c <= 255,
        },
    ensures
        match result {
            Ok(v) => r.0 == 0 && r.1@ == v@,
            Err(c) => r.0 as u32 == c && r.1@.len() == 0,
        },
{
    match result {
        Ok(v) => (0, v),
        Err(c) => (c as u8, Vec::new()),
    }
}

/// The host futures parked while the guest is unwound, as a stack: the top is
/// the future of the innermost suspended import frame.
pub struct ParkedFutures<F> {
    stack: Vec<F>,
}

impl<F> View for ParkedFutures<F> {
    type V = Seq<F>;

    closed spec fn view(&self) -> Seq<F> {
        self.stack@
    }
}

impl<F> ParkedFutures<F> {
    pub fn new() -> (r: Self)
        ensures
            r@ == Seq::<F>::empty(),
    {
        ParkedFutures { stack: Vec::new() }
    }

    /// The number of parked futures.
    pub fn depth(&self) -> (r: usize)
        ensures
            r == self@.len(),
    {
        self.stack.len()
    }

    pub fn is_empty(&self) -> (r: bool)
        ensures
            r == (self@.len() == 0),
    {
        self.stack.len() == 0
    }

    /// Decides which future a trampoline call polls, from whether the guest
    /// runs normally. A rewinding guest takes the top of the stack.
    pub fn enter(&mut self, normal: bool) -> (r: Entry<F>)
        ensures
            normal ==> r is Fresh && final(self)@ == old(self)@,
            !normal && old(self)@.len() > 0 ==> r == Entry::Resumed(old(self)@.last())
                && final(self)@ == step_stack(old(self)@, StackEvent::Resume),
            !normal && old(self)@.len() == 0 ==> r is Orphaned && final(self)@ == old(self)@,
    {
        if normal {
            Entry::Fresh
        } else {
            match self.stack.pop() {
                Some(f) => Entry::Resumed(f),
                None => Entry::Orphaned,
            }
        }
    }

    /// Settles a trampoline call after its future `fut` was polled once with
    /// outcome `polled`, for an import with `return_len` results.
    ///
    /// A ready future is dropped and the guest is brought back to normal; a
    /// failed one also traps the guest with `HOST_FUTURE_TRAP`; a pending one
    /// is parked on top of the stack and the guest is made to unwind.
    pub fn settle(&mut self, fut: F, polled: HostPoll, return_len: usize) -> (r: HostStep)
        requires
            polled is Ready ==> polled->Ready_0@.len() == return_len,
        ensures
            match polled {
                HostPoll::Ready(v) => r.code == 0 && r.results@ == v@ && r.admin == AdminCall::StopUnwind
                    && final(self)@ == old(self)@,
                HostPoll::Failed => r.code == HOST_FUTURE_TRAP && r.results@.len() == 0
                    && r.admin == AdminCall::StopUnwind && final(self)@ == old(self)@,
                HostPoll::Pending => r.code == 0 && r.results@.len() == 0 && r.admin == AdminCall::StartUnwind
                    && final(self)@ == step_stack(old(self)@, StackEvent::Suspend(fut)),
            },
    {
        match polled {
            HostPoll::Ready(v) => HostStep { code: 0, results: v, admin: AdminCall::StopUnwind },
            HostPoll::Failed => HostStep {
                code: HOST_FUTURE_TRAP,
                results: Vec::new(),
                admin: AdminCall::StopUnwind,
            },
            HostPoll::Pending => {
                self.stack.push(fut);
                HostStep { code: 0, results: Vec::new(), admin: AdminCall::StartUnwind }
            },
        }
    }

    /// Takes every parked future out, the most recently parked first, leaving
    /// the stack empty. Dropping the result drops the futures in that order.
    pub fn drain_lifo(&mut self) -> (r: Vec<F>)
        ensures
            r@ == old(self)@.reverse(),
            final(self)@ == Seq::<F>::empty(),
    {
        let ghost orig = self.stack@;
        let mut out: Vec<F> = Vec::new();
        while self.stack.len() > 0
            invariant
                out@.len() + self.stack@.len() == orig.len(),
                self.stack@ == orig.take(self.stack@.len() as int),
                forall|i: int| 0 <= i < out@.len() ==> out@[i] == orig[orig.len() - 1 - i],
            decreases self.stack@.len(),
        {
            let f = self.stack.pop().unwrap();
            out.push(f);
        }
        assert(self.stack@ =~= Seq::<F>::empty());
        assert(out@ =~= orig.reverse());
        out
    }
}

} // verus!
