//! A level-triggered, multi-waiter stop request.
//!
//! The signal is a flag that only ever goes from "not requested" to
//! "requested", together with the waiters that registered before the flag was
//! raised. Raising the flag hands every registered waiter back to the caller,
//! which releases them; a waiter that arrives later is never registered and
//! goes on at once.
//!
//! The type is a plain value: whoever shares it between threads guards it with
//! a lock, so that each method below is one atomic step.
use vstd::prelude::*;

verus! {

/// What a waiter learns when it asks to wait for the stop request.
#[derive(Clone, Copy, Debug, PartialEq, Eq, Structural)]
pub enum WaitOutcome {
    /// The stop request has already been made: the waiter goes on at once.
    Ready,
    /// No stop request yet: the waiter is registered and will be released by
    /// the first trigger.
    Parked,
}

/// One operation on a stop signal, as it takes effect.
pub enum StopOp {
    /// A call of `trigger`.
    Trigger,
    /// A call of `wait` by the waiter with this identity.
    Wait(u64),
    /// A call of `forget` for the waiter with this identity.
    Forget(u64),
}

/// The mathematical state of a stop signal.
pub struct StopView {
    /// Whether the stop request has been made.
    pub triggered: bool,
    /// The registered waiters, in the order in which they registered.
    pub waiters: Seq<u64>,
}

impl StopView {
    /// No waiter is registered twice, and none is left once the request is made.
    pub open spec fn wf(self) -> bool {
        &&& self.waiters.no_duplicates()
        &&& self.triggered ==> self.waiters.len() == 0
    }

    /// The state of a new signal.
    pub open spec fn fresh() -> StopView {
        StopView { triggered: false, waiters: Seq::empty() }
    }

    /// The state after `trigger`: the first one raises the flag and lets every
    /// waiter go, a later one changes nothing.
    pub open spec fn trigger(self) -> StopView {
        if self.triggered {
            self
        } else {
            StopView { triggered: true, waiters: Seq::empty() }
        }
    }

    /// The waiters that `trigger` releases: all of them the first time, and
    /// nobody afterwards.
    pub open spec fn released(self) -> Seq<u64> {
        if self.triggered {
            Seq::empty()
        } else {
            self.waiters
        }
    }

    /// Whether `trigger` changes the state from "not requested" to "requested".
    pub open spec fn trigger_is_effective(self) -> bool {
        !self.triggered
    }

    /// What `wait` answers.
    pub open spec fn wait_outcome(self) -> WaitOutcome {
        if self.triggered {
            WaitOutcome::Ready
        } else {
            WaitOutcome::Parked
        }
    }

    /// The state after `wait(id)`.
    pub open spec fn wait(self, id: u64) -> StopView {
        if self.triggered || self.waiters.contains(id) {
            self
        } else {
            StopView { triggered: false, waiters: self.waiters.push(id) }
        }
    }

    /// The state after `forget(id)`.
    pub open spec fn forget(self, id: u64) -> StopView {
        StopView { triggered: self.triggered, waiters: self.waiters.remove_value(id) }
    }

    /// The state after one operation.
    pub open spec fn apply(self, op: StopOp) -> StopView {
        match op {
            StopOp::Trigger => self.trigger(),
            StopOp::Wait(id) => self.wait(id),
            StopOp::Forget(id) => self.forget(id),
        }
    }

    /// The state after a sequence of operations, taken from the left.
    pub open spec fn apply_all(self, ops: Seq<StopOp>) -> StopView
        decreases ops.len(),
    {
        if ops.len() == 0 {
            self
        } else {
            self.apply(ops[0]).apply_all(ops.drop_first())
        }
    }

    /// How many operations of the sequence change the state from
    /// "not requested" to "requested".
    pub open spec fn effective_triggers(self, ops: Seq<StopOp>) -> nat
        decreases ops.len(),
    {
        if ops.len() == 0 {
            0
        } else {
            let here: nat = if ops[0] is Trigger && self.trigger_is_effective() {
                1
            } else {
                0
            };
            here + self.apply(ops[0]).effective_triggers(ops.drop_first())
        }
    }
}

/// Whether the sequence holds a `Trigger`.
pub open spec fn has_trigger(ops: Seq<StopOp>) -> bool {
    exists|i: int| 0 <= i < ops.len() && #[trigger] ops[i] is Trigger
}

/// A shutdown request shared by everything that takes part in a run.
pub struct StopSignal {
    triggered: bool,
    waiters: Vec<u64>,
}

impl View for StopSignal {
    type V = StopView;

    closed spec fn view(&self) -> StopView {
        StopView { triggered: self.triggered, waiters: self.waiters@ }
    }
}

impl StopSignal {
    /// A signal on which no stop has been requested and nobody waits.
    pub fn new() -> (s: Self)
        ensures
            s@ == StopView::fresh(),
            s@.wf(),
    {
        StopSignal { triggered: false, waiters: Vec::new() }
    }

    /// Whether the stop request has been made.
    pub fn is_triggered(&self) -> (b: bool)
        ensures
            b == self@.triggered,
    {
        self.triggered
    }

    /// How many waiters are registered.
    pub fn waiting(&self) -> (n: usize)
        ensures
            n == self@.waiters.len(),
    {
        self.waiters.len()
    }

    /// Requests the stop.
    ///
    /// The first call raises the flag and returns the waiters to release, each
    /// once, in the order in which they registered. Every later call returns
    /// `None` and changes nothing.
    pub fn trigger(&mut self) -> (woken: Option<Vec<u64>>)
        ensures
            final(self)@ == old(self)@.trigger(),
            woken is Some <==> old(self)@.trigger_is_effective(),
            woken is Some ==> woken->Some_0@ == old(self)@.released(),
            woken is None ==> final(self)@ == old(self)@,
            old(self)@.wf() ==> final(self)@.wf(),
            old(self)@.wf() && woken is Some ==> woken->Some_0@.no_duplicates(),
    {
        if self.triggered {
            return None;
        }
        let mut woken: Vec<u64> = Vec::new();
        std::mem::swap(&mut self.waiters, &mut woken);
        self.triggered = true;
        Some(woken)
    }

    /// Requests the stop and returns whom to wake: every registered waiter
    /// the first time, nobody afterwards.
    pub fn fire(&mut self) -> (woken: Vec<u64>)
        ensures
            final(self)@ == old(self)@.trigger(),
            woken@ == old(self)@.released(),
            old(self)@.wf() ==> final(self)@.wf() && woken@.no_duplicates(),
    {
        match self.trigger() {
            Some(released) => released,
            None => Vec::new(),
        }
    }

    /// Asks to wait for the stop request, as the waiter `id`.
    ///
    /// After the request has been made the answer is `Ready` and nothing is
    /// registered. Before it, the waiter is registered (once, however often it
    /// asks) and the answer is `Parked`.
    pub fn wait(&mut self, id: u64) -> (outcome: WaitOutcome)
        ensures
            outcome == old(self)@.wait_outcome(),
            final(self)@ == old(self)@.wait(id),
            old(self)@.wf() ==> final(self)@.wf(),
    {
        if self.triggered {
            return WaitOutcome::Ready;
        }
        if !self.is_registered(id) {
            self.waiters.push(id);
        }
        WaitOutcome::Parked
    }

    /// Whether the waiter `id` is registered.
    pub fn is_registered(&self, id: u64) -> (found: bool)
        ensures
            found == self@.waiters.contains(id),
    {
        self.position(id).is_some()
    }

    /// Takes the waiter `id` off the signal, if it is registered: it gave up
    /// waiting. Returns whether it was registered.
    pub fn forget(&mut self, id: u64) -> (was_registered: bool)
        ensures
            was_registered == old(self)@.waiters.contains(id),
            final(self)@ == old(self)@.forget(id),
            old(self)@.wf() ==> final(self)@.wf(),
    {
        proof {
            self.waiters@.index_of_first_ensures(id);
            if self@.wf() {
                forget_keeps_wf(self@, id);
            }
        }
        match self.position(id) {
            Some(i) => {
                self.waiters.remove(i);
                true
            },
            None => false,
        }
    }

    /// The place of the waiter `id` among the registered ones.
    fn position(&self, id: u64) -> (at: Option<usize>)
        ensures
            at is Some <==> self@.waiters.contains(id),
            at is Some ==> at->Some_0 < self@.waiters.len() && self@.waiters[at->Some_0 as int]
                == id,
            at is Some ==> forall|j: int| 0 <= j < at->Some_0 ==> self@.waiters[j] != id,
    {
        let n: usize = self.waiters.len();
        let mut i: usize = 0;
        while i < n
            invariant
                n == self.waiters@.len(),
                i <= n,
                forall|j: int| 0 <= j < i ==> self.waiters@[j] != id,
            decreases n - i,
        {
            if self.waiters[i] == id {
                return Some(i);
            }
            i += 1;
        }
        None
    }
}

/// Forgetting a waiter keeps a well-formed state well-formed.
pub proof fn forget_keeps_wf(s: StopView, id: u64)
    requires
        s.wf(),
    ensures
        s.forget(id).wf(),
{
    s.waiters.index_of_first_ensures(id);
}

/// Every operation keeps a well-formed state well-formed.
pub proof fn apply_keeps_wf(s: StopView, op: StopOp)
    requires
        s.wf(),
    ensures
        s.apply(op).wf(),
{
    match op {
        StopOp::Trigger => {},
        StopOp::Wait(id) => {},
        StopOp::Forget(id) => {
            forget_keeps_wf(s, id);
        },
    }
}

/// Once the stop has been requested, no operation changes the signal: it stays
/// requested, and nobody is registered on it, whatever is called and however
/// often.
pub proof fn triggered_is_final(s: StopView, ops: Seq<StopOp>)
    requires
        s.wf(),
        s.triggered,
    ensures
        s.apply_all(ops) == s,
    decreases ops.len(),
{
    if ops.len() > 0 {
        assert(s.waiters =~= Seq::empty());
        s.waiters.index_of_first_ensures(ops[0]->Forget_0);
        assert(s.apply(ops[0]) == s);
        triggered_is_final(s, ops.drop_first());
    }
}

/// A `wait` that takes effect after any `trigger` is answered `Ready`, and
/// registers nothing: whatever ran before the trigger and whatever ran between
/// the trigger and the wait.
pub proof fn wait_after_trigger_is_ready(
    s: StopView,
    before: Seq<StopOp>,
    between: Seq<StopOp>,
    id: u64,
)
    requires
        s.wf(),
    ensures
        s.apply_all(before).trigger().apply_all(between).wait_outcome() == WaitOutcome::Ready,
        s.apply_all(before).trigger().apply_all(between).wait(id) == s.apply_all(
            before,
        ).trigger(),
{
    exactly_one_effective_trigger(s, before);
    let fired = s.apply_all(before).trigger();
    triggered_is_final(fired, between);
}

/// Of any sequence of operations on a signal, the number that change it from
/// "not requested" to "requested" is one where the signal was not yet
/// requested and the sequence holds a trigger, and none otherwise. However
/// many triggers there are, only the first has an effect.
pub proof fn exactly_one_effective_trigger(s: StopView, ops: Seq<StopOp>)
    requires
        s.wf(),
    ensures
        s.effective_triggers(ops) == (if !s.triggered && has_trigger(ops) {
            1nat
        } else {
            0nat
        }),
        s.apply_all(ops).triggered == (s.triggered || has_trigger(ops)),
        s.apply_all(ops).wf(),
    decreases ops.len(),
{
    if ops.len() == 0 {
        assert(!has_trigger(ops));
    } else {
        let rest = ops.drop_first();
        apply_keeps_wf(s, ops[0]);
        exactly_one_effective_trigger(s.apply(ops[0]), rest);
        if has_trigger(rest) {
            let i = choose|i: int| 0 <= i < rest.len() && #[trigger] rest[i] is Trigger;
            assert(ops[i + 1] is Trigger);
        }
        if has_trigger(ops) {
            let i = choose|i: int| 0 <= i < ops.len() && #[trigger] ops[i] is Trigger;
            if i > 0 {
                assert(rest[i - 1] is Trigger);
            }
        }
        if ops[0] is Trigger {
            assert(has_trigger(ops));
        }
    }
}

} // verus!
