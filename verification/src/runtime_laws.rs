//! What holds of every run of the runtime.
use vstd::prelude::*;
use crate::runtime::{
    elapsed, forced_actions, task_end, Lifecycle, Phase, RuntimeAction, RuntimeEvent, TaskOutcome,
    Terminal, TimedEvent, Trace,
};

verus! {

/// Whether the actions hold the forced abort of the hosted task.
pub open spec fn aborts_main(actions: Seq<RuntimeAction>) -> bool {
    actions.contains(RuntimeAction::AbortMain)
}

/// Whether the actions hold the abort of the signal listener.
pub open spec fn aborts_listener(actions: Seq<RuntimeAction>) -> bool {
    actions.contains(RuntimeAction::AbortListener)
}

/// What one step hands out, apart from what was handed out before.
pub open spec fn step_actions(t: Trace, ev: TimedEvent) -> Seq<RuntimeAction> {
    t.state.actions(t.stop, ev.event, ev.at_ms)
}

/// Replaying a sequence is taking its first event and replaying the rest.
pub proof fn replay_first(t: Trace, ev: TimedEvent, rest: Seq<TimedEvent>)
    ensures
        t.replay(seq![ev] + rest) == t.step(ev).replay(rest),
{
    let events = seq![ev] + rest;
    assert(events[0] == ev);
    assert(events.drop_first() =~= rest);
}

/// A step never takes a run back. The grace period stays; a stop request,
/// once made, stays made; the task is aborted in exactly the steps that end
/// the run by force; and the signal listener is aborted in exactly the steps
/// that end the run.
pub proof fn steps_go_forward(t: Trace, ev: TimedEvent)
    ensures
        t.step(ev).state.grace_ms == t.state.grace_ms,
        t.step(ev).state.rank() >= t.state.rank(),
        t.stop.triggered ==> t.step(ev).stop.triggered,
        t.stop.wf() ==> t.step(ev).stop.wf(),
        aborts_main(step_actions(t, ev)) <==> !(t.state.phase is Stopped) && t.step(ev).state.phase
            == Phase::Stopped(Terminal::Forced),
        aborts_listener(step_actions(t, ev)) <==> !(t.state.phase is Stopped) && t.step(
            ev,
        ).state.phase is Stopped,
        t.step(ev).actions == t.actions + step_actions(t, ev),
{
    let acts = step_actions(t, ev);
    let forced = forced_actions();
    assert(forced[1] == RuntimeAction::AbortMain);
    assert(forced[2] == RuntimeAction::AbortListener);
    match (t.state.phase, ev.event) {
        (Phase::Racing, RuntimeEvent::MainCompleted(outcome)) => {
            assert(acts[1] == RuntimeAction::AbortListener);
        },
        (Phase::Escalating { since_ms }, RuntimeEvent::MainCompleted(outcome)) => {
            if elapsed(since_ms, ev.at_ms) <= t.state.grace_ms {
                assert(acts[2] == RuntimeAction::AbortListener);
            }
        },
        _ => {},
    }
}

/// The task is aborted by force only in a run that ends as forced: where the
/// actions handed out hold the abort, the run has ended, and its end is
/// `Forced`, never a graceful one.
pub proof fn abort_means_forced(t: Trace, events: Seq<TimedEvent>)
    requires
        aborts_main(t.actions) ==> t.state.phase == Phase::Stopped(Terminal::Forced),
    ensures
        aborts_main(t.replay(events).actions) ==> t.replay(events).state.phase == Phase::Stopped(
            Terminal::Forced,
        ),
    decreases events.len(),
{
    if events.len() > 0 {
        let next = t.step(events[0]);
        steps_go_forward(t, events[0]);
        contains_concat(t.actions, step_actions(t, events[0]), RuntimeAction::AbortMain);
        abort_means_forced(next, events.drop_first());
    }
}

/// Where the task ends while the run is still racing, that is before any stop
/// request was seen, the run is over at once: it records how the task ended,
/// requests the stop so that every waiter unwinds, aborts the signal listener
/// and never aborts the task, whatever is reported afterwards.
pub proof fn task_first_ends_the_run(
    t: Trace,
    outcome: TaskOutcome,
    at_ms: u64,
    later: Seq<TimedEvent>,
)
    requires
        t.state.phase is Racing,
    ensures
        ({
            let done = TimedEvent { event: RuntimeEvent::MainCompleted(outcome), at_ms };
            let end = t.replay(seq![done] + later);
            &&& end.state.phase == Phase::Stopped(Terminal::Completed(outcome))
            &&& end.actions == t.actions + seq![
                RuntimeAction::Emit(task_end(outcome)),
                RuntimeAction::AbortListener,
            ]
            &&& end.stop == t.stop.trigger()
            &&& end.woken == t.woken + t.stop.released()
            &&& aborts_main(end.actions) == aborts_main(t.actions)
            &&& aborts_listener(end.actions)
        }),
{
    let done = TimedEvent { event: RuntimeEvent::MainCompleted(outcome), at_ms };
    let next = t.step(done);
    replay_first(t, done, later);
    crate::runtime::stopped_is_final(next, later);
    let acts = seq![RuntimeAction::Emit(task_end(outcome)), RuntimeAction::AbortListener];
    assert(next.actions =~= t.actions + acts);
    steps_go_forward(t, done);
    contains_concat(t.actions, acts, RuntimeAction::AbortMain);
    contains_concat(t.actions, acts, RuntimeAction::AbortListener);
}

/// Replaying two sequences one after the other is replaying their
/// concatenation.
pub proof fn replay_concat(t: Trace, first: Seq<TimedEvent>, second: Seq<TimedEvent>)
    ensures
        t.replay(first + second) == t.replay(first).replay(second),
    decreases first.len(),
{
    if first.len() == 0 {
        assert(first + second =~= second);
    } else {
        assert((first + second)[0] == first[0]);
        assert((first + second).drop_first() =~= first.drop_first() + second);
        replay_concat(t.step(first[0]), first.drop_first(), second);
    }
}

/// Whether the event leaves a run waiting that has seen the stop request at
/// `since_ms`: the stop is reported once more, or the timer fires before the
/// grace period is over.
pub open spec fn keeps_waiting(ev: TimedEvent, since_ms: u64, grace_ms: u64) -> bool {
    ev.event is StopObserved || (ev.event is GraceTimerFired && elapsed(since_ms, ev.at_ms)
        < grace_ms)
}

/// Whether every event of the sequence leaves such a run waiting.
pub open spec fn all_keep_waiting(events: Seq<TimedEvent>, since_ms: u64, grace_ms: u64) -> bool {
    forall|i: int| 0 <= i < events.len() ==> keeps_waiting(#[trigger] events[i], since_ms, grace_ms)
}

/// While the grace period runs and the task has not ended, nothing is
/// decided: the run goes on waiting from the same moment, the stop signal is
/// left alone, and neither the task nor the listener is aborted.
pub proof fn waiting_decides_nothing(t: Trace, since_ms: u64, events: Seq<TimedEvent>)
    requires
        t.state.phase == (Phase::Escalating { since_ms }),
        all_keep_waiting(events, since_ms, t.state.grace_ms),
    ensures
        t.replay(events).state == t.state,
        t.replay(events).stop == t.stop,
        t.replay(events).woken == t.woken,
        aborts_main(t.replay(events).actions) == aborts_main(t.actions),
        aborts_listener(t.replay(events).actions) == aborts_listener(t.actions),
    decreases events.len(),
{
    if events.len() > 0 {
        let ev = events[0];
        let next = t.step(ev);
        assert(keeps_waiting(ev, since_ms, t.state.grace_ms));
        steps_go_forward(t, ev);
        let acts = step_actions(t, ev);
        assert(next.state == t.state);
        contains_concat(t.actions, acts, RuntimeAction::AbortMain);
        contains_concat(t.actions, acts, RuntimeAction::AbortListener);
        assert forall|i: int| 0 <= i < events.drop_first().len() implies keeps_waiting(
            #[trigger] events.drop_first()[i],
            since_ms,
            t.state.grace_ms,
        ) by {
            assert(events.drop_first()[i] == events[i + 1]);
        }
        waiting_decides_nothing(next, since_ms, events.drop_first());
    }
}

/// An action is among two sequences put together where it is among one of
/// them.
pub proof fn contains_concat(
    first: Seq<RuntimeAction>,
    second: Seq<RuntimeAction>,
    action: RuntimeAction,
)
    ensures
        (first + second).contains(action) == (first.contains(action) || second.contains(action)),
{
    let both = first + second;
    if both.contains(action) {
        let i = choose|i: int| 0 <= i < both.len() && both[i] == action;
        if i < first.len() {
            assert(first[i] == action);
        } else {
            assert(second[i - first.len()] == action);
        }
    }
    if first.contains(action) {
        let i = choose|i: int| 0 <= i < first.len() && first[i] == action;
        assert(both[i] == action);
    }
    if second.contains(action) {
        let i = choose|i: int| 0 <= i < second.len() && second[i] == action;
        assert(both[first.len() + i] == action);
    }
}

/// A stop request is seen while the run is racing, and then nothing is
/// decided for a while. The grace period runs from the moment at which the
/// request was seen, and its timer is armed for the whole of it; the stop
/// signal is left alone and nothing is aborted. What comes next is taken by a
/// run that waits for the task.
pub proof fn stop_seen_then_waiting(
    t: Trace,
    seen_ms: u64,
    waiting: Seq<TimedEvent>,
    next: TimedEvent,
    later: Seq<TimedEvent>,
)
    requires
        t.state.phase is Racing,
        t.stop.triggered,
        all_keep_waiting(waiting, seen_ms, t.state.grace_ms),
    ensures
        ({
            let seen = TimedEvent { event: RuntimeEvent::StopObserved, at_ms: seen_ms };
            let waited = t.replay(seq![seen] + waiting);
            &&& waited.state.phase == (Phase::Escalating { since_ms: seen_ms })
            &&& waited.state.grace_ms == t.state.grace_ms
            &&& waited.stop == t.stop
            &&& waited.woken == t.woken
            &&& aborts_main(waited.actions) == aborts_main(t.actions)
            &&& aborts_listener(waited.actions) == aborts_listener(t.actions)
            &&& t.step(seen).actions == t.actions + seq![
                RuntimeAction::Emit(Lifecycle::StopRequested),
                RuntimeAction::ArmGraceTimer(t.state.grace_ms),
            ]
            &&& t.replay(seq![seen] + waiting + seq![next] + later) == waited.step(next).replay(
                later,
            )
        }),
{
    let seen = TimedEvent { event: RuntimeEvent::StopObserved, at_ms: seen_ms };
    let begun = t.step(seen);
    replay_first(t, seen, waiting);
    waiting_decides_nothing(begun, seen_ms, waiting);
    let waited = begun.replay(waiting);
    replay_concat(t, seq![seen] + waiting, seq![next] + later);
    assert(seq![seen] + waiting + seq![next] + later =~= (seq![seen] + waiting) + (seq![next]
        + later));
    replay_first(waited, next, later);
    let first = seq![
        RuntimeAction::Emit(Lifecycle::StopRequested),
        RuntimeAction::ArmGraceTimer(t.state.grace_ms),
    ];
    assert(begun.actions =~= t.actions + first);
    steps_go_forward(t, seen);
    contains_concat(t.actions, first, RuntimeAction::AbortMain);
    contains_concat(t.actions, first, RuntimeAction::AbortListener);
}

/// Where a stop request is seen while the run is racing and the task then
/// ends within the grace period, the run ends gracefully and records how the
/// task really ended; the task is not aborted, the signal listener is.
/// Between the two, the stop may be reported again and the timer may fire
/// early, as often as it will.
pub proof fn stop_then_task_is_graceful(
    t: Trace,
    seen_ms: u64,
    waiting: Seq<TimedEvent>,
    outcome: TaskOutcome,
    done_ms: u64,
    later: Seq<TimedEvent>,
)
    requires
        t.state.phase is Racing,
        t.stop.triggered,
        all_keep_waiting(waiting, seen_ms, t.state.grace_ms),
        elapsed(seen_ms, done_ms) <= t.state.grace_ms,
    ensures
        ({
            let seen = TimedEvent { event: RuntimeEvent::StopObserved, at_ms: seen_ms };
            let done = TimedEvent { event: RuntimeEvent::MainCompleted(outcome), at_ms: done_ms };
            let end = t.replay(seq![seen] + waiting + seq![done] + later);
            &&& end.state.phase == Phase::Stopped(Terminal::Graceful(outcome))
            &&& end.actions == t.replay(seq![seen] + waiting).actions + seq![
                RuntimeAction::Emit(task_end(outcome)),
                RuntimeAction::Emit(Lifecycle::GracefulStop),
                RuntimeAction::AbortListener,
            ]
            &&& t.step(seen).actions == t.actions + seq![
                RuntimeAction::Emit(Lifecycle::StopRequested),
                RuntimeAction::ArmGraceTimer(t.state.grace_ms),
            ]
            &&& end.stop == t.stop
            &&& end.woken == t.woken
            &&& aborts_main(end.actions) == aborts_main(t.actions)
            &&& aborts_listener(end.actions)
        }),
{
    let seen = TimedEvent { event: RuntimeEvent::StopObserved, at_ms: seen_ms };
    let done = TimedEvent { event: RuntimeEvent::MainCompleted(outcome), at_ms: done_ms };
    stop_seen_then_waiting(t, seen_ms, waiting, done, later);
    let waited = t.replay(seq![seen] + waiting);
    crate::runtime::stopped_is_final(waited.step(done), later);
    steps_go_forward(waited, done);
    contains_concat(waited.actions, step_actions(waited, done), RuntimeAction::AbortMain);
    contains_concat(waited.actions, step_actions(waited, done), RuntimeAction::AbortListener);
}

/// Whether the event finds the grace period over: the timer fires at or after
/// its end, or the task is seen to end after it.
pub open spec fn finds_grace_over(ev: TimedEvent, since_ms: u64, grace_ms: u64) -> bool {
    ||| ev.event is GraceTimerFired && elapsed(since_ms, ev.at_ms) >= grace_ms
    ||| ev.event is MainCompleted && elapsed(since_ms, ev.at_ms) > grace_ms
}

/// Where a stop request is seen while the run is racing and the task does not
/// end within the grace period, the run ends by force with the first event
/// that finds the grace period over: the task is aborted, then the signal
/// listener, and the end is recorded as `Forced`.
pub proof fn stop_then_timeout_is_forced(
    t: Trace,
    seen_ms: u64,
    waiting: Seq<TimedEvent>,
    expiry: TimedEvent,
    later: Seq<TimedEvent>,
)
    requires
        t.state.phase is Racing,
        t.stop.triggered,
        all_keep_waiting(waiting, seen_ms, t.state.grace_ms),
        finds_grace_over(expiry, seen_ms, t.state.grace_ms),
    ensures
        ({
            let seen = TimedEvent { event: RuntimeEvent::StopObserved, at_ms: seen_ms };
            let end = t.replay(seq![seen] + waiting + seq![expiry] + later);
            &&& end.state.phase == Phase::Stopped(Terminal::Forced)
            &&& end.actions == t.replay(seq![seen] + waiting).actions + seq![
                RuntimeAction::Emit(Lifecycle::ForcedStop),
                RuntimeAction::AbortMain,
                RuntimeAction::AbortListener,
            ]
            &&& t.step(seen).actions == t.actions + seq![
                RuntimeAction::Emit(Lifecycle::StopRequested),
                RuntimeAction::ArmGraceTimer(t.state.grace_ms),
            ]
            &&& end.stop == t.stop
            &&& end.woken == t.woken
            &&& aborts_main(end.actions)
            &&& aborts_listener(end.actions)
        }),
{
    let seen = TimedEvent { event: RuntimeEvent::StopObserved, at_ms: seen_ms };
    stop_seen_then_waiting(t, seen_ms, waiting, expiry, later);
    let waited = t.replay(seq![seen] + waiting);
    crate::runtime::stopped_is_final(waited.step(expiry), later);
    steps_go_forward(waited, expiry);
    contains_concat(waited.actions, step_actions(waited, expiry), RuntimeAction::AbortMain);
    contains_concat(waited.actions, step_actions(waited, expiry), RuntimeAction::AbortListener);
}

/// The grace period bounds the wait. Once a stop request has been seen, the
/// first report of the task's end or of the timer that comes when the grace
/// period is over ends the run; and a run that ended gracefully ended within
/// the grace period, one that ended by force not before it was over.
pub proof fn grace_bounds_the_wait(t: Trace, since_ms: u64, ev: TimedEvent)
    requires
        t.state.phase == (Phase::Escalating { since_ms }),
    ensures
        (ev.event is MainCompleted || ev.event is GraceTimerFired) && elapsed(since_ms, ev.at_ms)
            >= t.state.grace_ms ==> t.step(ev).state.phase is Stopped,
        t.step(ev).state.phase == Phase::Stopped(Terminal::Forced) ==> elapsed(since_ms, ev.at_ms)
            >= t.state.grace_ms,
        (exists|outcome: TaskOutcome|
            t.step(ev).state.phase == Phase::Stopped(Terminal::Graceful(outcome))) ==> elapsed(
            since_ms,
            ev.at_ms,
        ) <= t.state.grace_ms,
        !(t.step(ev).state.phase is Stopped) ==> t.step(ev).state == t.state,
{
}

} // verus!
