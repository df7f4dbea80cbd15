//! The listener that turns process signals into the stop request.
//!
//! The caller waits for the interrupt signal, the terminate signal and the
//! stop signal at once, and reports whichever came as an event. The listener
//! decides what that means.
use vstd::prelude::*;
use crate::runtime::AsyncService;
use crate::stop_signal::{StopSignal, StopView};

verus! {

/// A signal by which the operating system asks the process to end.
#[derive(Clone, Copy, Debug, PartialEq, Eq, Structural)]
pub enum ProcessSignal {
    Interrupt,
    Terminate,
}

/// What the caller reports to the listener.
#[derive(Clone, Copy, Debug, PartialEq, Eq, Structural)]
pub enum ListenerEvent {
    /// A process signal has arrived.
    Signal(ProcessSignal),
    /// The wait on the stop signal has returned.
    StopObserved,
}

/// Whether the listener goes on.
#[derive(Clone, Copy, Debug, PartialEq, Eq, Structural)]
pub enum ListenerVerdict {
    /// Nothing has happened yet: wait again.
    KeepListening,
    /// The listener's work is done: its activity ends, without an error.
    Exit,
}

/// What a step of the listener hands to the caller.
pub struct ListenerStep {
    pub verdict: ListenerVerdict,
    /// The waiters on the stop signal that the step released: the caller
    /// wakes each of them.
    pub woken: Vec<u64>,
}

/// Whether the event makes the listener request the stop: every process
/// signal does, whichever it is.
pub open spec fn listener_triggers(ev: ListenerEvent) -> bool {
    ev is Signal
}

/// The stop signal after the listener has taken the event.
pub open spec fn listener_stop(stop: StopView, ev: ListenerEvent) -> StopView {
    if listener_triggers(ev) {
        stop.trigger()
    } else {
        stop
    }
}

/// The waiters that the listener releases on the event.
pub open spec fn listener_woken(stop: StopView, ev: ListenerEvent) -> Seq<u64> {
    if listener_triggers(ev) {
        stop.released()
    } else {
        Seq::empty()
    }
}

/// The listener's verdict on the event: it is done when a signal arrived, or
/// when the stop has been requested by someone else.
pub open spec fn listener_verdict(stop: StopView, ev: ListenerEvent) -> ListenerVerdict {
    if listener_triggers(ev) || stop.triggered {
        ListenerVerdict::Exit
    } else {
        ListenerVerdict::KeepListening
    }
}

impl AsyncService {
    /// Takes one event of the signal listener.
    ///
    /// On a process signal the stop is requested and the listener is done. On
    /// a stop request made elsewhere the listener is done and changes nothing.
    /// A wake-up without a stop request changes nothing either, and the
    /// listener waits again.
    pub fn signals(stop: &mut StopSignal, ev: ListenerEvent) -> (out: ListenerStep)
        ensures
            final(stop)@ == listener_stop(old(stop)@, ev),
            out.woken@ == listener_woken(old(stop)@, ev),
            out.verdict == listener_verdict(old(stop)@, ev),
            old(stop)@.wf() ==> final(stop)@.wf(),
    {
        match ev {
            ListenerEvent::Signal(_) => {
                let woken: Vec<u64> = stop.fire();
                ListenerStep { verdict: ListenerVerdict::Exit, woken }
            },
            ListenerEvent::StopObserved => {
                let verdict = if stop.is_triggered() {
                    ListenerVerdict::Exit
                } else {
                    ListenerVerdict::KeepListening
                };
                ListenerStep { verdict, woken: Vec::new() }
            },
        }
    }
}

/// The interrupt signal and the terminate signal are treated alike, and after
/// either the stop is requested and the listener is done.
pub proof fn signals_are_alike(stop: StopView)
    ensures
        listener_stop(stop, ListenerEvent::Signal(ProcessSignal::Interrupt)) == listener_stop(
            stop,
            ListenerEvent::Signal(ProcessSignal::Terminate),
        ),
        listener_woken(stop, ListenerEvent::Signal(ProcessSignal::Interrupt)) == listener_woken(
            stop,
            ListenerEvent::Signal(ProcessSignal::Terminate),
        ),
        listener_verdict(stop, ListenerEvent::Signal(ProcessSignal::Interrupt))
            == ListenerVerdict::Exit,
        listener_verdict(stop, ListenerEvent::Signal(ProcessSignal::Terminate))
            == ListenerVerdict::Exit,
        listener_stop(stop, ListenerEvent::Signal(ProcessSignal::Interrupt)).triggered,
{
}

/// The listener never outlives the stop request: once the stop has been
/// requested, every event ends the listener and leaves the signal as it is.
pub proof fn listener_ends_on_stop(stop: StopView, ev: ListenerEvent)
    requires
        stop.wf(),
        stop.triggered,
    ensures
        listener_verdict(stop, ev) == ListenerVerdict::Exit,
        listener_stop(stop, ev) == stop,
        listener_woken(stop, ev) == Seq::<u64>::empty(),
{
    assert(stop.waiters =~= Seq::empty());
}

} // verus!
