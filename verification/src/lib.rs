//! Shutdown coordination for a single hosted workload.
//!
//! A long-running task is hosted as a service. Whoever asks for the end (the
//! service manager, a process signal, or the task itself by ending) the
//! request becomes one stop signal; the runtime races it against the task,
//! gives the task a grace period to end, and aborts it when the grace period
//! is over. Under a service manager the status of the service is reported at
//! every step, with checkpoints while the stop is pending.
//!
//! Everything here is a decision: the modules hold state machines that take
//! what happened and return what to do. Starting tasks, waiting, timers and
//! the calls to the operating system are the caller's.
//!
//! - [`stop_signal`]: the stop request, raised once and seen by every waiter.
//! - [`runtime`]: the race between the task and the stop request.
//! - [`listener`]: process signals as a source of the stop request.
//! - [`host`]: the status record and the controls of a service manager.
//! - [`runtime_laws`], [`host_laws`]: what holds of every run.
pub mod error;
pub mod host;
pub mod host_laws;
pub mod listener;
pub mod runtime;
pub mod runtime_laws;
pub mod stop_signal;
