//! Why a service could not be started.
use vstd::prelude::*;

verus! {

/// A failure that ends the start of a service before the hosted task runs.
#[derive(Clone, Copy, Debug, PartialEq, Eq, Structural)]
pub enum StartupError {
    /// The service manager did not accept the control handler.
    Registration,
    /// The handlers for the process signals could not be installed.
    SignalListener,
}

} // verus!
