//! The failures that end the process.

use vstd::prelude::*;

verus! {

/// A failure at startup after which nothing can run safely. There is no
/// degraded mode: the runtime reports it and ends the process.
#[derive(Clone, Copy, Debug, PartialEq, Eq, Structural)]
pub enum FatalError {
    /// The hardware bus could not be opened: every reading and every
    /// actuator command would be undefined.
    BusUnavailable,
    /// The store could not be reached when the runtime started.
    StoreUnavailable,
    /// The motor could not be initialised when the control loop started.
    MotorUnavailable,
    /// The steering could not be initialised when the control loop started.
    SteeringUnavailable,
}

/// What a startup step produced, or the fatal error that its absence means.
pub fn required<T>(produced: Option<T>, otherwise: FatalError) -> (outcome: Result<T, FatalError>)
    ensures
        outcome == match produced {
            Some(value) => Ok::<T, FatalError>(value),
            None => Err::<T, FatalError>(otherwise),
        },
{
    match produced {
        Some(value) => Ok(value),
        None => Err(otherwise),
    }
}

} // verus!
