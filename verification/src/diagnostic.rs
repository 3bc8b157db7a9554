//! What the machines ask the runtime to report.

use vstd::prelude::*;

verus! {

/// A condition worth a line in the log. None of them ends a task.
#[derive(Clone, Copy, Debug, PartialEq, Eq, Structural)]
pub enum Diagnostic {
    /// The live command subscription could not be opened.
    SubscribeFailed,
    /// The command stream itself failed and has to be opened again.
    StreamFailed,
    /// One event of the command stream could not be decoded.
    DecodeFailed,
    /// One poll of a reader failed: the sample could not be decoded, or the
    /// reader could not be asked.
    ReadFailed,
    /// The steering actuator rejected a command.
    SteerFailed,
    /// The motor rejected a command.
    MotorFailed,
    /// No command arrived within the dead-man window; propulsion is zeroed.
    StaleCommand,
    /// The store rejected one reading.
    AppendFailed,
}

impl Diagnostic {
    /// Whether this is a fault, as opposed to the dead-man trigger, which is a
    /// state of the protocol and is reported as staleness.
    pub open spec fn spec_is_error(self) -> bool {
        self != Diagnostic::StaleCommand
    }

    #[verifier::when_used_as_spec(spec_is_error)]
    pub fn is_error(self) -> (fault: bool)
        ensures
            fault == self.spec_is_error(),
    {
        !(self == Diagnostic::StaleCommand)
    }
}

} // verus!
