//! Why an operation was refused.

use vstd::prelude::*;

verus! {

/// Every refusal the library reports. Each is local to one request or one
/// registration; none leaves a partial result behind.
#[derive(Clone, Copy, Debug, PartialEq, Eq, Structural)]
pub enum ErrorCode {
    /// A callback did not check out: its signature was not verified, or no
    /// queued request awaits it.
    AbortedComputation,
    /// No compute cluster is assigned to execute requests.
    ClusterNotSet,
    /// No definition is registered for the circuit.
    UnknownCircuit,
    /// A definition is already registered for the circuit.
    AlreadyRegistered,
    /// A request with the same identifier is still queued.
    DuplicateRequest,
    /// The operands do not fit the layout the definition declares.
    MalformedOperands,
}

impl ErrorCode {
    /// The text that [`ErrorCode::message`] returns.
    pub open spec fn message_text(self) -> Seq<char> {
        match self {
            ErrorCode::AbortedComputation => "The computation was aborted"@,
            ErrorCode::ClusterNotSet => "Cluster not set"@,
            ErrorCode::UnknownCircuit => "No definition registered for the circuit"@,
            ErrorCode::AlreadyRegistered => "Definition already registered"@,
            ErrorCode::DuplicateRequest => "Request identifier already queued"@,
            ErrorCode::MalformedOperands => "Operands do not match the definition"@,
        }
    }

    /// A short description of the error.
    pub fn message(self) -> (text: &'static str)
        ensures
            text@ == self.message_text(),
    {
        match self {
            ErrorCode::AbortedComputation => "The computation was aborted",
            ErrorCode::ClusterNotSet => "Cluster not set",
            ErrorCode::UnknownCircuit => "No definition registered for the circuit",
            ErrorCode::AlreadyRegistered => "Definition already registered",
            ErrorCode::DuplicateRequest => "Request identifier already queued",
            ErrorCode::MalformedOperands => "Operands do not match the definition",
        }
    }
}

} // verus!
