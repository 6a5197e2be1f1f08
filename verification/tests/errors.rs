use sip_arcium_transfer::errors::ErrorCode;

#[test]
fn error_messages() {
    assert_eq!(ErrorCode::AbortedComputation.message(), "The computation was aborted");
    assert_eq!(ErrorCode::ClusterNotSet.message(), "Cluster not set");
    assert_eq!(ErrorCode::UnknownCircuit.message(), "No definition registered for the circuit");
    assert_eq!(ErrorCode::AlreadyRegistered.message(), "Definition already registered");
    assert_eq!(ErrorCode::DuplicateRequest.message(), "Request identifier already queued");
    assert_eq!(ErrorCode::MalformedOperands.message(), "Operands do not match the definition");
}

#[test]
fn errors_are_told_apart() {
    let all = [
        ErrorCode::AbortedComputation,
        ErrorCode::ClusterNotSet,
        ErrorCode::UnknownCircuit,
        ErrorCode::AlreadyRegistered,
        ErrorCode::DuplicateRequest,
        ErrorCode::MalformedOperands,
    ];
    for (i, left) in all.iter().enumerate() {
        for (j, right) in all.iter().enumerate() {
            assert_eq!(left == right, i == j);
            assert_eq!(left.message() == right.message(), i == j);
        }
    }
}
