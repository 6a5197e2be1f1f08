use sip_arcium_transfer::callbacks::{
    decode_output, resolve, Attestation, CallbackResult, SharedEncryptedOutput,
};
use sip_arcium_transfer::errors::ErrorCode;
use sip_arcium_transfer::ledger::Ledger;
use sip_arcium_transfer::registry::DefinitionHandle;
use sip_arcium_transfer::requests::{RequestRecord, RequestStatus};

fn payload(ciphertexts: usize) -> Vec<u8> {
    let mut bytes = Vec::new();
    for index in 0..48 + 32 * ciphertexts {
        bytes.push((index % 251) as u8);
    }
    bytes
}

fn block(bytes: &[u8], start: usize) -> [u8; 32] {
    let mut out = [0u8; 32];
    out.copy_from_slice(&bytes[start..start + 32]);
    out
}

fn queued(id: u64, definition: DefinitionHandle) -> Ledger {
    let mut ledger = Ledger::new(Some(1));
    ledger.requests.store(id, RequestRecord { definition, status: RequestStatus::Queued });
    ledger
}

fn verified(computation_offset: u64, bytes: Vec<u8>) -> CallbackResult {
    CallbackResult { computation_offset, attestation: Attestation::Verified(bytes) }
}

fn unverified(computation_offset: u64) -> CallbackResult {
    CallbackResult { computation_offset, attestation: Attestation::Unverified }
}

#[test]
fn payload_decodes_into_key_nonce_and_ciphertexts() {
    let bytes = payload(2);
    let decoded = decode_output(&bytes, 2).unwrap();
    let mut nonce_bytes = [0u8; 16];
    nonce_bytes.copy_from_slice(&bytes[32..48]);
    assert_eq!(
        decoded,
        SharedEncryptedOutput {
            encryption_key: block(&bytes, 0),
            nonce: u128::from_le_bytes(nonce_bytes),
            ciphertexts: vec![block(&bytes, 48), block(&bytes, 80)],
        }
    );
    assert_eq!(decoded.encryption_key[0], 0);
    assert_eq!(decoded.encryption_key[31], 31);
    assert_eq!(decoded.nonce & 0xff, 32);
    assert_eq!(decoded.ciphertexts[0][0], 48);
    assert_eq!(decoded.ciphertexts[1][31], 111);
}

#[test]
fn payload_of_another_length_does_not_decode() {
    assert!(decode_output(&payload(2), 1).is_none());
    assert!(decode_output(&payload(2), 3).is_none());
    assert!(decode_output(&payload(0), 1).is_none());
    let mut long = payload(2);
    long.push(0);
    assert!(decode_output(&long, 2).is_none());
    let mut short = payload(2);
    short.pop();
    assert!(decode_output(&short, 2).is_none());
    assert!(decode_output(&short, 1).is_none());
    assert!(decode_output(&vec![], 0).is_none());
    assert!(decode_output(&vec![0u8; 47], 0).is_none());
    assert!(decode_output(&payload(1), usize::MAX).is_none());
}

#[test]
fn payload_without_ciphertexts_decodes_to_key_and_nonce() {
    let decoded = decode_output(&payload(0), 0).unwrap();
    assert!(decoded.ciphertexts.is_empty());
    assert_eq!(decoded.encryption_key[5], 5);
}

#[test]
fn verified_response_ends_its_request_as_emitted() {
    let definition = DefinitionHandle { offset: 5 };
    let mut ledger = queued(9, definition);
    let bytes = payload(3);
    let output = resolve(&mut ledger, definition, verified(9, bytes.clone()), 3).unwrap();
    assert_eq!(
        output.ciphertexts,
        vec![block(&bytes, 48), block(&bytes, 80), block(&bytes, 112)]
    );
    assert_eq!(
        ledger.requests.record(9),
        Some(RequestRecord { definition, status: RequestStatus::Emitted })
    );
    assert_eq!(ledger.cluster, Some(1));
}

#[test]
fn unverified_response_ends_its_request_as_aborted() {
    let definition = DefinitionHandle { offset: 5 };
    let mut ledger = queued(9, definition);
    assert_eq!(
        resolve(&mut ledger, definition, unverified(9), 2),
        Err(ErrorCode::AbortedComputation)
    );
    assert_eq!(
        ledger.requests.record(9),
        Some(RequestRecord { definition, status: RequestStatus::Aborted })
    );
}

#[test]
fn verified_response_with_malformed_payload_aborts_its_request() {
    let definition = DefinitionHandle { offset: 5 };
    let mut ledger = queued(9, definition);
    assert_eq!(
        resolve(&mut ledger, definition, verified(9, payload(1)), 2),
        Err(ErrorCode::AbortedComputation)
    );
    assert_eq!(ledger.requests.status(9), Some(RequestStatus::Aborted));
}

#[test]
fn response_for_unknown_request_is_rejected() {
    let definition = DefinitionHandle { offset: 5 };
    let mut ledger = queued(9, definition);
    assert_eq!(
        resolve(&mut ledger, definition, verified(10, payload(2)), 2),
        Err(ErrorCode::AbortedComputation)
    );
    assert_eq!(resolve(&mut ledger, definition, unverified(10), 2), Err(ErrorCode::AbortedComputation));
    assert_eq!(ledger.requests.record(10), None);
    assert_eq!(ledger.requests.status(9), Some(RequestStatus::Queued));
    let mut empty = Ledger::new(Some(1));
    assert_eq!(
        resolve(&mut empty, definition, verified(0, payload(2)), 2),
        Err(ErrorCode::AbortedComputation)
    );
    assert_eq!(empty.requests.record(0), None);
}

#[test]
fn response_for_resolved_request_is_rejected() {
    let definition = DefinitionHandle { offset: 5 };
    let mut ledger = queued(9, definition);
    assert!(resolve(&mut ledger, definition, verified(9, payload(2)), 2).is_ok());
    assert_eq!(
        resolve(&mut ledger, definition, verified(9, payload(2)), 2),
        Err(ErrorCode::AbortedComputation)
    );
    assert_eq!(resolve(&mut ledger, definition, unverified(9), 2), Err(ErrorCode::AbortedComputation));
    assert_eq!(ledger.requests.status(9), Some(RequestStatus::Emitted));

    let mut aborted = queued(4, definition);
    assert!(resolve(&mut aborted, definition, unverified(4), 2).is_err());
    assert_eq!(
        resolve(&mut aborted, definition, verified(4, payload(2)), 2),
        Err(ErrorCode::AbortedComputation)
    );
    assert_eq!(aborted.requests.status(4), Some(RequestStatus::Aborted));
}

#[test]
fn response_to_another_circuit_is_rejected_and_the_request_stays_queued() {
    let definition = DefinitionHandle { offset: 5 };
    let other = DefinitionHandle { offset: 6 };
    let mut ledger = queued(9, definition);
    assert_eq!(
        resolve(&mut ledger, other, verified(9, payload(2)), 2),
        Err(ErrorCode::AbortedComputation)
    );
    assert_eq!(
        ledger.requests.record(9),
        Some(RequestRecord { definition, status: RequestStatus::Queued })
    );
    assert!(resolve(&mut ledger, definition, verified(9, payload(2)), 2).is_ok());
}

#[test]
fn responses_are_matched_by_identifier_in_any_order() {
    let definition = DefinitionHandle { offset: 5 };
    let mut forward = queued(1, definition);
    forward.requests.store(2, RequestRecord { definition, status: RequestStatus::Queued });
    let mut backward = queued(1, definition);
    backward.requests.store(2, RequestRecord { definition, status: RequestStatus::Queued });

    let first = resolve(&mut forward, definition, verified(1, payload(1)), 1);
    let second = resolve(&mut forward, definition, unverified(2), 1);
    let late_second = resolve(&mut backward, definition, unverified(2), 1);
    let late_first = resolve(&mut backward, definition, verified(1, payload(1)), 1);

    assert_eq!(first, late_first);
    assert_eq!(second, late_second);
    for id in [1u64, 2, 3] {
        assert_eq!(forward.requests.record(id), backward.requests.record(id));
    }
    assert_eq!(forward.requests.status(1), Some(RequestStatus::Emitted));
    assert_eq!(forward.requests.status(2), Some(RequestStatus::Aborted));
}
