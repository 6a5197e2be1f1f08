//! Verification of cluster responses and delivery of their results.
//!
//! A response is matched to its request by identifier alone, never by the
//! order of arrival. It is accepted once, and only while its request is
//! queued for the circuit whose callback received it. There is no retry: a
//! response that does not check out ends its request.

use crate::encoding::{le_bytes, nonce_from_le_bytes};
use crate::errors::ErrorCode;
use crate::ledger::Ledger;
use crate::registry::DefinitionHandle;
use crate::requests::{is_queued, RequestRecord, RequestStatus};
use vstd::prelude::*;

verus! {

/// Bytes of a signed payload ahead of its ciphertexts: a 32-byte public key
/// and a 16-byte nonce.
pub const PAYLOAD_HEADER: usize = 48;

/// Bytes of one ciphertext.
pub const CIPHERTEXT_BYTES: usize = 32;

/// What checking a response's threshold signature against the cluster's
/// signing set and against its request came to.
#[derive(Debug, PartialEq, Eq)]
pub enum Attestation {
    /// The signature holds. The bytes are the signed output: public key,
    /// nonce, then the output ciphertexts in the circuit's order.
    Verified(Vec<u8>),
    /// The cluster reported failure, or the signature did not check out.
    Unverified,
}

/// The cluster's response to one request.
#[derive(Debug, PartialEq, Eq)]
pub struct CallbackResult {
    /// Identifier of the request that the response claims to answer.
    pub computation_offset: u64,
    /// Outcome of the signature check.
    pub attestation: Attestation,
}

/// The decoded output of a circuit: ciphertexts under a shared key.
#[derive(Debug, PartialEq, Eq)]
pub struct SharedEncryptedOutput {
    /// Public key the output was encrypted under.
    pub encryption_key: [u8; 32],
    /// Nonce the output was encrypted with.
    pub nonce: u128,
    /// Output ciphertexts, in the circuit's order.
    pub ciphertexts: Vec<[u8; 32]>,
}

/// Whether `output` is what `payload` holds: the key in the first 32 bytes,
/// the nonce in the next 16, least significant byte first, and every
/// ciphertext in its 32 bytes after that, with nothing left over.
pub open spec fn decodes(payload: Seq<u8>, output: SharedEncryptedOutput) -> bool {
    &&& payload.len() == PAYLOAD_HEADER + CIPHERTEXT_BYTES * output.ciphertexts@.len()
    &&& output.encryption_key@ == payload.subrange(0, 32)
    &&& le_bytes(output.nonce) == payload.subrange(32, 48)
    &&& forall|index: int|
        0 <= index < output.ciphertexts@.len() ==> (#[trigger] output.ciphertexts@[index])@
            == payload.subrange(48 + 32 * index, 80 + 32 * index)
}

/// Whether a response carries a verified payload of the length that a
/// circuit with `ciphertexts` outputs produces.
pub open spec fn attested(result: CallbackResult, ciphertexts: nat) -> bool {
    match result.attestation {
        Attestation::Verified(payload) => payload@.len() == PAYLOAD_HEADER + CIPHERTEXT_BYTES
            * ciphertexts,
        Attestation::Unverified => false,
    }
}

/// Whether the request under `id` is queued for the circuit of `definition`.
pub open spec fn awaited(requests: Map<u64, RequestRecord>, id: u64, definition: DefinitionHandle) -> bool {
    requests.contains_key(id) && requests[id] == RequestRecord {
        definition,
        status: RequestStatus::Queued,
    }
}

/// The requests on record after the callback of `definition` received a
/// response for `id`. A response that no queued request of that circuit awaits
/// changes nothing; otherwise the request ends as emitted if the response was
/// delivered, and as aborted if it was not.
pub open spec fn resolution(
    requests: Map<u64, RequestRecord>,
    id: u64,
    definition: DefinitionHandle,
    delivered: bool,
) -> Map<u64, RequestRecord> {
    if !awaited(requests, id, definition) {
        requests
    } else if delivered {
        requests.insert(id, RequestRecord { definition, status: RequestStatus::Emitted })
    } else {
        requests.insert(id, RequestRecord { definition, status: RequestStatus::Aborted })
    }
}

/// Whether the callback of `definition` accepts `result`: a queued request of
/// that circuit awaits it, and it carries a verified payload of `ciphertexts`
/// ciphertexts.
pub open spec fn accepted(before: Ledger, definition: DefinitionHandle, result: CallbackResult, ciphertexts: nat) -> bool {
    awaited(before.requests@, result.computation_offset, definition) && attested(
        result,
        ciphertexts,
    )
}

/// What a callback does to the ledger: cluster and registry stay as they are
/// and the requests on record become what [`resolution`] says.
pub open spec fn settled(
    before: Ledger,
    after: Ledger,
    definition: DefinitionHandle,
    result: CallbackResult,
    ciphertexts: nat,
) -> bool {
    &&& after.cluster == before.cluster
    &&& after.registry@ == before.registry@
    &&& after.requests@ == resolution(
        before.requests@,
        result.computation_offset,
        definition,
        attested(result, ciphertexts),
    )
}

/// Copies the `N` bytes of `payload` that begin at `start`.
fn read_bytes<const N: usize>(payload: &Vec<u8>, start: usize) -> (block: [u8; N])
    requires
        start + N <= payload.len(),
    ensures
        block@ == payload@.subrange(start as int, start + N),
{
    let mut block = [0u8; N];
    let mut index: usize = 0;
    while index < N
        invariant
            index <= N,
            start + N <= payload.len(),
            forall|j: int| 0 <= j < index ==> block@[j] == payload@[start + j],
        decreases N - index,
    {
        block[index] = payload[start + index];
        index += 1;
    }
    block
}

/// Decodes a signed payload into key, nonce and `ciphertexts` ciphertexts.
/// Returns `None` unless the payload has exactly the length of that layout.
pub fn decode_output(payload: &Vec<u8>, ciphertexts: usize) -> (decoded: Option<
    SharedEncryptedOutput,
>)
    ensures
        decoded is Some <==> payload@.len() == PAYLOAD_HEADER + CIPHERTEXT_BYTES * ciphertexts,
        decoded matches Some(output) ==> output.ciphertexts@.len() == ciphertexts && decodes(
            payload@,
            output,
        ),
{
    let length = payload.len();
    if length < PAYLOAD_HEADER {
        return None;
    }
    let body = length - PAYLOAD_HEADER;
    if body % CIPHERTEXT_BYTES != 0 || body / CIPHERTEXT_BYTES != ciphertexts {
        return None;
    }
    let encryption_key: [u8; 32] = read_bytes(payload, 0);
    let nonce_bytes: [u8; 16] = read_bytes(payload, 32);
    let nonce = nonce_from_le_bytes(&nonce_bytes);
    let mut list: Vec<[u8; 32]> = Vec::new();
    let mut index: usize = 0;
    while index < ciphertexts
        invariant
            index <= ciphertexts,
            payload.len() == 48 + 32 * ciphertexts,
            list@.len() == index,
            forall|j: int|
                0 <= j < index ==> (#[trigger] list@[j])@ == payload@.subrange(
                    48 + 32 * j,
                    80 + 32 * j,
                ),
        decreases ciphertexts - index,
    {
        let ciphertext: [u8; 32] = read_bytes(payload, 48 + 32 * index);
        list.push(ciphertext);
        index += 1;
    }
    Some(SharedEncryptedOutput { encryption_key, nonce, ciphertexts: list })
}

/// Settles the response that the callback of `definition` received. If no
/// queued request of that circuit awaits it, the response is rejected and the
/// ledger stays as it was. Otherwise the request ends here: as emitted, with
/// the decoded output returned, if the response is verified and its payload
/// holds `ciphertexts` ciphertexts; as aborted if not.
pub fn resolve(ledger: &mut Ledger, definition: DefinitionHandle, result: CallbackResult, ciphertexts: usize) -> (outcome:
    Result<SharedEncryptedOutput, ErrorCode>)
    ensures
        settled(*old(ledger), *final(ledger), definition, result, ciphertexts as nat),
        outcome is Ok <==> accepted(*old(ledger), definition, result, ciphertexts as nat),
        outcome matches Ok(output) ==> output.ciphertexts@.len() == ciphertexts && (
        result.attestation matches Attestation::Verified(payload) && decodes(payload@, output)),
        outcome matches Err(error) ==> error == ErrorCode::AbortedComputation,
{
    let id = result.computation_offset;
    match ledger.requests.record(id) {
        Some(record) => {
            if record.status != RequestStatus::Queued || record.definition != definition {
                return Err(ErrorCode::AbortedComputation);
            }
        },
        None => {
            return Err(ErrorCode::AbortedComputation);
        },
    }
    let decoded = match &result.attestation {
        Attestation::Verified(payload) => decode_output(payload, ciphertexts),
        Attestation::Unverified => None,
    };
    match decoded {
        Some(output) => {
            ledger.requests.store(
                id,
                RequestRecord { definition, status: RequestStatus::Emitted },
            );
            Ok(output)
        },
        None => {
            ledger.requests.store(
                id,
                RequestRecord { definition, status: RequestStatus::Aborted },
            );
            Err(ErrorCode::AbortedComputation)
        },
    }
}

/// A response for an identifier that is unknown or already resolved is
/// rejected: whatever circuit's callback received it and whatever it
/// carries, no request awaits it and the requests on record stay as they are.
pub proof fn lemma_unawaited_callback_rejected(
    requests: Map<u64, RequestRecord>,
    id: u64,
    definition: DefinitionHandle,
    delivered: bool,
)
    requires
        !is_queued(requests, id),
    ensures
        !awaited(requests, id, definition),
        resolution(requests, id, definition, delivered) == requests,
{
}

/// A response that reaches the callback of another circuit than the one its
/// request was submitted for is rejected, and the request stays queued.
pub proof fn lemma_foreign_callback_rejected(
    requests: Map<u64, RequestRecord>,
    id: u64,
    definition: DefinitionHandle,
    delivered: bool,
)
    requires
        is_queued(requests, id),
        requests[id].definition != definition,
    ensures
        !awaited(requests, id, definition),
        resolution(requests, id, definition, delivered) == requests,
        is_queued(resolution(requests, id, definition, delivered), id),
{
}

/// The response that a queued request awaits ends it, as emitted if it was
/// delivered and as aborted if it was not, and from then on every response
/// for the same identifier is rejected: a request is answered once.
pub proof fn lemma_callback_resolves_once(
    requests: Map<u64, RequestRecord>,
    id: u64,
    definition: DefinitionHandle,
    delivered: bool,
    later_definition: DefinitionHandle,
    later_delivered: bool,
)
    requires
        awaited(requests, id, definition),
    ensures
        ({
            let resolved = resolution(requests, id, definition, delivered);
            &&& resolved.contains_key(id)
            &&& resolved[id].definition == definition
            &&& resolved[id].status == if delivered {
                RequestStatus::Emitted
            } else {
                RequestStatus::Aborted
            }
            &&& !awaited(resolved, id, later_definition)
            &&& resolution(resolved, id, later_definition, later_delivered) == resolved
        }),
{
}

/// A response touches no request but the one it names.
pub proof fn lemma_resolution_keeps_other_requests(
    requests: Map<u64, RequestRecord>,
    id: u64,
    definition: DefinitionHandle,
    delivered: bool,
    other: u64,
)
    requires
        other != id,
    ensures
        ({
            let after = resolution(requests, id, definition, delivered);
            &&& after.contains_key(other) == requests.contains_key(other)
            &&& requests.contains_key(other) ==> after[other] == requests[other]
        }),
{
}

/// Responses to different requests may arrive in either order: the requests
/// on record end up the same.
pub proof fn lemma_resolutions_commute(
    requests: Map<u64, RequestRecord>,
    first: u64,
    first_definition: DefinitionHandle,
    first_delivered: bool,
    second: u64,
    second_definition: DefinitionHandle,
    second_delivered: bool,
)
    requires
        first != second,
    ensures
        resolution(
            resolution(requests, first, first_definition, first_delivered),
            second,
            second_definition,
            second_delivered,
        ) == resolution(
            resolution(requests, second, second_definition, second_delivered),
            first,
            first_definition,
            first_delivered,
        ),
{
}

} // verus!
