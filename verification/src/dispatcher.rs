//! Submission of computation requests.
//!
//! A submission is checked, recorded as `Queued` and turned into the request
//! that is handed to the compute cluster, all in one step. It does not wait
//! for the computation: the answer arrives later, as a callback.

use crate::arguments::{
    argument_bundle,
    bundle_arguments,
    encode_arguments,
    listed_arguments,
    EncryptedOperand,
    EncryptionContext,
    MAX_ARGUMENTS,
};
use crate::errors::ErrorCode;
use crate::ledger::Ledger;
use crate::registry::DefinitionHandle;
use crate::requests::{is_queued, RequestRecord, RequestStatus};
use arcium_anchor::prelude::ArgumentList;
use vstd::prelude::*;

verus! {

/// Callback transactions that the cluster is asked to send per request.
pub const CALLBACK_TRANSACTIONS: u8 = 1;

/// Priority price per compute unit that a request offers, in micro-lamports.
pub const COMPUTE_UNIT_PRICE: u64 = 0;

/// A request as it is handed to the compute cluster.
#[derive(Debug)]
pub struct ComputationRequest {
    /// Identifier of the request, chosen by the caller.
    pub computation_offset: u64,
    /// The definition the request is for. It also binds the callback: only
    /// the callback of this circuit may answer the request.
    pub definition: DefinitionHandle,
    /// Offset of the cluster that executes the request.
    pub cluster: u32,
    /// The arguments, in the order the cluster reads them.
    pub arguments: ArgumentList,
    /// Callback transactions the cluster is asked to send.
    pub num_callback_txs: u8,
    /// Priority price per compute unit, in micro-lamports.
    pub cu_price_micro: u64,
}

/// Why a submission is refused, or `None` if it is accepted. A missing
/// definition is reported before anything else. Then a cluster has to be
/// assigned, and the operands have to be as many as the definition declares
/// and few enough to be listed. Last, no request with the same identifier
/// may still be queued.
pub open spec fn refusal(
    cluster: Option<u32>,
    definitions: Map<u32, usize>,
    requests: Map<u64, RequestRecord>,
    id: u64,
    definition: DefinitionHandle,
    operands: nat,
) -> Option<ErrorCode> {
    if !definitions.contains_key(definition.offset) {
        Some(ErrorCode::UnknownCircuit)
    } else if cluster is None {
        Some(ErrorCode::ClusterNotSet)
    } else if operands != definitions[definition.offset] || operands + 2 > MAX_ARGUMENTS {
        Some(ErrorCode::MalformedOperands)
    } else if is_queued(requests, id) {
        Some(ErrorCode::DuplicateRequest)
    } else {
        None
    }
}

/// The requests on record after a submission: an accepted one is recorded as
/// queued, a refused one changes nothing.
pub open spec fn submission(
    cluster: Option<u32>,
    definitions: Map<u32, usize>,
    requests: Map<u64, RequestRecord>,
    id: u64,
    definition: DefinitionHandle,
    operands: nat,
) -> Map<u64, RequestRecord> {
    if refusal(cluster, definitions, requests, id, definition, operands) is None {
        requests.insert(
            id,
            RequestRecord { definition, status: RequestStatus::Queued },
        )
    } else {
        requests
    }
}

/// What a submission does to the ledger and what it returns. Cluster and
/// registry stay as they are and the requests on record become what
/// [`submission`] says. An accepted submission returns the request with its
/// arguments listed as public key, nonce, operands; a refused one returns the
/// error that [`refusal`] names.
pub open spec fn submitted(
    before: Ledger,
    after: Ledger,
    result: Result<ComputationRequest, ErrorCode>,
    id: u64,
    definition: DefinitionHandle,
    context: EncryptionContext,
    operands: Seq<EncryptedOperand>,
) -> bool {
    let refused = refusal(
        before.cluster,
        before.registry@,
        before.requests@,
        id,
        definition,
        operands.len(),
    );
    &&& after.cluster == before.cluster
    &&& after.registry@ == before.registry@
    &&& after.requests@ == submission(
        before.cluster,
        before.registry@,
        before.requests@,
        id,
        definition,
        operands.len(),
    )
    &&& match result {
        Ok(request) => {
            &&& refused is None
            &&& request.computation_offset == id
            &&& request.definition == definition
            &&& before.cluster == Some(request.cluster)
            &&& listed_arguments(request.arguments) == argument_bundle(context, operands)
            &&& request.num_callback_txs == CALLBACK_TRANSACTIONS
            &&& request.cu_price_micro == COMPUTE_UNIT_PRICE
        },
        Err(error) => refused == Some(error),
    }
}

/// Submits a request for `definition` under the identifier
/// `computation_offset`. An accepted request is recorded as queued and
/// returned with its arguments laid out as public key, nonce, operands; a
/// refused one leaves the ledger as it was.
pub fn submit(
    ledger: &mut Ledger,
    computation_offset: u64,
    definition: DefinitionHandle,
    context: EncryptionContext,
    operands: Vec<EncryptedOperand>,
) -> (result: Result<ComputationRequest, ErrorCode>)
    ensures
        submitted(
            *old(ledger),
            *final(ledger),
            result,
            computation_offset,
            definition,
            context,
            operands@,
        ),
{
    let declared = match ledger.registry.definition(definition) {
        Some(declared) => declared,
        None => { return Err(ErrorCode::UnknownCircuit); },
    };
    let cluster = match ledger.cluster {
        Some(cluster) => cluster,
        None => { return Err(ErrorCode::ClusterNotSet); },
    };
    if operands.len() != declared.operands {
        return Err(ErrorCode::MalformedOperands);
    }
    let bundle = bundle_arguments(&context, &operands);
    let arguments = match encode_arguments(&bundle) {
        Some(arguments) => arguments,
        None => { return Err(ErrorCode::MalformedOperands); },
    };
    match ledger.requests.status(computation_offset) {
        Some(RequestStatus::Queued) => { return Err(ErrorCode::DuplicateRequest); },
        _ => {},
    }
    ledger.requests.store(
        computation_offset,
        RequestRecord { definition, status: RequestStatus::Queued },
    );
    Ok(
        ComputationRequest {
            computation_offset,
            definition,
            cluster,
            arguments,
            num_callback_txs: CALLBACK_TRANSACTIONS,
            cu_price_micro: COMPUTE_UNIT_PRICE,
        },
    )
}

/// While a request is queued, every further submission under its identifier
/// is refused and leaves the requests on record as they were, whatever else
/// it asks for; one that is in order apart from its identifier is refused as
/// a duplicate.
pub proof fn lemma_duplicate_submission_refused(
    cluster: Option<u32>,
    definitions: Map<u32, usize>,
    requests: Map<u64, RequestRecord>,
    id: u64,
    definition: DefinitionHandle,
    operands: nat,
)
    requires
        is_queued(requests, id),
    ensures
        refusal(cluster, definitions, requests, id, definition, operands) is Some,
        submission(cluster, definitions, requests, id, definition, operands) == requests,
        cluster is Some && definitions.contains_key(definition.offset) && operands
            == definitions[definition.offset] && operands + 2 <= MAX_ARGUMENTS ==> refusal(
            cluster,
            definitions,
            requests,
            id,
            definition,
            operands,
        ) == Some(ErrorCode::DuplicateRequest),
{
}

/// An accepted submission leaves its request queued, so a second submission
/// under the same identifier, made before any callback, is refused.
pub proof fn lemma_accepted_submission_is_queued(
    cluster: Option<u32>,
    definitions: Map<u32, usize>,
    requests: Map<u64, RequestRecord>,
    id: u64,
    definition: DefinitionHandle,
    operands: nat,
    next_cluster: Option<u32>,
    next_definitions: Map<u32, usize>,
    next_definition: DefinitionHandle,
    next_operands: nat,
)
    requires
        refusal(cluster, definitions, requests, id, definition, operands) is None,
    ensures
        ({
            let queued = submission(cluster, definitions, requests, id, definition, operands);
            &&& is_queued(queued, id)
            &&& queued[id].definition == definition
            &&& refusal(
                next_cluster,
                next_definitions,
                queued,
                id,
                next_definition,
                next_operands,
            ) is Some
            &&& submission(
                next_cluster,
                next_definitions,
                queued,
                id,
                next_definition,
                next_operands,
            ) == queued
        }),
{
}

/// A submission touches no request but its own: whatever is on record under
/// another identifier stays as it is.
pub proof fn lemma_submission_keeps_other_requests(
    cluster: Option<u32>,
    definitions: Map<u32, usize>,
    requests: Map<u64, RequestRecord>,
    id: u64,
    definition: DefinitionHandle,
    operands: nat,
    other: u64,
)
    requires
        other != id,
    ensures
        ({
            let after = submission(cluster, definitions, requests, id, definition, operands);
            &&& after.contains_key(other) == requests.contains_key(other)
            &&& requests.contains_key(other) ==> after[other] == requests[other]
        }),
{
}

} // verus!
