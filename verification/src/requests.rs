//! The requests that the ledger has on record, each under its identifier.
//!
//! A request is `Queued` from its submission until the one callback that
//! answers it, which leaves it `Emitted` or `Aborted`. Both are final: only a
//! new submission under the same identifier replaces such a record.

use crate::registry::DefinitionHandle;
use std::collections::HashMap;
use vstd::prelude::*;

verus! {

/// How far a request has come.
#[derive(Clone, Copy, Debug, PartialEq, Eq, Structural)]
pub enum RequestStatus {
    /// Submitted; the cluster has not answered yet.
    Queued,
    /// Answered by a verified result, which was handed out as an event.
    Emitted,
    /// Answered by a result that did not check out; no event was produced.
    Aborted,
}

/// What the ledger keeps of one request.
#[derive(Clone, Copy, Debug, PartialEq, Eq, Structural)]
pub struct RequestRecord {
    /// The definition the request was submitted for. Only the callback of
    /// that circuit may answer it.
    pub definition: DefinitionHandle,
    /// How far the request has come.
    pub status: RequestStatus,
}

/// Whether `requests` holds a request under `id` that still awaits its answer.
pub open spec fn is_queued(requests: Map<u64, RequestRecord>, id: u64) -> bool {
    requests.contains_key(id) && requests[id].status == RequestStatus::Queued
}

/// All requests on record, by identifier.
pub struct RequestTable {
    records: HashMap<u64, RequestRecord>,
}

impl View for RequestTable {
    type V = Map<u64, RequestRecord>;

    /// The record of every request, by identifier.
    closed spec fn view(&self) -> Map<u64, RequestRecord> {
        self.records@
    }
}

impl RequestTable {
    /// A table without requests.
    pub fn new() -> (table: RequestTable)
        ensures
            table@ == Map::<u64, RequestRecord>::empty(),
    {
        RequestTable { records: HashMap::new() }
    }

    /// The record kept under an identifier, if there is one.
    pub fn record(&self, id: u64) -> (record: Option<RequestRecord>)
        ensures
            record == if self@.contains_key(id) {
                Some(self@[id])
            } else {
                None
            },
    {
        broadcast use vstd::std_specs::hash::group_hash_axioms;

        match self.records.get(&id) {
            Some(record) => Some(*record),
            None => None,
        }
    }

    /// The status of the request under an identifier, if there is one.
    pub fn status(&self, id: u64) -> (status: Option<RequestStatus>)
        ensures
            status == if self@.contains_key(id) {
                Some(self@[id].status)
            } else {
                None
            },
    {
        match self.record(id) {
            Some(record) => Some(record.status),
            None => None,
        }
    }

    /// Puts `record` under `id`, in place of what was there. The owner of
    /// the storage loads what it has persisted this way; submissions and
    /// callbacks change the table through `submit` and `resolve`.
    pub fn store(&mut self, id: u64, record: RequestRecord)
        ensures
            final(self)@ == old(self)@.insert(id, record),
    {
        broadcast use vstd::std_specs::hash::group_hash_axioms;

        self.records.insert(id, record);
    }
}

} // verus!
