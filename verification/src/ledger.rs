//! The state that submissions and callbacks act on.

use crate::registry::Registry;
use crate::requests::RequestTable;
use vstd::prelude::*;

verus! {

/// What the ledger runtime holds for this program: the cluster assigned to
/// execute its requests, the registered definitions and the requests on record.
pub struct Ledger {
    /// Offset of the cluster that executes requests, once one is assigned.
    pub cluster: Option<u32>,
    /// The registered computation definitions.
    pub registry: Registry,
    /// The requests on record.
    pub requests: RequestTable,
}

impl Ledger {
    /// A ledger without definitions or requests.
    pub fn new(cluster: Option<u32>) -> (ledger: Ledger)
        ensures
            ledger.cluster == cluster,
            ledger.registry@ == Map::<u32, usize>::empty(),
            ledger.requests@ == Map::<u64, crate::requests::RequestRecord>::empty(),
    {
        Ledger { cluster, registry: Registry::new(), requests: RequestTable::new() }
    }
}

} // verus!
