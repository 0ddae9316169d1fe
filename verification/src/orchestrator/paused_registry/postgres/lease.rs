//! Identity-checked renewal for parked and running paused-registry leases.

use super::super::types::HeldSandbox;
use super::sql;
use crate::ids::SandboxId;
use crate::time::Timestamp;
use vstd::prelude::*;
use vstd::string::*;

verus! {

/// Caller-asserted `(sandbox, node)` pair; SQL rechecks the row's holder.
#[derive(Debug)]
pub struct LeaseHolder {
    pub sandbox_id: SandboxId,
    pub node_id: String,
}

impl Clone for LeaseHolder {
    fn clone(&self) -> (r: LeaseHolder)
        ensures
            r == *self,
    {
        LeaseHolder { sandbox_id: self.sandbox_id, node_id: self.node_id.clone() }
    }
}

/// A renewal of what a node holds: one column of sandboxes, one of their deadlines.
#[derive(Debug)]
pub struct HeldRenewal {
    pub ids: Vec<u128>,
    pub expires: Vec<Option<Timestamp>>,
}

/// A renewal of what heartbeats confirm: one column of sandboxes, one of their nodes.
#[derive(Debug)]
pub struct HeartbeatRenewal {
    pub statement: &'static str,
    pub operation: &'static str,
    pub ids: Vec<u128>,
    pub node_ids: Vec<String>,
}

/// The columns of a renewal hold the pairs in order.
pub open spec fn pairs_up(renewal: HeartbeatRenewal, holders: Seq<LeaseHolder>) -> bool {
    &&& renewal.ids@.len() == holders.len()
    &&& renewal.node_ids@.len() == holders.len()
    &&& forall|i: int|
        0 <= i < holders.len() ==> renewal.ids@[i] == (#[trigger] holders[i]).sandbox_id.number
            && renewal.node_ids@[i]@ == holders[i].node_id@
}

/// What [`RENEW_LEASE_SQL`](sql::RENEW_LEASE_SQL) is given for held rows; nothing is run where
/// nothing is held, and nothing is renewed then.
pub fn renew_lease(held: &Vec<HeldSandbox>) -> (r: Option<HeldRenewal>)
    ensures
        (r is None) == (held@.len() == 0),
        r matches Some(renewal) ==> {
            &&& renewal.ids@.len() == held@.len()
            &&& renewal.expires@.len() == held@.len()
            &&& forall|i: int|
                0 <= i < held@.len() ==> renewal.ids@[i] == (#[trigger] held@[i]).sandbox_id.number
                    && renewal.expires@[i] == held@[i].expires_at
        },
{
    if held.len() == 0 {
        return None;
    }
    let mut ids: Vec<u128> = Vec::new();
    let mut expires: Vec<Option<Timestamp>> = Vec::new();
    let mut i: usize = 0;
    while i < held.len()
        invariant
            i <= held@.len(),
            ids@.len() == i,
            expires@.len() == i,
            forall|j: int|
                0 <= j < i ==> ids@[j] == (#[trigger] held@[j]).sandbox_id.number && expires@[j]
                    == held@[j].expires_at,
        decreases held@.len() - i,
    {
        ids.push(held[i].sandbox_id.number);
        expires.push(held[i].expires_at);
        i = i + 1;
    }
    Some(HeldRenewal { ids, expires })
}

/// Renews `publishing` and `local_only` leases without changing deadlines.
pub fn renew_parked_leases(holders: &Vec<LeaseHolder>) -> (r: Option<HeartbeatRenewal>)
    ensures
        (r is None) == (holders@.len() == 0),
        r matches Some(renewal) ==> pairs_up(renewal, holders@) && renewal.statement@
            == sql::RENEW_PARKED_LEASE_SQL@ && renewal.operation@ == "renew_parked_leases"@,
        r matches Some(renewal) ==> renewal.ids@.len() == holders@.len() && renewal.node_ids@.len()
            == holders@.len() && forall|i: int|
            0 <= i < holders@.len() ==> renewal.ids@[i] == (#[trigger] holders@[i]).sandbox_id.number
                && renewal.node_ids@[i]@ == holders@[i].node_id@,
{
    renew_heartbeat_leases(sql::RENEW_PARKED_LEASE_SQL, "renew_parked_leases", holders)
}

/// Renews `running` leases without changing deadlines.
pub fn renew_live_leases(holders: &Vec<LeaseHolder>) -> (r: Option<HeartbeatRenewal>)
    ensures
        (r is None) == (holders@.len() == 0),
        r matches Some(renewal) ==> pairs_up(renewal, holders@) && renewal.statement@
            == sql::RENEW_LIVE_LEASE_SQL@ && renewal.operation@ == "renew_live_leases"@,
        r matches Some(renewal) ==> renewal.ids@.len() == holders@.len() && renewal.node_ids@.len()
            == holders@.len() && forall|i: int|
            0 <= i < holders@.len() ==> renewal.ids@[i] == (#[trigger] holders@[i]).sandbox_id.number
                && renewal.node_ids@[i]@ == holders@[i].node_id@,
{
    renew_heartbeat_leases(sql::RENEW_LIVE_LEASE_SQL, "renew_live_leases", holders)
}

fn renew_heartbeat_leases(
    statement: &'static str,
    operation: &'static str,
    holders: &Vec<LeaseHolder>,
) -> (r: Option<HeartbeatRenewal>)
    ensures
        (r is None) == (holders@.len() == 0),
        r matches Some(renewal) ==> pairs_up(renewal, holders@) && renewal.statement == statement
            && renewal.operation == operation,
{
    if holders.len() == 0 {
        return None;
    }
    let mut ids: Vec<u128> = Vec::new();
    let mut node_ids: Vec<String> = Vec::new();
    let mut i: usize = 0;
    while i < holders.len()
        invariant
            i <= holders@.len(),
            ids@.len() == i,
            node_ids@.len() == i,
            forall|j: int|
                0 <= j < i ==> ids@[j] == (#[trigger] holders@[j]).sandbox_id.number
                    && node_ids@[j]@ == holders@[j].node_id@,
        decreases holders@.len() - i,
    {
        ids.push(holders[i].sandbox_id.number);
        node_ids.push(holders[i].node_id.clone());
        i = i + 1;
    }
    Some(HeartbeatRenewal { statement, operation, ids, node_ids })
}

/// A renewal names each asserted sandbox with its own node: there are as many pairs as holders, and
/// the pair at a place is that of the holder at that place.
pub proof fn renewals_pair_sandboxes_with_their_nodes(
    renewal: HeartbeatRenewal,
    holders: Seq<LeaseHolder>,
    i: int,
)
    requires
        pairs_up(renewal, holders),
    ensures
        renewal.ids@.len() == holders.len(),
        renewal.node_ids@.len() == holders.len(),
        0 <= i < holders.len() ==> renewal.ids@[i] == holders[i].sandbox_id.number
            && renewal.node_ids@[i]@ == holders[i].node_id@,
{
}

} // verus!
