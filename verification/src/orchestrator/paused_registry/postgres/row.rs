//! Shared strict decoding for every `paused_sandboxes` query using
//! [`ENTRY_COLUMNS`](super::sql::ENTRY_COLUMNS).

use super::super::types::{invalid, is_invalid, state_named, states_round_trip};
use super::super::types::{
    PausedRegistryError, PausedRegistryListEntry, PausedRegistryState, PausedSandboxEntry,
    SandboxMetadata, SnapshotId,
};
use crate::ids::{parse_uuid, uuid_number, ExecutionId, SandboxId};
use crate::time::Timestamp;
use vstd::prelude::*;
use vstd::string::*;

verus! {

/// Lossless SQL row matching [`ENTRY_COLUMNS`](super::sql::ENTRY_COLUMNS).
///
/// `metadata` is the sandbox record in its column, where the column holds one.
#[derive(Debug)]
pub struct EntryRow {
    pub sandbox_id: String,
    pub cluster_id: String,
    pub state: String,
    pub generation: i64,
    pub origin_node_id: String,
    pub claimed_by_node_id: Option<String>,
    pub snapshot_id: Option<String>,
    pub metadata: Option<SandboxMetadata>,
    pub paused_at: Timestamp,
    pub updated_at: Timestamp,
    pub lease_expires_at: Option<Timestamp>,
    pub sandbox_expires_at: Option<Timestamp>,
    pub execution_id: Option<String>,
    pub execution_started_at: Option<Timestamp>,
}

/// Claim row with the state that preceded the update.
#[derive(Debug)]
pub struct ClaimRow {
    pub sandbox_id: String,
    pub cluster_id: String,
    pub state: String,
    pub generation: i64,
    pub origin_node_id: String,
    pub claimed_by_node_id: Option<String>,
    pub snapshot_id: Option<String>,
    pub metadata: Option<SandboxMetadata>,
    pub paused_at: Timestamp,
    pub updated_at: Timestamp,
    pub lease_expires_at: Option<Timestamp>,
    pub sandbox_expires_at: Option<Timestamp>,
    pub execution_id: Option<String>,
    pub execution_started_at: Option<Timestamp>,
    pub previous_state: String,
}

/// The claim row without the state that preceded it.
pub open spec fn entry_row_of(row: ClaimRow) -> EntryRow {
    EntryRow {
        sandbox_id: row.sandbox_id,
        cluster_id: row.cluster_id,
        state: row.state,
        generation: row.generation,
        origin_node_id: row.origin_node_id,
        claimed_by_node_id: row.claimed_by_node_id,
        snapshot_id: row.snapshot_id,
        metadata: row.metadata,
        paused_at: row.paused_at,
        updated_at: row.updated_at,
        lease_expires_at: row.lease_expires_at,
        sandbox_expires_at: row.sandbox_expires_at,
        execution_id: row.execution_id,
        execution_started_at: row.execution_started_at,
    }
}

impl ClaimRow {
    /// The row without the state that preceded it.
    pub fn into_entry_row(self) -> (r: EntryRow)
        ensures
            r == entry_row_of(self),
            r.sandbox_id == self.sandbox_id,
            r.cluster_id == self.cluster_id,
            r.state == self.state,
            r.generation == self.generation,
            r.origin_node_id == self.origin_node_id,
            r.claimed_by_node_id == self.claimed_by_node_id,
            r.snapshot_id == self.snapshot_id,
            r.metadata == self.metadata,
            r.paused_at == self.paused_at,
            r.updated_at == self.updated_at,
            r.lease_expires_at == self.lease_expires_at,
            r.sandbox_expires_at == self.sandbox_expires_at,
            r.execution_id == self.execution_id,
            r.execution_started_at == self.execution_started_at,
    {
        EntryRow {
            sandbox_id: self.sandbox_id,
            cluster_id: self.cluster_id,
            state: self.state,
            generation: self.generation,
            origin_node_id: self.origin_node_id,
            claimed_by_node_id: self.claimed_by_node_id,
            snapshot_id: self.snapshot_id,
            metadata: self.metadata,
            paused_at: self.paused_at,
            updated_at: self.updated_at,
            lease_expires_at: self.lease_expires_at,
            sandbox_expires_at: self.sandbox_expires_at,
            execution_id: self.execution_id,
            execution_started_at: self.execution_started_at,
        }
    }
}

/// Fully parsed internal registry row.
#[derive(Debug)]
pub struct RegistryRow {
    pub sandbox_id: SandboxId,
    pub cluster_id: u128,
    pub state: PausedRegistryState,
    pub generation: i64,
    pub origin_node_id: String,
    pub claimed_by_node_id: Option<String>,
    pub snapshot_id: Option<SnapshotId>,
    pub paused_at: Timestamp,
    pub updated_at: Timestamp,
    pub lease_expires_at: Option<Timestamp>,
    pub sandbox_expires_at: Option<Timestamp>,
    pub execution_id: Option<ExecutionId>,
    pub execution_started_at: Option<Timestamp>,
}

impl Clone for RegistryRow {
    fn clone(&self) -> (r: RegistryRow)
        ensures
            r == *self,
    {
        RegistryRow {
            sandbox_id: self.sandbox_id,
            cluster_id: self.cluster_id,
            state: self.state,
            generation: self.generation,
            origin_node_id: self.origin_node_id.clone(),
            claimed_by_node_id: match &self.claimed_by_node_id {
                Some(node) => Some(node.clone()),
                None => None,
            },
            snapshot_id: self.snapshot_id,
            paused_at: self.paused_at,
            updated_at: self.updated_at,
            lease_expires_at: self.lease_expires_at,
            sandbox_expires_at: self.sandbox_expires_at,
            execution_id: self.execution_id,
            execution_started_at: self.execution_started_at,
        }
    }
}

/// When the lease of a row ends: at its expiry, or at the last update where it has none.
pub open spec fn lease_end(lease_expires_at: Option<Timestamp>, updated_at: Timestamp) -> int {
    match lease_expires_at {
        Some(at) => at@,
        None => updated_at@,
    }
}

impl RegistryRow {
    /// Applies `COALESCE(lease_expires_at, updated_at) < now`.
    pub fn lease_expired(&self, now: Timestamp) -> (r: bool)
        ensures
            r == (lease_end(self.lease_expires_at, self.updated_at) < now@),
            self.lease_expires_at matches Some(at) ==> r == (at@ < now@),
            self.lease_expires_at is None ==> r == (self.updated_at@ < now@),
    {
        match self.lease_expires_at {
            Some(at) => at.before(now),
            None => self.updated_at.before(now),
        }
    }
}

/// The identity columns of a row, parsed.
#[derive(Debug, Clone, Copy, PartialEq, Eq, Structural)]
pub struct ParsedIdentity {
    pub sandbox_id: SandboxId,
    pub cluster_id: u128,
    pub state: PausedRegistryState,
    pub snapshot_id: Option<SnapshotId>,
    pub execution_id: Option<ExecutionId>,
}

/// Whether an optional column is there and not empty.
pub open spec fn is_filled(column: Option<String>) -> bool {
    column matches Some(text) && text@.len() > 0
}

/// The numbers that the identity columns of a row spell: nothing for a column that is not filled
/// or spells no UUID.
#[derive(Debug, Clone, Copy, PartialEq, Eq, Structural)]
pub struct IdentityNumbers {
    pub sandbox: Option<u128>,
    pub cluster: Option<u128>,
    pub snapshot: Option<u128>,
    pub execution: Option<u128>,
}

/// The number that an optional column spells.
pub open spec fn column_number(column: Option<String>) -> Option<u128> {
    if is_filled(column) {
        uuid_number(column->0@)
    } else {
        None
    }
}

/// The numbers that the identity columns of a row spell.
pub open spec fn numbers_of(row: EntryRow) -> IdentityNumbers {
    IdentityNumbers {
        sandbox: uuid_number(row.sandbox_id@),
        cluster: uuid_number(row.cluster_id@),
        snapshot: column_number(row.snapshot_id),
        execution: column_number(row.execution_id),
    }
}

/// Why a row whose identity columns spell `n` has no identity, where it has none; the first
/// reason counts.
pub open spec fn identity_fault_with(row: EntryRow, n: IdentityNumbers) -> Option<Seq<char>> {
    if n.sandbox is None {
        Some("sandbox id is not a uuid"@)
    } else if n.cluster is None {
        Some("cluster id is not a uuid"@)
    } else if state_named(row.state@) is None {
        Some("unknown state '"@ + row.state@ + "'"@)
    } else if is_filled(row.snapshot_id) && n.snapshot is None {
        Some("snapshot id is not a uuid"@)
    } else if state_named(row.state@) == Some(PausedRegistryState::Paused) && !is_filled(
        row.snapshot_id,
    ) {
        Some("paused entry carries no snapshot reference"@)
    } else if is_filled(row.execution_id) && n.execution is None {
        Some("execution id is not a uuid"@)
    } else {
        None
    }
}

/// The identity of a row whose identity columns spell `n`.
pub open spec fn identity_with(row: EntryRow, n: IdentityNumbers) -> ParsedIdentity {
    ParsedIdentity {
        sandbox_id: SandboxId { number: n.sandbox->0 },
        cluster_id: n.cluster->0,
        state: state_named(row.state@)->0,
        snapshot_id: if is_filled(row.snapshot_id) {
            Some(SnapshotId { number: n.snapshot->0 })
        } else {
            None
        },
        execution_id: if is_filled(row.execution_id) {
            Some(ExecutionId { number: n.execution->0 })
        } else {
            None
        },
    }
}

/// Why the identity columns of a row do not parse, where they do not.
pub open spec fn identity_fault(row: EntryRow) -> Option<Seq<char>> {
    identity_fault_with(row, numbers_of(row))
}

/// The identity of a row whose identity columns parse.
pub open spec fn identity_of(row: EntryRow) -> ParsedIdentity {
    identity_with(row, numbers_of(row))
}

/// Names a state that no build knows.
fn unknown_state(prefix: &str, state: &str) -> (r: String)
    ensures
        r@ == prefix@ + state@ + "'"@,
{
    let mut out = prefix.to_owned();
    out.append(state);
    out.append("'");
    out
}

/// Whether an optional column is there and not empty.
fn filled(column: &Option<String>) -> (r: bool)
    ensures
        r == is_filled(*column),
{
    match column {
        Some(text) => !text.as_str().is_empty(),
        None => false,
    }
}

fn parse_column(column: &Option<String>) -> (r: Option<u128>)
    ensures
        r == column_number(*column),
{
    match column {
        Some(text) => if text.as_str().is_empty() {
            None
        } else {
            parse_uuid(text.as_str())
        },
        None => None,
    }
}

/// The identity of a row whose identity columns spell `n`.
pub fn read_identity(row: &EntryRow, n: IdentityNumbers) -> (r: Result<
    ParsedIdentity,
    PausedRegistryError,
>)
    ensures
        match r {
            Ok(identity) => identity_fault_with(*row, n) is None && identity == identity_with(
                *row,
                n,
            ),
            Err(e) => identity_fault_with(*row, n) is Some && is_invalid(
                e,
                row.sandbox_id@,
                identity_fault_with(*row, n)->0,
            ),
        },
{
    let id = row.sandbox_id.as_str();
    let sandbox_id = match n.sandbox {
        Some(number) => SandboxId { number },
        None => {
            return Err(invalid(id, "sandbox id is not a uuid"));
        },
    };
    let cluster_id: u128 = match n.cluster {
        Some(number) => number,
        None => {
            return Err(invalid(id, "cluster id is not a uuid"));
        },
    };
    let state = match PausedRegistryState::parse(row.state.as_str()) {
        Some(v) => v,
        None => {
            return Err(invalid(id, unknown_state("unknown state '", row.state.as_str()).as_str()));
        },
    };
    let snapshot_id: Option<SnapshotId> = if filled(&row.snapshot_id) {
        match n.snapshot {
            Some(number) => Some(SnapshotId { number }),
            None => {
                return Err(invalid(id, "snapshot id is not a uuid"));
            },
        }
    } else {
        None
    };
    // Durable paused rows must name the snapshot they can restore.
    if state == PausedRegistryState::Paused && snapshot_id.is_none() {
        return Err(invalid(id, "paused entry carries no snapshot reference"));
    }
    let execution_id: Option<ExecutionId> = if filled(&row.execution_id) {
        match n.execution {
            Some(number) => Some(ExecutionId { number }),
            None => {
                return Err(invalid(id, "execution id is not a uuid"));
            },
        }
    } else {
        None
    };
    Ok(ParsedIdentity { sandbox_id, cluster_id, state, snapshot_id, execution_id })
}

/// Parses the identity columns of a row.
pub fn parse_identity(row: &EntryRow) -> (r: Result<ParsedIdentity, PausedRegistryError>)
    ensures
        match r {
            Ok(identity) => identity_fault(*row) is None && identity == identity_of(*row),
            Err(e) => identity_fault(*row) is Some && is_invalid(
                e,
                row.sandbox_id@,
                identity_fault(*row)->0,
            ),
        },
{
    let numbers = IdentityNumbers {
        sandbox: parse_uuid(row.sandbox_id.as_str()),
        cluster: parse_uuid(row.cluster_id.as_str()),
        snapshot: parse_column(&row.snapshot_id),
        execution: parse_column(&row.execution_id),
    };
    read_identity(row, numbers)
}

/// A claimant column, where an empty one names nobody.
pub open spec fn claimant_of(column: Option<String>) -> Option<String> {
    if is_filled(column) {
        column
    } else {
        None
    }
}

fn claimant(column: Option<String>) -> (r: Option<String>)
    ensures
        r == claimant_of(column),
{
    match column {
        Some(node) => if node.as_str().is_empty() {
            None
        } else {
            Some(node)
        },
        None => None,
    }
}

/// Why a row is no entry, where it is none.
pub open spec fn entry_fault(row: EntryRow) -> Option<Seq<char>> {
    if identity_fault(row) is Some {
        identity_fault(row)
    } else if row.metadata is None {
        Some("metadata is not a sandbox record"@)
    } else {
        None
    }
}

/// The entry that a row of this identity decodes to.
pub open spec fn entry_with(row: EntryRow, identity: ParsedIdentity) -> PausedSandboxEntry {
    PausedSandboxEntry {
        sandbox_id: identity.sandbox_id,
        cluster_id: identity.cluster_id,
        state: identity.state,
        generation: row.generation,
        origin_node_id: row.origin_node_id,
        claimed_by_node_id: claimant_of(row.claimed_by_node_id),
        snapshot_id: identity.snapshot_id,
        metadata: row.metadata,
        execution_id: identity.execution_id,
        paused_at: row.paused_at,
        updated_at: row.updated_at,
    }
}

/// The entry that a row decodes to.
pub open spec fn entry_of(row: EntryRow) -> PausedSandboxEntry {
    entry_with(row, identity_of(row))
}

/// The entry of a row of this identity, where the row carries its record.
pub fn assemble_entry(row: EntryRow, identity: ParsedIdentity) -> (r: Result<
    PausedSandboxEntry,
    PausedRegistryError,
>)
    ensures
        match r {
            Ok(entry) => row.metadata is Some && entry == entry_with(row, identity),
            Err(e) => row.metadata is None && is_invalid(
                e,
                row.sandbox_id@,
                "metadata is not a sandbox record"@,
            ),
        },
        r matches Ok(entry) ==> {
            &&& entry.sandbox_id == identity.sandbox_id
            &&& entry.cluster_id == identity.cluster_id
            &&& entry.state == identity.state
            &&& entry.snapshot_id == identity.snapshot_id
            &&& entry.execution_id == identity.execution_id
            &&& entry.generation == row.generation
            &&& entry.origin_node_id == row.origin_node_id
            &&& entry.paused_at == row.paused_at
            &&& entry.updated_at == row.updated_at
            &&& entry.metadata == row.metadata
        },
{
    if row.metadata.is_none() {
        return Err(invalid(row.sandbox_id.as_str(), "metadata is not a sandbox record"));
    }
    Ok(
        PausedSandboxEntry {
            sandbox_id: identity.sandbox_id,
            cluster_id: identity.cluster_id,
            state: identity.state,
            generation: row.generation,
            origin_node_id: row.origin_node_id,
            claimed_by_node_id: claimant(row.claimed_by_node_id),
            snapshot_id: identity.snapshot_id,
            metadata: row.metadata,
            execution_id: identity.execution_id,
            paused_at: row.paused_at,
            updated_at: row.updated_at,
        },
    )
}

/// Decodes a caller-facing paused entry, including metadata.
pub fn decode_entry(row: EntryRow) -> (r: Result<PausedSandboxEntry, PausedRegistryError>)
    ensures
        match r {
            Ok(entry) => entry_fault(row) is None && entry == entry_of(row),
            Err(e) => entry_fault(row) is Some && is_invalid(
                e,
                row.sandbox_id@,
                entry_fault(row)->0,
            ),
        },
        r matches Ok(entry) ==> {
            &&& uuid_number(row.sandbox_id@) == Some(entry.sandbox_id.number)
            &&& uuid_number(row.cluster_id@) == Some(entry.cluster_id)
            &&& row.state@ == match entry.state {
                PausedRegistryState::Publishing => "publishing"@,
                PausedRegistryState::Paused => "paused"@,
                PausedRegistryState::Resuming => "resuming"@,
                PausedRegistryState::LocalOnly => "local_only"@,
                PausedRegistryState::Running => "running"@,
            }
            &&& match entry.snapshot_id {
                Some(id) => row.snapshot_id is Some && uuid_number(row.snapshot_id->0@) == Some(
                    id.number,
                ),
                None => row.snapshot_id is None || row.snapshot_id->0@.len() == 0,
            }
            &&& match entry.execution_id {
                Some(id) => row.execution_id is Some && uuid_number(row.execution_id->0@) == Some(
                    id.number,
                ),
                None => row.execution_id is None || row.execution_id->0@.len() == 0,
            }
            &&& match entry.claimed_by_node_id {
                Some(node) => row.claimed_by_node_id == Some(node) && node@.len() > 0,
                None => row.claimed_by_node_id is None || row.claimed_by_node_id->0@.len() == 0,
            }
            &&& entry.generation == row.generation
            &&& entry.origin_node_id == row.origin_node_id
            &&& entry.paused_at == row.paused_at
            &&& entry.updated_at == row.updated_at
            &&& entry.metadata == row.metadata
            &&& row.metadata is Some
        },
{
    match parse_identity(&row) {
        Ok(identity) => assemble_entry(row, identity),
        Err(e) => Err(e),
    }
}

/// Decodes the claimed entry and its pre-claim state.
pub fn decode_claim(row: ClaimRow) -> (r: Result<
    (PausedSandboxEntry, PausedRegistryState),
    PausedRegistryError,
>)
    ensures
        match r {
            Ok((entry, previous_state)) => {
                &&& state_named(row.previous_state@) == Some(previous_state)
                &&& entry_fault(entry_row_of(row)) is None
                &&& entry == entry_of(entry_row_of(row))
            },
            Err(e) => if state_named(row.previous_state@) is None {
                is_invalid(
                    e,
                    row.sandbox_id@,
                    "unknown previous state '"@ + row.previous_state@ + "'"@,
                )
            } else {
                entry_fault(entry_row_of(row)) is Some && is_invalid(
                    e,
                    row.sandbox_id@,
                    entry_fault(entry_row_of(row))->0,
                )
            },
        },
{
    let previous_state = match PausedRegistryState::parse(row.previous_state.as_str()) {
        Some(v) => v,
        None => {
            let reason = unknown_state("unknown previous state '", row.previous_state.as_str());
            return Err(invalid(row.sandbox_id.as_str(), reason.as_str()));
        },
    };
    match decode_entry(row.into_entry_row()) {
        Ok(entry) => Ok((entry, previous_state)),
        Err(e) => Err(e),
    }
}

/// The administrative listing entry that a row of this identity decodes to.
pub open spec fn list_entry_with(row: EntryRow, identity: ParsedIdentity) -> PausedRegistryListEntry {
    PausedRegistryListEntry {
        sandbox_id: identity.sandbox_id,
        cluster_id: identity.cluster_id,
        state: identity.state,
        generation: row.generation,
        origin_node_id: row.origin_node_id,
        claimed_by_node_id: claimant_of(row.claimed_by_node_id),
        snapshot_id: identity.snapshot_id,
        paused_at: row.paused_at,
        updated_at: row.updated_at,
        lease_expires_at: row.lease_expires_at,
        sandbox_expires_at: row.sandbox_expires_at,
        execution_id: identity.execution_id,
    }
}

/// The administrative listing entry that a row decodes to.
pub open spec fn list_entry_of(row: EntryRow) -> PausedRegistryListEntry {
    list_entry_with(row, identity_of(row))
}

/// The administrative listing entry of a row of this identity.
pub fn assemble_list_entry(row: EntryRow, identity: ParsedIdentity) -> (r: PausedRegistryListEntry)
    ensures
        r == list_entry_with(row, identity),
        r.sandbox_id == identity.sandbox_id,
        r.cluster_id == identity.cluster_id,
        r.state == identity.state,
        r.snapshot_id == identity.snapshot_id,
        r.execution_id == identity.execution_id,
        r.generation == row.generation,
        r.origin_node_id == row.origin_node_id,
        r.paused_at == row.paused_at,
        r.updated_at == row.updated_at,
        r.lease_expires_at == row.lease_expires_at,
        r.sandbox_expires_at == row.sandbox_expires_at,
{
    PausedRegistryListEntry {
        sandbox_id: identity.sandbox_id,
        cluster_id: identity.cluster_id,
        state: identity.state,
        generation: row.generation,
        origin_node_id: row.origin_node_id,
        claimed_by_node_id: claimant(row.claimed_by_node_id),
        snapshot_id: identity.snapshot_id,
        paused_at: row.paused_at,
        updated_at: row.updated_at,
        lease_expires_at: row.lease_expires_at,
        sandbox_expires_at: row.sandbox_expires_at,
        execution_id: identity.execution_id,
    }
}

/// Decodes the administrative listing fields.
pub fn decode_list_entry(row: EntryRow) -> (r: Result<PausedRegistryListEntry, PausedRegistryError>)
    ensures
        match r {
            Ok(entry) => identity_fault(row) is None && entry == list_entry_of(row),
            Err(e) => identity_fault(row) is Some && is_invalid(
                e,
                row.sandbox_id@,
                identity_fault(row)->0,
            ),
        },
        r matches Ok(entry) ==> {
            &&& uuid_number(row.sandbox_id@) == Some(entry.sandbox_id.number)
            &&& uuid_number(row.cluster_id@) == Some(entry.cluster_id)
            &&& row.state@ == match entry.state {
                PausedRegistryState::Publishing => "publishing"@,
                PausedRegistryState::Paused => "paused"@,
                PausedRegistryState::Resuming => "resuming"@,
                PausedRegistryState::LocalOnly => "local_only"@,
                PausedRegistryState::Running => "running"@,
            }
            &&& match entry.snapshot_id {
                Some(id) => row.snapshot_id is Some && uuid_number(row.snapshot_id->0@) == Some(
                    id.number,
                ),
                None => row.snapshot_id is None || row.snapshot_id->0@.len() == 0,
            }
            &&& match entry.execution_id {
                Some(id) => row.execution_id is Some && uuid_number(row.execution_id->0@) == Some(
                    id.number,
                ),
                None => row.execution_id is None || row.execution_id->0@.len() == 0,
            }
            &&& match entry.claimed_by_node_id {
                Some(node) => row.claimed_by_node_id == Some(node) && node@.len() > 0,
                None => row.claimed_by_node_id is None || row.claimed_by_node_id->0@.len() == 0,
            }
            &&& entry.generation == row.generation
            &&& entry.origin_node_id == row.origin_node_id
            &&& entry.paused_at == row.paused_at
            &&& entry.updated_at == row.updated_at
            &&& entry.lease_expires_at == row.lease_expires_at
            &&& entry.sandbox_expires_at == row.sandbox_expires_at
        },
{
    match parse_identity(&row) {
        Ok(identity) => Ok(assemble_list_entry(row, identity)),
        Err(e) => Err(e),
    }
}

/// The internal row that a row of this identity decodes to.
pub open spec fn registry_row_with(row: EntryRow, identity: ParsedIdentity) -> RegistryRow {
    RegistryRow {
        sandbox_id: identity.sandbox_id,
        cluster_id: identity.cluster_id,
        state: identity.state,
        generation: row.generation,
        origin_node_id: row.origin_node_id,
        claimed_by_node_id: claimant_of(row.claimed_by_node_id),
        snapshot_id: identity.snapshot_id,
        paused_at: row.paused_at,
        updated_at: row.updated_at,
        lease_expires_at: row.lease_expires_at,
        sandbox_expires_at: row.sandbox_expires_at,
        execution_id: identity.execution_id,
        execution_started_at: row.execution_started_at,
    }
}

/// The internal row that a row decodes to.
pub open spec fn registry_row_of(row: EntryRow) -> RegistryRow {
    registry_row_with(row, identity_of(row))
}

/// The internal row of a row of this identity.
pub fn assemble_registry_row(row: EntryRow, identity: ParsedIdentity) -> (r: RegistryRow)
    ensures
        r == registry_row_with(row, identity),
        r.sandbox_id == identity.sandbox_id,
        r.cluster_id == identity.cluster_id,
        r.state == identity.state,
        r.snapshot_id == identity.snapshot_id,
        r.execution_id == identity.execution_id,
        r.generation == row.generation,
        r.origin_node_id == row.origin_node_id,
        r.paused_at == row.paused_at,
        r.updated_at == row.updated_at,
        r.lease_expires_at == row.lease_expires_at,
        r.sandbox_expires_at == row.sandbox_expires_at,
        r.execution_started_at == row.execution_started_at,
{
    RegistryRow {
        sandbox_id: identity.sandbox_id,
        cluster_id: identity.cluster_id,
        state: identity.state,
        generation: row.generation,
        origin_node_id: row.origin_node_id,
        claimed_by_node_id: claimant(row.claimed_by_node_id),
        snapshot_id: identity.snapshot_id,
        paused_at: row.paused_at,
        updated_at: row.updated_at,
        lease_expires_at: row.lease_expires_at,
        sandbox_expires_at: row.sandbox_expires_at,
        execution_id: identity.execution_id,
        execution_started_at: row.execution_started_at,
    }
}

/// Decodes the complete internal row without parsing unused metadata.
pub fn decode_registry_row(row: EntryRow) -> (r: Result<RegistryRow, PausedRegistryError>)
    ensures
        match r {
            Ok(entry) => identity_fault(row) is None && entry == registry_row_of(row),
            Err(e) => identity_fault(row) is Some && is_invalid(
                e,
                row.sandbox_id@,
                identity_fault(row)->0,
            ),
        },
        r matches Ok(entry) ==> {
            &&& uuid_number(row.sandbox_id@) == Some(entry.sandbox_id.number)
            &&& uuid_number(row.cluster_id@) == Some(entry.cluster_id)
            &&& row.state@ == match entry.state {
                PausedRegistryState::Publishing => "publishing"@,
                PausedRegistryState::Paused => "paused"@,
                PausedRegistryState::Resuming => "resuming"@,
                PausedRegistryState::LocalOnly => "local_only"@,
                PausedRegistryState::Running => "running"@,
            }
            &&& match entry.snapshot_id {
                Some(id) => row.snapshot_id is Some && uuid_number(row.snapshot_id->0@) == Some(
                    id.number,
                ),
                None => row.snapshot_id is None || row.snapshot_id->0@.len() == 0,
            }
            &&& match entry.execution_id {
                Some(id) => row.execution_id is Some && uuid_number(row.execution_id->0@) == Some(
                    id.number,
                ),
                None => row.execution_id is None || row.execution_id->0@.len() == 0,
            }
            &&& match entry.claimed_by_node_id {
                Some(node) => row.claimed_by_node_id == Some(node) && node@.len() > 0,
                None => row.claimed_by_node_id is None || row.claimed_by_node_id->0@.len() == 0,
            }
            &&& entry.generation == row.generation
            &&& entry.origin_node_id == row.origin_node_id
            &&& entry.paused_at == row.paused_at
            &&& entry.updated_at == row.updated_at
            &&& entry.lease_expires_at == row.lease_expires_at
            &&& entry.sandbox_expires_at == row.sandbox_expires_at
            &&& entry.execution_started_at == row.execution_started_at
        },
{
    match parse_identity(&row) {
        Ok(identity) => Ok(assemble_registry_row(row, identity)),
        Err(e) => Err(e),
    }
}

/// The three decoders share one reading of the identity columns: they refuse the same rows, but
/// that an entry also needs its record, and they agree on every field they share.
pub proof fn decoders_agree(row: EntryRow)
    ensures
        entry_fault(row) is None ==> identity_fault(row) is None,
        identity_fault(row) is Some ==> entry_fault(row) == identity_fault(row),
        entry_of(row).sandbox_id == list_entry_of(row).sandbox_id,
        entry_of(row).sandbox_id == registry_row_of(row).sandbox_id,
        entry_of(row).cluster_id == list_entry_of(row).cluster_id,
        entry_of(row).cluster_id == registry_row_of(row).cluster_id,
        entry_of(row).state == list_entry_of(row).state,
        entry_of(row).state == registry_row_of(row).state,
        entry_of(row).snapshot_id == list_entry_of(row).snapshot_id,
        entry_of(row).snapshot_id == registry_row_of(row).snapshot_id,
        entry_of(row).execution_id == list_entry_of(row).execution_id,
        entry_of(row).execution_id == registry_row_of(row).execution_id,
        entry_of(row).claimed_by_node_id == list_entry_of(row).claimed_by_node_id,
        entry_of(row).claimed_by_node_id == registry_row_of(row).claimed_by_node_id,
{
}

/// Each column of what a row decodes to is the row's column of that name, in all three shapes, and
/// the identities are those that the identity columns spell.
pub proof fn decoded_columns_are_the_rows(row: EntryRow)
    requires
        identity_fault(row) is None,
    ensures
        ({
            let entry = list_entry_of(row);
            &&& uuid_number(row.sandbox_id@) == Some(entry.sandbox_id.number)
            &&& uuid_number(row.cluster_id@) == Some(entry.cluster_id)
            &&& row.state@ == match entry.state {
                PausedRegistryState::Publishing => "publishing"@,
                PausedRegistryState::Paused => "paused"@,
                PausedRegistryState::Resuming => "resuming"@,
                PausedRegistryState::LocalOnly => "local_only"@,
                PausedRegistryState::Running => "running"@,
            }
            &&& match entry.snapshot_id {
                Some(id) => row.snapshot_id is Some && uuid_number(row.snapshot_id->0@) == Some(
                    id.number,
                ),
                None => row.snapshot_id is None || row.snapshot_id->0@.len() == 0,
            }
            &&& match entry.execution_id {
                Some(id) => row.execution_id is Some && uuid_number(row.execution_id->0@) == Some(
                    id.number,
                ),
                None => row.execution_id is None || row.execution_id->0@.len() == 0,
            }
            &&& match entry.claimed_by_node_id {
                Some(node) => row.claimed_by_node_id == Some(node) && node@.len() > 0,
                None => row.claimed_by_node_id is None || row.claimed_by_node_id->0@.len() == 0,
            }
            &&& entry.generation == row.generation
            &&& entry.origin_node_id == row.origin_node_id
            &&& entry.paused_at == row.paused_at
            &&& entry.updated_at == row.updated_at
            &&& entry.lease_expires_at == row.lease_expires_at
            &&& entry.sandbox_expires_at == row.sandbox_expires_at
        }),
        ({
            let entry = registry_row_of(row);
            &&& uuid_number(row.sandbox_id@) == Some(entry.sandbox_id.number)
            &&& uuid_number(row.cluster_id@) == Some(entry.cluster_id)
            &&& row.state@ == match entry.state {
                PausedRegistryState::Publishing => "publishing"@,
                PausedRegistryState::Paused => "paused"@,
                PausedRegistryState::Resuming => "resuming"@,
                PausedRegistryState::LocalOnly => "local_only"@,
                PausedRegistryState::Running => "running"@,
            }
            &&& match entry.snapshot_id {
                Some(id) => row.snapshot_id is Some && uuid_number(row.snapshot_id->0@) == Some(
                    id.number,
                ),
                None => row.snapshot_id is None || row.snapshot_id->0@.len() == 0,
            }
            &&& match entry.execution_id {
                Some(id) => row.execution_id is Some && uuid_number(row.execution_id->0@) == Some(
                    id.number,
                ),
                None => row.execution_id is None || row.execution_id->0@.len() == 0,
            }
            &&& match entry.claimed_by_node_id {
                Some(node) => row.claimed_by_node_id == Some(node) && node@.len() > 0,
                None => row.claimed_by_node_id is None || row.claimed_by_node_id->0@.len() == 0,
            }
            &&& entry.generation == row.generation
            &&& entry.origin_node_id == row.origin_node_id
            &&& entry.paused_at == row.paused_at
            &&& entry.updated_at == row.updated_at
            &&& entry.lease_expires_at == row.lease_expires_at
            &&& entry.sandbox_expires_at == row.sandbox_expires_at
            &&& entry.execution_started_at == row.execution_started_at
        }),
        ({
            let entry = entry_of(row);
            &&& uuid_number(row.sandbox_id@) == Some(entry.sandbox_id.number)
            &&& uuid_number(row.cluster_id@) == Some(entry.cluster_id)
            &&& row.state@ == match entry.state {
                PausedRegistryState::Publishing => "publishing"@,
                PausedRegistryState::Paused => "paused"@,
                PausedRegistryState::Resuming => "resuming"@,
                PausedRegistryState::LocalOnly => "local_only"@,
                PausedRegistryState::Running => "running"@,
            }
            &&& match entry.snapshot_id {
                Some(id) => row.snapshot_id is Some && uuid_number(row.snapshot_id->0@) == Some(
                    id.number,
                ),
                None => row.snapshot_id is None || row.snapshot_id->0@.len() == 0,
            }
            &&& match entry.execution_id {
                Some(id) => row.execution_id is Some && uuid_number(row.execution_id->0@) == Some(
                    id.number,
                ),
                None => row.execution_id is None || row.execution_id->0@.len() == 0,
            }
            &&& match entry.claimed_by_node_id {
                Some(node) => row.claimed_by_node_id == Some(node) && node@.len() > 0,
                None => row.claimed_by_node_id is None || row.claimed_by_node_id->0@.len() == 0,
            }
            &&& entry.generation == row.generation
            &&& entry.origin_node_id == row.origin_node_id
            &&& entry.paused_at == row.paused_at
            &&& entry.updated_at == row.updated_at
            &&& entry.metadata == row.metadata
        }),
{
}

/// A row decodes exactly where every identity column reads: its sandbox and cluster spell UUIDs,
/// its state is one of the five, its snapshot and execution spell UUIDs where they are given, and a
/// paused row gives a snapshot. What is said of one that does not is its first fault, in that order.
pub proof fn rows_decode_where_every_column_reads(row: EntryRow)
    ensures
        ({
            let sandbox = uuid_number(row.sandbox_id@) is Some;
            let cluster = uuid_number(row.cluster_id@) is Some;
            let state = row.state@ == "publishing"@ || row.state@ == "paused"@ || row.state@
                == "resuming"@ || row.state@ == "local_only"@ || row.state@ == "running"@;
            let snapshot_given = row.snapshot_id is Some && row.snapshot_id->0@.len() > 0;
            let snapshot = snapshot_given ==> uuid_number(row.snapshot_id->0@) is Some;
            let restorable = row.state@ == "paused"@ ==> snapshot_given;
            let execution = row.execution_id is Some && row.execution_id->0@.len() > 0
                ==> uuid_number(row.execution_id->0@) is Some;
            &&& identity_fault(row) is None <==> sandbox && cluster && state && snapshot
                && restorable && execution
            &&& !sandbox ==> identity_fault(row) == Some("sandbox id is not a uuid"@)
            &&& sandbox && !cluster ==> identity_fault(row) == Some("cluster id is not a uuid"@)
            &&& sandbox && cluster && !state ==> identity_fault(row) == Some(
                "unknown state '"@ + row.state@ + "'"@,
            )
            &&& sandbox && cluster && state && !snapshot ==> identity_fault(row) == Some(
                "snapshot id is not a uuid"@,
            )
            &&& sandbox && cluster && state && snapshot && !restorable ==> identity_fault(row)
                == Some("paused entry carries no snapshot reference"@)
            &&& sandbox && cluster && state && snapshot && restorable && !execution
                ==> identity_fault(row) == Some("execution id is not a uuid"@)
            &&& identity_fault(row) is None && row.metadata is None ==> entry_fault(row) == Some(
                "metadata is not a sandbox record"@,
            )
            &&& identity_fault(row) is None && row.metadata is Some ==> entry_fault(row) is None
        }),
{
    states_round_trip(PausedRegistryState::Publishing);
    states_round_trip(PausedRegistryState::Paused);
    states_round_trip(PausedRegistryState::Resuming);
    states_round_trip(PausedRegistryState::LocalOnly);
    states_round_trip(PausedRegistryState::Running);
}

/// A row that decodes as paused names the snapshot it can restore.
pub proof fn decoded_paused_rows_are_restorable(row: EntryRow)
    requires
        identity_fault(row) is None,
        identity_of(row).state == PausedRegistryState::Paused,
    ensures
        identity_of(row).snapshot_id is Some,
{
}

} // verus!
