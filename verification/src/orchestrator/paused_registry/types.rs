//! Rows, outcomes and errors of the paused-sandbox registry.

use crate::ids::{ExecutionId, SandboxId};
use crate::text::same_text;
use crate::time::Timestamp;
use vstd::prelude::*;
use vstd::string::*;

verus! {

/// Where a registered sandbox stands.
#[derive(Debug, Clone, Copy, PartialEq, Eq, Structural)]
pub enum PausedRegistryState {
    /// A pause is being published; the sandbox's bytes are on its origin node.
    Publishing,
    /// A durable snapshot exists and nothing runs.
    Paused,
    /// A replica claimed the sandbox and is starting it.
    Resuming,
    /// The pause stayed on its origin node.
    LocalOnly,
    /// The sandbox runs.
    Running,
}

/// The column text of a state.
pub open spec fn state_text(s: PausedRegistryState) -> Seq<char> {
    match s {
        PausedRegistryState::Publishing => "publishing"@,
        PausedRegistryState::Paused => "paused"@,
        PausedRegistryState::Resuming => "resuming"@,
        PausedRegistryState::LocalOnly => "local_only"@,
        PausedRegistryState::Running => "running"@,
    }
}

/// The state that a column text names.
pub open spec fn state_named(text: Seq<char>) -> Option<PausedRegistryState> {
    if text == "publishing"@ {
        Some(PausedRegistryState::Publishing)
    } else if text == "paused"@ {
        Some(PausedRegistryState::Paused)
    } else if text == "resuming"@ {
        Some(PausedRegistryState::Resuming)
    } else if text == "local_only"@ {
        Some(PausedRegistryState::LocalOnly)
    } else if text == "running"@ {
        Some(PausedRegistryState::Running)
    } else {
        None
    }
}

impl PausedRegistryState {
    /// The column text of the state.
    pub fn as_str(&self) -> (r: &'static str)
        ensures
            r@ == state_text(*self),
            *self is Publishing ==> r@ == "publishing"@,
            *self is Paused ==> r@ == "paused"@,
            *self is Resuming ==> r@ == "resuming"@,
            *self is LocalOnly ==> r@ == "local_only"@,
            *self is Running ==> r@ == "running"@,
    {
        match self {
            PausedRegistryState::Publishing => "publishing",
            PausedRegistryState::Paused => "paused",
            PausedRegistryState::Resuming => "resuming",
            PausedRegistryState::LocalOnly => "local_only",
            PausedRegistryState::Running => "running",
        }
    }

    /// The state that a column text names.
    pub fn parse(text: &str) -> (r: Option<PausedRegistryState>)
        ensures
            r == state_named(text@),
            r matches Some(s) ==> text@ == match s {
                PausedRegistryState::Publishing => "publishing"@,
                PausedRegistryState::Paused => "paused"@,
                PausedRegistryState::Resuming => "resuming"@,
                PausedRegistryState::LocalOnly => "local_only"@,
                PausedRegistryState::Running => "running"@,
            },
            r is None ==> text@ != "publishing"@ && text@ != "paused"@ && text@ != "resuming"@
                && text@ != "local_only"@ && text@ != "running"@,
    {
        if same_text(text, "publishing") {
            Some(PausedRegistryState::Publishing)
        } else if same_text(text, "paused") {
            Some(PausedRegistryState::Paused)
        } else if same_text(text, "resuming") {
            Some(PausedRegistryState::Resuming)
        } else if same_text(text, "local_only") {
            Some(PausedRegistryState::LocalOnly)
        } else if same_text(text, "running") {
            Some(PausedRegistryState::Running)
        } else {
            None
        }
    }
}

/// Every state is read back from the text it is written as.
pub proof fn states_round_trip(s: PausedRegistryState)
    ensures
        state_named(state_text(s)) == Some(s),
{
    reveal_strlit("publishing");
    reveal_strlit("paused");
    reveal_strlit("resuming");
    reveal_strlit("local_only");
    reveal_strlit("running");
    assert("paused"@.len() == 6 && "resuming"@.len() == 8 && "running"@.len() == 7);
    assert("publishing"@.len() == 10 && "local_only"@.len() == 10);
    assert("publishing"@[0] == 'p' && "local_only"@[0] == 'l');
}

/// The columns of a state are the five words that the registry's statements name, and no other text
/// names a state.
pub proof fn states_are_named_by_their_words(text: Seq<char>)
    ensures
        state_text(PausedRegistryState::Publishing) == "publishing"@,
        state_text(PausedRegistryState::Paused) == "paused"@,
        state_text(PausedRegistryState::Resuming) == "resuming"@,
        state_text(PausedRegistryState::LocalOnly) == "local_only"@,
        state_text(PausedRegistryState::Running) == "running"@,
        state_named(text) matches Some(s) ==> text == state_text(s),
        state_named(text) is None ==> text != "publishing"@ && text != "paused"@ && text
            != "resuming"@ && text != "local_only"@ && text != "running"@,
{
}

/// A row is answered for by its claimant where one is named, and by its origin otherwise.
pub proof fn claimants_answer_before_origins(origin: String, claimant: Option<String>)
    ensures
        claimant matches Some(node) ==> holder_of(origin, claimant) == node,
        claimant is None ==> holder_of(origin, claimant) == origin,
{
}

/// A durable snapshot.
#[derive(Debug, Clone, Copy, PartialEq, Eq, Structural)]
pub struct SnapshotId {
    pub number: u128,
}

/// The sandbox record that travels with a row: what the registry reads of it, and its document.
#[derive(Debug)]
pub struct SandboxMetadata {
    pub id: SandboxId,
    pub execution_id: ExecutionId,
    pub document: String,
}

/// A registered sandbox with its record.
#[derive(Debug)]
pub struct PausedSandboxEntry {
    pub sandbox_id: SandboxId,
    pub cluster_id: u128,
    pub state: PausedRegistryState,
    pub generation: i64,
    pub origin_node_id: String,
    pub claimed_by_node_id: Option<String>,
    pub snapshot_id: Option<SnapshotId>,
    pub metadata: Option<SandboxMetadata>,
    pub execution_id: Option<ExecutionId>,
    pub paused_at: Timestamp,
    pub updated_at: Timestamp,
}

/// A registered sandbox as the administrative listing shows it.
#[derive(Debug)]
pub struct PausedRegistryListEntry {
    pub sandbox_id: SandboxId,
    pub cluster_id: u128,
    pub state: PausedRegistryState,
    pub generation: i64,
    pub origin_node_id: String,
    pub claimed_by_node_id: Option<String>,
    pub snapshot_id: Option<SnapshotId>,
    pub paused_at: Timestamp,
    pub updated_at: Timestamp,
    pub lease_expires_at: Option<Timestamp>,
    pub sandbox_expires_at: Option<Timestamp>,
    pub execution_id: Option<ExecutionId>,
}

/// The administrative listing and the database time it was read at.
#[derive(Debug)]
pub struct PausedRegistryListing {
    pub sandboxes: Vec<PausedRegistryListEntry>,
    pub now: Timestamp,
}

/// The claimant where there is one, and the origin node otherwise.
pub open spec fn holder_of(origin: String, claimant: Option<String>) -> String {
    match claimant {
        Some(node) => node,
        None => origin,
    }
}

impl PausedRegistryListEntry {
    /// The node that answers for the row: its claimant where there is one, and its origin node
    /// otherwise.
    pub fn holder(&self) -> (r: &str)
        ensures
            r@ == holder_of(self.origin_node_id, self.claimed_by_node_id)@,
            self.claimed_by_node_id matches Some(node) ==> r@ == node@,
            self.claimed_by_node_id is None ==> r@ == self.origin_node_id@,
    {
        match &self.claimed_by_node_id {
            Some(node) => node.as_str(),
            None => self.origin_node_id.as_str(),
        }
    }
}

/// A started pause.
#[derive(Debug, Clone, Copy, PartialEq, Eq, Structural)]
pub struct BeganPause {
    pub generation: i64,
    pub previous_snapshot_id: Option<SnapshotId>,
}

/// Why a claim met a sandbox that is not free.
#[derive(Debug, Clone, Copy, PartialEq, Eq, Structural)]
pub enum ConflictReason {
    /// It runs, or another replica is starting it.
    LiveElsewhere,
    /// It was free again by the time it was read.
    ClaimLost,
}

/// The answer to a claim.
#[derive(Debug)]
pub enum ResumeClaim {
    /// The caller holds the sandbox; `previous_state` is what it was before.
    Claimed { entry: PausedSandboxEntry, previous_state: PausedRegistryState },
    /// No row tracks the sandbox.
    NotFound,
    /// The pause has not reached durable storage.
    NotReady { origin_node_id: String },
    /// The sandbox is not free.
    Conflict { origin_node_id: String, reason: ConflictReason },
}

/// The answer to a sandbox that says it runs.
#[derive(Debug, Clone, Copy, PartialEq, Eq, Structural)]
pub enum MarkRunningOutcome {
    /// The row is the caller's.
    Adopted,
    /// No row tracks the sandbox.
    Untracked,
    /// Another node holds the row.
    HeldElsewhere,
}

/// The answer to a deadline renewal.
#[derive(Debug, Clone, Copy, PartialEq, Eq, Structural)]
pub enum DeadlineRenewalOutcome {
    /// The deadline was written.
    Renewed,
    /// No row tracks the sandbox.
    NotTracked,
    /// The row is not that incarnation's any more.
    Superseded,
}

/// A sandbox that a node holds, and its deadline.
#[derive(Debug, Clone, Copy)]
pub struct HeldSandbox {
    pub sandbox_id: SandboxId,
    pub expires_at: Option<Timestamp>,
}

/// How many rows a release gave back to their snapshot, and how many it discarded.
#[derive(Debug, Clone, Copy, PartialEq, Eq, Structural)]
pub struct ReleasedHoldings {
    pub released: u64,
    pub discarded: u64,
}

impl ReleasedHoldings {
    /// Whether nothing was released or discarded.
    pub fn is_empty(&self) -> (r: bool)
        ensures
            r == (self.released == 0 && self.discarded == 0),
    {
        self.released == 0 && self.discarded == 0
    }
}

/// Why the registry refused.
#[derive(Debug)]
pub enum PausedRegistryError {
    /// A row, or a record to be written, is not one.
    InvalidRecord { sandbox_id: String, reason: String },
    /// The row moved on; reading it again and retrying is right.
    GenerationConflict { sandbox_id: String, expected: i64 },
    /// The caller's incarnation is not the row's; retrying is wrong.
    ExecutionFenced { sandbox_id: String },
    /// The operation was refused or failed outside the row.
    Backend { operation: String, reason: String },
}

/// `e` says that the record of `sandbox_id` is invalid, for `reason`.
pub open spec fn is_invalid(e: PausedRegistryError, sandbox_id: Seq<char>, reason: Seq<char>) -> bool {
    e matches PausedRegistryError::InvalidRecord { sandbox_id: s, reason: r } && s@ == sandbox_id
        && r@ == reason
}

/// `e` says that `sandbox_id` belongs to another incarnation.
pub open spec fn is_fenced(e: PausedRegistryError, sandbox_id: Seq<char>) -> bool {
    e matches PausedRegistryError::ExecutionFenced { sandbox_id: s } && s@ == sandbox_id
}

/// `e` says that `sandbox_id` is not at `expected` any more.
pub open spec fn is_generation_conflict(
    e: PausedRegistryError,
    sandbox_id: Seq<char>,
    expected: i64,
) -> bool {
    e matches PausedRegistryError::GenerationConflict { sandbox_id: s, expected: g } && s@
        == sandbox_id && g == expected
}

/// An invalid record.
pub fn invalid(sandbox_id: &str, reason: &str) -> (r: PausedRegistryError)
    ensures
        is_invalid(r, sandbox_id@, reason@),
        r matches PausedRegistryError::InvalidRecord { sandbox_id: s, reason: why } && s@
            == sandbox_id@ && why@ == reason@,
{
    PausedRegistryError::InvalidRecord {
        sandbox_id: sandbox_id.to_owned(),
        reason: reason.to_owned(),
    }
}

/// An error says which sandbox it is about and why, and no error says two things.
pub proof fn errors_say_what_they_are_about(
    e: PausedRegistryError,
    sandbox_id: Seq<char>,
    reason: Seq<char>,
    expected: i64,
)
    ensures
        is_invalid(e, sandbox_id, reason) ==> (e matches PausedRegistryError::InvalidRecord {
            sandbox_id: s,
            reason: r,
        } && s@ == sandbox_id && r@ == reason),
        is_fenced(e, sandbox_id) ==> (e matches PausedRegistryError::ExecutionFenced { sandbox_id: s }
            && s@ == sandbox_id),
        is_generation_conflict(e, sandbox_id, expected) ==> (
        e matches PausedRegistryError::GenerationConflict { sandbox_id: s, expected: g } && s@
            == sandbox_id && g == expected),
{
}

} // verus!
