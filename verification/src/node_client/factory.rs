//! Building the node calls one sandbox that runs somewhere else needs.

use crate::ids::{uuid_text, uuid_texts_tell_apart, ExecutionId, SandboxId};
use crate::node_client::placement::{PlacementNeeds, SandboxResources};
use crate::text::texts_match;
use std::sync::Arc;
use vstd::prelude::*;
use vstd::string::*;

verus! {

/// A value in its wire form, or why it has none.
pub type Encoded = Result<Vec<u8>, String>;

/// The network rules of a sandbox.
#[derive(Debug)]
pub struct SandboxNetworkPolicy {
    /// Whether the rules need an egress broker.
    pub has_brokers: bool,
    pub encoded: Encoded,
}

/// A snapshot's catalog row.
#[derive(Debug)]
pub struct SnapshotRecord {
    pub id: String,
    pub resources: SandboxResources,
    pub encoded: Encoded,
}

/// A snapshot that this process resolved.
#[derive(Debug)]
pub struct RunnableSnapshot {
    pub record: SnapshotRecord,
}

/// A name and a value.
#[derive(Debug)]
pub struct Variable {
    pub name: String,
    pub value: String,
}

/// A drive to attach.
#[derive(Debug)]
pub struct AttachedDriveSpec {
    pub image_ref: String,
    pub mount_path: String,
    pub drive_id: String,
    pub read_only: bool,
    pub sub_path: Option<String>,
    pub virtual_size: Option<u64>,
}

/// A sandbox to build from an image that nobody resolved yet.
#[derive(Debug)]
pub struct UnresolvedImageBuildSpec {
    pub image_ref: String,
    pub resources: SandboxResources,
    pub attached_drives: Vec<AttachedDriveSpec>,
    pub extra_boot_args: Option<String>,
}

/// How a sandbox is launched.
#[derive(Debug)]
pub struct SandboxLaunchConfig {
    pub sandbox_id: SandboxId,
    pub envd_access_token: Option<String>,
    pub traffic_access_token: Option<String>,
    pub env_vars: Option<Vec<Variable>>,
    pub network: Option<SandboxNetworkPolicy>,
    pub custom_extension_params: Option<Encoded>,
    /// The control plane's record of the sandbox, where it owns it.
    pub control_plane_config: Option<Vec<u8>>,
    pub preferred_node_id: Option<String>,
}

/// A drive to attach, as a node is asked for it.
#[derive(Debug)]
pub struct AttachedDrive {
    pub image_ref: String,
    pub mount_path: String,
    pub drive_id: String,
    pub read_only: bool,
    /// Empty where there is none.
    pub sub_path: String,
    /// Zero where there is none.
    pub virtual_size_bytes: u64,
}

/// What a sandbox is created from.
#[derive(Debug)]
pub enum Source {
    /// A snapshot, with its catalog row so that the node need not look it up again.
    Snapshot { snapshot_id: String, resolved_record: Vec<u8> },
    /// An image that the node resolves.
    Image {
        image_ref: String,
        resources: SandboxResources,
        attached_drives: Vec<AttachedDrive>,
        extra_boot_args: String,
    },
}

/// Who keeps a sandbox's deadline.
#[derive(Debug, Clone, Copy, PartialEq, Eq, Structural)]
pub enum Expiry {
    /// The caller: the node must not invent another deadline.
    CallerKept,
    /// The node, with its default.
    NodeKeptDefault,
    /// The node, with this time in milliseconds.
    NodeKeptTimeoutMs(u64),
}

/// What a node does to a sandbox whose deadline has passed.
#[derive(Debug, Clone, Copy, PartialEq, Eq, Structural)]
pub enum TimeoutAction {
    Pause,
    Kill,
}

/// What a node is asked to create.
#[derive(Debug)]
pub struct SandboxCreateRequest {
    pub sandbox_id: String,
    pub execution_id: String,
    pub source: Source,
    pub expiry: Expiry,
    pub timeout_action: TimeoutAction,
    pub auto_resume: bool,
    pub secure: bool,
    pub traffic_access_token: String,
    pub user_metadata: Vec<Variable>,
    pub env_vars: Vec<Variable>,
    pub network_policy: Option<Vec<u8>>,
    pub custom_extension_params: Option<Vec<u8>>,
    pub control_plane_config: Vec<u8>,
}

/// What a session does when it starts.
#[derive(Debug)]
pub enum PendingLaunch {
    /// Creates the sandbox.
    Launch {
        request: SandboxCreateRequest,
        preferred_node_id: Option<String>,
        needs: PlacementNeeds,
    },
    /// Locates the sandbox that runs already.
    Attach,
}

/// A session over one sandbox on a node.
pub struct RemoteSandboxStub<P, O> {
    pub sandbox_id: SandboxId,
    pub execution_id: ExecutionId,
    pub resources: SandboxResources,
    pub placement: Arc<P>,
    pub record_owner: Arc<O>,
    pub pending: PendingLaunch,
}

/// What of a launch has no wire form.
#[derive(Debug)]
pub struct LaunchError {
    pub what: &'static str,
    pub reason: String,
}

/// Builds the node session a launch or an already-running sandbox needs,
/// without network I/O.
///
/// Unresolved image and snapshot inputs are forwarded for node-side resolution.
pub struct NodeLaunchBuilder<P, O> {
    pub placement: Arc<P>,
    pub record_owner: Arc<O>,
}

/// `Arc::clone`: another handle to the same value.
#[verifier::external_body]
fn share<T>(handle: &Arc<T>) -> (r: Arc<T>)
    ensures
        r == *handle,
{
    Arc::clone(handle)
}

fn copy_bytes(bytes: &Vec<u8>) -> (r: Vec<u8>)
    ensures
        r@ == bytes@,
{
    let mut out: Vec<u8> = Vec::new();
    let mut i: usize = 0;
    while i < bytes.len()
        invariant
            i <= bytes@.len(),
            out@ =~= bytes@.take(i as int),
        decreases bytes@.len() - i,
    {
        out.push(bytes[i]);
        i = i + 1;
    }
    proof {
        assert(bytes@.take(i as int) =~= bytes@);
    }
    out
}

/// What a launch needs from its node, read off the policy it will run under.
pub open spec fn needs_of(network: Option<SandboxNetworkPolicy>) -> PlacementNeeds {
    PlacementNeeds { egress_broker: network matches Some(policy) && policy.has_brokers }
}

/// What a launch needs from its node, read off the policy it will run under.
pub fn placement_needs(network: &Option<SandboxNetworkPolicy>) -> (r: PlacementNeeds)
    ensures
        r == needs_of(*network),
        r.egress_broker <==> (*network is Some && ((*network)->0).has_brokers),
{
    match network {
        Some(policy) => PlacementNeeds { egress_broker: policy.has_brokers },
        None => PlacementNeeds { egress_broker: false },
    }
}

/// What of a launch has no wire form, where something has none: the first counts.
pub open spec fn launch_fault(config: SandboxLaunchConfig) -> Option<(Seq<char>, String)> {
    if config.network matches Some(policy) && policy.encoded is Err {
        Some(("network policy"@, config.network->0.encoded->Err_0))
    } else if config.custom_extension_params matches Some(params) && params is Err {
        Some(("custom extension params"@, config.custom_extension_params->0->Err_0))
    } else {
        None
    }
}

/// An optional wire form.
pub open spec fn wire_of(encoded: Option<Encoded>) -> Option<Vec<u8>> {
    match encoded {
        Some(Ok(bytes)) => Some(bytes),
        _ => None,
    }
}

/// The wire form of a policy.
pub open spec fn policy_wire(network: Option<SandboxNetworkPolicy>) -> Option<Vec<u8>> {
    match network {
        Some(policy) => wire_of(Some(policy.encoded)),
        None => None,
    }
}

/// `request` is what a node is asked to create for a launch: everything but its source.
///
/// The orchestrator owns expiry and stamps ownership on the complete launch record; an unstamped
/// create remains unclaimed rather than being reconciled away.
pub open spec fn is_create(
    request: SandboxCreateRequest,
    config: SandboxLaunchConfig,
    execution_id: ExecutionId,
) -> bool {
    &&& request.sandbox_id@ == uuid_text(config.sandbox_id.number)
    &&& request.execution_id@ == uuid_text(execution_id.number)
    &&& request.expiry == Expiry::CallerKept
    &&& request.timeout_action == TimeoutAction::Pause
    &&& !request.auto_resume
    &&& request.secure == config.envd_access_token is Some
    &&& request.traffic_access_token@ == match config.traffic_access_token {
        Some(token) => token@,
        None => Seq::empty(),
    }
    &&& request.user_metadata@.len() == 0
    &&& request.env_vars@ == match config.env_vars {
        Some(vars) => vars@,
        None => Seq::empty(),
    }
    &&& request.network_policy == policy_wire(config.network)
    &&& request.custom_extension_params == wire_of(config.custom_extension_params)
    &&& request.control_plane_config@ == match config.control_plane_config {
        Some(marker) => marker@,
        None => Seq::empty(),
    }
}

/// `request` creates a sandbox from a snapshot record.
pub open spec fn is_snapshot_source(source: Source, record: SnapshotRecord) -> bool {
    source matches Source::Snapshot { snapshot_id, resolved_record } && snapshot_id@ == record.id@
        && (record.encoded matches Ok(bytes) && resolved_record@ == bytes@)
}

/// `d` asks a node for the drive `spec`.
pub open spec fn is_drive(d: AttachedDrive, spec: AttachedDriveSpec) -> bool {
    &&& d.image_ref@ == spec.image_ref@
    &&& d.mount_path@ == spec.mount_path@
    &&& d.drive_id@ == spec.drive_id@
    &&& d.read_only == spec.read_only
    &&& d.sub_path@ == match spec.sub_path {
        Some(path) => path@,
        None => Seq::empty(),
    }
    &&& d.virtual_size_bytes == match spec.virtual_size {
        Some(size) => size,
        None => 0,
    }
}

/// `source` asks a node for the image of `spec`.
pub open spec fn is_image_source(source: Source, spec: UnresolvedImageBuildSpec) -> bool {
    source matches Source::Image { image_ref, resources, attached_drives, extra_boot_args } && {
        &&& image_ref@ == spec.image_ref@
        &&& resources == spec.resources
        &&& attached_drives@.len() == spec.attached_drives@.len()
        &&& forall|i: int|
            0 <= i < spec.attached_drives@.len() ==> is_drive(
                #[trigger] attached_drives@[i],
                spec.attached_drives@[i],
            )
        &&& extra_boot_args@ == match spec.extra_boot_args {
            Some(args) => args@,
            None => Seq::empty(),
        }
    }
}

fn text_or_empty(text: Option<String>) -> (r: String)
    ensures
        r@ == match text {
            Some(t) => t@,
            None => Seq::empty(),
        },
{
    match text {
        Some(t) => t,
        None => String::new(),
    }
}

/// Why a snapshot launch cannot be built, where it cannot: its record, else the launch itself, has
/// no wire form.
pub open spec fn snapshot_fault(record: SnapshotRecord, config: SandboxLaunchConfig) -> Option<
    (Seq<char>, String),
> {
    match record.encoded {
        Err(reason) => Some(("resolved snapshot record"@, reason)),
        Ok(_) => launch_fault(config),
    }
}

/// `e` names what has no wire form.
pub open spec fn is_launch_error(e: LaunchError, fault: Option<(Seq<char>, String)>) -> bool {
    fault matches Some((what, reason)) && e.what@ == what && e.reason == reason
}

impl<P, O> NodeLaunchBuilder<P, O> {
    /// `record_owner` answers for a sandbox id when a node says it already
    /// holds one.
    pub fn new(placement: Arc<P>, record_owner: Arc<O>) -> (r: NodeLaunchBuilder<P, O>)
        ensures
            r.placement == placement,
            r.record_owner == record_owner,
    {
        NodeLaunchBuilder { placement, record_owner }
    }

    /// `stub` is a session of this builder that launches the sandbox with `request`.
    pub open spec fn launches(
        &self,
        stub: RemoteSandboxStub<P, O>,
        resources: SandboxResources,
        config: SandboxLaunchConfig,
        execution_id: ExecutionId,
    ) -> bool {
        &&& stub.sandbox_id == config.sandbox_id
        &&& stub.execution_id == execution_id
        &&& stub.resources == resources
        &&& stub.placement == self.placement
        &&& stub.record_owner == self.record_owner
        &&& stub.pending matches PendingLaunch::Launch { request, preferred_node_id, needs }
            && is_create(request, config, execution_id) && preferred_node_id
            == config.preferred_node_id && needs == needs_of(config.network)
    }

    /// Builds a create request from a snapshot that this process resolved. Resolved and unresolved
    /// snapshot paths build the same request.
    pub fn build_from_snapshot(
        &self,
        snapshot: &RunnableSnapshot,
        launch_config: SandboxLaunchConfig,
        execution_id: ExecutionId,
    ) -> (r: Result<RemoteSandboxStub<P, O>, LaunchError>)
        ensures
            match r {
                Ok(stub) => {
                    &&& snapshot_fault(snapshot.record, launch_config) is None
                    &&& self.launches(stub, snapshot.record.resources, launch_config, execution_id)
                    &&& stub.pending matches PendingLaunch::Launch { request, .. }
                        && is_snapshot_source(request.source, snapshot.record)
                },
                Err(e) => is_launch_error(e, snapshot_fault(snapshot.record, launch_config)),
            },
    {
        self.build_from_snapshot_record(&snapshot.record, launch_config, execution_id)
    }

    /// Builds a create request from a snapshot record without materializing its bytes locally.
    pub fn build_from_snapshot_record(
        &self,
        record: &SnapshotRecord,
        launch_config: SandboxLaunchConfig,
        execution_id: ExecutionId,
    ) -> (r: Result<RemoteSandboxStub<P, O>, LaunchError>)
        ensures
            match r {
                Ok(stub) => {
                    &&& snapshot_fault(*record, launch_config) is None
                    &&& self.launches(stub, record.resources, launch_config, execution_id)
                    &&& stub.pending matches PendingLaunch::Launch { request, .. }
                        && is_snapshot_source(request.source, *record)
                },
                Err(e) => is_launch_error(e, snapshot_fault(*record, launch_config)),
            },
    {
        let resolved_record = match &record.encoded {
            Ok(bytes) => copy_bytes(bytes),
            Err(reason) => {
                return Err(
                    LaunchError { what: "resolved snapshot record", reason: reason.clone() },
                );
            },
        };
        let source = Source::Snapshot { snapshot_id: record.id.clone(), resolved_record };
        self.pending_launch(source, record.resources, launch_config, execution_id)
    }

    /// Builds a create request from an unresolved image specification.
    pub fn build_from_image_ref(
        &self,
        spec: UnresolvedImageBuildSpec,
        launch_config: SandboxLaunchConfig,
        execution_id: ExecutionId,
    ) -> (r: Result<RemoteSandboxStub<P, O>, LaunchError>)
        ensures
            match r {
                Ok(stub) => {
                    &&& launch_fault(launch_config) is None
                    &&& self.launches(stub, spec.resources, launch_config, execution_id)
                    &&& stub.pending matches PendingLaunch::Launch { request, .. }
                        && is_image_source(request.source, spec)
                },
                Err(e) => is_launch_error(e, launch_fault(launch_config)),
            },
    {
        let resources = spec.resources;
        let drives = &spec.attached_drives;
        let mut attached_drives: Vec<AttachedDrive> = Vec::new();
        let mut i: usize = 0;
        while i < drives.len()
            invariant
                i <= drives@.len(),
                attached_drives@.len() == i,
                forall|j: int| 0 <= j < i ==> is_drive(#[trigger] attached_drives@[j], drives@[j]),
            decreases drives@.len() - i,
        {
            let drive = &drives[i];
            let sub_path = match &drive.sub_path {
                Some(path) => path.clone(),
                None => String::new(),
            };
            attached_drives.push(
                AttachedDrive {
                    image_ref: drive.image_ref.clone(),
                    mount_path: drive.mount_path.clone(),
                    drive_id: drive.drive_id.clone(),
                    read_only: drive.read_only,
                    sub_path,
                    virtual_size_bytes: drive.virtual_size.unwrap_or(0),
                },
            );
            i = i + 1;
        }
        let source = Source::Image {
            image_ref: spec.image_ref,
            resources,
            attached_drives,
            extra_boot_args: text_or_empty(spec.extra_boot_args),
        };
        self.pending_launch(source, resources, launch_config, execution_id)
    }

    /// A session that creates a sandbox from `source`.
    fn pending_launch(
        &self,
        source: Source,
        resources: SandboxResources,
        launch_config: SandboxLaunchConfig,
        execution_id: ExecutionId,
    ) -> (r: Result<RemoteSandboxStub<P, O>, LaunchError>)
        ensures
            match r {
                Ok(stub) => {
                    &&& launch_fault(launch_config) is None
                    &&& self.launches(stub, resources, launch_config, execution_id)
                    &&& stub.pending matches PendingLaunch::Launch { request, .. }
                        && request.source == source
                },
                Err(e) => is_launch_error(e, launch_fault(launch_config)),
            },
    {
        let needs = placement_needs(&launch_config.network);
        let network_policy: Option<Vec<u8>> = match launch_config.network {
            Some(policy) => match policy.encoded {
                Ok(bytes) => Some(bytes),
                Err(reason) => {
                    return Err(LaunchError { what: "network policy", reason });
                },
            },
            None => None,
        };
        let custom_extension_params: Option<Vec<u8>> = match launch_config.custom_extension_params {
            Some(Ok(bytes)) => Some(bytes),
            Some(Err(reason)) => {
                return Err(LaunchError { what: "custom extension params", reason });
            },
            None => None,
        };
        let env_vars = match launch_config.env_vars {
            Some(vars) => vars,
            None => Vec::new(),
        };
        let control_plane_config = match launch_config.control_plane_config {
            Some(marker) => marker,
            None => Vec::new(),
        };
        let request = SandboxCreateRequest {
            sandbox_id: launch_config.sandbox_id.text(),
            execution_id: execution_id.text(),
            source,
            expiry: Expiry::CallerKept,
            timeout_action: TimeoutAction::Pause,
            auto_resume: false,
            secure: launch_config.envd_access_token.is_some(),
            traffic_access_token: text_or_empty(launch_config.traffic_access_token),
            user_metadata: Vec::new(),
            env_vars,
            network_policy,
            custom_extension_params,
            control_plane_config,
        };
        Ok(
            RemoteSandboxStub {
                sandbox_id: launch_config.sandbox_id,
                execution_id,
                resources,
                placement: share(&self.placement),
                record_owner: share(&self.record_owner),
                pending: PendingLaunch::Launch {
                    request,
                    preferred_node_id: launch_config.preferred_node_id,
                    needs,
                },
            },
        )
    }

    /// A session over a sandbox that is already running somewhere.
    ///
    /// Construction makes no call; starting it locates the existing runtime.
    pub fn attach_to_running(
        &self,
        sandbox_id: SandboxId,
        execution_id: ExecutionId,
        resources: SandboxResources,
    ) -> (r: RemoteSandboxStub<P, O>)
        ensures
            r == (RemoteSandboxStub {
                sandbox_id,
                execution_id,
                resources,
                placement: self.placement,
                record_owner: self.record_owner,
                pending: PendingLaunch::Attach,
            }),
    {
        RemoteSandboxStub {
            sandbox_id,
            execution_id,
            resources,
            placement: share(&self.placement),
            record_owner: share(&self.record_owner),
            pending: PendingLaunch::Attach,
        }
    }
}

/// Two requests ask a node for the same sandbox.
pub open spec fn same_request(a: SandboxCreateRequest, b: SandboxCreateRequest) -> bool {
    &&& a.sandbox_id@ == b.sandbox_id@
    &&& a.execution_id@ == b.execution_id@
    &&& a.expiry == b.expiry
    &&& a.timeout_action == b.timeout_action
    &&& a.auto_resume == b.auto_resume
    &&& a.secure == b.secure
    &&& a.traffic_access_token@ == b.traffic_access_token@
    &&& a.user_metadata@ == b.user_metadata@
    &&& a.env_vars@ == b.env_vars@
    &&& a.network_policy == b.network_policy
    &&& a.custom_extension_params == b.custom_extension_params
    &&& a.control_plane_config@ == b.control_plane_config@
    &&& a.source matches Source::Snapshot { snapshot_id: s, resolved_record: x } && (b.source matches
        Source::Snapshot { snapshot_id: t, resolved_record: y } && s@ == t@ && x@ == y@)
}

/// A create is decided by the record, the launch and the execution alone: whatever the two paths
/// build for the same record, a resolved and an unresolved snapshot ask the node for the same.
pub proof fn resolving_a_snapshot_changes_nothing(
    resolved: SandboxCreateRequest,
    unresolved: SandboxCreateRequest,
    record: SnapshotRecord,
    config: SandboxLaunchConfig,
    execution_id: ExecutionId,
)
    requires
        is_create(resolved, config, execution_id),
        is_create(unresolved, config, execution_id),
        is_snapshot_source(resolved.source, record),
        is_snapshot_source(unresolved.source, record),
    ensures
        same_request(resolved, unresolved),
{
    assert(resolved.user_metadata@ =~= unresolved.user_metadata@);
}

/// The ownership marker on the wire is the one the launch carries: it is empty only where the
/// launch carries none or an empty one.
pub proof fn markers_come_from_the_launch(
    request: SandboxCreateRequest,
    config: SandboxLaunchConfig,
    execution_id: ExecutionId,
)
    requires
        is_create(request, config, execution_id),
    ensures
        config.control_plane_config matches Some(marker) ==> request.control_plane_config@
            == marker@,
        request.control_plane_config@.len() == 0 <==> (config.control_plane_config matches Some(
            marker,
        ) ==> marker@.len() == 0),
{
}

/// A launch needs an egress broker exactly where it has network rules that need one.
pub proof fn only_broker_rules_need_a_broker(network: Option<SandboxNetworkPolicy>)
    ensures
        network is None ==> !needs_of(network).egress_broker,
        network matches Some(policy) ==> needs_of(network).egress_broker == policy.has_brokers,
{
}

/// A launch can be built exactly where its rules and its parameters have a wire form, as far as it
/// has any, and a snapshot's record too; what has none is named, and the record comes before the
/// rules and the rules before the parameters.
pub proof fn launches_are_refused_for_what_has_no_wire_form(
    record: SnapshotRecord,
    config: SandboxLaunchConfig,
)
    ensures
        launch_fault(config) is None <==> (config.network matches Some(policy)
            ==> policy.encoded is Ok) && (config.custom_extension_params matches Some(params)
            ==> params is Ok),
        config.network matches Some(policy) ==> policy.encoded matches Err(reason)
            ==> launch_fault(config) == Some(("network policy"@, reason)),
        (config.network matches Some(policy) ==> policy.encoded is Ok) ==> (
        config.custom_extension_params matches Some(params) ==> params matches Err(reason)
            ==> launch_fault(config) == Some(("custom extension params"@, reason))),
        snapshot_fault(record, config) is None <==> record.encoded is Ok && launch_fault(
            config,
        ) is None,
        record.encoded matches Err(reason) ==> snapshot_fault(record, config) == Some(
            ("resolved snapshot record"@, reason),
        ),
        record.encoded is Ok ==> snapshot_fault(record, config) == launch_fault(config),
{
}

/// An error says what has no wire form and why.
pub proof fn launch_errors_name_the_fault(e: LaunchError, what: Seq<char>, reason: String)
    ensures
        is_launch_error(e, Some((what, reason))) <==> e.what@ == what && e.reason == reason,
        !is_launch_error(e, None),
{
}

/// A create carries what the launch carries: its identities by their texts, its traffic token,
/// variables and marker, each empty where the launch has none, and its rules and parameters in
/// their wire form, each absent where the launch has none. It is secure exactly where the launch has
/// an access token. The deadline stays with the caller, so the node neither resumes the sandbox by
/// itself nor ends it, and no metadata goes along.
pub proof fn creates_carry_the_launch(
    request: SandboxCreateRequest,
    config: SandboxLaunchConfig,
    execution_id: ExecutionId,
)
    requires
        is_create(request, config, execution_id),
    ensures
        request.sandbox_id@ == uuid_text(config.sandbox_id.number),
        request.execution_id@ == uuid_text(execution_id.number),
        request.expiry == Expiry::CallerKept,
        request.timeout_action == TimeoutAction::Pause,
        !request.auto_resume,
        request.user_metadata@.len() == 0,
        config.envd_access_token is Some <==> request.secure,
        config.traffic_access_token matches Some(token) ==> request.traffic_access_token@ == token@,
        config.traffic_access_token is None ==> request.traffic_access_token@.len() == 0,
        config.env_vars matches Some(vars) ==> request.env_vars@ == vars@,
        config.env_vars is None ==> request.env_vars@.len() == 0,
        config.control_plane_config matches Some(marker) ==> request.control_plane_config@
            == marker@,
        config.control_plane_config is None ==> request.control_plane_config@.len() == 0,
        config.network is None ==> request.network_policy is None,
        config.network matches Some(policy) ==> policy.encoded matches Ok(bytes)
            ==> request.network_policy == Some(bytes),
        config.custom_extension_params is None ==> request.custom_extension_params is None,
        config.custom_extension_params matches Some(params) ==> params matches Ok(bytes)
            ==> request.custom_extension_params == Some(bytes),
{
}

/// Two launches whose creates are the same for a node are for the same sandbox and execution.
pub proof fn creates_tell_launches_apart(
    a: SandboxCreateRequest,
    b: SandboxCreateRequest,
    first: SandboxLaunchConfig,
    second: SandboxLaunchConfig,
    x: ExecutionId,
    y: ExecutionId,
)
    requires
        is_create(a, first, x),
        is_create(b, second, y),
        a.sandbox_id@ == b.sandbox_id@,
        a.execution_id@ == b.execution_id@,
    ensures
        first.sandbox_id == second.sandbox_id,
        x == y,
{
    same_text_matches(a.sandbox_id@);
    same_text_matches(a.execution_id@);
    uuid_texts_tell_apart(first.sandbox_id.number, second.sandbox_id.number);
    uuid_texts_tell_apart(x.number, y.number);
}

proof fn same_text_matches(text: Seq<char>)
    ensures
        texts_match(text, text),
{
}

/// A session that launches is the builder's own, over the launch's sandbox, under the execution and
/// with the resources it was asked for; it prefers the launch's node and needs a broker exactly
/// where the launch's rules do.
pub proof fn sessions_are_over_the_launch<P, O>(
    builder: NodeLaunchBuilder<P, O>,
    stub: RemoteSandboxStub<P, O>,
    resources: SandboxResources,
    config: SandboxLaunchConfig,
    execution_id: ExecutionId,
)
    requires
        builder.launches(stub, resources, config, execution_id),
    ensures
        stub.sandbox_id == config.sandbox_id,
        stub.execution_id == execution_id,
        stub.resources == resources,
        stub.placement == builder.placement,
        stub.record_owner == builder.record_owner,
        stub.pending is Launch,
        is_create(stub.pending->request, config, execution_id),
        stub.pending->preferred_node_id == config.preferred_node_id,
        stub.pending->needs.egress_broker <==> (config.network is Some && (
        config.network->0).has_brokers),
{
}

/// A create from a snapshot names the record's identity and carries its wire form, and never asks
/// for an image.
pub proof fn snapshot_creates_carry_the_record(source: Source, record: SnapshotRecord)
    requires
        is_snapshot_source(source, record),
    ensures
        source is Snapshot,
        source->snapshot_id@ == record.id@,
        record.encoded is Ok,
        source->resolved_record@ == record.encoded->Ok_0@,
{
}

/// A create from an image asks for the image, the resources and, one by one and in order, the
/// drives of its specification; a drive without a path inside, without a size or a specification
/// without boot arguments sends an empty text or a zero there.
pub proof fn image_creates_carry_the_specification(
    source: Source,
    spec: UnresolvedImageBuildSpec,
    i: int,
)
    requires
        is_image_source(source, spec),
        0 <= i < spec.attached_drives@.len(),
    ensures
        source is Image,
        source->image_ref@ == spec.image_ref@,
        source->resources == spec.resources,
        spec.extra_boot_args matches Some(args) ==> source->extra_boot_args@ == args@,
        spec.extra_boot_args is None ==> source->extra_boot_args@.len() == 0,
        source->attached_drives@.len() == spec.attached_drives@.len(),
        source->attached_drives@[i].image_ref@ == spec.attached_drives@[i].image_ref@,
        source->attached_drives@[i].mount_path@ == spec.attached_drives@[i].mount_path@,
        source->attached_drives@[i].drive_id@ == spec.attached_drives@[i].drive_id@,
        source->attached_drives@[i].read_only == spec.attached_drives@[i].read_only,
        spec.attached_drives@[i].sub_path matches Some(path)
            ==> source->attached_drives@[i].sub_path@ == path@,
        spec.attached_drives@[i].sub_path is None ==> source->attached_drives@[i].sub_path@.len()
            == 0,
        spec.attached_drives@[i].virtual_size matches Some(size)
            ==> source->attached_drives@[i].virtual_size_bytes == size,
        spec.attached_drives@[i].virtual_size is None
            ==> source->attached_drives@[i].virtual_size_bytes == 0,
{
    let drives = source->attached_drives;
    assert(is_drive(drives@[i], spec.attached_drives@[i]));
}

/// A create from an image asks for the image, the resources and the boot arguments of its
/// specification, and for as many drives, also where there are none.
pub proof fn image_creates_ask_for_the_image(source: Source, spec: UnresolvedImageBuildSpec)
    requires
        is_image_source(source, spec),
    ensures
        source is Image,
        source->image_ref@ == spec.image_ref@,
        source->resources == spec.resources,
        source->attached_drives@.len() == spec.attached_drives@.len(),
        spec.extra_boot_args matches Some(args) ==> source->extra_boot_args@ == args@,
        spec.extra_boot_args is None ==> source->extra_boot_args@.len() == 0,
{
}

} // verus!
