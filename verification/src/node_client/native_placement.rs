//! In-process placement backed by the local node registry and scheduler surface.
//!
//! New placement, existing lookup, and assignment recording reuse
//! [`NodeRegistryGrpcService`] directly. Node resolution and membership read the
//! heartbeat-observed registry view.
//!
//! Registry misses become confirmed absence only after the warm-up gate opens; before
//! then they remain errors so a restarting replica cannot declare live runtimes gone.

use crate::ids::{uuid_text, SandboxId};
use crate::node_client::placement::PLACEMENT_RESERVATION_TTL_SECS;
use crate::node_client::placement::{
    NodeEndpoint, NodeMembership, PlacementCause, PlacementError, PlacementNeeds,
    PlacementRefused, SandboxResources, NO_EGRESS_BROKER,
};
use crate::node_registry::grpc_service::{
    BindingDelete, BindingState, BindingWrite, LookupAnswer, NodeRegistryGrpcService, WireNode,
};
use crate::node_registry::registry::NodeRegistry;
use crate::node_registry::status::{code_number, status_text, Code, Status};
use crate::node_registry::types::{NewSandboxHint, ObservedNode, ScheduleRequestHint};
use crate::node_registry::warmup::NodeReading;
use crate::text::{contains_text, occurs_at, occurs_in, quoted, quoted_text, same_text, trimmed};
use crate::time::{Span, Timestamp, NANOS_PER_SEC};
use vstd::prelude::*;
use vstd::string::*;

verus! {

/// How many characters an address may have for a port to be put on it: a longer one could outgrow
/// the offsets that a URL is kept with.
pub const MAX_ADDRESS_CHARS: usize = 0x100_0000;

/// What stands between a URL's scheme and its authority.
pub const SCHEME_SEPARATOR: &'static str = "://";

/// The scheme of an address that names none.
pub const DEFAULT_SCHEME: &'static str = "http://";

/// An address with a scheme: its own, or HTTP where it names none.
pub open spec fn qualified_text(endpoint: Seq<char>) -> Seq<char> {
    if occurs_in(SCHEME_SEPARATOR@, endpoint) {
        endpoint
    } else {
        DEFAULT_SCHEME@ + endpoint
    }
}

/// An address with a scheme.
pub fn qualified(endpoint: &str) -> (r: String)
    ensures
        r@ == qualified_text(endpoint@),
        occurs_in("://"@, endpoint@) ==> r@ == endpoint@,
        !occurs_in("://"@, endpoint@) ==> r@ == "http://"@ + endpoint@,
{
    if contains_text(endpoint, SCHEME_SEPARATOR) {
        endpoint.to_owned()
    } else {
        let mut out = DEFAULT_SCHEME.to_owned();
        out.append(endpoint);
        out
    }
}

/// A URL's text with its port replaced, as the `url` crate parses, changes and shows it: nothing
/// where the text is no URL, and nothing inside where the URL can have no port.
pub uninterp spec fn url_with_port(text: Seq<char>, port: u16) -> Option<Option<Seq<char>>>;

/// The texts that optional strings hold.
pub open spec fn port_result(r: Option<Option<String>>) -> Option<Option<Seq<char>>> {
    match r {
        None => None,
        Some(None) => Some(None),
        Some(Some(text)) => Some(Some(text@)),
    }
}

/// `url::Url::parse`, `Url::set_port` on what it gives, and `Url`'s `Display`: the URL that the
/// text spells, with its port replaced, as a text. Which texts are URLs, which of those can have a
/// port and what the result looks like is left to the name [`url_with_port`]; it depends on the
/// two arguments alone. The URL keeps 32-bit offsets, and a text near their end is left out.
#[verifier::external_body]
fn replace_url_port(text: &str, port: u16) -> (r: Option<Option<String>>)
    requires
        text@.len() <= MAX_ADDRESS_CHARS + 7,
    ensures
        port_result(r) == url_with_port(text@, port),
{
    let mut url = url::Url::parse(text).ok()?;
    Some(url.set_port(Some(port)).ok().map(|_| url.to_string()))
}

/// Why a port cannot be put on a node address.
#[derive(Debug)]
pub enum RewritePortError {
    /// The address is no URI.
    NotAUri { endpoint: String },
    /// The address has no host.
    NoHost { endpoint: String },
}

/// What a failure to put a port on `endpoint` says.
pub open spec fn port_failure(endpoint: Seq<char>, no_host: bool) -> Seq<char> {
    if no_host {
        "node address "@ + quoted_text(endpoint) + " has no host to put a port on"@
    } else {
        "node address "@ + quoted_text(endpoint) + " is not a valid URI"@
    }
}

impl RewritePortError {
    /// The address that the error is about.
    pub open spec fn address(&self) -> Seq<char> {
        match self {
            RewritePortError::NotAUri { endpoint } => endpoint@,
            RewritePortError::NoHost { endpoint } => endpoint@,
        }
    }

    /// The error's text.
    pub fn message(&self) -> (r: String)
        ensures
            r@ == port_failure(self.address(), self is NoHost),
    {
        let mut out = "node address ".to_owned();
        match self {
            RewritePortError::NotAUri { endpoint } => {
                out.append(quoted(endpoint.as_str()).as_str());
                out.append(" is not a valid URI");
            },
            RewritePortError::NoHost { endpoint } => {
                out.append(quoted(endpoint.as_str()).as_str());
                out.append(" has no host to put a port on");
            },
        }
        out
    }
}

/// `r` answers a request to put a port on `endpoint`, where replacing it in the URL gave
/// `replaced`.
pub open spec fn rewrites(
    endpoint: Seq<char>,
    replaced: Option<Option<Seq<char>>>,
    r: Result<String, RewritePortError>,
) -> bool {
    match replaced {
        Some(Some(text)) => r matches Ok(out) && out@ == text,
        Some(None) => r matches Err(e) && e is NoHost && e.address() == endpoint,
        None => r matches Err(e) && e is NotAUri && e.address() == endpoint,
    }
}

/// The answer to a request to put a port on `endpoint`, where replacing it in the URL gave
/// `replaced`.
pub fn rewritten(endpoint: &str, replaced: Option<Option<String>>) -> (r: Result<
    String,
    RewritePortError,
>)
    ensures
        rewrites(endpoint@, port_result(replaced), r),
{
    match replaced {
        Some(Some(text)) => Ok(text),
        Some(None) => Err(RewritePortError::NoHost { endpoint: endpoint.to_owned() }),
        None => Err(RewritePortError::NotAUri { endpoint: endpoint.to_owned() }),
    }
}

/// Replaces the port in an HTTP node address, including bracketed IPv6 literals.
pub fn rewrite_port(endpoint: &str, port: u16) -> (r: Result<String, RewritePortError>)
    requires
        endpoint@.len() <= MAX_ADDRESS_CHARS,
    ensures
        rewrites(endpoint@, url_with_port(qualified_text(endpoint@), port), r),
{
    rewritten(endpoint, put_port(endpoint, port))
}

/// The qualified address with its port replaced.
fn put_port(endpoint: &str, port: u16) -> (r: Option<Option<String>>)
    requires
        endpoint@.len() <= MAX_ADDRESS_CHARS,
    ensures
        port_result(r) == url_with_port(qualified_text(endpoint@), port),
{
    proof {
        reveal_strlit("http://");
    }
    let url = qualified(endpoint);
    replace_url_port(url.as_str(), port)
}

/// What the binding store decided of a reservation.
#[derive(Debug)]
pub enum BindingVerdict {
    /// The reservation holds.
    Accepted,
    /// A launch of the sandbox is still running somewhere.
    RejectedInflight,
    /// Another incarnation holds the sandbox.
    Rejected { label: String },
}

/// Placement backed entirely by the local API process.
pub struct NativeNodePlacement<R> {
    /// Node sandbox-service port substituted into advertised addresses.
    pub node_service_port: u16,
    /// Shared local service used by in-process and gRPC placement callers. Its warm-up gate
    /// prevents cold registry misses from becoming confirmed absence.
    pub local: NodeRegistryGrpcService<R>,
}

/// `e` says `message`, and a caller distinguishes nothing behind it.
pub open spec fn is_plain(e: PlacementError, message: Seq<char>) -> bool {
    e.message@ == message && e.cause is Other
}

fn plain(message: &str) -> (r: PlacementError)
    ensures
        is_plain(r, message@),
{
    PlacementError { message: message.to_owned(), cause: PlacementCause::Other }
}

fn plain2(head: &str, tail: &str) -> (r: PlacementError)
    ensures
        is_plain(r, head@ + tail@),
{
    let mut message = head.to_owned();
    message.append(tail);
    PlacementError { message, cause: PlacementCause::Other }
}

fn plain3(head: &str, middle: &str, tail: &str) -> (r: PlacementError)
    ensures
        is_plain(r, head@ + middle@ + tail@),
{
    let mut message = head.to_owned();
    message.append(middle);
    message.append(tail);
    PlacementError { message, cause: PlacementCause::Other }
}

/// `e` says `head`, the sandbox's id, `: ` and what the status displays.
pub open spec fn is_about_sandbox(
    e: PlacementError,
    head: Seq<char>,
    sandbox_id: SandboxId,
    code: Code,
    message: Seq<char>,
) -> bool {
    is_plain(
        e,
        head + uuid_text(sandbox_id.number) + ": "@ + status_text(code_number(code), message),
    )
}

fn about_sandbox(head: &str, sandbox_id: SandboxId, status: &Status) -> (r: PlacementError)
    ensures
        is_about_sandbox(r, head@, sandbox_id, status.code, status.message@),
{
    let mut message = head.to_owned();
    message.append(sandbox_id.text().as_str());
    message.append(": ");
    message.append(status.text().as_str());
    PlacementError { message, cause: PlacementCause::Other }
}

/// Begins the refusal of an assignment.
pub const ASSIGNMENT_REFUSED: &'static str = "the local scheduler refused an assignment for ";

/// Begins the refusal of a reservation.
pub const RESERVATION_REFUSED: &'static str = "the local scheduler refused to reserve ";

/// Begins the failure to release a reservation.
pub const RELEASE_FAILED: &'static str = "the local scheduler could not release the reservation for ";

/// Begins the failure to retire a routing record.
pub const RETIRE_FAILED: &'static str = "the local scheduler could not retire the routing record for ";

/// Begins what a cold registry says of a node.
pub const COLD_HEAD: &'static str = "the node registry has not finished warming up (not every node discovery already knows about has heartbeated yet) and cannot yet say whether node ";

/// `r` is the endpoint of a node that `namer` named, or says why it has none.
pub open spec fn endpoint_answer(
    namer: Seq<char>,
    node_id: Seq<char>,
    endpoint: Seq<char>,
    replaced: Option<Option<Seq<char>>>,
    r: Result<NodeEndpoint, PlacementError>,
) -> bool {
    if node_id.len() == 0 {
        r matches Err(e) && is_plain(e, namer + " named a node with no id"@)
    } else if endpoint.len() == 0 {
        r matches Err(e) && is_plain(e, namer + " named node "@ + node_id + " with no address"@)
    } else {
        match replaced {
            Some(Some(text)) => r matches Ok(node) && node.node_id@ == node_id && node.endpoint@
                == text && node.advertised_endpoint@ == endpoint,
            Some(None) => r matches Err(e) && is_plain(e, port_failure(endpoint, true)),
            None => r matches Err(e) && is_plain(e, port_failure(endpoint, false)),
        }
    }
}

/// The endpoint of a node that `namer` named, where putting the node service's port on its address
/// gave `replaced`.
pub fn settled_endpoint(
    namer: &str,
    node_id: String,
    endpoint: String,
    replaced: Option<Option<String>>,
) -> (r: Result<NodeEndpoint, PlacementError>)
    ensures
        endpoint_answer(namer@, node_id@, endpoint@, port_result(replaced), r),
        r is Ok <==> node_id@.len() > 0 && endpoint@.len() > 0 && replaced is Some
            && replaced->0 is Some,
        r matches Ok(node) ==> node.node_id == node_id && node.advertised_endpoint == endpoint
            && (replaced matches Some(Some(text)) && node.endpoint@ == text@),
{
    if node_id.as_str().is_empty() {
        return Err(plain2(namer, " named a node with no id"));
    }
    if endpoint.as_str().is_empty() {
        let mut message = namer.to_owned();
        message.append(" named node ");
        message.append(node_id.as_str());
        message.append(" with no address");
        return Err(PlacementError { message, cause: PlacementCause::Other });
    }
    match rewritten(endpoint.as_str(), replaced) {
        Ok(dialed) => Ok(NodeEndpoint { node_id, endpoint: dialed, advertised_endpoint: endpoint }),
        Err(e) => Err(PlacementError { message: e.message(), cause: PlacementCause::Other }),
    }
}

/// What a lookup of a node by its identity comes to, from the node that the registry answered with
/// and its address with the port replaced. The returned identity must match the requested node.
pub open spec fn resolution(
    node_id: Seq<char>,
    observed: ObservedNode,
    replaced: Option<Option<Seq<char>>>,
    r: Result<NodeEndpoint, PlacementError>,
) -> bool {
    if observed.node_id@.len() > 0 && observed.endpoint@.len() > 0 && observed.node_id@ != node_id
        && replaced matches Some(Some(_)) {
        r matches Err(e) && is_plain(
            e,
            "asked the node registry where node "@ + node_id + " is and it answered about node "@
                + observed.node_id@,
        )
    } else {
        endpoint_answer(
            "the node registry"@,
            observed.node_id@,
            observed.endpoint@,
            replaced,
            r,
        )
    }
}

/// Resolves a node from the registry's answer for it and that node's address with the port
/// replaced.
pub fn resolved_endpoint(
    node_id: &str,
    observed: ObservedNode,
    replaced: Option<Option<String>>,
) -> (r: Result<NodeEndpoint, PlacementError>)
    ensures
        resolution(node_id@, observed, port_result(replaced), r),
{
    match settled_endpoint("the node registry", observed.node_id, observed.endpoint, replaced) {
        Err(e) => Err(e),
        Ok(resolved) => if same_text(resolved.node_id.as_str(), node_id) {
            Ok(resolved)
        } else {
            let mut message = "asked the node registry where node ".to_owned();
            message.append(node_id);
            message.append(" is and it answered about node ");
            message.append(resolved.node_id.as_str());
            Err(PlacementError { message, cause: PlacementCause::Other })
        },
    }
}

fn named_endpoint(namer: &str, node_id: String, endpoint: String, port: u16) -> (r: Result<
    NodeEndpoint,
    PlacementError,
>)
    requires
        endpoint@.len() <= MAX_ADDRESS_CHARS,
    ensures
        endpoint_answer(
            namer@,
            node_id@,
            endpoint@,
            url_with_port(qualified_text(endpoint@), port),
            r,
        ),
{
    let replaced = put_port(endpoint.as_str(), port);
    settled_endpoint(namer, node_id, endpoint, replaced)
}

impl<R: NodeRegistry> NativeNodePlacement<R> {
    /// Placement through `local`, dialing node services on `node_service_port`.
    pub fn new(node_service_port: u16, local: NodeRegistryGrpcService<R>) -> (r: NativeNodePlacement<
        R,
    >)
        ensures
            r.node_service_port == node_service_port,
            r.local == local,
    {
        NativeNodePlacement { node_service_port, local }
    }

    /// Converts an observed registry node into its sandbox-service endpoint.
    pub fn node_service_endpoint(&self, observed: ObservedNode) -> (r: Result<
        NodeEndpoint,
        PlacementError,
    >)
        requires
            observed.endpoint@.len() <= MAX_ADDRESS_CHARS,
        ensures
            endpoint_answer(
                "the node registry"@,
                observed.node_id@,
                observed.endpoint@,
                url_with_port(qualified_text(observed.endpoint@), self.node_service_port),
                r,
            ),
    {
        named_endpoint(
            "the node registry",
            observed.node_id,
            observed.endpoint,
            self.node_service_port,
        )
    }

    /// Converts a scheduler wire node into its sandbox-service endpoint.
    pub fn node_service_endpoint_from_wire(&self, node: Option<WireNode>) -> (r: Result<
        NodeEndpoint,
        PlacementError,
    >)
        requires
            node matches Some(n) ==> n.endpoint@.len() <= MAX_ADDRESS_CHARS,
        ensures
            match node {
                Some(n) => endpoint_answer(
                    "the local scheduler"@,
                    n.node_id@,
                    n.endpoint@,
                    url_with_port(qualified_text(n.endpoint@), self.node_service_port),
                    r,
                ),
                None => r matches Err(e) && is_plain(e, "the local scheduler named no node"@),
            },
    {
        match node {
            Some(n) => self.node_service_endpoint_for(n.node_id, n.endpoint),
            None => Err(plain("the local scheduler named no node")),
        }
    }

    /// Converts a node the local surface named into its sandbox-service endpoint.
    pub fn node_service_endpoint_for(&self, node_id: String, endpoint: String) -> (r: Result<
        NodeEndpoint,
        PlacementError,
    >)
        requires
            endpoint@.len() <= MAX_ADDRESS_CHARS,
        ensures
            endpoint_answer(
                "the local scheduler"@,
                node_id@,
                endpoint@,
                url_with_port(qualified_text(endpoint@), self.node_service_port),
                r,
            ),
    {
        named_endpoint("the local scheduler", node_id, endpoint, self.node_service_port)
    }

    /// What the local scheduler is asked for a new sandbox. Presence is explicit even at zero so
    /// scoring sees known resources.
    pub fn place_request(
        resources: SandboxResources,
        preferred_node_id: Option<&str>,
        excluded_node_ids: Vec<String>,
        needs: PlacementNeeds,
    ) -> (r: ScheduleRequestHint)
        ensures
            r matches ScheduleRequestHint::NewSandbox(hint) && hint.cpu_count == Some(
                resources.cpu_count,
            ) && hint.memory_mib == Some(resources.memory_mib as u64) && hint.excluded_node_ids
                == excluded_node_ids && hint.requires_egress_broker == needs.egress_broker
                && hint.preferred_node_id@ == match preferred_node_id {
                Some(id) => id@,
                None => Seq::empty(),
            },
    {
        let preferred = match preferred_node_id {
            Some(id) => id.to_owned(),
            None => String::new(),
        };
        ScheduleRequestHint::NewSandbox(
            NewSandboxHint {
                cpu_count: Some(resources.cpu_count),
                memory_mib: Some(resources.memory_mib as u64),
                preferred_node_id: preferred,
                excluded_node_ids,
                requires_egress_broker: needs.egress_broker,
            },
        )
    }

    /// Places a new sandbox: the endpoint of the node that the local scheduler answered with.
    pub fn place_new_with(&self, response: Result<Option<WireNode>, Status>, needs: PlacementNeeds) -> (r:
        Result<NodeEndpoint, PlacementError>)
        requires
            response matches Ok(Some(n)) ==> n.endpoint@.len() <= MAX_ADDRESS_CHARS,
        ensures
            match response {
                Ok(Some(n)) => endpoint_answer(
                    "the local scheduler"@,
                    n.node_id@,
                    n.endpoint@,
                    url_with_port(qualified_text(n.endpoint@), self.node_service_port),
                    r,
                ),
                Ok(None) => r matches Err(e) && is_plain(e, "the local scheduler named no node"@),
                Err(status) => if status.code == Code::FailedPrecondition && needs.egress_broker {
                    r matches Err(e) && e.message@ == NO_EGRESS_BROKER@ && e.cause
                        == PlacementCause::Refused(PlacementRefused::NoEgressBrokerNode)
                } else {
                    r matches Err(e) && is_plain(
                        e,
                        "the local scheduler refused to place a sandbox: "@ + status_text(
                            code_number(status.code),
                            status.message@,
                        ),
                    )
                },
            },
    {
        match response {
            Ok(node) => self.node_service_endpoint_from_wire(node),
            Err(status) => {
                // The scheduler had nodes, none with the capability asked for.
                if status.code == Code::FailedPrecondition && needs.egress_broker {
                    let refused = PlacementRefused::NoEgressBrokerNode;
                    Err(
                        PlacementError {
                            message: refused.message().to_owned(),
                            cause: PlacementCause::Refused(refused),
                        },
                    )
                } else {
                    Err(
                        plain2(
                            "the local scheduler refused to place a sandbox: ",
                            status.text().as_str(),
                        ),
                    )
                }
            },
        }
    }

    /// Places a new sandbox without needs.
    pub fn place_new(&self, response: Result<Option<WireNode>, Status>) -> (r: Result<
        NodeEndpoint,
        PlacementError,
    >)
        requires
            response matches Ok(Some(n)) ==> n.endpoint@.len() <= MAX_ADDRESS_CHARS,
        ensures
            match response {
                Ok(Some(n)) => endpoint_answer(
                    "the local scheduler"@,
                    n.node_id@,
                    n.endpoint@,
                    url_with_port(qualified_text(n.endpoint@), self.node_service_port),
                    r,
                ),
                Ok(None) => r matches Err(e) && is_plain(e, "the local scheduler named no node"@),
                Err(status) => r matches Err(e) && is_plain(
                    e,
                    "the local scheduler refused to place a sandbox: "@ + status_text(
                        code_number(status.code),
                        status.message@,
                    ),
                ),
            },
    {
        self.place_new_with(response, PlacementNeeds::default())
    }

    /// Locates an existing sandbox; only `NotFound` becomes `Ok(None)`.
    pub fn place_existing(&self, sandbox_id: SandboxId, answer: Result<LookupAnswer, Status>) -> (r:
        Result<Option<NodeEndpoint>, PlacementError>)
        requires
            answer matches Ok(a) ==> a.node.endpoint@.len() <= MAX_ADDRESS_CHARS,
        ensures
            match answer {
                Ok(a) => match r {
                    Ok(Some(node)) => endpoint_answer(
                        "the local scheduler"@,
                        a.node.id@,
                        a.node.endpoint@,
                        url_with_port(qualified_text(a.node.endpoint@), self.node_service_port),
                        Ok(node),
                    ),
                    Ok(None) => false,
                    Err(e) => endpoint_answer(
                        "the local scheduler"@,
                        a.node.id@,
                        a.node.endpoint@,
                        url_with_port(qualified_text(a.node.endpoint@), self.node_service_port),
                        Err(e),
                    ),
                },
                Err(status) => if status.code == Code::NotFound {
                    r == Ok::<_, PlacementError>(None::<NodeEndpoint>)
                } else {
                    r matches Err(e) && e.message@ == "the local scheduler could not locate "@
                        + uuid_text(sandbox_id.number) && e.cause == PlacementCause::Status(status)
                },
            },
    {
        match answer {
            Ok(a) => match self.node_service_endpoint_for(a.node.id, a.node.endpoint) {
                Ok(node) => Ok(Some(node)),
                Err(e) => Err(e),
            },
            Err(status) => {
                if status.code == Code::NotFound {
                    return Ok(None);
                }
                let mut message = "the local scheduler could not locate ".to_owned();
                message.append(sandbox_id.text().as_str());
                Err(PlacementError { message, cause: PlacementCause::Status(status) })
            },
        }
    }

    /// Resolves a node from the heartbeat-observed registry view: `observed` is the registry's
    /// answer for `node_id`, and `nodes` what the warm-up gate reads. The returned identity must
    /// match the requested node.
    pub fn resolve_node(
        &mut self,
        node_id: &str,
        observed: Option<ObservedNode>,
        nodes: &Vec<NodeReading>,
        now: Timestamp,
    ) -> (r: Result<NodeEndpoint, PlacementError>)
        requires
            observed matches Some(o) ==> o.endpoint@.len() <= MAX_ADDRESS_CHARS,
        ensures
            match observed {
                None => {
                    &&& final(self).local.warmup@ == old(self).local.warmup@.asked(nodes@, now@)
                    &&& r matches Err(e) && is_plain(
                        e,
                        if old(self).local.warmup@.open(nodes@, now@) {
                            "the node registry has no observed record for node "@ + node_id@
                        } else {
                            COLD_HEAD@ + node_id@ + " has an observed record"@
                        },
                    )
                },
                Some(o) => {
                    &&& final(self).local.warmup@ == old(self).local.warmup@
                    &&& resolution(
                        node_id@,
                        o,
                        url_with_port(qualified_text(o.endpoint@), old(self).node_service_port),
                        r,
                    )
                },
            },
            final(self).node_service_port == old(self).node_service_port,
            final(self).local == (NodeRegistryGrpcService {
                warmup: final(self).local.warmup,
                ..old(self).local
            }),
    {
        match observed {
            None => {
                if self.local.warmup.warmed_up(nodes, now) {
                    Err(plain2("the node registry has no observed record for node ", node_id))
                } else {
                    Err(plain3(COLD_HEAD, node_id, " has an observed record"))
                }
            },
            Some(o) => {
                let replaced = put_port(o.endpoint.as_str(), self.node_service_port);
                resolved_endpoint(node_id, o, replaced)
            },
        }
    }

    /// Reports membership from the observed view, withholding `Gone` while cold.
    pub fn node_membership(
        &mut self,
        node_id: &str,
        observed: bool,
        nodes: &Vec<NodeReading>,
        now: Timestamp,
    ) -> (r: Result<NodeMembership, PlacementError>)
        ensures
            if observed {
                r == Ok::<_, PlacementError>(NodeMembership::Present)
                    && final(self).local.warmup@ == old(self).local.warmup@
            } else {
                &&& final(self).local.warmup@ == old(self).local.warmup@.asked(nodes@, now@)
                &&& if old(self).local.warmup@.open(nodes@, now@) {
                    r == Ok::<_, PlacementError>(NodeMembership::Gone)
                } else {
                    r matches Err(e) && is_plain(
                        e,
                        COLD_HEAD@ + node_id@ + " is still part of the cluster"@,
                    )
                }
            },
            final(self).node_service_port == old(self).node_service_port,
            final(self).local == (NodeRegistryGrpcService {
                warmup: final(self).local.warmup,
                ..old(self).local
            }),
    {
        if observed {
            Ok(NodeMembership::Present)
        } else if self.local.warmup.warmed_up(nodes, now) {
            Ok(NodeMembership::Gone)
        } else {
            Err(plain3(COLD_HEAD, node_id, " is still part of the cluster"))
        }
    }

    /// The binding of a completed placement, through the local assignment surface: discovery's
    /// address of the node, not the caller's.
    pub fn record_placement(
        &self,
        sandbox_id: SandboxId,
        execution: &str,
        node: &NodeEndpoint,
        projection_ttl_secs: u32,
    ) -> (r: Result<BindingWrite, PlacementError>)
        ensures
            ({
                let id = uuid_text(sandbox_id.number);
                match r {
                    Ok(w) => self.local.projection_refusal(id, node.node_id@) is None
                        && self.local.is_projection(
                        w,
                        id,
                        node.node_id@,
                        execution@,
                        projection_ttl_secs,
                    ),
                    Err(e) => self.local.projection_refusal(id, node.node_id@) matches Some(
                        (code, message),
                    ) && is_about_sandbox(e, ASSIGNMENT_REFUSED@, sandbox_id, code, message),
                }
            }),
    {
        let id = sandbox_id.text();
        match self.local.record_assignment(
            id.as_str(),
            node.node_id.as_str(),
            execution,
            projection_ttl_secs,
        ) {
            Ok(w) => Ok(w),
            Err(status) => Err(about_sandbox(ASSIGNMENT_REFUSED, sandbox_id, &status)),
        }
    }

    /// The reservation of a placement, through the local assignment surface, in process.
    pub fn reserve_placement(&self, sandbox_id: SandboxId, execution: &str, node: &NodeEndpoint) -> (r:
        Result<BindingWrite, PlacementError>)
        ensures
            ({
                let id = uuid_text(sandbox_id.number);
                match r {
                    Ok(w) => {
                        &&& self.local.reservation_refusal(id, node.node_id@) is None
                        &&& w.sandbox_id@ == id
                        &&& Some(w.binding.node) == self.local.registry.resolves(
                            trimmed(node.node_id@),
                        )
                        &&& w.binding.execution_id@ == execution@
                        &&& w.binding.projection_ttl@ == PLACEMENT_RESERVATION_TTL_SECS as int
                            * NANOS_PER_SEC
                        &&& w.binding.projection_ttl@ == 300_000_000_000
                        &&& w.binding.state == BindingState::Starting
                    },
                    Err(e) => self.local.reservation_refusal(id, node.node_id@) matches Some(
                        (code, message),
                    ) && is_about_sandbox(e, RESERVATION_REFUSED@, sandbox_id, code, message),
                }
            }),
    {
        let id = sandbox_id.text();
        match self.local.reserve_assignment(
            id.as_str(),
            node.node_id.as_str(),
            execution,
            Span::from_secs(PLACEMENT_RESERVATION_TTL_SECS),
        ) {
            Ok(w) => Ok(w),
            Err(status) => Err(about_sandbox(RESERVATION_REFUSED, sandbox_id, &status)),
        }
    }

    /// Ends a reservation, from what the binding store decided. A launch that meets one in flight
    /// waits for it instead of starting a second one.
    pub fn reservation_settled(
        sandbox_id: SandboxId,
        node: &NodeEndpoint,
        decision: Result<BindingVerdict, Status>,
    ) -> (r: Result<(), PlacementError>)
        ensures
            match decision {
                Ok(BindingVerdict::Accepted) => r is Ok,
                Ok(BindingVerdict::RejectedInflight) => r matches Err(e) && e.message@
                    == RESERVATION_REFUSED@ + uuid_text(sandbox_id.number) + " on node "@
                    + node.node_id@ + ": a launch of it is still in flight"@ && e.cause == (
                PlacementCause::LaunchHeldElsewhere { sandbox_id }),
                Ok(BindingVerdict::Rejected { label }) => r matches Err(e) && is_plain(
                    e,
                    RESERVATION_REFUSED@ + uuid_text(sandbox_id.number) + " on node "@
                        + node.node_id@ + ": another incarnation ("@ + label@
                        + ") already holds it"@,
                ),
                Err(status) => r matches Err(e) && is_about_sandbox(
                    e,
                    RESERVATION_REFUSED@,
                    sandbox_id,
                    status.code,
                    status.message@,
                ),
            },
    {
        match decision {
            Ok(BindingVerdict::Accepted) => Ok(()),
            Ok(BindingVerdict::RejectedInflight) => {
                let mut message = RESERVATION_REFUSED.to_owned();
                message.append(sandbox_id.text().as_str());
                message.append(" on node ");
                message.append(node.node_id.as_str());
                message.append(": a launch of it is still in flight");
                Err(
                    PlacementError {
                        message,
                        cause: PlacementCause::LaunchHeldElsewhere { sandbox_id },
                    },
                )
            },
            Ok(BindingVerdict::Rejected { label }) => {
                let mut message = RESERVATION_REFUSED.to_owned();
                message.append(sandbox_id.text().as_str());
                message.append(" on node ");
                message.append(node.node_id.as_str());
                message.append(": another incarnation (");
                message.append(label.as_str());
                message.append(") already holds it");
                Err(PlacementError { message, cause: PlacementCause::Other })
            },
            Err(status) => Err(about_sandbox(RESERVATION_REFUSED, sandbox_id, &status)),
        }
    }

    /// The withdrawal of a reservation, through the local assignment surface.
    pub fn release_placement_reservation(&self, sandbox_id: SandboxId, execution: &str) -> (r: Result<
        BindingDelete,
        PlacementError,
    >)
        ensures
            ({
                let id = uuid_text(sandbox_id.number);
                match r {
                    Ok(d) => self.local.release_refusal(id) is None && d.sandbox_id@ == id
                        && d.execution_id@ == execution@,
                    Err(e) => self.local.release_refusal(id) matches Some((code, message))
                        && is_about_sandbox(e, RELEASE_FAILED@, sandbox_id, code, message),
                }
            }),
    {
        let id = sandbox_id.text();
        match self.local.release_assignment_reservation(id.as_str(), execution) {
            Ok(d) => Ok(d),
            Err(status) => Err(about_sandbox(RELEASE_FAILED, sandbox_id, &status)),
        }
    }

    /// The retirement of a routing record, through the local assignment surface.
    pub fn forget_placement(&self, sandbox_id: SandboxId, execution: &str) -> (r: Result<
        BindingDelete,
        PlacementError,
    >)
        ensures
            ({
                let id = uuid_text(sandbox_id.number);
                match r {
                    Ok(d) => self.local.retirement_refusal(id, execution@) is None && d.sandbox_id@
                        == id && d.execution_id@ == execution@,
                    Err(e) => self.local.retirement_refusal(id, execution@) matches Some(
                        (code, message),
                    ) && is_about_sandbox(e, RETIRE_FAILED@, sandbox_id, code, message),
                }
            }),
    {
        let id = sandbox_id.text();
        match self.local.forget_assignment(id.as_str(), execution) {
            Ok(d) => Ok(d),
            Err(status) => Err(about_sandbox(RETIRE_FAILED, sandbox_id, &status)),
        }
    }
}

// ---- laws --------------------------------------------------------------------

/// An address that names a scheme stays as it is, one that names none gets HTTP in front, and no
/// address gets a second scheme.
pub proof fn addresses_get_one_scheme(endpoint: Seq<char>)
    ensures
        occurs_in("://"@, endpoint) ==> qualified_text(endpoint) == endpoint,
        !occurs_in("://"@, endpoint) ==> qualified_text(endpoint) == "http://"@ + endpoint,
        qualified_text(qualified_text(endpoint)) == qualified_text(endpoint),
{
    reveal_strlit("://");
    reveal_strlit("http://");
    let with = "http://"@ + endpoint;
    assert(with.subrange(4, 7) =~= "://"@);
    assert(occurs_at("://"@, with, 4));
}

/// A port is put on an address exactly where the address is a URL that can have one; the failure
/// names the address as it was given, and tells an address that is no URL from one without a host.
pub proof fn ports_go_on_urls_with_a_host(
    endpoint: Seq<char>,
    replaced: Option<Option<Seq<char>>>,
    r: Result<String, RewritePortError>,
)
    requires
        rewrites(endpoint, replaced, r),
    ensures
        r is Ok <==> replaced is Some && replaced->0 is Some,
        r matches Ok(out) ==> replaced == Some(Some(out@)),
        (r matches Err(e) ==> replaced is None ==> (e matches RewritePortError::NotAUri {
            endpoint: named,
        } && named@ == endpoint)),
        (r matches Err(e) ==> replaced is Some ==> (e matches RewritePortError::NoHost {
            endpoint: named,
        } && named@ == endpoint)),
{
}

/// What the texts that optional strings hold are.
pub proof fn optional_texts_are_their_strings(text: String)
    ensures
        port_result(None) is None,
        port_result(Some(None)) == Some(None::<Seq<char>>),
        port_result(Some(Some(text))) == Some(Some(text@)),
{
}

/// What a failure to put a port on an address says: the address in quotes, and what it lacks.
pub proof fn port_failures_quote_the_address(endpoint: Seq<char>)
    ensures
        port_failure(endpoint, true) == "node address "@ + quoted_text(endpoint)
            + " has no host to put a port on"@,
        port_failure(endpoint, false) == "node address "@ + quoted_text(endpoint)
            + " is not a valid URI"@,
{
}

/// A named node has an endpoint exactly where it has an identity and an address on which a port can
/// be put: it is dialed there and keeps its own address as the advertised one. Where it has none,
/// the error says who named it and what is missing, the identity first, and a caller distinguishes
/// nothing behind it.
pub proof fn named_nodes_are_dialed_on_their_address(
    namer: Seq<char>,
    node_id: Seq<char>,
    endpoint: Seq<char>,
    replaced: Option<Option<Seq<char>>>,
    r: Result<NodeEndpoint, PlacementError>,
)
    requires
        endpoint_answer(namer, node_id, endpoint, replaced, r),
    ensures
        r is Ok <==> node_id.len() > 0 && endpoint.len() > 0 && replaced is Some
            && replaced->0 is Some,
        r matches Ok(node) ==> node.node_id@ == node_id && node.advertised_endpoint@ == endpoint
            && replaced == Some(Some(node.endpoint@)),
        r matches Err(e) ==> e.cause is Other,
        (r matches Err(e) ==> node_id.len() == 0 ==> e.message@ == namer
            + " named a node with no id"@),
        (r matches Err(e) ==> node_id.len() > 0 && endpoint.len() == 0 ==> e.message@ == namer
            + " named node "@ + node_id + " with no address"@),
        (r matches Err(e) ==> node_id.len() > 0 && endpoint.len() > 0 && replaced is Some
            ==> e.message@ == "node address "@ + quoted_text(endpoint)
            + " has no host to put a port on"@),
        (r matches Err(e) ==> node_id.len() > 0 && endpoint.len() > 0 && replaced is None
            ==> e.message@ == "node address "@ + quoted_text(endpoint) + " is not a valid URI"@),
{
}

/// A node is resolved to the endpoint of that very node or not at all: an answer about another node
/// is an error that names both, and a node that has no endpoint is an error whatever it is called.
pub proof fn resolved_nodes_are_the_ones_asked_for(
    node_id: Seq<char>,
    observed: ObservedNode,
    replaced: Option<Option<Seq<char>>>,
    r: Result<NodeEndpoint, PlacementError>,
)
    requires
        resolution(node_id, observed, replaced, r),
    ensures
        r matches Ok(node) ==> node.node_id@ == node_id && observed.node_id@ == node_id
            && node.advertised_endpoint@ == observed.endpoint@ && replaced == Some(
            Some(node.endpoint@),
        ),
        r is Ok <==> node_id.len() > 0 && observed.node_id@ == node_id && observed.endpoint@.len()
            > 0 && replaced is Some && replaced->0 is Some,
        (r matches Err(e) ==> observed.node_id@.len() > 0 && observed.endpoint@.len() > 0
            && replaced is Some && replaced->0 is Some ==> e.message@
            == "asked the node registry where node "@ + node_id
            + " is and it answered about node "@ + observed.node_id@),
        (r matches Err(e) ==> observed.node_id@.len() == 0 ==> e.message@ == "the node registry"@
            + " named a node with no id"@),
        (r matches Err(e) ==> observed.node_id@.len() > 0 && observed.endpoint@.len() == 0
            ==> e.message@ == "the node registry"@ + " named node "@ + observed.node_id@
            + " with no address"@),
        r matches Err(e) ==> e.cause is Other,
{
}

/// An error about a sandbox begins with what was refused, names the sandbox by its identity and
/// ends with what the status displays; a caller distinguishes nothing behind it.
pub proof fn refusals_name_the_sandbox(
    e: PlacementError,
    head: Seq<char>,
    sandbox_id: SandboxId,
    code: Code,
    message: Seq<char>,
)
    ensures
        is_plain(e, message) <==> e.message@ == message && e.cause is Other,
        is_about_sandbox(e, head, sandbox_id, code, message) <==> e.cause is Other && e.message@
            == head + uuid_text(sandbox_id.number) + ": "@ + status_text(
            code_number(code),
            message,
        ),
        ASSIGNMENT_REFUSED@ == "the local scheduler refused an assignment for "@,
        RESERVATION_REFUSED@ == "the local scheduler refused to reserve "@,
        RELEASE_FAILED@ == "the local scheduler could not release the reservation for "@,
        RETIRE_FAILED@ == "the local scheduler could not retire the routing record for "@,
        COLD_HEAD@
            == "the node registry has not finished warming up (not every node discovery already knows about has heartbeated yet) and cannot yet say whether node "@,
        NO_EGRESS_BROKER@
            == "no node reports a usable egress broker; sandboxes with network rules cannot be placed"@,
{
}

} // verus!
