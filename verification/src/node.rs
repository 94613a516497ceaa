use vstd::prelude::*;

use crate::error::CallbackError;
use crate::error::IrohError;

verus! {

/// Stats counter.
#[derive(Clone, PartialEq, Eq, Debug)]
pub struct CounterStats {
    /// The counter value.
    pub value: u32,
    /// The counter description.
    pub description: String,
}

/// The latency and type of a control message, as reported for one
/// direct address.
#[derive(Clone, PartialEq, Eq, Debug)]
pub struct LatencyAndControlMsg {
    /// The latency of the control message, in milliseconds.
    pub latency_millis: u64,
    /// The type of control message, represented as a string.
    pub control_msg: String,
}

/// Information about one direct address of a remote node, as plain
/// values.
#[derive(Clone, PartialEq, Eq, Debug)]
pub struct DirectAddrInfo {
    /// The reported address, as text.
    pub addr: String,
    /// The reported latency in milliseconds, if any.
    pub latency_millis: Option<u64>,
    /// The latency and kind of the last control message, if any.
    pub last_control: Option<(u64, String)>,
    /// How long ago the last payload message arrived, in
    /// milliseconds.
    pub last_payload_millis: Option<u64>,
}

impl DirectAddrInfo {
    /// Record the information reported for one address: the address
    /// itself, the measured latency, the latency and kind of the last
    /// control message, and how long ago the last payload arrived,
    /// all durations in milliseconds.
    pub fn new(
        addr: String,
        latency_millis: Option<u64>,
        last_control: Option<(u64, String)>,
        last_payload_millis: Option<u64>,
    ) -> (r: DirectAddrInfo)
        ensures
            r == (DirectAddrInfo { addr, latency_millis, last_control, last_payload_millis }),
    {
        DirectAddrInfo { addr, latency_millis, last_control, last_payload_millis }
    }

    /// Get the reported address.
    pub fn addr(&self) -> (r: String)
        ensures
            r == self.addr,
    {
        self.addr.clone()
    }

    /// Get the reported latency in milliseconds, if it exists.
    pub fn latency(&self) -> (r: Option<u64>)
        ensures
            r == self.latency_millis,
    {
        match &self.latency_millis {
            Some(ms) => Some(*ms),
            None => None,
        }
    }

    /// Get the last control message received from this node, paired
    /// with its latency.
    pub fn last_control(&self) -> (r: Option<LatencyAndControlMsg>)
        ensures
            self.last_control matches Some(pair) ==> r matches Some(m) && m.latency_millis
                == pair.0 && m.control_msg == pair.1,
            self.last_control is None ==> r is None,
    {
        match &self.last_control {
            Some(pair) => Some(
                LatencyAndControlMsg { latency_millis: pair.0, control_msg: pair.1.clone() },
            ),
            None => None,
        }
    }

    /// Get how long ago the last payload message arrived, in
    /// milliseconds.
    pub fn last_payload(&self) -> (r: Option<u64>)
        ensures
            r == self.last_payload_millis,
    {
        match &self.last_payload_millis {
            Some(ms) => Some(*ms),
            None => None,
        }
    }
}

/// The variant tag of a [`ConnectionType`].
#[derive(Clone, Copy, PartialEq, Eq, Structural, Debug)]
pub enum ConnType {
    /// Indicates you have a UDP connection.
    Direct,
    /// Indicates you have a relayed connection.
    Relay,
    /// Indicates you have an unverified UDP connection, and a relay
    /// connection for backup.
    Mixed,
    /// Indicates you have no proof of connection.
    NotConnected,
}

/// The type of connection we have to a node.
#[derive(Clone, PartialEq, Eq, Debug)]
pub enum ConnectionType {
    /// Direct UDP connection, by its socket address.
    Direct(String),
    /// Relay connection, by the relay's url.
    Relay(String),
    /// Both a UDP and a relay connection are used.
    ///
    /// This is the case if we do have a UDP address, but are missing a
    /// recent confirmation that the address works.
    Mixed(String, String),
    /// We have no verified connection to this node.
    NotConnected,
}

/// The socket address and url of a mixed connection.
#[derive(Clone, PartialEq, Eq, Debug)]
pub struct ConnectionTypeMixed {
    /// Address of the node.
    pub addr: String,
    /// Url of the relay node to which the node is connected.
    pub relay_url: String,
}

/// The variant tag of a connection type, as a spec-level value.
pub open spec fn spec_conn_type(c: ConnectionType) -> ConnType {
    match c {
        ConnectionType::Direct(_) => ConnType::Direct,
        ConnectionType::Relay(_) => ConnType::Relay,
        ConnectionType::Mixed(_, _) => ConnType::Mixed,
        ConnectionType::NotConnected => ConnType::NotConnected,
    }
}

impl ConnectionType {
    /// Whether the connection is direct, relay, mixed, or absent.
    pub fn kind(&self) -> (t: ConnType)
        ensures
            t == spec_conn_type(*self),
    {
        match self {
            ConnectionType::Direct(_) => ConnType::Direct,
            ConnectionType::Relay(_) => ConnType::Relay,
            ConnectionType::Mixed(_, _) => ConnType::Mixed,
            ConnectionType::NotConnected => ConnType::NotConnected,
        }
    }

    /// The socket address of a direct connection. Only the `Direct`
    /// variant has one, so any other variant is ruled out up front.
    pub fn as_direct(&self) -> (s: String)
        requires
            self is Direct,
        ensures
            *self == ConnectionType::Direct(s),
    {
        match self {
            ConnectionType::Direct(addr) => addr.clone(),
            _ => unreached(),
        }
    }

    /// The relay url of a relay connection. Only the `Relay` variant
    /// has one.
    pub fn as_relay(&self) -> (s: String)
        requires
            self is Relay,
        ensures
            *self == ConnectionType::Relay(s),
    {
        match self {
            ConnectionType::Relay(url) => url.clone(),
            _ => unreached(),
        }
    }

    /// The socket address and relay url of a mixed connection. Only
    /// the `Mixed` variant has them.
    pub fn as_mixed(&self) -> (m: ConnectionTypeMixed)
        requires
            self is Mixed,
        ensures
            *self == ConnectionType::Mixed(m.addr, m.relay_url),
    {
        match self {
            ConnectionType::Mixed(addr, url) => ConnectionTypeMixed {
                addr: addr.clone(),
                relay_url: url.clone(),
            },
            _ => unreached(),
        }
    }
}

/// How the node discovers peers.
#[derive(Clone, Copy, PartialEq, Eq, Structural, Debug)]
pub enum NodeDiscoveryConfig {
    /// Use no global discovery mechanism; only addresses supplied out
    /// of band are used.
    Disabled,
    /// Use the default discovery mechanism: a DNS-published record
    /// plus announcements on the local network.
    Default,
}

/// Options controlling the behaviour of a node.
#[derive(Clone, PartialEq, Eq, Debug)]
pub struct NodeOptions {
    /// How frequently the blob store should clean up unreferenced
    /// blobs, in milliseconds. Set to 0 to disable gc. Carried through
    /// to the store configuration; currently it drives no behaviour.
    pub gc_interval_millis: Option<u64>,
    /// Should docs be enabled? Defaults to `false`.
    pub enable_docs: bool,
    /// Overwrites the default IPv4 address to bind to.
    pub ipv4_addr: Option<String>,
    /// Overwrites the default IPv6 address to bind to.
    pub ipv6_addr: Option<String>,
    /// Configure the node discovery. Defaults to the default set of
    /// mechanisms.
    pub node_discovery: Option<NodeDiscoveryConfig>,
    /// Provide a specific secret key, identifying this node. Must be
    /// 32 bytes long.
    pub secret_key: Option<Vec<u8>>,
    /// The tags of caller-supplied protocols to register beside the
    /// built-in ones; the handlers themselves live with the runtime
    /// shell.
    pub protocols: Option<Vec<Vec<u8>>>,
}

impl Default for NodeOptions {
    /// The default options: gc disabled, docs disabled, default
    /// discovery, nothing overridden.
    fn default() -> (r: NodeOptions)
        ensures
            r.gc_interval_millis == Some(0u64),
            !r.enable_docs,
            r.ipv4_addr is None,
            r.ipv6_addr is None,
            r.node_discovery is None,
            r.secret_key is None,
            r.protocols is None,
    {
        NodeOptions {
            gc_interval_millis: Some(0),
            enable_docs: false,
            ipv4_addr: None,
            ipv6_addr: None,
            node_discovery: None,
            secret_key: None,
            protocols: None,
        }
    }
}

/// Creates the handler for one caller-supplied protocol, given the
/// node's endpoint. Implemented by the code embedding this library.
pub trait ProtocolCreator {
    /// The handler this creator builds.
    type Handler: ProtocolHandler;

    /// Build the handler that will accept this protocol's
    /// connections.
    fn create(&mut self) -> Self::Handler;
}

/// Drives one protocol's exchange on each accepted connection.
/// Implemented by the code embedding this library; a failure reported
/// here is terminal for that connection only.
pub trait ProtocolHandler {
    /// Handle one accepted connection, identified by the id the
    /// router assigned to it.
    fn accept(&mut self, conn: usize) -> Result<(), CallbackError>;

    /// Release this handler's resources; called once during router
    /// shutdown.
    fn shutdown(&mut self);
}

/// How the runtime shell should wire peer discovery.
#[derive(Clone, Copy, PartialEq, Eq, Structural, Debug)]
pub enum DiscoveryMode {
    /// Only the static, out-of-band address book.
    StaticOnly,
    /// The default mechanisms plus the static address book.
    DefaultAndStatic,
}

/// Everything the runtime shell needs to build a node, computed and
/// validated before any resource is created: if this plan is an
/// error, nothing was allocated and no partially live service exists.
#[derive(Clone, PartialEq, Eq, Debug)]
pub struct NodePlan {
    /// The effective gc period in milliseconds; `None` disables gc.
    /// Currently carried through without driving any behaviour.
    pub gc_period_millis: Option<u64>,
    /// How to wire discovery.
    pub discovery: DiscoveryMode,
    /// The validated secret key, when one was supplied.
    pub secret_key: Option<Vec<u8>>,
    /// Whether the docs service is built and registered.
    pub enable_docs: bool,
    /// The IPv4 bind address to use, still as text; the shell parses
    /// it at the transport edge.
    pub ipv4_addr: Option<String>,
    /// The IPv6 bind address to use, still as text.
    pub ipv6_addr: Option<String>,
    /// The tags of the caller-supplied protocols, in the given order.
    pub custom_tags: Vec<Vec<u8>>,
}

/// The effective gc period for a configured interval: 0 and "not set"
/// both disable gc.
pub open spec fn spec_gc_period(interval: Option<u64>) -> Option<u64> {
    match interval {
        Option::None => Option::None,
        Option::Some(ms) => if ms == 0 {
            Option::None
        } else {
            Option::Some(ms)
        },
    }
}

/// The discovery wiring for a configured choice: only an explicit
/// `None` turns the default mechanisms off; the static address book
/// is always kept.
pub open spec fn spec_discovery(config: Option<NodeDiscoveryConfig>) -> DiscoveryMode {
    match config {
        Option::Some(NodeDiscoveryConfig::Disabled) => DiscoveryMode::StaticOnly,
        Option::Some(NodeDiscoveryConfig::Default) => DiscoveryMode::DefaultAndStatic,
        Option::None => DiscoveryMode::DefaultAndStatic,
    }
}

/// Turn the caller's options into a build plan, validating everything
/// that can be checked up front. A supplied secret key must be exactly
/// 32 bytes; anything else is rejected here, before any sub-service is
/// initialized.
pub fn apply_options(options: NodeOptions) -> (r: Result<NodePlan, IrohError>)
    ensures
        r is Ok <==> (options.secret_key matches Some(k) ==> k@.len() == 32),
        r is Err ==> r == Err::<NodePlan, IrohError>(IrohError::InvalidSecretKey),
        r matches Ok(p) ==> {
            &&& p.gc_period_millis == spec_gc_period(options.gc_interval_millis)
            &&& p.discovery == spec_discovery(options.node_discovery)
            &&& p.secret_key == options.secret_key
            &&& p.enable_docs == options.enable_docs
            &&& p.ipv4_addr == options.ipv4_addr
            &&& p.ipv6_addr == options.ipv6_addr
            &&& p.custom_tags@ == (match options.protocols {
                Option::Some(tags) => tags@,
                Option::None => Seq::<Vec<u8>>::empty(),
            })
        },
{
    if let Some(key) = &options.secret_key {
        if key.len() != 32 {
            return Err(IrohError::InvalidSecretKey);
        }
    }
    let gc_period_millis = match options.gc_interval_millis {
        Some(0) => None,
        Some(ms) => Some(ms),
        None => None,
    };
    let discovery = match options.node_discovery {
        Some(NodeDiscoveryConfig::Disabled) => DiscoveryMode::StaticOnly,
        Some(NodeDiscoveryConfig::Default) => DiscoveryMode::DefaultAndStatic,
        None => DiscoveryMode::DefaultAndStatic,
    };
    let custom_tags = match options.protocols {
        Some(tags) => tags,
        None => Vec::new(),
    };
    Ok(
        NodePlan {
            gc_period_millis,
            discovery,
            secret_key: options.secret_key,
            enable_docs: options.enable_docs,
            ipv4_addr: options.ipv4_addr,
            ipv6_addr: options.ipv6_addr,
            custom_tags,
        },
    )
}

} // verus!
