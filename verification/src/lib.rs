//! A bridging layer for peer-to-peer gossip, blob transfer and document
//! sync: it validates subscriptions, pumps native event streams into
//! foreign callbacks one event at a time, makes the lifecycle of each
//! subscription independently cancellable, and dispatches inbound
//! connections to protocol handlers by tag.

pub mod bridge;
pub mod error;
pub mod gossip;
pub mod key;
pub mod log;
pub mod node;
pub mod router;
pub mod tag;
pub mod ticket;
pub mod token;

pub use log::LogLevel;
pub use tag::TagInfo;
pub use ticket::AddrInfoOptions;
pub use ticket::BlobDownloadOptions;
pub use ticket::BlobFormat;
pub use ticket::BlobTicket;
pub use ticket::NodeAddr;
pub use ticket::SetTagOption;
pub use ticket::blob_ticket_of;

pub use key::key_to_path;
pub use key::lemma_path_key_round_trip;
pub use key::path_to_key;
pub use key::spec_join_root;
pub use key::spec_key_to_path_chars;
pub use key::spec_opt_str;
pub use key::spec_path_to_key_chars;
pub use key::spec_starts_with;
pub use key::spec_strip_key_terminator;
pub use key::spec_strip_prefix;
pub use key::spec_strip_root;
pub use key::spec_trim_leading_slashes;
pub use key::spec_trim_trailing_slashes;

pub use node::ConnType;
pub use node::ConnectionType;
pub use node::ConnectionTypeMixed;
pub use node::CounterStats;
pub use node::DirectAddrInfo;
pub use node::DiscoveryMode;
pub use node::LatencyAndControlMsg;
pub use node::NodeDiscoveryConfig;
pub use node::NodeOptions;
pub use node::NodePlan;
pub use node::ProtocolCreator;
pub use node::ProtocolHandler;
pub use node::apply_options;
pub use node::spec_conn_type;
pub use node::spec_discovery;
pub use node::spec_gc_period;

pub use router::ConnState;
pub use router::Router;
pub use router::lemma_shutdown_idempotent;
pub use router::spec_conn_finish;
pub use router::spec_conn_handler;
pub use router::spec_shutdown;

pub use bridge::BridgeAction;
pub use bridge::BridgePoll;
pub use bridge::EventBridge;
pub use bridge::GossipEvent;
pub use bridge::lemma_callback_failure_isolated;
pub use bridge::lemma_cancelled_stops_delivery;
pub use bridge::lemma_in_order_delivery;
pub use bridge::lemma_stopped_no_delivery;
pub use bridge::spec_event_message;
pub use bridge::spec_note;
pub use bridge::spec_poll_message;
pub use bridge::spec_poll_stops;
pub use bridge::spec_run;
pub use bridge::spec_run_state;
pub use bridge::spec_step;

pub use error::CallbackError;
pub use error::IrohError;
pub use gossip::GossipMessageCallback;
pub use gossip::Message;
pub use gossip::MessageContent;
pub use gossip::MessageType;
pub use gossip::SendCommand;
pub use gossip::SendScope;
pub use gossip::Sender;
pub use gossip::SubscribeRequest;
pub use gossip::peer_id_of;
pub use gossip::prepare_subscribe;
pub use gossip::spec_message_type;
pub use token::CancelToken;
