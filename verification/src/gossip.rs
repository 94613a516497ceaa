use std::str::FromStr;

use vstd::prelude::*;

use crate::error::CallbackError;
use crate::error::IrohError;
use crate::token::CancelToken;

verus! {

/// A gossip message, as handed to a subscription's callback.
#[derive(Clone, PartialEq, Eq, Debug)]
pub enum Message {
    /// We have a new, direct neighbor in the swarm membership layer for
    /// this topic. Carries the neighbor's endpoint identifier as text.
    NeighborUp(String),
    /// We dropped a direct neighbor in the swarm membership layer for
    /// this topic.
    NeighborDown(String),
    /// A gossip message was received for this topic.
    Received {
        /// The content of the message.
        content: Vec<u8>,
        /// The node that delivered the message. This is not the same as
        /// the original author.
        delivered_from: String,
    },
    /// We missed some messages.
    Lagged,
    /// There was a gossip error.
    Error(String),
}

/// The variant tag of a [`Message`].
#[derive(Clone, Copy, PartialEq, Eq, Structural, Debug)]
pub enum MessageType {
    NeighborUp,
    NeighborDown,
    Received,
    Lagged,
    Error,
}

/// The actual content of a gossip message.
#[derive(Clone, PartialEq, Eq, Debug)]
pub struct MessageContent {
    /// The content of the message.
    pub content: Vec<u8>,
    /// The node that delivered the message. This is not the same as the
    /// original author.
    pub delivered_from: String,
}

/// The variant tag of a message, as a spec-level value.
pub open spec fn spec_message_type(m: Message) -> MessageType {
    match m {
        Message::NeighborUp(_) => MessageType::NeighborUp,
        Message::NeighborDown(_) => MessageType::NeighborDown,
        Message::Received { .. } => MessageType::Received,
        Message::Lagged => MessageType::Lagged,
        Message::Error(_) => MessageType::Error,
    }
}

impl Message {
    /// Which variant this message is.
    pub fn kind(&self) -> (t: MessageType)
        ensures
            t == spec_message_type(*self),
    {
        match self {
            Message::NeighborUp(_) => MessageType::NeighborUp,
            Message::NeighborDown(_) => MessageType::NeighborDown,
            Message::Received { .. } => MessageType::Received,
            Message::Lagged => MessageType::Lagged,
            Message::Error(_) => MessageType::Error,
        }
    }

    /// The endpoint identifier of the new neighbor. Only a `NeighborUp`
    /// message has one, so any other variant is ruled out up front.
    pub fn as_neighbor_up(&self) -> (s: String)
        requires
            self is NeighborUp,
        ensures
            *self == Message::NeighborUp(s),
    {
        match self {
            Message::NeighborUp(s) => s.clone(),
            _ => unreached(),
        }
    }

    /// The endpoint identifier of the dropped neighbor. Only a
    /// `NeighborDown` message has one.
    pub fn as_neighbor_down(&self) -> (s: String)
        requires
            self is NeighborDown,
        ensures
            *self == Message::NeighborDown(s),
    {
        match self {
            Message::NeighborDown(s) => s.clone(),
            _ => unreached(),
        }
    }

    /// The content of a received message. Only a `Received` message has
    /// one.
    pub fn as_received(&self) -> (c: MessageContent)
        requires
            self is Received,
        ensures
            *self matches Message::Received { content, delivered_from }
                && c.content@ == content@
                && c.delivered_from == delivered_from,
    {
        match self {
            Message::Received { content, delivered_from } => {
                let cloned_content = content.clone();
                proof {
                    assert(cloned_content@ =~= content@);
                }
                MessageContent {
                    content: cloned_content,
                    delivered_from: delivered_from.clone(),
                }
            },
            _ => unreached(),
        }
    }

    /// The text of a gossip error. Only an `Error` message has one.
    pub fn as_error(&self) -> (s: String)
        requires
            self is Error,
        ensures
            *self == Message::Error(s),
    {
        match self {
            Message::Error(s) => s.clone(),
            _ => unreached(),
        }
    }
}

/// The consumer of a subscription's messages: a foreign callback
/// invoked once per delivered message, at a single well-defined point
/// of the bridge loop. Implemented by the code embedding this
/// library. A failure it reports is observed and logged, and never
/// stops the subscription's remaining deliveries.
pub trait GossipMessageCallback {
    /// Take delivery of one message.
    fn on_message(&mut self, msg: &Message) -> Result<(), CallbackError>;
}

/// The endpoint identifier that a bootstrap string parses to: its 32
/// key bytes, or nothing when the string is not a valid identifier.
pub uninterp spec fn peer_id_of(s: Seq<char>) -> Option<Seq<u8>>;

/// Relies on `iroh::PublicKey::from_str`, which accepts the hex or
/// z-base-32 form of an endpoint identifier and fails unless the bytes
/// decode to a valid key, and on `PublicKey::as_bytes`, which returns
/// the key's 32 bytes.
#[verifier::external_body]
fn parse_peer_id(s: &str) -> (r: Option<Vec<u8>>)
    ensures
        r matches Some(b) ==> peer_id_of(s@) == Some(b@) && b@.len() == 32,
        r is None ==> peer_id_of(s@) is None,
{
    match iroh::PublicKey::from_str(s) {
        Ok(key) => Some(key.as_bytes().to_vec()),
        Err(_) => None,
    }
}

/// A validated subscription request: the topic id and the parsed
/// bootstrap peers, ready to be handed to the native gossip service.
#[derive(Clone, PartialEq, Eq, Debug)]
pub struct SubscribeRequest {
    /// The topic id; exactly 32 bytes.
    pub topic: Vec<u8>,
    /// The key bytes of each bootstrap peer, in the given order; 32
    /// bytes each.
    pub bootstrap: Vec<Vec<u8>>,
}

impl SubscribeRequest {
    /// Every validated request keeps these shapes.
    pub open spec fn well_formed(&self) -> bool {
        &&& self.topic@.len() == 32
        &&& forall|i: int| 0 <= i < self.bootstrap@.len() ==> self.bootstrap@[i]@.len() == 32
    }
}

/// Validate a subscribe call before anything is allocated for it: the
/// topic must be exactly 32 bytes, and every bootstrap entry must
/// parse as an endpoint identifier. Only a request that comes back
/// `Ok` is handed to the native service and given a background task,
/// so a rejected call leaks neither a task nor a stream.
pub fn prepare_subscribe(topic: Vec<u8>, bootstrap: &Vec<String>) -> (r: Result<
    SubscribeRequest,
    IrohError,
>)
    ensures
        topic@.len() != 32 ==> r == Err::<SubscribeRequest, IrohError>(IrohError::InvalidTopic),
        topic@.len() == 32 && (exists|i: int|
            0 <= i < bootstrap@.len() && peer_id_of(bootstrap@[i]@) is None) ==> r == Err::<
            SubscribeRequest,
            IrohError,
        >(IrohError::InvalidPeerId),
        r is Ok <==> (topic@.len() == 32 && forall|i: int|
            0 <= i < bootstrap@.len() ==> peer_id_of(bootstrap@[i]@) is Some),
        r matches Ok(req) ==> {
            &&& req.well_formed()
            &&& req.topic@ == topic@
            &&& req.bootstrap@.len() == bootstrap@.len()
            &&& forall|i: int|
                0 <= i < bootstrap@.len() ==> peer_id_of(bootstrap@[i]@) == Some(
                    req.bootstrap@[i]@,
                )
        },
{
    if topic.len() != 32 {
        return Err(IrohError::InvalidTopic);
    }
    let mut peers: Vec<Vec<u8>> = Vec::new();
    let mut i: usize = 0;
    while i < bootstrap.len()
        invariant
            i <= bootstrap@.len(),
            peers@.len() == i,
            forall|j: int|
                0 <= j < i ==> #[trigger] peer_id_of(bootstrap@[j]@) == Some(peers@[j]@),
            forall|j: int| 0 <= j < i ==> #[trigger] peers@[j]@.len() == 32,
            topic@.len() == 32,
        decreases bootstrap@.len() - i,
    {
        match parse_peer_id(bootstrap[i].as_str()) {
            Some(bytes) => peers.push(bytes),
            None => {
                proof {
                    assert(peer_id_of(bootstrap@[i as int]@) is None);
                }
                return Err(IrohError::InvalidPeerId);
            },
        }
        i = i + 1;
    }
    Ok(SubscribeRequest { topic, bootstrap: peers })
}

/// What a broadcast reaches: the topic's full membership, or only the
/// directly connected neighbors.
#[derive(Clone, Copy, PartialEq, Eq, Structural, Debug)]
pub enum SendScope {
    /// Disseminate to every node in the swarm.
    Swarm,
    /// Send only to direct neighbors, skipping multi-hop dissemination.
    Neighbors,
}

/// A send the runtime shell still has to perform on the native
/// transport: the scope and the payload.
#[derive(Clone, PartialEq, Eq, Debug)]
pub struct SendCommand {
    /// How far the payload travels.
    pub scope: SendScope,
    /// The payload bytes.
    pub payload: Vec<u8>,
}

/// The outward-facing half of a subscription. It owns the cancellation
/// token that stops the paired event bridge; once cancelled it is
/// terminal, and every operation on it fails.
#[derive(Clone, PartialEq, Eq, Debug)]
pub struct Sender {
    cancel: CancelToken,
}

impl Sender {
    /// Whether this sender was cancelled.
    pub closed spec fn spec_cancelled(&self) -> bool {
        self.cancel.spec_cancelled()
    }

    /// A live sender for a fresh subscription.
    pub fn new() -> (s: Sender)
        ensures
            !s.spec_cancelled(),
    {
        Sender { cancel: CancelToken::new() }
    }

    /// A non-blocking check of the paired cancellation token.
    pub fn is_cancelled(&self) -> (r: bool)
        ensures
            r == self.spec_cancelled(),
    {
        self.cancel.is_cancelled()
    }

    /// Broadcast a message to all nodes in the swarm: on a live
    /// sender, the send to perform; on a cancelled sender, a failure,
    /// never a silent no-op.
    pub fn broadcast(&self, msg: Vec<u8>) -> (r: Result<SendCommand, IrohError>)
        ensures
            self.spec_cancelled() ==> r == Err::<SendCommand, IrohError>(
                IrohError::AlreadyCancelled,
            ),
            !self.spec_cancelled() ==> r == Ok::<SendCommand, IrohError>(
                SendCommand { scope: SendScope::Swarm, payload: msg },
            ),
    {
        if self.cancel.is_cancelled() {
            Err(IrohError::AlreadyCancelled)
        } else {
            Ok(SendCommand { scope: SendScope::Swarm, payload: msg })
        }
    }

    /// Broadcast a message to the direct neighbors only; fails on a
    /// cancelled sender exactly as [`Sender::broadcast`] does.
    pub fn broadcast_neighbors(&self, msg: Vec<u8>) -> (r: Result<SendCommand, IrohError>)
        ensures
            self.spec_cancelled() ==> r == Err::<SendCommand, IrohError>(
                IrohError::AlreadyCancelled,
            ),
            !self.spec_cancelled() ==> r == Ok::<SendCommand, IrohError>(
                SendCommand { scope: SendScope::Neighbors, payload: msg },
            ),
    {
        if self.cancel.is_cancelled() {
            Err(IrohError::AlreadyCancelled)
        } else {
            Ok(SendCommand { scope: SendScope::Neighbors, payload: msg })
        }
    }

    /// Close the subscription: flip the paired token, stopping the
    /// event bridge at its next poll. The first call succeeds; any
    /// later call fails, so a double cancel is always detected.
    pub fn cancel(&mut self) -> (r: Result<(), IrohError>)
        ensures
            old(self).spec_cancelled() ==> r == Err::<(), IrohError>(IrohError::AlreadyCancelled)
                && *final(self) == *old(self),
            !old(self).spec_cancelled() ==> r == Ok::<(), IrohError>(()),
            final(self).spec_cancelled(),
    {
        self.cancel.cancel()
    }
}

} // verus!
