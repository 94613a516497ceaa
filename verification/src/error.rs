use vstd::prelude::*;

verus! {

/// The errors this library reports. Each variant names one way a call can
/// fail; contracts state exactly which inputs produce which variant.
#[derive(Clone, PartialEq, Eq, Debug)]
pub enum IrohError {
    /// A topic id that is not exactly 32 bytes long.
    InvalidTopic,
    /// A bootstrap entry that does not parse as an endpoint identifier.
    InvalidPeerId,
    /// A document key whose bytes are not valid UTF-8.
    InvalidKey,
    /// A secret key that is not exactly 32 bytes long.
    InvalidSecretKey,
    /// A ticket string that does not parse.
    InvalidTicket,
    /// A lifecycle operation on an already cancelled subscription.
    AlreadyCancelled,
    /// A protocol registration that repeats a tag.
    DuplicateTag,
    /// An inbound connection negotiating a tag that is not registered.
    UnknownTag,
    /// An inbound connection arriving after the router shut down.
    RouterShutDown,
    /// An error surfaced by the transport, carried as text.
    Transport(String),
}

impl IrohError {
    /// A short description of the error.
    pub fn message(&self) -> (r: String)
        ensures
            r@.len() > 0,
    {
        let text: &str = match self {
            IrohError::InvalidTopic => "topic must be exactly 32 bytes",
            IrohError::InvalidPeerId => "invalid endpoint identifier",
            IrohError::InvalidKey => "invalid UTF-8 in key",
            IrohError::InvalidSecretKey => "secret key must be exactly 32 bytes",
            IrohError::InvalidTicket => "invalid ticket",
            IrohError::AlreadyCancelled => "already closed",
            IrohError::DuplicateTag => "duplicate protocol tag",
            IrohError::UnknownTag => "unknown protocol tag",
            IrohError::RouterShutDown => "router is shut down",
            IrohError::Transport(_) => "transport error",
        };
        proof {
            reveal_strlit("topic must be exactly 32 bytes");
            reveal_strlit("invalid endpoint identifier");
            reveal_strlit("invalid UTF-8 in key");
            reveal_strlit("secret key must be exactly 32 bytes");
            reveal_strlit("invalid ticket");
            reveal_strlit("already closed");
            reveal_strlit("duplicate protocol tag");
            reveal_strlit("unknown protocol tag");
            reveal_strlit("router is shut down");
            reveal_strlit("transport error");
        }
        String::from_str(text)
    }
}

/// The failure a foreign callback reports for one delivery. It is
/// observed and logged by the caller of the callback; it never stops
/// the event bridge.
#[derive(Clone, PartialEq, Eq, Debug)]
pub struct CallbackError {
    /// A description of the failure, supplied by the callback.
    pub message: String,
}

} // verus!
