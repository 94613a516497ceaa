use vstd::prelude::*;

use crate::error::IrohError;

verus! {

/// A cancellation flag with a one-way transition from live to
/// cancelled.
///
/// This is the state of the flag that a sender shares with its event
/// bridge task; the runtime shell wraps it in a shareable, awaitable
/// primitive whose observable transitions are exactly the ones stated
/// here. Cancellation never blocks, and a second `cancel` reports
/// failure so callers can detect double-cancel bugs.
#[derive(Clone, Copy, PartialEq, Eq, Structural, Debug)]
pub struct CancelToken {
    cancelled: bool,
}

impl CancelToken {
    /// Whether the one-way transition has happened.
    pub closed spec fn spec_cancelled(&self) -> bool {
        self.cancelled
    }

    /// A fresh, live token.
    pub fn new() -> (t: CancelToken)
        ensures
            !t.spec_cancelled(),
    {
        CancelToken { cancelled: false }
    }

    /// A non-blocking, point-in-time check of the flag.
    pub fn is_cancelled(&self) -> (r: bool)
        ensures
            r == self.spec_cancelled(),
    {
        self.cancelled
    }

    /// Request cancellation. The first call flips the flag and
    /// succeeds; every later call fails with `AlreadyCancelled` and
    /// leaves the token unchanged, so a double cancel is always
    /// observable.
    pub fn cancel(&mut self) -> (r: Result<(), IrohError>)
        ensures
            old(self).spec_cancelled() ==> r == Err::<(), IrohError>(
                IrohError::AlreadyCancelled,
            ) && *final(self) == *old(self),
            !old(self).spec_cancelled() ==> r == Ok::<(), IrohError>(()),
            final(self).spec_cancelled(),
    {
        if self.cancelled {
            Err(IrohError::AlreadyCancelled)
        } else {
            self.cancelled = true;
            Ok(())
        }
    }
}

} // verus!
