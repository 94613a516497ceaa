use vstd::prelude::*;

use crate::error::CallbackError;
use crate::error::IrohError;

verus! {

/// The state of one inbound connection, from dispatch to its terminal
/// state. `handler` is the index of the registration the connection
/// was dispatched to.
#[derive(Clone, Copy, PartialEq, Eq, Structural, Debug)]
pub enum ConnState {
    /// The connection was handed to its handler, which is still
    /// driving the protocol exchange.
    Dispatched { handler: usize },
    /// The handler drove the exchange to completion.
    Completed { handler: usize },
    /// The handler failed; terminal for this connection only.
    Failed { handler: usize },
}

/// The protocol router: one transport endpoint accepting connections
/// for several independent protocols, each identified by a tag that is
/// negotiated at connection time.
///
/// The registration map is fixed at construction: there is no runtime
/// add or remove of protocol tags. Each dispatched connection is
/// tracked independently, so one handler's failure never touches
/// another connection, and never stops the router from accepting.
#[derive(Clone, PartialEq, Eq, Debug)]
pub struct Router {
    tags: Vec<Vec<u8>>,
    conns: Vec<ConnState>,
    shut: bool,
}

impl Router {
    /// The registered protocol tags, in registration order.
    pub closed spec fn spec_tags(&self) -> Seq<Seq<u8>> {
        self.tags@.map_values(|t: Vec<u8>| t@)
    }

    /// The state of every connection accepted so far, in arrival
    /// order.
    pub closed spec fn spec_conns(&self) -> Seq<ConnState> {
        self.conns@
    }

    /// Whether shutdown was requested.
    pub closed spec fn spec_shut(&self) -> bool {
        self.shut
    }

    /// Registered tags are pairwise distinct, and every connection
    /// points at a registered handler.
    pub open spec fn well_formed(&self) -> bool {
        &&& forall|i: int, j: int|
            0 <= i < j < self.spec_tags().len() ==> self.spec_tags()[i] != self.spec_tags()[j]
        &&& forall|c: int|
            0 <= c < self.spec_conns().len() ==> spec_conn_handler(#[trigger] self.spec_conns()[c])
                < self.spec_tags().len()
    }

    /// Build a router over an immutable registration list. Fails, and
    /// registers nothing, when two registrations carry the same tag.
    pub fn new(tags: Vec<Vec<u8>>) -> (r: Result<Router, IrohError>)
        ensures
            r is Ok <==> (forall|i: int, j: int|
                0 <= i < j < tags@.len() ==> tags@[i]@ != tags@[j]@),
            r is Err ==> r == Err::<Router, IrohError>(IrohError::DuplicateTag),
            r matches Ok(router) ==> {
                &&& router.well_formed()
                &&& router.spec_tags() == tags@.map_values(|t: Vec<u8>| t@)
                &&& router.spec_conns().len() == 0
                &&& !router.spec_shut()
            },
    {
        let n = tags.len();
        let mut i: usize = 0;
        while i < n
            invariant
                n == tags@.len(),
                i <= n,
                forall|a: int, b: int| 0 <= a < b < i ==> tags@[a]@ != tags@[b]@,
            decreases n - i,
        {
            let mut j: usize = 0;
            while j < i
                invariant
                    n == tags@.len(),
                    j <= i < n,
                    forall|a: int, b: int| 0 <= a < b < i ==> tags@[a]@ != tags@[b]@,
                    forall|b: int| 0 <= b < j ==> tags@[b]@ != tags@[i as int]@,
                decreases i - j,
            {
                if bytes_eq(&tags[j], &tags[i]) {
                    return Err(IrohError::DuplicateTag);
                }
                j = j + 1;
            }
            i = i + 1;
        }
        Ok(Router { tags, conns: Vec::new(), shut: false })
    }

    /// How many protocol tags are registered.
    pub fn tag_count(&self) -> (n: usize)
        ensures
            n == self.spec_tags().len(),
    {
        self.tags.len()
    }

    /// Find the handler registered for a tag, if any.
    pub fn lookup(&self, tag: &Vec<u8>) -> (r: Option<usize>)
        ensures
            r matches Some(h) ==> h < self.spec_tags().len() && self.spec_tags()[h as int]
                == tag@,
            r is None <==> (forall|i: int|
                0 <= i < self.spec_tags().len() ==> self.spec_tags()[i] != tag@),
    {
        let n = self.tags.len();
        let mut i: usize = 0;
        while i < n
            invariant
                n == self.tags@.len(),
                i <= n,
                forall|j: int| 0 <= j < i ==> self.spec_tags()[j] != tag@,
            decreases n - i,
        {
            if bytes_eq(&self.tags[i], tag) {
                proof {
                    assert(self.spec_tags()[i as int] == tag@);
                }
                return Some(i);
            }
            i = i + 1;
        }
        None
    }

    /// Accept one inbound connection that negotiated `tag`.
    ///
    /// After shutdown every late connection is turned away cleanly. A
    /// tag with no registration is rejected before any handler is
    /// invoked, and leaves every already-dispatched connection exactly
    /// as it was. Otherwise the connection enters the `Dispatched`
    /// state under a fresh identifier, and no other connection
    /// changes.
    pub fn accept(&mut self, tag: &Vec<u8>) -> (r: Result<usize, IrohError>)
        requires
            old(self).well_formed(),
        ensures
            final(self).well_formed(),
            final(self).spec_tags() == old(self).spec_tags(),
            final(self).spec_shut() == old(self).spec_shut(),
            old(self).spec_shut() ==> r == Err::<usize, IrohError>(IrohError::RouterShutDown)
                && *final(self) == *old(self),
            !old(self).spec_shut() && (forall|i: int|
                0 <= i < old(self).spec_tags().len() ==> old(self).spec_tags()[i] != tag@) ==> r
                == Err::<usize, IrohError>(IrohError::UnknownTag) && *final(self) == *old(self),
            !old(self).spec_shut() && (exists|i: int|
                0 <= i < old(self).spec_tags().len() && old(self).spec_tags()[i] == tag@) ==> {
                &&& r == Ok::<usize, IrohError>(old(self).spec_conns().len() as usize)
                &&& exists|h: int|
                    0 <= h < old(self).spec_tags().len() && old(self).spec_tags()[h] == tag@
                        && final(self).spec_conns() == old(self).spec_conns().push(
                        (ConnState::Dispatched { handler: h as usize }),
                    )
            },
    {
        if self.shut {
            return Err(IrohError::RouterShutDown);
        }
        match self.lookup(tag) {
            None => Err(IrohError::UnknownTag),
            Some(h) => {
                let c = self.conns.len();
                self.conns.push(ConnState::Dispatched { handler: h });
                proof {
                    assert(self.spec_conns() =~= old(self).spec_conns().push(
                        (ConnState::Dispatched { handler: h }),
                    ));
                    assert(0 <= h < old(self).spec_tags().len()
                        && old(self).spec_tags()[h as int] == tag@
                        && self.spec_conns() == old(self).spec_conns().push(
                        (ConnState::Dispatched { handler: h }),
                    ));
                    assert forall|ci: int|
                        0 <= ci < self.spec_conns().len() implies spec_conn_handler(
                        #[trigger] self.spec_conns()[ci],
                    ) < self.spec_tags().len() by {
                        if ci < old(self).spec_conns().len() {
                            assert(spec_conn_handler(old(self).spec_conns()[ci]) < old(
                                self,
                            ).spec_tags().len());
                        }
                    }
                }
                Ok(c)
            },
        }
    }

    /// Record the terminal state the handler drove connection `conn`
    /// to. Only that connection changes: a failure is terminal for it
    /// alone and leaves the router accepting, with every other
    /// connection untouched.
    pub fn finish(&mut self, conn: usize, outcome: &Result<(), CallbackError>)
        requires
            old(self).well_formed(),
            conn < old(self).spec_conns().len(),
            old(self).spec_conns()[conn as int] is Dispatched,
        ensures
            final(self).well_formed(),
            final(self).spec_tags() == old(self).spec_tags(),
            final(self).spec_shut() == old(self).spec_shut(),
            final(self).spec_conns() == old(self).spec_conns().update(
                conn as int,
                spec_conn_finish(old(self).spec_conns()[conn as int], outcome is Ok),
            ),
            forall|j: int|
                0 <= j < old(self).spec_conns().len() && j != conn ==> final(self).spec_conns()[j]
                    == old(self).spec_conns()[j],
    {
        let handler = match self.conns[conn] {
            ConnState::Dispatched { handler } => handler,
            _ => unreached(),
        };
        let next = if outcome.is_ok() {
            ConnState::Completed { handler }
        } else {
            ConnState::Failed { handler }
        };
        self.conns.set(conn, next);
    }

    /// Request shutdown: the returned plan lists each registered
    /// handler whose own shutdown must now be requested, in
    /// registration order. The first call lists every handler; a
    /// repeated call changes nothing and has nothing left to request,
    /// so shutting down twice ends in the same state as once.
    pub fn shutdown(&mut self) -> (plan: Vec<usize>)
        ensures
            *final(self) == spec_shutdown(*old(self)),
            final(self).spec_tags() == old(self).spec_tags(),
            final(self).spec_conns() == old(self).spec_conns(),
            final(self).spec_shut(),
            old(self).spec_shut() ==> plan@.len() == 0,
            !old(self).spec_shut() ==> plan@.len() == old(self).spec_tags().len() && (forall|
                i: int,
            |
                0 <= i < plan@.len() ==> plan@[i] == i),
    {
        if self.shut {
            return Vec::new();
        }
        self.shut = true;
        let n = self.tags.len();
        let mut plan: Vec<usize> = Vec::new();
        let mut i: usize = 0;
        while i < n
            invariant
                i <= n,
                plan@.len() == i,
                forall|j: int| 0 <= j < i ==> plan@[j] == j,
            decreases n - i,
        {
            plan.push(i);
            i = i + 1;
        }
        plan
    }

    /// How many connections were accepted so far.
    pub fn conn_count(&self) -> (n: usize)
        ensures
            n == self.spec_conns().len(),
    {
        self.conns.len()
    }

    /// The state of connection `conn`.
    pub fn conn_state(&self, conn: usize) -> (s: ConnState)
        requires
            conn < self.spec_conns().len(),
        ensures
            s == self.spec_conns()[conn as int],
    {
        self.conns[conn]
    }

    /// Whether shutdown was requested.
    pub fn is_shut_down(&self) -> (r: bool)
        ensures
            r == self.spec_shut(),
    {
        self.shut
    }
}

/// The registration a connection in any state was dispatched to.
pub open spec fn spec_conn_handler(c: ConnState) -> usize {
    match c {
        ConnState::Dispatched { handler } => handler,
        ConnState::Completed { handler } => handler,
        ConnState::Failed { handler } => handler,
    }
}

/// The terminal state of a dispatched connection for a handler
/// verdict.
pub open spec fn spec_conn_finish(c: ConnState, ok: bool) -> ConnState {
    if ok {
        ConnState::Completed { handler: spec_conn_handler(c) }
    } else {
        ConnState::Failed { handler: spec_conn_handler(c) }
    }
}

/// The router state after a shutdown request: the flag is set and
/// nothing else moves.
pub closed spec fn spec_shutdown(r: Router) -> Router {
    Router { shut: true, ..r }
}

/// Shutting a router down is idempotent: a second shutdown request
/// leaves exactly the state the first one reached.
pub proof fn lemma_shutdown_idempotent(r: Router)
    ensures
        spec_shutdown(spec_shutdown(r)) == spec_shutdown(r),
{
}

/// Compare two byte strings by contents.
fn bytes_eq(a: &Vec<u8>, b: &Vec<u8>) -> (r: bool)
    ensures
        r == (a@ == b@),
{
    if a.len() != b.len() {
        proof {
            assert(a@ != b@);
        }
        return false;
    }
    let n = a.len();
    let mut i: usize = 0;
    while i < n
        invariant
            n == a@.len() == b@.len(),
            i <= n,
            forall|j: int| 0 <= j < i ==> a@[j] == b@[j],
        decreases n - i,
    {
        if a[i] != b[i] {
            return false;
        }
        i = i + 1;
    }
    proof {
        assert(a@ =~= b@);
    }
    true
}

} // verus!
