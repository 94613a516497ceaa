use vstd::prelude::*;

use crate::error::CallbackError;
use crate::gossip::GossipMessageCallback;
use crate::gossip::Message;

verus! {

/// One event yielded by a native subscription stream, as plain values.
#[derive(Clone, PartialEq, Eq, Debug)]
pub enum GossipEvent {
    /// A new direct neighbor, by its endpoint identifier.
    NeighborUp(String),
    /// A dropped direct neighbor, by its endpoint identifier.
    NeighborDown(String),
    /// A message received on the topic.
    Received {
        /// The content of the message.
        content: Vec<u8>,
        /// The node that delivered the message.
        delivered_from: String,
    },
    /// The stream fell behind and skipped messages.
    Lagged,
}

/// The outcome of one round of the bridge loop's race between "the
/// token became cancelled" and "the next native item is ready".
///
/// The runtime shell resolves the race with cancellation given
/// priority: when both are ready at the same instant it reports
/// `Cancelled`, never the item.
#[derive(Clone, PartialEq, Eq, Debug)]
pub enum BridgePoll {
    /// The cancellation token fired.
    Cancelled,
    /// The stream yielded an event.
    Event(GossipEvent),
    /// The stream yielded an error, carried as text.
    StreamError(String),
    /// The stream ended; a normal terminal state, not an error.
    StreamEnd,
}

/// What the bridge loop does after one poll: invoke the callback with
/// one message, or stop for good.
#[derive(Clone, PartialEq, Eq, Debug)]
pub enum BridgeAction {
    /// Invoke the foreign callback with this message, then report the
    /// outcome through [`EventBridge::note_delivery`].
    Deliver(Message),
    /// Stop the loop; no further callback invocations happen.
    Stop,
}

/// The control state of one subscription's event bridge: the
/// background task that pulls native events one at a time and invokes
/// the foreign callback with each.
///
/// The bridge buffers nothing: one poll yields at most one delivery,
/// and the next poll happens only after the callback for the previous
/// delivery returned.
#[derive(Clone, Copy, PartialEq, Eq, Structural, Debug)]
pub struct EventBridge {
    /// Whether the consumption loop is still running.
    pub running: bool,
}

/// The message a native event is delivered as.
pub open spec fn spec_event_message(e: GossipEvent) -> Message {
    match e {
        GossipEvent::NeighborUp(s) => Message::NeighborUp(s),
        GossipEvent::NeighborDown(s) => Message::NeighborDown(s),
        GossipEvent::Received { content, delivered_from } => Message::Received {
            content,
            delivered_from,
        },
        GossipEvent::Lagged => Message::Lagged,
    }
}

/// The message one poll delivers, if any.
pub open spec fn spec_poll_message(p: BridgePoll) -> Option<Message> {
    match p {
        BridgePoll::Cancelled => None,
        BridgePoll::Event(e) => Some(spec_event_message(e)),
        BridgePoll::StreamError(m) => Some(Message::Error(m)),
        BridgePoll::StreamEnd => None,
    }
}

/// Whether one poll ends the loop.
pub open spec fn spec_poll_stops(p: BridgePoll) -> bool {
    p is Cancelled || p is StreamEnd
}

/// One transition of the bridge: the state after the poll, and the
/// message delivered by it, if any. A stopped bridge never delivers.
pub open spec fn spec_step(st: EventBridge, p: BridgePoll) -> (EventBridge, Option<Message>) {
    if !st.running {
        (st, None)
    } else if spec_poll_stops(p) {
        (EventBridge { running: false }, None)
    } else {
        (st, spec_poll_message(p))
    }
}

/// The state after the callback reported `ok` for one delivery: the
/// same state. A callback failure is observed and logged by the shell
/// but never feeds back into loop control.
pub open spec fn spec_note(st: EventBridge, ok: bool) -> EventBridge {
    st
}

/// The messages a bridge starting in state `st` delivers when fed the
/// polls in order, with `results[i]` the callback's verdict on the
/// delivery for poll `i` (ignored entries for polls that deliver
/// nothing).
pub open spec fn spec_run(
    st: EventBridge,
    polls: Seq<BridgePoll>,
    results: Seq<bool>,
) -> Seq<Message>
    decreases polls.len(),
{
    if polls.len() == 0 {
        Seq::empty()
    } else {
        let (st1, d) = spec_step(st, polls[0]);
        match d {
            Some(m) => {
                let st2 = spec_note(st1, results.len() > 0 && results[0]);
                seq![m] + spec_run(st2, polls.drop_first(), results.drop_first())
            },
            None => spec_run(st1, polls.drop_first(), results.drop_first()),
        }
    }
}

impl EventBridge {
    /// Begin background consumption for one subscription. The caller
    /// is not blocked: the shell schedules the consumption task and
    /// returns as soon as it is scheduled.
    pub fn start() -> (b: EventBridge)
        ensures
            b.running,
    {
        EventBridge { running: true }
    }

    /// Advance the loop by one poll. Cancellation and stream end stop
    /// the loop; an event or a stream error is delivered to the
    /// callback as exactly one message.
    pub fn step(&mut self, poll: BridgePoll) -> (a: BridgeAction)
        requires
            old(self).running,
        ensures
            *final(self) == spec_step(*old(self), poll).0,
            (a matches BridgeAction::Deliver(m) ==> spec_step(*old(self), poll).1 == Some(m)),
            (a is Stop ==> spec_step(*old(self), poll).1 is None),
    {
        match poll {
            BridgePoll::Cancelled => {
                self.running = false;
                BridgeAction::Stop
            },
            BridgePoll::StreamEnd => {
                self.running = false;
                BridgeAction::Stop
            },
            BridgePoll::Event(e) => {
                let m = match e {
                    GossipEvent::NeighborUp(s) => Message::NeighborUp(s),
                    GossipEvent::NeighborDown(s) => Message::NeighborDown(s),
                    GossipEvent::Received { content, delivered_from } => Message::Received {
                        content,
                        delivered_from,
                    },
                    GossipEvent::Lagged => Message::Lagged,
                };
                BridgeAction::Deliver(m)
            },
            BridgePoll::StreamError(m) => BridgeAction::Deliver(Message::Error(m)),
        }
    }

    /// Record the callback's verdict on the latest delivery. The state
    /// does not change: one failed delivery never stops future
    /// deliveries for this subscription.
    pub fn note_delivery(&mut self, outcome: &Result<(), CallbackError>)
        ensures
            *final(self) == spec_note(*old(self), outcome is Ok),
            *final(self) == *old(self),
    {
    }
}

/// The bridge state after the polls were processed, in order. The
/// callback's verdicts play no part in it.
pub open spec fn spec_run_state(st: EventBridge, polls: Seq<BridgePoll>) -> EventBridge
    decreases polls.len(),
{
    if polls.len() == 0 {
        st
    } else {
        spec_run_state(spec_step(st, polls[0]).0, polls.drop_first())
    }
}

impl EventBridge {
    /// Pump a finite sequence of polls through this bridge: each
    /// delivered message goes to the callback, one at a time, and the
    /// callback's verdict is reported back before the next poll is
    /// taken. Returns the delivered messages in delivery order —
    /// exactly the run the bridge laws speak of, whatever the
    /// callback answered.
    pub fn pump<C: GossipMessageCallback>(&mut self, polls: Vec<BridgePoll>, cb: &mut C) -> (delivered: Vec<
        Message,
    >)
        ensures
            delivered@ == spec_run(*old(self), polls@, Seq::<bool>::empty()),
            *final(self) == spec_run_state(*old(self), polls@),
    {
        let ghost st0 = *self;
        let ghost polls0 = polls@;
        let mut polls = polls;
        let mut delivered: Vec<Message> = Vec::new();
        while polls.len() > 0
            invariant
                spec_run(st0, polls0, Seq::<bool>::empty()) == delivered@ + spec_run(
                    *self,
                    polls@,
                    Seq::<bool>::empty(),
                ),
                spec_run_state(st0, polls0) == spec_run_state(*self, polls@),
            decreases polls@.len(),
        {
            let ghost pre_polls = polls@;
            let ghost pre_st = *self;
            let p = polls.remove(0);
            proof {
                assert(polls@ =~= pre_polls.drop_first());
                lemma_callback_failure_isolated(
                    spec_step(pre_st, pre_polls[0]).0,
                    pre_polls.drop_first(),
                    Seq::<bool>::empty().drop_first(),
                    Seq::<bool>::empty(),
                );
            }
            if self.running {
                match self.step(p) {
                    BridgeAction::Deliver(m) => {
                        let outcome = cb.on_message(&m);
                        self.note_delivery(&outcome);
                        delivered.push(m);
                    },
                    BridgeAction::Stop => {},
                }
            }
        }
        delivered
    }
}

/// A bridge that is never cancelled and whose stream never errs nor
/// ends delivers every event, in stream order, exactly once each,
/// whatever the callback's verdicts were.
pub proof fn lemma_in_order_delivery(st: EventBridge, polls: Seq<BridgePoll>, results: Seq<bool>)
    requires
        st.running,
        forall|i: int| 0 <= i < polls.len() ==> polls[i] is Event,
    ensures
        spec_run(st, polls, results).len() == polls.len(),
        forall|i: int|
            0 <= i < polls.len() ==> spec_run(st, polls, results)[i] == spec_event_message(
                polls[i]->Event_0,
            ),
    decreases polls.len(),
{
    if polls.len() > 0 {
        let st2 = spec_note(st, results.len() > 0 && results[0]);
        lemma_in_order_delivery(st2, polls.drop_first(), results.drop_first());
        assert forall|i: int| 0 <= i < polls.len() implies spec_run(st, polls, results)[i]
            == spec_event_message(polls[i]->Event_0) by {
            if i > 0 {
                assert(polls.drop_first()[i - 1] == polls[i]);
            }
        }
    }
}

/// The delivered messages do not depend on the callback's verdicts:
/// a failing callback is isolated per delivery and cannot change what
/// is delivered afterwards.
pub proof fn lemma_callback_failure_isolated(
    st: EventBridge,
    polls: Seq<BridgePoll>,
    results1: Seq<bool>,
    results2: Seq<bool>,
)
    ensures
        spec_run(st, polls, results1) == spec_run(st, polls, results2),
    decreases polls.len(),
{
    if polls.len() > 0 {
        let (st1, d) = spec_step(st, polls[0]);
        lemma_callback_failure_isolated(
            st1,
            polls.drop_first(),
            results1.drop_first(),
            results2.drop_first(),
        );
    }
}

/// A stopped bridge delivers nothing.
pub proof fn lemma_stopped_no_delivery(st: EventBridge, polls: Seq<BridgePoll>, results: Seq<bool>)
    requires
        !st.running,
    ensures
        spec_run(st, polls, results) == Seq::<Message>::empty(),
    decreases polls.len(),
{
    if polls.len() > 0 {
        lemma_stopped_no_delivery(st, polls.drop_first(), results.drop_first());
    }
}

/// Once cancellation wins the race at position `k`, nothing from
/// position `k` on is ever delivered, even if the producer still has
/// buffered events: the run equals the run over the strict prefix.
pub proof fn lemma_cancelled_stops_delivery(
    st: EventBridge,
    polls: Seq<BridgePoll>,
    results: Seq<bool>,
    k: int,
)
    requires
        0 <= k < polls.len(),
        polls[k] is Cancelled,
    ensures
        spec_run(st, polls, results) == spec_run(st, polls.take(k), results.take(k)),
    decreases k,
{
    if k == 0 {
        assert(polls.take(0) =~= Seq::<BridgePoll>::empty());
        if st.running {
            lemma_stopped_no_delivery(
                EventBridge { running: false },
                polls.drop_first(),
                results.drop_first(),
            );
        } else {
            lemma_stopped_no_delivery(st, polls, results);
        }
    } else {
        let pd = polls.drop_first();
        let rd = results.drop_first();
        let (st1, d) = spec_step(st, polls[0]);
        assert(pd[k - 1] == polls[k]);
        lemma_cancelled_stops_delivery(st1, pd, rd, k - 1);
        lemma_callback_failure_isolated(
            st1,
            pd.take(k - 1),
            rd.take(k - 1),
            results.take(k).drop_first(),
        );
        assert(polls.take(k).drop_first() =~= pd.take(k - 1));
        assert(polls.take(k)[0] == polls[0]);
    }
}

} // verus!
