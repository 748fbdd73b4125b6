//! Fan-out of build events to several consumers (the recorder and the
//! dashboard), each behind a bounded channel.
//!
//! Sending never waits: a subscriber whose channel is full or whose
//! receiver is gone is dropped for good. The loop
//! that receives events and watches for cancellation runs outside and hands
//! each event to [`EventBroker::broadcast`].

use vstd::prelude::*;
use crate::model::BuildEvent;

verus! {

/// Declares tokio's bounded sender to the verifier.
#[verifier::external_type_specification]
#[verifier::external_body]
#[verifier::reject_recursive_types(T)]
pub struct ExSender<T>(tokio::sync::mpsc::Sender<T>);

/// Declares tokio's bounded receiver to the verifier.
#[verifier::external_type_specification]
#[verifier::external_body]
#[verifier::reject_recursive_types(T)]
pub struct ExReceiver<T>(tokio::sync::mpsc::Receiver<T>);

/// The largest capacity tokio accepts for a bounded channel
/// (`Semaphore::MAX_PERMITS`, `usize::MAX >> 3`).
pub const MAX_CHANNEL_CAPACITY: usize = usize::MAX / 8;

/// Opens a bounded channel of `capacity` events (`tokio::sync::mpsc::channel`).
/// tokio panics on a capacity of 0 or above `usize::MAX >> 3`; both are
/// excluded. Nothing is claimed of the channel's ends.
#[verifier::external_body]
fn open_channel(capacity: usize) -> (tokio::sync::mpsc::Sender<BuildEvent>, tokio::sync::mpsc::Receiver<BuildEvent>)
    requires
        0 < capacity <= MAX_CHANNEL_CAPACITY,
{
    tokio::sync::mpsc::channel(capacity)
}

/// What became of one event offered to one subscriber.
#[derive(Debug, Clone, Copy, PartialEq, Eq, Structural)]
pub enum SendOutcome {
    /// The event is in the subscriber's channel.
    Sent,
    /// The channel was full; the subscriber misses this event and is
    /// dropped.
    Full,
    /// The receiver is gone; the subscriber is dropped.
    Closed,
}

/// Offers `event` to a subscriber without waiting (`Sender::try_send`),
/// telling the two errors apart. Which outcome comes depends on the
/// channel's state at the time; nothing is claimed of it.
#[verifier::external_body]
fn offer(tx: &tokio::sync::mpsc::Sender<BuildEvent>, event: BuildEvent) -> SendOutcome {
    match tx.try_send(event) {
        Ok(()) => SendOutcome::Sent,
        Err(tokio::sync::mpsc::error::TrySendError::Full(_)) => SendOutcome::Full,
        Err(tokio::sync::mpsc::error::TrySendError::Closed(_)) => SendOutcome::Closed,
    }
}

/// The subscribers that remain after a broadcast with these outcomes:
/// those the event was sent to, in their order (full and closed channels
/// are dropped).
pub open spec fn kept<T>(subs: Seq<T>, outcomes: Seq<SendOutcome>) -> Seq<T>
    decreases subs.len(),
{
    if subs.len() == 0 || outcomes.len() == 0 {
        Seq::empty()
    } else {
        let rest = kept(subs.drop_last(), outcomes.drop_last());
        if outcomes.last() == SendOutcome::Sent {
            rest.push(subs.last())
        } else {
            rest
        }
    }
}

/// Distributes build events to its subscribers; each gets a copy of every
/// event, and a subscriber whose channel is full or closed is removed.
pub struct EventBroker {
    subscribers: Vec<tokio::sync::mpsc::Sender<BuildEvent>>,
}

impl View for EventBroker {
    type V = Seq<tokio::sync::mpsc::Sender<BuildEvent>>;

    closed spec fn view(&self) -> Seq<tokio::sync::mpsc::Sender<BuildEvent>> {
        self.subscribers@
    }
}

impl EventBroker {
    /// A broker without subscribers.
    pub fn new() -> (b: EventBroker)
        ensures
            b@.len() == 0,
    {
        EventBroker { subscribers: Vec::new() }
    }

    /// Adds a subscriber with a channel of `buffer` events and returns its
    /// receiving end. tokio refuses a capacity of 0 or above
    /// `usize::MAX >> 3`.
    pub fn subscribe(&mut self, buffer: usize) -> (rx: tokio::sync::mpsc::Receiver<BuildEvent>)
        requires
            0 < buffer <= MAX_CHANNEL_CAPACITY,
        ensures
            final(self)@.len() == old(self)@.len() + 1,
            final(self)@.take(old(self)@.len() as int) == old(self)@,
    {
        let (tx, rx) = open_channel(buffer);
        self.subscribers.push(tx);
        assert(self@.take(old(self)@.len() as int) =~= old(self)@);
        rx
    }

    /// Offers a copy of `event` to every subscriber, in order, without
    /// waiting, and drops the subscribers whose channel was full or whose
    /// receiver is gone. Returns each subscriber's outcome.
    pub fn broadcast(&mut self, event: &BuildEvent) -> (outcomes: Vec<SendOutcome>)
        ensures
            outcomes@.len() == old(self)@.len(),
            final(self)@ == kept(old(self)@, outcomes@),
    {
        let mut pending: Vec<tokio::sync::mpsc::Sender<BuildEvent>> = Vec::new();
        std::mem::swap(&mut pending, &mut self.subscribers);
        let ghost orig = pending@;
        let mut remaining: Vec<tokio::sync::mpsc::Sender<BuildEvent>> = Vec::new();
        let mut outcomes: Vec<SendOutcome> = Vec::new();
        while pending.len() > 0
            invariant
                outcomes@.len() <= orig.len(),
                pending@ == orig.skip(outcomes@.len() as int),
                remaining@ == kept(orig.take(outcomes@.len() as int), outcomes@),
            decreases pending.len(),
        {
            let ghost i = outcomes@.len() as int;
            let ghost prev_outcomes = outcomes@;
            let ghost prev_remaining = remaining@;
            let tx = pending.remove(0);
            assert(tx == orig[i]);
            let outcome = offer(&tx, event.clone());
            match outcome {
                SendOutcome::Sent => {
                    remaining.push(tx);
                },
                _ => {},
            }
            outcomes.push(outcome);
            proof {
                assert(orig.take(i + 1).drop_last() =~= orig.take(i));
                assert(outcomes@.drop_last() =~= prev_outcomes);
                assert(orig.take(i + 1).last() == orig[i]);
                assert(prev_remaining == kept(orig.take(i), prev_outcomes));
                assert(pending@ =~= orig.skip(i + 1));
            }
        }
        assert(orig.take(outcomes@.len() as int) =~= orig);
        self.subscribers = remaining;
        outcomes
    }
}

impl Default for EventBroker {
    /// A broker without subscribers.
    fn default() -> (b: Self)
        ensures
            b@.len() == 0,
    {
        EventBroker::new()
    }
}

/// A broadcast that reached every subscriber keeps them all, in order; one
/// never adds subscribers.
pub proof fn law_broadcast_keeps_live<T>(subs: Seq<T>, outcomes: Seq<SendOutcome>)
    requires
        outcomes.len() == subs.len(),
    ensures
        kept(subs, outcomes).len() <= subs.len(),
        (forall|i: int| 0 <= i < outcomes.len() ==> outcomes[i] == SendOutcome::Sent) ==> kept(subs, outcomes)
            == subs,
    decreases subs.len(),
{
    if subs.len() > 0 {
        law_broadcast_keeps_live(subs.drop_last(), outcomes.drop_last());
        if forall|i: int| 0 <= i < outcomes.len() ==> outcomes[i] == SendOutcome::Sent {
            assert(outcomes.last() == SendOutcome::Sent);
            assert forall|i: int| 0 <= i < outcomes.drop_last().len() implies outcomes.drop_last()[i]
                == SendOutcome::Sent by {
                assert(outcomes.drop_last()[i] == outcomes[i]);
            }
            assert(subs.drop_last().push(subs.last()) =~= subs);
        }
    }
}

} // verus!
