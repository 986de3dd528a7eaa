//! Publishing to and draining from a broker queue.
//!
//! The broker itself is driven by the caller. What is decided here is what a
//! batch publishes and when it stops, and what a drain collects and when it
//! ends: the caller performs each publish or poll and reports the outcome.

use vstd::prelude::*;

verus! {

/// A batch of messages as a plain value: the messages in the order in which
/// they are to be published, and how many of them the broker has accepted.
pub struct BatchModel<T> {
    pub messages: Seq<T>,
    pub published: nat,
}

impl<T> BatchModel<T> {
    /// The message to publish next, with its position in the batch, or `None`
    /// where every message has been published.
    pub open spec fn next(self) -> Option<(nat, T)> {
        if self.published < self.messages.len() {
            Some((self.published, self.messages[self.published as int]))
        } else {
            None
        }
    }

    /// The batch after the broker accepted the message it was offered.
    pub open spec fn accept(self) -> BatchModel<T> {
        if self.published < self.messages.len() {
            BatchModel { messages: self.messages, published: self.published + 1 }
        } else {
            self
        }
    }

    /// The batch after the broker accepted `count` messages in a row.
    pub open spec fn accept_many(self, count: nat) -> BatchModel<T>
        decreases count,
    {
        if count == 0 {
            self
        } else {
            self.accept().accept_many((count - 1) as nat)
        }
    }
}

/// A batch that ended early: the broker rejected the message at `index`.
/// The messages before `index` are published and stay so; the message at
/// `index` and those after it were not published and are not offered again.
#[derive(Debug)]
pub struct BatchFailure<E> {
    pub index: usize,
    pub error: E,
}

/// A batch of messages on its way to one queue. Each message is published on
/// its own, in order; nothing is rolled back and nothing is retried.
#[derive(Debug)]
pub struct BatchPublish<T> {
    messages: Vec<T>,
    published: usize,
}

impl<T> View for BatchPublish<T> {
    type V = BatchModel<T>;

    closed spec fn view(&self) -> BatchModel<T> {
        BatchModel { messages: self.messages@, published: self.published as nat }
    }
}

impl<T> BatchPublish<T> {
    #[verifier::type_invariant]
    spec fn wf(&self) -> bool {
        self.published <= self.messages@.len()
    }

    /// A batch of `messages`, none of them published yet.
    pub fn new(messages: Vec<T>) -> (batch: Self)
        ensures
            batch@ == (BatchModel { messages: messages@, published: 0 }),
    {
        BatchPublish { messages, published: 0 }
    }

    /// The message to publish next, with its position in the batch, or `None`
    /// where every message has been published.
    pub fn next(&self) -> (next: Option<(usize, &T)>)
        ensures
            self@.published <= self@.messages.len(),
            match next {
                Some((index, message)) => self@.next() == Some((index as nat, *message)),
                None => self@.next() is None,
            },
    {
        proof {
            use_type_invariant(self);
        }
        if self.published < self.messages.len() {
            Some((self.published, &self.messages[self.published]))
        } else {
            None
        }
    }

    /// Takes the broker's answer to the publish of the message that `next`
    /// offered. After an acceptance the batch goes on with the message that
    /// follows. A rejection ends the batch: it is reported with the position
    /// of the rejected message and the broker's error, and the batch, with
    /// every message not yet published, is gone.
    pub fn record<E>(self, outcome: Result<(), E>) -> (r: Result<BatchPublish<T>, BatchFailure<E>>)
        ensures
            match r {
                Ok(batch) => outcome is Ok && batch@ == self@.accept(),
                Err(failure) => outcome == Err::<(), E>(failure.error) && failure.index
                    == self@.published,
            },
    {
        proof {
            use_type_invariant(&self);
        }
        match outcome {
            Ok(()) => {
                if self.published < self.messages.len() {
                    Ok(BatchPublish { messages: self.messages, published: self.published + 1 })
                } else {
                    Ok(self)
                }
            },
            Err(error) => Err(BatchFailure { index: self.published, error }),
        }
    }
}

/// A batch publishes its messages one by one in their order: after the broker
/// accepted `count` messages, the batch offers the message at position
/// `count`, and after all of them it offers nothing more. No message is
/// offered twice.
pub proof fn lemma_batch_publishes_in_order<T>(messages: Seq<T>, count: nat)
    requires
        count <= messages.len(),
    ensures
        (BatchModel { messages, published: 0 }).accept_many(count) == (BatchModel {
            messages,
            published: count,
        }),
        count < messages.len() ==> (BatchModel { messages, published: 0 }).accept_many(
            count,
        ).next() == Some((count, messages[count as int])),
        count == messages.len() ==> (BatchModel { messages, published: 0 }).accept_many(
            count,
        ).next() is None,
{
    lemma_accept_many(BatchModel { messages, published: 0 }, count);
}

proof fn lemma_accept_many<T>(batch: BatchModel<T>, count: nat)
    requires
        batch.published + count <= batch.messages.len(),
    ensures
        batch.accept_many(count) == (BatchModel {
            messages: batch.messages,
            published: batch.published + count,
        }),
    decreases count,
{
    if count > 0 {
        lemma_accept_many(batch.accept(), (count - 1) as nat);
    }
}

/// What to do after a poll of the queue that is being drained.
#[derive(Debug)]
pub enum DrainStep<T, E> {
    /// The poll gave a message: poll again.
    Poll(Drain<T>),
    /// The queue was empty: these are the messages, in the order in which the
    /// broker delivered them.
    Done(Vec<T>),
    /// The poll failed: the drain is over, with the broker's error.
    Failed(E),
}

/// The messages that a drain has taken off a queue so far, in the order in
/// which the broker delivered them.
#[derive(Debug)]
pub struct Drain<T> {
    collected: Vec<T>,
}

impl<T> View for Drain<T> {
    type V = Seq<T>;

    closed spec fn view(&self) -> Seq<T> {
        self.collected@
    }
}

/// What a drain that has collected `collected` makes of the poll `polled`.
pub open spec fn spec_drain_step<T, E>(collected: Seq<T>, polled: Result<Option<T>, E>) -> Result<
    (bool, Seq<T>),
    E,
> {
    match polled {
        Ok(Some(message)) => Ok((false, collected.push(message))),
        Ok(None) => Ok((true, collected)),
        Err(error) => Err(error),
    }
}

impl<T> Drain<T> {
    /// A drain that has collected nothing yet.
    pub fn new() -> (drain: Self)
        ensures
            drain@ == Seq::<T>::empty(),
    {
        Drain { collected: Vec::new() }
    }

    /// Takes the outcome of one poll. A message is appended to what was
    /// collected and the queue is to be polled again; an empty queue ends the
    /// drain with everything collected; a failed poll ends it with the error.
    pub fn on_poll<E>(self, polled: Result<Option<T>, E>) -> (step: DrainStep<T, E>)
        ensures
            match step {
                DrainStep::Poll(drain) => spec_drain_step(self@, polled) == Ok::<
                    (bool, Seq<T>),
                    E,
                >((false, drain@)),
                DrainStep::Done(messages) => spec_drain_step(self@, polled) == Ok::<
                    (bool, Seq<T>),
                    E,
                >((true, messages@)),
                DrainStep::Failed(error) => spec_drain_step(self@, polled) == Err::<
                    (bool, Seq<T>),
                    E,
                >(error),
            },
    {
        let mut collected = self.collected;
        match polled {
            Ok(Some(message)) => {
                collected.push(message);
                DrainStep::Poll(Drain { collected })
            },
            Ok(None) => DrainStep::Done(collected),
            Err(error) => DrainStep::Failed(error),
        }
    }
}

/// What has been collected after the broker delivered `delivered`, one
/// message per poll, to a drain that had collected `collected`.
pub open spec fn spec_collect<T>(collected: Seq<T>, delivered: Seq<T>) -> Seq<T>
    decreases delivered.len(),
{
    if delivered.len() == 0 {
        collected
    } else {
        spec_collect(collected.push(delivered[0]), delivered.drop_first())
    }
}

/// A drain returns the messages in the order in which the broker delivered
/// them: polls that give the messages of `delivered` one after the other,
/// followed by a poll that finds the queue empty, end in exactly `delivered`.
pub proof fn lemma_drain_keeps_delivery_order<T, E>(delivered: Seq<T>)
    ensures
        spec_collect(Seq::<T>::empty(), delivered) == delivered,
        spec_drain_step::<T, E>(spec_collect(Seq::<T>::empty(), delivered), Ok(None)) == Ok::<
            (bool, Seq<T>),
            E,
        >((true, delivered)),
{
    lemma_collect_appends(Seq::<T>::empty(), delivered);
    assert(Seq::<T>::empty() + delivered =~= delivered);
}

proof fn lemma_collect_appends<T>(collected: Seq<T>, delivered: Seq<T>)
    ensures
        spec_collect(collected, delivered) == collected + delivered,
    decreases delivered.len(),
{
    if delivered.len() == 0 {
        assert(collected + delivered =~= collected);
    } else {
        lemma_collect_appends(collected.push(delivered[0]), delivered.drop_first());
        assert(collected.push(delivered[0]) + delivered.drop_first() =~= collected + delivered);
    }
}

} // verus!
