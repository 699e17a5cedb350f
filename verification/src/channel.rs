//! The delivery path from completed requests to the polling loop.

use std::collections::VecDeque;
use crate::outcome::TransportOutcome;
use vstd::prelude::*;

verus! {

/// An unbounded first-in-first-out queue of outcomes. Outcomes leave in the
/// order in which they were sent, whatever the order of the requests.
pub struct ResultChannel {
    queue: VecDeque<TransportOutcome>,
}

impl View for ResultChannel {
    type V = Seq<TransportOutcome>;

    closed spec fn view(&self) -> Seq<TransportOutcome> {
        self.queue@
    }
}

/// The queue after `outcome` was sent on `queue`.
pub open spec fn after_send(queue: Seq<TransportOutcome>, outcome: TransportOutcome) -> Seq<
    TransportOutcome,
> {
    queue.push(outcome)
}

/// What a receive hands out of `queue`: its oldest outcome, if it has one.
pub open spec fn received(queue: Seq<TransportOutcome>) -> Option<TransportOutcome> {
    if queue.len() > 0 {
        Some(queue[0])
    } else {
        None
    }
}

/// The queue after one receive on `queue`.
pub open spec fn after_receive(queue: Seq<TransportOutcome>) -> Seq<TransportOutcome> {
    if queue.len() > 0 {
        queue.subrange(1, queue.len() as int)
    } else {
        queue
    }
}

impl ResultChannel {
    /// An empty channel.
    pub fn new() -> (r: Self)
        ensures
            r@ == Seq::<TransportOutcome>::empty(),
    {
        ResultChannel { queue: VecDeque::new() }
    }

    /// Puts `outcome` behind all those sent before it. Never fails.
    pub fn send(&mut self, outcome: TransportOutcome)
        ensures
            final(self)@ == after_send(old(self)@, outcome),
    {
        self.queue.push_back(outcome);
    }

    /// Takes the oldest outcome out, or returns `None` at once where the
    /// channel is empty, which it then leaves as it was.
    pub fn try_receive(&mut self) -> (r: Option<TransportOutcome>)
        ensures
            r == received(old(self)@),
            final(self)@ == after_receive(old(self)@),
    {
        self.queue.pop_front()
    }

    /// The number of outcomes that wait.
    pub fn len(&self) -> (r: usize)
        ensures
            r == self@.len(),
    {
        self.queue.len()
    }

    /// Whether no outcome waits.
    pub fn is_empty(&self) -> (r: bool)
        ensures
            r == (self@.len() == 0),
    {
        self.queue.len() == 0
    }
}

/// A receive on an empty channel yields nothing and changes nothing.
pub proof fn lemma_receive_on_empty(queue: Seq<TransportOutcome>)
    requires
        queue.len() == 0,
    ensures
        received(queue) is None,
        after_receive(queue) == queue,
{
}

/// One send on an empty channel is answered by exactly one receive: the first
/// receive hands out the outcome that was sent, and every later one finds the
/// channel empty.
pub proof fn lemma_one_send_one_receive(outcome: TransportOutcome)
    ensures
        received(after_send(Seq::empty(), outcome)) == Some(outcome),
        after_receive(after_send(Seq::empty(), outcome)) == Seq::<TransportOutcome>::empty(),
        received(after_receive(after_send(Seq::empty(), outcome))) is None,
{
    let q = after_send(Seq::<TransportOutcome>::empty(), outcome);
    assert(q.len() == 1);
    assert(after_receive(q) =~= Seq::<TransportOutcome>::empty());
}

/// Outcomes leave in the order in which they were sent: after two sends on an
/// empty channel the first receive hands out the first outcome sent, and the
/// second receive the second.
pub proof fn lemma_send_order_kept(first: TransportOutcome, second: TransportOutcome)
    ensures
        received(after_send(after_send(Seq::empty(), first), second)) == Some(first),
        received(after_receive(after_send(after_send(Seq::empty(), first), second))) == Some(
            second,
        ),
{
    let q = after_send(after_send(Seq::<TransportOutcome>::empty(), first), second);
    assert(q.len() == 2);
    assert(after_receive(q) =~= seq![second]);
}

/// A send never loses what waits: the queue grows by one, and a receive on a
/// channel that held something before the send hands out what it would have
/// handed out without it.
pub proof fn lemma_send_keeps_front(queue: Seq<TransportOutcome>, outcome: TransportOutcome)
    requires
        queue.len() > 0,
    ensures
        after_send(queue, outcome).len() == queue.len() + 1,
        received(after_send(queue, outcome)) == received(queue),
        after_receive(after_send(queue, outcome)) == after_send(after_receive(queue), outcome),
{
    assert(after_receive(after_send(queue, outcome)) =~= after_send(
        after_receive(queue),
        outcome,
    ));
}

} // verus!
