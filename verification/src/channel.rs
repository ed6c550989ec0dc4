//! The result channel between the background poller and its consumer: a
//! single-producer FIFO of poll outcomes. Publishing appends at the back;
//! draining removes the oldest outcome without ever blocking. No outcome is
//! lost, replayed, coalesced or reordered.

use vstd::prelude::*;

use crate::spot::Spot;

verus! {

/// One outcome of a poll cycle, published exactly once per cycle.
pub enum PollOutcome {
    /// No successful cycle yet; a sentinel, not an error.
    Loading,
    /// A failed cycle: an HTTP status line or a decode error message.
    Failure(String),
    /// A successful cycle: the predicted events, in service order.
    Success(Vec<Spot>),
}

/// The outcome FIFO. The queue is unbounded by construction; it grows only
/// as far as the producer outpaces the drains.
pub struct ResultChannel {
    queue: Vec<PollOutcome>,
}

impl ResultChannel {
    /// The queued outcomes, oldest first.
    pub closed spec fn queued(self) -> Seq<PollOutcome> {
        self.queue@
    }

    /// An empty channel.
    pub fn new() -> (r: ResultChannel)
        ensures
            r.queued() == Seq::<PollOutcome>::empty(),
    {
        ResultChannel { queue: Vec::new() }
    }

    /// The channel as a poller hands it out: the loading sentinel is already
    /// queued, so a consumer that drains right after start never mistakes
    /// silence for failure.
    pub fn start() -> (r: ResultChannel)
        ensures
            r.queued() == seq![PollOutcome::Loading],
    {
        let mut channel = ResultChannel::new();
        channel.publish(PollOutcome::Loading);
        proof {
            assert(channel.queued() =~= seq![PollOutcome::Loading]);
        }
        channel
    }

    /// Appends one outcome at the back of the queue.
    pub fn publish(&mut self, outcome: PollOutcome)
        ensures
            final(self).queued() == old(self).queued().push(outcome),
    {
        self.queue.push(outcome);
    }

    /// Removes and returns the oldest queued outcome; nothing when the queue
    /// is empty. Never blocks the caller.
    pub fn drain(&mut self) -> (r: Option<PollOutcome>)
        ensures
            old(self).queued().len() == 0 ==> r is None
                && final(self).queued() == old(self).queued(),
            old(self).queued().len() > 0 ==> r == Some(old(self).queued()[0])
                && final(self).queued() == old(self).queued().drop_first(),
    {
        if self.queue.len() == 0 {
            None
        } else {
            let outcome = self.queue.remove(0);
            proof {
                assert(self.queue@ =~= old(self).queued().drop_first());
            }
            Some(outcome)
        }
    }
}

/// Law: outcomes come back in publish order, one per drain. Over the queue
/// model that `publish` and `drain` are specified with: after `a` and then
/// `b` are published on an empty channel, the first drain yields `a`, the
/// second yields `b`, and a third finds the channel empty.
pub proof fn lemma_channel_fifo(a: PollOutcome, b: PollOutcome)
    ensures
        ({
            let q = Seq::<PollOutcome>::empty().push(a).push(b);
            &&& q.len() == 2
            &&& q[0] == a
            &&& q.drop_first()[0] == b
            &&& q.drop_first().drop_first().len() == 0
        }),
{
}

} // verus!
