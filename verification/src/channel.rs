//! The delivery channel: the conduit carrying price observations from
//! every stream session to the single consumer.
//!
//! The buffer is deliberately unbounded: producers must never wait on a
//! slow or absent consumer, so a send always succeeds while the receiving
//! side is open, and a stalled consumer trades memory growth for producer
//! liveness. The consumer polls non-blockingly and can tell "nothing right
//! now" from "nothing ever again": see [`PollOutcome`].

use vstd::prelude::*;
use crate::error::TickerError;
use crate::exchange::PriceUpdate;

verus! {

/// The three-way result of one non-blocking poll.
#[derive(Debug, Clone)]
pub enum PollOutcome {
    /// The oldest buffered observation, now handed to the consumer.
    Item(PriceUpdate),
    /// No observation is available this instant; more may come.
    Empty,
    /// No producer will ever send again and the buffer is drained.
    Closed,
}

/// An unbounded first-in first-out conduit from the stream sessions to
/// the consumer. Observations are handed over in send order, so each
/// session's observations reach the consumer in the order that session
/// produced them.
#[derive(Debug)]
pub struct DeliveryChannel {
    /// The buffered observations, oldest first.
    pub queue: Vec<PriceUpdate>,
    /// Whether the receiving side is gone.
    pub closed: bool,
}

impl DeliveryChannel {
    /// An open, empty channel.
    pub fn new() -> (c: DeliveryChannel)
        ensures
            c.queue@.len() == 0,
            !c.closed,
    {
        DeliveryChannel { queue: Vec::new(), closed: false }
    }

    /// Attempt to send one observation, without blocking: appended to the
    /// buffer while the channel is open; refused with a channel error, and
    /// the buffer left as it is, exactly when the receiving side is gone.
    pub fn send(&mut self, update: PriceUpdate) -> (r: Result<(), TickerError>)
        ensures
            final(self).closed == old(self).closed,
            old(self).closed ==> {
                &&& final(self).queue@ == old(self).queue@
                &&& r matches Err(e) && e matches TickerError::ChannelError(m)
                    && m@ == "sending on a closed channel"@
            },
            !old(self).closed ==> {
                &&& r is Ok
                &&& final(self).queue@ == old(self).queue@.push(update)
            },
    {
        if self.closed {
            Err(TickerError::ChannelError("sending on a closed channel".to_owned()))
        } else {
            self.queue.push(update);
            Ok(())
        }
    }

    /// One non-blocking poll by the consumer: the oldest observation when
    /// one is buffered, `Empty` when the buffer is empty but the channel
    /// still open, and `Closed` when the buffer is empty and no producer
    /// will ever send again.
    pub fn poll(&mut self) -> (r: PollOutcome)
        ensures
            final(self).closed == old(self).closed,
            old(self).queue@.len() > 0 ==> {
                &&& final(self).queue@ == old(self).queue@.skip(1)
                &&& r matches PollOutcome::Item(u) && u == old(self).queue@[0]
            },
            old(self).queue@.len() == 0 ==> {
                &&& final(self).queue@ == old(self).queue@
                &&& r == (if old(self).closed {
                    PollOutcome::Closed
                } else {
                    PollOutcome::Empty
                })
            },
    {
        if self.queue.len() > 0 {
            let u = self.queue.remove(0);
            proof {
                assert(old(self).queue@.remove(0) =~= old(self).queue@.skip(1));
            }
            PollOutcome::Item(u)
        } else if self.closed {
            PollOutcome::Closed
        } else {
            PollOutcome::Empty
        }
    }

    /// The receiving side goes away: every further send is refused; what
    /// is already buffered stays readable.
    pub fn close(&mut self)
        ensures
            final(self).closed,
            final(self).queue@ == old(self).queue@,
    {
        self.closed = true;
    }
}

} // verus!
