//! The event channel: a bounded, ordered, multi-producer single-consumer
//! queue of signalling events, backed by a `futures::channel::mpsc` bounded
//! channel.
//!
//! Both endpoints of the channel share hidden state, so neither the sender nor
//! the receiver alone could carry the queue's contents in a contract. The
//! library therefore holds both ends in one opaque struct and states the
//! behaviour of each operation, as the crate's source shows it, over the two
//! names `channel_contents` and `channel_closed`.

use vstd::prelude::*;

use crate::events::{EventView, WhipMessage};

verus! {

/// Capacity of the event queue: deliberately large but finite, so that
/// producers get backpressure instead of unbounded piling up of messages.
pub const EVENT_QUEUE_CAPACITY: usize = 1000;

/// Both endpoints of one bounded mpsc channel of signalling events.
#[verifier::external_body]
pub struct EventChannel {
    sender: futures::channel::mpsc::Sender<WhipMessage>,
    receiver: futures::channel::mpsc::Receiver<WhipMessage>,
}

/// The events buffered in the channel, oldest first, as mathematical values.
pub uninterp spec fn channel_contents(c: &EventChannel) -> Seq<EventView>;

/// Whether the channel has been closed. A closed channel refuses further
/// sends; events already buffered can still be drained.
pub uninterp spec fn channel_closed(c: &EventChannel) -> bool;

impl EventChannel {
    /// Relies on `futures::channel::mpsc::channel`: a fresh bounded channel
    /// is empty and open.
    #[verifier::external_body]
    pub(crate) fn new() -> (r: EventChannel)
        ensures
            channel_contents(&r) == Seq::<EventView>::empty(),
            !channel_closed(&r),
    {
        let (sender, receiver) = futures::channel::mpsc::channel(EVENT_QUEUE_CAPACITY);
        EventChannel { sender, receiver }
    }

    /// Relies on `futures::channel::mpsc::Sender::try_send`: on `Ok` the
    /// message is appended to the queue; on `Err` (channel closed, or filled
    /// past its capacity) nothing changes. With the single sender held here,
    /// `try_send` accepts whenever the channel is open and at most
    /// `EVENT_QUEUE_CAPACITY` events are buffered.
    #[verifier::external_body]
    pub(crate) fn send(&mut self, msg: WhipMessage) -> (r: Result<(), ()>)
        ensures
            channel_closed(final(self)) == channel_closed(old(self)),
            r is Ok ==> !channel_closed(old(self)) && channel_contents(final(self))
                == channel_contents(old(self)).push(msg@),
            r is Err ==> channel_contents(final(self)) == channel_contents(old(self)),
            !channel_closed(old(self)) && channel_contents(old(self)).len()
                <= EVENT_QUEUE_CAPACITY as nat ==> r is Ok,
    {
        match self.sender.try_send(msg) {
            Ok(()) => Ok(()),
            Err(_) => Err(()),
        }
    }

    /// Relies on `futures::channel::mpsc::Receiver::try_next`: `Ok(Some)`
    /// pops the oldest buffered event; `Ok(None)` means the channel is closed
    /// and fully drained; `Err` means no event is buffered but the channel is
    /// still open.
    #[verifier::external_body]
    #[allow(deprecated)]
    pub(crate) fn next(&mut self) -> (r: Result<Option<WhipMessage>, ()>)
        ensures
            channel_closed(final(self)) == channel_closed(old(self)),
            (match r {
                Ok(m) => match m {
                    Some(ev) => channel_contents(old(self)).len() > 0
                        && ev@ == channel_contents(old(self))[0]
                        && channel_contents(final(self))
                            == channel_contents(old(self)).drop_first(),
                    None => channel_closed(old(self))
                        && channel_contents(old(self)).len() == 0
                        && channel_contents(final(self)) == channel_contents(old(self)),
                },
                Err(_) => !channel_closed(old(self))
                    && channel_contents(old(self)).len() == 0
                    && channel_contents(final(self)) == channel_contents(old(self)),
            }),
    {
        match self.receiver.try_next() {
            Ok(m) => Ok(m),
            Err(_) => Err(()),
        }
    }

    /// Relies on `futures::channel::mpsc::Sender::close_channel`: further
    /// sends are refused, while events already buffered stay to be drained.
    #[verifier::external_body]
    pub(crate) fn close(&mut self)
        ensures
            channel_closed(final(self)),
            channel_contents(final(self)) == channel_contents(old(self)),
    {
        self.sender.close_channel();
    }
}

} // verus!
