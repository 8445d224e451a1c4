//! The signaller: the session driver together with the event channel it
//! consumes. Producers (the media engine's callbacks and the gather timer)
//! enqueue events without blocking; the consumer drains them strictly in
//! arrival order and hands each resulting action to the embedding program.

use vstd::prelude::*;

use crate::channel::{channel_closed, channel_contents, EventChannel, EVENT_QUEUE_CAPACITY};
use crate::errors::SignallerError;
use crate::events::{EventView, WhipMessage};
use crate::session::{actions_view, run, step_spec, Session, SessionAction, SessionView};

verus! {

/// What one consumer step found.
pub enum ProcessOutcome {
    /// One event was consumed; the embedding program owes this action.
    Acted(SessionAction),
    /// No event is buffered but the channel is still open: wait for more.
    Idle,
    /// The channel is closed and fully drained: the consumer loop is done.
    Done,
}

/// The session driver and its event channel, for exactly one active session.
pub struct Signaller {
    /// The bounded event queue between the producers and the driver.
    pub channel: EventChannel,
    /// The session state machine; the embedding program folds POST and DELETE
    /// outcomes into it directly.
    pub session: Session,
}

impl Signaller {
    /// The events waiting in the channel, oldest first.
    pub closed spec fn pending_events(&self) -> Seq<EventView> {
        channel_contents(&self.channel)
    }

    /// Whether the channel has been closed by `stop`.
    pub closed spec fn queue_closed(&self) -> bool {
        channel_closed(&self.channel)
    }

    /// Start a session toward the configured remote ingestion endpoint. The
    /// endpoint is mandatory: without it no session starts and the fatal
    /// `ConfigurationMissing` is reported before any network activity.
    pub fn connect(endpoint: Option<String>) -> (r: Result<Signaller, SignallerError>)
        ensures
            endpoint is None ==> (r matches Err(e) && e == SignallerError::ConfigurationMissing),
            endpoint is Some ==> (r matches Ok(s) && s.session.wf() && s.session@
                == SessionView::initial(endpoint.unwrap()@) && s.pending_events()
                == Seq::<EventView>::empty() && !s.queue_closed()),
    {
        match endpoint {
            Some(ep) => Ok(Signaller { channel: EventChannel::new(), session: Session::new(ep) }),
            None => Err(SignallerError::ConfigurationMissing),
        }
    }

    /// Enqueue one locally gathered ICE candidate. Does not block: when the
    /// channel is full or closed this fails with `ChannelSendFailed`, which
    /// the caller reports to the media engine.
    pub fn handle_ice(
        &mut self,
        peer_id: &str,
        candidate: &str,
        sdp_m_line_index: Option<u32>,
        _sdp_mid: Option<String>,
    ) -> (r: Result<(), SignallerError>)
        requires
            old(self).session.wf(),
            sdp_m_line_index is Some,
        ensures
            final(self).session.wf(),
            final(self).session == old(self).session,
            final(self).queue_closed() == old(self).queue_closed(),
            r is Ok ==> !old(self).queue_closed(),
            r is Ok ==> final(self).pending_events() == old(self).pending_events().push(
                EventView::Ice {
                    id: peer_id@,
                    candidate: candidate@,
                    candix: sdp_m_line_index.unwrap(),
                },
            ),
            r is Err ==> r == Err::<(), SignallerError>(SignallerError::ChannelSendFailed)
                && final(self).pending_events() == old(self).pending_events(),
            !old(self).queue_closed() && old(self).pending_events().len()
                <= EVENT_QUEUE_CAPACITY as nat ==> r is Ok,
    {
        let msg = WhipMessage::Ice {
            id: peer_id.to_owned(),
            candidate: candidate.to_owned(),
            candix: sdp_m_line_index.unwrap(),
        };
        match self.channel.send(msg) {
            Ok(()) => Ok(()),
            Err(()) => Err(SignallerError::ChannelSendFailed),
        }
    }

    /// Enqueue the local SDP offer text. Does not block; failures are
    /// `ChannelSendFailed` as for candidates.
    pub fn handle_sdp(&mut self, peer_id: &str, sdp: String) -> (r: Result<(), SignallerError>)
        requires
            old(self).session.wf(),
        ensures
            final(self).session.wf(),
            final(self).session == old(self).session,
            final(self).queue_closed() == old(self).queue_closed(),
            r is Ok ==> !old(self).queue_closed(),
            r is Ok ==> final(self).pending_events() == old(self).pending_events().push(
                EventView::Sdp { id: peer_id@, sdp: sdp@ },
            ),
            r is Err ==> r == Err::<(), SignallerError>(SignallerError::ChannelSendFailed)
                && final(self).pending_events() == old(self).pending_events(),
            !old(self).queue_closed() && old(self).pending_events().len()
                <= EVENT_QUEUE_CAPACITY as nat ==> r is Ok,
    {
        let msg = WhipMessage::Sdp { id: peer_id.to_owned(), sdp };
        match self.channel.send(msg) {
            Ok(()) => Ok(()),
            Err(()) => Err(SignallerError::ChannelSendFailed),
        }
    }

    /// Enqueue the removal of the peer, asking the session to tear down.
    pub fn consumer_removed(&mut self, peer_id: &str) -> (r: Result<(), SignallerError>)
        requires
            old(self).session.wf(),
        ensures
            final(self).session.wf(),
            final(self).session == old(self).session,
            final(self).queue_closed() == old(self).queue_closed(),
            r is Ok ==> !old(self).queue_closed(),
            r is Ok ==> final(self).pending_events() == old(self).pending_events().push(
                EventView::ConsumerRemoved { id: peer_id@ },
            ),
            r is Err ==> r == Err::<(), SignallerError>(SignallerError::ChannelSendFailed)
                && final(self).pending_events() == old(self).pending_events(),
            !old(self).queue_closed() && old(self).pending_events().len()
                <= EVENT_QUEUE_CAPACITY as nat ==> r is Ok,
    {
        let msg = WhipMessage::ConsumerRemoved { id: peer_id.to_owned() };
        match self.channel.send(msg) {
            Ok(()) => Ok(()),
            Err(()) => Err(SignallerError::ChannelSendFailed),
        }
    }

    /// Enqueue the firing of the one-shot gather-completion timer. The timer
    /// task owns only the peer identifier and a way to reach this producer;
    /// it mutates no shared state itself.
    pub fn gather_timeout(&mut self, peer_id: String) -> (r: Result<(), SignallerError>)
        requires
            old(self).session.wf(),
        ensures
            final(self).session.wf(),
            final(self).session == old(self).session,
            final(self).queue_closed() == old(self).queue_closed(),
            r is Ok ==> !old(self).queue_closed(),
            r is Ok ==> final(self).pending_events() == old(self).pending_events().push(
                EventView::GatherTimeout { id: peer_id@ },
            ),
            r is Err ==> r == Err::<(), SignallerError>(SignallerError::ChannelSendFailed)
                && final(self).pending_events() == old(self).pending_events(),
            !old(self).queue_closed() && old(self).pending_events().len()
                <= EVENT_QUEUE_CAPACITY as nat ==> r is Ok,
    {
        let msg = WhipMessage::GatherTimeout { id: peer_id };
        match self.channel.send(msg) {
            Ok(()) => Ok(()),
            Err(()) => Err(SignallerError::ChannelSendFailed),
        }
    }

    /// Consume the next buffered event, if any, strictly in arrival order,
    /// and return the action owed for it.
    pub fn process_next(&mut self) -> (r: ProcessOutcome)
        requires
            old(self).session.wf(),
        ensures
            final(self).session.wf(),
            final(self).queue_closed() == old(self).queue_closed(),
            (match r {
                ProcessOutcome::Acted(a) => old(self).pending_events().len() > 0
                    && final(self).pending_events() == old(self).pending_events().drop_first()
                    && final(self).session@ == step_spec(
                    old(self).session@,
                    old(self).pending_events()[0],
                ).0 && a@ == step_spec(old(self).session@, old(self).pending_events()[0]).1,
                ProcessOutcome::Idle => !old(self).queue_closed() && old(self).pending_events().len()
                    == 0 && final(self).pending_events() == old(self).pending_events()
                    && final(self).session == old(self).session,
                ProcessOutcome::Done => old(self).queue_closed() && old(self).pending_events().len()
                    == 0 && final(self).pending_events() == old(self).pending_events()
                    && final(self).session == old(self).session,
            }),
    {
        match self.channel.next() {
            Ok(Some(msg)) => ProcessOutcome::Acted(self.session.step(msg)),
            Ok(None) => ProcessOutcome::Done,
            Err(()) => ProcessOutcome::Idle,
        }
    }

    /// Stop the driver: close the channel so that producers fail loudly from
    /// now on, then drain and consume every event still buffered, in arrival
    /// order, losing none. Returns the actions owed for the drained events.
    /// The drain provably terminates, so `stop` always returns.
    pub fn stop(&mut self) -> (actions: Vec<SessionAction>)
        requires
            old(self).session.wf(),
        ensures
            final(self).session.wf(),
            final(self).queue_closed(),
            final(self).pending_events().len() == 0,
            final(self).session@ == run(old(self).session@, old(self).pending_events()).0,
            actions_view(actions@) == run(old(self).session@, old(self).pending_events()).1,
    {
        self.channel.close();
        let ghost s0 = self.session@;
        let ghost evs0 = channel_contents(&self.channel);
        let mut actions: Vec<SessionAction> = Vec::new();
        loop
            invariant
                self.session.wf(),
                channel_closed(&self.channel),
                s0 == old(self).session@,
                evs0 == old(self).pending_events(),
                run(s0, evs0).0 == run(self.session@, channel_contents(&self.channel)).0,
                run(s0, evs0).1 == actions_view(actions@) + run(
                    self.session@,
                    channel_contents(&self.channel),
                ).1,
            decreases channel_contents(&self.channel).len(),
        {
            let ghost pre = self.session@;
            let ghost pending = channel_contents(&self.channel);
            let ghost done = actions@;
            match self.channel.next() {
                Ok(Some(msg)) => {
                    let a = self.session.step(msg);
                    actions.push(a);
                    proof {
                        let rest = run(self.session@, channel_contents(&self.channel)).1;
                        assert(run(pre, pending).1 == seq![a@] + rest);
                        assert(actions_view(actions@) =~= actions_view(done) + seq![a@]);
                        assert(actions_view(done) + (seq![a@] + rest) =~= (actions_view(done)
                            + seq![a@]) + rest);
                    }
                },
                Ok(None) => {
                    proof {
                        assert(actions_view(actions@) + run(
                            self.session@,
                            channel_contents(&self.channel),
                        ).1 =~= actions_view(actions@));
                    }
                    return actions;
                },
                Err(()) => {
                    proof {
                        assert(false);
                    }
                    return actions;
                },
            }
        }
    }
}

} // verus!
