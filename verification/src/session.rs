//! The session driver's state machine: one active negotiation, consuming
//! signalling events and deciding which outside action (arm the gather timer,
//! POST, DELETE) the embedding program must perform next.
//!
//! Every transition is a pure decision from the current state and one event;
//! the executable `step` is proved to follow the mathematical transition
//! function `step_spec`, and the crate's laws are proved about `step_spec`.

use vstd::prelude::*;

use crate::errors::SignallerError;
use crate::events::{EventView, WhipMessage};
use crate::sdp::{end_marker, AccView, SdpAccumulator};

verus! {

/// The fixed gather-completion delay, in milliseconds: how long after the
/// offer the one-shot timer waits before injecting `GatherTimeout`. The delay
/// stands in for an explicit end-of-candidates signal; an embedding program
/// that needs another trade-off can arm the timer with its own value.
pub const GATHER_DELAY_MS: u64 = 500;

/// The phases a session passes through. Before `connect` succeeds no session
/// value exists at all: that is the idle state of the design.
#[derive(Clone, Copy, Debug, PartialEq, Eq, Structural)]
pub enum Phase {
    /// Accepting ICE candidates and one SDP offer.
    Gathering,
    /// The composite document has been handed out for the one POST.
    Posting,
    /// The POST succeeded and the answer was delivered.
    Negotiated,
    /// Peer removal was seen; the DELETE has been handed out.
    Terminating,
    /// The DELETE completed (successfully or not); all work is done.
    Closed,
    /// An error was reported; the session is not retried.
    Errored,
}

/// What the embedding program must do after one event was consumed.
pub enum SessionAction {
    /// The event does not apply in the current phase; at most log a warning.
    Ignored,
    /// A candidate line was folded into the document; nothing to do outside.
    Folded,
    /// The offer was folded: arm the one-shot gather-completion timer, and
    /// after the configured delay feed a `GatherTimeout` event back in.
    ArmTimer { peer_id: String },
    /// Submit `body` as one HTTP POST with content type `application/sdp` to
    /// the configured endpoint, then report the outcome to the session.
    Post { peer_id: String, body: String },
    /// Issue the HTTP DELETE against the endpoint with its path replaced by
    /// the stored remote location, then report completion to the session.
    Delete { location: Option<String> },
}

/// The mathematical value of a `SessionAction`.
#[verifier::ext_equal]
pub enum ActionView {
    Ignored,
    Folded,
    ArmTimer { peer_id: Seq<char> },
    Post { peer_id: Seq<char>, body: Seq<char> },
    Delete { location: Option<Seq<char>> },
}

/// The mathematical value of an optional owned string.
pub open spec fn opt_str_view(o: Option<String>) -> Option<Seq<char>> {
    match o {
        Some(s) => Some(s@),
        None => None,
    }
}

impl View for SessionAction {
    type V = ActionView;

    open spec fn view(&self) -> ActionView {
        match self {
            SessionAction::Ignored => ActionView::Ignored,
            SessionAction::Folded => ActionView::Folded,
            SessionAction::ArmTimer { peer_id } => ActionView::ArmTimer { peer_id: peer_id@ },
            SessionAction::Post { peer_id, body } => ActionView::Post {
                peer_id: peer_id@,
                body: body@,
            },
            SessionAction::Delete { location } => ActionView::Delete {
                location: opt_str_view(*location),
            },
        }
    }
}

/// The parsed SDP answer together with the peer it belongs to; produced once
/// per successful POST and consumed exactly once by the media engine.
#[derive(Debug)]
pub struct RemoteAnswer {
    pub peer_id: String,
    pub sdp_text: String,
}

/// The mathematical value of a `RemoteAnswer`.
pub struct RemoteAnswerView {
    pub peer_id: Seq<char>,
    pub sdp_text: Seq<char>,
}

impl View for RemoteAnswer {
    type V = RemoteAnswerView;

    open spec fn view(&self) -> RemoteAnswerView {
        RemoteAnswerView { peer_id: self.peer_id@, sdp_text: self.sdp_text@ }
    }
}

/// The mathematical value of a session.
#[verifier::ext_equal]
pub struct SessionView {
    pub endpoint: Seq<char>,
    pub acc: AccView,
    pub phase: Phase,
    pub posted: bool,
    pub deleted: bool,
    pub location: Option<Seq<char>>,
}

impl SessionView {
    /// The state of a session the moment the connection is requested.
    pub open spec fn initial(endpoint: Seq<char>) -> SessionView {
        SessionView {
            endpoint,
            acc: AccView::empty(),
            phase: Phase::Gathering,
            posted: false,
            deleted: false,
            location: None,
        }
    }
}

/// The transition function of the session state machine: from a state and one
/// event to the next state and the action owed for it.
///
/// Policy choices, documented here once: ICE candidates are folded only while
/// the session is still gathering and are rejected (ignored, to be logged)
/// once the document has been handed out; a second SDP offer never re-arms the
/// timer and is ignored; a `GatherTimeout` without a preceding offer is
/// ignored, so an SDP-less document is never submitted; a repeated
/// `GatherTimeout` or `ConsumerRemoved` is ignored, so POST and DELETE are
/// each attempted at most once per session.
pub open spec fn step_spec(s: SessionView, ev: EventView) -> (SessionView, ActionView) {
    match ev {
        EventView::Ice { id, candidate, candix } => {
            if s.phase is Gathering {
                if s.acc.offer is None {
                    (
                        SessionView { acc: AccView { pre: s.acc.pre.push(candidate), ..s.acc }, ..s },
                        ActionView::Folded,
                    )
                } else {
                    (
                        SessionView {
                            acc: AccView { post: s.acc.post.push(candidate), ..s.acc },
                            ..s
                        },
                        ActionView::Folded,
                    )
                }
            } else {
                (s, ActionView::Ignored)
            }
        },
        EventView::Sdp { id, sdp } => {
            if s.phase is Gathering && s.acc.offer is None {
                (
                    SessionView { acc: AccView { offer: Some(sdp), ..s.acc }, ..s },
                    ActionView::ArmTimer { peer_id: id },
                )
            } else {
                (s, ActionView::Ignored)
            }
        },
        EventView::GatherTimeout { id } => {
            if s.phase is Gathering && s.acc.offer is Some {
                (
                    SessionView { phase: Phase::Posting, posted: true, ..s },
                    ActionView::Post { peer_id: id, body: s.acc.text() + end_marker() },
                )
            } else {
                (s, ActionView::Ignored)
            }
        },
        EventView::ConsumerRemoved { id } => {
            if !s.deleted {
                (
                    SessionView { phase: Phase::Terminating, deleted: true, ..s },
                    ActionView::Delete { location: s.location },
                )
            } else {
                (s, ActionView::Ignored)
            }
        },
    }
}

/// The machine run over a whole event sequence: the state after consuming
/// every event in order, and the action owed for each event, one per event.
pub open spec fn run(s: SessionView, evs: Seq<EventView>) -> (SessionView, Seq<ActionView>)
    decreases evs.len(),
{
    if evs.len() == 0 {
        (s, Seq::empty())
    } else {
        let first = step_spec(s, evs.first());
        let rest = run(first.0, evs.drop_first());
        (rest.0, seq![first.1] + rest.1)
    }
}

/// The mathematical values of a sequence of actions.
pub open spec fn actions_view(v: Seq<SessionAction>) -> Seq<ActionView> {
    v.map_values(|a: SessionAction| a@)
}

/// One signalling session: the accumulated document, the lifecycle flags and
/// the remote location learned from the POST response.
pub struct Session {
    endpoint: String,
    acc: SdpAccumulator,
    offer_received: bool,
    phase: Phase,
    posted: bool,
    deleted: bool,
    location: Option<String>,
}

impl View for Session {
    type V = SessionView;

    closed spec fn view(&self) -> SessionView {
        SessionView {
            endpoint: self.endpoint@,
            acc: self.acc@,
            phase: self.phase,
            posted: self.posted,
            deleted: self.deleted,
            location: opt_str_view(self.location),
        }
    }
}

impl Session {
    /// The session's text buffer and flags agree with its mathematical value.
    pub closed spec fn wf(&self) -> bool {
        &&& self.acc.wf()
        &&& self.offer_received == (self.acc@.offer is Some)
    }

    /// A fresh session in the gathering phase, bound to the configured
    /// ingestion endpoint.
    pub fn new(endpoint: String) -> (r: Session)
        ensures
            r.wf(),
            r@ == SessionView::initial(endpoint@),
    {
        let r = Session {
            endpoint,
            acc: SdpAccumulator::new(),
            offer_received: false,
            phase: Phase::Gathering,
            posted: false,
            deleted: false,
            location: None,
        };
        proof {
            assert(r@ =~= SessionView::initial(r.endpoint@));
        }
        r
    }

    /// Consume one signalling event: fold it into the session state and
    /// return the action the embedding program owes for it. Follows
    /// `step_spec` exactly.
    pub fn step(&mut self, ev: WhipMessage) -> (a: SessionAction)
        requires
            old(self).wf(),
        ensures
            final(self).wf(),
            final(self)@ == step_spec(old(self)@, ev@).0,
            a@ == step_spec(old(self)@, ev@).1,
    {
        match ev {
            WhipMessage::Ice { id: _, candidate, candix: _ } => {
                if self.phase == Phase::Gathering {
                    self.acc.append_candidate(candidate.as_str());
                    proof {
                        assert(self@ =~= step_spec(old(self)@, ev@).0);
                    }
                    SessionAction::Folded
                } else {
                    SessionAction::Ignored
                }
            },
            WhipMessage::Sdp { id, sdp } => {
                if self.phase == Phase::Gathering && !self.offer_received {
                    self.acc.append_offer(sdp.as_str());
                    self.offer_received = true;
                    proof {
                        assert(self@ =~= step_spec(old(self)@, ev@).0);
                    }
                    SessionAction::ArmTimer { peer_id: id }
                } else {
                    SessionAction::Ignored
                }
            },
            WhipMessage::GatherTimeout { id } => {
                if self.phase == Phase::Gathering && self.offer_received {
                    let body = self.acc.finalized_document();
                    self.phase = Phase::Posting;
                    self.posted = true;
                    proof {
                        assert(self@ =~= step_spec(old(self)@, ev@).0);
                        assert(SessionAction::Post { peer_id: id, body }@
                            =~= step_spec(old(self)@, ev@).1);
                    }
                    SessionAction::Post { peer_id: id, body }
                } else {
                    SessionAction::Ignored
                }
            },
            WhipMessage::ConsumerRemoved { id: _ } => {
                if !self.deleted {
                    self.deleted = true;
                    self.phase = Phase::Terminating;
                    let location = match &self.location {
                        Some(l) => Some(l.clone()),
                        None => None,
                    };
                    proof {
                        assert(self@ =~= step_spec(old(self)@, ev@).0);
                        assert(SessionAction::Delete { location }@
                            =~= step_spec(old(self)@, ev@).1);
                    }
                    SessionAction::Delete { location }
                } else {
                    SessionAction::Ignored
                }
            },
        }
    }

    /// The phase the session is in.
    pub fn phase(&self) -> (p: Phase)
        ensures
            p == self@.phase,
    {
        self.phase
    }

    /// Whether the POST has been attempted.
    pub fn posted(&self) -> (r: bool)
        ensures
            r == self@.posted,
    {
        self.posted
    }

    /// Whether the DELETE has been attempted.
    pub fn deleted(&self) -> (r: bool)
        ensures
            r == self@.deleted,
    {
        self.deleted
    }

    /// The remote session location learned from the POST response, if any.
    pub fn location(&self) -> (r: &Option<String>)
        ensures
            opt_str_view(*r) == self@.location,
    {
        &self.location
    }

    /// The configured remote ingestion endpoint.
    pub fn endpoint(&self) -> (r: &String)
        ensures
            r@ == self@.endpoint,
    {
        &self.endpoint
    }

    /// Fold the outcome of the one POST into the session, exactly as the
    /// design owes it: any status other than 201 is `UnexpectedStatus` with
    /// that code; a 201 whose body did not parse as an SDP answer (`answer`
    /// is then `None`) is `MalformedAnswer`; a 201 with a parsed answer
    /// stores the `Location` header value — the only point where the remote
    /// location is ever set — and yields the answer for the media engine. An
    /// answer is returned if and only if the status is 201 and the body
    /// parsed.
    pub fn handle_post_response(
        &mut self,
        peer_id: String,
        status: u16,
        location: Option<String>,
        answer: Option<String>,
    ) -> (r: Result<RemoteAnswer, SignallerError>)
        requires
            old(self).wf(),
            old(self)@.phase is Posting,
        ensures
            final(self).wf(),
            status != 201 ==> r == Err::<RemoteAnswer, SignallerError>(
                SignallerError::UnexpectedStatus(status),
            ) && final(self)@ == (SessionView { phase: Phase::Errored, ..old(self)@ }),
            status == 201 && answer is None ==> r == Err::<RemoteAnswer, SignallerError>(
                SignallerError::MalformedAnswer,
            ) && final(self)@ == (SessionView { phase: Phase::Errored, ..old(self)@ }),
            status == 201 && answer is Some ==> (r matches Ok(ans) && ans@.peer_id == peer_id@
                && ans@.sdp_text == answer.unwrap()@) && final(self)@ == (SessionView {
                phase: Phase::Negotiated,
                location: opt_str_view(location),
                ..old(self)@
            }),
            r is Ok <==> status == 201 && answer is Some,
    {
        if status != 201 {
            self.phase = Phase::Errored;
            proof {
                assert(self@ =~= (SessionView { phase: Phase::Errored, ..old(self)@ }));
            }
            Err(SignallerError::UnexpectedStatus(status))
        } else {
            match answer {
                None => {
                    self.phase = Phase::Errored;
                    proof {
                        assert(self@ =~= (SessionView { phase: Phase::Errored, ..old(self)@ }));
                    }
                    Err(SignallerError::MalformedAnswer)
                },
                Some(sdp_text) => {
                    self.phase = Phase::Negotiated;
                    self.location = location;
                    proof {
                        assert(self@ =~= (SessionView {
                            phase: Phase::Negotiated,
                            location: opt_str_view(location),
                            ..old(self)@
                        }));
                    }
                    Ok(RemoteAnswer { peer_id, sdp_text })
                },
            }
        }
    }

    /// Fold a transport-level POST failure into the session: the session is
    /// errored, the error to report is `TransportFailure`, and nothing else
    /// changes; the POST is not retried.
    pub fn handle_post_failure(&mut self) -> (r: SignallerError)
        requires
            old(self).wf(),
            old(self)@.phase is Posting,
        ensures
            final(self).wf(),
            r == SignallerError::TransportFailure,
            final(self)@ == (SessionView { phase: Phase::Errored, ..old(self)@ }),
    {
        self.phase = Phase::Errored;
        proof {
            assert(self@ =~= (SessionView { phase: Phase::Errored, ..old(self)@ }));
        }
        SignallerError::TransportFailure
    }

    /// Fold the completion of the DELETE into the session. The session
    /// reaches `Closed` whether the DELETE succeeded or not; a failure is
    /// reported as a non-fatal `TransportFailure`.
    pub fn delete_completed(&mut self, success: bool) -> (r: Option<SignallerError>)
        requires
            old(self).wf(),
            old(self)@.phase is Terminating,
        ensures
            final(self).wf(),
            final(self)@ == (SessionView { phase: Phase::Closed, ..old(self)@ }),
            success ==> r is None,
            !success ==> r == Some(SignallerError::TransportFailure),
    {
        self.phase = Phase::Closed;
        proof {
            assert(self@ =~= (SessionView { phase: Phase::Closed, ..old(self)@ }));
        }
        if success {
            None
        } else {
            Some(SignallerError::TransportFailure)
        }
    }
}

} // verus!
