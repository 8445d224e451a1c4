use whip_signaller::errors::SignallerError;
use whip_signaller::events::WhipMessage;
use whip_signaller::session::{Phase, Session, SessionAction};

const ENDPOINT: &str = "http://example.com:8080/whip";

fn fresh() -> Session {
    Session::new(ENDPOINT.to_string())
}

/// Drive a fresh session through one candidate, the offer and the timeout,
/// returning the session and the POST body it handed out.
fn posted() -> (Session, String) {
    let mut s = fresh();
    let a = s.step(WhipMessage::Ice {
        id: "xid".to_string(),
        candidate: "candidate:1 1 UDP ...".to_string(),
        candix: 0,
    });
    assert!(matches!(a, SessionAction::Folded));
    let a = s.step(WhipMessage::Sdp { id: "xid".to_string(), sdp: "v=0\r\no=- ...\r\n".to_string() });
    match a {
        SessionAction::ArmTimer { peer_id } => assert_eq!(peer_id, "xid"),
        _ => panic!("offer should arm the gather timer"),
    }
    let a = s.step(WhipMessage::GatherTimeout { id: "xid".to_string() });
    match a {
        SessionAction::Post { peer_id, body } => {
            assert_eq!(peer_id, "xid");
            (s, body)
        }
        _ => panic!("gather timeout should hand out the POST"),
    }
}

#[test]
fn gathered_post_body_is_exact() {
    let (s, body) = posted();
    assert_eq!(body, "a=candidate:1 1 UDP ...\nv=0\r\no=- ...\r\na=end-of-candidates\n");
    assert_eq!(s.phase(), Phase::Posting);
    assert!(s.posted());
}

#[test]
fn post_status_200_is_unexpected_status_and_no_answer() {
    let (mut s, _body) = posted();
    let r = s.handle_post_response(
        "xid".to_string(),
        200,
        Some("/sessions/42".to_string()),
        Some("v=0\r\n".to_string()),
    );
    assert_eq!(r.unwrap_err(), SignallerError::UnexpectedStatus(200));
    assert_eq!(s.phase(), Phase::Errored);
    assert_eq!(s.location(), &None);
}

#[test]
fn post_201_unparsable_body_is_malformed_answer_and_no_answer() {
    let (mut s, _body) = posted();
    let r = s.handle_post_response("xid".to_string(), 201, Some("/sessions/42".to_string()), None);
    assert_eq!(r.unwrap_err(), SignallerError::MalformedAnswer);
    assert_eq!(s.phase(), Phase::Errored);
    assert_eq!(s.location(), &None);
}

#[test]
fn post_201_with_answer_stores_location_and_yields_answer() {
    let (mut s, _body) = posted();
    let r = s.handle_post_response(
        "xid".to_string(),
        201,
        Some("/sessions/42".to_string()),
        Some("v=0\r\no=answer\r\n".to_string()),
    );
    let answer = r.unwrap();
    assert_eq!(answer.peer_id, "xid");
    assert_eq!(answer.sdp_text, "v=0\r\no=answer\r\n");
    assert_eq!(s.phase(), Phase::Negotiated);
    assert_eq!(s.location(), &Some("/sessions/42".to_string()));
}

#[test]
fn delete_targets_stored_location() {
    let (mut s, _body) = posted();
    s.handle_post_response(
        "xid".to_string(),
        201,
        Some("/sessions/42".to_string()),
        Some("v=0\r\n".to_string()),
    )
    .unwrap();
    let a = s.step(WhipMessage::ConsumerRemoved { id: "xid".to_string() });
    match a {
        SessionAction::Delete { location } => {
            assert_eq!(location, Some("/sessions/42".to_string()));
        }
        _ => panic!("peer removal should hand out the DELETE"),
    }
    assert_eq!(s.phase(), Phase::Terminating);
    assert!(s.deleted());
    assert_eq!(s.delete_completed(true), None);
    assert_eq!(s.phase(), Phase::Closed);
}

#[test]
fn transport_failure_errors_the_session() {
    let (mut s, _body) = posted();
    let e = s.handle_post_failure();
    assert_eq!(e, SignallerError::TransportFailure);
    assert_eq!(s.phase(), Phase::Errored);
}

#[test]
fn delete_failure_is_reported_but_still_closes() {
    let mut s = fresh();
    let a = s.step(WhipMessage::ConsumerRemoved { id: "xid".to_string() });
    match a {
        SessionAction::Delete { location } => assert_eq!(location, None),
        _ => panic!("peer removal should hand out the DELETE even before any POST"),
    }
    assert_eq!(s.delete_completed(false), Some(SignallerError::TransportFailure));
    assert_eq!(s.phase(), Phase::Closed);
}

#[test]
fn second_offer_never_rearms_the_timer() {
    let mut s = fresh();
    let a = s.step(WhipMessage::Sdp { id: "xid".to_string(), sdp: "v=0\r\n".to_string() });
    assert!(matches!(a, SessionAction::ArmTimer { .. }));
    let a = s.step(WhipMessage::Sdp { id: "xid".to_string(), sdp: "v=1\r\n".to_string() });
    assert!(matches!(a, SessionAction::Ignored));
    // the document still holds only the first offer
    let a = s.step(WhipMessage::GatherTimeout { id: "xid".to_string() });
    match a {
        SessionAction::Post { body, .. } => assert_eq!(body, "v=0\r\na=end-of-candidates\n"),
        _ => panic!("gather timeout should hand out the POST"),
    }
}

#[test]
fn post_attempted_only_once() {
    let (mut s, _body) = posted();
    let a = s.step(WhipMessage::GatherTimeout { id: "xid".to_string() });
    assert!(matches!(a, SessionAction::Ignored));
    assert_eq!(s.phase(), Phase::Posting);
}

#[test]
fn delete_attempted_only_once() {
    let mut s = fresh();
    let a = s.step(WhipMessage::ConsumerRemoved { id: "xid".to_string() });
    assert!(matches!(a, SessionAction::Delete { .. }));
    let a = s.step(WhipMessage::ConsumerRemoved { id: "xid".to_string() });
    assert!(matches!(a, SessionAction::Ignored));
}

#[test]
fn gather_timeout_before_offer_is_ignored() {
    let mut s = fresh();
    let a = s.step(WhipMessage::GatherTimeout { id: "xid".to_string() });
    assert!(matches!(a, SessionAction::Ignored));
    assert!(!s.posted());
    assert_eq!(s.phase(), Phase::Gathering);
}

#[test]
fn late_candidate_rejected_once_posting() {
    let (mut s, _body) = posted();
    let a = s.step(WhipMessage::Ice {
        id: "xid".to_string(),
        candidate: "candidate:9 1 UDP ...".to_string(),
        candix: 0,
    });
    assert!(matches!(a, SessionAction::Ignored));
}
