use whip_signaller::driver::{ProcessOutcome, Signaller};
use whip_signaller::errors::SignallerError;
use whip_signaller::session::{Phase, SessionAction};

const ENDPOINT: &str = "http://example.com:8080/whip";

fn connected() -> Signaller {
    Signaller::connect(Some(ENDPOINT.to_string())).unwrap()
}

#[test]
fn connect_without_endpoint_is_fatal() {
    match Signaller::connect(None) {
        Err(e) => assert_eq!(e, SignallerError::ConfigurationMissing),
        Ok(_) => panic!("a session must not start without the configured endpoint"),
    }
}

#[test]
fn events_are_consumed_in_arrival_order() {
    let mut s = connected();
    s.handle_ice("xid", "candidate:1 1 UDP ...", Some(0), None).unwrap();
    s.handle_sdp("xid", "v=0\r\no=- ...\r\n".to_string()).unwrap();
    match s.process_next() {
        ProcessOutcome::Acted(SessionAction::Folded) => {}
        _ => panic!("the candidate arrived first and must be folded first"),
    }
    match s.process_next() {
        ProcessOutcome::Acted(SessionAction::ArmTimer { peer_id }) => assert_eq!(peer_id, "xid"),
        _ => panic!("the offer must arm the gather timer"),
    }
    // the timer task hands its event back through the producer interface
    s.gather_timeout("xid".to_string()).unwrap();
    match s.process_next() {
        ProcessOutcome::Acted(SessionAction::Post { peer_id, body }) => {
            assert_eq!(peer_id, "xid");
            assert_eq!(body, "a=candidate:1 1 UDP ...\nv=0\r\no=- ...\r\na=end-of-candidates\n");
        }
        _ => panic!("the gather timeout must hand out the POST"),
    }
    assert!(matches!(s.process_next(), ProcessOutcome::Idle));
    assert_eq!(s.session.phase(), Phase::Posting);
}

#[test]
fn stop_drains_buffered_events_and_returns() {
    let mut s = connected();
    s.handle_ice("xid", "candidate:1 1 UDP ...", Some(0), None).unwrap();
    s.handle_sdp("xid", "v=0\r\n".to_string()).unwrap();
    s.consumer_removed("xid").unwrap();
    let actions = s.stop();
    assert_eq!(actions.len(), 3);
    assert!(matches!(actions[0], SessionAction::Folded));
    assert!(matches!(actions[1], SessionAction::ArmTimer { .. }));
    assert!(matches!(actions[2], SessionAction::Delete { .. }));
    // drained and closed: the consumer loop is done, nothing was lost
    assert!(matches!(s.process_next(), ProcessOutcome::Done));
    assert_eq!(s.session.phase(), Phase::Terminating);
}

#[test]
fn stop_still_hands_out_the_post_for_a_buffered_timeout() {
    let mut s = connected();
    s.handle_ice("xid", "candidate:1 1 UDP ...", Some(0), None).unwrap();
    s.handle_sdp("xid", "v=0\r\no=- ...\r\n".to_string()).unwrap();
    s.gather_timeout("xid".to_string()).unwrap();
    let actions = s.stop();
    assert_eq!(actions.len(), 3);
    match &actions[2] {
        SessionAction::Post { peer_id, body } => {
            assert_eq!(peer_id, "xid");
            assert_eq!(body, "a=candidate:1 1 UDP ...\nv=0\r\no=- ...\r\na=end-of-candidates\n");
        }
        _ => panic!("the buffered gather timeout must still yield the POST"),
    }
    assert_eq!(s.session.phase(), Phase::Posting);
}

#[test]
fn sends_after_stop_fail_loudly() {
    let mut s = connected();
    s.stop();
    assert_eq!(
        s.handle_sdp("xid", "v=0\r\n".to_string()),
        Err(SignallerError::ChannelSendFailed)
    );
    assert_eq!(s.consumer_removed("xid"), Err(SignallerError::ChannelSendFailed));
}

#[test]
fn full_queue_gives_backpressure_error() {
    let mut s = connected();
    // the queue accepts its capacity and the single sender's guaranteed slot
    for _ in 0..1001 {
        s.handle_ice("xid", "candidate:1 1 UDP ...", Some(0), None).unwrap();
    }
    assert_eq!(
        s.handle_ice("xid", "candidate:1 1 UDP ...", Some(0), None),
        Err(SignallerError::ChannelSendFailed)
    );
    // draining frees the queue again
    assert!(matches!(s.process_next(), ProcessOutcome::Acted(_)));
    s.handle_ice("xid", "candidate:1 1 UDP ...", Some(0), None).unwrap();
}
