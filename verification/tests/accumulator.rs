use whip_signaller::sdp::SdpAccumulator;

#[test]
fn finalized_document_scenario() {
    // One candidate, then the offer, then finalize: the exact composite body.
    let mut acc = SdpAccumulator::new();
    acc.append_candidate("candidate:1 1 UDP ...");
    acc.append_offer("v=0\r\no=- ...\r\n");
    let doc = acc.finalized_document();
    assert_eq!(doc, "a=candidate:1 1 UDP ...\nv=0\r\no=- ...\r\na=end-of-candidates\n");
}

#[test]
fn candidates_kept_in_arrival_order() {
    let mut acc = SdpAccumulator::new();
    acc.append_candidate("candidate:0 1 UDP 100 192.0.2.1 46000 typ host");
    acc.append_candidate("candidate:1 1 UDP 90 192.0.2.2 46001 typ srflx");
    acc.append_candidate("candidate:2 1 TCP 80 192.0.2.3 46002 typ relay");
    acc.append_offer("v=0\r\n");
    let doc = acc.finalized_document();
    assert_eq!(
        doc,
        "a=candidate:0 1 UDP 100 192.0.2.1 46000 typ host\n\
         a=candidate:1 1 UDP 90 192.0.2.2 46001 typ srflx\n\
         a=candidate:2 1 TCP 80 192.0.2.3 46002 typ relay\n\
         v=0\r\na=end-of-candidates\n"
    );
}

#[test]
fn empty_accumulator_finalizes_to_marker_only() {
    let acc = SdpAccumulator::new();
    assert_eq!(acc.finalized_document(), "a=end-of-candidates\n");
}

#[test]
fn late_candidate_appends_after_offer_body() {
    let mut acc = SdpAccumulator::new();
    acc.append_candidate("candidate:0 1 UDP 100 192.0.2.1 46000 typ host");
    acc.append_offer("v=0\r\n");
    acc.append_candidate("candidate:9 1 UDP 50 192.0.2.9 46009 typ host");
    let doc = acc.finalized_document();
    assert_eq!(
        doc,
        "a=candidate:0 1 UDP 100 192.0.2.1 46000 typ host\n\
         v=0\r\n\
         a=candidate:9 1 UDP 50 192.0.2.9 46009 typ host\n\
         a=end-of-candidates\n"
    );
}
