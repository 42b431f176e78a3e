use can_relay::errors::RelayError;
use can_relay::frame::CanFrame;
use can_relay::packets::encode_frame;
use can_relay::packets::Packets;
use can_relay::relay_state::RelayState;
use can_relay::send::prepare_send;
use can_relay::wait::prepare_wait;
use can_relay::wait::WaitPhase;

#[test]
fn counters_start_clean() {
    let s = RelayState::new(1000, vec!["can0".to_string(), "vcan0".to_string()]);
    assert_eq!(s.packets_sent, 0);
    assert_eq!(s.last_packet_sent, None);
    assert_eq!(s.available_sockets, vec!["can0".to_string(), "vcan0".to_string()]);
    assert_eq!(s.last_request(), 0);
    assert_eq!(s.uptime(1010), 10);
}

#[test]
fn counter_steps_by_one_per_send() {
    let mut s = RelayState::new(1000, vec!["can0".to_string()]);
    s.sent_packet(1005);
    assert_eq!(s.packets_sent, 1);
    assert_eq!(s.last_packet_sent, Some(1005));
    s.sent_packet(1009);
    assert_eq!(s.packets_sent, 2);
    assert_eq!(s.last_packet_sent, Some(1009));
    assert_eq!(s.last_request(), 1009);
    assert_eq!(s.started_on, 1000);
}

#[test]
fn counter_accumulates_over_many_sends() {
    // Each successful send, applied under exclusive access, adds
    // exactly one: no update is lost.
    let mut s = RelayState::new(0, vec!["can0".to_string()]);
    for i in 0..50i64 {
        s.sent_packet(i);
    }
    assert_eq!(s.packets_sent, 50);
    assert_eq!(s.last_packet_sent, Some(49));
}

#[test]
fn packets_render_upper_hex_natural_digits() {
    let mut p = Packets::new();
    assert_eq!(p.success, None);
    let frame = CanFrame::new(0x123, vec![0xDE, 0x0A, 0x00]).unwrap();
    p.add_frame(frame);
    assert_eq!(p.frames.len(), 1);
    assert_eq!(p.frames[0].id, "123");
    assert_eq!(p.frames[0].data, vec!["DE", "A", "0"]);
}

#[test]
fn encode_frame_renders_id_and_bytes() {
    let c = encode_frame(&CanFrame::new(0x7FF, vec![0x00, 0xFF, 0x10]).unwrap());
    assert_eq!(c.id, "7FF");
    assert_eq!(c.data, vec!["0", "FF", "10"]);
}

#[test]
fn send_builds_raw_frame() {
    // id "123", data "DEADBEEF": one frame, identifier 0x123, payload
    // DE AD BE EF, unframed.
    let f = prepare_send("123", "DEADBEEF").unwrap();
    assert_eq!(f.id, 0x123);
    assert_eq!(f.data, vec![0xDE, 0xAD, 0xBE, 0xEF]);
}

#[test]
fn send_rejects_malformed_identifier() {
    // A malformed identifier fails the operation, it does not crash
    // the serving process.
    assert_eq!(prepare_send("ZZ", "AA").unwrap_err(), RelayError::Decode);
}

#[test]
fn send_rejects_out_of_range_identifier() {
    assert_eq!(prepare_send("800", "AA").unwrap_err(), RelayError::FrameBuild);
}

#[test]
fn send_rejects_bad_payload() {
    assert_eq!(prepare_send("123", "XY").unwrap_err(), RelayError::Decode);
    assert_eq!(prepare_send("123", "000102030405060708").unwrap_err(), RelayError::FrameBuild);
}

#[test]
fn wait_builds_prefixed_frame_and_defaults() {
    let op = prepare_wait("1", "2", "AA", None, None, None).unwrap();
    assert_eq!(op.frame.id, 1);
    assert_eq!(op.frame.data, vec![0x01, 0xAA]);
    assert_eq!(op.filter_id, 2);
    assert_eq!(op.timeout_ms, 1500);
    assert_eq!(op.maxpkts, 3);
    assert_eq!(op.phase, WaitPhase::SetFilter);
}

#[test]
fn wait_applies_padding() {
    let op = prepare_wait("1", "2", "AA", None, None, Some("55")).unwrap();
    assert_eq!(op.frame.data, vec![0x01, 0xAA, 0x55, 0x55, 0x55, 0x55, 0x55, 0x55]);
}

#[test]
fn wait_rejects_bad_fields() {
    assert_eq!(prepare_wait("Q", "2", "AA", None, None, None).unwrap_err(), RelayError::Decode);
    assert_eq!(
        prepare_wait("800", "2", "AA", None, None, None).unwrap_err(),
        RelayError::FrameBuild
    );
    assert_eq!(prepare_wait("1", "", "AA", None, None, None).unwrap_err(), RelayError::Decode);
    assert_eq!(prepare_wait("1", "2", "A", None, None, None).unwrap_err(), RelayError::Decode);
    assert_eq!(
        prepare_wait("1", "2", "AA", None, None, Some("1FF")).unwrap_err(),
        RelayError::Decode
    );
    let long = "00".repeat(256);
    assert_eq!(
        prepare_wait("1", "2", &long, None, None, None).unwrap_err(),
        RelayError::FrameBuild
    );
}

#[test]
fn wait_collects_up_to_bound() {
    // srcid "1", dstid "2", data "AA", maxpkts 1, timeout 100: the
    // transmitted payload is 01 AA and at most one packet comes back.
    let mut op = prepare_wait("1", "2", "AA", Some(100), Some(1), None).unwrap();
    assert_eq!(op.frame.data, vec![0x01, 0xAA]);
    op.on_filter_set(true);
    op.on_transmitted(true);
    assert!(!op.collect_done(0));
    op.on_received(CanFrame::new(0x2, vec![0x02, 0xAB, 0xCD]).unwrap());
    // The packet bound is reached: done whatever the clock says.
    assert!(op.collect_done(0));
    op.finish_collect(100);
    op.on_cleared(true);
    let out = op.into_result();
    assert_eq!(out.success, Some(true));
    assert_eq!(out.frames.len(), 1);
    assert_eq!(out.frames[0].id, "2");
    assert_eq!(out.frames[0].data, vec!["2", "AB", "CD"]);
}

#[test]
fn wait_times_out_with_nothing_received() {
    let mut op = prepare_wait("1", "2", "AA", Some(100), Some(3), None).unwrap();
    op.on_filter_set(true);
    op.on_transmitted(true);
    assert!(!op.collect_done(99));
    // The budget is spent: done with zero frames.
    assert!(op.collect_done(100));
    op.finish_collect(100);
    op.on_cleared(true);
    let out = op.into_result();
    assert_eq!(out.success, Some(true));
    assert!(out.frames.is_empty());
}

#[test]
fn wait_zero_bound_collects_nothing() {
    let mut op = prepare_wait("1", "2", "AA", Some(100), Some(0), None).unwrap();
    op.on_filter_set(true);
    op.on_transmitted(true);
    assert!(op.collect_done(0));
    op.finish_collect(100);
    op.on_cleared(true);
    assert_eq!(op.into_result().frames.len(), 0);
}

#[test]
fn wait_filter_failure_fails_closed() {
    let mut op = prepare_wait("1", "2", "AA", None, None, None).unwrap();
    op.on_filter_set(false);
    assert!(!op.filter_installed);
    assert_eq!(op.fault, Some(RelayError::Filter));
    let out = op.into_result();
    assert_eq!(out.success, Some(false));
    assert!(out.frames.is_empty());
}

#[test]
fn wait_transmit_failure_still_clears_filter() {
    let mut op = prepare_wait("1", "2", "AA", None, None, None).unwrap();
    op.on_filter_set(true);
    op.on_transmitted(false);
    assert_eq!(op.phase, WaitPhase::ClearFilter);
    assert_eq!(op.fault, Some(RelayError::Transmit));
    op.on_cleared(true);
    assert!(!op.filter_installed);
    assert_eq!(op.fault, Some(RelayError::Transmit));
    assert_eq!(op.into_result().success, Some(false));
}

#[test]
fn wait_clear_failure_reports_failure_but_keeps_packets() {
    let mut op = prepare_wait("1", "2", "AA", Some(100), Some(1), None).unwrap();
    op.on_filter_set(true);
    op.on_transmitted(true);
    op.on_received(CanFrame::new(0x2, vec![0x01]).unwrap());
    op.finish_collect(100);
    op.on_cleared(false);
    assert_eq!(op.fault, Some(RelayError::FilterReset));
    let out = op.into_result();
    assert_eq!(out.success, Some(false));
    assert_eq!(out.frames.len(), 1);
}
