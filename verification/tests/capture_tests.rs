use pcapstreamer::capture::{resolve_interface, CaptureAdapter, CaptureEvent, PullOutcome};
use pcapstreamer::errors::BridgeError;
use pcapstreamer::frame::{frame_packet, FrameHeader, PacketRecord};

#[test]
fn resolves_matching_interface() {
    let devices = vec!["lo".to_owned(), "eth0".to_owned(), "wlan0".to_owned()];
    assert_eq!(resolve_interface(&devices, "eth0"), Ok(1));
    assert_eq!(resolve_interface(&devices, "lo"), Ok(0));
}

#[test]
fn absent_interface_fails_before_any_capture_work() {
    let devices = vec!["lo".to_owned(), "eth0".to_owned()];
    let e = resolve_interface(&devices, "tun0").expect_err("no such device");
    assert_eq!(e, BridgeError::InterfaceNotFound);
    assert_eq!(e.message(), "interface not found");
}

#[test]
fn empty_device_list_fails() {
    let devices: Vec<String> = vec![];
    assert_eq!(resolve_interface(&devices, "any"), Err(BridgeError::InterfaceNotFound));
}

#[test]
fn adapter_header_matches_reported_link_type() {
    let adapter = CaptureAdapter::new(113);
    assert_eq!(adapter.header.link_type, 113);
    assert_eq!(adapter.header, FrameHeader::new(113));
}

#[test]
fn not_ready_passes_through() {
    let adapter = CaptureAdapter::new(1);
    assert_eq!(adapter.pull(CaptureEvent::NotReady), PullOutcome::NotReady);
}

#[test]
fn read_failure_is_fatal_with_chained_cause() {
    let adapter = CaptureAdapter::new(1);
    let r = adapter.pull(CaptureEvent::Failed("device vanished".to_owned()));
    match r {
        PullOutcome::Fatal(e) => {
            assert_eq!(e, BridgeError::CaptureError("device vanished".to_owned()));
            assert_eq!(e.message(), "failed to capture packet: device vanished");
        }
        other => panic!("expected a fatal outcome, got {:?}", other),
    }
}

#[test]
fn packet_becomes_one_framed_buffer() {
    let adapter = CaptureAdapter::new(1);
    let rec = PacketRecord::new(10, 20, 3, vec![5, 6, 7]);
    let r = adapter.pull(CaptureEvent::Packet(rec.clone()));
    match r {
        PullOutcome::Frame(buf) => {
            assert_eq!(buf, frame_packet(&FrameHeader::new(1), &rec));
        }
        other => panic!("expected a framed buffer, got {:?}", other),
    }
}
