use std::time::Duration;

use pcap_file::pcap::PcapReader;
use pcap_file::DataLink;

use pcapstreamer::frame::{
    decode_frame, frame_packet, FrameHeader, PacketRecord, PCAP_HEADER_LEN,
    PCAP_RECORD_HEADER_LEN,
};

#[test]
fn header_encodes_to_exact_bytes() {
    let h = FrameHeader::new(1);
    let b = h.encode();
    assert_eq!(
        b,
        vec![
            0xd4, 0xc3, 0xb2, 0xa1, // magic, little-endian
            2, 0, 4, 0, // version 2.4
            0, 0, 0, 0, // timezone correction
            0, 0, 0, 0, // timestamp accuracy
            0xff, 0xff, 0, 0, // snap length 65535
            1, 0, 0, 0, // link-layer type
        ]
    );
}

#[test]
fn record_encodes_to_exact_bytes() {
    let rec = PacketRecord::new(1, 2, 2, vec![0xaa, 0xbb]);
    let b = rec.encode();
    assert_eq!(
        b,
        vec![
            1, 0, 0, 0, // seconds
            2, 0, 0, 0, // microseconds
            2, 0, 0, 0, // captured length
            2, 0, 0, 0, // original length
            0xaa, 0xbb, // payload
        ]
    );
}

#[test]
fn frame_has_header_then_record() {
    let h = FrameHeader::new(1);
    let rec = PacketRecord::new(3, 4, 5, vec![9, 8, 7]);
    let buf = frame_packet(&h, &rec);
    assert_eq!(buf.len(), PCAP_HEADER_LEN + PCAP_RECORD_HEADER_LEN + 3);
    assert_eq!(&buf[..PCAP_HEADER_LEN], &h.encode()[..]);
    assert_eq!(&buf[PCAP_HEADER_LEN..], &rec.encode()[..]);
}

#[test]
fn round_trip_through_own_decoder() {
    let h = FrameHeader::new(113);
    let rec = PacketRecord::new(1_600_000_000, 999_999, 4, vec![1, 2, 3, 4]);
    let buf = frame_packet(&h, &rec);
    let (h2, rec2) = decode_frame(&buf).expect("a framed buffer must decode");
    assert_eq!(h2, h);
    assert_eq!(rec2.ts_sec, 1_600_000_000);
    assert_eq!(rec2.ts_usec, 999_999);
    assert_eq!(rec2.orig_len, 4);
    assert_eq!(rec2.data, vec![1, 2, 3, 4]);
}

#[test]
fn round_trip_through_standard_reader() {
    let h = FrameHeader::new(1);
    let payload: Vec<u8> = (0u8..64).collect();
    let rec = PacketRecord::new(1234, 5678, 64, payload.clone());
    let buf = frame_packet(&h, &rec);

    let mut reader = PcapReader::new(&buf[..]).expect("valid session header");
    let header = reader.header();
    assert_eq!(header.version_major, 2);
    assert_eq!(header.version_minor, 4);
    assert_eq!(header.ts_correction, 0);
    assert_eq!(header.ts_accuracy, 0);
    assert_eq!(header.snaplen, 65535);
    assert_eq!(header.datalink, DataLink::ETHERNET);

    let pkt = reader
        .next_packet()
        .expect("one packet record")
        .expect("the record must parse");
    assert_eq!(pkt.timestamp, Duration::new(1234, 5678 * 1000));
    assert_eq!(pkt.orig_len, 64);
    assert_eq!(&pkt.data[..], &payload[..]);
    assert!(reader.next_packet().is_none());
}

#[test]
fn empty_payload_round_trips() {
    let h = FrameHeader::new(1);
    let rec = PacketRecord::new(0, 0, 0, vec![]);
    let buf = frame_packet(&h, &rec);
    let (_, rec2) = decode_frame(&buf).expect("decodes");
    assert_eq!(rec2.data.len(), 0);
    assert_eq!(rec2.orig_len, 0);
}

#[test]
fn decode_rejects_short_input() {
    assert!(decode_frame(&[0u8; 39]).is_none());
    assert!(decode_frame(&[]).is_none());
}

#[test]
fn decode_rejects_wrong_magic() {
    let h = FrameHeader::new(1);
    let rec = PacketRecord::new(1, 2, 3, vec![1, 2, 3]);
    let mut buf = frame_packet(&h, &rec);
    buf[0] = 0x00;
    assert!(decode_frame(&buf).is_none());
}

#[test]
fn decode_rejects_truncated_payload() {
    let h = FrameHeader::new(1);
    let rec = PacketRecord::new(1, 2, 3, vec![1, 2, 3]);
    let mut buf = frame_packet(&h, &rec);
    buf.pop();
    assert!(decode_frame(&buf).is_none());
}
