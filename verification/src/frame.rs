//! The outbound wire format: each queue message is one self-contained
//! single-packet capture-file buffer — a fixed session-level header followed
//! by exactly one packet record. Repeating the header in every message keeps
//! consumers stateless.

use vstd::bytes::*;
use vstd::prelude::*;
use vstd::slice::{slice_subrange, slice_to_vec};

verus! {

/// Magic number opening every session header; written little-endian.
pub const PCAP_MAGIC: u32 = 0xa1b2c3d4;

/// Major version of the capture-file format.
pub const PCAP_VERSION_MAJOR: u16 = 2;

/// Minor version of the capture-file format.
pub const PCAP_VERSION_MINOR: u16 = 4;

/// GMT-to-local timezone correction; always zero.
pub const PCAP_TS_CORRECTION: u32 = 0;

/// Timestamp accuracy; always zero.
pub const PCAP_TS_ACCURACY: u32 = 0;

/// Maximum captured length declared in the session header.
pub const PCAP_SNAPLEN: u32 = 65535;

/// Byte length of the session header.
pub const PCAP_HEADER_LEN: usize = 24;

/// Byte length of a packet record's header (timestamp and length fields).
pub const PCAP_RECORD_HEADER_LEN: usize = 16;

/// The session frame header: everything in it is fixed for the process
/// lifetime except the link-layer type, which is read once from the opened
/// interface.
#[derive(Debug, Clone, Copy, PartialEq, Eq, Structural)]
pub struct FrameHeader {
    /// Integer code identifying the low-level framing of captured bytes.
    pub link_type: u32,
}

/// One captured packet: its timestamp, its original on-the-wire length, and
/// the captured payload bytes. The captured length is the payload length
/// itself and is written to the wire, not stored.
#[derive(Debug, Clone, PartialEq, Eq)]
pub struct PacketRecord {
    /// Capture timestamp, seconds part.
    pub ts_sec: u32,
    /// Capture timestamp, microseconds part.
    pub ts_usec: u32,
    /// Original length of the packet on the wire.
    pub orig_len: u32,
    /// Raw captured payload bytes.
    pub data: Vec<u8>,
}

impl FrameHeader {
    /// The 24 header bytes: magic, version, timezone correction, accuracy,
    /// snap length and link-layer type, all little-endian.
    pub open spec fn spec_bytes(self) -> Seq<u8> {
        spec_u32_to_le_bytes(PCAP_MAGIC) + spec_u16_to_le_bytes(PCAP_VERSION_MAJOR)
            + spec_u16_to_le_bytes(PCAP_VERSION_MINOR) + spec_u32_to_le_bytes(PCAP_TS_CORRECTION)
            + spec_u32_to_le_bytes(PCAP_TS_ACCURACY) + spec_u32_to_le_bytes(PCAP_SNAPLEN)
            + spec_u32_to_le_bytes(self.link_type)
    }

    /// Builds the session header for the link-layer type the opened
    /// interface reported; the declared type always matches that value.
    pub fn new(link_type: u32) -> (h: Self)
        ensures
            h.link_type == link_type,
    {
        FrameHeader { link_type }
    }

    /// Serializes the session header.
    pub fn encode(&self) -> (out: Vec<u8>)
        ensures
            out@ == self.spec_bytes(),
            out@.len() == PCAP_HEADER_LEN,
    {
        proof {
            lemma_auto_spec_u32_to_from_le_bytes();
            lemma_auto_spec_u16_to_from_le_bytes();
        }
        let mut out: Vec<u8> = Vec::new();
        let mut b = u32_to_le_bytes(PCAP_MAGIC);
        out.append(&mut b);
        let mut b = u16_to_le_bytes(PCAP_VERSION_MAJOR);
        out.append(&mut b);
        let mut b = u16_to_le_bytes(PCAP_VERSION_MINOR);
        out.append(&mut b);
        let mut b = u32_to_le_bytes(PCAP_TS_CORRECTION);
        out.append(&mut b);
        let mut b = u32_to_le_bytes(PCAP_TS_ACCURACY);
        out.append(&mut b);
        let mut b = u32_to_le_bytes(PCAP_SNAPLEN);
        out.append(&mut b);
        let mut b = u32_to_le_bytes(self.link_type);
        out.append(&mut b);
        proof {
            assert(out@ =~= self.spec_bytes());
        }
        out
    }
}

impl PacketRecord {
    /// The record bytes: timestamp seconds, timestamp microseconds, captured
    /// length, original length — all little-endian — then the payload.
    pub open spec fn spec_bytes(self) -> Seq<u8> {
        spec_u32_to_le_bytes(self.ts_sec) + spec_u32_to_le_bytes(self.ts_usec)
            + spec_u32_to_le_bytes(self.data@.len() as u32)
            + spec_u32_to_le_bytes(self.orig_len) + self.data@
    }

    /// Builds one transient record from the values the capture handed over.
    pub fn new(ts_sec: u32, ts_usec: u32, orig_len: u32, data: Vec<u8>) -> (r: Self)
        ensures
            r.ts_sec == ts_sec,
            r.ts_usec == ts_usec,
            r.orig_len == orig_len,
            r.data@ == data@,
    {
        PacketRecord { ts_sec, ts_usec, orig_len, data }
    }

    /// Serializes one packet record.
    pub fn encode(&self) -> (out: Vec<u8>)
        requires
            self.data@.len() <= u32::MAX,
        ensures
            out@ == self.spec_bytes(),
            out@.len() == PCAP_RECORD_HEADER_LEN + self.data@.len(),
    {
        proof {
            lemma_auto_spec_u32_to_from_le_bytes();
        }
        let mut out: Vec<u8> = Vec::new();
        let mut b = u32_to_le_bytes(self.ts_sec);
        out.append(&mut b);
        let mut b = u32_to_le_bytes(self.ts_usec);
        out.append(&mut b);
        let mut b = u32_to_le_bytes(self.data.len() as u32);
        out.append(&mut b);
        let mut b = u32_to_le_bytes(self.orig_len);
        out.append(&mut b);
        let mut d = slice_to_vec(self.data.as_slice());
        out.append(&mut d);
        proof {
            assert(out@ =~= self.spec_bytes());
        }
        out
    }
}

/// The bytes of one complete framed buffer: the session header followed by
/// one packet record.
pub open spec fn spec_frame_bytes(h: FrameHeader, r: PacketRecord) -> Seq<u8> {
    h.spec_bytes() + r.spec_bytes()
}

/// Serializes the session header followed by one packet record into a
/// single framed buffer.
pub fn frame_packet(header: &FrameHeader, record: &PacketRecord) -> (out: Vec<u8>)
    requires
        record.data@.len() <= u32::MAX,
    ensures
        out@ == spec_frame_bytes(*header, *record),
        out@.len() == PCAP_HEADER_LEN + PCAP_RECORD_HEADER_LEN + record.data@.len(),
{
    let mut out = header.encode();
    let mut rec = record.encode();
    out.append(&mut rec);
    proof {
        assert(out@ =~= spec_frame_bytes(*header, *record));
    }
    out
}

/// What each slice of a framed buffer holds: every field of the header and
/// of the record can be read back at its fixed offset, and the payload is
/// the tail.
pub proof fn lemma_frame_shape(bytes: Seq<u8>, h: FrameHeader, r: PacketRecord)
    requires
        r.data@.len() <= u32::MAX,
        bytes == spec_frame_bytes(h, r),
    ensures
        bytes.len() == 40 + r.data@.len(),
        bytes.subrange(0, 4) == spec_u32_to_le_bytes(PCAP_MAGIC),
        bytes.subrange(4, 6) == spec_u16_to_le_bytes(PCAP_VERSION_MAJOR),
        bytes.subrange(6, 8) == spec_u16_to_le_bytes(PCAP_VERSION_MINOR),
        bytes.subrange(8, 12) == spec_u32_to_le_bytes(PCAP_TS_CORRECTION),
        bytes.subrange(12, 16) == spec_u32_to_le_bytes(PCAP_TS_ACCURACY),
        bytes.subrange(16, 20) == spec_u32_to_le_bytes(PCAP_SNAPLEN),
        bytes.subrange(20, 24) == spec_u32_to_le_bytes(h.link_type),
        bytes.subrange(24, 28) == spec_u32_to_le_bytes(r.ts_sec),
        bytes.subrange(28, 32) == spec_u32_to_le_bytes(r.ts_usec),
        bytes.subrange(32, 36) == spec_u32_to_le_bytes(r.data@.len() as u32),
        bytes.subrange(36, 40) == spec_u32_to_le_bytes(r.orig_len),
        bytes.subrange(40, bytes.len() as int) == r.data@,
{
    lemma_auto_spec_u32_to_from_le_bytes();
    lemma_auto_spec_u16_to_from_le_bytes();
    assert(bytes.subrange(0, 4) =~= spec_u32_to_le_bytes(PCAP_MAGIC));
    assert(bytes.subrange(4, 6) =~= spec_u16_to_le_bytes(PCAP_VERSION_MAJOR));
    assert(bytes.subrange(6, 8) =~= spec_u16_to_le_bytes(PCAP_VERSION_MINOR));
    assert(bytes.subrange(8, 12) =~= spec_u32_to_le_bytes(PCAP_TS_CORRECTION));
    assert(bytes.subrange(12, 16) =~= spec_u32_to_le_bytes(PCAP_TS_ACCURACY));
    assert(bytes.subrange(16, 20) =~= spec_u32_to_le_bytes(PCAP_SNAPLEN));
    assert(bytes.subrange(20, 24) =~= spec_u32_to_le_bytes(h.link_type));
    assert(bytes.subrange(24, 28) =~= spec_u32_to_le_bytes(r.ts_sec));
    assert(bytes.subrange(28, 32) =~= spec_u32_to_le_bytes(r.ts_usec));
    assert(bytes.subrange(32, 36) =~= spec_u32_to_le_bytes(r.data@.len() as u32));
    assert(bytes.subrange(36, 40) =~= spec_u32_to_le_bytes(r.orig_len));
    assert(bytes.subrange(40, bytes.len() as int) =~= r.data@);
}

/// Round-trip law: framing is injective, so a framed buffer pins down the
/// link-layer type, the timestamp, the original length and the payload bytes
/// of the record it was built from — whoever decodes the buffer recovers
/// them exactly.
pub proof fn lemma_frame_round_trip(
    h1: FrameHeader,
    r1: PacketRecord,
    h2: FrameHeader,
    r2: PacketRecord,
)
    requires
        r1.data@.len() <= u32::MAX,
        r2.data@.len() <= u32::MAX,
        spec_frame_bytes(h1, r1) == spec_frame_bytes(h2, r2),
    ensures
        h1 == h2,
        r1.ts_sec == r2.ts_sec,
        r1.ts_usec == r2.ts_usec,
        r1.orig_len == r2.orig_len,
        r1.data@ == r2.data@,
{
    let bytes = spec_frame_bytes(h1, r1);
    lemma_frame_shape(bytes, h1, r1);
    lemma_frame_shape(bytes, h2, r2);
    lemma_auto_spec_u32_to_from_le_bytes();
    assert(h1.link_type == h2.link_type);
}

/// Parses one framed buffer back into its session header and packet record.
/// Succeeds exactly on the buffers that `frame_packet` produces: a `None`
/// says that no header and record frame to these bytes.
pub fn decode_frame(bytes: &[u8]) -> (r: Option<(FrameHeader, PacketRecord)>)
    ensures
        match r {
            Some(p) => {
                &&& bytes@ == spec_frame_bytes(p.0, p.1)
                &&& p.1.data@.len() <= u32::MAX
            },
            None => forall|h: FrameHeader, rec: PacketRecord|
                rec.data@.len() <= u32::MAX ==> bytes@ != spec_frame_bytes(h, rec),
        },
{
    proof {
        lemma_auto_spec_u32_to_from_le_bytes();
        lemma_auto_spec_u16_to_from_le_bytes();
    }
    let n = bytes.len();
    if n < 40 {
        proof {
            assert forall|h: FrameHeader, rec: PacketRecord|
                rec.data@.len() <= u32::MAX implies bytes@ != spec_frame_bytes(h, rec) by {
                if bytes@ == spec_frame_bytes(h, rec) {
                    lemma_frame_shape(bytes@, h, rec);
                }
            }
        }
        return None;
    }
    let magic = u32_from_le_bytes(slice_subrange(bytes, 0, 4));
    let version_major = u16_from_le_bytes(slice_subrange(bytes, 4, 6));
    let version_minor = u16_from_le_bytes(slice_subrange(bytes, 6, 8));
    let ts_correction = u32_from_le_bytes(slice_subrange(bytes, 8, 12));
    let ts_accuracy = u32_from_le_bytes(slice_subrange(bytes, 12, 16));
    let snaplen = u32_from_le_bytes(slice_subrange(bytes, 16, 20));
    if magic != PCAP_MAGIC || version_major != PCAP_VERSION_MAJOR
        || version_minor != PCAP_VERSION_MINOR || ts_correction != PCAP_TS_CORRECTION
        || ts_accuracy != PCAP_TS_ACCURACY || snaplen != PCAP_SNAPLEN {
        proof {
            assert forall|h: FrameHeader, rec: PacketRecord|
                rec.data@.len() <= u32::MAX implies bytes@ != spec_frame_bytes(h, rec) by {
                if bytes@ == spec_frame_bytes(h, rec) {
                    lemma_frame_shape(bytes@, h, rec);
                }
            }
        }
        return None;
    }
    let incl_len = u32_from_le_bytes(slice_subrange(bytes, 32, 36));
    if incl_len as usize != n - 40 {
        proof {
            assert forall|h: FrameHeader, rec: PacketRecord|
                rec.data@.len() <= u32::MAX implies bytes@ != spec_frame_bytes(h, rec) by {
                if bytes@ == spec_frame_bytes(h, rec) {
                    lemma_frame_shape(bytes@, h, rec);
                }
            }
        }
        return None;
    }
    let link_type = u32_from_le_bytes(slice_subrange(bytes, 20, 24));
    let ts_sec = u32_from_le_bytes(slice_subrange(bytes, 24, 28));
    let ts_usec = u32_from_le_bytes(slice_subrange(bytes, 28, 32));
    let orig_len = u32_from_le_bytes(slice_subrange(bytes, 36, 40));
    let data = slice_to_vec(slice_subrange(bytes, 40, n));
    let header = FrameHeader { link_type };
    let record = PacketRecord { ts_sec, ts_usec, orig_len, data };
    proof {
        assert(bytes@.subrange(0, 4) == spec_u32_to_le_bytes(PCAP_MAGIC));
        assert(bytes@.subrange(4, 6) == spec_u16_to_le_bytes(PCAP_VERSION_MAJOR));
        assert(bytes@.subrange(6, 8) == spec_u16_to_le_bytes(PCAP_VERSION_MINOR));
        assert(bytes@.subrange(8, 12) == spec_u32_to_le_bytes(PCAP_TS_CORRECTION));
        assert(bytes@.subrange(12, 16) == spec_u32_to_le_bytes(PCAP_TS_ACCURACY));
        assert(bytes@.subrange(16, 20) == spec_u32_to_le_bytes(PCAP_SNAPLEN));
        assert(bytes@.subrange(20, 24) == spec_u32_to_le_bytes(link_type));
        assert(bytes@.subrange(24, 28) == spec_u32_to_le_bytes(ts_sec));
        assert(bytes@.subrange(28, 32) == spec_u32_to_le_bytes(ts_usec));
        assert(bytes@.subrange(32, 36) == spec_u32_to_le_bytes(incl_len));
        assert(record.data@.len() as u32 == incl_len);
        assert(bytes@.subrange(36, 40) == spec_u32_to_le_bytes(orig_len));
        assert(bytes@ =~= spec_frame_bytes(header, record));
    }
    Some((header, record))
}

} // verus!
