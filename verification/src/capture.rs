//! The capture adapter's decisions: resolving the interface name against
//! the device list, building the session header from the reported
//! link-layer type, and turning each poll result into "not ready", a framed
//! buffer, or a fatal capture fault.

use vstd::prelude::*;

use crate::errors::BridgeError;
use crate::frame::{frame_packet, spec_frame_bytes, FrameHeader, PacketRecord};

verus! {

/// What one non-blocking read attempt against the capture device produced.
#[derive(Debug, Clone, PartialEq, Eq)]
pub enum CaptureEvent {
    /// No packet is currently available; poll again later.
    NotReady,
    /// The read failed for a driver-level reason; carries its message.
    Failed(String),
    /// A packet arrived.
    Packet(PacketRecord),
}

/// What the adapter hands back for one demand: poll again, abort, or one
/// framed buffer.
#[derive(Debug, Clone, PartialEq, Eq)]
pub enum PullOutcome {
    /// Nothing ready yet; not an error, never escalated.
    NotReady,
    /// A persistent capture fault; the caller should abort the pipeline.
    Fatal(BridgeError),
    /// One self-contained framed buffer, ready to publish.
    Frame(Vec<u8>),
}

/// Finds the position of the first device whose name matches the requested
/// interface. Fails with `InterfaceNotFound` exactly when no device
/// matches, and then no capture-related work follows.
pub fn resolve_interface(devices: &Vec<String>, name: &str) -> (r: Result<usize, BridgeError>)
    ensures
        match r {
            Ok(i) => {
                &&& i < devices@.len()
                &&& devices@[i as int]@ == name@
                &&& forall|j: int| 0 <= j < i ==> devices@[j]@ != name@
            },
            Err(e) => {
                &&& e == BridgeError::InterfaceNotFound
                &&& forall|j: int| 0 <= j < devices@.len() ==> devices@[j]@ != name@
            },
        },
{
    let wanted = name.to_owned();
    let mut i: usize = 0;
    while i < devices.len()
        invariant
            i <= devices@.len(),
            wanted@ == name@,
            forall|j: int| 0 <= j < i ==> devices@[j]@ != name@,
        decreases devices@.len() - i,
    {
        if devices[i].eq(&wanted) {
            return Ok(i);
        }
        i += 1;
    }
    Err(BridgeError::InterfaceNotFound)
}

/// The capture adapter's session state: the frame header stamped onto
/// every outgoing buffer. The underlying device handle stays with the
/// caller, which hands each poll result in as a [`CaptureEvent`].
pub struct CaptureAdapter {
    /// The session frame header, derived once from the link-layer type.
    pub header: FrameHeader,
}

impl CaptureAdapter {
    /// Builds the adapter for an opened interface. The session header's
    /// declared link-layer type always matches the value the interface
    /// reported.
    pub fn new(link_type: u32) -> (a: Self)
        ensures
            a.header.link_type == link_type,
    {
        CaptureAdapter { header: FrameHeader::new(link_type) }
    }

    /// Decides one demand: "not ready" passes through untouched, a read
    /// failure becomes a fatal `CaptureError`, and a packet becomes one
    /// framed buffer — the session header followed by this record.
    pub fn pull(&self, event: CaptureEvent) -> (r: PullOutcome)
        requires
            event matches CaptureEvent::Packet(rec) ==> rec.data@.len() <= u32::MAX,
        ensures
            match event {
                CaptureEvent::NotReady => r == PullOutcome::NotReady,
                CaptureEvent::Failed(m) => r == PullOutcome::Fatal(BridgeError::CaptureError(m)),
                CaptureEvent::Packet(rec) => r matches PullOutcome::Frame(buf) && buf@
                    == spec_frame_bytes(self.header, rec),
            },
    {
        match event {
            CaptureEvent::NotReady => PullOutcome::NotReady,
            CaptureEvent::Failed(m) => PullOutcome::Fatal(BridgeError::CaptureError(m)),
            CaptureEvent::Packet(rec) => PullOutcome::Frame(frame_packet(&self.header, &rec)),
        }
    }
}

} // verus!
