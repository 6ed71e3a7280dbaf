//! The pipeline's order law: over a gapless capture sequence, packets are
//! published in the order captured — each record becomes one framed buffer,
//! the buffers are sent in capture order with none skipped, and the logged
//! reports line up with the sends one to one.

use vstd::pervasive::unreached;
use vstd::prelude::*;
use vstd::slice::slice_to_vec;

use crate::capture::{CaptureAdapter, CaptureEvent, PullOutcome};
use crate::frame::{spec_frame_bytes, PacketRecord};
use crate::publish::{classified, run_publish_stage, SendOutcome, StageRun};

verus! {

/// Exports one gapless capture sequence: every record is framed with the
/// adapter's session header and handed to the publish stage in capture
/// order, and each send's terminal outcome yields exactly one report.
pub fn export_sequence(
    adapter: &CaptureAdapter,
    records: &Vec<PacketRecord>,
    outcomes: &Vec<SendOutcome>,
) -> (run: StageRun)
    requires
        outcomes@.len() == records@.len(),
        forall|i: int| 0 <= i < records@.len() ==> records@[i].data@.len() <= u32::MAX,
    ensures
        run.sent@.len() == records@.len(),
        forall|i: int| 0 <= i < records@.len() ==> run.sent@[i]@ == spec_frame_bytes(
            adapter.header,
            records@[i],
        ),
        run.reports@.len() == records@.len(),
        forall|i: int| 0 <= i < records@.len() ==> classified(outcomes@[i], run.reports@[i]),
{
    let mut frames: Vec<Vec<u8>> = Vec::new();
    let mut i: usize = 0;
    while i < records.len()
        invariant
            i <= records@.len(),
            forall|j: int| 0 <= j < records@.len() ==> records@[j].data@.len() <= u32::MAX,
            frames@.len() == i,
            forall|j: int| 0 <= j < i ==> frames@[j]@ == spec_frame_bytes(
                adapter.header,
                records@[j],
            ),
        decreases records@.len() - i,
    {
        let r = &records[i];
        let rec = PacketRecord::new(r.ts_sec, r.ts_usec, r.orig_len, slice_to_vec(
            r.data.as_slice(),
        ));
        match adapter.pull(CaptureEvent::Packet(rec)) {
            PullOutcome::Frame(buf) => {
                frames.push(buf);
            },
            _ => {
                unreached()
            },
        }
        i += 1;
    }
    run_publish_stage(&frames, outcomes)
}

} // verus!
