//! The publish stage's decisions: every terminal send outcome — delivered,
//! rejected, or timed out — becomes a uniform continuation signal, so one
//! bad delivery never halts the pipeline, and records are handled strictly
//! in capture order.

use vstd::prelude::*;
use vstd::slice::slice_to_vec;
use vstd::string::StringExecFns;

verus! {

/// The per-send timeout in milliseconds: a delivery that has not
/// acknowledged by then is treated like a failed send.
pub const SEND_TIMEOUT_MS: u64 = 1000;

/// The terminal outcome of one send, as the queue client reported it.
#[derive(Debug, Clone, PartialEq, Eq)]
pub enum SendOutcome {
    /// The broker acknowledged the delivery.
    Acked,
    /// The broker or client rejected the send; carries the cause.
    Rejected(String),
    /// The timeout elapsed before any acknowledgment.
    TimedOut,
}

/// How one record's delivery ended.
#[derive(Debug, Clone, Copy, PartialEq, Eq, Structural)]
pub enum Delivery {
    /// Acknowledged success.
    Delivered,
    /// The send was rejected.
    Failed,
    /// The send timed out.
    TimedOut,
}

/// The stage's verdict on one record: the classified delivery, the warning
/// to log if any, and whether the pipeline goes on to the next record.
#[derive(Debug, Clone, PartialEq, Eq)]
pub struct PublishReport {
    /// The classified delivery outcome.
    pub delivery: Delivery,
    /// The warning to log, present exactly for failed and timed-out sends.
    pub warning: Option<String>,
    /// Whether the pipeline continues; the stage never escalates a
    /// per-record failure.
    pub proceed: bool,
}

/// Holds when `r` is the report the stage owes for `outcome`: success
/// passes silently, a rejection and a timeout are logged as warnings, and
/// every outcome lets the pipeline continue.
pub open spec fn classified(outcome: SendOutcome, r: PublishReport) -> bool {
    &&& r.proceed == true
    &&& match outcome {
        SendOutcome::Acked => r.delivery == Delivery::Delivered && r.warning is None,
        SendOutcome::Rejected(m) => r.delivery == Delivery::Failed && (r.warning matches Some(w)
            && w@ == "publishing to kafka failed: "@ + m@),
        SendOutcome::TimedOut => r.delivery == Delivery::TimedOut && (r.warning matches Some(w)
            && w@ == "publishing to kafka timed out"@),
    }
}

/// Classifies one terminal send outcome. A timeout is treated identically
/// to a failed send — logged and passed over — and no outcome stops the
/// pipeline.
pub fn classify_outcome(outcome: &SendOutcome) -> (r: PublishReport)
    ensures
        classified(*outcome, r),
{
    match outcome {
        SendOutcome::Acked => PublishReport {
            delivery: Delivery::Delivered,
            warning: None,
            proceed: true,
        },
        SendOutcome::Rejected(m) => {
            let mut w = "publishing to kafka failed: ".to_owned();
            w.append(m.as_str());
            PublishReport { delivery: Delivery::Failed, warning: Some(w), proceed: true }
        },
        SendOutcome::TimedOut => PublishReport {
            delivery: Delivery::TimedOut,
            warning: Some("publishing to kafka timed out".to_owned()),
            proceed: true,
        },
    }
}

/// What one pass of the publish stage over a capture sequence did: the
/// buffers it sent, in order, and the report for each.
pub struct StageRun {
    /// The buffers handed to the queue client, in the order sent.
    pub sent: Vec<Vec<u8>>,
    /// The classified report of each send, index-aligned with `sent`.
    pub reports: Vec<PublishReport>,
}

/// Runs the publish stage over a gapless capture sequence, given the
/// terminal outcome of each send. The sends are issued in capture order
/// and none is skipped; the logged reports line up with the sends one to
/// one; and every record resolves — in particular a timed-out send, like
/// any other outcome, lets the next record begin at once.
pub fn run_publish_stage(frames: &Vec<Vec<u8>>, outcomes: &Vec<SendOutcome>) -> (run: StageRun)
    requires
        outcomes@.len() == frames@.len(),
    ensures
        run.sent@.len() == frames@.len(),
        forall|i: int| 0 <= i < frames@.len() ==> run.sent@[i]@ == frames@[i]@,
        run.reports@.len() == frames@.len(),
        forall|i: int| 0 <= i < frames@.len() ==> classified(outcomes@[i], run.reports@[i]),
{
    let mut sent: Vec<Vec<u8>> = Vec::new();
    let mut reports: Vec<PublishReport> = Vec::new();
    let mut i: usize = 0;
    while i < frames.len()
        invariant
            i <= frames@.len(),
            outcomes@.len() == frames@.len(),
            sent@.len() == i,
            forall|j: int| 0 <= j < i ==> sent@[j]@ == frames@[j]@,
            reports@.len() == i,
            forall|j: int| 0 <= j < i ==> classified(outcomes@[j], reports@[j]),
        decreases frames@.len() - i,
    {
        let frame: &Vec<u8> = &frames[i];
        sent.push(slice_to_vec(frame.as_slice()));
        reports.push(classify_outcome(&outcomes[i]));
        i += 1;
    }
    StageRun { sent, reports }
}

} // verus!
