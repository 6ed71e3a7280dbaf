//! A traffic-export bridge library: captured network packets are framed as
//! self-contained single-packet capture-file buffers and handed to a
//! message-queue publish stage that bounds each delivery by a fixed timeout
//! and never lets one bad record halt the pipeline.
//!
//! The library holds the verified core: the capture-record wire format, the
//! option and configuration handling, and the per-event decisions of the
//! capture adapter and the publish stage. The surrounding process (device
//! I/O, the queue client, the runtime) hands plain values in and takes plain
//! values back.

pub mod capture;
pub mod config;
pub mod errors;
pub mod frame;
pub mod options;
pub mod pipeline;
pub mod publish;
