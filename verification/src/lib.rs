//! Bootstrap layer of a GPU-accelerated rendering application.
//!
//! This library holds the decision logic of the device-acquisition
//! pipeline: instance-creation planning with layer and extension
//! negotiation, diagnostic-severity routing, physical-device selection,
//! queue-family resolution, logical-device planning, and ordered
//! teardown. It works on a plain-value snapshot of what the driver
//! reports; the surrounding application performs the actual driver
//! calls from the plans this library produces.

pub mod version;
pub mod error;
pub mod diagnostics;
pub mod queue;
pub mod device;
pub mod instance;
pub mod logical;
pub mod lifecycle;
