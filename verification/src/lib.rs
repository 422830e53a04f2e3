//! Redundant sampled-value merging-unit arbitrator.
//!
//! Two merging units publish the same three-phase feed as IEC 61850-9-2
//! sampled-value Ethernet frames. This library holds the wire codec for
//! those frames, the quality and dispersion state machines that elect the
//! active unit, and the per-frame pipeline that ties them together.

pub mod codec;
pub mod fsm;
pub mod processor;
pub mod wire;
