//! Curve broadcast server core: reconstruction input handling and the
//! channel/subscriber hub.
//!
//! The library models IEEE 754 binary64 scalars by their bit patterns
//! (`u64`), validates curvature sample sets, and provides the verified
//! subscriber arena, channels, channel registry and dispatch decisions
//! that the surrounding server is built from.

pub mod arena;
pub mod channel;
pub mod curve;
pub mod dispatch;
pub mod errors;
pub mod fbits;
pub mod mock;
pub mod registry;
pub mod samples;
