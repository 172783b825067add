//! A bounded-memory streaming text transcoder.
//!
//! A numeric code page identifier is resolved to an encoding descriptor (with
//! one deliberate override), and a pipeline of a stateful decoder and encoder
//! converts a byte stream from that encoding into a destination encoding over
//! three fixed-capacity buffers, resuming multi-byte sequences that straddle
//! read boundaries and finalizing the output exactly once per stream.

pub mod codec;
pub mod pipeline;
pub mod registry;
