//! Access units boxed as fragmented MP4 parts.
//!
//! Reliable ingest delivers arbitrary byte chunks of an MPEG transport stream, which are not media
//! fragments by themselves. This module cuts the demultiplexed access units into parts that a
//! player can append, and decides when each part ends and when it carries an initialisation.
pub mod access_unit;
pub mod boxable;
pub mod boxes;
pub mod elementary;
pub mod flow;
pub mod laws;
pub mod model;
pub mod nalu;
pub mod segmenter;
pub mod sps;
pub mod sps_bits;
pub mod ticks;
pub mod track;
