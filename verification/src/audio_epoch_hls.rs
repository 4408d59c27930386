//! Recovered multichannel audio groups packaged as low-latency parts.
//!
//! Each group of channels becomes a rendition of its own. The opaque policy publishes the recovered
//! payloads byte for byte; the fragmented MP4 policy boxes uncompressed and FLAC payloads.
pub mod flow;
pub mod group;
pub mod opaque;
pub mod recovery;
pub mod rendition;
pub mod timing;
pub mod worker;
