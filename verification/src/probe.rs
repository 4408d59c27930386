//! The probe: a source that publishes a known signal, and receivers that check what arrives of it.
pub mod coverage;
pub mod format;
pub mod http;
pub mod latency;
pub mod listen;
pub mod opus;
pub mod plan;
pub mod quic;
pub mod reader;
pub mod reference;
pub mod receive;
pub mod source;
pub mod window;
