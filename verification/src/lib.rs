//! Contributor ingest: packaging, forwarding and accounting of live media.
pub mod arith;
pub mod audio_epoch_hls;
pub mod bytes;
pub mod clock;
pub mod fmp4_bridge;
pub mod formats;
pub mod probe;
pub mod ranking;
pub mod sender;
pub mod seqs;
pub mod service;
pub mod table;
pub mod text;
pub mod wire;
