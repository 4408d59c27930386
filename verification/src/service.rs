//! The contributor service: what it accepts, forwards, counts and reports.
pub mod accounts;
pub mod bridge;
pub mod counters;
pub mod daw_relay;
pub mod endpoint;
pub mod events;
pub mod exposed;
pub mod forward;
pub mod health;
pub mod histogram;
pub mod intake;
pub mod lanes;
pub mod media_fec;
pub mod media_objects;
pub mod metrics;
pub mod metrics_report;
pub mod playlist;
pub mod publication;
pub mod relay;
pub mod router;
pub mod runtime;
pub mod sessions;
pub mod status;
pub mod stream_fec;
pub mod streams;
pub mod telemetry;
pub mod unit_query;
