//! The verified core of a low-latency video broadcast service: frame buffers
//! and colour conversion, the encoder control state machine, the feed
//! manager's control plane and its loop, the peer worker's lifecycle and
//! timing statistics.
//!
//! Everything here works on plain values. Capture devices, native encoders,
//! channels and sockets are driven by the program around this library, which
//! hands events in and carries the returned actions out.
pub mod feed;
pub mod remote;
pub mod shared_bytes;
pub mod timing_stats;
