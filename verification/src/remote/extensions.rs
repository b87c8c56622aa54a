//! RTP header extensions.
pub mod playout_delay;
