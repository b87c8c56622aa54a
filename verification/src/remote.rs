//! The side that faces the peers: one worker per accepted session.
pub mod extensions;
pub mod wrtc;
