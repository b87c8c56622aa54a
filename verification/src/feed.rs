//! The feed pipeline: frames, encoders, sources and the manager that ties
//! them together.
pub mod bitrates;
pub mod encoders;
pub mod frame;
pub mod manager;
pub mod pipeline;
pub mod sources;
