//! Where frames come from.
//!
//! A source here is the part of a capture device that decides: whether to
//! go on waiting for a frame, and what to make of what the device handed
//! over. The device itself is polled by the program around this library.
pub mod ndi;

use crate::feed::frame::VideoFrameBuffer;
use crate::feed::sources::ndi::{NDIFeedSource, NDIFeedSourceConfig};
use vstd::prelude::*;

verus! {

/// Why a source gave up.
#[derive(Debug, Clone, Copy, PartialEq, Eq, Structural)]
pub enum SourceError {
    /// The capture stream reported an error.
    ErrorFrame,
    /// The stream announced a video frame and handed none over.
    MissingVideoData,
    /// The frame has no line stride.
    MissingLineStride,
    /// The frame is in a pixel format that the pipeline does not take.
    UnsupportedFormat,
    /// The frame's payload is not as long as its format and size ask for.
    MalformedPayload,
}

/// What a source makes of one capture.
pub enum CaptureStep {
    /// A frame: hand it to the caller.
    Deliver(VideoFrameBuffer),
    /// Not a video frame: capture again, if there is time left.
    Retry,
    /// The source has failed.
    Fail(SourceError),
}

/// What every source decides.
pub trait FeedSourceImpl {
    /// How long `get_frame` waits for a frame, in milliseconds.
    spec fn timeout(&self) -> u64;

    /// Whether `get_frame` captures once more after `elapsed` milliseconds
    /// without a frame. Where it does not, there is no frame this time.
    fn keeps_waiting(&self, elapsed: u64) -> (again: bool)
        ensures
            again == (elapsed < self.timeout()),
    ;
}

/// What builds a source.
pub trait FeedSourceConfigImpl {
    fn build(&self) -> FeedSource;
}

/// The sources.
pub enum FeedSource {
    NDI(NDIFeedSource),
}

/// Which source to capture from, and how it is configured.
pub enum FeedSourceConfig {
    NDI(NDIFeedSourceConfig),
}

impl FeedSource {
    /// Whether this is the source that `config` asks for.
    pub open spec fn is_for(self, config: FeedSourceConfig) -> bool {
        match (self, config) {
            (FeedSource::NDI(source), FeedSourceConfig::NDI(config)) => source.is_for(config),
        }
    }
}

impl FeedSourceImpl for FeedSource {
    open spec fn timeout(&self) -> u64 {
        match self {
            FeedSource::NDI(source) => source.timeout(),
        }
    }

    fn keeps_waiting(&self, elapsed: u64) -> (again: bool) {
        match self {
            FeedSource::NDI(source) => source.keeps_waiting(elapsed),
        }
    }
}

impl FeedSourceConfigImpl for FeedSourceConfig {
    fn build(&self) -> (source: FeedSource)
        ensures
            source.is_for(*self),
    {
        match self {
            FeedSourceConfig::NDI(config) => config.build(),
        }
    }
}

} // verus!
