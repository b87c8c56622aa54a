//! The NDI source: which receiver to open, how long to wait for a frame,
//! and how a captured frame becomes a frame buffer.
use crate::feed::frame::{
    i420_len, FrameView, VideoFrameBuffer, VideoFramePixelFormat, VideoFramerate, VideoTimestamp,
};
use crate::feed::manager::ConfigError;
use crate::feed::sources::{
    CaptureStep, FeedSource, FeedSourceConfig, FeedSourceConfigImpl, FeedSourceImpl, SourceError,
};
use crate::shared_bytes::{bytes_from_vec, contents};
use vstd::prelude::*;

verus! {

/// How long a source waits for a frame unless told otherwise, in milliseconds.
pub const DEFAULT_RECV_TIMEOUT: u64 = 1000;

/// How long one capture may block, in milliseconds.
pub const CAPTURE_TIMEOUT: u32 = 100;

/// How long the search for sources may take, in milliseconds.
pub const FIND_TIMEOUT: u32 = 2000;

/// The pixel formats that a capture may come in.
#[derive(Debug, Clone, Copy, PartialEq, Eq, Structural)]
pub enum FourCCVideoType {
    UYVY,
    UYVA,
    P216,
    PA16,
    YV12,
    I420,
    NV12,
    BGRA,
    BGRX,
    RGBA,
    RGBX,
}

/// How much of a stream a receiver asks for.
#[derive(Debug, Clone, Copy, PartialEq, Eq, Structural)]
pub enum RecvBandwidth {
    MetadataOnly,
    AudioOnly,
    Lowest,
    Highest,
}

/// The formats that a receiver asks for, without and with alpha.
#[derive(Debug, Clone, Copy, PartialEq, Eq, Structural)]
pub enum RecvColorFormat {
    BgrxBgra,
    UyvyBgra,
    RgbxRgba,
    UyvyRgba,
    Fastest,
    Best,
}

/// How the receiver of a source is opened.
pub struct ReceiverSettings {
    pub allow_video_fields: bool,
    pub bandwidth: RecvBandwidth,
    pub color_format: RecvColorFormat,
    pub recv_name: String,
    pub source_name: String,
}

/// A video frame as the capture hands it over.
pub struct CapturedVideo {
    pub four_cc: FourCCVideoType,
    pub width: u32,
    pub height: u32,
    pub line_stride: Option<u32>,
    /// The frame's timecode, in units of 100 ns.
    pub timecode: i64,
    pub frame_rate_n: u32,
    pub frame_rate_d: u32,
    pub data: Vec<u8>,
}

/// What one capture came back with.
pub enum Captured {
    /// Nothing within the time that one capture may block.
    Nothing,
    /// A video frame, where the stream handed one over.
    Video(Option<CapturedVideo>),
    Audio,
    Metadata,
    StatusChange,
    /// The stream has failed or was disconnected.
    ErrorFrame,
}

impl VideoFramePixelFormat {
    /// The pixel format of a capture in `four_cc`, where the pipeline takes it.
    pub open spec fn of_four_cc(four_cc: FourCCVideoType) -> Option<VideoFramePixelFormat> {
        match four_cc {
            FourCCVideoType::UYVY => Some(VideoFramePixelFormat::UYVY),
            FourCCVideoType::I420 => Some(VideoFramePixelFormat::I420),
            _ => None,
        }
    }

    /// The pipeline takes packed 4:2:2 and planar 4:2:0; every other format
    /// is turned away.
    pub fn try_from_four_cc(four_cc: FourCCVideoType) -> (format: Result<
        VideoFramePixelFormat,
        SourceError,
    >)
        ensures
            match Self::of_four_cc(four_cc) {
                Some(supported) => format == Ok::<VideoFramePixelFormat, SourceError>(supported),
                None => format == Err::<VideoFramePixelFormat, SourceError>(
                    SourceError::UnsupportedFormat,
                ),
            },
    {
        match four_cc {
            FourCCVideoType::UYVY => Ok(VideoFramePixelFormat::UYVY),
            FourCCVideoType::I420 => Ok(VideoFramePixelFormat::I420),
            _ => Err(SourceError::UnsupportedFormat),
        }
    }
}

/// A timecode in units of 100 ns as whole microseconds, as a 64-bit unsigned
/// number: a tenth, rounded towards zero, and for a timecode before the
/// epoch that many below 2^64.
pub open spec fn capture_micros(timecode: i64) -> u64 {
    if timecode >= 0 {
        (timecode / 10) as u64
    } else if -timecode < 10 {
        0
    } else {
        (0x1_0000_0000_0000_0000 - (-timecode) / 10) as u64
    }
}

/// The time of a capture.
pub fn capture_timestamp(timecode: i64) -> (ts: VideoTimestamp)
    ensures
        ts.micros() == capture_micros(timecode),
{
    let micros: u64 = if timecode >= 0 {
        (timecode as u64) / 10
    } else {
        let magnitude: u64 = ((-(timecode + 1)) as u64) + 1;
        let tenths = magnitude / 10;
        if tenths == 0 {
            0
        } else {
            u64::MAX - tenths + 1
        }
    };
    VideoTimestamp::from_micros(micros)
}

/// The frame that a captured video stands for, or why there is none.
pub open spec fn frame_of(video: CapturedVideo) -> Result<FrameView, SourceError> {
    match video.line_stride {
        None => Err(SourceError::MissingLineStride),
        Some(stride) => match VideoFramePixelFormat::of_four_cc(video.four_cc) {
            None => Err(SourceError::UnsupportedFormat),
            Some(pix_fmt) => {
                let fits = match pix_fmt {
                    VideoFramePixelFormat::I420 => video.data@.len() == i420_len(
                        video.width as nat,
                        video.height as nat,
                    ),
                    VideoFramePixelFormat::UYVY => video.data@.len() == stride * video.height,
                };
                if fits {
                    Ok(
                        FrameView {
                            pix_fmt,
                            width: video.width as nat,
                            height: video.height as nat,
                            timestamp: capture_micros(video.timecode),
                            framerate: VideoFramerate {
                                num: video.frame_rate_n,
                                den: video.frame_rate_d,
                            },
                            line_stride: stride as nat,
                            data: video.data@,
                        },
                    )
                } else {
                    Err(SourceError::MalformedPayload)
                }
            },
        },
    }
}

/// `str::trim_end`: the text without its trailing whitespace.
#[verifier::external_body]
fn trim_end(text: &str) -> (trimmed: &str)
    ensures
        trimmed@ == trimmed_end(text@),
{
    text.trim_end()
}

/// `str::parse::<usize>`: the number that a text spells in decimal, where
/// it spells one that fits: after an optional `+`, one or more of the digits
/// `0` to `9` and nothing else.
#[verifier::external_body]
fn parse_index(text: &str) -> (index: Option<usize>)
    ensures
        index == parsed_index(text@),
{
    text.parse::<usize>().ok()
}

/// A text without its trailing whitespace.
pub uninterp spec fn trimmed_end(text: Seq<char>) -> Seq<char>;

/// Whether `text` is one or more of the digits `0` to `9`.
pub open spec fn is_decimal(text: Seq<char>) -> bool {
    text.len() > 0 && forall|i: int| 0 <= i < text.len() ==> '0' <= #[trigger] text[i] <= '9'
}

/// The number that the digits of `text` spell in decimal.
pub open spec fn decimal_value(text: Seq<char>) -> int
    decreases text.len(),
{
    if text.len() == 0 {
        0
    } else {
        10 * decimal_value(text.drop_last()) + (text.last() as u32 - '0' as u32)
    }
}

/// The number that a text spells in decimal, where it spells one that fits:
/// the text is an optional `+` and then digits only.
pub open spec fn parsed_index(text: Seq<char>) -> Option<usize> {
    let digits = if text.len() > 0 && text[0] == '+' {
        text.skip(1)
    } else {
        text
    };
    if is_decimal(digits) && decimal_value(digits) <= usize::MAX {
        Some(decimal_value(digits) as usize)
    } else {
        None
    }
}

/// Which source to receive, and how long to wait for its frames.
pub struct NDIFeedSourceConfig {
    source: String,
    recv_timeout: u64,
}

impl NDIFeedSourceConfig {
    /// The name of the source.
    pub closed spec fn name(&self) -> Seq<char> {
        self.source@
    }

    /// How long `get_frame` waits for a frame, in milliseconds.
    pub closed spec fn timeout(&self) -> u64 {
        self.recv_timeout
    }

    pub fn new(source: String, recv_timeout: u64) -> (config: Self)
        ensures
            config.name() == source@,
            config.timeout() == recv_timeout,
    {
        Self { source, recv_timeout }
    }

    pub fn source_name(&self) -> (name: &String)
        ensures
            name@ == self.name(),
    {
        &self.source
    }

    /// The source that the user picked from `names` by its index, with the
    /// default timeout; an error where the answer was no index into `names`.
    pub fn select_source(names: &Vec<String>, index: Option<usize>) -> (selected: Result<
        FeedSourceConfig,
        ConfigError,
    >)
        ensures
            match index {
                Some(i) if i < names.len() => selected matches Ok(FeedSourceConfig::NDI(config))
                    && config.name() == names[i as int]@ && config.timeout()
                    == DEFAULT_RECV_TIMEOUT,
                _ => selected matches Err(e) && e == ConfigError::InvalidSelection,
            },
    {
        match index {
            Some(i) => {
                if i < names.len() {
                    Ok(
                        FeedSourceConfig::NDI(
                            Self { source: names[i].clone(), recv_timeout: DEFAULT_RECV_TIMEOUT },
                        ),
                    )
                } else {
                    Err(ConfigError::InvalidSelection)
                }
            },
            None => Err(ConfigError::InvalidSelection),
        }
    }

    /// Reads the user's answer to the list of `names`: the index of one of
    /// them in decimal, trailing whitespace aside.
    pub fn build_interactive(names: &Vec<String>, answer: &str) -> (selected: Result<
        FeedSourceConfig,
        ConfigError,
    >)
        ensures
            match parsed_index(trimmed_end(answer@)) {
                Some(i) if i < names.len() => selected matches Ok(FeedSourceConfig::NDI(config))
                    && config.name() == names[i as int]@ && config.timeout()
                    == DEFAULT_RECV_TIMEOUT,
                _ => selected matches Err(e) && e == ConfigError::InvalidSelection,
            },
    {
        Self::select_source(names, parse_index(trim_end(answer)))
    }
}

impl FeedSourceConfigImpl for NDIFeedSourceConfig {
    fn build(&self) -> (source: FeedSource)
        ensures
            source matches FeedSource::NDI(built) && built.is_for(*self),
    {
        FeedSource::NDI(NDIFeedSource::new(self))
    }
}

/// The deciding part of an NDI receiver.
pub struct NDIFeedSource {
    receiver: ReceiverSettings,
    recv_timeout: u64,
}

impl NDIFeedSource {
    /// How the receiver is opened.
    pub closed spec fn settings(&self) -> ReceiverSettings {
        self.receiver
    }

    /// Whether this is the source that `config` asks for: it waits as long
    /// as `config` says, and its receiver takes the source that `config`
    /// names, under the name `Telestrator`, as progressive video at the
    /// highest bandwidth, packed 4:2:2 where it has no alpha.
    pub open spec fn is_for(&self, config: NDIFeedSourceConfig) -> bool {
        &&& self.timeout() == config.timeout()
        &&& self.settings().source_name@ == config.name()
        &&& self.settings().recv_name@ == "Telestrator"@
        &&& !self.settings().allow_video_fields
        &&& self.settings().bandwidth == RecvBandwidth::Highest
        &&& self.settings().color_format == RecvColorFormat::UyvyRgba
    }

    /// Construct an NDI source for the source that `config` names.
    pub fn new(config: &NDIFeedSourceConfig) -> (source: Self)
        ensures
            source.is_for(*config),
    {
        NDIFeedSource {
            receiver: ReceiverSettings {
                allow_video_fields: false,
                bandwidth: RecvBandwidth::Highest,
                color_format: RecvColorFormat::UyvyRgba,
                recv_name: "Telestrator".to_owned(),
                source_name: config.source.clone(),
            },
            recv_timeout: config.recv_timeout,
        }
    }

    pub fn receiver_settings(&self) -> (settings: &ReceiverSettings)
        ensures
            *settings == self.settings(),
    {
        &self.receiver
    }

    /// What to make of one capture. A video frame in a format that the
    /// pipeline takes, with a payload of the right length, is delivered; an
    /// error frame ends the source, and so does a video frame that cannot be
    /// used; anything else is skipped.
    pub fn accept(&self, captured: Captured) -> (step: CaptureStep)
        ensures
            match captured {
                Captured::Video(Some(video)) => match frame_of(video) {
                    Ok(frame) => step matches CaptureStep::Deliver(delivered) && delivered@
                        == frame,
                    Err(e) => step matches CaptureStep::Fail(failure) && failure == e,
                },
                Captured::Video(None) => step matches CaptureStep::Fail(failure) && failure
                    == SourceError::MissingVideoData,
                Captured::ErrorFrame => step matches CaptureStep::Fail(failure) && failure
                    == SourceError::ErrorFrame,
                _ => step is Retry,
            },
    {
        match captured {
            Captured::Video(Some(video)) => match Self::frame_from(video) {
                Ok(frame) => CaptureStep::Deliver(frame),
                Err(e) => CaptureStep::Fail(e),
            },
            Captured::Video(None) => CaptureStep::Fail(SourceError::MissingVideoData),
            Captured::ErrorFrame => CaptureStep::Fail(SourceError::ErrorFrame),
            _ => CaptureStep::Retry,
        }
    }

    /// The frame buffer of a captured video.
    pub fn frame_from(video: CapturedVideo) -> (built: Result<VideoFrameBuffer, SourceError>)
        ensures
            match frame_of(video) {
                Ok(frame) => built matches Ok(buffer) && buffer@ == frame,
                Err(e) => built matches Err(failure) && failure == e,
            },
    {
        let stride = match video.line_stride {
            Some(stride) => stride as usize,
            None => { return Err(SourceError::MissingLineStride); },
        };
        let pix_fmt = match VideoFramePixelFormat::try_from_four_cc(video.four_cc) {
            Ok(pix_fmt) => pix_fmt,
            Err(e) => { return Err(e); },
        };
        let width = video.width as usize;
        let height = video.height as usize;
        let len = video.data.len();
        let line_stride = stride as u64;
        assert(video.width * video.height <= 0xffff_ffff * 0xffff_ffff && line_stride
            * video.height <= 0xffff_ffff * 0xffff_ffff) by (nonlinear_arith)
            requires
                video.width <= 0xffff_ffff,
                video.height <= 0xffff_ffff,
                line_stride <= 0xffff_ffff,
        ;
        let fits = match pix_fmt {
            VideoFramePixelFormat::I420 => {
                let dim: u128 = (video.width as u128) * (video.height as u128);
                len as u128 == dim + 2 * (dim / 4)
            },
            VideoFramePixelFormat::UYVY => len as u128 == (line_stride as u128) * (
            video.height as u128),
        };
        if !fits {
            return Err(SourceError::MalformedPayload);
        }
        Ok(
            VideoFrameBuffer {
                pix_fmt,
                width,
                height,
                timestamp: capture_timestamp(video.timecode),
                framerate: VideoFramerate::new(video.frame_rate_n, video.frame_rate_d),
                line_stride: stride,
                data: bytes_from_vec(video.data),
            },
        )
    }
}

impl FeedSourceImpl for NDIFeedSource {
    closed spec fn timeout(&self) -> u64 {
        self.recv_timeout
    }

    fn keeps_waiting(&self, elapsed: u64) -> (again: bool) {
        elapsed < self.recv_timeout
    }
}

} // verus!
