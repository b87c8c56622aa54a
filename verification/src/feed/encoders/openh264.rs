//! The software backend: what to tell an OpenH264 encoder, and how to read
//! what it hands back.
use crate::feed::encoders::{
    EncoderControl, EncoderFrameFlags, EncoderSetup, EncoderState, FeedEncoderImpl, RateParameters,
};
use crate::feed::frame::{
    ColorConversionError, Resolution, VideoFrameBuffer, VideoFramePixelFormat, VideoFramerate,
};
use crate::shared_bytes::{bytes_from_vec, contents};
use bytes::Bytes;
use vstd::prelude::*;

verus! {

/// A status other than success, as the encoder library returned it.
#[derive(Debug, Clone, Copy, PartialEq, Eq, Structural)]
pub struct OpenH264Error(i32);

impl OpenH264Error {
    /// The status that the library returned.
    pub closed spec fn code(self) -> i32 {
        self.0
    }

    /// Reads the status of a native call: zero is success, anything else is
    /// an error that carries the status.
    pub fn ok(status: i32) -> (checked: Result<(), OpenH264Error>)
        ensures
            match checked {
                Ok(_) => status == 0,
                Err(e) => status != 0 && e.code() == status,
            },
    {
        if status == 0 {
            Ok(())
        } else {
            Err(OpenH264Error(status))
        }
    }

    pub fn status(&self) -> (status: i32)
        ensures
            status == self.code(),
    {
        self.0
    }
}

/// What kind of content the encoder is tuned for.
#[derive(Debug, Clone, Copy, PartialEq, Eq, Structural)]
pub enum UsageType {
    CameraVideoRealTime,
    ScreenContentRealTime,
    CameraVideoNonRealTime,
    ScreenContentNonRealTime,
}

/// How the encoder controls its rate.
#[derive(Debug, Clone, Copy, PartialEq, Eq, Structural)]
pub enum RateControlMode {
    Quality,
    Bitrate,
    BufferBased,
    Timestamp,
    Off,
}

/// How a picture is cut into slices.
#[derive(Debug, Clone, Copy, PartialEq, Eq, Structural)]
pub enum SliceMode {
    Single,
    FixedSliceCount,
    Raster,
    SizeLimited,
}

/// The parameters of the one spatial layer.
#[derive(Debug, Clone, Copy, PartialEq, Eq, Structural)]
pub struct SpatialLayerParams {
    pub video_width: u32,
    pub video_height: u32,
    pub frame_rate: VideoFramerate,
    /// Bits per second.
    pub spatial_bitrate: u64,
    pub slice_count: u32,
    pub slice_mode: SliceMode,
}

/// Every encoder parameter that this backend sets. What is not named here is
/// left at the library's default.
#[derive(Debug, Clone, Copy, PartialEq, Eq, Structural)]
pub struct OpenH264Params {
    pub pic_width: u32,
    pub pic_height: u32,
    /// Bits per second.
    pub target_bitrate: u64,
    pub max_frame_rate: VideoFramerate,
    pub usage_type: UsageType,
    /// Bits per second; `None` leaves the maximum unspecified.
    pub max_bitrate: Option<u64>,
    pub rate_control: RateControlMode,
    pub enable_frame_skip: bool,
    /// Pictures from one keyframe to the next; 0 for keyframes on demand only.
    pub intra_period: u32,
    /// 0 for no limit.
    pub max_nal_size: u32,
    pub thread_count: u16,
    pub enable_adaptive_quant: bool,
    pub enable_background_detection: bool,
    pub layer: SpatialLayerParams,
    pub temporal_layers: u32,
}

/// How the software backend is configured.
#[derive(Debug, Clone, Copy, PartialEq, Eq, Structural)]
pub struct OpenH264FeedEncoderConfig {
    keyframe_interval: u32,
    debug: bool,
}

impl OpenH264FeedEncoderConfig {
    /// Pictures from one keyframe to the next; 0 for keyframes on demand only.
    pub closed spec fn interval(self) -> u32 {
        self.keyframe_interval
    }

    /// Whether the library is asked to trace in detail.
    pub closed spec fn traces(self) -> bool {
        self.debug
    }

    pub fn new(keyframe_interval: u32, debug: bool) -> (config: Self)
        ensures
            config.interval() == keyframe_interval,
            config.traces() == debug,
    {
        Self { keyframe_interval, debug }
    }

    /// The parameters for pictures of `resolution` at `rate`: screen
    /// content in real time, constant bitrate at a thousand times the
    /// target in kbps, frame skipping on, one slice per picture, one
    /// temporal layer, three threads, adaptive quantization and background
    /// detection off.
    pub open spec fn params_for(self, resolution: Resolution, rate: RateParameters) -> OpenH264Params {
        OpenH264Params {
            pic_width: resolution.0,
            pic_height: resolution.1,
            target_bitrate: (rate.target_bitrate * 1000) as u64,
            max_frame_rate: rate.max_fps,
            usage_type: UsageType::ScreenContentRealTime,
            max_bitrate: None,
            rate_control: RateControlMode::Bitrate,
            enable_frame_skip: true,
            intra_period: self.interval(),
            max_nal_size: 0,
            thread_count: 3,
            enable_adaptive_quant: false,
            enable_background_detection: false,
            layer: SpatialLayerParams {
                video_width: resolution.0,
                video_height: resolution.1,
                frame_rate: rate.max_fps,
                spatial_bitrate: (rate.target_bitrate * 1000) as u64,
                slice_count: 1,
                slice_mode: SliceMode::FixedSliceCount,
            },
            temporal_layers: 1,
        }
    }

    /// The native calls that `setup` stands for.
    pub open spec fn native_setup(self, setup: EncoderSetup) -> OpenH264Setup {
        match setup {
            EncoderSetup::Keep => OpenH264Setup::Keep,
            EncoderSetup::Initialize { resolution, rate } => OpenH264Setup::Initialize {
                params: self.params_for(resolution, rate),
                trace_detail: self.traces(),
            },
            EncoderSetup::Reconfigure { resolution, rate, .. } => OpenH264Setup::Update {
                params: self.params_for(resolution, rate),
            },
        }
    }
}

impl Default for OpenH264FeedEncoderConfig {
    fn default() -> (config: Self)
        ensures
            config.interval() == 0,
            !config.traces(),
    {
        Self { keyframe_interval: 0, debug: false }
    }
}

/// What to do to the native encoder before a picture is submitted.
#[derive(Debug, Clone, Copy, PartialEq, Eq, Structural)]
pub enum OpenH264Setup {
    /// Nothing.
    Keep,
    /// Initialize the encoder with `params`, set the trace level to detail
    /// where `trace_detail` says so, and set the input format to planar 4:2:0.
    Initialize { params: OpenH264Params, trace_detail: bool },
    /// Hand `params` to the running encoder as its new parameters.
    Update { params: OpenH264Params },
}

/// One picture as the encoder takes it: planar 4:2:0, with the row strides
/// of its three planes.
pub struct SourcePicture {
    pub width: usize,
    pub height: usize,
    /// Presentation time in milliseconds.
    pub timestamp: u64,
    pub strides: (usize, usize, usize),
    /// The planes are those of `frame.yuv_slices()`.
    pub frame: VideoFrameBuffer,
}

/// The native calls of one `encode`, in the order in which they are made:
/// the setup, a request for an intra frame where one is due, and the
/// picture itself.
pub struct OpenH264Job {
    pub setup: OpenH264Setup,
    pub force_intra_frame: bool,
    pub picture: SourcePicture,
}

/// What a new rate means for the native encoder.
#[derive(Debug, Clone, Copy, PartialEq, Eq, Structural)]
pub enum OpenH264RateUpdate {
    /// Nothing yet: the rate waits for the first picture.
    Stored,
    /// Set the frame rate option, then the bitrate option for all layers.
    Apply {
        max_frame_rate: VideoFramerate,
        /// Bits per second.
        bitrate: u64,
    },
}

/// The software encoder's control: its configuration and where it stands.
pub struct OpenH264FeedEncoder {
    config: OpenH264FeedEncoderConfig,
    control: EncoderControl,
}

impl OpenH264FeedEncoder {
    pub closed spec fn config(&self) -> OpenH264FeedEncoderConfig {
        self.config
    }

    /// Where the encoder stands.
    pub closed spec fn state(&self) -> EncoderState {
        self.control@
    }

    /// The rate update that `setup` stands for.
    pub open spec fn native_rate_update(setup: EncoderSetup) -> OpenH264RateUpdate {
        match setup {
            EncoderSetup::Reconfigure { rate, .. } => OpenH264RateUpdate::Apply {
                max_frame_rate: rate.max_fps,
                bitrate: (rate.target_bitrate * 1000) as u64,
            },
            _ => OpenH264RateUpdate::Stored,
        }
    }

    /// An encoder that has seen no picture yet.
    pub fn new(config: &OpenH264FeedEncoderConfig, rate: RateParameters) -> (encoder: Self)
        ensures
            encoder.config() == *config,
            encoder.state() == (EncoderState::Uninitialized { rate }),
    {
        Self { config: *config, control: EncoderControl::new(rate) }
    }

    pub fn current_state(&self) -> (state: EncoderState)
        ensures
            state == self.state(),
    {
        self.control.state()
    }

    /// The encoder parameters for pictures of `resolution` at `rate`.
    pub fn create_encoder_params(&self, resolution: Resolution, rate: RateParameters) -> (params:
        OpenH264Params)
        ensures
            params == self.config().params_for(resolution, rate),
    {
        let bitrate: u64 = (rate.target_bitrate as u64) * 1000;
        OpenH264Params {
            pic_width: resolution.0,
            pic_height: resolution.1,
            target_bitrate: bitrate,
            max_frame_rate: rate.max_fps,
            usage_type: UsageType::ScreenContentRealTime,
            max_bitrate: None,
            rate_control: RateControlMode::Bitrate,
            enable_frame_skip: true,
            intra_period: self.config.keyframe_interval,
            max_nal_size: 0,
            thread_count: 3,
            enable_adaptive_quant: false,
            enable_background_detection: false,
            layer: SpatialLayerParams {
                video_width: resolution.0,
                video_height: resolution.1,
                frame_rate: rate.max_fps,
                spatial_bitrate: bitrate,
                slice_count: 1,
                slice_mode: SliceMode::FixedSliceCount,
            },
            temporal_layers: 1,
        }
    }

    /// Closes the encoder. Says whether the native encoder is to be
    /// destroyed: it is, unless the encoder was closed before.
    pub fn close(&mut self) -> (destroy: bool)
        ensures
            final(self).config() == old(self).config(),
            final(self).state() == EncoderState::Closed,
            destroy == !(old(self).state() is Closed),
    {
        let destroy = match self.control.state() {
            EncoderState::Closed => false,
            _ => true,
        };
        self.control.close();
        destroy
    }
}

impl FeedEncoderImpl for OpenH264FeedEncoder {
    type Job = OpenH264Job;

    type RateUpdate = OpenH264RateUpdate;

    open spec fn encoder_state(&self) -> EncoderState {
        self.state()
    }

    /// Prepares one picture for the native encoder.
    ///
    /// The frame is converted to planar 4:2:0 first; where that fails the
    /// encoder is left as it was. Then the encoder is initialized if this is
    /// its first picture, or given new parameters if the resolution has
    /// changed; either way the picture becomes a keyframe. The job that comes
    /// back holds the native calls to make.
    fn encode(&mut self, frame: &VideoFrameBuffer, flags: EncoderFrameFlags) -> (prepared:
        Result<OpenH264Job, ColorConversionError>)
        ensures
            final(self).config() == old(self).config(),
            match frame@.to_i420() {
                Err(e) => {
                    &&& prepared == Err::<OpenH264Job, ColorConversionError>(e)
                    &&& final(self).state() == old(self).state()
                },
                Ok(planar) => {
                    let resolution = frame@.resolution();
                    &&& prepared matches Ok(job)
                    &&& job.setup == old(self).config().native_setup(
                        old(self).state().frame_setup(resolution),
                    )
                    &&& job.force_intra_frame == old(self).state().frame_is_keyframe(
                        resolution,
                        flags,
                    )
                    &&& job.picture.frame@ == planar
                    &&& job.picture.width == frame.width
                    &&& job.picture.height == frame.height
                    &&& job.picture.timestamp == frame@.timestamp / 1000
                    &&& job.picture.strides == (frame.width, frame.width / 2, frame.width / 2)
                    &&& final(self).state() == old(self).state().after_frame(resolution)
                },
            },
    {
        assert(self.encoder_state() == self.state());
        let planar = match frame.to_i420() {
            Ok(planar) => planar,
            Err(e) => { return Err(e); },
        };
        let resolution = frame.resolution();
        let (decision, force_intra_frame) = self.control.on_frame(resolution, flags);
        let setup = match decision {
            EncoderSetup::Keep => OpenH264Setup::Keep,
            EncoderSetup::Initialize { resolution, rate } => OpenH264Setup::Initialize {
                params: self.create_encoder_params(resolution, rate),
                trace_detail: self.config.debug,
            },
            EncoderSetup::Reconfigure { resolution, rate, .. } => OpenH264Setup::Update {
                params: self.create_encoder_params(resolution, rate),
            },
        };
        let width = planar.width;
        let picture = SourcePicture {
            width,
            height: planar.height,
            timestamp: planar.timestamp.to_millis(),
            strides: (width, width / 2, width / 2),
            frame: planar,
        };
        Ok(OpenH264Job { setup, force_intra_frame, picture })
    }

    /// Takes a new rate. Before the first picture it is only stored; after
    /// it, the running encoder is given the new frame rate and bitrate, and
    /// no keyframe is asked for.
    fn set_rate(&mut self, rate: RateParameters) -> (update: OpenH264RateUpdate)
        ensures
            final(self).config() == old(self).config(),
            final(self).state() == old(self).state().after_rate(rate),
            update == Self::native_rate_update(old(self).state().rate_setup(rate)),
    {
        assert(self.encoder_state() == self.state());
        match self.control.on_rate(rate) {
            EncoderSetup::Reconfigure { rate, .. } => OpenH264RateUpdate::Apply {
                max_frame_rate: rate.max_fps,
                bitrate: (rate.target_bitrate as u64) * 1000,
            },
            _ => OpenH264RateUpdate::Stored,
        }
    }
}

/// The sum of `lengths`.
pub open spec fn total_length(lengths: Seq<i32>) -> int
    decreases lengths.len(),
{
    if lengths.len() == 0 {
        0
    } else {
        total_length(lengths.drop_last()) + lengths.last()
    }
}

/// `layers` one after another.
pub open spec fn concat_layers(layers: Seq<Seq<u8>>) -> Seq<u8>
    decreases layers.len(),
{
    if layers.len() == 0 {
        Seq::empty()
    } else {
        concat_layers(layers.drop_last()) + layers.last()
    }
}

/// The size in bytes of one layer of the encoder's output: its NAL units
/// lie back to back, so it is the sum of their lengths. There is none where
/// a length is negative or the sum does not fit.
pub fn layer_size(nal_lengths: &[i32]) -> (size: Option<usize>)
    ensures
        match size {
            Some(n) => n == total_length(nal_lengths@) && forall|i: int|
                0 <= i < nal_lengths@.len() ==> nal_lengths@[i] >= 0,
            None => total_length(nal_lengths@) > usize::MAX || exists|i: int|
                0 <= i < nal_lengths@.len() && nal_lengths@[i] < 0,
        },
{
    let mut size: usize = 0;
    let mut index: usize = 0;
    while index < nal_lengths.len()
        invariant
            index <= nal_lengths@.len(),
            size == total_length(nal_lengths@.take(index as int)),
            forall|i: int| 0 <= i < index ==> nal_lengths@[i] >= 0,
        decreases nal_lengths@.len() - index,
    {
        let length = nal_lengths[index];
        proof {
            let upto = nal_lengths@.take(index + 1);
            assert(upto.drop_last() =~= nal_lengths@.take(index as int));
            assert(upto.last() == length);
        }
        if length < 0 {
            return None;
        }
        match size.checked_add(length as usize) {
            Some(sum) => { size = sum; },
            None => {
                proof {
                    if forall|i: int| index < i < nal_lengths@.len() ==> nal_lengths@[i] >= 0 {
                        lemma_total_length_grows(nal_lengths@, index + 1);
                    }
                }
                return None;
            },
        }
        index += 1;
    }
    assert(nal_lengths@.take(index as int) =~= nal_lengths@);
    Some(size)
}

proof fn lemma_total_length_grows(lengths: Seq<i32>, upto: int)
    requires
        0 <= upto <= lengths.len(),
        forall|i: int| upto <= i < lengths.len() ==> lengths[i] >= 0,
    ensures
        total_length(lengths.take(upto)) <= total_length(lengths),
    decreases lengths.len() - upto,
{
    if upto < lengths.len() {
        let next = lengths.take(upto + 1);
        assert(next.drop_last() =~= lengths.take(upto));
        lemma_total_length_grows(lengths, upto + 1);
    } else {
        assert(lengths.take(upto) =~= lengths);
    }
}

/// The encoded picture: the bytes of each layer, in order, as one buffer.
pub fn assemble_bitstream(layers: &Vec<Vec<u8>>) -> (bitstream: Bytes)
    ensures
        contents(bitstream) == concat_layers(layers.deep_view()),
{
    let mut gathered: Vec<u8> = Vec::new();
    let mut index: usize = 0;
    while index < layers.len()
        invariant
            index <= layers.len(),
            gathered@ == concat_layers(layers.deep_view().take(index as int)),
        decreases layers.len() - index,
    {
        proof {
            let upto = layers.deep_view().take(index + 1);
            assert(upto.drop_last() =~= layers.deep_view().take(index as int));
            assert(upto.last() == layers[index as int]@);
        }
        gathered.extend_from_slice(layers[index].as_slice());
        index += 1;
    }
    assert(layers.deep_view().take(index as int) =~= layers.deep_view());
    bytes_from_vec(gathered)
}

} // verus!
