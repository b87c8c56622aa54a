//! The feed manager's control plane: the messages it takes, the bitrate it
//! aims for, and the order in which it captures, encodes, paces and sends.
use crate::feed::bitrates::{bounds_ordered, no_clients, target_bitrate, ClientBitrates};
use crate::feed::encoders::nvenc::NvencFeedEncoderConfig;
use crate::feed::encoders::{
    EncoderFrameFlags, EncoderState, FeedEncoder, FeedEncoderConfig, FeedEncoderConfigImpl,
    FeedEncoderImpl, FeedEncoderJob, FeedEncoderRateUpdate, FeedEncoderRelease, RateParameters,
};
use crate::feed::frame::{ColorConversionError, Resolution, VideoFrameBuffer, VideoFramerate};
use crate::feed::sources::{FeedSource, FeedSourceConfig, FeedSourceConfigImpl};
use bytes::Bytes;
use vstd::prelude::*;

verus! {

/// Why a feed could not be configured.
#[derive(Debug, Clone, Copy, PartialEq, Eq, Structural)]
pub enum ConfigError {
    /// The answer to the list of sources was not the index of one of them.
    InvalidSelection,
    /// No source was configured and none was selected.
    MissingSource,
    /// The minimum bitrate lies above the maximum.
    InvalidBitrateBounds,
    /// The frame rate is not positive.
    InvalidFrameRate,
}

/// What the peer workers tell the feed manager.
#[derive(Debug)]
pub enum FeedControlMessage {
    ClientJoined { client_id: String },
    ClientLeft { client_id: String },
    RequestKeyframe,
    BandwidthEstimate { client_id: String, bitrate: u32 },
}

/// What the feed manager sends to every peer worker.
#[derive(Debug, Clone)]
pub enum FeedResultMessage {
    /// One encoded picture: the NAL units of one access unit, back to back.
    EncodedBitstream(Bytes),
}

/// The lowest bitrate that the feed falls to unless told otherwise, in kbps.
pub const DEFAULT_MIN_BITRATE: u32 = 1000;

/// The bitrate that the feed starts at unless told otherwise, in kbps.
pub const DEFAULT_START_BITRATE: u32 = 2000;

/// The highest bitrate that the feed rises to unless told otherwise; 0 for
/// no limit.
pub const DEFAULT_MAX_BITRATE: u32 = 0;

/// The frame rate that the feed is held to unless told otherwise.
pub const DEFAULT_MAX_FPS: u32 = 60;

/// Collects what a feed is configured with.
pub struct FeedConfigBuilder {
    /// Frame source configuration.
    pub source: Option<FeedSourceConfig>,
    /// Frame encoder configuration.
    pub encoder: Option<FeedEncoderConfig>,
    /// Minimum bitrate due to bandwidth-related adjustments, in kbps.
    pub min_bitrate: Option<u32>,
    /// Initial bitrate before bandwidth-related adjustments, in kbps.
    pub start_bitrate: Option<u32>,
    /// Maximum bitrate due to bandwidth-related adjustments, in kbps.
    pub max_bitrate: Option<u32>,
    /// The encoding pipeline will not exceed this frame rate.
    pub max_fps: Option<VideoFramerate>,
    /// If given, frames are resized to this if they are larger.
    pub resolution: Option<Resolution>,
}

/// What a feed is configured with. The bitrate bounds can be met and the
/// frame rate is positive.
pub struct FeedConfig {
    source: FeedSourceConfig,
    encoder: FeedEncoderConfig,
    min_bitrate: u32,
    start_bitrate: u32,
    max_bitrate: u32,
    max_fps: VideoFramerate,
    resolution: Option<Resolution>,
}

impl FeedConfig {
    #[verifier::type_invariant]
    spec fn valid(&self) -> bool {
        bounds_ordered(self.min_bitrate, self.max_bitrate) && self.max_fps.is_positive()
    }

    pub closed spec fn source_config(&self) -> FeedSourceConfig {
        self.source
    }

    pub closed spec fn encoder_config(&self) -> FeedEncoderConfig {
        self.encoder
    }

    /// The lower bound of the target bitrate in kbps; 0 for none.
    pub closed spec fn min(&self) -> u32 {
        self.min_bitrate
    }

    /// The target bitrate while there is no client, in kbps.
    pub closed spec fn start(&self) -> u32 {
        self.start_bitrate
    }

    /// The upper bound of the target bitrate in kbps; 0 for none.
    pub closed spec fn max(&self) -> u32 {
        self.max_bitrate
    }

    pub closed spec fn fps(&self) -> VideoFramerate {
        self.max_fps
    }

    pub closed spec fn forced_resolution(&self) -> Option<Resolution> {
        self.resolution
    }

    pub fn min_bitrate(&self) -> (kbps: u32)
        ensures
            kbps == self.min(),
            bounds_ordered(self.min(), self.max()),
    {
        proof {
            use_type_invariant(self);
        }
        self.min_bitrate
    }

    pub fn start_bitrate(&self) -> (kbps: u32)
        ensures
            kbps == self.start(),
    {
        self.start_bitrate
    }

    pub fn max_bitrate(&self) -> (kbps: u32)
        ensures
            kbps == self.max(),
    {
        self.max_bitrate
    }

    pub fn max_fps(&self) -> (fps: VideoFramerate)
        ensures
            fps == self.fps(),
            fps.is_positive(),
    {
        proof {
            use_type_invariant(self);
        }
        self.max_fps
    }

    pub fn resolution(&self) -> (resolution: Option<Resolution>)
        ensures
            resolution == self.forced_resolution(),
    {
        self.resolution
    }

    pub fn source(&self) -> (source: &FeedSourceConfig)
        ensures
            *source == self.source_config(),
    {
        &self.source
    }

    pub fn encoder(&self) -> (encoder: FeedEncoderConfig)
        ensures
            encoder == self.encoder_config(),
    {
        self.encoder
    }
}

impl FeedConfigBuilder {
    /// A builder with nothing set.
    pub fn new() -> (builder: Self)
        ensures
            builder.source is None,
            builder.encoder is None,
            builder.min_bitrate is None,
            builder.start_bitrate is None,
            builder.max_bitrate is None,
            builder.max_fps is None,
            builder.resolution is None,
    {
        Self {
            source: None,
            encoder: None,
            min_bitrate: None,
            start_bitrate: None,
            max_bitrate: None,
            max_fps: None,
            resolution: None,
        }
    }

    pub fn source(self, source: FeedSourceConfig) -> (builder: Self)
        ensures
            builder == (FeedConfigBuilder { source: Some(source), ..self }),
    {
        let mut builder = self;
        builder.source = Some(source);
        builder
    }

    pub fn encoder(self, encoder: FeedEncoderConfig) -> (builder: Self)
        ensures
            builder == (FeedConfigBuilder { encoder: Some(encoder), ..self }),
    {
        let mut builder = self;
        builder.encoder = Some(encoder);
        builder
    }

    /// The bounds of the target bitrate and where it starts, in kbps. A bound
    /// of 0 is no bound.
    pub fn bitrate(self, min: u32, start: u32, max: u32) -> (builder: Self)
        ensures
            builder == (FeedConfigBuilder {
                min_bitrate: Some(min),
                start_bitrate: Some(start),
                max_bitrate: Some(max),
                ..self
            }),
    {
        let mut builder = self;
        builder.min_bitrate = Some(min);
        builder.start_bitrate = Some(start);
        builder.max_bitrate = Some(max);
        builder
    }

    pub fn fps(self, max_fps: VideoFramerate) -> (builder: Self)
        ensures
            builder == (FeedConfigBuilder { max_fps: Some(max_fps), ..self }),
    {
        let mut builder = self;
        builder.max_fps = Some(max_fps);
        builder
    }

    pub fn resolution(self, resolution: Resolution) -> (builder: Self)
        ensures
            builder == (FeedConfigBuilder { resolution: Some(resolution), ..self }),
    {
        let mut builder = self;
        builder.resolution = Some(resolution);
        builder
    }

    /// The source to build with: the one that was set, else the one that
    /// the user selected.
    pub open spec fn chosen_source(self, selected: Option<FeedSourceConfig>) -> Option<
        FeedSourceConfig,
    > {
        if self.source is Some {
            self.source
        } else {
            selected
        }
    }

    pub open spec fn chosen_min(self) -> u32 {
        match self.min_bitrate {
            Some(kbps) => kbps,
            None => DEFAULT_MIN_BITRATE,
        }
    }

    pub open spec fn chosen_start(self) -> u32 {
        match self.start_bitrate {
            Some(kbps) => kbps,
            None => DEFAULT_START_BITRATE,
        }
    }

    pub open spec fn chosen_max(self) -> u32 {
        match self.max_bitrate {
            Some(kbps) => kbps,
            None => DEFAULT_MAX_BITRATE,
        }
    }

    pub open spec fn chosen_fps(self) -> VideoFramerate {
        match self.max_fps {
            Some(fps) => fps,
            None => VideoFramerate { num: DEFAULT_MAX_FPS, den: 1 },
        }
    }

    /// Why no configuration can be built, if none can.
    pub open spec fn failure(self, selected: Option<FeedSourceConfig>) -> Option<ConfigError> {
        if self.chosen_source(selected) is None {
            Some(ConfigError::MissingSource)
        } else if !bounds_ordered(self.chosen_min(), self.chosen_max()) {
            Some(ConfigError::InvalidBitrateBounds)
        } else if !self.chosen_fps().is_positive() {
            Some(ConfigError::InvalidFrameRate)
        } else {
            None
        }
    }

    /// Builds the configuration. `selected` is the source that the user
    /// picked when asked, if the user was asked; it counts where no source was
    /// set. What else was not set takes its default: the GPU encoder with its
    /// defaults, 1000, 2000 and no limit for the bitrates, 60 frames per second.
    pub fn build_interactive(self, selected: Option<FeedSourceConfig>) -> (built: Result<
        FeedConfig,
        ConfigError,
    >)
        ensures
            match self.failure(selected) {
                Some(e) => built matches Err(failure) && failure == e,
                None => {
                    &&& built matches Ok(config)
                    &&& Some(config.source_config()) == self.chosen_source(selected)
                    &&& config.encoder_config() == match self.encoder {
                        Some(encoder) => encoder,
                        None => FeedEncoderConfig::Nvenc(NvencFeedEncoderConfig::new_default()),
                    }
                    &&& config.min() == self.chosen_min()
                    &&& config.start() == self.chosen_start()
                    &&& config.max() == self.chosen_max()
                    &&& config.fps() == self.chosen_fps()
                    &&& config.forced_resolution() == self.resolution
                },
            },
    {
        let source = match self.source {
            Some(source) => source,
            None => match selected {
                Some(source) => source,
                None => { return Err(ConfigError::MissingSource); },
            },
        };
        let encoder = match self.encoder {
            Some(encoder) => encoder,
            None => FeedEncoderConfig::Nvenc(NvencFeedEncoderConfig::default()),
        };
        let min_bitrate = match self.min_bitrate {
            Some(kbps) => kbps,
            None => DEFAULT_MIN_BITRATE,
        };
        let start_bitrate = match self.start_bitrate {
            Some(kbps) => kbps,
            None => DEFAULT_START_BITRATE,
        };
        let max_bitrate = match self.max_bitrate {
            Some(kbps) => kbps,
            None => DEFAULT_MAX_BITRATE,
        };
        let max_fps = match self.max_fps {
            Some(fps) => fps,
            None => VideoFramerate::new(DEFAULT_MAX_FPS, 1),
        };
        if min_bitrate != 0 && max_bitrate != 0 && min_bitrate > max_bitrate {
            return Err(ConfigError::InvalidBitrateBounds);
        }
        if !max_fps.positive() {
            return Err(ConfigError::InvalidFrameRate);
        }
        Ok(
            FeedConfig {
                source,
                encoder,
                min_bitrate,
                start_bitrate,
                max_bitrate,
                max_fps,
                resolution: self.resolution,
            },
        )
    }
}

/// The clients' bitrates `clients` after `message`, where the target is
/// `target` and the start bitrate `start`. A client joins at the current
/// target, or at the start bitrate if that is lower.
pub open spec fn table_after(
    clients: Map<Seq<char>, u32>,
    target: u32,
    start: u32,
    message: FeedControlMessage,
) -> Map<Seq<char>, u32> {
    match message {
        FeedControlMessage::ClientJoined { client_id } => clients.insert(
            client_id@,
            if target < start {
                target
            } else {
                start
            },
        ),
        FeedControlMessage::BandwidthEstimate { client_id, bitrate } => clients.insert(
            client_id@,
            bitrate,
        ),
        FeedControlMessage::ClientLeft { client_id } => clients.remove(client_id@),
        FeedControlMessage::RequestKeyframe => clients,
    }
}

/// What the feed manager does next, once its inbox is drained.
#[derive(Debug, Clone, Copy, PartialEq, Eq, Structural)]
pub enum FeedStep {
    /// No client is there to watch: wait for the next control message, and
    /// neither capture nor encode.
    AwaitMessage,
    /// Capture a frame, encode it, pace and send it.
    CaptureFrame,
}

/// How long to wait at time `now` so that the next frame is not sent before
/// `period` has passed since `last`; all in nanoseconds.
pub open spec fn pacing_delay(last: u64, period: int, now: u64) -> u64 {
    let wait = last + period - now;
    if wait <= 0 {
        0
    } else if wait > u64::MAX {
        u64::MAX
    } else {
        wait as u64
    }
}

/// The deciding part of the feed manager: the clients' bitrates, the target
/// that follows from them, the pending keyframe request, the encoder's
/// control and the time of the last frame.
pub struct FeedManager {
    config: FeedConfig,
    source: FeedSource,
    encoder: FeedEncoder,
    force_keyframe: bool,
    client_bitrates: ClientBitrates,
    target_bitrate: u32,
    max_fps: VideoFramerate,
    last_frame_time: u64,
}

impl FeedManager {
    /// The manager's encoder is open, its source and its encoder are those
    /// that the configuration asks for, and its frame rate is the configured
    /// one.
    pub closed spec fn wf(&self) -> bool {
        &&& !(self.encoder.encoder_state() is Closed)
        &&& self.encoder.backend_config() == self.config.encoder_config()
        &&& self.source.is_for(self.config.source_config())
        &&& self.max_fps == self.config.fps()
        &&& self.max_fps.is_positive()
        &&& bounds_ordered(self.config.min(), self.config.max())
    }

    /// What holds of every manager that is well formed: the bounds of its
    /// target can be met, its frame rate is positive, its encoder is open and
    /// of the configured backend, and its source is the configured one.
    pub proof fn lemma_wf(&self)
        requires
            self.wf(),
        ensures
            bounds_ordered(self.config().min(), self.config().max()),
            self.config().fps().is_positive(),
            !(self.feed_encoder().encoder_state() is Closed),
            self.feed_encoder().backend_config() == self.config().encoder_config(),
            self.feed_source().is_for(self.config().source_config()),
    {
    }

    pub closed spec fn config(&self) -> FeedConfig {
        self.config
    }

    pub closed spec fn feed_source(&self) -> FeedSource {
        self.source
    }

    pub closed spec fn feed_encoder(&self) -> FeedEncoder {
        self.encoder
    }

    /// The bitrate on record for each client.
    pub closed spec fn clients(&self) -> Map<Seq<char>, u32> {
        self.client_bitrates@
    }

    /// The bitrate that the feed is encoded at, in kbps.
    pub closed spec fn target(&self) -> u32 {
        self.target_bitrate
    }

    /// Whether the next picture has to be a keyframe because a client asked
    /// for one.
    pub closed spec fn keyframe_pending(&self) -> bool {
        self.force_keyframe
    }

    /// When the last frame was paced, in nanoseconds on the manager's clock.
    pub closed spec fn last_frame(&self) -> u64 {
        self.last_frame_time
    }

    /// The rate that the encoder is given for the target `target`.
    pub open spec fn rate_for(&self, target: u32) -> RateParameters {
        RateParameters { target_bitrate: target, max_fps: self.config().fps() }
    }

    /// The target that follows from the clients' bitrates `clients`.
    pub open spec fn target_for(&self, clients: Map<Seq<char>, u32>) -> u32 {
        target_bitrate(clients, self.config().start(), self.config().min(), self.config().max())
    }

    /// The clients' bitrates after `message`.
    pub open spec fn clients_after(&self, message: FeedControlMessage) -> Map<Seq<char>, u32> {
        table_after(self.clients(), self.target(), self.config().start(), message)
    }

    /// A manager at time `now`, without clients: the target is the start
    /// bitrate as it is configured, and the encoder waits for its first
    /// picture at that rate.
    pub fn new(config: FeedConfig, now: u64) -> (manager: Self)
        ensures
            manager.wf(),
            manager.config() == config,
            manager.clients() == Map::<Seq<char>, u32>::empty(),
            manager.target() == config.start(),
            !manager.keyframe_pending(),
            manager.last_frame() == now,
            manager.feed_encoder().encoder_state() == (EncoderState::Uninitialized {
                rate: manager.rate_for(config.start()),
            }),
            manager.feed_encoder().backend_config() == config.encoder_config(),
            manager.feed_source().is_for(config.source_config()),
    {
        proof {
            use_type_invariant(&config);
        }
        let max_fps = config.max_fps();
        let target_bitrate = config.start_bitrate();
        let source = config.source().build();
        let encoder = config.encoder().build(RateParameters { max_fps, target_bitrate });
        Self {
            config,
            source,
            encoder,
            force_keyframe: false,
            client_bitrates: ClientBitrates::new(),
            target_bitrate,
            max_fps,
            last_frame_time: now,
        }
    }

    pub fn target_bitrate(&self) -> (kbps: u32)
        ensures
            kbps == self.target(),
    {
        self.target_bitrate
    }

    pub fn source(&self) -> (source: &FeedSource)
        ensures
            *source == self.feed_source(),
    {
        &self.source
    }

    pub fn encoder(&self) -> (encoder: &FeedEncoder)
        ensures
            *encoder == self.feed_encoder(),
    {
        &self.encoder
    }

    /// The bitrate on record for a client.
    pub fn client_bitrate(&self, client_id: &String) -> (bitrate: Option<u32>)
        ensures
            bitrate == if self.clients().dom().contains(client_id@) {
                Some(self.clients()[client_id@])
            } else {
                None
            },
    {
        self.client_bitrates.get(client_id)
    }

    /// What to do once the inbox is drained: with no client in the table
    /// there is nothing to capture or encode for.
    pub fn next_step(&self) -> (step: FeedStep)
        ensures
            step == if no_clients(self.clients()) {
                FeedStep::AwaitMessage
            } else {
                FeedStep::CaptureFrame
            },
    {
        if self.client_bitrates.is_empty() {
            FeedStep::AwaitMessage
        } else {
            FeedStep::CaptureFrame
        }
    }

    /// Applies one control message.
    ///
    /// A request for a keyframe is noted for the next picture and changes
    /// nothing else. A client that joins, leaves or reports its bandwidth
    /// changes the table; the target is then worked out anew, and the update
    /// that comes back brings it to the encoder.
    pub fn process_control_message(&mut self, message: FeedControlMessage) -> (update: Option<
        FeedEncoderRateUpdate,
    >)
        requires
            old(self).wf(),
        ensures
            final(self).wf(),
            final(self).config() == old(self).config(),
            final(self).feed_source() == old(self).feed_source(),
            final(self).feed_encoder().backend_config() == old(
                self,
            ).feed_encoder().backend_config(),
            final(self).last_frame() == old(self).last_frame(),
            final(self).clients() == old(self).clients_after(message),
            message is RequestKeyframe ==> {
                &&& update is None
                &&& final(self).keyframe_pending()
                &&& final(self).target() == old(self).target()
                &&& final(self).feed_encoder() == old(self).feed_encoder()
            },
            !(message is RequestKeyframe) ==> {
                let target = old(self).target_for(old(self).clients_after(message));
                &&& final(self).keyframe_pending() == old(self).keyframe_pending()
                &&& final(self).target() == target
                &&& update == Some(old(self).feed_encoder().rate_update(old(self).rate_for(target)))
                &&& final(self).feed_encoder().encoder_state() == old(
                    self,
                ).feed_encoder().encoder_state().after_rate(old(self).rate_for(target))
            },
    {
        match message {
            FeedControlMessage::ClientJoined { client_id } => {
                let bitrate = if self.target_bitrate < self.config.start_bitrate() {
                    self.target_bitrate
                } else {
                    self.config.start_bitrate()
                };
                self.client_bitrates.insert(client_id, bitrate);
                Some(self.update_target_bitrate())
            },
            FeedControlMessage::BandwidthEstimate { client_id, bitrate } => {
                self.client_bitrates.insert(client_id, bitrate);
                Some(self.update_target_bitrate())
            },
            FeedControlMessage::ClientLeft { client_id } => {
                self.client_bitrates.remove(&client_id);
                Some(self.update_target_bitrate())
            },
            FeedControlMessage::RequestKeyframe => {
                self.force_keyframe = true;
                None
            },
        }
    }

    /// Works the target out anew: the lowest of the clients' bitrates, or the
    /// start bitrate while there is no client, held to the configured bounds.
    /// The update that comes back brings it to the encoder.
    pub fn update_target_bitrate(&mut self) -> (update: FeedEncoderRateUpdate)
        requires
            old(self).wf(),
        ensures
            final(self).wf(),
            final(self).config() == old(self).config(),
            final(self).feed_source() == old(self).feed_source(),
            final(self).feed_encoder().backend_config() == old(
                self,
            ).feed_encoder().backend_config(),
            final(self).clients() == old(self).clients(),
            final(self).keyframe_pending() == old(self).keyframe_pending(),
            final(self).last_frame() == old(self).last_frame(),
            final(self).target() == old(self).target_for(old(self).clients()),
            update == old(self).feed_encoder().rate_update(
                old(self).rate_for(final(self).target()),
            ),
            final(self).feed_encoder().encoder_state() == old(
                self,
            ).feed_encoder().encoder_state().after_rate(old(self).rate_for(final(self).target())),
    {
        let start = self.config.start_bitrate();
        let min = self.config.min_bitrate();
        let max = self.config.max_bitrate();
        let lowest = match self.client_bitrates.min() {
            Some(bitrate) => bitrate,
            None => start,
        };
        self.target_bitrate = if min != 0 && lowest < min {
            min
        } else if max != 0 && lowest > max {
            max
        } else {
            lowest
        };
        let rate = RateParameters { target_bitrate: self.target_bitrate, max_fps: self.max_fps };
        self.encoder.set_rate(rate)
    }

    /// Prepares one captured frame for the encoder. A keyframe request that
    /// was pending goes with this frame and is pending no more.
    pub fn encode(&mut self, frame: &VideoFrameBuffer) -> (prepared: Result<
        FeedEncoderJob,
        ColorConversionError,
    >)
        requires
            old(self).wf(),
            frame@.wf(),
        ensures
            final(self).wf(),
            final(self).config() == old(self).config(),
            final(self).feed_source() == old(self).feed_source(),
            final(self).feed_encoder().backend_config() == old(
                self,
            ).feed_encoder().backend_config(),
            final(self).clients() == old(self).clients(),
            final(self).target() == old(self).target(),
            final(self).last_frame() == old(self).last_frame(),
            !final(self).keyframe_pending(),
            old(self).feed_encoder().prepares(
                frame@,
                EncoderFrameFlags { force_keyframe: old(self).keyframe_pending() },
                prepared,
            ),
            final(self).feed_encoder().encoder_state() == if frame@.to_i420() is Ok {
                old(self).feed_encoder().encoder_state().after_frame(frame@.resolution())
            } else {
                old(self).feed_encoder().encoder_state()
            },
    {
        let force_keyframe = self.force_keyframe;
        self.force_keyframe = false;
        self.encoder.encode(frame, EncoderFrameFlags { force_keyframe })
    }

    /// Sleep to meet the target frame rate: how long to wait at time `now`
    /// before the frame that was just encoded is sent, in nanoseconds. There
    /// is nothing to wait for once a frame period has passed since the last
    /// frame.
    pub fn rate_limit(&self, now: u64) -> (delay: u64)
        requires
            self.wf(),
        ensures
            delay == pacing_delay(self.last_frame(), self.config().fps().period_nanos(), now),
            delay < u64::MAX ==> now + delay >= self.last_frame() + self.config().fps().period_nanos(),
            now >= self.last_frame() + self.config().fps().period_nanos() ==> delay == 0,
    {
        let period = self.max_fps.frame_period();
        let deadline: u128 = self.last_frame_time as u128 + period as u128;
        if deadline <= now as u128 {
            0
        } else {
            let wait: u128 = deadline - now as u128;
            if wait > u64::MAX as u128 {
                u64::MAX
            } else {
                wait as u64
            }
        }
    }

    /// Notes that the frame was paced at time `now`, when the wait was over
    /// or was found to be unnecessary.
    pub fn frame_paced(&mut self, now: u64)
        requires
            old(self).wf(),
        ensures
            final(self).wf(),
            final(self).config() == old(self).config(),
            final(self).clients() == old(self).clients(),
            final(self).target() == old(self).target(),
            final(self).keyframe_pending() == old(self).keyframe_pending(),
            final(self).feed_source() == old(self).feed_source(),
            final(self).feed_encoder() == old(self).feed_encoder(),
            final(self).last_frame() == now,
    {
        self.last_frame_time = now;
    }

    /// Closes the encoder: the manager has done its work. Says what to
    /// release of the native encoder, in order. Nothing else changes.
    pub fn close(&mut self) -> (released: FeedEncoderRelease)
        ensures
            final(self).config() == old(self).config(),
            final(self).feed_source() == old(self).feed_source(),
            final(self).clients() == old(self).clients(),
            final(self).target() == old(self).target(),
            final(self).keyframe_pending() == old(self).keyframe_pending(),
            final(self).last_frame() == old(self).last_frame(),
            final(self).feed_encoder().encoder_state() == EncoderState::Closed,
            final(self).feed_encoder().backend_config() == old(
                self,
            ).feed_encoder().backend_config(),
            old(self).feed_encoder().releases(released),
    {
        self.encoder.close()
    }
}

proof fn lemma_paced_span(times: Seq<int>, period: int, first: int, last: int)
    requires
        forall|i: int| 0 <= i < times.len() - 1 ==> #[trigger] times[i + 1] - times[i] >= period,
        0 <= first <= last < times.len(),
    ensures
        times[last] - times[first] >= (last - first) * period,
    decreases last - first,
{
    if first < last {
        lemma_paced_span(times, period, first, last - 1);
        assert(times[(last - 1) + 1] - times[last - 1] >= period);
        assert((last - first) * period == (last - 1 - first) * period + period)
            by (nonlinear_arith);
    } else {
        assert((last - first) * period == 0) by (nonlinear_arith)
            requires
                last == first,
        ;
    }
}

/// Pacing holds the feed to its frame rate: of frames that were each sent
/// no sooner than one frame period after the one before, fewer fall into any
/// one second than the rate has frames per second, the first of them aside.
/// `times` are the times at which the frames were sent, in nanoseconds.
pub proof fn lemma_paced_frames_per_second(
    times: Seq<int>,
    rate: VideoFramerate,
    first: int,
    last: int,
)
    requires
        rate.is_positive(),
        forall|i: int|
            0 <= i < times.len() - 1 ==> #[trigger] times[i + 1] - times[i]
                >= rate.period_nanos(),
        0 <= first <= last < times.len(),
        times[last] - times[first] < 1_000_000_000,
    ensures
        (last - first) * rate.den < rate.num,
{
    let period = rate.period_nanos();
    let span = last - first;
    let num = rate.num as int;
    let den = rate.den as int;
    lemma_paced_span(times, period, first, last);
    assert(period * num >= 1_000_000_000 * den) by (nonlinear_arith)
        requires
            num > 0,
            den > 0,
            period == (1_000_000_000 * den + num - 1) / num,
    ;
    assert(span * den < num) by (nonlinear_arith)
        requires
            span >= 0,
            num > 0,
            den > 0,
            span * period < 1_000_000_000,
            period * num >= 1_000_000_000 * den,
    ;
}

} // verus!
