//! What the two encoder backends have in common: the flags and rates they
//! take, and the state machine that decides when the native encoder is set
//! up, reconfigured and asked for a keyframe.
//!
//! The native encoder itself lives outside this library. An encoder here
//! takes a frame or a rate and returns the native calls to make, with every
//! parameter worked out.
pub mod nvenc;
pub mod openh264;

use crate::feed::encoders::nvenc::{
    release_order, NvencFeedEncoder, NvencFeedEncoderConfig, NvencJob, NvencResource, NvencSetup,
};
use crate::feed::encoders::openh264::{
    OpenH264FeedEncoder, OpenH264FeedEncoderConfig, OpenH264Job, OpenH264RateUpdate,
};
use crate::feed::frame::{
    ColorConversionError, FrameView, Resolution, VideoFrameBuffer, VideoFramerate,
};
use vstd::prelude::*;

verus! {

/// What the caller asks of one picture.
#[derive(Debug, Clone, Copy, PartialEq, Eq, Structural)]
pub struct EncoderFrameFlags {
    /// Encode this picture as an IDR, with its parameter sets.
    pub force_keyframe: bool,
}

impl Default for EncoderFrameFlags {
    fn default() -> (flags: Self)
        ensures
            !flags.force_keyframe,
    {
        Self { force_keyframe: false }
    }
}

/// The rate an encoder aims for.
#[derive(Debug, Clone, Copy, PartialEq, Eq, Structural)]
pub struct RateParameters {
    /// Target bitrate in kbps.
    pub target_bitrate: u32,
    /// The most frames per second that will be submitted.
    pub max_fps: VideoFramerate,
}

/// The native libraries that an encoder calls into.
#[derive(Debug, Clone, Copy, PartialEq, Eq, Structural)]
pub enum EncoderBackend {
    OpenH264,
    Nvenc,
    Cuda,
}

/// A native call that failed: which library it was, and the status that it
/// returned.
#[derive(Debug, Clone, Copy, PartialEq, Eq, Structural)]
pub struct EncoderError {
    pub backend: EncoderBackend,
    pub status: i32,
}

impl EncoderError {
    /// Reads the status of a native call of `backend`: zero is success,
    /// anything else is an error that carries the status.
    pub fn check(backend: EncoderBackend, status: i32) -> (checked: Result<(), EncoderError>)
        ensures
            match checked {
                Ok(_) => status == 0,
                Err(e) => status != 0 && e == (EncoderError { backend, status }),
            },
    {
        if status == 0 {
            Ok(())
        } else {
            Err(EncoderError { backend, status })
        }
    }
}

/// Where an encoder stands.
#[derive(Debug, Clone, Copy, PartialEq, Eq)]
pub enum EncoderState {
    /// No picture has been submitted; the native encoder has not been
    /// initialized. The rate waits for the first picture.
    Uninitialized { rate: RateParameters },
    /// The native encoder is set up for pictures of `resolution` at `rate`.
    Ready { resolution: Resolution, rate: RateParameters },
    /// The native handles have been released.
    Closed,
}

/// What has to be done to the native encoder before the next picture.
#[derive(Debug, Clone, Copy, PartialEq, Eq)]
pub enum EncoderSetup {
    /// Nothing: the encoder is left as it is.
    Keep,
    /// Initialize it, for the first time.
    Initialize { resolution: Resolution, rate: RateParameters },
    /// Reconfigure it in place.
    Reconfigure { resolution: Resolution, rate: RateParameters, force_idr: bool },
}

impl EncoderState {
    /// The rate that is in force, or that waits for the first picture.
    pub open spec fn rate(self) -> Option<RateParameters> {
        match self {
            EncoderState::Uninitialized { rate } => Some(rate),
            EncoderState::Ready { rate, .. } => Some(rate),
            EncoderState::Closed => None,
        }
    }

    /// The setup that a picture of `resolution` calls for.
    pub open spec fn frame_setup(self, resolution: Resolution) -> EncoderSetup {
        match self {
            EncoderState::Uninitialized { rate } => EncoderSetup::Initialize { resolution, rate },
            EncoderState::Ready { resolution: previous, rate } => if previous == resolution {
                EncoderSetup::Keep
            } else {
                EncoderSetup::Reconfigure { resolution, rate, force_idr: true }
            },
            EncoderState::Closed => EncoderSetup::Keep,
        }
    }

    /// Whether a picture of `resolution` submitted with `flags` is encoded
    /// as a keyframe: when the caller asks for one, and whenever the
    /// encoder had to be set up for it.
    pub open spec fn frame_is_keyframe(
        self,
        resolution: Resolution,
        flags: EncoderFrameFlags,
    ) -> bool {
        flags.force_keyframe || !(self.frame_setup(resolution) is Keep)
    }

    /// The state after a picture of `resolution`.
    pub open spec fn after_frame(self, resolution: Resolution) -> EncoderState {
        match self {
            EncoderState::Uninitialized { rate } => EncoderState::Ready { resolution, rate },
            EncoderState::Ready { rate, .. } => EncoderState::Ready { resolution, rate },
            EncoderState::Closed => EncoderState::Closed,
        }
    }

    /// The setup that a new rate calls for: none before the first
    /// picture, a reconfiguration without a keyframe after it.
    pub open spec fn rate_setup(self, rate: RateParameters) -> EncoderSetup {
        match self {
            EncoderState::Ready { resolution, .. } => EncoderSetup::Reconfigure {
                resolution,
                rate,
                force_idr: false,
            },
            _ => EncoderSetup::Keep,
        }
    }

    /// The state after a new rate.
    pub open spec fn after_rate(self, rate: RateParameters) -> EncoderState {
        match self {
            EncoderState::Uninitialized { .. } => EncoderState::Uninitialized { rate },
            EncoderState::Ready { resolution, .. } => EncoderState::Ready { resolution, rate },
            EncoderState::Closed => EncoderState::Closed,
        }
    }

    /// The state after the rates of `rates`, one after another.
    pub open spec fn after_rates(self, rates: Seq<RateParameters>) -> EncoderState
        decreases rates.len(),
    {
        if rates.len() == 0 {
            self
        } else {
            self.after_rates(rates.drop_last()).after_rate(rates.last())
        }
    }
}

/// The state machine of one encoder.
#[derive(Debug, Clone, Copy)]
pub struct EncoderControl {
    state: EncoderState,
}

impl View for EncoderControl {
    type V = EncoderState;

    closed spec fn view(&self) -> EncoderState {
        self.state
    }
}

impl EncoderControl {
    /// An encoder that has seen no picture yet.
    pub fn new(rate: RateParameters) -> (control: Self)
        ensures
            control@ == (EncoderState::Uninitialized { rate }),
    {
        Self { state: EncoderState::Uninitialized { rate } }
    }

    pub fn state(&self) -> (state: EncoderState)
        ensures
            state == self@,
    {
        self.state
    }

    /// Takes a picture of `resolution`. Says how to set the native encoder
    /// up for it, and whether it has to be a keyframe.
    pub fn on_frame(&mut self, resolution: Resolution, flags: EncoderFrameFlags) -> (decision: (
        EncoderSetup,
        bool,
    ))
        requires
            !(old(self)@ is Closed),
        ensures
            decision.0 == old(self)@.frame_setup(resolution),
            decision.1 == old(self)@.frame_is_keyframe(resolution, flags),
            final(self)@ == old(self)@.after_frame(resolution),
    {
        match self.state {
            EncoderState::Uninitialized { rate } => {
                self.state = EncoderState::Ready { resolution, rate };
                (EncoderSetup::Initialize { resolution, rate }, true)
            },
            EncoderState::Ready { resolution: previous, rate } => {
                if previous.0 == resolution.0 && previous.1 == resolution.1 {
                    (EncoderSetup::Keep, flags.force_keyframe)
                } else {
                    self.state = EncoderState::Ready { resolution, rate };
                    (EncoderSetup::Reconfigure { resolution, rate, force_idr: true }, true)
                }
            },
            EncoderState::Closed => (EncoderSetup::Keep, flags.force_keyframe),
        }
    }

    /// Takes a new rate. Says how to bring it to the native encoder.
    pub fn on_rate(&mut self, rate: RateParameters) -> (setup: EncoderSetup)
        requires
            !(old(self)@ is Closed),
        ensures
            setup == old(self)@.rate_setup(rate),
            final(self)@ == old(self)@.after_rate(rate),
    {
        match self.state {
            EncoderState::Uninitialized { .. } => {
                self.state = EncoderState::Uninitialized { rate };
                EncoderSetup::Keep
            },
            EncoderState::Ready { resolution, .. } => {
                self.state = EncoderState::Ready { resolution, rate };
                EncoderSetup::Reconfigure { resolution, rate, force_idr: false }
            },
            EncoderState::Closed => EncoderSetup::Keep,
        }
    }

    /// Marks the native handles as released. Says whether there was a
    /// configured session to release.
    pub fn close(&mut self) -> (was_ready: bool)
        ensures
            was_ready == (old(self)@ is Ready),
            final(self)@ == EncoderState::Closed,
    {
        let was_ready = match self.state {
            EncoderState::Ready { .. } => true,
            _ => false,
        };
        self.state = EncoderState::Closed;
        was_ready
    }
}

/// The first picture after construction initializes the native encoder, with
/// the picture's resolution and the rate given at construction, and is a
/// keyframe whatever its flags say.
pub proof fn lemma_first_frame_initializes(
    rate: RateParameters,
    resolution: Resolution,
    flags: EncoderFrameFlags,
)
    ensures
        ({
            let fresh = EncoderState::Uninitialized { rate };
            &&& fresh.frame_setup(resolution) == (EncoderSetup::Initialize { resolution, rate })
            &&& fresh.frame_is_keyframe(resolution, flags)
            &&& fresh.after_frame(resolution) == (EncoderState::Ready { resolution, rate })
        }),
{
}

/// A picture whose resolution differs from that of the picture before it
/// reconfigures the native encoder at the rate in force, and is a keyframe
/// whatever its flags say.
pub proof fn lemma_new_resolution_forces_keyframe(
    previous: Resolution,
    rate: RateParameters,
    resolution: Resolution,
    flags: EncoderFrameFlags,
)
    requires
        resolution != previous,
    ensures
        ({
            let ready = EncoderState::Ready { resolution: previous, rate };
            &&& ready.frame_setup(resolution) == (EncoderSetup::Reconfigure {
                resolution,
                rate,
                force_idr: true,
            })
            &&& ready.frame_is_keyframe(resolution, flags)
            &&& ready.after_frame(resolution) == (EncoderState::Ready { resolution, rate })
        }),
{
}

/// A picture of the same resolution as the one before leaves the native
/// encoder alone, and is a keyframe only where its flags ask for one.
pub proof fn lemma_same_resolution_keeps_encoder(
    rate: RateParameters,
    resolution: Resolution,
    flags: EncoderFrameFlags,
)
    ensures
        ({
            let ready = EncoderState::Ready { resolution, rate };
            &&& ready.frame_setup(resolution) == EncoderSetup::Keep
            &&& ready.frame_is_keyframe(resolution, flags) == flags.force_keyframe
            &&& ready.after_frame(resolution) == ready
        }),
{
}

/// Rates set before the first picture touch nothing native: each is stored,
/// and the last of them is the rate that the first picture initializes with.
pub proof fn lemma_rates_before_first_frame(
    initial: RateParameters,
    rates: Seq<RateParameters>,
    resolution: Resolution,
)
    ensures
        ({
            let fresh = EncoderState::Uninitialized { rate: initial };
            let last = if rates.len() == 0 {
                initial
            } else {
                rates.last()
            };
            &&& forall|i: int|
                0 <= i < rates.len() ==> #[trigger] fresh.after_rates(rates.take(i)).rate_setup(
                    rates[i],
                ) == EncoderSetup::Keep
            &&& fresh.after_rates(rates) == (EncoderState::Uninitialized { rate: last })
            &&& fresh.after_rates(rates).frame_setup(resolution) == (EncoderSetup::Initialize {
                resolution,
                rate: last,
            })
        }),
    decreases rates.len(),
{
    let fresh = EncoderState::Uninitialized { rate: initial };
    if rates.len() > 0 {
        lemma_rates_before_first_frame(initial, rates.drop_last(), resolution);
        assert forall|i: int| 0 <= i < rates.len() implies #[trigger] fresh.after_rates(
            rates.take(i),
        ).rate_setup(rates[i]) == EncoderSetup::Keep by {
            lemma_rates_before_first_frame(initial, rates.take(i), resolution);
        }
    }
}

/// After a rate has been set, the next picture is encoded at that rate: it
/// is the rate in force, a native encoder that was running has been
/// reconfigured to it, and whatever setup the picture calls for carries it.
pub proof fn lemma_next_frame_uses_new_rate(
    state: EncoderState,
    rate: RateParameters,
    resolution: Resolution,
)
    requires
        !(state is Closed),
    ensures
        state.after_rate(rate).rate() == Some(rate),
        state.after_rate(rate).after_frame(resolution).rate() == Some(rate),
        state matches EncoderState::Ready { resolution: current, .. } ==> state.rate_setup(rate)
            == (EncoderSetup::Reconfigure { resolution: current, rate, force_idr: false }),
        match state.after_rate(rate).frame_setup(resolution) {
            EncoderSetup::Keep => state is Ready,
            EncoderSetup::Initialize { rate: used, .. } => used == rate,
            EncoderSetup::Reconfigure { rate: used, .. } => used == rate,
        },
{
}

/// What every encoder backend does: it takes pictures and rates, and keeps
/// to the one state machine while it does.
pub trait FeedEncoderImpl {
    /// The native calls of one `encode`.
    type Job;

    /// The native calls of one `set_rate`.
    type RateUpdate;

    /// Where the encoder stands.
    spec fn encoder_state(&self) -> EncoderState;

    /// Prepares one picture for the native encoder. The frame is converted
    /// to planar 4:2:0 first; where that fails, the encoder is left as it was.
    fn encode(&mut self, frame: &VideoFrameBuffer, flags: EncoderFrameFlags) -> (prepared: Result<
        Self::Job,
        ColorConversionError,
    >)
        requires
            !(old(self).encoder_state() is Closed),
            frame@.wf(),
        ensures
            match frame@.to_i420() {
                Err(e) => {
                    &&& prepared matches Err(failure)
                    &&& failure == e
                    &&& final(self).encoder_state() == old(self).encoder_state()
                },
                Ok(_) => {
                    &&& prepared is Ok
                    &&& final(self).encoder_state() == old(self).encoder_state().after_frame(
                        frame@.resolution(),
                    )
                },
            },
    ;

    /// Takes a new rate.
    fn set_rate(&mut self, rate: RateParameters) -> (update: Self::RateUpdate)
        requires
            !(old(self).encoder_state() is Closed),
        ensures
            final(self).encoder_state() == old(self).encoder_state().after_rate(rate),
    ;
}

/// What builds an encoder.
pub trait FeedEncoderConfigImpl {
    /// An encoder that has seen no picture yet, at the rate `rate`.
    fn build(&self, rate: RateParameters) -> (encoder: FeedEncoder)
        ensures
            encoder.encoder_state() == (EncoderState::Uninitialized { rate }),
    ;
}

/// The encoder backends.
pub enum FeedEncoder {
    OpenH264(OpenH264FeedEncoder),
    Nvenc(NvencFeedEncoder),
}

/// The native calls of one `encode`, for either backend.
pub enum FeedEncoderJob {
    OpenH264(OpenH264Job),
    Nvenc(NvencJob),
}

/// The native calls of one `set_rate`, for either backend.
#[derive(Debug, Clone, Copy, PartialEq, Eq)]
pub enum FeedEncoderRateUpdate {
    OpenH264(OpenH264RateUpdate),
    Nvenc(NvencSetup),
}

impl FeedEncoderJob {
    /// The picture to submit, planar 4:2:0.
    pub open spec fn picture(self) -> VideoFrameBuffer {
        match self {
            FeedEncoderJob::OpenH264(job) => job.picture.frame,
            FeedEncoderJob::Nvenc(job) => job.picture.frame,
        }
    }

    /// Whether the picture is to be a keyframe.
    pub open spec fn keyframe(self) -> bool {
        match self {
            FeedEncoderJob::OpenH264(job) => job.force_intra_frame,
            FeedEncoderJob::Nvenc(job) => job.picture.force_idr,
        }
    }
}

/// What is released when an encoder is closed, for either backend.
pub enum FeedEncoderRelease {
    /// Destroy the software encoder, where `destroy` says so.
    OpenH264 { destroy: bool },
    /// Release what the GPU session holds, in this order.
    Nvenc(Vec<NvencResource>),
}

impl FeedEncoder {
    /// The backend at hand and how it is configured.
    pub open spec fn backend_config(self) -> FeedEncoderConfig {
        match self {
            FeedEncoder::OpenH264(encoder) => FeedEncoderConfig::OpenH264(encoder.config()),
            FeedEncoder::Nvenc(encoder) => FeedEncoderConfig::Nvenc(encoder.config()),
        }
    }

    /// Whether `released` is what closing this encoder releases.
    pub open spec fn releases(self, released: FeedEncoderRelease) -> bool {
        match self {
            FeedEncoder::OpenH264(encoder) => released matches FeedEncoderRelease::OpenH264 {
                destroy,
            } && destroy == !(encoder.state() is Closed),
            FeedEncoder::Nvenc(encoder) => released matches FeedEncoderRelease::Nvenc(resources)
                && resources@ == release_order(encoder.state()),
        }
    }

    /// What a new rate means for the native encoder of the backend at hand.
    pub open spec fn rate_update(self, rate: RateParameters) -> FeedEncoderRateUpdate {
        match self {
            FeedEncoder::OpenH264(encoder) => FeedEncoderRateUpdate::OpenH264(
                OpenH264FeedEncoder::native_rate_update(encoder.state().rate_setup(rate)),
            ),
            FeedEncoder::Nvenc(encoder) => FeedEncoderRateUpdate::Nvenc(
                NvencFeedEncoder::native_rate_update(encoder.state().rate_setup(rate)),
            ),
        }
    }

    /// Whether `prepared` is what `encode` makes of `frame` and `flags` with
    /// this encoder: the conversion's error, or the job for the backend at
    /// hand, with the converted picture, the setup that the picture calls for
    /// and a keyframe where one is due.
    pub open spec fn prepares(
        self,
        frame: FrameView,
        flags: EncoderFrameFlags,
        prepared: Result<FeedEncoderJob, ColorConversionError>,
    ) -> bool {
        match frame.to_i420() {
            Err(e) => prepared == Err::<FeedEncoderJob, ColorConversionError>(e),
            Ok(planar) => {
                &&& prepared matches Ok(job)
                &&& job.picture()@ == planar
                &&& job.keyframe() == self.encoder_state().frame_is_keyframe(
                    frame.resolution(),
                    flags,
                )
                &&& match self {
                    FeedEncoder::OpenH264(encoder) => job matches FeedEncoderJob::OpenH264(native)
                        && native.setup == encoder.config().native_setup(
                        encoder.state().frame_setup(frame.resolution()),
                    ),
                    FeedEncoder::Nvenc(encoder) => job matches FeedEncoderJob::Nvenc(native)
                        && native.setup == nvenc::native_setup(
                        encoder.state().frame_setup(frame.resolution()),
                    ),
                }
            },
        }
    }

    /// Where the encoder stands.
    pub fn current_state(&self) -> (state: EncoderState)
        ensures
            state == self.encoder_state(),
    {
        match self {
            FeedEncoder::OpenH264(encoder) => encoder.current_state(),
            FeedEncoder::Nvenc(encoder) => encoder.current_state(),
        }
    }

    /// Closes the encoder, whichever backend it is. Says what to release:
    /// the native handles, in the reverse of the order of their acquisition.
    pub fn close(&mut self) -> (released: FeedEncoderRelease)
        ensures
            final(self).encoder_state() == EncoderState::Closed,
            final(self).backend_config() == old(self).backend_config(),
            old(self).releases(released),
    {
        match self {
            FeedEncoder::OpenH264(encoder) => FeedEncoderRelease::OpenH264 {
                destroy: encoder.close(),
            },
            FeedEncoder::Nvenc(encoder) => FeedEncoderRelease::Nvenc(encoder.close()),
        }
    }
}

impl FeedEncoderImpl for FeedEncoder {
    type Job = FeedEncoderJob;

    type RateUpdate = FeedEncoderRateUpdate;

    open spec fn encoder_state(&self) -> EncoderState {
        match self {
            FeedEncoder::OpenH264(encoder) => encoder.state(),
            FeedEncoder::Nvenc(encoder) => encoder.state(),
        }
    }

    /// Prepares one picture for the backend at hand.
    fn encode(&mut self, frame: &VideoFrameBuffer, flags: EncoderFrameFlags) -> (prepared: Result<
        FeedEncoderJob,
        ColorConversionError,
    >)
        ensures
            final(self).backend_config() == old(self).backend_config(),
            old(self).prepares(frame@, flags, prepared),
    {
        match self {
            FeedEncoder::OpenH264(encoder) => match encoder.encode(frame, flags) {
                Ok(job) => Ok(FeedEncoderJob::OpenH264(job)),
                Err(e) => Err(e),
            },
            FeedEncoder::Nvenc(encoder) => match encoder.encode(frame, flags) {
                Ok(job) => Ok(FeedEncoderJob::Nvenc(job)),
                Err(e) => Err(e),
            },
        }
    }

    /// Takes a new rate for the backend at hand.
    fn set_rate(&mut self, rate: RateParameters) -> (update: FeedEncoderRateUpdate)
        ensures
            final(self).backend_config() == old(self).backend_config(),
            update == old(self).rate_update(rate),
    {
        match self {
            FeedEncoder::OpenH264(encoder) => FeedEncoderRateUpdate::OpenH264(
                encoder.set_rate(rate),
            ),
            FeedEncoder::Nvenc(encoder) => FeedEncoderRateUpdate::Nvenc(encoder.set_rate(rate)),
        }
    }
}

/// Which backend to encode with, and how it is configured.
#[derive(Debug, Clone, Copy, PartialEq, Eq, Structural)]
pub enum FeedEncoderConfig {
    OpenH264(OpenH264FeedEncoderConfig),
    Nvenc(NvencFeedEncoderConfig),
}

impl FeedEncoderConfigImpl for OpenH264FeedEncoderConfig {
    fn build(&self, rate: RateParameters) -> (encoder: FeedEncoder)
        ensures
            encoder.backend_config() == FeedEncoderConfig::OpenH264(*self),
    {
        FeedEncoder::OpenH264(OpenH264FeedEncoder::new(self, rate))
    }
}

impl FeedEncoderConfigImpl for NvencFeedEncoderConfig {
    fn build(&self, rate: RateParameters) -> (encoder: FeedEncoder)
        ensures
            encoder.backend_config() == FeedEncoderConfig::Nvenc(*self),
    {
        FeedEncoder::Nvenc(NvencFeedEncoder::new(self, rate))
    }
}

impl FeedEncoderConfigImpl for FeedEncoderConfig {
    fn build(&self, rate: RateParameters) -> (encoder: FeedEncoder)
        ensures
            encoder.backend_config() == *self,
    {
        match self {
            FeedEncoderConfig::OpenH264(config) => config.build(rate),
            FeedEncoderConfig::Nvenc(config) => config.build(rate),
        }
    }
}

} // verus!
