//! The feed manager's loop, one step at a time.
//!
//! The loop drains its inbox, waits while no client is there, captures a
//! frame, encodes it, waits out the frame period and sends the sample, in
//! that order. What blocks or calls into a device is done by the caller:
//! each step takes what the last action brought and says what to do next.
use crate::feed::bitrates::{no_clients, target_bitrate};
use crate::feed::encoders::{
    EncoderError, EncoderFrameFlags, EncoderState, FeedEncoderConfig, FeedEncoderImpl,
    FeedEncoderJob, FeedEncoderRateUpdate, FeedEncoderRelease, RateParameters,
};
use crate::feed::frame::{ColorConversionError, VideoFrameBuffer, VideoFramerate};
use crate::feed::manager::{
    pacing_delay, table_after, FeedConfig, FeedControlMessage, FeedManager, FeedStep,
};
use crate::feed::sources::{FeedSource, SourceError};
use vstd::prelude::*;

verus! {

/// Where the loop stands.
#[derive(Debug, Clone, Copy, PartialEq, Eq, Structural)]
pub enum FeedPhase {
    /// Taking the control messages that wait in the inbox.
    Draining,
    /// Blocked on the inbox, with no client to encode for.
    Idle,
    /// Waiting for the source to hand over a frame.
    Capturing,
    /// Waiting for the native encoder to hand back the sample.
    Encoding,
    /// Waiting out the frame period before the sample is sent.
    Pacing,
    /// The feed has failed, or was closed: nothing more is captured,
    /// encoded or sent.
    Stopped,
}

/// Why the feed has failed.
#[derive(Debug, Clone, Copy, PartialEq, Eq, Structural)]
pub enum FeedError {
    /// A frame could not be converted.
    Conversion(ColorConversionError),
    /// The source has failed.
    Source(SourceError),
    /// A call of the native encoder has failed.
    Encoder(EncoderError),
}

/// What the last action brought.
pub enum FeedEvent {
    /// The inbox handed over a control message.
    Message(FeedControlMessage),
    /// The inbox had nothing to hand over.
    InboxEmpty,
    /// A rate update could not be brought to the native encoder.
    RateUpdateFailed(EncoderError),
    /// The source handed over a frame, or none within its timeout.
    Captured(Option<VideoFrameBuffer>),
    /// The source has failed.
    CaptureFailed(SourceError),
    /// The native encoder handed back the sample, at the time `now`.
    Encoded { now: u64 },
    /// The native encoder has failed on the picture.
    EncodeFailed(EncoderError),
    /// The wait is over, at the time `now`.
    Slept { now: u64 },
}

/// What to do next.
pub enum FeedAction {
    /// Bring `rate_update` to the native encoder if there is one, then take
    /// a message from the inbox without waiting.
    PollInbox { rate_update: Option<FeedEncoderRateUpdate> },
    /// Wait for a message in the inbox.
    AwaitInbox,
    /// Ask the source for a frame.
    Capture,
    /// Make the native calls of the job and keep the sample.
    Encode(FeedEncoderJob),
    /// Wait for so many nanoseconds.
    Sleep(u64),
    /// Send the sample to the peers, whether or not any of them listens,
    /// then take a message from the inbox without waiting.
    Broadcast,
    /// Give up, for the reason given: send nothing and do not go on.
    Abort(FeedError),
    /// Nothing: the event is not what the loop was waiting for.
    Ignored,
}

/// The kinds of action.
#[derive(Debug, Clone, Copy, PartialEq, Eq, Structural)]
pub enum FeedActionKind {
    PollInbox,
    AwaitInbox,
    Capture,
    Encode,
    Sleep,
    Broadcast,
    Abort,
    Ignored,
}

impl FeedAction {
    pub open spec fn kind(self) -> FeedActionKind {
        match self {
            FeedAction::PollInbox { .. } => FeedActionKind::PollInbox,
            FeedAction::AwaitInbox => FeedActionKind::AwaitInbox,
            FeedAction::Capture => FeedActionKind::Capture,
            FeedAction::Encode(_) => FeedActionKind::Encode,
            FeedAction::Sleep(_) => FeedActionKind::Sleep,
            FeedAction::Broadcast => FeedActionKind::Broadcast,
            FeedAction::Abort(_) => FeedActionKind::Abort,
            FeedAction::Ignored => FeedActionKind::Ignored,
        }
    }
}

/// What a feed is configured with, as far as the loop goes by it.
pub struct FeedBounds {
    pub start: u32,
    pub min: u32,
    pub max: u32,
    pub fps: VideoFramerate,
}

/// The state of the loop.
pub struct FeedModel {
    /// The source that frames are captured from.
    pub source: FeedSource,
    /// The encoder backend and how it is configured.
    pub backend: FeedEncoderConfig,
    pub phase: FeedPhase,
    pub clients: Map<Seq<char>, u32>,
    pub target: u32,
    pub keyframe_pending: bool,
    pub last_frame: u64,
    pub encoder: EncoderState,
}

impl FeedModel {
    /// Whether the loop takes `event` in its phase. What it does not take
    /// it ignores.
    pub open spec fn takes(self, event: FeedEvent) -> bool {
        match (self.phase, event) {
            (FeedPhase::Draining, FeedEvent::Message(_)) => true,
            (FeedPhase::Draining, FeedEvent::InboxEmpty) => true,
            (FeedPhase::Draining, FeedEvent::RateUpdateFailed(_)) => true,
            (FeedPhase::Idle, FeedEvent::Message(_)) => true,
            (FeedPhase::Idle, FeedEvent::InboxEmpty) => true,
            (FeedPhase::Capturing, FeedEvent::Captured(_)) => true,
            (FeedPhase::Capturing, FeedEvent::CaptureFailed(_)) => true,
            (FeedPhase::Encoding, FeedEvent::Encoded { .. }) => true,
            (FeedPhase::Encoding, FeedEvent::EncodeFailed(_)) => true,
            (FeedPhase::Pacing, FeedEvent::Slept { .. }) => true,
            _ => false,
        }
    }

    /// The state after a control message.
    pub open spec fn after_message(self, bounds: FeedBounds, message: FeedControlMessage) -> FeedModel {
        let clients = table_after(self.clients, self.target, bounds.start, message);
        if message is RequestKeyframe {
            FeedModel { phase: FeedPhase::Draining, keyframe_pending: true, ..self }
        } else {
            let target = target_bitrate(clients, bounds.start, bounds.min, bounds.max);
            FeedModel {
                phase: FeedPhase::Draining,
                clients,
                target,
                encoder: self.encoder.after_rate(
                    RateParameters { target_bitrate: target, max_fps: bounds.fps },
                ),
                ..self
            }
        }
    }

    /// The state after `event`.
    pub open spec fn after(self, bounds: FeedBounds, event: FeedEvent) -> FeedModel {
        match (self.phase, event) {
            (FeedPhase::Draining, FeedEvent::Message(message)) => self.after_message(
                bounds,
                message,
            ),
            (FeedPhase::Idle, FeedEvent::Message(message)) => self.after_message(bounds, message),
            (FeedPhase::Draining, FeedEvent::InboxEmpty) => FeedModel {
                phase: if no_clients(self.clients) {
                    FeedPhase::Idle
                } else {
                    FeedPhase::Capturing
                },
                ..self
            },
            (FeedPhase::Idle, FeedEvent::InboxEmpty) => FeedModel {
                phase: FeedPhase::Draining,
                ..self
            },
            (FeedPhase::Capturing, FeedEvent::Captured(None)) => FeedModel {
                phase: FeedPhase::Draining,
                ..self
            },
            (FeedPhase::Capturing, FeedEvent::Captured(Some(frame))) => if frame@.to_i420()
                is Ok {
                FeedModel {
                    phase: FeedPhase::Encoding,
                    keyframe_pending: false,
                    encoder: self.encoder.after_frame(frame@.resolution()),
                    ..self
                }
            } else {
                FeedModel { phase: FeedPhase::Stopped, keyframe_pending: false, ..self }
            },
            (FeedPhase::Encoding, FeedEvent::Encoded { .. }) => FeedModel {
                phase: FeedPhase::Pacing,
                ..self
            },
            (FeedPhase::Pacing, FeedEvent::Slept { now }) => FeedModel {
                phase: FeedPhase::Draining,
                last_frame: now,
                ..self
            },
            (FeedPhase::Draining, FeedEvent::RateUpdateFailed(_)) => FeedModel {
                phase: FeedPhase::Stopped,
                ..self
            },
            (FeedPhase::Capturing, FeedEvent::CaptureFailed(_)) => FeedModel {
                phase: FeedPhase::Stopped,
                ..self
            },
            (FeedPhase::Encoding, FeedEvent::EncodeFailed(_)) => FeedModel {
                phase: FeedPhase::Stopped,
                ..self
            },
            _ => self,
        }
    }

    /// The kind of action that answers `event`.
    pub open spec fn answer(self, event: FeedEvent) -> FeedActionKind {
        match (self.phase, event) {
            (FeedPhase::Draining, FeedEvent::Message(_)) => FeedActionKind::PollInbox,
            (FeedPhase::Idle, FeedEvent::Message(_)) => FeedActionKind::PollInbox,
            (FeedPhase::Draining, FeedEvent::InboxEmpty) => if no_clients(self.clients) {
                FeedActionKind::AwaitInbox
            } else {
                FeedActionKind::Capture
            },
            (FeedPhase::Idle, FeedEvent::InboxEmpty) => FeedActionKind::PollInbox,
            (FeedPhase::Capturing, FeedEvent::Captured(None)) => FeedActionKind::PollInbox,
            (FeedPhase::Capturing, FeedEvent::Captured(Some(frame))) => if frame@.to_i420()
                is Ok {
                FeedActionKind::Encode
            } else {
                FeedActionKind::Abort
            },
            (FeedPhase::Encoding, FeedEvent::Encoded { .. }) => FeedActionKind::Sleep,
            (FeedPhase::Pacing, FeedEvent::Slept { .. }) => FeedActionKind::Broadcast,
            (FeedPhase::Draining, FeedEvent::RateUpdateFailed(_)) => FeedActionKind::Abort,
            (FeedPhase::Capturing, FeedEvent::CaptureFailed(_)) => FeedActionKind::Abort,
            (FeedPhase::Encoding, FeedEvent::EncodeFailed(_)) => FeedActionKind::Abort,
            _ => FeedActionKind::Ignored,
        }
    }

    /// The state after the events of `events`, one after another.
    pub open spec fn after_all(self, bounds: FeedBounds, events: Seq<FeedEvent>) -> FeedModel
        decreases events.len(),
    {
        if events.len() == 0 {
            self
        } else {
            self.after_all(bounds, events.drop_last()).after(bounds, events.last())
        }
    }
}

/// Why the feed fails on `event`, where the loop takes it and it is a
/// failure: a frame that cannot be converted, or a failure that the caller
/// reports.
pub open spec fn failure_of(event: FeedEvent) -> Option<FeedError> {
    match event {
        FeedEvent::Captured(Some(frame)) => match frame@.to_i420() {
            Err(e) => Some(FeedError::Conversion(e)),
            Ok(_) => None,
        },
        FeedEvent::CaptureFailed(e) => Some(FeedError::Source(e)),
        FeedEvent::EncodeFailed(e) => Some(FeedError::Encoder(e)),
        FeedEvent::RateUpdateFailed(e) => Some(FeedError::Encoder(e)),
        _ => None,
    }
}

/// An event that may bring a client into the table.
pub open spec fn brings_client(event: FeedEvent) -> bool {
    event matches FeedEvent::Message(message) && (message is ClientJoined
        || message is BandwidthEstimate)
}

/// The kinds of action that work on a frame: capturing, encoding, waiting
/// out the frame period and sending.
pub open spec fn works_on_frame(kind: FeedActionKind) -> bool {
    kind is Capture || kind is Encode || kind is Sleep || kind is Broadcast
}

/// Without clients the feed idles: as long as no client joins or reports its
/// bandwidth, the loop never captures or encodes, never waits out a frame
/// period and never sends. It polls its inbox or waits on it, unless a rate
/// update fails and stops it.
pub proof fn lemma_idle_without_clients(
    model: FeedModel,
    bounds: FeedBounds,
    events: Seq<FeedEvent>,
    index: int,
)
    requires
        no_clients(model.clients),
        model.phase is Draining || model.phase is Idle,
        forall|i: int| 0 <= i < events.len() ==> !brings_client(#[trigger] events[i]),
        0 <= index < events.len(),
    ensures
        ({
            let before = model.after_all(bounds, events.take(index));
            &&& no_clients(before.clients)
            &&& before.phase is Draining || before.phase is Idle || before.phase is Stopped
            &&& !works_on_frame(before.answer(events[index]))
        }),
    decreases index,
{
    if index > 0 {
        lemma_idle_without_clients(model, bounds, events, index - 1);
        let upto = events.take(index);
        assert(upto.drop_last() =~= events.take(index - 1));
        assert(upto.last() == events[index - 1]);
        assert(!brings_client(events[index - 1]));
    } else {
        assert(events.take(0).len() == 0);
    }
}

/// A failure ends the feed. A failed capture, a failed encode, a failed rate
/// update and a frame that cannot be converted each stop the loop where it
/// takes them, and a loop that has stopped stays as it is whatever comes:
/// every event is ignored, so that nothing more is captured, encoded or sent.
pub proof fn lemma_failure_is_final(
    model: FeedModel,
    bounds: FeedBounds,
    failure: FeedEvent,
    events: Seq<FeedEvent>,
    index: int,
)
    requires
        model.takes(failure),
        failure_of(failure) is Some,
        0 <= index < events.len(),
    ensures
        model.answer(failure) is Abort,
        model.after(bounds, failure).phase is Stopped,
        ({
            let stopped = model.after(bounds, failure);
            &&& stopped.after_all(bounds, events.take(index)) == stopped
            &&& stopped.answer(events[index]) is Ignored
        }),
    decreases index,
{
    if index > 0 {
        lemma_failure_is_final(model, bounds, failure, events, index - 1);
        let upto = events.take(index);
        assert(upto.drop_last() =~= events.take(index - 1));
        assert(upto.last() == events[index - 1]);
    } else {
        assert(events.take(0).len() == 0);
    }
}

/// The feed manager with the phase of its loop.
pub struct FeedPipeline {
    manager: FeedManager,
    phase: FeedPhase,
}

impl FeedPipeline {
    pub closed spec fn manager(&self) -> FeedManager {
        self.manager
    }

    pub closed spec fn phase(&self) -> FeedPhase {
        self.phase
    }

    /// The loop has stopped, or its manager is well formed.
    pub open spec fn wf(&self) -> bool {
        self.phase() is Stopped || self.manager().wf()
    }

    /// What the loop goes by of its configuration.
    pub open spec fn bounds(&self) -> FeedBounds {
        FeedBounds {
            start: self.manager().config().start(),
            min: self.manager().config().min(),
            max: self.manager().config().max(),
            fps: self.manager().config().fps(),
        }
    }

    /// The state of the loop.
    pub open spec fn model(&self) -> FeedModel {
        FeedModel {
            source: self.manager().feed_source(),
            backend: self.manager().feed_encoder().backend_config(),
            phase: self.phase(),
            clients: self.manager().clients(),
            target: self.manager().target(),
            keyframe_pending: self.manager().keyframe_pending(),
            last_frame: self.manager().last_frame(),
            encoder: self.manager().feed_encoder().encoder_state(),
        }
    }

    /// A loop at its start, at the time `now`: no client is there, and the
    /// first thing to do is to poll the inbox.
    pub fn new(config: FeedConfig, now: u64) -> (pipeline: Self)
        ensures
            pipeline.wf(),
            pipeline.manager().config() == config,
            pipeline.phase() == FeedPhase::Draining,
            pipeline.model().clients == Map::<Seq<char>, u32>::empty(),
            pipeline.model().target == config.start(),
            !pipeline.model().keyframe_pending,
            pipeline.model().last_frame == now,
            pipeline.model().encoder == (EncoderState::Uninitialized {
                rate: RateParameters { target_bitrate: config.start(), max_fps: config.fps() },
            }),
            pipeline.model().backend == config.encoder_config(),
            pipeline.model().source.is_for(config.source_config()),
    {
        FeedPipeline { manager: FeedManager::new(config, now), phase: FeedPhase::Draining }
    }

    pub fn current_phase(&self) -> (phase: FeedPhase)
        ensures
            phase == self.phase(),
    {
        self.phase
    }

    pub fn feed_manager(&self) -> (manager: &FeedManager)
        ensures
            *manager == self.manager(),
    {
        &self.manager
    }

    /// Takes what the last action brought and says what to do next.
    ///
    /// The state moves as the model says. The action is of the kind that the
    /// model answers with, and carries what the manager works out: the rate
    /// update of a control message, the job for a captured frame, with the
    /// keyframe request that was pending, and the wait that holds the feed to
    /// its frame rate.
    pub fn step(&mut self, event: FeedEvent) -> (action: FeedAction)
        requires
            old(self).wf(),
            event matches FeedEvent::Captured(Some(frame)) ==> frame@.wf(),
        ensures
            final(self).wf(),
            final(self).manager().config() == old(self).manager().config(),
            final(self).model() == old(self).model().after(old(self).bounds(), event),
            action.kind() == old(self).model().answer(event),
            match action {
                FeedAction::PollInbox { rate_update } => match event {
                    FeedEvent::Message(message) if !(message is RequestKeyframe) => rate_update
                        == Some(
                        old(self).manager().feed_encoder().rate_update(
                            RateParameters {
                                target_bitrate: final(self).model().target,
                                max_fps: old(self).bounds().fps,
                            },
                        ),
                    ),
                    _ => rate_update is None,
                },
                FeedAction::Encode(job) => event matches FeedEvent::Captured(Some(frame)) && old(
                    self,
                ).manager().feed_encoder().prepares(
                    frame@,
                    EncoderFrameFlags { force_keyframe: old(self).model().keyframe_pending },
                    Ok(job),
                ),
                FeedAction::Abort(e) => failure_of(event) == Some(e),
                FeedAction::Sleep(delay) => event matches FeedEvent::Encoded { now } && delay
                    == pacing_delay(
                    old(self).model().last_frame,
                    old(self).bounds().fps.period_nanos(),
                    now,
                ),
                _ => true,
            },
    {
        match self.phase {
            FeedPhase::Draining => match event {
                FeedEvent::Message(message) => {
                    let rate_update = self.manager.process_control_message(message);
                    FeedAction::PollInbox { rate_update }
                },
                FeedEvent::InboxEmpty => match self.manager.next_step() {
                    FeedStep::AwaitMessage => {
                        self.phase = FeedPhase::Idle;
                        FeedAction::AwaitInbox
                    },
                    FeedStep::CaptureFrame => {
                        self.phase = FeedPhase::Capturing;
                        FeedAction::Capture
                    },
                },
                FeedEvent::RateUpdateFailed(e) => {
                    self.phase = FeedPhase::Stopped;
                    FeedAction::Abort(FeedError::Encoder(e))
                },
                _ => FeedAction::Ignored,
            },
            FeedPhase::Idle => match event {
                FeedEvent::Message(message) => {
                    self.phase = FeedPhase::Draining;
                    let rate_update = self.manager.process_control_message(message);
                    FeedAction::PollInbox { rate_update }
                },
                FeedEvent::InboxEmpty => {
                    self.phase = FeedPhase::Draining;
                    FeedAction::PollInbox { rate_update: None }
                },
                _ => FeedAction::Ignored,
            },
            FeedPhase::Capturing => match event {
                FeedEvent::Captured(None) => {
                    self.phase = FeedPhase::Draining;
                    FeedAction::PollInbox { rate_update: None }
                },
                FeedEvent::Captured(Some(frame)) => match self.manager.encode(&frame) {
                    Ok(job) => {
                        self.phase = FeedPhase::Encoding;
                        FeedAction::Encode(job)
                    },
                    Err(e) => {
                        self.phase = FeedPhase::Stopped;
                        FeedAction::Abort(FeedError::Conversion(e))
                    },
                },
                FeedEvent::CaptureFailed(e) => {
                    self.phase = FeedPhase::Stopped;
                    FeedAction::Abort(FeedError::Source(e))
                },
                _ => FeedAction::Ignored,
            },
            FeedPhase::Encoding => match event {
                FeedEvent::Encoded { now } => {
                    self.phase = FeedPhase::Pacing;
                    FeedAction::Sleep(self.manager.rate_limit(now))
                },
                FeedEvent::EncodeFailed(e) => {
                    self.phase = FeedPhase::Stopped;
                    FeedAction::Abort(FeedError::Encoder(e))
                },
                _ => FeedAction::Ignored,
            },
            FeedPhase::Pacing => match event {
                FeedEvent::Slept { now } => {
                    self.phase = FeedPhase::Draining;
                    self.manager.frame_paced(now);
                    FeedAction::Broadcast
                },
                _ => FeedAction::Ignored,
            },
            FeedPhase::Stopped => FeedAction::Ignored,
        }
    }

    /// Ends the loop and closes the encoder. Says what to release of the
    /// native encoder, in order. The loop has stopped; nothing else changes.
    pub fn close(&mut self) -> (released: FeedEncoderRelease)
        ensures
            final(self).wf(),
            final(self).manager().config() == old(self).manager().config(),
            final(self).model() == (FeedModel {
                phase: FeedPhase::Stopped,
                encoder: EncoderState::Closed,
                ..old(self).model()
            }),
            old(self).manager().feed_encoder().releases(released),
    {
        self.phase = FeedPhase::Stopped;
        self.manager.close()
    }
}

} // verus!
