use bytes::Bytes;
use telestrator::feed::encoders::openh264::{OpenH264FeedEncoderConfig, OpenH264RateUpdate};
use telestrator::feed::encoders::{FeedEncoderConfig, FeedEncoderJob, FeedEncoderRateUpdate};
use telestrator::feed::frame::{
    ColorConversionError, VideoFrameBuffer, VideoFramePixelFormat, VideoFramerate, VideoTimestamp,
    STATUS_STEP_ERROR,
};
use telestrator::feed::manager::{FeedConfigBuilder, FeedControlMessage};
use telestrator::feed::encoders::nvenc::{NvencFeedEncoderConfig, NvencResource};
use telestrator::feed::encoders::{EncoderBackend, EncoderError, FeedEncoder, FeedEncoderRelease};
use telestrator::feed::pipeline::{FeedAction, FeedError, FeedEvent, FeedPhase, FeedPipeline};
use telestrator::feed::sources::{FeedSource, FeedSourceImpl, SourceError};
use telestrator::feed::sources::ndi::NDIFeedSourceConfig;
use telestrator::feed::sources::FeedSourceConfig;

fn pipeline() -> FeedPipeline {
    let config = FeedConfigBuilder::new()
        .source(FeedSourceConfig::NDI(NDIFeedSourceConfig::new("cam".to_string(), 1000)))
        .encoder(FeedEncoderConfig::OpenH264(OpenH264FeedEncoderConfig::default()))
        .bitrate(200, 1000, 4000)
        .fps(VideoFramerate::new(50, 1))
        .build_interactive(None)
        .unwrap();
    FeedPipeline::new(config, 0)
}

fn planar(width: usize, height: usize) -> VideoFrameBuffer {
    let len = width * height + 2 * (width * height / 4);
    VideoFrameBuffer {
        pix_fmt: VideoFramePixelFormat::I420,
        width,
        height,
        timestamp: VideoTimestamp::from_micros(0),
        framerate: VideoFramerate::new(50, 1),
        line_stride: width,
        data: Bytes::from(vec![1u8; len]),
    }
}

fn joined(id: &str) -> FeedEvent {
    FeedEvent::Message(FeedControlMessage::ClientJoined { client_id: id.to_string() })
}

#[test]
fn startup_idle_loop() {
    let mut pipeline = pipeline();
    assert_eq!(pipeline.current_phase(), FeedPhase::Draining);
    // Over any number of rounds without a peer the loop only waits on its inbox.
    for _ in 0..50 {
        assert!(matches!(pipeline.step(FeedEvent::InboxEmpty), FeedAction::AwaitInbox));
        assert_eq!(pipeline.current_phase(), FeedPhase::Idle);
        let woken = pipeline.step(FeedEvent::Message(FeedControlMessage::RequestKeyframe));
        assert!(matches!(woken, FeedAction::PollInbox { rate_update: None }));
        assert_eq!(pipeline.current_phase(), FeedPhase::Draining);
        let left = pipeline.step(FeedEvent::Message(FeedControlMessage::ClientLeft {
            client_id: "nobody".to_string(),
        }));
        assert!(matches!(left, FeedAction::PollInbox { rate_update: Some(_) }));
    }
    assert_eq!(pipeline.feed_manager().target_bitrate(), 1000);
}

#[test]
fn one_round_of_the_loop() {
    let mut pipeline = pipeline();
    match pipeline.step(joined("A")) {
        FeedAction::PollInbox { rate_update } => assert_eq!(
            rate_update,
            Some(FeedEncoderRateUpdate::OpenH264(OpenH264RateUpdate::Stored))
        ),
        _ => panic!("the message was not taken"),
    }
    assert!(matches!(pipeline.step(FeedEvent::InboxEmpty), FeedAction::Capture));
    assert_eq!(pipeline.current_phase(), FeedPhase::Capturing);
    // No frame within the timeout: back to the inbox.
    assert!(matches!(
        pipeline.step(FeedEvent::Captured(None)),
        FeedAction::PollInbox { rate_update: None }
    ));
    assert!(matches!(pipeline.step(FeedEvent::InboxEmpty), FeedAction::Capture));
    match pipeline.step(FeedEvent::Captured(Some(planar(4, 2)))) {
        FeedAction::Encode(FeedEncoderJob::OpenH264(job)) => assert!(job.force_intra_frame),
        _ => panic!("the frame was not encoded"),
    }
    assert_eq!(pipeline.current_phase(), FeedPhase::Encoding);
    // Encoding took 5 ms of the 20 ms frame period.
    match pipeline.step(FeedEvent::Encoded { now: 5_000_000 }) {
        FeedAction::Sleep(delay) => assert_eq!(delay, 15_000_000),
        _ => panic!("the frame was not paced"),
    }
    assert_eq!(pipeline.current_phase(), FeedPhase::Pacing);
    assert!(matches!(pipeline.step(FeedEvent::Slept { now: 20_100_000 }), FeedAction::Broadcast));
    assert_eq!(pipeline.current_phase(), FeedPhase::Draining);

    // The next frame counts its period from the end of the last wait.
    assert!(matches!(pipeline.step(FeedEvent::InboxEmpty), FeedAction::Capture));
    match pipeline.step(FeedEvent::Captured(Some(planar(4, 2)))) {
        FeedAction::Encode(FeedEncoderJob::OpenH264(job)) => assert!(!job.force_intra_frame),
        _ => panic!("the frame was not encoded"),
    }
    match pipeline.step(FeedEvent::Encoded { now: 45_000_000 }) {
        FeedAction::Sleep(delay) => assert_eq!(delay, 0),
        _ => panic!("the frame was not paced"),
    }
}

#[test]
fn keyframe_request_between_frames() {
    let mut pipeline = pipeline();
    pipeline.step(joined("A"));
    let mut keyframes = Vec::new();
    for round in 0..4u64 {
        if round == 2 {
            pipeline.step(FeedEvent::Message(FeedControlMessage::RequestKeyframe));
        }
        assert!(matches!(pipeline.step(FeedEvent::InboxEmpty), FeedAction::Capture));
        match pipeline.step(FeedEvent::Captured(Some(planar(4, 2)))) {
            FeedAction::Encode(FeedEncoderJob::OpenH264(job)) => {
                keyframes.push(job.force_intra_frame)
            }
            _ => panic!("the frame was not encoded"),
        }
        pipeline.step(FeedEvent::Encoded { now: round * 20_000_000 });
        pipeline.step(FeedEvent::Slept { now: round * 20_000_000 });
    }
    assert_eq!(keyframes, vec![true, false, true, false]);
}

#[test]
fn events_out_of_turn_are_ignored() {
    let mut pipeline = pipeline();
    assert!(matches!(pipeline.step(FeedEvent::Captured(None)), FeedAction::Ignored));
    assert!(matches!(pipeline.step(FeedEvent::Encoded { now: 1 }), FeedAction::Ignored));
    assert!(matches!(pipeline.step(FeedEvent::Slept { now: 1 }), FeedAction::Ignored));
    assert_eq!(pipeline.current_phase(), FeedPhase::Draining);
    pipeline.step(joined("A"));
    pipeline.step(FeedEvent::InboxEmpty);
    assert!(matches!(pipeline.step(FeedEvent::InboxEmpty), FeedAction::Ignored));
    assert!(matches!(pipeline.step(joined("B")), FeedAction::Ignored));
    assert_eq!(pipeline.current_phase(), FeedPhase::Capturing);
}

#[test]
fn frame_that_cannot_be_converted_stops_the_feed() {
    let mut pipeline = pipeline();
    pipeline.step(joined("A"));
    pipeline.step(FeedEvent::InboxEmpty);
    let bad = VideoFrameBuffer {
        pix_fmt: VideoFramePixelFormat::UYVY,
        width: 4,
        height: 2,
        timestamp: VideoTimestamp::from_micros(0),
        framerate: VideoFramerate::new(50, 1),
        line_stride: 6,
        data: Bytes::from(vec![0u8; 12]),
    };
    match pipeline.step(FeedEvent::Captured(Some(bad))) {
        FeedAction::Abort(e) => assert_eq!(
            e,
            FeedError::Conversion(ColorConversionError::IPPError(STATUS_STEP_ERROR))
        ),
        _ => panic!("the feed went on"),
    }
    assert_eq!(pipeline.current_phase(), FeedPhase::Stopped);
    assert!(matches!(pipeline.step(FeedEvent::InboxEmpty), FeedAction::Ignored));
}

fn ignores_everything(pipeline: &mut FeedPipeline) {
    assert_eq!(pipeline.current_phase(), FeedPhase::Stopped);
    let events = [
        FeedEvent::InboxEmpty,
        joined("late"),
        FeedEvent::Captured(None),
        FeedEvent::Captured(Some(planar(4, 2))),
        FeedEvent::Encoded { now: 1 },
        FeedEvent::Slept { now: 2 },
        FeedEvent::CaptureFailed(SourceError::ErrorFrame),
        FeedEvent::EncodeFailed(EncoderError { backend: EncoderBackend::Nvenc, status: 8 }),
        FeedEvent::RateUpdateFailed(EncoderError { backend: EncoderBackend::Nvenc, status: 8 }),
    ];
    for event in events {
        assert!(matches!(pipeline.step(event), FeedAction::Ignored));
        assert_eq!(pipeline.current_phase(), FeedPhase::Stopped);
    }
}

#[test]
fn failed_capture_stops_the_feed() {
    let mut pipeline = pipeline();
    pipeline.step(joined("A"));
    assert!(matches!(pipeline.step(FeedEvent::InboxEmpty), FeedAction::Capture));
    match pipeline.step(FeedEvent::CaptureFailed(SourceError::ErrorFrame)) {
        FeedAction::Abort(e) => assert_eq!(e, FeedError::Source(SourceError::ErrorFrame)),
        _ => panic!("the feed went on"),
    }
    ignores_everything(&mut pipeline);
}

#[test]
fn failed_encode_stops_the_feed_and_sends_nothing() {
    let mut pipeline = pipeline();
    pipeline.step(joined("A"));
    pipeline.step(FeedEvent::InboxEmpty);
    assert!(matches!(
        pipeline.step(FeedEvent::Captured(Some(planar(4, 2)))),
        FeedAction::Encode(_)
    ));
    let failure = EncoderError { backend: EncoderBackend::OpenH264, status: 4 };
    match pipeline.step(FeedEvent::EncodeFailed(failure)) {
        FeedAction::Abort(e) => assert_eq!(e, FeedError::Encoder(failure)),
        _ => panic!("the feed went on"),
    }
    ignores_everything(&mut pipeline);
}

#[test]
fn failed_rate_update_stops_the_feed() {
    let mut pipeline = pipeline();
    assert!(matches!(pipeline.step(joined("A")), FeedAction::PollInbox { rate_update: Some(_) }));
    let failure = EncoderError { backend: EncoderBackend::OpenH264, status: 1 };
    match pipeline.step(FeedEvent::RateUpdateFailed(failure)) {
        FeedAction::Abort(e) => assert_eq!(e, FeedError::Encoder(failure)),
        _ => panic!("the feed went on"),
    }
    ignores_everything(&mut pipeline);
}

#[test]
fn failures_out_of_turn_are_ignored() {
    let mut pipeline = pipeline();
    let failure = EncoderError { backend: EncoderBackend::OpenH264, status: 1 };
    assert!(matches!(
        pipeline.step(FeedEvent::CaptureFailed(SourceError::ErrorFrame)),
        FeedAction::Ignored
    ));
    assert!(matches!(pipeline.step(FeedEvent::EncodeFailed(failure)), FeedAction::Ignored));
    assert_eq!(pipeline.current_phase(), FeedPhase::Draining);
    pipeline.step(joined("A"));
    pipeline.step(FeedEvent::InboxEmpty);
    assert!(matches!(pipeline.step(FeedEvent::RateUpdateFailed(failure)), FeedAction::Ignored));
    assert!(matches!(pipeline.step(FeedEvent::EncodeFailed(failure)), FeedAction::Ignored));
    assert_eq!(pipeline.current_phase(), FeedPhase::Capturing);
}

#[test]
fn pipeline_is_built_as_configured() {
    let pipeline = pipeline();
    assert!(matches!(pipeline.feed_manager().encoder(), FeedEncoder::OpenH264(_)));
    match pipeline.feed_manager().source() {
        FeedSource::NDI(source) => {
            assert_eq!(source.receiver_settings().source_name, "cam");
            assert!(source.keeps_waiting(999));
            assert!(!source.keeps_waiting(1000));
        }
    }
    let config = FeedConfigBuilder::new()
        .source(FeedSourceConfig::NDI(NDIFeedSourceConfig::new("gpu cam".to_string(), 5)))
        .encoder(FeedEncoderConfig::Nvenc(NvencFeedEncoderConfig::new(0, 1)))
        .build_interactive(None)
        .unwrap();
    let mut gpu = FeedPipeline::new(config, 0);
    match gpu.feed_manager().encoder() {
        FeedEncoder::Nvenc(_) => {}
        FeedEncoder::OpenH264(_) => panic!("the configured backend was not built"),
    }
    // The backend stays through messages, frames and the end.
    gpu.step(joined("A"));
    gpu.step(FeedEvent::InboxEmpty);
    assert!(matches!(
        gpu.step(FeedEvent::Captured(Some(planar(4, 2)))),
        FeedAction::Encode(FeedEncoderJob::Nvenc(_))
    ));
    match gpu.close() {
        FeedEncoderRelease::Nvenc(resources) => assert_eq!(
            resources,
            vec![
                NvencResource::OutputBitstream,
                NvencResource::InputBuffer,
                NvencResource::Session,
                NvencResource::Context,
            ]
        ),
        FeedEncoderRelease::OpenH264 { .. } => panic!("the backend changed"),
    }
    assert!(matches!(gpu.feed_manager().encoder(), FeedEncoder::Nvenc(_)));
    ignores_everything(&mut gpu);
}

#[test]
fn closing_a_fresh_pipeline() {
    let mut pipeline = pipeline();
    assert!(matches!(pipeline.close(), FeedEncoderRelease::OpenH264 { destroy: true }));
    ignores_everything(&mut pipeline);
}
