use bytes::Bytes;
use telestrator::feed::encoders::nvenc::{
    input_image_len_of, make_config, prep_frame_data, supports_codec, supports_nvenc, Codec, CudaError, FrameFieldMode,
    Guid, NvencError, NvencFeedEncoder, NvencFeedEncoderConfig, NvencResource, NvencSetup, Preset,
    RateControl, TuningInfo, GOP_LENGTH, MAX_DIM,
};
use telestrator::feed::encoders::openh264::{
    assemble_bitstream, layer_size, OpenH264Error, OpenH264FeedEncoder, OpenH264FeedEncoderConfig,
    OpenH264RateUpdate, OpenH264Setup, RateControlMode, SliceMode, UsageType,
};
use telestrator::feed::encoders::{
    EncoderBackend, EncoderControl, EncoderError, EncoderFrameFlags, EncoderSetup, EncoderState,
    FeedEncoder, FeedEncoderConfig, FeedEncoderConfigImpl, FeedEncoderImpl, FeedEncoderJob,
    FeedEncoderRateUpdate, FeedEncoderRelease, RateParameters,
};
use telestrator::feed::frame::{
    ColorConversionError, VideoFrameBuffer, VideoFramePixelFormat, VideoFramerate, VideoTimestamp,
    STATUS_STEP_ERROR,
};

fn rate(kbps: u32) -> RateParameters {
    RateParameters { target_bitrate: kbps, max_fps: VideoFramerate::new(60, 1) }
}

fn planar(width: usize, height: usize) -> VideoFrameBuffer {
    let len = width * height + 2 * (width * height / 4);
    VideoFrameBuffer {
        pix_fmt: VideoFramePixelFormat::I420,
        width,
        height,
        timestamp: VideoTimestamp::from_micros(40_500),
        framerate: VideoFramerate::new(60, 1),
        line_stride: width,
        data: Bytes::from((0..len).map(|i| (i % 251) as u8).collect::<Vec<u8>>()),
    }
}

const NO_FLAGS: EncoderFrameFlags = EncoderFrameFlags { force_keyframe: false };
const KEYFRAME: EncoderFrameFlags = EncoderFrameFlags { force_keyframe: true };

#[test]
fn flags_default_to_no_keyframe() {
    assert!(!EncoderFrameFlags::default().force_keyframe);
}

#[test]
fn first_frame_initializes_and_forces_keyframe() {
    let mut control = EncoderControl::new(rate(1000));
    assert_eq!(control.state(), EncoderState::Uninitialized { rate: rate(1000) });
    let (setup, keyframe) = control.on_frame((1280, 720), NO_FLAGS);
    assert_eq!(setup, EncoderSetup::Initialize { resolution: (1280, 720), rate: rate(1000) });
    assert!(keyframe);
    assert_eq!(control.state(), EncoderState::Ready { resolution: (1280, 720), rate: rate(1000) });
}

#[test]
fn same_resolution_keeps_encoder_and_honours_flags() {
    let mut control = EncoderControl::new(rate(1000));
    control.on_frame((1280, 720), NO_FLAGS);
    assert_eq!(control.on_frame((1280, 720), NO_FLAGS), (EncoderSetup::Keep, false));
    assert_eq!(control.on_frame((1280, 720), KEYFRAME), (EncoderSetup::Keep, true));
}

#[test]
fn resolution_change_forces_keyframe() {
    let mut control = EncoderControl::new(rate(1000));
    control.on_frame((1280, 720), NO_FLAGS);
    let (setup, keyframe) = control.on_frame((1920, 1080), NO_FLAGS);
    assert_eq!(
        setup,
        EncoderSetup::Reconfigure { resolution: (1920, 1080), rate: rate(1000), force_idr: true }
    );
    assert!(keyframe);
    assert_eq!(
        control.state(),
        EncoderState::Ready { resolution: (1920, 1080), rate: rate(1000) }
    );
}

#[test]
fn set_rate_before_first_frame_only_stores() {
    let mut control = EncoderControl::new(rate(1000));
    assert_eq!(control.on_rate(rate(700)), EncoderSetup::Keep);
    assert_eq!(control.on_rate(rate(500)), EncoderSetup::Keep);
    assert_eq!(control.state(), EncoderState::Uninitialized { rate: rate(500) });
    let (setup, _) = control.on_frame((640, 480), NO_FLAGS);
    assert_eq!(setup, EncoderSetup::Initialize { resolution: (640, 480), rate: rate(500) });
}

#[test]
fn set_rate_after_first_frame_reconfigures_without_keyframe() {
    let mut control = EncoderControl::new(rate(1000));
    control.on_frame((640, 480), NO_FLAGS);
    assert_eq!(
        control.on_rate(rate(300)),
        EncoderSetup::Reconfigure { resolution: (640, 480), rate: rate(300), force_idr: false }
    );
    assert_eq!(control.state(), EncoderState::Ready { resolution: (640, 480), rate: rate(300) });
    assert_eq!(control.on_frame((640, 480), NO_FLAGS), (EncoderSetup::Keep, false));
    let (setup, _) = control.on_frame((320, 240), NO_FLAGS);
    assert_eq!(
        setup,
        EncoderSetup::Reconfigure { resolution: (320, 240), rate: rate(300), force_idr: true }
    );
}

#[test]
fn close_ends_in_closed() {
    let mut control = EncoderControl::new(rate(1000));
    assert!(!control.close());
    assert_eq!(control.state(), EncoderState::Closed);
    let mut ready = EncoderControl::new(rate(1000));
    ready.on_frame((2, 2), NO_FLAGS);
    assert!(ready.close());
    assert_eq!(ready.state(), EncoderState::Closed);
}

#[test]
fn encoder_error_carries_backend_and_status() {
    assert_eq!(EncoderError::check(EncoderBackend::Nvenc, 0), Ok(()));
    assert_eq!(
        EncoderError::check(EncoderBackend::OpenH264, 4),
        Err(EncoderError { backend: EncoderBackend::OpenH264, status: 4 })
    );
    assert_eq!(
        EncoderError::check(EncoderBackend::Cuda, -1),
        Err(EncoderError { backend: EncoderBackend::Cuda, status: -1 })
    );
}

#[test]
fn openh264_status_check() {
    assert_eq!(OpenH264Error::ok(0), Ok(()));
    assert_eq!(OpenH264Error::ok(3).unwrap_err().status(), 3);
    assert_eq!(OpenH264Error::ok(-2).unwrap_err().status(), -2);
}

#[test]
fn nvenc_status_check() {
    assert_eq!(NvencError::ok(0), Ok(()));
    assert_eq!(NvencError::ok(8).unwrap_err().code(), 8);
}

#[test]
fn cuda_status_check() {
    assert!(CudaError::succeeded(0));
    assert!(!CudaError::succeeded(100));
    let error = CudaError::new(100, "CUDA_ERROR_NO_DEVICE".to_string(), "no device".to_string());
    assert_eq!(error.code, 100);
    assert_eq!(error.label, "CUDA_ERROR_NO_DEVICE");
    assert_eq!(error.message, "no device");
}

#[test]
fn openh264_config_defaults() {
    let config = OpenH264FeedEncoderConfig::default();
    assert_eq!(config, OpenH264FeedEncoderConfig::new(0, false));
}

#[test]
fn openh264_params_follow_resolution_and_rate() {
    let encoder = OpenH264FeedEncoder::new(&OpenH264FeedEncoderConfig::new(240, false), rate(1500));
    let params = encoder.create_encoder_params((1280, 720), rate(1500));
    assert_eq!(params.pic_width, 1280);
    assert_eq!(params.pic_height, 720);
    assert_eq!(params.target_bitrate, 1_500_000);
    assert_eq!(params.max_frame_rate, VideoFramerate::new(60, 1));
    assert_eq!(params.usage_type, UsageType::ScreenContentRealTime);
    assert_eq!(params.max_bitrate, None);
    assert_eq!(params.rate_control, RateControlMode::Bitrate);
    assert!(params.enable_frame_skip);
    assert_eq!(params.intra_period, 240);
    assert_eq!(params.max_nal_size, 0);
    assert_eq!(params.thread_count, 3);
    assert!(!params.enable_adaptive_quant);
    assert!(!params.enable_background_detection);
    assert_eq!(params.layer.video_width, 1280);
    assert_eq!(params.layer.video_height, 720);
    assert_eq!(params.layer.frame_rate, VideoFramerate::new(60, 1));
    assert_eq!(params.layer.spatial_bitrate, 1_500_000);
    assert_eq!(params.layer.slice_count, 1);
    assert_eq!(params.layer.slice_mode, SliceMode::FixedSliceCount);
    assert_eq!(params.temporal_layers, 1);
}

#[test]
fn openh264_bitrate_does_not_wrap() {
    let encoder = OpenH264FeedEncoder::new(&OpenH264FeedEncoderConfig::default(), rate(1));
    let params = encoder.create_encoder_params((2, 2), rate(u32::MAX));
    assert_eq!(params.target_bitrate, 4_294_967_295_000);
}

#[test]
fn openh264_encode_jobs() {
    let config = OpenH264FeedEncoderConfig::new(0, true);
    let mut encoder = OpenH264FeedEncoder::new(&config, rate(1000));
    let first = encoder.encode(&planar(4, 2), NO_FLAGS).unwrap();
    let params = encoder.create_encoder_params((4, 2), rate(1000));
    assert_eq!(first.setup, OpenH264Setup::Initialize { params, trace_detail: true });
    assert!(first.force_intra_frame);
    assert_eq!(first.picture.width, 4);
    assert_eq!(first.picture.height, 2);
    assert_eq!(first.picture.timestamp, 40);
    assert_eq!(first.picture.strides, (4, 2, 2));
    assert_eq!(first.picture.frame.data, planar(4, 2).data);

    let second = encoder.encode(&planar(4, 2), NO_FLAGS).unwrap();
    assert_eq!(second.setup, OpenH264Setup::Keep);
    assert!(!second.force_intra_frame);

    let third = encoder.encode(&planar(8, 4), NO_FLAGS).unwrap();
    let params = encoder.create_encoder_params((8, 4), rate(1000));
    assert_eq!(third.setup, OpenH264Setup::Update { params });
    assert!(third.force_intra_frame);
    assert_eq!(
        encoder.current_state(),
        EncoderState::Ready { resolution: (8, 4), rate: rate(1000) }
    );
}

#[test]
fn openh264_set_rate() {
    let mut encoder = OpenH264FeedEncoder::new(&OpenH264FeedEncoderConfig::default(), rate(1000));
    assert_eq!(encoder.set_rate(rate(800)), OpenH264RateUpdate::Stored);
    encoder.encode(&planar(4, 2), NO_FLAGS).unwrap();
    assert_eq!(
        encoder.set_rate(rate(600)),
        OpenH264RateUpdate::Apply { max_frame_rate: VideoFramerate::new(60, 1), bitrate: 600_000 }
    );
    assert!(encoder.close());
    assert_eq!(encoder.current_state(), EncoderState::Closed);
    assert!(!encoder.close());
}

#[test]
fn failed_conversion_leaves_encoder_as_it_was() {
    let mut encoder = OpenH264FeedEncoder::new(&OpenH264FeedEncoderConfig::default(), rate(1000));
    let bad = VideoFrameBuffer {
        pix_fmt: VideoFramePixelFormat::UYVY,
        width: 4,
        height: 2,
        timestamp: VideoTimestamp::from_micros(0),
        framerate: VideoFramerate::new(60, 1),
        line_stride: 6,
        data: Bytes::from(vec![0u8; 12]),
    };
    assert_eq!(
        encoder.encode(&bad, NO_FLAGS).err(),
        Some(ColorConversionError::IPPError(STATUS_STEP_ERROR))
    );
    assert_eq!(encoder.current_state(), EncoderState::Uninitialized { rate: rate(1000) });
}

#[test]
fn layer_size_is_sum_of_nal_lengths() {
    assert_eq!(layer_size(&[]), Some(0));
    assert_eq!(layer_size(&[4, 10, 250]), Some(264));
    assert_eq!(layer_size(&[4, -1, 250]), None);
    assert_eq!(layer_size(&[i32::MAX, i32::MAX]), Some(2 * (i32::MAX as usize)));
}

#[test]
fn bitstream_is_layers_in_order() {
    let layers = vec![vec![0, 0, 0, 1, 0x67], vec![], vec![0, 0, 0, 1, 0x65, 9]];
    assert_eq!(
        assemble_bitstream(&layers).as_ref(),
        &[0, 0, 0, 1, 0x67, 0, 0, 0, 1, 0x65, 9][..]
    );
    assert_eq!(assemble_bitstream(&Vec::new()).len(), 0);
}

#[test]
fn nvenc_capability_threshold() {
    assert!(supports_nvenc(3, 0));
    assert!(supports_nvenc(8, 6));
    assert!(!supports_nvenc(2, 15));
    assert!(!supports_nvenc(2, 1));
    assert!(supports_nvenc(2, 16));
    assert!(!supports_nvenc(i32::MIN, 0));
    assert!(supports_nvenc(i32::MAX, i32::MAX));
}

#[test]
fn nvenc_codec_lookup() {
    let h264 = Guid { data1: 0x6bc8_2762, data2: 0x4e63, data3: 0x4ca4, data4: 0xaa85_1e50_f321_f6bf };
    let other = Guid { data1: 1, data2: 2, data3: 3, data4: 4 };
    assert!(supports_codec(&[other, h264], &h264));
    assert!(!supports_codec(&[other], &h264));
    assert!(!supports_codec(&[], &h264));
}

#[test]
fn nvenc_device_index() {
    let config = NvencFeedEncoderConfig::new(0, 1);
    assert_eq!(config.cuda_idx(), 1);
    assert!(config.device_exists(2));
    assert!(!config.device_exists(1));
    assert!(!config.device_exists(0));
    assert_eq!(NvencFeedEncoderConfig::default(), NvencFeedEncoderConfig::new(0, 0));
}

#[test]
fn nvenc_session_parameters() {
    let params = make_config(
        (1920, 1080),
        RateParameters { target_bitrate: 2500, max_fps: VideoFramerate::new(60_000, 1001) },
    );
    assert_eq!(params.codec, Codec::H264);
    assert_eq!(params.preset, Preset::P4);
    assert_eq!(params.tuning, TuningInfo::LowLatency);
    assert_eq!(params.max_encode_width, 4096);
    assert_eq!(params.max_encode_height, MAX_DIM);
    assert!(!params.enable_encode_async);
    assert!(params.enable_ptd);
    assert_eq!((params.dar_width, params.dar_height), (1920, 1080));
    assert_eq!((params.encode_width, params.encode_height), (1920, 1080));
    assert_eq!((params.frame_rate_num, params.frame_rate_den), (60, 1));
    assert_eq!(params.encode_config.gop_length, 10);
    assert_eq!(GOP_LENGTH, 10);
    assert_eq!(params.encode_config.frame_interval_p, 1);
    assert_eq!(params.encode_config.frame_field_mode, FrameFieldMode::Frame);
    assert_eq!(params.encode_config.rate_control, RateControl::Cbr);
    assert_eq!(params.encode_config.average_bitrate, 2500);
}

#[test]
fn nvenc_encode_jobs() {
    let mut encoder = NvencFeedEncoder::new(&NvencFeedEncoderConfig::default(), rate(1000));
    let first = encoder.encode(&planar(4, 2), NO_FLAGS).unwrap();
    assert_eq!(
        first.setup,
        NvencSetup::Initialize { params: make_config((4, 2), rate(1000)), input_buffer: (4, 2) }
    );
    assert!(first.picture.force_idr);
    assert!(first.picture.output_spspps);
    assert_eq!(first.picture.input_width, 4);
    assert_eq!(first.picture.input_height, 2);
    assert_eq!(first.picture.input_pitch, 4);

    let second = encoder.encode(&planar(4, 2), KEYFRAME).unwrap();
    assert_eq!(second.setup, NvencSetup::Keep);
    assert!(second.picture.force_idr);
    assert!(second.picture.output_spspps);

    let third = encoder.encode(&planar(4, 2), NO_FLAGS).unwrap();
    assert_eq!(third.setup, NvencSetup::Keep);
    assert!(!third.picture.force_idr);
    assert!(!third.picture.output_spspps);

    let fourth = encoder.encode(&planar(8, 2), NO_FLAGS).unwrap();
    assert_eq!(
        fourth.setup,
        NvencSetup::Reconfigure {
            params: make_config((8, 2), rate(1000)),
            reset_encoder: true,
            force_idr: true,
            new_input_buffer: Some((8, 2)),
        }
    );
    assert!(fourth.picture.force_idr);
}

#[test]
fn nvenc_set_rate() {
    let mut encoder = NvencFeedEncoder::new(&NvencFeedEncoderConfig::default(), rate(1000));
    assert_eq!(encoder.set_rate(rate(900)), NvencSetup::Keep);
    encoder.encode(&planar(4, 2), NO_FLAGS).unwrap();
    assert_eq!(
        encoder.set_rate(rate(400)),
        NvencSetup::Reconfigure {
            params: make_config((4, 2), rate(400)),
            reset_encoder: true,
            force_idr: false,
            new_input_buffer: None,
        }
    );
}

#[test]
fn nvenc_releases_in_reverse_order() {
    let mut fresh = NvencFeedEncoder::new(&NvencFeedEncoderConfig::default(), rate(1000));
    assert_eq!(fresh.close(), vec![NvencResource::Session, NvencResource::Context]);
    assert_eq!(fresh.current_state(), EncoderState::Closed);
    assert_eq!(fresh.close(), vec![]);

    let mut ready = NvencFeedEncoder::new(&NvencFeedEncoderConfig::default(), rate(1000));
    ready.encode(&planar(4, 2), NO_FLAGS).unwrap();
    assert_eq!(
        ready.close(),
        vec![
            NvencResource::OutputBitstream,
            NvencResource::InputBuffer,
            NvencResource::Session,
            NvencResource::Context,
        ]
    );
}

#[test]
fn input_image_honours_pitch() {
    // 4x2 luma, then four chroma rows of 2 bytes (two of U, two of V... here one each).
    let frame = VideoFrameBuffer {
        pix_fmt: VideoFramePixelFormat::I420,
        width: 4,
        height: 2,
        timestamp: VideoTimestamp::from_micros(0),
        framerate: VideoFramerate::new(60, 1),
        line_stride: 4,
        data: Bytes::from(vec![1, 2, 3, 4, 5, 6, 7, 8, 21, 22, 31, 32]),
    };
    assert_eq!(
        prep_frame_data(&frame, 6),
        vec![1, 2, 3, 4, 0, 0, 5, 6, 7, 8, 0, 0, 21, 22, 0, 31, 32, 0]
    );
    assert_eq!(prep_frame_data(&frame, 4), vec![1, 2, 3, 4, 5, 6, 7, 8, 21, 22, 31, 32]);
}

#[test]
fn input_image_of_odd_height_skips_last_chroma_rows() {
    let frame = planar(2, 3);
    // 6 luma bytes at pitch 4, then 2 * (3 / 2) = 2 chroma rows of 1 byte at pitch 2.
    let image = prep_frame_data(&frame, 4);
    assert_eq!(image, vec![0, 1, 0, 0, 2, 3, 0, 0, 4, 5, 0, 0, 6, 0, 7, 0]);
}

#[test]
fn backend_enum_dispatches() {
    let mut software = FeedEncoderConfig::OpenH264(OpenH264FeedEncoderConfig::default()).build(rate(1000));
    assert!(matches!(software, FeedEncoder::OpenH264(_)));
    assert_eq!(software.set_rate(rate(900)), FeedEncoderRateUpdate::OpenH264(OpenH264RateUpdate::Stored));
    match software.encode(&planar(4, 2), NO_FLAGS).unwrap() {
        FeedEncoderJob::OpenH264(job) => {
            assert!(job.force_intra_frame);
            assert!(matches!(job.setup, OpenH264Setup::Initialize { .. }));
        }
        FeedEncoderJob::Nvenc(_) => panic!("the software backend prepared a GPU job"),
    }
    assert!(matches!(software.close(), FeedEncoderRelease::OpenH264 { destroy: true }));
    assert!(matches!(software.close(), FeedEncoderRelease::OpenH264 { destroy: false }));
    assert!(matches!(software, FeedEncoder::OpenH264(_)));

    let mut gpu = FeedEncoderConfig::Nvenc(NvencFeedEncoderConfig::default()).build(rate(1000));
    assert!(matches!(gpu, FeedEncoder::Nvenc(_)));
    match gpu.encode(&planar(4, 2), NO_FLAGS).unwrap() {
        FeedEncoderJob::Nvenc(job) => assert!(job.picture.force_idr),
        FeedEncoderJob::OpenH264(_) => panic!("the GPU backend prepared a software job"),
    }
    assert_eq!(
        gpu.set_rate(rate(300)),
        FeedEncoderRateUpdate::Nvenc(NvencSetup::Reconfigure {
            params: make_config((4, 2), rate(300)),
            reset_encoder: true,
            force_idr: false,
            new_input_buffer: None,
        })
    );
    match gpu.close() {
        FeedEncoderRelease::Nvenc(resources) => assert_eq!(
            resources,
            vec![
                NvencResource::OutputBitstream,
                NvencResource::InputBuffer,
                NvencResource::Session,
                NvencResource::Context,
            ]
        ),
        FeedEncoderRelease::OpenH264 { .. } => panic!("the GPU backend released a software encoder"),
    }
    assert!(matches!(gpu, FeedEncoder::Nvenc(_)));
}

#[test]
fn input_image_length() {
    assert_eq!(input_image_len_of(2, 6), Some(18));
    assert_eq!(input_image_len_of(3, 4), Some(16));
    assert_eq!(input_image_len_of(0, 4096), Some(0));
    assert_eq!(input_image_len_of(1080, 2048), Some(1080 * 2048 * 3 / 2));
    assert_eq!(input_image_len_of(usize::MAX, 2), None);
    assert_eq!(input_image_len_of(usize::MAX / 2, 2), None);
}

#[test]
fn backend_enum_reports_its_state() {
    let mut encoder =
        FeedEncoderConfig::OpenH264(OpenH264FeedEncoderConfig::default()).build(rate(1000));
    assert_eq!(encoder.current_state(), EncoderState::Uninitialized { rate: rate(1000) });
    encoder.encode(&planar(4, 2), NO_FLAGS).unwrap();
    assert_eq!(
        encoder.current_state(),
        EncoderState::Ready { resolution: (4, 2), rate: rate(1000) }
    );
    assert!(matches!(encoder.close(), FeedEncoderRelease::OpenH264 { destroy: true }));
    assert_eq!(encoder.current_state(), EncoderState::Closed);
}
