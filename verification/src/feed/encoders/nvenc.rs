//! The GPU backend: what to tell an NVENC session on a CUDA device, and how
//! to lay a picture out in its input buffer.
use crate::feed::encoders::{
    EncoderControl, EncoderFrameFlags, EncoderSetup, EncoderState, FeedEncoderImpl, RateParameters,
};
use crate::feed::frame::{
    lemma_quarter_rows, ColorConversionError, FrameView, Resolution, VideoFrameBuffer,
    VideoFramePixelFormat,
};
use crate::shared_bytes::bytes_as_slice;
use vstd::prelude::*;
use vstd::slice::slice_subrange;

verus! {

/// The largest width and height that a session is opened for.
pub const MAX_DIM: u32 = 4096;

/// Pictures from one keyframe to the next.
pub const GOP_LENGTH: u32 = 10;

/// A status other than success, as the encode API returned it.
#[derive(Debug, Clone, Copy, PartialEq, Eq, Structural)]
pub struct NvencError {
    code: i32,
}

impl NvencError {
    /// The status that the API returned.
    pub closed spec fn status(self) -> i32 {
        self.code
    }

    /// Reads the status of a native call: zero is success, anything else is
    /// an error that carries the status.
    pub fn ok(status: i32) -> (checked: Result<(), NvencError>)
        ensures
            match checked {
                Ok(_) => status == 0,
                Err(e) => status != 0 && e.status() == status,
            },
    {
        if status == 0 {
            Ok(())
        } else {
            Err(NvencError { code: status })
        }
    }

    pub fn code(&self) -> (code: i32)
        ensures
            code == self.status(),
    {
        self.code
    }
}

/// A CUDA driver call that failed: its status, and the name and the
/// description that the driver has for it.
#[derive(Debug)]
pub struct CudaError {
    pub code: i32,
    pub label: String,
    pub message: String,
}

impl CudaError {
    /// Whether `code` is the status of a driver call that succeeded.
    pub fn succeeded(code: i32) -> (success: bool)
        ensures
            success == (code == 0),
    {
        code == 0
    }

    pub fn new(code: i32, label: String, message: String) -> (error: Self)
        ensures
            error.code == code,
            error.label == label,
            error.message == message,
    {
        CudaError { code, label, message }
    }
}

/// A 128-bit identifier of a codec or a preset, as the encode API spells it.
#[derive(Debug, Clone, Copy, PartialEq, Eq, Structural)]
pub struct Guid {
    pub data1: u32,
    pub data2: u16,
    pub data3: u16,
    pub data4: u64,
}

/// The codecs that a session is asked for.
#[derive(Debug, Clone, Copy, PartialEq, Eq, Structural)]
pub enum Codec {
    H264,
}

/// The presets that a session is asked for.
#[derive(Debug, Clone, Copy, PartialEq, Eq, Structural)]
pub enum Preset {
    P4,
}

/// What the preset is tuned for.
#[derive(Debug, Clone, Copy, PartialEq, Eq, Structural)]
pub enum TuningInfo {
    HighQuality,
    LowLatency,
    UltraLowLatency,
    Lossless,
}

/// Whether pictures are coded as frames or as fields.
#[derive(Debug, Clone, Copy, PartialEq, Eq, Structural)]
pub enum FrameFieldMode {
    Frame,
    Field,
    Mbaff,
}

/// How the session controls its rate.
#[derive(Debug, Clone, Copy, PartialEq, Eq, Structural)]
pub enum RateControl {
    ConstQp,
    Vbr,
    Cbr,
}

/// What a session holds, in the order in which it acquires it.
#[derive(Debug, Clone, Copy, PartialEq, Eq, Structural)]
pub enum NvencResource {
    Context,
    Session,
    InputBuffer,
    OutputBitstream,
}

/// Whether a device of compute capability `major.minor` can encode: it
/// takes 3.0 or later.
pub fn supports_nvenc(major: i32, minor: i32) -> (capable: bool)
    ensures
        capable == (16 * major + minor >= 48),
{
    16 * (major as i64) + (minor as i64) >= 48
}

/// Whether `wanted` is among the codecs that a session offers.
pub fn supports_codec(offered: &[Guid], wanted: &Guid) -> (found: bool)
    ensures
        found == offered@.contains(*wanted),
{
    let mut index: usize = 0;
    while index < offered.len()
        invariant
            index <= offered@.len(),
            forall|i: int| 0 <= i < index ==> offered@[i] != *wanted,
        decreases offered@.len() - index,
    {
        let guid = &offered[index];
        if guid.data1 == wanted.data1 && guid.data2 == wanted.data2 && guid.data3 == wanted.data3
            && guid.data4 == wanted.data4 {
            return true;
        }
        index += 1;
    }
    false
}

/// The coding parameters laid over the preset's.
#[derive(Debug, Clone, Copy, PartialEq, Eq, Structural)]
pub struct NvencEncodeConfig {
    pub gop_length: u32,
    /// Pictures from one P frame to the next; 1 leaves no room for B frames.
    pub frame_interval_p: u32,
    pub frame_field_mode: FrameFieldMode,
    pub rate_control: RateControl,
    pub average_bitrate: u32,
}

/// Every parameter that this backend sets when it initializes or
/// reconfigures a session.
#[derive(Debug, Clone, Copy, PartialEq, Eq, Structural)]
pub struct NvencInitParams {
    pub codec: Codec,
    pub preset: Preset,
    pub tuning: TuningInfo,
    pub max_encode_width: u32,
    pub max_encode_height: u32,
    pub enable_encode_async: bool,
    /// Let the session decide the picture types.
    pub enable_ptd: bool,
    pub dar_width: u32,
    pub dar_height: u32,
    pub encode_width: u32,
    pub encode_height: u32,
    pub frame_rate_num: u32,
    pub frame_rate_den: u32,
    pub encode_config: NvencEncodeConfig,
}

/// The session parameters for pictures of `resolution` at `rate`: H.264,
/// preset P4 tuned for low latency, frames not fields, constant bitrate, a
/// keyframe every ten pictures, no B frames, picture types left to the
/// session, synchronous operation, the frame rate rounded to whole frames per
/// second.
pub open spec fn config_for(resolution: Resolution, rate: RateParameters) -> NvencInitParams {
    NvencInitParams {
        codec: Codec::H264,
        preset: Preset::P4,
        tuning: TuningInfo::LowLatency,
        max_encode_width: MAX_DIM,
        max_encode_height: MAX_DIM,
        enable_encode_async: false,
        enable_ptd: true,
        dar_width: resolution.0,
        dar_height: resolution.1,
        encode_width: resolution.0,
        encode_height: resolution.1,
        frame_rate_num: rate.max_fps.rounded() as u32,
        frame_rate_den: 1,
        encode_config: NvencEncodeConfig {
            gop_length: GOP_LENGTH,
            frame_interval_p: 1,
            frame_field_mode: FrameFieldMode::Frame,
            rate_control: RateControl::Cbr,
            average_bitrate: rate.target_bitrate,
        },
    }
}

/// The session parameters for pictures of `resolution` at `rate`.
pub fn make_config(resolution: Resolution, rate: RateParameters) -> (params: NvencInitParams)
    ensures
        params == config_for(resolution, rate),
{
    NvencInitParams {
        codec: Codec::H264,
        preset: Preset::P4,
        tuning: TuningInfo::LowLatency,
        max_encode_width: MAX_DIM,
        max_encode_height: MAX_DIM,
        enable_encode_async: false,
        enable_ptd: true,
        dar_width: resolution.0,
        dar_height: resolution.1,
        encode_width: resolution.0,
        encode_height: resolution.1,
        frame_rate_num: rate.max_fps.round(),
        frame_rate_den: 1,
        encode_config: NvencEncodeConfig {
            gop_length: GOP_LENGTH,
            frame_interval_p: 1,
            frame_field_mode: FrameFieldMode::Frame,
            rate_control: RateControl::Cbr,
            average_bitrate: rate.target_bitrate,
        },
    }
}

/// What to do to the session before a picture is submitted.
#[derive(Debug, Clone, Copy, PartialEq, Eq)]
pub enum NvencSetup {
    /// Nothing.
    Keep,
    /// Initialize the session with `params`, then create an input buffer for
    /// pictures of `input_buffer` and an output bitstream buffer.
    Initialize { params: NvencInitParams, input_buffer: Resolution },
    /// Reconfigure the session with `params`. Where `new_input_buffer` names a
    /// resolution, replace the input buffer by one of that size.
    Reconfigure {
        params: NvencInitParams,
        reset_encoder: bool,
        force_idr: bool,
        new_input_buffer: Option<Resolution>,
    },
}

/// The native calls that `setup` stands for. A reconfiguration always resets
/// the encoder; it replaces the input buffer when it comes with a keyframe,
/// that is, when the resolution has changed.
pub open spec fn native_setup(setup: EncoderSetup) -> NvencSetup {
    match setup {
        EncoderSetup::Keep => NvencSetup::Keep,
        EncoderSetup::Initialize { resolution, rate } => NvencSetup::Initialize {
            params: config_for(resolution, rate),
            input_buffer: resolution,
        },
        EncoderSetup::Reconfigure { resolution, rate, force_idr } => NvencSetup::Reconfigure {
            params: config_for(resolution, rate),
            reset_encoder: true,
            force_idr,
            new_input_buffer: if force_idr {
                Some(resolution)
            } else {
                None
            },
        },
    }
}

/// One picture as the session takes it.
pub struct NvencPicture {
    pub input_width: u32,
    pub input_height: u32,
    pub input_pitch: u32,
    /// Encode the picture as an IDR.
    pub force_idr: bool,
    /// Write the sequence and picture parameter sets out with it.
    pub output_spspps: bool,
    /// The picture, planar 4:2:0. It goes into the locked input buffer as
    /// `prep_frame_data` lays it out for the buffer's pitch.
    pub frame: VideoFrameBuffer,
}

/// The native calls of one `encode`, in the order in which they are made.
pub struct NvencJob {
    pub setup: NvencSetup,
    pub picture: NvencPicture,
}

/// How the GPU backend is configured.
#[derive(Debug, Clone, Copy, PartialEq, Eq, Structural)]
pub struct NvencFeedEncoderConfig {
    keyframe_interval: u32,
    cuda_idx: i32,
}

impl NvencFeedEncoderConfig {
    pub closed spec fn interval(self) -> u32 {
        self.keyframe_interval
    }

    /// The index of the CUDA device to encode on.
    pub closed spec fn device(self) -> i32 {
        self.cuda_idx
    }

    pub fn new(keyframe_interval: u32, cuda_idx: i32) -> (config: Self)
        ensures
            config.interval() == keyframe_interval,
            config.device() == cuda_idx,
    {
        Self { keyframe_interval, cuda_idx }
    }

    /// The configuration that `default` gives: device 0.
    pub closed spec fn new_default() -> Self {
        NvencFeedEncoderConfig { keyframe_interval: 0, cuda_idx: 0 }
    }

    pub fn cuda_idx(&self) -> (index: i32)
        ensures
            index == self.device(),
    {
        self.cuda_idx
    }

    /// Whether the configured device is among `count` devices.
    pub fn device_exists(&self, count: i32) -> (exists: bool)
        ensures
            exists == (self.device() < count),
    {
        self.cuda_idx < count
    }
}

impl Default for NvencFeedEncoderConfig {
    fn default() -> (config: Self)
        ensures
            config == Self::new_default(),
            config.interval() == 0,
            config.device() == 0,
    {
        Self { keyframe_interval: 0, cuda_idx: 0 }
    }
}

/// What is released when an encoder in `state` is closed, in order: the
/// reverse of the order of acquisition.
pub open spec fn release_order(state: EncoderState) -> Seq<NvencResource> {
    match state {
        EncoderState::Uninitialized { .. } => seq![NvencResource::Session, NvencResource::Context],
        EncoderState::Ready { .. } => seq![
            NvencResource::OutputBitstream,
            NvencResource::InputBuffer,
            NvencResource::Session,
            NvencResource::Context,
        ],
        EncoderState::Closed => Seq::empty(),
    }
}

/// The GPU encoder's control: its configuration and where it stands.
pub struct NvencFeedEncoder {
    config: NvencFeedEncoderConfig,
    control: EncoderControl,
}

impl NvencFeedEncoder {
    pub closed spec fn config(&self) -> NvencFeedEncoderConfig {
        self.config
    }

    /// Where the encoder stands.
    pub closed spec fn state(&self) -> EncoderState {
        self.control@
    }

    /// What a new rate means for the session.
    pub open spec fn native_rate_update(setup: EncoderSetup) -> NvencSetup {
        native_setup(setup)
    }

    /// An encoder that has seen no picture yet.
    pub fn new(config: &NvencFeedEncoderConfig, rate: RateParameters) -> (encoder: Self)
        ensures
            encoder.config() == *config,
            encoder.state() == (EncoderState::Uninitialized { rate }),
    {
        Self { config: *config, control: EncoderControl::new(rate) }
    }

    pub fn current_state(&self) -> (state: EncoderState)
        ensures
            state == self.state(),
    {
        self.control.state()
    }

    fn setup_for(decision: EncoderSetup) -> (setup: NvencSetup)
        ensures
            setup == native_setup(decision),
    {
        match decision {
            EncoderSetup::Keep => NvencSetup::Keep,
            EncoderSetup::Initialize { resolution, rate } => NvencSetup::Initialize {
                params: make_config(resolution, rate),
                input_buffer: resolution,
            },
            EncoderSetup::Reconfigure { resolution, rate, force_idr } => NvencSetup::Reconfigure {
                params: make_config(resolution, rate),
                reset_encoder: true,
                force_idr,
                new_input_buffer: if force_idr {
                    Some(resolution)
                } else {
                    None
                },
            },
        }
    }

    /// Closes the encoder. Says what to release, in order: the output
    /// bitstream and the input buffer if there are any, then the session,
    /// then the context, which has to outlive the session.
    pub fn close(&mut self) -> (released: Vec<NvencResource>)
        ensures
            final(self).config() == old(self).config(),
            final(self).state() == EncoderState::Closed,
            released@ == release_order(old(self).state()),
    {
        let mut released: Vec<NvencResource> = Vec::new();
        match self.control.state() {
            EncoderState::Closed => {},
            EncoderState::Uninitialized { .. } => {
                released.push(NvencResource::Session);
                released.push(NvencResource::Context);
            },
            EncoderState::Ready { .. } => {
                released.push(NvencResource::OutputBitstream);
                released.push(NvencResource::InputBuffer);
                released.push(NvencResource::Session);
                released.push(NvencResource::Context);
            },
        }
        self.control.close();
        assert(released@ =~= release_order(old(self).state()));
        released
    }
}

impl FeedEncoderImpl for NvencFeedEncoder {
    type Job = NvencJob;

    type RateUpdate = NvencSetup;

    open spec fn encoder_state(&self) -> EncoderState {
        self.state()
    }

    /// Prepares one picture for the session.
    ///
    /// The frame is converted to planar 4:2:0 first; where that fails the
    /// encoder is left as it was. Then the session is initialized if this is
    /// its first picture, or reconfigured if the resolution has changed;
    /// either way the picture becomes an IDR with its parameter sets. The job
    /// that comes back holds the native calls to make.
    fn encode(&mut self, frame: &VideoFrameBuffer, flags: EncoderFrameFlags) -> (prepared:
        Result<NvencJob, ColorConversionError>)
        ensures
            final(self).config() == old(self).config(),
            match frame@.to_i420() {
                Err(e) => {
                    &&& prepared == Err::<NvencJob, ColorConversionError>(e)
                    &&& final(self).state() == old(self).state()
                },
                Ok(planar) => {
                    let resolution = frame@.resolution();
                    let keyframe = old(self).state().frame_is_keyframe(resolution, flags);
                    &&& prepared matches Ok(job)
                    &&& job.setup == native_setup(old(self).state().frame_setup(resolution))
                    &&& job.picture.frame@ == planar
                    &&& job.picture.input_width == resolution.0
                    &&& job.picture.input_height == resolution.1
                    &&& job.picture.input_pitch == resolution.0
                    &&& job.picture.force_idr == keyframe
                    &&& job.picture.output_spspps == keyframe
                    &&& final(self).state() == old(self).state().after_frame(resolution)
                },
            },
    {
        assert(self.encoder_state() == self.state());
        let planar = match frame.to_i420() {
            Ok(planar) => planar,
            Err(e) => { return Err(e); },
        };
        let resolution = frame.resolution();
        let (decision, keyframe) = self.control.on_frame(resolution, flags);
        let picture = NvencPicture {
            input_width: resolution.0,
            input_height: resolution.1,
            input_pitch: resolution.0,
            force_idr: keyframe,
            output_spspps: keyframe,
            frame: planar,
        };
        Ok(NvencJob { setup: Self::setup_for(decision), picture })
    }

    /// Takes a new rate. Before the first picture it is only stored; after
    /// it, the session is reconfigured at its resolution, and no IDR is
    /// asked for.
    fn set_rate(&mut self, rate: RateParameters) -> (update: NvencSetup)
        ensures
            final(self).config() == old(self).config(),
            final(self).state() == old(self).state().after_rate(rate),
            update == Self::native_rate_update(old(self).state().rate_setup(rate)),
    {
        assert(self.encoder_state() == self.state());
        let decision = self.control.on_rate(rate);
        Self::setup_for(decision)
    }
}

/// The first `rows` rows of `width` bytes that lie back to back in `data`,
/// laid out `pitch` bytes apart, with zeros between the end of one row and
/// the start of the next.
pub open spec fn padded_rows(data: Seq<u8>, rows: nat, width: nat, pitch: nat) -> Seq<u8>
    decreases rows,
{
    if rows == 0 {
        Seq::empty()
    } else {
        padded_rows(data, (rows - 1) as nat, width, pitch) + data.subrange(
            (rows - 1) * width,
            (rows * width) as int,
        ) + Seq::new((pitch - width) as nat, |i: int| 0u8)
    }
}

/// A planar 4:2:0 picture as it lies in an input buffer of row pitch
/// `pitch`: the luma rows `pitch` bytes apart, then the chroma rows, those of
/// U and after them those of V, `pitch / 2` bytes apart.
pub open spec fn input_image(frame: FrameView, pitch: nat) -> Seq<u8> {
    let luma = (frame.height * frame.width) as int;
    padded_rows(frame.data.take(luma), frame.height, frame.width, pitch) + padded_rows(
        frame.data.skip(luma),
        2 * (frame.height / 2),
        frame.width / 2,
        pitch / 2,
    )
}

/// Bytes of a planar 4:2:0 picture of `height` rows in an input buffer of row
/// pitch `pitch`.
pub open spec fn input_image_len(height: nat, pitch: nat) -> nat {
    height * pitch + (2 * (height / 2)) * (pitch / 2)
}

/// Bytes of a planar 4:2:0 picture of `height` rows in an input buffer of row
/// pitch `pitch`; none where they are more than can be addressed.
pub fn input_image_len_of(height: usize, pitch: usize) -> (len: Option<usize>)
    ensures
        match len {
            Some(n) => n == input_image_len(height as nat, pitch as nat),
            None => input_image_len(height as nat, pitch as nat) > usize::MAX,
        },
{
    let luma = match height.checked_mul(pitch) {
        Some(n) => n,
        None => {
            assert(0 <= (2 * (height / 2)) * (pitch / 2)) by (nonlinear_arith);
            return None;
        },
    };
    let chroma = match (2 * (height / 2)).checked_mul(pitch / 2) {
        Some(n) => n,
        None => { return None; },
    };
    luma.checked_add(chroma)
}

/// Padded rows take `pitch` bytes each.
pub proof fn lemma_padded_rows_len(data: Seq<u8>, rows: nat, width: nat, pitch: nat)
    requires
        width <= pitch,
        rows * width <= data.len(),
    ensures
        padded_rows(data, rows, width, pitch).len() == rows * pitch,
    decreases rows,
{
    if rows > 0 {
        assert(rows * width == (rows - 1) * width + width && rows * pitch == (rows - 1) * pitch
            + pitch && 0 <= (rows - 1) * width) by (nonlinear_arith)
            requires
                rows > 0,
        ;
        lemma_padded_rows_len(data, (rows - 1) as nat, width, pitch);
    } else {
        assert(rows * pitch == 0) by (nonlinear_arith)
            requires
                rows == 0,
        ;
    }
}

/// In padded rows, the byte `column` bytes into row `row` is the byte of the
/// source row at that column, and zero past the row's width.
pub proof fn lemma_padded_rows_sample(
    data: Seq<u8>,
    rows: nat,
    width: nat,
    pitch: nat,
    row: nat,
    column: nat,
)
    requires
        width <= pitch,
        rows * width <= data.len(),
        row < rows,
        column < pitch,
    ensures
        row * pitch + column < padded_rows(data, rows, width, pitch).len(),
        padded_rows(data, rows, width, pitch)[(row * pitch + column) as int] == if column
            < width {
            data[(row * width + column) as int]
        } else {
            0u8
        },
    decreases rows,
{
    assert((rows - 1) * width <= rows * width && rows * pitch == (rows - 1) * pitch + pitch && 0
        <= (rows - 1) * width && rows * width == (rows - 1) * width + width) by (nonlinear_arith)
        requires
            rows > 0,
    ;
    lemma_padded_rows_len(data, rows, width, pitch);
    lemma_padded_rows_len(data, (rows - 1) as nat, width, pitch);
    if row + 1 < rows {
        assert(row * pitch + pitch <= (rows - 1) * pitch) by (nonlinear_arith)
            requires
                row + 1 < rows,
        ;
        lemma_padded_rows_sample(data, (rows - 1) as nat, width, pitch, row, column);
    } else {
        assert(row == rows - 1);
    }
}

/// Appends rows of `width` bytes from `data` at a pitch of `pitch`.
fn push_padded_rows(out: &mut Vec<u8>, data: &[u8], rows: usize, width: usize, pitch: usize)
    requires
        width <= pitch,
        rows * width <= data@.len(),
        old(out)@.len() + rows * pitch <= usize::MAX,
    ensures
        final(out)@ == old(out)@ + padded_rows(data@, rows as nat, width as nat, pitch as nat),
{
    let ghost before = out@;
    let len = data.len();
    let mut row: usize = 0;
    let mut start: usize = 0;
    while row < rows
        invariant
            row <= rows,
            width <= pitch,
            start == row * width,
            rows * width <= data@.len() == len,
            before.len() + rows * pitch <= usize::MAX,
            out@.len() == before.len() + row * pitch,
            out@ == before + padded_rows(data@, row as nat, width as nat, pitch as nat),
        decreases rows - row,
    {
        proof {
            assert((row + 1) * width <= rows * width && (row + 1) * width == row * width + width
                && (row + 1) * pitch == row * pitch + pitch && (row + 1) * pitch <= rows * pitch)
                by (nonlinear_arith)
                requires
                    row < rows,
            ;
        }
        let ghost filled = out@;
        out.extend_from_slice(slice_subrange(data, start, start + width));
        let ghost copied = out@;
        let mut pad: usize = width;
        while pad < pitch
            invariant
                width <= pad <= pitch,
                copied.len() + (pitch - width) <= usize::MAX,
                out@ == copied + Seq::new((pad - width) as nat, |i: int| 0u8),
            decreases pitch - pad,
        {
            out.push(0u8);
            pad += 1;
            assert(out@ =~= copied + Seq::new((pad - width) as nat, |i: int| 0u8));
        }
        row += 1;
        start += width;
        assert(out@ =~= before + padded_rows(data@, row as nat, width as nat, pitch as nat));
    }
}

/// Lays a planar 4:2:0 picture out for an input buffer whose rows lie
/// `pitch` bytes apart. The bytes between the end of a row and the start of
/// the next are zero.
pub fn prep_frame_data(frame: &VideoFrameBuffer, pitch: usize) -> (image: Vec<u8>)
    requires
        frame.pix_fmt == VideoFramePixelFormat::I420,
        frame@.wf(),
        frame.width <= pitch,
        input_image_len(frame.height as nat, pitch as nat) <= usize::MAX,
    ensures
        image@ == input_image(frame@, pitch as nat),
        image@.len() == input_image_len(frame.height as nat, pitch as nat),
{
    let data = bytes_as_slice(&frame.data);
    let len = data.len();
    let width = frame.width;
    let height = frame.height;
    proof {
        lemma_quarter_rows(width as int, height as int);
        assert(height * width == width * height) by (nonlinear_arith);
        assert((2 * (height / 2)) * (width / 2) == 2 * ((width / 2) * (height / 2)))
            by (nonlinear_arith);
    }
    let luma = height * width;
    let mut image: Vec<u8> = Vec::new();
    let y_plane = slice_subrange(data, 0, luma);
    let chroma = slice_subrange(data, luma, len);
    assert(y_plane@ =~= frame@.data.take(luma as int));
    assert(chroma@ =~= frame@.data.skip(luma as int));
    push_padded_rows(&mut image, y_plane, height, width, pitch);
    proof {
        lemma_padded_rows_len(y_plane@, height as nat, width as nat, pitch as nat);
        lemma_padded_rows_len(
            chroma@,
            (2 * (height / 2)) as nat,
            (width / 2) as nat,
            (pitch / 2) as nat,
        );
    }
    push_padded_rows(&mut image, chroma, 2 * (height / 2), width / 2, pitch / 2);
    image
}

} // verus!
