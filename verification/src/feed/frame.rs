//! Raw video frames and their conversion to planar 4:2:0.
use crate::shared_bytes::{bytes_as_slice, bytes_from_vec, contents};
use bytes::Bytes;
use vstd::prelude::*;
use vstd::slice::slice_subrange;

verus! {

/// Width and height of a picture, in pixels.
pub type Resolution = (u32, u32);

/// How the samples of a frame are laid out in its payload.
#[derive(Debug, Clone, Copy, PartialEq, Eq, Structural)]
pub enum VideoFramePixelFormat {
    /// Planar 4:2:0: the Y plane, then the U plane, then the V plane.
    I420,
    /// Packed 4:2:2: `U Y V Y` for every two pixels of a row.
    UYVY,
}

/// A frame rate as the fraction `num / den` of frames per second.
#[derive(Debug, Clone, Copy, PartialEq, Eq, Structural)]
pub struct VideoFramerate {
    pub num: u32,
    pub den: u32,
}

impl VideoFramerate {
    pub fn new(num: u32, den: u32) -> (rate: Self)
        ensures
            rate.num == num,
            rate.den == den,
    {
        Self { num, den }
    }

    /// A rate that stands for a positive number of frames per second.
    pub open spec fn is_positive(&self) -> bool {
        self.num > 0 && self.den > 0
    }

    /// The rate rounded to whole frames per second, halves rounded up. A rate
    /// without a denominator rounds to zero.
    pub open spec fn rounded(&self) -> int {
        if self.den == 0 {
            0
        } else {
            (2 * self.num + self.den) / (2 * self.den)
        }
    }

    /// The time between two frames at this rate, in nanoseconds, rounded up
    /// to a whole one.
    pub open spec fn period_nanos(&self) -> int
        recommends
            self.num > 0,
    {
        (1_000_000_000 * self.den + self.num - 1) / (self.num as int)
    }

    #[verifier::when_used_as_spec(is_positive)]
    pub fn positive(&self) -> (yes: bool)
        ensures
            yes == self.is_positive(),
    {
        self.num > 0 && self.den > 0
    }

    /// Whole frames per second nearest to the rate.
    pub fn round(&self) -> (fps: u32)
        ensures
            fps == self.rounded(),
    {
        if self.den == 0 {
            return 0;
        }
        let twice: u64 = 2 * (self.num as u64) + (self.den as u64);
        let by: u64 = 2 * (self.den as u64);
        let fps: u64 = twice / by;
        assert(fps <= self.num) by (nonlinear_arith)
            requires
                fps == (2 * self.num + self.den) / (2 * self.den),
                self.den > 0,
        ;
        fps as u32
    }

    /// Nanoseconds from one frame to the next, rounded up.
    pub fn frame_period(&self) -> (nanos: u64)
        requires
            self.num > 0,
        ensures
            nanos == self.period_nanos(),
    {
        (1_000_000_000u64 * (self.den as u64) + (self.num as u64 - 1)) / (self.num as u64)
    }
}

/// The timecode of a video frame, held as whole microseconds.
#[derive(Debug, Clone, Copy, PartialEq, Eq, Structural)]
pub struct VideoTimestamp(u64);

impl VideoTimestamp {
    /// The timestamp in microseconds.
    pub closed spec fn micros(self) -> u64 {
        self.0
    }

    pub fn from_micros(micros: u64) -> (ts: Self)
        ensures
            ts.micros() == micros,
    {
        Self(micros)
    }

    pub fn from_millis(millis: u64) -> (ts: Self)
        requires
            millis * 1000 <= u64::MAX,
        ensures
            ts.micros() == millis * 1000,
    {
        Self(millis * 1000)
    }

    pub fn to_micros(&self) -> (micros: u64)
        ensures
            micros == self.micros(),
    {
        self.0
    }

    pub fn to_millis(&self) -> (millis: u64)
        ensures
            millis == self.micros() / 1000,
    {
        self.0 / 1000
    }
}

/// Why a frame could not be converted. The status is negative, as the
/// native colour-conversion routines report theirs.
#[derive(Debug, Clone, Copy, PartialEq, Eq, Structural)]
pub enum ColorConversionError {
    IPPError(i32),
}

/// Status of a conversion whose source rows are shorter than two bytes per pixel.
pub const STATUS_STEP_ERROR: i32 = -14;

/// Status of a conversion whose source payload ends before the last row does.
pub const STATUS_SIZE_ERROR: i32 = -6;

/// One uncompressed picture. The payload is shared and never written to.
pub struct VideoFrameBuffer {
    pub pix_fmt: VideoFramePixelFormat,
    pub width: usize,
    pub height: usize,
    pub timestamp: VideoTimestamp,
    pub framerate: VideoFramerate,
    /// Bytes from the start of one row of the source to the start of the next.
    pub line_stride: usize,
    pub data: Bytes,
}

/// What a frame is, with its payload as a sequence of bytes.
pub struct FrameView {
    pub pix_fmt: VideoFramePixelFormat,
    pub width: nat,
    pub height: nat,
    /// Microseconds.
    pub timestamp: u64,
    pub framerate: VideoFramerate,
    pub line_stride: nat,
    pub data: Seq<u8>,
}

/// Bytes of a planar 4:2:0 picture: a full plane and two quarter planes.
pub open spec fn i420_len(width: nat, height: nat) -> nat {
    width * height + 2 * ((width * height) / 4)
}

/// The Y plane of a packed 4:2:2 picture: the luma sample of every pixel,
/// row by row.
pub open spec fn luma_plane(src: Seq<u8>, width: nat, height: nat, stride: nat) -> Seq<u8> {
    Seq::new(
        width * height,
        |i: int| src[(i / width as int) * stride + 2 * (i % width as int) + 1],
    )
}

/// A chroma plane of a packed 4:2:2 picture, halved in both directions: the
/// sample `component` bytes into every macropixel of every even row (0 for U,
/// 2 for V), rows of `width / 2` samples. Where a dimension is odd the
/// plane is longer than its rows together; what is left over is zero.
pub open spec fn chroma_plane(
    src: Seq<u8>,
    width: nat,
    height: nat,
    stride: nat,
    component: nat,
) -> Seq<u8> {
    let cw = (width / 2) as int;
    let ch = (height / 2) as int;
    Seq::new(
        (width * height) / 4,
        |j: int|
            if j < cw * ch {
                src[2 * (j / cw) * stride + 4 * (j % cw) + component]
            } else {
                0u8
            },
    )
}

/// The planar 4:2:0 payload of a packed 4:2:2 picture: luma copied sample for
/// sample, chroma taken from the even rows.
pub open spec fn i420_from_uyvy(src: Seq<u8>, width: nat, height: nat, stride: nat) -> Seq<u8> {
    luma_plane(src, width, height, stride) + chroma_plane(src, width, height, stride, 0)
        + chroma_plane(src, width, height, stride, 2)
}

impl FrameView {
    /// The payload has the length that the pixel format asks for.
    pub open spec fn wf(self) -> bool {
        match self.pix_fmt {
            VideoFramePixelFormat::I420 => self.data.len() == i420_len(self.width, self.height),
            VideoFramePixelFormat::UYVY => self.data.len() == self.line_stride * self.height,
        }
    }

    /// The frame as planar 4:2:0, or why it cannot be converted.
    pub open spec fn to_i420(self) -> Result<FrameView, ColorConversionError> {
        match self.pix_fmt {
            VideoFramePixelFormat::I420 => Ok(self),
            VideoFramePixelFormat::UYVY => if self.line_stride < 2 * self.width {
                Err(ColorConversionError::IPPError(STATUS_STEP_ERROR))
            } else if self.data.len() < self.line_stride * self.height {
                Err(ColorConversionError::IPPError(STATUS_SIZE_ERROR))
            } else {
                Ok(
                    FrameView {
                        pix_fmt: VideoFramePixelFormat::I420,
                        data: i420_from_uyvy(self.data, self.width, self.height, self.line_stride),
                        ..self
                    },
                )
            },
        }
    }

    /// The picture's size as the encoders key it: each dimension modulo 2^32.
    pub open spec fn resolution(self) -> Resolution {
        ((self.width % 0x1_0000_0000) as u32, (self.height % 0x1_0000_0000) as u32)
    }

    /// The Y plane of a planar frame.
    pub open spec fn y_plane(self) -> Seq<u8> {
        self.data.subrange(0, (self.width * self.height) as int)
    }

    /// The U plane of a planar frame.
    pub open spec fn u_plane(self) -> Seq<u8> {
        let dim = (self.width * self.height) as int;
        self.data.subrange(dim, dim + dim / 4)
    }

    /// The V plane of a planar frame: all that follows the U plane.
    pub open spec fn v_plane(self) -> Seq<u8> {
        let dim = (self.width * self.height) as int;
        self.data.subrange(dim + dim / 4, self.data.len() as int)
    }
}

impl View for VideoFrameBuffer {
    type V = FrameView;

    open spec fn view(&self) -> FrameView {
        FrameView {
            pix_fmt: self.pix_fmt,
            width: self.width as nat,
            height: self.height as nat,
            timestamp: self.timestamp.micros(),
            framerate: self.framerate,
            line_stride: self.line_stride as nat,
            data: contents(self.data),
        }
    }
}

proof fn lemma_row_fits(row: int, rows: int, stride: int, len: int)
    by (nonlinear_arith)
    requires
        0 <= row < rows,
        0 <= stride,
        stride * rows <= len,
    ensures
        0 <= row * stride,
        row * stride + stride <= len,
{
}

pub(crate) proof fn lemma_quarter_rows(width: int, height: int)
    by (nonlinear_arith)
    requires
        0 <= width,
        0 <= height,
    ensures
        0 <= (width / 2) * (height / 2) <= (width * height) / 4,
{
}

/// Appends the Y plane of a packed 4:2:2 picture.
fn push_luma_plane(out: &mut Vec<u8>, src: &[u8], width: usize, height: usize, stride: usize)
    requires
        2 * width <= stride,
        stride * height <= src@.len(),
        old(out)@.len() + width * height <= usize::MAX,
    ensures
        final(out)@ == old(out)@ + luma_plane(src@, width as nat, height as nat, stride as nat),
{
    let ghost before = out@;
    let ghost plane = luma_plane(src@, width as nat, height as nat, stride as nat);
    let len = src.len();
    let mut count: usize = 0;
    let mut y: usize = 0;
    while y < height
        invariant
            y <= height,
            count == y * width,
            2 * width <= stride,
            stride * height <= src@.len() == len,
            before.len() + width * height <= usize::MAX,
            plane == luma_plane(src@, width as nat, height as nat, stride as nat),
            out@.len() == before.len() + count,
            forall|k: int| 0 <= k < before.len() ==> out@[k] == before[k],
            count <= plane.len(),
            forall|k: int| 0 <= k < count ==> out@[before.len() + k] == #[trigger] plane[k],
        decreases height - y,
    {
        proof {
            lemma_row_fits(y as int, height as int, stride as int, src@.len() as int);
            lemma_row_fits(y as int, height as int, width as int, width * height);
        }
        let row = y * stride;
        let mut x: usize = 0;
        while x < width
            invariant
                y < height,
                x <= width,
                count == y * width + x,
                row == y * stride,
                row + stride <= src@.len() == len,
                y * width + width <= width * height,
                2 * width <= stride,
                before.len() + width * height <= usize::MAX,
                plane == luma_plane(src@, width as nat, height as nat, stride as nat),
                out@.len() == before.len() + count,
                forall|k: int| 0 <= k < before.len() ==> out@[k] == before[k],
                count <= plane.len(),
            forall|k: int| 0 <= k < count ==> out@[before.len() + k] == #[trigger] plane[k],
            decreases width - x,
        {
            proof {
                vstd::arithmetic::div_mod::lemma_fundamental_div_mod_converse(
                    count as int,
                    width as int,
                    y as int,
                    x as int,
                );
            }
            out.push(src[row + 2 * x + 1]);
            x += 1;
            count += 1;
        }
        y += 1;
        assert(y * width == (y - 1) * width + width) by (nonlinear_arith);
    }
    assert(count == width * height) by (nonlinear_arith)
        requires
            count == y * width,
            y == height,
    ;
    assert(out@ =~= before + plane);
}

/// Appends one chroma plane of a packed 4:2:2 picture.
fn push_chroma_plane(
    out: &mut Vec<u8>,
    src: &[u8],
    width: usize,
    height: usize,
    stride: usize,
    component: usize,
)
    requires
        component <= 2,
        2 * width <= stride,
        stride * height <= src@.len(),
        width * height <= usize::MAX,
        old(out)@.len() + (width * height) / 4 <= usize::MAX,
    ensures
        final(out)@ == old(out)@ + chroma_plane(
            src@,
            width as nat,
            height as nat,
            stride as nat,
            component as nat,
        ),
{
    let ghost before = out@;
    let ghost plane = chroma_plane(
        src@,
        width as nat,
        height as nat,
        stride as nat,
        component as nat,
    );
    let len = src.len();
    let cw = width / 2;
    let ch = height / 2;
    proof {
        lemma_quarter_rows(width as int, height as int);
    }
    let quarter = width * height / 4;
    let mut count: usize = 0;
    let mut cy: usize = 0;
    while cy < ch
        invariant
            cy <= ch,
            cw == width / 2,
            ch == height / 2,
            count == cy * cw,
            component <= 2,
            2 * width <= stride,
            stride * height <= src@.len() == len,
            cw * ch <= quarter,
            quarter == (width * height) / 4,
            before.len() + quarter <= usize::MAX,
            plane == chroma_plane(
                src@,
                width as nat,
                height as nat,
                stride as nat,
                component as nat,
            ),
            out@.len() == before.len() + count,
            forall|k: int| 0 <= k < before.len() ==> out@[k] == before[k],
            count <= plane.len(),
            forall|k: int| 0 <= k < count ==> out@[before.len() + k] == #[trigger] plane[k],
        decreases ch - cy,
    {
        proof {
            lemma_row_fits(2 * cy as int, height as int, stride as int, src@.len() as int);
            lemma_row_fits(cy as int, ch as int, cw as int, cw * ch);
        }
        let row = 2 * cy * stride;
        let mut cx: usize = 0;
        while cx < cw
            invariant
                cy < ch,
                cx <= cw,
                cw == width / 2,
                ch == height / 2,
                count == cy * cw + cx,
                row == 2 * cy * stride,
                row + stride <= src@.len() == len,
                cy * cw + cw <= cw * ch,
                component <= 2,
                2 * width <= stride,
                cw * ch <= quarter,
                quarter == (width * height) / 4,
                before.len() + quarter <= usize::MAX,
                plane == chroma_plane(
                    src@,
                    width as nat,
                    height as nat,
                    stride as nat,
                    component as nat,
                ),
                out@.len() == before.len() + count,
                forall|k: int| 0 <= k < before.len() ==> out@[k] == before[k],
                count <= plane.len(),
            forall|k: int| 0 <= k < count ==> out@[before.len() + k] == #[trigger] plane[k],
            decreases cw - cx,
        {
            proof {
                vstd::arithmetic::div_mod::lemma_fundamental_div_mod_converse(
                    count as int,
                    cw as int,
                    cy as int,
                    cx as int,
                );
            }
            out.push(src[row + 4 * cx + component]);
            cx += 1;
            count += 1;
        }
        cy += 1;
        assert(cy * cw == (cy - 1) * cw + cw) by (nonlinear_arith);
    }
    assert(count == cw * ch) by (nonlinear_arith)
        requires
            count == cy * cw,
            cy == ch,
    ;
    while count < quarter
        invariant
            cw * ch <= count <= quarter,
            cw == width / 2,
            ch == height / 2,
            quarter == (width * height) / 4,
            before.len() + quarter <= usize::MAX,
            plane == chroma_plane(
                src@,
                width as nat,
                height as nat,
                stride as nat,
                component as nat,
            ),
            out@.len() == before.len() + count,
            forall|k: int| 0 <= k < before.len() ==> out@[k] == before[k],
            count <= plane.len(),
            forall|k: int| 0 <= k < count ==> out@[before.len() + k] == #[trigger] plane[k],
        decreases quarter - count,
    {
        out.push(0u8);
        count += 1;
    }
    assert(out@ =~= before + plane);
}

impl VideoFrameBuffer {
    /// The picture's size as the encoders key it.
    pub fn resolution(&self) -> (size: Resolution)
        ensures
            size == self@.resolution(),
    {
        let width = self.width as u64;
        let height = self.height as u64;
        assert(width as u32 == width % 0x1_0000_0000) by (bit_vector);
        assert(height as u32 == height % 0x1_0000_0000) by (bit_vector);
        (width as u32, height as u32)
    }

    /// Whether the payload has the length that the pixel format asks for.
    pub fn is_well_formed(&self) -> (wf: bool)
        ensures
            wf == self@.wf(),
    {
        let len = bytes_as_slice(&self.data).len();
        match self.pix_fmt {
            VideoFramePixelFormat::I420 => match self.width.checked_mul(self.height) {
                Some(dim) => match (dim / 4).checked_mul(2) {
                    Some(chroma) => match dim.checked_add(chroma) {
                        Some(expected) => len == expected,
                        None => false,
                    },
                    None => false,
                },
                None => false,
            },
            VideoFramePixelFormat::UYVY => match self.line_stride.checked_mul(self.height) {
                Some(expected) => len == expected,
                None => false,
            },
        }
    }

    /// Another handle on the same frame.
    pub fn duplicate(&self) -> (copy: VideoFrameBuffer)
        ensures
            copy@ == self@,
    {
        VideoFrameBuffer {
            pix_fmt: self.pix_fmt,
            width: self.width,
            height: self.height,
            timestamp: self.timestamp,
            framerate: self.framerate,
            line_stride: self.line_stride,
            data: self.data.clone(),
        }
    }

    /// Convert the frame to planar 4:2:0. A planar frame comes back as it is,
    /// sharing its payload. A packed 4:2:2 frame gives a new frame of the same
    /// size and timestamp, unless its rows are shorter than two bytes per
    /// pixel or its payload ends before its last row.
    pub fn to_i420(&self) -> (converted: Result<VideoFrameBuffer, ColorConversionError>)
        ensures
            match self@.to_i420() {
                Ok(frame) => converted matches Ok(out) && out@ == frame,
                Err(e) => converted == Err::<VideoFrameBuffer, ColorConversionError>(e),
            },
    {
        match self.pix_fmt {
            VideoFramePixelFormat::I420 => Ok(self.duplicate()),
            VideoFramePixelFormat::UYVY => self.uyvy_to_i420(),
        }
    }

    fn uyvy_to_i420(&self) -> (converted: Result<VideoFrameBuffer, ColorConversionError>)
        requires
            self.pix_fmt == VideoFramePixelFormat::UYVY,
        ensures
            match self@.to_i420() {
                Ok(frame) => converted matches Ok(out) && out@ == frame,
                Err(e) => converted == Err::<VideoFrameBuffer, ColorConversionError>(e),
            },
    {
        let width = self.width;
        let height = self.height;
        let stride = self.line_stride;
        let src = bytes_as_slice(&self.data);
        let len = src.len();
        let row_bytes = match width.checked_mul(2) {
            Some(n) => n,
            None => { return Err(ColorConversionError::IPPError(STATUS_STEP_ERROR)); },
        };
        if stride < row_bytes {
            return Err(ColorConversionError::IPPError(STATUS_STEP_ERROR));
        }
        let needed = match stride.checked_mul(height) {
            Some(n) => n,
            None => { return Err(ColorConversionError::IPPError(STATUS_SIZE_ERROR)); },
        };
        if len < needed {
            return Err(ColorConversionError::IPPError(STATUS_SIZE_ERROR));
        }
        assert(2 * (width * height) <= stride * height) by (nonlinear_arith)
            requires
                2 * width <= stride,
                0 <= width,
                0 <= height,
        ;
        let mut yuv: Vec<u8> = Vec::new();
        push_luma_plane(&mut yuv, src, width, height, stride);
        push_chroma_plane(&mut yuv, src, width, height, stride, 0);
        push_chroma_plane(&mut yuv, src, width, height, stride, 2);
        let data = bytes_from_vec(yuv);
        Ok(
            VideoFrameBuffer {
                pix_fmt: VideoFramePixelFormat::I420,
                width,
                height,
                timestamp: self.timestamp,
                framerate: self.framerate,
                line_stride: stride,
                data,
            },
        )
    }

    /// The three planes of a planar frame, as views into its payload.
    pub fn yuv_slices(&self) -> (planes: (&[u8], &[u8], &[u8]))
        requires
            self.pix_fmt == VideoFramePixelFormat::I420,
            self.width * self.height + (self.width * self.height) / 4 <= self@.data.len(),
        ensures
            planes.0@ == self@.y_plane(),
            planes.1@ == self@.u_plane(),
            planes.2@ == self@.v_plane(),
            planes.0@ + planes.1@ + planes.2@ == self@.data,
            planes.0@.len() == self.width * self.height,
            planes.1@.len() == (self.width * self.height) / 4,
            self@.wf() ==> planes.2@.len() == (self.width * self.height) / 4,
    {
        let data = bytes_as_slice(&self.data);
        let len = data.len();
        let dim = self.width * self.height;
        let y = slice_subrange(data, 0, dim);
        let u = slice_subrange(data, dim, dim + dim / 4);
        let v = slice_subrange(data, dim + dim / 4, len);
        assert(y@ + u@ + v@ =~= self@.data);
        (y, u, v)
    }
}

impl Clone for VideoFrameBuffer {
    /// Another handle on the same frame.
    fn clone(&self) -> (copy: Self)
        ensures
            copy@ == self@,
    {
        self.duplicate()
    }
}

/// Converting twice is converting once: what `to_i420` gives is planar, and
/// a planar frame converts to itself.
pub proof fn lemma_to_i420_idempotent(frame: FrameView)
    ensures
        frame.to_i420() matches Ok(once) ==> once.to_i420() == Ok::<
            FrameView,
            ColorConversionError,
        >(once),
{
}

/// The planes of a converted frame lie one after another in its payload and
/// fill it: a full plane and two quarter planes.
pub proof fn lemma_converted_planes_cover(frame: FrameView)
    requires
        frame.wf(),
    ensures
        frame.to_i420() matches Ok(planar) ==> {
            &&& planar.wf()
            &&& planar.pix_fmt == VideoFramePixelFormat::I420
            &&& planar.y_plane() + planar.u_plane() + planar.v_plane() == planar.data
            &&& planar.y_plane().len() == planar.width * planar.height
            &&& planar.u_plane().len() == (planar.width * planar.height) / 4
            &&& planar.v_plane().len() == (planar.width * planar.height) / 4
        },
{
    if let Ok(planar) = frame.to_i420() {
        assert(planar.y_plane() + planar.u_plane() + planar.v_plane() =~= planar.data);
    }
}

} // verus!
