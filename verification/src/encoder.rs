//! H.264 encoding: BGRA to I420 conversion, the encoder wrapper and
//! keyframe classification.

use vstd::prelude::*;

verus! {

use crate::error::Error;

/// One encoded video frame: Annex-B NAL data, a presentation timestamp in
/// frame units, and a keyframe flag.
#[derive(Debug, Clone)]
pub struct EncodedFrame {
    /// Encoded NAL data
    pub data: Vec<u8>,
    /// Presentation timestamp
    pub pts: i64,
    /// Whether this is a keyframe
    pub is_keyframe: bool,
}

/// A value clamped into a byte.
pub open spec fn clamp_byte(v: int) -> u8 {
    if v < 0 {
        0u8
    } else if v > 255 {
        255u8
    } else {
        v as u8
    }
}

/// The BT.601 integer luma of an RGB pixel.
pub open spec fn yuv_y(r: u8, g: u8, b: u8) -> u8 {
    clamp_byte((66 * r + 129 * g + 25 * b + 128) / 256 + 16)
}

/// The BT.601 integer chroma U of an RGB pixel.
pub open spec fn yuv_u(r: u8, g: u8, b: u8) -> u8 {
    clamp_byte((112 * b + 128 - 38 * r - 74 * g) / 256 + 128)
}

/// The BT.601 integer chroma V of an RGB pixel.
pub open spec fn yuv_v(r: u8, g: u8, b: u8) -> u8 {
    clamp_byte((112 * r + 128 - 94 * g - 18 * b) / 256 + 128)
}

/// Law: for any BGRA pixel, the converted Y, U and V values each lie in
/// 0 to 255; Y in fact lies between 16 and 235, and U and V between 16
/// and 240, so the clamp never bites.
pub proof fn lemma_yuv_in_range(r: u8, g: u8, b: u8)
    ensures
        0 <= yuv_y(r, g, b) <= 255,
        16 <= yuv_y(r, g, b) <= 235,
        16 <= yuv_u(r, g, b) <= 240,
        16 <= yuv_v(r, g, b) <= 240,
{
    let ynum = 66 * r + 129 * g + 25 * b + 128;
    assert(0 <= ynum <= 56228);
    assert(ynum / 256 <= 219) by (nonlinear_arith)
        requires
            0 <= ynum <= 56228,
    ;
    let unum = 112 * b + 128 - 38 * r - 74 * g;
    assert(-28432 <= unum <= 28688);
    assert(-112 <= unum / 256 <= 112) by (nonlinear_arith)
        requires
            -28432 <= unum <= 28688,
    ;
    let vnum = 112 * r + 128 - 94 * g - 18 * b;
    assert(-28432 <= vnum <= 28688);
    assert(-112 <= vnum / 256 <= 112) by (nonlinear_arith)
        requires
            -28432 <= vnum <= 28688,
    ;
}

/// The luma plane of a BGRA image: one byte per pixel in scan order.
pub open spec fn y_plane(bgra: Seq<u8>, width: int, height: int) -> Seq<u8> {
    Seq::new(
        (width * height) as nat,
        |i: int| yuv_y(bgra[4 * i + 2], bgra[4 * i + 1], bgra[4 * i]),
    )
}

/// The flat pixel index of chroma sample `i`: the top-left pixel of its
/// 2x2 block.
pub open spec fn chroma_pixel(width: int, i: int) -> int {
    2 * (i / (width / 2)) * width + 2 * (i % (width / 2))
}

/// The U plane: one byte per 2x2 block, from its top-left pixel.
pub open spec fn u_plane(bgra: Seq<u8>, width: int, height: int) -> Seq<u8> {
    Seq::new(
        ((width / 2) * (height / 2)) as nat,
        |i: int|
            yuv_u(
                bgra[4 * chroma_pixel(width, i) + 2],
                bgra[4 * chroma_pixel(width, i) + 1],
                bgra[4 * chroma_pixel(width, i)],
            ),
    )
}

/// The V plane: one byte per 2x2 block, from its top-left pixel.
pub open spec fn v_plane(bgra: Seq<u8>, width: int, height: int) -> Seq<u8> {
    Seq::new(
        ((width / 2) * (height / 2)) as nat,
        |i: int|
            yuv_v(
                bgra[4 * chroma_pixel(width, i) + 2],
                bgra[4 * chroma_pixel(width, i) + 1],
                bgra[4 * chroma_pixel(width, i)],
            ),
    )
}

/// The whole I420 image: full-resolution Y plane, then the quarter-
/// resolution U and V planes.
pub open spec fn i420_of(bgra: Seq<u8>, width: int, height: int) -> Seq<u8> {
    y_plane(bgra, width, height) + u_plane(bgra, width, height) + v_plane(bgra, width, height)
}

/// Converts the exec luma formula, proving it equals the spec value.
fn yuv_y_exec(r: u8, g: u8, b: u8) -> (v: u8)
    ensures
        v == yuv_y(r, g, b),
{
    let num: u32 = 66 * (r as u32) + 129 * (g as u32) + 25 * (b as u32) + 128;
    let val: u32 = num / 256 + 16;
    proof {
        lemma_yuv_in_range(r, g, b);
    }
    val as u8
}

/// Floor division by 256 of `pos - neg`, expressed over nonnegative values.
fn chroma_shift(pos: u32, neg: u32) -> (v: i32)
    requires
        pos <= 0x10000,
        neg <= 0x10000,
    ensures
        v == (pos - neg) / 256,
{
    if pos >= neg {
        ((pos - neg) / 256) as i32
    } else {
        let q = ((neg - pos + 255) / 256) as i32;
        proof {
            let d = pos - neg;
            assert(d < 0);
            assert(d / 256 == -((neg - pos + 255) / 256)) by (nonlinear_arith)
                requires
                    d == pos - neg,
                    d < 0,
                    pos <= 0x10000,
                    neg <= 0x10000,
            ;
        }
        -q
    }
}

/// The exec chroma U formula, proved equal to the spec value.
fn yuv_u_exec(r: u8, g: u8, b: u8) -> (v: u8)
    ensures
        v == yuv_u(r, g, b),
{
    let pos: u32 = 112 * (b as u32) + 128;
    let neg: u32 = 38 * (r as u32) + 74 * (g as u32);
    let s = chroma_shift(pos, neg);
    proof {
        lemma_yuv_in_range(r, g, b);
    }
    (s + 128) as u8
}

/// The exec chroma V formula, proved equal to the spec value.
fn yuv_v_exec(r: u8, g: u8, b: u8) -> (v: u8)
    ensures
        v == yuv_v(r, g, b),
{
    let pos: u32 = 112 * (r as u32) + 128;
    let neg: u32 = 94 * (g as u32) + 18 * (b as u32);
    let s = chroma_shift(pos, neg);
    proof {
        lemma_yuv_in_range(r, g, b);
    }
    (s + 128) as u8
}

/// Converts a BGRA image to planar I420: full-resolution luma, then U and V
/// subsampled 2x2 from each block's top-left pixel, each channel given by
/// the BT.601 integer form.
pub fn bgra_to_yuv420(bgra: &[u8], width: usize, height: usize) -> (r: Vec<u8>)
    requires
        bgra@.len() >= width * height * 4,
    ensures
        r@ == i420_of(bgra@, width as int, height as int),
        r@.len() == width * height + 2 * ((width / 2) * (height / 2)),
{
    let blen = bgra.len();
    proof {
        assert(width * height * 4 <= blen && blen <= usize::MAX);
    }
    let mut out: Vec<u8> = Vec::new();
    let total: usize = width * height;
    let mut i: usize = 0;
    while i < total
        invariant
            total == width * height,
            bgra@.len() >= width * height * 4,
            width * height * 4 <= usize::MAX,
            i <= total,
            out@.len() == i,
            forall|j: int| 0 <= j < i ==> out@[j] == y_plane(bgra@, width as int, height as int)[j],
        decreases total - i,
    {
        let base = 4 * i;
        let bv = bgra[base];
        let gv = bgra[base + 1];
        let rv = bgra[base + 2];
        out.push(yuv_y_exec(rv, gv, bv));
        i = i + 1;
    }
    assert(out@ =~= y_plane(bgra@, width as int, height as int));
    let ghost ylen = out@.len();

    let w2: usize = width / 2;
    let h2: usize = height / 2;
    proof {
        assert(w2 * h2 <= width * height) by (nonlinear_arith)
            requires
                w2 == width / 2,
                h2 == height / 2,
        ;
    }
    let ctotal: usize = w2 * h2;

    let mut i: usize = 0;
    while i < ctotal
        invariant
            total == width * height,
            ctotal == w2 * h2,
            w2 == width / 2,
            h2 == height / 2,
            bgra@.len() >= width * height * 4,
            width * height * 4 <= usize::MAX,
            i <= ctotal,
            out@.len() == ylen + i,
            out@.subrange(0, ylen as int) == y_plane(bgra@, width as int, height as int),
            ylen == width * height,
            forall|j: int|
                0 <= j < i ==> out@[ylen + j] == u_plane(bgra@, width as int, height as int)[j],
        decreases ctotal - i,
    {
        proof {
            assert(w2 >= 1 && h2 >= 1) by (nonlinear_arith)
                requires
                    ctotal == w2 * h2,
                    0 <= i < ctotal,
            ;
            assert(i / w2 < h2 && i % w2 < w2) by (nonlinear_arith)
                requires
                    0 <= i < ctotal,
                    ctotal == w2 * h2,
                    w2 >= 1,
            ;
            assert(width <= total && height <= total) by (nonlinear_arith)
                requires
                    total == width * height,
                    width >= 2,
                    height >= 2,
            ;
        }
        let px: usize = 2 * (i % w2);
        let py: usize = 2 * (i / w2);
        proof {
            assert((py * width + px) * 4 + 4 <= width * height * 4) by (nonlinear_arith)
                requires
                    px <= width - 2,
                    py <= height - 2,
                    width >= 2,
                    height >= 2,
            ;
        }
        let idx: usize = py * width + px;
        let base = 4 * idx;
        let bv = bgra[base];
        let gv = bgra[base + 1];
        let rv = bgra[base + 2];
        out.push(yuv_u_exec(rv, gv, bv));
        proof {
            assert(idx == chroma_pixel(width as int, i as int));
        }
        i = i + 1;
    }
    let ghost yulen = out@.len();
    assert(out@.subrange(ylen as int, yulen as int) =~= u_plane(
        bgra@,
        width as int,
        height as int,
    ));

    let mut i: usize = 0;
    while i < ctotal
        invariant
            total == width * height,
            ctotal == w2 * h2,
            w2 == width / 2,
            h2 == height / 2,
            bgra@.len() >= width * height * 4,
            width * height * 4 <= usize::MAX,
            i <= ctotal,
            out@.len() == yulen + i,
            out@.subrange(0, ylen as int) == y_plane(bgra@, width as int, height as int),
            out@.subrange(ylen as int, yulen as int) == u_plane(
                bgra@,
                width as int,
                height as int,
            ),
            ylen == width * height,
            yulen == ylen + ctotal,
            forall|j: int|
                0 <= j < i ==> out@[yulen + j] == v_plane(bgra@, width as int, height as int)[j],
        decreases ctotal - i,
    {
        proof {
            assert(w2 >= 1 && h2 >= 1) by (nonlinear_arith)
                requires
                    ctotal == w2 * h2,
                    0 <= i < ctotal,
            ;
            assert(i / w2 < h2 && i % w2 < w2) by (nonlinear_arith)
                requires
                    0 <= i < ctotal,
                    ctotal == w2 * h2,
                    w2 >= 1,
            ;
            assert(width <= total && height <= total) by (nonlinear_arith)
                requires
                    total == width * height,
                    width >= 2,
                    height >= 2,
            ;
        }
        let px: usize = 2 * (i % w2);
        let py: usize = 2 * (i / w2);
        proof {
            assert((py * width + px) * 4 + 4 <= width * height * 4) by (nonlinear_arith)
                requires
                    px <= width - 2,
                    py <= height - 2,
                    width >= 2,
                    height >= 2,
            ;
        }
        let idx: usize = py * width + px;
        let base = 4 * idx;
        let bv = bgra[base];
        let gv = bgra[base + 1];
        let rv = bgra[base + 2];
        out.push(yuv_v_exec(rv, gv, bv));
        proof {
            assert(idx == chroma_pixel(width as int, i as int));
        }
        i = i + 1;
    }
    assert(out@ =~= i420_of(bgra@, width as int, height as int));
    proof {
        assert(i420_of(bgra@, width as int, height as int).len() == width * height + 2 * ((width
            / 2) * (height / 2)));
    }
    out
}


#[verifier::external_type_specification]
#[verifier::external_body]
pub struct ExOpenH264Encoder(openh264::encoder::Encoder);

/// Relies on openh264's Encoder::with_api_config with the statically built
/// codec: creates an encoder with bitrate rate control and frame skipping
/// off, as the low-latency stream needs.
#[verifier::external_body]
fn openh264_create(bitrate_bps: u32) -> (r: Result<openh264::encoder::Encoder, String>) {
    let config = openh264::encoder::EncoderConfig::new().rate_control_mode(
        openh264::encoder::RateControlMode::Bitrate,
    ).bitrate(openh264::encoder::BitRate::from_bps(bitrate_bps)).skip_frames(false);
    let api = openh264::OpenH264API::from_source();
    openh264::encoder::Encoder::with_api_config(api, config).map_err(|e| e.to_string())
}

/// Relies on openh264's Encoder::encode: encodes one I420 frame and returns
/// its Annex-B byte stream. What the bytes are depends on the encoder's
/// internal state, so nothing is claimed of them.
#[verifier::external_body]
fn openh264_encode(
    enc: &mut openh264::encoder::Encoder,
    yuv: &Vec<u8>,
    width: usize,
    height: usize,
) -> (r: Result<Vec<u8>, String>)
    requires
        width % 2 == 0,
        height % 2 == 0,
        yuv@.len() == 3 * (width * height) / 2,
{
    let buffer = openh264::formats::YUVBuffer::from_vec(yuv.clone(), width, height);
    match enc.encode(&buffer) {
        Ok(bitstream) => Ok(bitstream.to_vec()),
        Err(e) => Err(e.to_string()),
    }
}

/// H.264 encoder with low-latency settings, counting the frames it encoded.
pub struct H264Encoder {
    /// The underlying codec instance
    pub encoder: openh264::encoder::Encoder,
    /// Frame width in pixels
    pub width: u32,
    /// Frame height in pixels
    pub height: u32,
    /// How many frames were encoded; also the next presentation timestamp
    pub frame_count: i64,
}

impl H264Encoder {
    /// Creates an encoder for the given geometry and bitrate in kbps.
    /// Fails with `EncoderError` when the codec refuses the configuration.
    pub fn new(width: u32, height: u32, fps: u32, bitrate: u32) -> (r: Result<Self, Error>)
        requires
            bitrate * 1000 <= u32::MAX,
        ensures
            r matches Ok(enc) ==> enc.width == width && enc.height == height && enc.frame_count
                == 0,
            r matches Err(e) ==> e is EncoderError,
    {
        // the frame rate shapes the timescale, not the codec configuration
        let _ = fps;
        match openh264_create(bitrate * 1000) {
            Ok(encoder) => Ok(H264Encoder { encoder, width, height, frame_count: 0 }),
            Err(e) => Err(Error::EncoderError(e)),
        }
    }

    /// Encodes one BGRA frame. On success the frame carries the running
    /// frame count as its timestamp, and it is flagged a keyframe exactly
    /// when its NAL stream holds an IDR or SPS unit, or when it is the very
    /// first frame; the count then grows by one. A failed encode leaves the
    /// count unchanged.
    pub fn encode(&mut self, bgra: &[u8]) -> (r: Result<EncodedFrame, Error>)
        requires
            bgra@.len() >= old(self).width * old(self).height * 4,
            old(self).width % 2 == 0,
            old(self).height % 2 == 0,
            old(self).frame_count < i64::MAX,
        ensures
            final(self).width == old(self).width,
            final(self).height == old(self).height,
            r matches Ok(frame) ==> {
                &&& frame.pts == old(self).frame_count
                &&& frame.is_keyframe == (crate::nal::contains_keyframe(frame.data@) || old(
                    self,
                ).frame_count == 0)
                &&& final(self).frame_count == old(self).frame_count + 1
            },
            r matches Err(e) ==> e is EncoderError && final(self).frame_count == old(
                self,
            ).frame_count,
    {
        let width = self.width as usize;
        let height = self.height as usize;
        let yuv = bgra_to_yuv420(bgra, width, height);
        proof {
            assert(width * height + 2 * ((width / 2) * (height / 2)) == 3 * (width * height) / 2)
                by (nonlinear_arith)
                requires
                    width % 2 == 0,
                    height % 2 == 0,
            ;
        }
        match openh264_encode(&mut self.encoder, &yuv, width, height) {
            Ok(bytes) => {
                let is_keyframe = crate::nal::check_keyframe(bytes.as_slice()) || self.frame_count
                    == 0;
                let pts = self.frame_count;
                self.frame_count = self.frame_count + 1;
                Ok(EncodedFrame { data: bytes, pts, is_keyframe })
            },
            Err(e) => Err(Error::EncoderError(e)),
        }
    }

    /// Obtains the encoder's SPS and PPS by encoding one mid-grey frame and
    /// drawing the parameter-set NAL units out of its byte stream; when the
    /// stream holds none, the whole stream comes back so a muxer can scan
    /// an embedded IDR frame.
    pub fn get_headers(&mut self) -> (r: Result<Vec<u8>, Error>)
        requires
            old(self).width % 2 == 0,
            old(self).height % 2 == 0,
            old(self).width * old(self).height * 4 <= usize::MAX,
        ensures
            final(self).width == old(self).width,
            final(self).height == old(self).height,
            final(self).frame_count == old(self).frame_count,
            r matches Ok(h) ==> exists|stream: Seq<u8>| h@ == crate::nal::headers_of(stream),
            r matches Err(e) ==> e is EncoderError,
    {
        let width = self.width as usize;
        let height = self.height as usize;
        proof {
            assert((width / 2) * (height / 2) * 4 <= width * height * 4 && width * height + 2 * ((
            width / 2) * (height / 2)) == 3 * (width * height) / 2) by (nonlinear_arith)
                requires
                    width % 2 == 0,
                    height % 2 == 0,
            ;
        }
        let size: usize = width * height + 2 * ((width / 2) * (height / 2));
        let grey: Vec<u8> = vec![128u8; size];
        match openh264_encode(&mut self.encoder, &grey, width, height) {
            Ok(data) => {
                let headers = crate::nal::extract_headers(data.as_slice());
                proof {
                    assert(headers@ == crate::nal::headers_of(data@));
                }
                Ok(headers)
            },
            Err(e) => Err(Error::EncoderError(e)),
        }
    }

    /// How many frames this encoder has encoded.
    pub fn frame_count(&self) -> (r: i64)
        ensures
            r == self.frame_count,
    {
        self.frame_count
    }
}

} // verus!
