//! The encoding pipeline: frames in, fragmented-MP4 segments out.

use vstd::prelude::*;

verus! {

use crate::encoder::H264Encoder;
use crate::error::Error;
use crate::fmp4::Fmp4Muxer;
use crate::frame::Frame;

/// One encoded stream segment ready for fan-out.
#[derive(Debug, Clone)]
pub struct StreamSegment {
    /// The segment bytes
    pub data: Vec<u8>,
    /// Whether this is the initialization segment
    pub is_init: bool,
    /// Whether this contains a keyframe
    pub is_keyframe: bool,
    /// Sequence number of the source frame
    pub sequence: u64,
}

/// The encoding pipeline: the H.264 encoder, the fMP4 muxer, the fixed
/// frame duration in timescale units, and the pre-built init segment.
pub struct EncodingPipeline {
    /// The H.264 encoder
    pub encoder: H264Encoder,
    /// The fMP4 muxer holding the captured parameter sets
    pub muxer: Fmp4Muxer,
    /// Duration of one frame in timescale units
    pub frame_duration: u32,
    /// The initialization segment, built once at startup
    pub init_segment: Option<Vec<u8>>,
}

impl EncodingPipeline {
    /// Builds the pipeline: creates the encoder, draws SPS and PPS out of
    /// one encoded grey frame, and pre-builds the initialization segment.
    /// Fails with `EncoderError` when the codec cannot be created, when the
    /// header frame cannot be encoded, or when a parameter set is too large
    /// for the `avcC` record.
    pub fn new(width: u32, height: u32, fps: u32, bitrate: u32) -> (r: Result<Self, Error>)
        requires
            width % 2 == 0,
            height % 2 == 0,
            width * height * 4 <= usize::MAX,
            fps >= 1,
            fps * 1000 <= u32::MAX,
            bitrate * 1000 <= u32::MAX,
        ensures
            r matches Ok(p) ==> {
                &&& p.encoder.width == width
                &&& p.encoder.height == height
                &&& p.muxer.width == width
                &&& p.muxer.height == height
                &&& p.muxer.timescale == fps * 1000
                &&& p.muxer.sequence_number == 1
                &&& p.muxer.sps@.len() <= 65535
                &&& p.muxer.pps@.len() <= 65535
                &&& p.frame_duration == 1000
                &&& (p.init_segment matches Some(seg) && seg@ == crate::fmp4::init_segment_bytes(
                    width,
                    height,
                    (fps * 1000) as u32,
                    p.muxer.sps@,
                    p.muxer.pps@,
                ))
            },
            r matches Err(e) ==> e is EncoderError,
    {
        let mut encoder = match H264Encoder::new(width, height, fps, bitrate) {
            Ok(enc) => enc,
            Err(e) => {
                return Err(e);
            },
        };
        let mut muxer = Fmp4Muxer::new(width, height, fps);

        let headers = match encoder.get_headers() {
            Ok(h) => h,
            Err(e) => {
                return Err(e);
            },
        };
        muxer.set_headers(headers.as_slice());

        if muxer.sps.len() > 65535 || muxer.pps.len() > 65535 {
            return Err(Error::EncoderError("parameter set too large".to_owned()));
        }
        let init_segment = muxer.create_init_segment();

        let frame_duration = (fps * 1000) / fps;
        proof {
            assert((fps * 1000) as int / fps as int == 1000) by (nonlinear_arith)
                requires
                    fps >= 1,
                    fps * 1000 <= u32::MAX,
            ;
        }

        Ok(
            EncodingPipeline {
                encoder,
                muxer,
                frame_duration,
                init_segment: Some(init_segment),
            },
        )
    }

    /// The initialization segment, for priming each new viewer.
    pub fn get_init_segment(&self) -> (r: Option<Vec<u8>>)
        ensures
            match r {
                Some(seg) => self.init_segment matches Some(own) && seg@ == own@,
                None => self.init_segment is None,
            },
    {
        match &self.init_segment {
            Some(seg) => Some(seg.clone()),
            None => None,
        }
    }

    /// The muxer's WebCodecs codec string.
    pub fn get_codec_string(&self) -> (r: String)
        ensures
            r@ == crate::fmp4::codec_string_of(self.muxer.sps@),
    {
        self.muxer.get_codec_string()
    }

    /// The muxer's `avcC` record for a browser decoder.
    pub fn get_avcc_data(&self) -> (r: Vec<u8>)
        requires
            self.muxer.sps@.len() <= 65535,
            self.muxer.pps@.len() <= 65535,
        ensures
            r@ == crate::fmp4::avcc_content(self.muxer.sps@, self.muxer.pps@, 0x2a),
    {
        self.muxer.get_avcc_data()
    }

    /// Encodes one frame into a media segment: the encoded bytes wrapped in
    /// a `moof`+`mdat` pair carrying the muxer's sequence number, flagged a
    /// keyframe exactly when the encoder output holds an IDR or SPS unit or
    /// the frame is the first. The segment takes the source frame's
    /// sequence number. An encoded frame too large for a 32-bit box size is
    /// refused.
    pub fn encode_frame(&mut self, frame: &Frame) -> (r: Result<StreamSegment, Error>)
        requires
            frame.data@.len() >= old(self).encoder.width * old(self).encoder.height * 4,
            old(self).encoder.width % 2 == 0,
            old(self).encoder.height % 2 == 0,
            old(self).encoder.frame_count < i64::MAX,
            0 <= old(self).encoder.frame_count,
            old(self).encoder.frame_count * old(self).frame_duration <= u64::MAX,
            old(self).muxer.sequence_number < u32::MAX,
        ensures
            final(self).muxer.sps@ == old(self).muxer.sps@,
            final(self).muxer.pps@ == old(self).muxer.pps@,
            final(self).muxer.width == old(self).muxer.width,
            final(self).muxer.height == old(self).muxer.height,
            final(self).muxer.timescale == old(self).muxer.timescale,
            final(self).frame_duration == old(self).frame_duration,
            final(self).encoder.width == old(self).encoder.width,
            final(self).encoder.height == old(self).encoder.height,
            r matches Ok(seg) ==> {
                &&& !seg.is_init
                &&& seg.sequence == frame.sequence
                &&& final(self).muxer.sequence_number == old(self).muxer.sequence_number + 1
                &&& final(self).encoder.frame_count == old(self).encoder.frame_count + 1
                &&& exists|encoded: Seq<u8>|
                    {
                        &&& seg.data@ == crate::fmp4::media_segment_bytes(
                            old(self).muxer.sequence_number,
                            (old(self).encoder.frame_count * old(self).frame_duration) as u64,
                            old(self).frame_duration,
                            encoded,
                            seg.is_keyframe,
                        )
                        &&& seg.is_keyframe == (crate::nal::contains_keyframe(encoded) || old(
                            self,
                        ).encoder.frame_count == 0)
                    }
            },
            r matches Err(e) ==> e is EncoderError && final(self).muxer.sequence_number == old(
                self,
            ).muxer.sequence_number,
    {
        let encoded = match self.encoder.encode(frame.data.as_slice()) {
            Ok(f) => f,
            Err(e) => {
                return Err(e);
            },
        };
        if encoded.data.len() as u64 > (u32::MAX - 8) as u64 {
            return Err(Error::EncoderError("encoded frame too large".to_owned()));
        }
        let is_keyframe = encoded.is_keyframe;
        let segment_data = self.muxer.create_media_segment(&encoded, self.frame_duration);
        Ok(
            StreamSegment {
                data: segment_data,
                is_init: false,
                is_keyframe,
                sequence: frame.sequence,
            },
        )
    }
}

} // verus!
