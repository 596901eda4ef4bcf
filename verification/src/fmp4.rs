//! Fragmented-MP4 muxer for H.264 streams.
//!
//! The initialization segment is a `ftyp` box followed by a `moov` box whose
//! single video track embeds the SPS and PPS in an `avcC` record. Every
//! media segment is one `moof` box followed by one `mdat` box; the `mfhd`
//! inside the `moof` carries a fragment sequence number that starts at 1 and
//! grows by one per segment.

use vstd::prelude::*;

verus! {

use crate::encoder::EncodedFrame;

/// Big-endian bytes of a 16-bit value.
pub open spec fn be16(n: u16) -> Seq<u8> {
    seq![(n / 256) as u8, (n % 256) as u8]
}

/// Big-endian bytes of a 32-bit value.
pub open spec fn be32(n: u32) -> Seq<u8> {
    seq![
        (n / 0x1000000 % 256) as u8,
        (n / 0x10000 % 256) as u8,
        (n / 0x100 % 256) as u8,
        (n % 256) as u8,
    ]
}

/// Big-endian bytes of a 64-bit value.
pub open spec fn be64(n: u64) -> Seq<u8> {
    seq![
        (n / 0x100000000000000 % 256) as u8,
        (n / 0x1000000000000 % 256) as u8,
        (n / 0x10000000000 % 256) as u8,
        (n / 0x100000000 % 256) as u8,
        (n / 0x1000000 % 256) as u8,
        (n / 0x10000 % 256) as u8,
        (n / 0x100 % 256) as u8,
        (n % 256) as u8,
    ]
}

/// Four ASCII characters as bytes: a box or brand name.
pub open spec fn fourcc(a: char, b: char, c: char, d: char) -> Seq<u8> {
    seq![a as u8, b as u8, c as u8, d as u8]
}

/// `n` zero bytes.
pub open spec fn zeros(n: int) -> Seq<u8> {
    Seq::new(n as nat, |i: int| 0u8)
}

/// An MP4 box: 32-bit size (header included), four-character type, content.
pub open spec fn mp4_box(typ: Seq<u8>, content: Seq<u8>) -> Seq<u8> {
    be32((8 + content.len()) as u32) + typ + content
}

/// Appends the big-endian bytes of a 16-bit value.
pub fn push_u16_be(v: &mut Vec<u8>, n: u16)
    ensures
        final(v)@ == old(v)@ + be16(n),
{
    v.push((n / 256) as u8);
    v.push((n % 256) as u8);
    assert(v@ =~= old(v)@ + be16(n));
}

/// Appends the big-endian bytes of a 32-bit value.
pub fn push_u32_be(v: &mut Vec<u8>, n: u32)
    ensures
        final(v)@ == old(v)@ + be32(n),
{
    v.push((n / 0x1000000 % 256) as u8);
    v.push((n / 0x10000 % 256) as u8);
    v.push((n / 0x100 % 256) as u8);
    v.push((n % 256) as u8);
    assert(v@ =~= old(v)@ + be32(n));
}

/// Appends the big-endian bytes of a 64-bit value.
pub fn push_u64_be(v: &mut Vec<u8>, n: u64)
    ensures
        final(v)@ == old(v)@ + be64(n),
{
    v.push((n / 0x100000000000000 % 256) as u8);
    v.push((n / 0x1000000000000 % 256) as u8);
    v.push((n / 0x10000000000 % 256) as u8);
    v.push((n / 0x100000000 % 256) as u8);
    v.push((n / 0x1000000 % 256) as u8);
    v.push((n / 0x10000 % 256) as u8);
    v.push((n / 0x100 % 256) as u8);
    v.push((n % 256) as u8);
    assert(v@ =~= old(v)@ + be64(n));
}

/// Appends four characters as bytes.
pub fn push_fourcc(v: &mut Vec<u8>, a: char, b: char, c: char, d: char)
    ensures
        final(v)@ == old(v)@ + fourcc(a, b, c, d),
{
    v.push(a as u8);
    v.push(b as u8);
    v.push(c as u8);
    v.push(d as u8);
    assert(v@ =~= old(v)@ + fourcc(a, b, c, d));
}

/// Appends `n` zero bytes.
pub fn push_zeros(v: &mut Vec<u8>, n: usize)
    ensures
        final(v)@ == old(v)@ + zeros(n as int),
{
    let mut i: usize = 0;
    while i < n
        invariant
            i <= n,
            v@ == old(v)@ + zeros(i as int),
        decreases n - i,
    {
        v.push(0);
        assert(v@ =~= old(v)@ + zeros(i as int + 1));
        i = i + 1;
    }
}

/// Appends one complete box around the given content.
pub fn append_box(buf: &mut Vec<u8>, a: char, b: char, c: char, d: char, content: &Vec<u8>)
    requires
        content@.len() + 8 <= u32::MAX,
    ensures
        final(buf)@ == old(buf)@ + mp4_box(fourcc(a, b, c, d), content@),
{
    push_u32_be(buf, 8 + content.len() as u32);
    push_fourcc(buf, a, b, c, d);
    buf.extend_from_slice(content.as_slice());
    assert(buf@ =~= old(buf)@ + mp4_box(fourcc(a, b, c, d), content@));
}

/// `ftyp` content: major brand `isom`, minor version 0x200, compatible
/// brands `isom iso2 avc1 mp41`.
#[verifier::opaque]
pub open spec fn ftyp_content() -> Seq<u8> {
    fourcc('i', 's', 'o', 'm') + be32(0x200) + fourcc('i', 's', 'o', 'm') + fourcc(
        'i',
        's',
        'o',
        '2',
    ) + fourcc('a', 'v', 'c', '1') + fourcc('m', 'p', '4', '1')
}

/// The complete `ftyp` box.
#[verifier::opaque]
pub open spec fn ftyp_box() -> Seq<u8> {
    mp4_box(fourcc('f', 't', 'y', 'p'), ftyp_content())
}

/// The identity transformation matrix of `mvhd` and `tkhd`.
#[verifier::opaque]
pub open spec fn identity_matrix() -> Seq<u8> {
    be32(0x00010000) + be32(0) + be32(0) + be32(0) + be32(0x00010000) + be32(0) + be32(0) + be32(0)
        + be32(0x40000000)
}

/// `mvhd` content for the given timescale.
#[verifier::opaque]
pub open spec fn mvhd_content(timescale: u32) -> Seq<u8> {
    be32(0) + be32(0) + be32(0) + be32(timescale) + be32(0) + be32(0x00010000) + be16(0x0100)
        + be16(0) + be64(0) + identity_matrix() + be32(0) + be32(0) + be32(0) + be32(0) + be32(0)
        + be32(0) + be32(2)
}

/// A 16.16 fixed-point value: the low sixteen bits of `w` shifted up.
pub open spec fn fixed_16_16(w: u32) -> u32 {
    ((w as int % 65536) * 65536) as u32
}

/// `tkhd` content: track 1, enabled and in movie, with fixed-point
/// width and height.
#[verifier::opaque]
pub open spec fn tkhd_content(width: u32, height: u32) -> Seq<u8> {
    be32(3) + be32(0) + be32(0) + be32(1) + be32(0) + be32(0) + be64(0) + be16(0) + be16(0) + be16(
        0,
    ) + be16(0) + identity_matrix() + be32(fixed_16_16(width)) + be32(fixed_16_16(height))
}

/// `mdhd` content with the given timescale and undetermined language.
#[verifier::opaque]
pub open spec fn mdhd_content(timescale: u32) -> Seq<u8> {
    be32(0) + be32(0) + be32(0) + be32(timescale) + be32(0) + be16(0x55C4) + be16(0)
}

/// The handler name bytes `VideoHandler` with a trailing NUL.
#[verifier::opaque]
pub open spec fn handler_name() -> Seq<u8> {
    fourcc('V', 'i', 'd', 'e') + fourcc('o', 'H', 'a', 'n') + fourcc('d', 'l', 'e', 'r') + seq![
        0u8,
    ]
}

/// `hdlr` content: a video handler.
#[verifier::opaque]
pub open spec fn hdlr_content() -> Seq<u8> {
    be32(0) + be32(0) + fourcc('v', 'i', 'd', 'e') + be32(0) + be32(0) + be32(0) + handler_name()
}

/// `vmhd` content with the self-contained flag.
#[verifier::opaque]
pub open spec fn vmhd_content() -> Seq<u8> {
    be32(1) + be16(0) + be16(0) + be16(0) + be16(0)
}

/// `dref` content: one self-contained `url ` entry.
#[verifier::opaque]
pub open spec fn dref_content() -> Seq<u8> {
    be32(0) + be32(1) + mp4_box(fourcc('u', 'r', 'l', ' '), be32(1))
}

/// `dinf` content: the `dref` box.
#[verifier::opaque]
pub open spec fn dinf_content() -> Seq<u8> {
    mp4_box(fourcc('d', 'r', 'e', 'f'), dref_content())
}

/// An empty full-box table: version, flags and a zero entry count.
#[verifier::opaque]
pub open spec fn empty_table_content() -> Seq<u8> {
    be32(0) + be32(0)
}

/// `stsz` content: zero sample size and zero sample count.
#[verifier::opaque]
pub open spec fn stsz_content() -> Seq<u8> {
    be32(0) + be32(0) + be32(0)
}

/// `avcC` content: version 1, profile/compatibility/level copied from SPS
/// bytes 1 to 3 (with the given fallbacks when the SPS is short), four-byte
/// NALU lengths, one SPS and one PPS.
#[verifier::opaque]
pub open spec fn avcc_content(sps: Seq<u8>, pps: Seq<u8>, fallback_level: u8) -> Seq<u8> {
    seq![
        1u8,
        if sps.len() > 1 {
            sps[1]
        } else {
            0x64u8
        },
        if sps.len() > 2 {
            sps[2]
        } else {
            0x00u8
        },
        if sps.len() > 3 {
            sps[3]
        } else {
            fallback_level
        },
        0xFFu8,
        0xE1u8,
    ] + be16(sps.len() as u16) + sps + seq![1u8] + be16(pps.len() as u16) + pps
}

/// `avc1` sample entry content embedding the `avcC` box.
#[verifier::opaque]
pub open spec fn avc1_content(width: u32, height: u32, sps: Seq<u8>, pps: Seq<u8>) -> Seq<u8> {
    zeros(6) + be16(1) + be16(0) + be16(0) + be32(0) + be32(0) + be32(0) + be16(
        (width % 65536) as u16,
    ) + be16((height % 65536) as u16) + be32(0x00480000) + be32(0x00480000) + be32(0) + be16(1)
        + zeros(32) + be16(0x0018) + be16(0xFFFF) + mp4_box(
        fourcc('a', 'v', 'c', 'C'),
        avcc_content(sps, pps, 0x1F),
    )
}

/// `stsd` content: one `avc1` entry.
#[verifier::opaque]
pub open spec fn stsd_content(width: u32, height: u32, sps: Seq<u8>, pps: Seq<u8>) -> Seq<u8> {
    be32(0) + be32(1) + mp4_box(fourcc('a', 'v', 'c', '1'), avc1_content(width, height, sps, pps))
}

/// `stbl` content: the sample description and empty sample tables.
#[verifier::opaque]
pub open spec fn stbl_content(width: u32, height: u32, sps: Seq<u8>, pps: Seq<u8>) -> Seq<u8> {
    mp4_box(fourcc('s', 't', 's', 'd'), stsd_content(width, height, sps, pps)) + mp4_box(
        fourcc('s', 't', 't', 's'),
        empty_table_content(),
    ) + mp4_box(fourcc('s', 't', 's', 'c'), empty_table_content()) + mp4_box(
        fourcc('s', 't', 's', 'z'),
        stsz_content(),
    ) + mp4_box(fourcc('s', 't', 'c', 'o'), empty_table_content())
}

/// `minf` content: video media header, data information and sample table.
#[verifier::opaque]
pub open spec fn minf_content(width: u32, height: u32, sps: Seq<u8>, pps: Seq<u8>) -> Seq<u8> {
    mp4_box(fourcc('v', 'm', 'h', 'd'), vmhd_content()) + mp4_box(
        fourcc('d', 'i', 'n', 'f'),
        dinf_content(),
    ) + mp4_box(fourcc('s', 't', 'b', 'l'), stbl_content(width, height, sps, pps))
}

/// `mdia` content: media header, handler and media information.
#[verifier::opaque]
pub open spec fn mdia_content(width: u32, height: u32, timescale: u32, sps: Seq<u8>, pps: Seq<u8>) -> Seq<u8> {
    mp4_box(fourcc('m', 'd', 'h', 'd'), mdhd_content(timescale)) + mp4_box(
        fourcc('h', 'd', 'l', 'r'),
        hdlr_content(),
    ) + mp4_box(fourcc('m', 'i', 'n', 'f'), minf_content(width, height, sps, pps))
}

/// `trak` content: track header and media.
#[verifier::opaque]
pub open spec fn trak_content(width: u32, height: u32, timescale: u32, sps: Seq<u8>, pps: Seq<u8>) -> Seq<u8> {
    mp4_box(fourcc('t', 'k', 'h', 'd'), tkhd_content(width, height)) + mp4_box(
        fourcc('m', 'd', 'i', 'a'),
        mdia_content(width, height, timescale, sps, pps),
    )
}

/// `trex` content: defaults for track 1.
#[verifier::opaque]
pub open spec fn trex_content() -> Seq<u8> {
    be32(0) + be32(1) + be32(1) + be32(0) + be32(0) + be32(0)
}

/// `mvex` content: the `trex` box.
#[verifier::opaque]
pub open spec fn mvex_content() -> Seq<u8> {
    mp4_box(fourcc('t', 'r', 'e', 'x'), trex_content())
}

/// `moov` content: movie header, one video track and movie extends.
#[verifier::opaque]
pub open spec fn moov_content(width: u32, height: u32, timescale: u32, sps: Seq<u8>, pps: Seq<u8>) -> Seq<u8> {
    mp4_box(fourcc('m', 'v', 'h', 'd'), mvhd_content(timescale)) + mp4_box(
        fourcc('t', 'r', 'a', 'k'),
        trak_content(width, height, timescale, sps, pps),
    ) + mp4_box(fourcc('m', 'v', 'e', 'x'), mvex_content())
}

/// The complete initialization segment: `ftyp` immediately followed by
/// `moov`.
#[verifier::opaque]
pub open spec fn init_segment_bytes(width: u32, height: u32, timescale: u32, sps: Seq<u8>, pps: Seq<u8>) -> Seq<u8> {
    ftyp_box() + mp4_box(
        fourcc('m', 'o', 'o', 'v'),
        moov_content(width, height, timescale, sps, pps),
    )
}

/// `mfhd` content: the fragment sequence number.
#[verifier::opaque]
pub open spec fn mfhd_content(sequence_number: u32) -> Seq<u8> {
    be32(0) + be32(sequence_number)
}

/// `tfhd` content: track 1 with default-base-is-moof and default sample
/// flags for non-keyframes.
#[verifier::opaque]
pub open spec fn tfhd_content() -> Seq<u8> {
    be32(0x00020020) + be32(1) + be32(0x01010000)
}

/// `tfdt` content: 64-bit base media decode time.
#[verifier::opaque]
pub open spec fn tfdt_content(decode_time: u64) -> Seq<u8> {
    be32(0x01000000) + be64(decode_time)
}

/// The `trun` sample flags of a frame: depends-on-nothing for a keyframe.
pub open spec fn trun_sample_flags(is_keyframe: bool) -> u32 {
    if is_keyframe {
        0x02000000u32
    } else {
        0x01010000u32
    }
}

/// `trun` content: one sample with its data offset, duration, size and
/// flags. The data offset is the whole `moof` box (104 bytes) plus the
/// 8-byte `mdat` header: the sample bytes start 112 bytes into the segment.
#[verifier::opaque]
pub open spec fn trun_content(duration: u32, size: u32, is_keyframe: bool) -> Seq<u8> {
    be32(0x00000F01) + be32(1) + be32(112) + be32(duration) + be32(size) + be32(
        trun_sample_flags(is_keyframe),
    )
}

/// `traf` content: track fragment header, decode time and sample run.
#[verifier::opaque]
pub open spec fn traf_content(decode_time: u64, duration: u32, size: u32, is_keyframe: bool) -> Seq<u8> {
    mp4_box(fourcc('t', 'f', 'h', 'd'), tfhd_content()) + mp4_box(
        fourcc('t', 'f', 'd', 't'),
        tfdt_content(decode_time),
    ) + mp4_box(fourcc('t', 'r', 'u', 'n'), trun_content(duration, size, is_keyframe))
}

/// `moof` content: fragment header and one track fragment.
#[verifier::opaque]
pub open spec fn moof_content(
    sequence_number: u32,
    decode_time: u64,
    duration: u32,
    size: u32,
    is_keyframe: bool,
) -> Seq<u8> {
    mp4_box(fourcc('m', 'f', 'h', 'd'), mfhd_content(sequence_number)) + mp4_box(
        fourcc('t', 'r', 'a', 'f'),
        traf_content(decode_time, duration, size, is_keyframe),
    )
}

/// A complete media segment: one `moof` box immediately followed by one
/// `mdat` box holding the frame data.
#[verifier::opaque]
pub open spec fn media_segment_bytes(
    sequence_number: u32,
    decode_time: u64,
    duration: u32,
    data: Seq<u8>,
    is_keyframe: bool,
) -> Seq<u8> {
    mp4_box(
        fourcc('m', 'o', 'o', 'f'),
        moof_content(sequence_number, decode_time, duration, data.len() as u32, is_keyframe),
    ) + mp4_box(fourcc('m', 'd', 'a', 't'), data)
}

/// The WebCodecs codec string of an SPS: `avc1.` followed by the lowercase
/// hex of its bytes 1 to 3, or the High-profile fallback `avc1.64002a` when
/// the SPS is shorter than four bytes.
#[verifier::opaque]
pub open spec fn codec_string_of(sps: Seq<u8>) -> Seq<char> {
    if sps.len() >= 4 {
        "avc1."@ + crate::text::hex_pair_lower(sps[1]) + crate::text::hex_pair_lower(sps[2])
            + crate::text::hex_pair_lower(sps[3])
    } else {
        "avc1.64002a"@
    }
}


/// Builds an `avcC` record for the given parameter sets.
pub fn build_avcc(sps: &Vec<u8>, pps: &Vec<u8>, fallback_level: u8) -> (r: Vec<u8>)
    requires
        sps@.len() <= 65535,
        pps@.len() <= 65535,
    ensures
        r@ == avcc_content(sps@, pps@, fallback_level),
        r@.len() <= 200 + sps@.len() + pps@.len(),
{
    let mut c: Vec<u8> = Vec::new();
    c.push(1);
    c.push(if sps.len() > 1 { sps[1] } else { 0x64 });
    c.push(if sps.len() > 2 { sps[2] } else { 0x00 });
    c.push(if sps.len() > 3 { sps[3] } else { fallback_level });
    c.push(0xFF);
    c.push(0xE1);
    push_u16_be(&mut c, sps.len() as u16);
    c.extend_from_slice(sps.as_slice());
    c.push(1);
    push_u16_be(&mut c, pps.len() as u16);
    c.extend_from_slice(pps.as_slice());
    proof { reveal(avcc_content); }
        assert(c@ =~= avcc_content(sps@, pps@, fallback_level));
    c
}

/// Fragmented-MP4 muxer state: display dimensions, the media timescale,
/// the next fragment sequence number, and the captured parameter sets.
pub struct Fmp4Muxer {
    /// Display width in pixels
    pub width: u32,
    /// Display height in pixels
    pub height: u32,
    /// Media timescale: fps times 1000
    pub timescale: u32,
    /// Sequence number of the next media segment, starting at 1
    pub sequence_number: u32,
    /// Captured SPS payload
    pub sps: Vec<u8>,
    /// Captured PPS payload
    pub pps: Vec<u8>,
}

impl Fmp4Muxer {
    /// The display width this muxer was made for.
    pub open spec fn spec_width(&self) -> u32 {
        self.width
    }

    /// The display height this muxer was made for.
    pub open spec fn spec_height(&self) -> u32 {
        self.height
    }

    /// The media timescale: fps times 1000.
    pub open spec fn spec_timescale(&self) -> u32 {
        self.timescale
    }

    /// The sequence number the next media segment will carry.
    pub open spec fn spec_sequence_number(&self) -> u32 {
        self.sequence_number
    }

    /// The captured SPS payload.
    pub open spec fn spec_sps(&self) -> Seq<u8> {
        self.sps@
    }

    /// The captured PPS payload.
    pub open spec fn spec_pps(&self) -> Seq<u8> {
        self.pps@
    }

    /// A new muxer: timescale fps * 1000, sequence number 1, no parameter
    /// sets yet.
    pub fn new(width: u32, height: u32, fps: u32) -> (r: Self)
        requires
            fps * 1000 <= u32::MAX,
        ensures
            r.spec_width() == width,
            r.spec_height() == height,
            r.spec_timescale() == fps * 1000,
            r.spec_sequence_number() == 1,
            r.spec_sps() == Seq::<u8>::empty(),
            r.spec_pps() == Seq::<u8>::empty(),
    {
        let r = Fmp4Muxer {
            width,
            height,
            timescale: fps * 1000,
            sequence_number: 1,
            sps: Vec::new(),
            pps: Vec::new(),
        };
        assert(r.sps@ =~= Seq::<u8>::empty());
        assert(r.pps@ =~= Seq::<u8>::empty());
        r
    }

    /// The WebCodecs codec string: `avc1.` plus the hex of SPS bytes 1 to 3,
    /// or the fallback when the SPS is shorter than four bytes.
    pub fn get_codec_string(&self) -> (r: String)
        ensures
            r@ == codec_string_of(self.spec_sps()),
    {
        if self.sps.len() >= 4 {
            let mut s = String::new();
            s.push('a');
            s.push('v');
            s.push('c');
            s.push('1');
            s.push('.');
            crate::text::push_hex_byte_lower(&mut s, self.sps[1]);
            crate::text::push_hex_byte_lower(&mut s, self.sps[2]);
            crate::text::push_hex_byte_lower(&mut s, self.sps[3]);
            proof {
                reveal(codec_string_of);
                reveal_strlit("avc1.");
                assert(s@ =~= codec_string_of(self.sps@));
            }
            s
        } else {
            let mut s = String::new();
            s.push('a');
            s.push('v');
            s.push('c');
            s.push('1');
            s.push('.');
            s.push('6');
            s.push('4');
            s.push('0');
            s.push('0');
            s.push('2');
            s.push('a');
            proof {
                reveal(codec_string_of);
                reveal_strlit("avc1.64002a");
                assert(s@ =~= codec_string_of(self.sps@));
            }
            s
        }
    }

    /// The `avcC` record handed to a browser decoder; the level fallback for
    /// a short SPS is 0x2a here.
    pub fn get_avcc_data(&self) -> (r: Vec<u8>)
        requires
            self.spec_sps().len() <= 65535,
            self.spec_pps().len() <= 65535,
        ensures
            r@ == avcc_content(self.spec_sps(), self.spec_pps(), 0x2a),
    {
        build_avcc(&self.sps, &self.pps, 0x2a)
    }

    /// Captures SPS and PPS payloads from an Annex-B header stream; a
    /// parameter set that does not occur keeps its previous value.
    pub fn set_headers(&mut self, headers: &[u8])
        ensures
            (final(self).spec_sps(), final(self).spec_pps()) == crate::nal::scan_param_sets(
                headers@,
                0,
                old(self).spec_sps(),
                old(self).spec_pps(),
            ),
            final(self).spec_width() == old(self).spec_width(),
            final(self).spec_height() == old(self).spec_height(),
            final(self).spec_timescale() == old(self).spec_timescale(),
            final(self).spec_sequence_number() == old(self).spec_sequence_number(),
    {
        crate::nal::scan_param_sets_into(headers, &mut self.sps, &mut self.pps);
    }

    fn write_ftyp(&self, buf: &mut Vec<u8>)
        ensures
            final(buf)@ == old(buf)@ + ftyp_box(),
            final(buf)@.len() <= old(buf)@.len() + 100,
    {
        let mut c: Vec<u8> = Vec::new();
        push_fourcc(&mut c, 'i', 's', 'o', 'm');
        push_u32_be(&mut c, 0x200);
        push_fourcc(&mut c, 'i', 's', 'o', 'm');
        push_fourcc(&mut c, 'i', 's', 'o', '2');
        push_fourcc(&mut c, 'a', 'v', 'c', '1');
        push_fourcc(&mut c, 'm', 'p', '4', '1');
        proof { reveal(ftyp_content); }
        assert(c@ =~= ftyp_content());
        append_box(buf, 'f', 't', 'y', 'p', &c);
        proof { reveal(ftyp_box); }
    }

    fn write_matrix(&self, c: &mut Vec<u8>)
        ensures
            final(c)@ == old(c)@ + identity_matrix(),
            final(c)@.len() == old(c)@.len() + 36,
    {
        push_u32_be(c, 0x00010000);
        push_u32_be(c, 0);
        push_u32_be(c, 0);
        push_u32_be(c, 0);
        push_u32_be(c, 0x00010000);
        push_u32_be(c, 0);
        push_u32_be(c, 0);
        push_u32_be(c, 0);
        push_u32_be(c, 0x40000000);
        proof { reveal(identity_matrix); }
        assert(c@ =~= old(c)@ + identity_matrix());
    }

    fn write_mvhd(&self, buf: &mut Vec<u8>)
        ensures
            final(buf)@ == old(buf)@ + mp4_box(fourcc('m', 'v', 'h', 'd'), mvhd_content(self.timescale)),
            final(buf)@.len() <= old(buf)@.len() + 200,
    {
        let mut c: Vec<u8> = Vec::new();
        push_u32_be(&mut c, 0);
        push_u32_be(&mut c, 0);
        push_u32_be(&mut c, 0);
        push_u32_be(&mut c, self.timescale);
        push_u32_be(&mut c, 0);
        push_u32_be(&mut c, 0x00010000);
        push_u16_be(&mut c, 0x0100);
        push_u16_be(&mut c, 0);
        push_u64_be(&mut c, 0);
        self.write_matrix(&mut c);
        push_u32_be(&mut c, 0);
        push_u32_be(&mut c, 0);
        push_u32_be(&mut c, 0);
        push_u32_be(&mut c, 0);
        push_u32_be(&mut c, 0);
        push_u32_be(&mut c, 0);
        push_u32_be(&mut c, 2);
        proof { reveal(mvhd_content); }
        assert(c@ =~= mvhd_content(self.timescale));
        append_box(buf, 'm', 'v', 'h', 'd', &c);
    }

    fn write_tkhd(&self, buf: &mut Vec<u8>)
        ensures
            final(buf)@ == old(buf)@ + mp4_box(
                fourcc('t', 'k', 'h', 'd'),
                tkhd_content(self.width, self.height),
            ),
            final(buf)@.len() <= old(buf)@.len() + 200,
    {
        let mut c: Vec<u8> = Vec::new();
        push_u32_be(&mut c, 3);
        push_u32_be(&mut c, 0);
        push_u32_be(&mut c, 0);
        push_u32_be(&mut c, 1);
        push_u32_be(&mut c, 0);
        push_u32_be(&mut c, 0);
        push_u64_be(&mut c, 0);
        push_u16_be(&mut c, 0);
        push_u16_be(&mut c, 0);
        push_u16_be(&mut c, 0);
        push_u16_be(&mut c, 0);
        self.write_matrix(&mut c);
        push_u32_be(&mut c, (self.width % 65536) * 65536);
        push_u32_be(&mut c, (self.height % 65536) * 65536);
        proof { reveal(tkhd_content); }
        assert(c@ =~= tkhd_content(self.width, self.height));
        append_box(buf, 't', 'k', 'h', 'd', &c);
    }

    fn write_mdhd(&self, buf: &mut Vec<u8>)
        ensures
            final(buf)@ == old(buf)@ + mp4_box(fourcc('m', 'd', 'h', 'd'), mdhd_content(self.timescale)),
            final(buf)@.len() <= old(buf)@.len() + 200,
    {
        let mut c: Vec<u8> = Vec::new();
        push_u32_be(&mut c, 0);
        push_u32_be(&mut c, 0);
        push_u32_be(&mut c, 0);
        push_u32_be(&mut c, self.timescale);
        push_u32_be(&mut c, 0);
        push_u16_be(&mut c, 0x55C4);
        push_u16_be(&mut c, 0);
        proof { reveal(mdhd_content); }
        assert(c@ =~= mdhd_content(self.timescale));
        append_box(buf, 'm', 'd', 'h', 'd', &c);
    }

    fn write_hdlr(&self, buf: &mut Vec<u8>)
        ensures
            final(buf)@ == old(buf)@ + mp4_box(fourcc('h', 'd', 'l', 'r'), hdlr_content()),
            final(buf)@.len() <= old(buf)@.len() + 200,
    {
        let mut c: Vec<u8> = Vec::new();
        push_u32_be(&mut c, 0);
        push_u32_be(&mut c, 0);
        push_fourcc(&mut c, 'v', 'i', 'd', 'e');
        push_u32_be(&mut c, 0);
        push_u32_be(&mut c, 0);
        push_u32_be(&mut c, 0);
        push_fourcc(&mut c, 'V', 'i', 'd', 'e');
        push_fourcc(&mut c, 'o', 'H', 'a', 'n');
        push_fourcc(&mut c, 'd', 'l', 'e', 'r');
        c.push(0);
        proof { reveal(hdlr_content); reveal(handler_name); }
        assert(c@ =~= hdlr_content());
        append_box(buf, 'h', 'd', 'l', 'r', &c);
    }

    fn write_vmhd(&self, buf: &mut Vec<u8>)
        ensures
            final(buf)@ == old(buf)@ + mp4_box(fourcc('v', 'm', 'h', 'd'), vmhd_content()),
            final(buf)@.len() <= old(buf)@.len() + 200,
    {
        let mut c: Vec<u8> = Vec::new();
        push_u32_be(&mut c, 1);
        push_u16_be(&mut c, 0);
        push_u16_be(&mut c, 0);
        push_u16_be(&mut c, 0);
        push_u16_be(&mut c, 0);
        proof { reveal(vmhd_content); }
        assert(c@ =~= vmhd_content());
        append_box(buf, 'v', 'm', 'h', 'd', &c);
    }

    fn write_dinf(&self, buf: &mut Vec<u8>)
        ensures
            final(buf)@ == old(buf)@ + mp4_box(fourcc('d', 'i', 'n', 'f'), dinf_content()),
            final(buf)@.len() <= old(buf)@.len() + 200,
    {
        let mut url: Vec<u8> = Vec::new();
        push_u32_be(&mut url, 1);
        assert(url@ =~= be32(1));
        let mut c: Vec<u8> = Vec::new();
        push_u32_be(&mut c, 0);
        push_u32_be(&mut c, 1);
        append_box(&mut c, 'u', 'r', 'l', ' ', &url);
        proof { reveal(dref_content); }
        assert(c@ =~= dref_content());
        let mut d: Vec<u8> = Vec::new();
        append_box(&mut d, 'd', 'r', 'e', 'f', &c);
        proof { reveal(dinf_content); }
        assert(d@ =~= dinf_content());
        append_box(buf, 'd', 'i', 'n', 'f', &d);
    }

    fn write_stbl(&self, buf: &mut Vec<u8>)
        requires
            self.spec_sps().len() <= 65535,
            self.spec_pps().len() <= 65535,
        ensures
            final(buf)@ == old(buf)@ + mp4_box(
                fourcc('s', 't', 'b', 'l'),
                stbl_content(self.width, self.height, self.sps@, self.pps@),
            ),
            final(buf)@.len() <= old(buf)@.len() + 1000 + self.sps@.len() + self.pps@.len(),
    {
        // stsd with the single avc1 entry
        let avcc = build_avcc(&self.sps, &self.pps, 0x1F);
        let mut avc1: Vec<u8> = Vec::new();
        push_zeros(&mut avc1, 6);
        push_u16_be(&mut avc1, 1);
        push_u16_be(&mut avc1, 0);
        push_u16_be(&mut avc1, 0);
        push_u32_be(&mut avc1, 0);
        push_u32_be(&mut avc1, 0);
        push_u32_be(&mut avc1, 0);
        push_u16_be(&mut avc1, (self.width % 65536) as u16);
        push_u16_be(&mut avc1, (self.height % 65536) as u16);
        push_u32_be(&mut avc1, 0x00480000);
        push_u32_be(&mut avc1, 0x00480000);
        push_u32_be(&mut avc1, 0);
        push_u16_be(&mut avc1, 1);
        push_zeros(&mut avc1, 32);
        push_u16_be(&mut avc1, 0x0018);
        push_u16_be(&mut avc1, 0xFFFF);
        append_box(&mut avc1, 'a', 'v', 'c', 'C', &avcc);
        proof { reveal(avc1_content); }
        assert(avc1@ =~= avc1_content(self.width, self.height, self.sps@, self.pps@));

        let mut stsd: Vec<u8> = Vec::new();
        push_u32_be(&mut stsd, 0);
        push_u32_be(&mut stsd, 1);
        append_box(&mut stsd, 'a', 'v', 'c', '1', &avc1);
        proof { reveal(stsd_content); }
        assert(stsd@ =~= stsd_content(self.width, self.height, self.sps@, self.pps@));

        let mut empty_table: Vec<u8> = Vec::new();
        push_u32_be(&mut empty_table, 0);
        push_u32_be(&mut empty_table, 0);
        proof { reveal(empty_table_content); }
        assert(empty_table@ =~= empty_table_content());

        let mut stsz: Vec<u8> = Vec::new();
        push_u32_be(&mut stsz, 0);
        push_u32_be(&mut stsz, 0);
        push_u32_be(&mut stsz, 0);
        proof { reveal(stsz_content); }
        assert(stsz@ =~= stsz_content());

        let mut c: Vec<u8> = Vec::new();
        append_box(&mut c, 's', 't', 's', 'd', &stsd);
        append_box(&mut c, 's', 't', 't', 's', &empty_table);
        append_box(&mut c, 's', 't', 's', 'c', &empty_table);
        append_box(&mut c, 's', 't', 's', 'z', &stsz);
        append_box(&mut c, 's', 't', 'c', 'o', &empty_table);
        proof { reveal(stbl_content); }
        assert(c@ =~= stbl_content(self.width, self.height, self.sps@, self.pps@));
        append_box(buf, 's', 't', 'b', 'l', &c);
    }

    fn write_minf(&self, buf: &mut Vec<u8>)
        requires
            self.spec_sps().len() <= 65535,
            self.spec_pps().len() <= 65535,
        ensures
            final(buf)@ == old(buf)@ + mp4_box(
                fourcc('m', 'i', 'n', 'f'),
                minf_content(self.width, self.height, self.sps@, self.pps@),
            ),
            final(buf)@.len() <= old(buf)@.len() + 2000 + self.sps@.len() + self.pps@.len(),
    {
        let mut c: Vec<u8> = Vec::new();
        self.write_vmhd(&mut c);
        self.write_dinf(&mut c);
        self.write_stbl(&mut c);
        proof {
            reveal(minf_content);
            Seq::<u8>::add_empty_left(Seq::<u8>::empty(), mp4_box(fourcc('v', 'm', 'h', 'd'), vmhd_content()));
        assert(c@ == minf_content(self.width, self.height, self.sps@, self.pps@));
        }
        append_box(buf, 'm', 'i', 'n', 'f', &c);
    }

    fn write_mdia(&self, buf: &mut Vec<u8>)
        requires
            self.spec_sps().len() <= 65535,
            self.spec_pps().len() <= 65535,
        ensures
            final(buf)@ == old(buf)@ + mp4_box(
                fourcc('m', 'd', 'i', 'a'),
                mdia_content(self.width, self.height, self.timescale, self.sps@, self.pps@),
            ),
            final(buf)@.len() <= old(buf)@.len() + 3000 + self.sps@.len() + self.pps@.len(),
    {
        let mut c: Vec<u8> = Vec::new();
        self.write_mdhd(&mut c);
        self.write_hdlr(&mut c);
        self.write_minf(&mut c);
        proof {
            reveal(mdia_content);
            Seq::<u8>::add_empty_left(Seq::<u8>::empty(), mp4_box(fourcc('m', 'd', 'h', 'd'), mdhd_content(self.timescale)));
        assert(c@ == mdia_content(self.width, self.height, self.timescale, self.sps@, self.pps@));
        }
        append_box(buf, 'm', 'd', 'i', 'a', &c);
    }

    fn write_trak(&self, buf: &mut Vec<u8>)
        requires
            self.spec_sps().len() <= 65535,
            self.spec_pps().len() <= 65535,
        ensures
            final(buf)@ == old(buf)@ + mp4_box(
                fourcc('t', 'r', 'a', 'k'),
                trak_content(self.width, self.height, self.timescale, self.sps@, self.pps@),
            ),
            final(buf)@.len() <= old(buf)@.len() + 4000 + self.sps@.len() + self.pps@.len(),
    {
        let mut c: Vec<u8> = Vec::new();
        self.write_tkhd(&mut c);
        self.write_mdia(&mut c);
        proof {
            reveal(trak_content);
            Seq::<u8>::add_empty_left(Seq::<u8>::empty(), mp4_box(fourcc('t', 'k', 'h', 'd'), tkhd_content(self.width, self.height)));
        assert(c@ == trak_content(self.width, self.height, self.timescale, self.sps@, self.pps@));
        }
        append_box(buf, 't', 'r', 'a', 'k', &c);
    }

    fn write_mvex(&self, buf: &mut Vec<u8>)
        ensures
            final(buf)@ == old(buf)@ + mp4_box(fourcc('m', 'v', 'e', 'x'), mvex_content()),
            final(buf)@.len() <= old(buf)@.len() + 200,
    {
        let mut trex: Vec<u8> = Vec::new();
        push_u32_be(&mut trex, 0);
        push_u32_be(&mut trex, 1);
        push_u32_be(&mut trex, 1);
        push_u32_be(&mut trex, 0);
        push_u32_be(&mut trex, 0);
        push_u32_be(&mut trex, 0);
        proof { reveal(trex_content); }
        assert(trex@ =~= trex_content());
        let mut c: Vec<u8> = Vec::new();
        append_box(&mut c, 't', 'r', 'e', 'x', &trex);
        proof { reveal(mvex_content); }
        assert(c@ =~= mvex_content());
        append_box(buf, 'm', 'v', 'e', 'x', &c);
    }

    /// The initialization segment: a `ftyp` box immediately followed by a
    /// `moov` box embedding the captured parameter sets.
    #[verifier::rlimit(60)]
    pub fn create_init_segment(&self) -> (r: Vec<u8>)
        requires
            self.spec_sps().len() <= 65535,
            self.spec_pps().len() <= 65535,
        ensures
            r@ == init_segment_bytes(
                self.spec_width(),
                self.spec_height(),
                self.spec_timescale(),
                self.spec_sps(),
                self.spec_pps(),
            ),
    {
        let mut buf: Vec<u8> = Vec::new();
        self.write_ftyp(&mut buf);
        let mut moov: Vec<u8> = Vec::new();
        self.write_mvhd(&mut moov);
        self.write_trak(&mut moov);
        self.write_mvex(&mut moov);
        proof {
            reveal(moov_content);
            Seq::<u8>::add_empty_left(
                Seq::<u8>::empty(),
                mp4_box(fourcc('m', 'v', 'h', 'd'), mvhd_content(self.timescale)),
            );
            assert(moov@ == moov_content(
                self.width,
                self.height,
                self.timescale,
                self.sps@,
                self.pps@,
            ));
        }
        append_box(&mut buf, 'm', 'o', 'o', 'v', &moov);
        proof {
            reveal(init_segment_bytes);
            Seq::<u8>::add_empty_left(Seq::<u8>::empty(), ftyp_box());
            assert(buf@ == init_segment_bytes(
                self.width,
                self.height,
                self.timescale,
                self.sps@,
                self.pps@,
            ));
        }
        buf
    }

    /// One media segment for the given encoded frame: a `moof` box carrying
    /// this muxer's sequence number and the frame's timing, immediately
    /// followed by an `mdat` box holding the frame bytes. The sequence
    /// number then grows by one.
    pub fn create_media_segment(&mut self, frame: &EncodedFrame, duration: u32) -> (r: Vec<u8>)
        requires
            frame.data@.len() + 8 <= u32::MAX,
            old(self).spec_sequence_number() < u32::MAX,
            0 <= frame.pts,
            frame.pts * duration <= u64::MAX,
        ensures
            r@ == media_segment_bytes(
                old(self).spec_sequence_number(),
                (frame.pts * duration) as u64,
                duration,
                frame.data@,
                frame.is_keyframe,
            ),
            final(self).spec_sequence_number() == old(self).spec_sequence_number() + 1,
            final(self).spec_width() == old(self).spec_width(),
            final(self).spec_height() == old(self).spec_height(),
            final(self).spec_timescale() == old(self).spec_timescale(),
            final(self).spec_sps() == old(self).spec_sps(),
            final(self).spec_pps() == old(self).spec_pps(),
    {
        let decode_time: u64 = (frame.pts as u64) * (duration as u64);

        let mut mfhd: Vec<u8> = Vec::new();
        push_u32_be(&mut mfhd, 0);
        push_u32_be(&mut mfhd, self.sequence_number);
        proof { reveal(mfhd_content); }
        assert(mfhd@ =~= mfhd_content(self.sequence_number));

        let mut tfhd: Vec<u8> = Vec::new();
        push_u32_be(&mut tfhd, 0x00020020);
        push_u32_be(&mut tfhd, 1);
        push_u32_be(&mut tfhd, 0x01010000);
        proof { reveal(tfhd_content); }
        assert(tfhd@ =~= tfhd_content());

        let mut tfdt: Vec<u8> = Vec::new();
        push_u32_be(&mut tfdt, 0x01000000);
        push_u64_be(&mut tfdt, decode_time);
        proof { reveal(tfdt_content); }
        assert(tfdt@ =~= tfdt_content(decode_time));

        let mut trun: Vec<u8> = Vec::new();
        push_u32_be(&mut trun, 0x00000F01);
        push_u32_be(&mut trun, 1);
        push_u32_be(&mut trun, 112);
        push_u32_be(&mut trun, duration);
        push_u32_be(&mut trun, frame.data.len() as u32);
        push_u32_be(&mut trun, if frame.is_keyframe { 0x02000000 } else { 0x01010000 });
        proof { reveal(trun_content); }
        assert(trun@ =~= trun_content(duration, frame.data@.len() as u32, frame.is_keyframe));

        let mut traf: Vec<u8> = Vec::new();
        append_box(&mut traf, 't', 'f', 'h', 'd', &tfhd);
        append_box(&mut traf, 't', 'f', 'd', 't', &tfdt);
        append_box(&mut traf, 't', 'r', 'u', 'n', &trun);
        proof {
            reveal(traf_content);
            Seq::<u8>::add_empty_left(Seq::<u8>::empty(), mp4_box(fourcc('t', 'f', 'h', 'd'), tfhd_content()));
            assert(traf@ == traf_content(decode_time, duration, frame.data@.len() as u32, frame.is_keyframe));
        }

        let mut moof: Vec<u8> = Vec::new();
        append_box(&mut moof, 'm', 'f', 'h', 'd', &mfhd);
        append_box(&mut moof, 't', 'r', 'a', 'f', &traf);
        proof {
            reveal(moof_content);
            Seq::<u8>::add_empty_left(
                Seq::<u8>::empty(),
                mp4_box(fourcc('m', 'f', 'h', 'd'), mfhd_content(self.sequence_number)),
            );
            assert(moof@ == moof_content(
                self.sequence_number,
                decode_time,
                duration,
                frame.data@.len() as u32,
                frame.is_keyframe,
            ));
        }

        let mut buf: Vec<u8> = Vec::new();
        append_box(&mut buf, 'm', 'o', 'o', 'f', &moof);
        append_box(&mut buf, 'm', 'd', 'a', 't', &frame.data);
        proof {
            reveal(media_segment_bytes);
            Seq::<u8>::add_empty_left(
                Seq::<u8>::empty(),
                mp4_box(
                    fourcc('m', 'o', 'o', 'f'),
                    moof_content(
                        self.sequence_number,
                        decode_time,
                        duration,
                        frame.data@.len() as u32,
                        frame.is_keyframe,
                    ),
                ),
            );
            assert(buf@ == media_segment_bytes(
                self.sequence_number,
                decode_time,
                duration,
                frame.data@,
                frame.is_keyframe,
            ));
        }

        self.sequence_number = self.sequence_number + 1;
        buf
    }
}


/// Law: the initialization segment is a `ftyp` box immediately followed by
/// a `moov` box; the box type `ftyp` stands at bytes 4 to 8 and the box type
/// `moov` right behind the `ftyp` box, at bytes 36 to 40.
pub proof fn lemma_init_segment_shape(
    width: u32,
    height: u32,
    timescale: u32,
    sps: Seq<u8>,
    pps: Seq<u8>,
)
    ensures
        init_segment_bytes(width, height, timescale, sps, pps) == mp4_box(
            fourcc('f', 't', 'y', 'p'),
            ftyp_content(),
        ) + mp4_box(fourcc('m', 'o', 'o', 'v'), moov_content(width, height, timescale, sps, pps)),
        init_segment_bytes(width, height, timescale, sps, pps).subrange(4, 8) == fourcc(
            'f',
            't',
            'y',
            'p',
        ),
        init_segment_bytes(width, height, timescale, sps, pps).subrange(36, 40) == fourcc(
            'm',
            'o',
            'o',
            'v',
        ),
{
    reveal(init_segment_bytes);
    reveal(ftyp_box);
    reveal(ftyp_content);
    let seg = init_segment_bytes(width, height, timescale, sps, pps);
    assert(ftyp_content().len() == 24);
    assert(ftyp_box().len() == 32);
    assert(seg.subrange(4, 8) =~= fourcc('f', 't', 'y', 'p'));
    assert(seg.subrange(36, 40) =~= fourcc('m', 'o', 'o', 'v'));
}

/// Law: a media segment is one `moof` box immediately followed by one `mdat`
/// box; the box type `moof` stands at bytes 4 to 8, the fragment sequence
/// number big-endian at bytes 20 to 24 (inside the `mfhd`), the `moof` box
/// is 104 bytes long, and the `trun` data-offset word at bytes 88 to 92
/// reads 112: the moof size plus the 8-byte `mdat` header.
#[verifier::rlimit(100)]
pub proof fn lemma_media_segment_shape(
    sequence_number: u32,
    decode_time: u64,
    duration: u32,
    data: Seq<u8>,
    is_keyframe: bool,
)
    ensures
        media_segment_bytes(sequence_number, decode_time, duration, data, is_keyframe) == mp4_box(
            fourcc('m', 'o', 'o', 'f'),
            moof_content(
                sequence_number,
                decode_time,
                duration,
                data.len() as u32,
                is_keyframe,
            ),
        ) + mp4_box(fourcc('m', 'd', 'a', 't'), data),
        media_segment_bytes(sequence_number, decode_time, duration, data, is_keyframe).subrange(
            4,
            8,
        ) == fourcc('m', 'o', 'o', 'f'),
        media_segment_bytes(sequence_number, decode_time, duration, data, is_keyframe).subrange(
            20,
            24,
        ) == be32(sequence_number),
        mp4_box(
            fourcc('m', 'o', 'o', 'f'),
            moof_content(
                sequence_number,
                decode_time,
                duration,
                data.len() as u32,
                is_keyframe,
            ),
        ).len() == 104,
        media_segment_bytes(sequence_number, decode_time, duration, data, is_keyframe).subrange(
            88,
            92,
        ) == be32(112),
{
    reveal(media_segment_bytes);
    reveal(moof_content);
    reveal(mfhd_content);
    let size = data.len() as u32;
    let seg = media_segment_bytes(sequence_number, decode_time, duration, data, is_keyframe);
    let mfhd = mp4_box(fourcc('m', 'f', 'h', 'd'), mfhd_content(sequence_number));
    let moof_c = moof_content(sequence_number, decode_time, duration, size, is_keyframe);
    assert(mfhd.len() == 16);
    assert(seg.subrange(4, 8) =~= fourcc('m', 'o', 'o', 'f'));
    assert(seg.subrange(20, 24) =~= be32(sequence_number));

    // walk down to the trun data-offset word, one box layer at a time
    let traf_c = traf_content(decode_time, duration, size, is_keyframe);
    let traf = mp4_box(fourcc('t', 'r', 'a', 'f'), traf_c);
    let trun_c = trun_content(duration, size, is_keyframe);
    let trun = mp4_box(fourcc('t', 'r', 'u', 'n'), trun_c);
    assert(trun_c.len() == 24 && trun_c.subrange(8, 12) == be32(112)) by {
        reveal(trun_content);
        assert(trun_c.subrange(8, 12) =~= be32(112));
    }
    assert(traf_c.len() == 72 && traf_c.subrange(56, 60) == be32(112)) by {
        reveal(traf_content);
        reveal(tfhd_content);
        reveal(tfdt_content);
        assert(trun.subrange(16, 20) =~= trun_c.subrange(8, 12));
        assert(traf_c.subrange(56, 60) =~= trun.subrange(16, 20));
    }
    assert(moof_c.len() == 96 && moof_c.subrange(80, 84) == be32(112)) by {
        assert(traf.subrange(64, 68) =~= traf_c.subrange(56, 60));
        assert(moof_c.subrange(80, 84) =~= traf.subrange(64, 68));
    }
    // the data-offset word: the 104-byte moof box plus the 8-byte mdat header
    assert(seg.subrange(88, 92) =~= moof_c.subrange(80, 84));
}

} // verus!


