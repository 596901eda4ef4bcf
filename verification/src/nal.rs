//! H.264 Annex-B NAL unit scanning: keyframe detection and parameter-set
//! extraction from an encoded byte stream.
//!
//! A NAL unit begins after a three- or four-byte start code (`00 00 01` or
//! `00 00 00 01`); the low five bits of its first byte give its type.
//! Type 5 is an IDR slice, type 7 a sequence parameter set and type 8 a
//! picture parameter set.

use vstd::prelude::*;

verus! {

/// A four-byte start code `00 00 00 01` stands at position `i`.
pub open spec fn sc4_at(b: Seq<u8>, i: int) -> bool {
    &&& 0 <= i
    &&& i + 3 < b.len()
    &&& b[i] == 0
    &&& b[i + 1] == 0
    &&& b[i + 2] == 0
    &&& b[i + 3] == 1
}

/// A three-byte start code `00 00 01` stands at position `i` and is not the
/// tail of a four-byte one.
pub open spec fn sc3_at(b: Seq<u8>, i: int) -> bool {
    &&& 0 <= i
    &&& i + 2 < b.len()
    &&& b[i] == 0
    &&& b[i + 1] == 0
    &&& b[i + 2] == 1
    &&& (i == 0 || b[i - 1] != 0)
}

/// The NAL unit type carried in the low five bits of a header byte.
pub open spec fn nal_type(h: u8) -> u8 {
    (h % 32) as u8
}

/// A header byte that marks a keyframe: an IDR slice or an SPS.
pub open spec fn is_keyframe_nal_type(h: u8) -> bool {
    nal_type(h) == 5 || nal_type(h) == 7
}

/// A keyframe-marking NAL unit starts at position `i`.
pub open spec fn keyframe_nal_at(b: Seq<u8>, i: int) -> bool {
    ||| (sc4_at(b, i) && i + 4 < b.len() && is_keyframe_nal_type(b[i + 4]))
    ||| (sc3_at(b, i) && i + 3 < b.len() && is_keyframe_nal_type(b[i + 3]))
}

/// The byte stream holds an IDR or SPS NAL unit somewhere.
pub open spec fn contains_keyframe(b: Seq<u8>) -> bool {
    exists|i: int| 0 <= i < b.len() && keyframe_nal_at(b, i)
}

/// Whether an Annex-B byte stream contains a keyframe: an IDR (type 5) or
/// SPS (type 7) NAL unit behind a three- or four-byte start code.
pub fn check_keyframe(bytes: &[u8]) -> (r: bool)
    ensures
        r == contains_keyframe(bytes@),
{
    let n = bytes.len();
    let mut i: usize = 0;
    let mut found = false;
    while i < n
        invariant
            n == bytes@.len(),
            i <= n,
            found <==> exists|j: int| 0 <= j < i && keyframe_nal_at(bytes@, j),
        decreases n - i,
    {
        let mut here = false;
        if n - i > 4 && bytes[i] == 0 && bytes[i + 1] == 0 && bytes[i + 2] == 0 && bytes[i + 3]
            == 1 && (bytes[i + 4] % 32 == 5 || bytes[i + 4] % 32 == 7) {
            here = true;
        }
        if n - i > 3 && bytes[i] == 0 && bytes[i + 1] == 0 && bytes[i + 2] == 1 && (i == 0
            || bytes[i - 1] != 0) && (bytes[i + 3] % 32 == 5 || bytes[i + 3] % 32 == 7) {
            here = true;
        }
        proof {
            assert(here == keyframe_nal_at(bytes@, i as int));
        }
        found = found || here;
        i = i + 1;
    }
    found
}

/// The position of the next four-byte start code at or after `from`, looking
/// only at positions before `len - 3`; the stream length when there is none.
pub open spec fn next_sc4(b: Seq<u8>, from: int) -> int
    decreases b.len() - from when 0 <= from
{
    if from + 3 >= b.len() {
        b.len() as int
    } else if sc4_at(b, from) {
        from
    } else {
        next_sc4(b, from + 1)
    }
}

proof fn lemma_next_sc4_bounds(b: Seq<u8>, from: int)
    requires
        0 <= from,
    ensures
        next_sc4(b, from) == b.len() || from <= next_sc4(b, from),
        next_sc4(b, from) <= b.len() || next_sc4(b, from) == b.len(),
    decreases b.len() - from,
{
    if from + 3 >= b.len() {
    } else if sc4_at(b, from) {
    } else {
        lemma_next_sc4_bounds(b, from + 1);
    }
}

proof fn lemma_next_sc4_skip(b: Seq<u8>, from: int, j: int)
    requires
        0 <= from <= j,
        forall|k: int| from <= k < j ==> !sc4_at(b, k),
        j + 3 < b.len() || j == b.len() || j + 3 >= b.len(),
    ensures
        (j + 3 < b.len() && sc4_at(b, j)) ==> next_sc4(b, from) == j,
        (j + 3 >= b.len()) ==> next_sc4(b, from) == b.len(),
    decreases j - from,
{
    if from < j {
        lemma_next_sc4_skip(b, from + 1, j);
    }
}

/// The parameter sets (SPS then PPS payloads, without start codes) drawn
/// out of a header byte stream delimited by four-byte start codes; a later
/// occurrence replaces an earlier one.
pub open spec fn scan_param_sets(b: Seq<u8>, i: int, sps: Seq<u8>, pps: Seq<u8>) -> (Seq<u8>, Seq<
    u8,
>)
    decreases b.len() - i when 0 <= i via scan_param_sets_decreases
{
    if !(i + 4 < b.len()) {
        (sps, pps)
    } else if sc4_at(b, i) {
        let start = i + 4;
        let end = next_sc4(b, start);
        if start < end && nal_type(b[start]) == 7 {
            scan_param_sets(b, end, b.subrange(start, end), pps)
        } else if start < end && nal_type(b[start]) == 8 {
            scan_param_sets(b, end, sps, b.subrange(start, end))
        } else {
            scan_param_sets(b, end, sps, pps)
        }
    } else {
        scan_param_sets(b, i + 1, sps, pps)
    }
}

#[via_fn]
proof fn scan_param_sets_decreases(b: Seq<u8>, i: int, sps: Seq<u8>, pps: Seq<u8>) {
    if i + 4 < b.len() && sc4_at(b, i) {
        lemma_next_sc4_bounds(b, i + 4);
    }
}

/// SPS and PPS payloads found by scanning a whole header stream.
pub open spec fn param_sets_of(b: Seq<u8>) -> (Seq<u8>, Seq<u8>) {
    scan_param_sets(b, 0, Seq::empty(), Seq::empty())
}

/// Scans an Annex-B stream for SPS (type 7) and PPS (type 8) NAL units
/// behind four-byte start codes and replaces `sps` and `pps` with their
/// payloads, the last occurrence of each winning; one that does not occur
/// leaves the old value standing.
pub fn scan_param_sets_into(headers: &[u8], sps: &mut Vec<u8>, pps: &mut Vec<u8>)
    ensures
        (final(sps)@, final(pps)@) == scan_param_sets(headers@, 0, old(sps)@, old(pps)@),
{
    let n = headers.len();
    let mut i: usize = 0;
    while i < n && n - i > 4
        invariant
            n == headers@.len(),
            i <= n,
            scan_param_sets(headers@, i as int, sps@, pps@) == scan_param_sets(
                headers@,
                0,
                old(sps)@,
                old(pps)@,
            ),
        decreases n - i,
    {
        if headers[i] == 0 && headers[i + 1] == 0 && headers[i + 2] == 0 && headers[i + 3] == 1 {
            let start = i + 4;
            let mut j = start;
            let mut found = false;
            while !found && n - j > 3
                invariant
                    n == headers@.len(),
                    start <= j,
                    j <= n,
                    forall|k: int| start <= k < j ==> !sc4_at(headers@, k),
                    found ==> j + 3 < n && sc4_at(headers@, j as int),
                decreases n - j, 1int - (if found { 1int } else { 0int }),
            {
                if headers[j] == 0 && headers[j + 1] == 0 && headers[j + 2] == 0 && headers[j + 3]
                    == 1 {
                    found = true;
                } else {
                    j = j + 1;
                }
            }
            let end = if found {
                j
            } else {
                n
            };
            proof {
                lemma_next_sc4_skip(headers@, start as int, j as int);
                assert(end as int == next_sc4(headers@, start as int));
            }
            if start < end {
                let h = headers[start];
                if h % 32 == 7 {
                    let mut fresh: Vec<u8> = Vec::new();
                    let mut k = start;
                    while k < end
                        invariant
                            start <= k <= end <= n,
                            n == headers@.len(),
                            fresh@ == headers@.subrange(start as int, k as int),
                        decreases end - k,
                    {
                        fresh.push(headers[k]);
                        assert(fresh@ =~= headers@.subrange(start as int, k as int + 1));
                        k = k + 1;
                    }
                    *sps = fresh;
                } else if h % 32 == 8 {
                    let mut fresh: Vec<u8> = Vec::new();
                    let mut k = start;
                    while k < end
                        invariant
                            start <= k <= end <= n,
                            n == headers@.len(),
                            fresh@ == headers@.subrange(start as int, k as int),
                        decreases end - k,
                    {
                        fresh.push(headers[k]);
                        assert(fresh@ =~= headers@.subrange(start as int, k as int + 1));
                        k = k + 1;
                    }
                    *pps = fresh;
                }
            }
            i = end;
        } else {
            i = i + 1;
        }
    }
}

/// The SPS and PPS payloads found in an Annex-B stream, each empty when it
/// does not occur.
pub fn parse_param_sets(headers: &[u8]) -> (r: (Vec<u8>, Vec<u8>))
    ensures
        (r.0@, r.1@) == param_sets_of(headers@),
{
    let mut sps: Vec<u8> = Vec::new();
    let mut pps: Vec<u8> = Vec::new();
    scan_param_sets_into(headers, &mut sps, &mut pps);
    (sps, pps)
}


/// The end of the NAL unit whose payload starts at `from`: the first
/// position at or after `from` where `00 00 00` or `00 00 01` begins, or
/// where fewer than four bytes remain.
pub open spec fn nal_unit_end(b: Seq<u8>, from: int) -> int
    decreases b.len() - from when 0 <= from
{
    if from + 3 >= b.len() {
        from
    } else if b[from] == 0 && b[from + 1] == 0 && (b[from + 2] == 0 || b[from + 2] == 1) {
        from
    } else {
        nal_unit_end(b, from + 1)
    }
}

proof fn lemma_nal_unit_end_bounds(b: Seq<u8>, from: int)
    requires
        0 <= from < b.len(),
    ensures
        from <= nal_unit_end(b, from) < b.len(),
    decreases b.len() - from,
{
    if from + 3 >= b.len() {
    } else if b[from] == 0 && b[from + 1] == 0 && (b[from + 2] == 0 || b[from + 2] == 1) {
    } else {
        lemma_nal_unit_end_bounds(b, from + 1);
    }
}

proof fn lemma_nal_unit_end_skip(b: Seq<u8>, from: int, j: int)
    requires
        0 <= from <= j,
        forall|k: int|
            from <= k < j ==> !(#[trigger] b[k] == 0 && b[k + 1] == 0 && (b[k + 2] == 0 || b[k + 2]
                == 1)),
        forall|k: int| from <= k < j ==> #[trigger] (k + 3) < b.len(),
    ensures
        nal_unit_end(b, from) == nal_unit_end(b, j),
    decreases j - from,
{
    if from < j {
        lemma_nal_unit_end_skip(b, from + 1, j);
    }
}

/// The SPS and PPS NAL units, start codes included, that the header scan
/// copies out of an encoder's first output.
pub open spec fn scan_header_nals(b: Seq<u8>, i: int, acc: Seq<u8>) -> Seq<u8>
    decreases b.len() - i when 0 <= i via scan_header_nals_decreases
{
    if !(i + 4 < b.len()) {
        acc
    } else if sc4_at(b, i) && (nal_type(b[i + 4]) == 7 || nal_type(b[i + 4]) == 8) {
        let end = nal_unit_end(b, i + 4);
        scan_header_nals(b, end, acc + b.subrange(i, end))
    } else {
        scan_header_nals(b, i + 1, acc)
    }
}

#[via_fn]
proof fn scan_header_nals_decreases(b: Seq<u8>, i: int, acc: Seq<u8>) {
    if i + 4 < b.len() && sc4_at(b, i) && (nal_type(b[i + 4]) == 7 || nal_type(b[i + 4]) == 8) {
        lemma_nal_unit_end_bounds(b, i + 4);
    }
}

/// What the header extraction hands to the muxer: the SPS and PPS NAL units
/// with their start codes, or the whole stream when none was found (an
/// encoder that embeds its parameter sets in the IDR frame).
pub open spec fn headers_of(b: Seq<u8>) -> Seq<u8> {
    let found = scan_header_nals(b, 0, Seq::empty());
    if found.len() == 0 {
        b
    } else {
        found
    }
}

/// Draws the SPS and PPS NAL units (start codes included) out of an Annex-B
/// stream; when none occurs, the whole stream comes back.
pub fn extract_headers(data: &[u8]) -> (r: Vec<u8>)
    ensures
        r@ == headers_of(data@),
{
    let n = data.len();
    let mut acc: Vec<u8> = Vec::new();
    let mut i: usize = 0;
    while i < n && n - i > 4
        invariant
            n == data@.len(),
            i <= n,
            scan_header_nals(data@, i as int, acc@) == scan_header_nals(data@, 0, Seq::empty()),
        decreases n - i,
    {
        if data[i] == 0 && data[i + 1] == 0 && data[i + 2] == 0 && data[i + 3] == 1 && (data[i + 4]
            % 32 == 7 || data[i + 4] % 32 == 8) {
            let start = i;
            let mut j = start + 4;
            let mut stop = false;
            while !stop && n - j > 3
                invariant
                    n == data@.len(),
                    start + 4 <= j <= n,
                    forall|k: int|
                        start + 4 <= k < j ==> !(#[trigger] data@[k] == 0 && data@[k + 1] == 0 && (
                        data@[k + 2] == 0 || data@[k + 2] == 1)),
                    forall|k: int| start + 4 <= k < j ==> #[trigger] (k + 3) < n,
                    stop ==> j + 3 < n && data@[j as int] == 0 && data@[j as int + 1] == 0 && (
                    data@[j as int + 2] == 0 || data@[j as int + 2] == 1),
                decreases n - j, 1int - (if stop { 1int } else { 0int }),
            {
                if data[j] == 0 && data[j + 1] == 0 && (data[j + 2] == 0 || data[j + 2] == 1) {
                    stop = true;
                } else {
                    j = j + 1;
                }
            }
            proof {
                lemma_nal_unit_end_skip(data@, start as int + 4, j as int);
                assert(j as int == nal_unit_end(data@, start as int + 4));
            }
            let ghost acc0 = acc@;
            let mut k = start;
            while k < j
                invariant
                    start <= k <= j <= n,
                    n == data@.len(),
                    acc@ == acc0 + data@.subrange(start as int, k as int),
                decreases j - k,
            {
                acc.push(data[k]);
                assert(acc@ =~= acc0 + data@.subrange(start as int, k as int + 1));
                k = k + 1;
            }
            i = j;
        } else {
            i = i + 1;
        }
    }
    if acc.len() == 0 {
        let mut whole: Vec<u8> = Vec::new();
        whole.extend_from_slice(data);
        assert(whole@ =~= data@);
        whole
    } else {
        acc
    }
}

} // verus!
