//! Encoding, muxing, fan-out and session ordering.

use linglide::broadcast::{RecvOutcome, SegmentBroadcaster};
use linglide::encoder::bgra_to_yuv420;
use linglide::encoder::EncodedFrame;
use linglide::fmp4::Fmp4Muxer;
use linglide::nal::{check_keyframe, extract_headers, parse_param_sets};
use linglide::pipeline::StreamSegment;
use linglide::session::{VideoPhase, VideoSession};
use linglide::tls::calculate_cert_fingerprint;
use sha2::Digest;

fn be32_at(b: &[u8], i: usize) -> u32 {
    ((b[i] as u32) << 24) | ((b[i + 1] as u32) << 16) | ((b[i + 2] as u32) << 8) | (b[i + 3] as u32)
}

fn seg(sequence: u64, is_keyframe: bool) -> StreamSegment {
    StreamSegment { data: vec![sequence as u8], is_init: false, is_keyframe, sequence }
}

#[test]
fn test_parse_param_sets() {
    let stream = [
        0, 0, 0, 1, 0x67, 1, 2, 3, // SPS with payload
        0, 0, 0, 1, 0x68, 9, 9, // PPS
    ];
    let (sps, pps) = parse_param_sets(&stream);
    assert_eq!(sps, vec![0x67, 1, 2, 3]);
    assert_eq!(pps, vec![0x68, 9, 9]);

    let (sps2, pps2) = parse_param_sets(&[0, 0, 0, 1, 0x41, 5, 5]);
    assert!(sps2.is_empty());
    assert!(pps2.is_empty());
}

#[test]
fn test_extract_headers() {
    let stream = [
        0, 0, 0, 1, 0x67, 1, 2, 3, // SPS
        0, 0, 0, 1, 0x68, 9, // PPS
        0, 0, 0, 1, 0x65, 7, 7, 7, 7, // IDR slice
    ];
    let headers = extract_headers(&stream);
    assert_eq!(headers, vec![0, 0, 0, 1, 0x67, 1, 2, 3, 0, 0, 0, 1, 0x68, 9]);

    // no parameter sets: the whole stream comes back
    let plain = [0, 0, 0, 1, 0x41, 5, 5, 5, 5];
    assert_eq!(extract_headers(&plain), plain.to_vec());
}

#[test]
fn test_check_keyframe() {
    assert!(check_keyframe(&[0, 0, 0, 1, 0x65, 9, 9])); // IDR, 4-byte code
    assert!(check_keyframe(&[9, 0, 0, 1, 0x67, 9, 9])); // SPS, 3-byte code
    assert!(!check_keyframe(&[0, 0, 0, 1, 0x41, 9, 9])); // non-IDR slice
    assert!(!check_keyframe(&[0x65, 9, 9])); // no start code at all
    assert!(!check_keyframe(&[]));
}

#[test]
fn test_muxer_codec_string_and_headers() {
    let mut muxer = Fmp4Muxer::new(1920, 1080, 60);
    assert_eq!(muxer.get_codec_string(), "avc1.64002a"); // fallback before headers

    let headers = [0, 0, 0, 1, 0x67, 0x42, 0xc0, 0x1f, 0, 0, 0, 1, 0x68, 0xce];
    muxer.set_headers(&headers);
    assert_eq!(muxer.get_codec_string(), "avc1.42c01f");

    let avcc = muxer.get_avcc_data();
    assert_eq!(avcc[0], 1); // version
    assert_eq!(avcc[1], 0x42); // profile from sps[1]
    assert_eq!(avcc[2], 0xc0);
    assert_eq!(avcc[3], 0x1f);
}

#[test]
fn test_init_segment_is_ftyp_then_moov() {
    let mut muxer = Fmp4Muxer::new(1920, 1080, 60);
    muxer.set_headers(&[0, 0, 0, 1, 0x67, 0x42, 0xc0, 0x1f, 0, 0, 0, 1, 0x68, 0xce]);
    let init = muxer.create_init_segment();

    // begins with the ftyp box: 00 00 00 20 66 74 79 70
    assert_eq!(&init[4..8], b"ftyp");
    let ftyp_size = be32_at(&init, 0) as usize;
    assert_eq!(ftyp_size, 32);
    // immediately followed by the moov box
    assert_eq!(&init[ftyp_size + 4..ftyp_size + 8], b"moov");
    let moov_size = be32_at(&init, ftyp_size) as usize;
    assert_eq!(init.len(), ftyp_size + moov_size);
}

#[test]
fn test_media_segments_moof_mdat_and_sequence() {
    let mut muxer = Fmp4Muxer::new(1280, 720, 30);
    let frame = EncodedFrame { data: vec![1, 2, 3, 4], pts: 0, is_keyframe: true };
    let seg1 = muxer.create_media_segment(&frame, 1000);

    assert_eq!(&seg1[4..8], b"moof");
    // mfhd sequence number starts at 1
    assert_eq!(be32_at(&seg1, 20), 1);
    let moof_size = be32_at(&seg1, 0) as usize;
    assert_eq!(&seg1[moof_size + 4..moof_size + 8], b"mdat");
    // the trun data-offset reads moof size plus the 8-byte mdat header
    assert_eq!(be32_at(&seg1, 88) as usize, moof_size + 8);
    assert_eq!(&seg1[seg1.len() - 4..], &[1, 2, 3, 4]);

    let frame2 = EncodedFrame { data: vec![5], pts: 1, is_keyframe: false };
    let seg2 = muxer.create_media_segment(&frame2, 1000);
    assert_eq!(be32_at(&seg2, 20), 2); // strictly increasing
}

#[test]
fn test_yuv_grey_and_red() {
    // one 2x2 mid-grey image
    let grey: Vec<u8> = vec![128; 2 * 2 * 4];
    let yuv = bgra_to_yuv420(&grey, 2, 2);
    assert_eq!(yuv.len(), 4 + 1 + 1);
    assert!(yuv.iter().all(|&v| v == 126 || v == 128));
    assert_eq!(yuv[0], 126); // Y of grey
    assert_eq!(yuv[4], 128); // U
    assert_eq!(yuv[5], 128); // V

    // one 2x2 pure red image (BGRA = 0,0,255,255)
    let red: Vec<u8> = vec![0, 0, 255, 255].repeat(4);
    let yuv = bgra_to_yuv420(&red, 2, 2);
    assert_eq!(yuv[0], 82); // Y
    assert_eq!(yuv[4], 90); // U
    assert_eq!(yuv[5], 240); // V
    assert!(yuv.iter().all(|&v| v <= 255));
}

#[test]
fn test_broadcast_order_and_late_join() {
    let mut b = SegmentBroadcaster::new(16);
    b.set_init_segment(vec![9, 9]);

    let mut early = b.subscribe();
    b.publish(seg(1, true));
    b.publish(seg(2, false));
    b.publish(seg(3, false));

    // publication order, strictly increasing sequence numbers
    let mut seen = Vec::new();
    loop {
        match early.recv(&b) {
            RecvOutcome::Segment(s) => seen.push(s.sequence),
            RecvOutcome::Empty => break,
            RecvOutcome::Lagged(_) => panic!("no lag expected"),
        }
    }
    assert_eq!(seen, vec![1, 2, 3]);

    // a late joiner is primed with init and the cached keyframe
    assert_eq!(b.get_init_segment().unwrap(), vec![9, 9]);
    let kf = b.get_keyframe_segment().unwrap();
    assert!(kf.is_keyframe);
    assert_eq!(kf.sequence, 1);

    // the cached keyframe precedes whatever is published next
    b.publish(seg(4, false));
    assert!(kf.sequence <= 4);
}

#[test]
fn test_laggy_viewer_gets_lagged_then_keyframe() {
    let mut b = SegmentBroadcaster::new(4);
    let mut slow = b.subscribe();

    for i in 1..=10u64 {
        b.publish(seg(i, i == 8));
    }

    // fell 6 behind the window of 4
    match slow.recv(&b) {
        RecvOutcome::Lagged(n) => assert_eq!(n, 6),
        _ => panic!("expected a lag"),
    }
    // the delivery after a lag re-primes with the cached keyframe
    match slow.recv(&b) {
        RecvOutcome::Segment(s) => {
            assert!(s.is_keyframe);
            assert_eq!(s.sequence, 8);
        },
        _ => panic!("expected the keyframe"),
    }
    // and the stream continues in order from there
    match slow.recv(&b) {
        RecvOutcome::Segment(s) => assert_eq!(s.sequence, 9),
        _ => panic!("expected a segment"),
    }
}

#[test]
fn test_session_orders_init_keyframe_media() {
    let mut session = VideoSession::new();
    assert_eq!(session.phase, VideoPhase::AwaitInit);

    // nothing passes before the init segment
    assert!(!session.admit_segment(&seg(5, true)));

    session.note_init_sent();
    // a non-keyframe is dropped until a keyframe went out
    assert!(!session.admit_segment(&seg(6, false)));
    assert!(session.admit_segment(&seg(7, true)));
    assert_eq!(session.phase, VideoPhase::Live);
    assert!(session.admit_segment(&seg(8, false)));
}

#[test]
fn test_fingerprint_calculation() {
    let cert = "-----BEGIN CERTIFICATE-----\ntest\n-----END CERTIFICATE-----";
    let fp = calculate_cert_fingerprint(cert);
    assert!(fp.contains(":"));
    assert_eq!(fp.len(), 95); // 32 bytes * 2 hex + 31 colons
}

#[test]
fn test_fingerprint_matches_reference_crates() {
    let cert = "pem text";
    let digest = sha2::Sha256::digest(cert.as_bytes());
    let expected: Vec<String> = digest.iter().map(|b| format!("{:02X}", b)).collect();
    assert_eq!(calculate_cert_fingerprint(cert), expected.join(":"));
}

#[test]
fn test_sps_detection_in_first_frame() {
    // encode one solid-grey frame with the real codec and check the
    // extracted SPS feeds the codec string
    let mut pipeline = match linglide::pipeline::EncodingPipeline::new(64, 64, 30, 500) {
        Ok(p) => p,
        Err(e) => panic!("pipeline creation failed: {:?}", e),
    };
    assert!(!pipeline.muxer.sps.is_empty());
    let sps = pipeline.muxer.sps.clone();
    assert!(sps.len() >= 4);
    let expected = format!("avc1.{:02x}{:02x}{:02x}", sps[1], sps[2], sps[3]);
    assert_eq!(pipeline.get_codec_string(), expected);
    assert!(pipeline.get_init_segment().is_some());

    // one grey frame in, one keyframe media segment out
    let frame = linglide::frame::Frame::new(vec![128; 64 * 64 * 4], 64, 64, 0);
    let segment = pipeline.encode_frame(&frame).unwrap();
    assert!(segment.is_keyframe);
    assert!(!segment.is_init);
    assert_eq!(&segment.data[4..8], b"moof");
}
