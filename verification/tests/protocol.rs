use portman::protocol::{is_probe, on_read, probe_response, ReadOutcome};

fn frame_from(prefix: &[u8]) -> [u8; 100] {
    let mut frame = [0u8; 100];
    frame[..prefix.len()].copy_from_slice(prefix);
    frame
}

const TRAILER: [u8; 5] = [0xD9, 0xD9, 0xD6, 0xC2, 0xC5];

#[test]
fn probe_detected_by_sentinel_at_offset_six() {
    let mut frame = [0u8; 100];
    assert!(!is_probe(&frame));
    frame[6] = 0xE2;
    assert!(is_probe(&frame));
    frame[6] = 0xE1;
    assert!(!is_probe(&frame));
    // The sentinel anywhere else does not make a probe.
    let mut other = [0u8; 100];
    other[5] = 0xE2;
    other[7] = 0xE2;
    assert!(!is_probe(&other));
}

#[test]
fn probe_response_layout_is_exact() {
    let mut frame = [0u8; 100];
    for (i, b) in [0xAAu8, 0xBB, 0xCC, 0xDD, 0xEE, 0xFF].iter().enumerate() {
        frame[i] = *b;
    }
    frame[6] = 0xE2;
    let resp = probe_response(&frame);
    assert_eq!(resp.len(), 105);
    assert_eq!(&resp[0..6], &[0xAA, 0xBB, 0xCC, 0xDD, 0xEE, 0xFF]);
    assert_eq!(&resp[6..100], &[0u8; 94][..]);
    assert_eq!(&resp[100..105], &TRAILER);
}

#[test]
fn probe_response_echoes_any_first_six_bytes() {
    // Two unrelated prefixes: the echo is byte-for-byte whatever came in.
    for prefix in [[1u8, 2, 3, 4, 5, 6], [0xE2u8, 0, 0xE2, 7, 8, 9]] {
        let mut frame = frame_from(&prefix);
        frame[6] = 0xE2;
        let resp = probe_response(&frame);
        assert_eq!(resp.len(), 105);
        assert_eq!(&resp[0..6], &prefix);
        assert!(resp[6..100].iter().all(|&b| b == 0));
        assert_eq!(&resp[100..105], &TRAILER);
    }
}

#[test]
fn read_of_zero_bytes_means_peer_closed() {
    let frame = [0u8; 100];
    assert!(matches!(on_read(0, &frame), ReadOutcome::PeerClosed));
}

#[test]
fn probe_frame_yields_reply_and_five_byte_drain() {
    let mut frame = [0u8; 100];
    frame[6] = 0xE2;
    match on_read(100, &frame) {
        ReadOutcome::Reply { drain, response } => {
            assert_eq!(drain, 5);
            assert_eq!(response.len(), 105);
            assert_eq!(&response[0..6], &[0u8; 6][..]);
            assert_eq!(&response[100..105], &TRAILER);
        }
        _ => panic!("probe frame must be answered"),
    }
}

#[test]
fn non_probe_frame_is_ignored_and_connection_stays_usable() {
    let frame = frame_from(&[9, 9, 9, 9, 9, 9, 9, 9]);
    assert!(matches!(on_read(8, &frame), ReadOutcome::Ignored));
    // The handler keeps reading: a later probe on the same connection still
    // gets its reply.
    let mut probe = frame_from(&[1, 2, 3, 4, 5, 6]);
    probe[6] = 0xE2;
    match on_read(12, &probe) {
        ReadOutcome::Reply { drain, response } => {
            assert_eq!(drain, 5);
            assert_eq!(&response[0..6], &[1, 2, 3, 4, 5, 6]);
        }
        _ => panic!("probe after an ignored frame must still be answered"),
    }
}

#[test]
fn short_read_leaves_sentinel_position_zeroed() {
    // A 3-byte read into the zero-filled buffer: byte 6 is 0, not the
    // sentinel, so the frame is not a probe.
    let frame = frame_from(&[0xE2, 0xE2, 0xE2]);
    assert!(matches!(on_read(3, &frame), ReadOutcome::Ignored));
}

#[test]
fn end_to_end_probe_bytes() {
    // The wire example: 12 inbound bytes, sentinel at offset 6, five trailing
    // bytes to drain; the reply is the six echoed bytes, 94 zeros, and the
    // fixed trailer.
    let sent: [u8; 12] = [0, 1, 2, 3, 4, 5, 0xE2, 9, 9, 9, 9, 9];
    let frame = frame_from(&sent);
    match on_read(sent.len(), &frame) {
        ReadOutcome::Reply { drain, response } => {
            assert_eq!(drain, 5);
            let mut expected = vec![0u8, 1, 2, 3, 4, 5];
            expected.extend_from_slice(&[0u8; 94]);
            expected.extend_from_slice(&TRAILER);
            assert_eq!(response, expected);
        }
        _ => panic!("the example probe must be answered"),
    }
}
