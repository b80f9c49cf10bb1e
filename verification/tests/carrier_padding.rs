//! Padding frames and the padding policy.

use outline_ss_rust::carrier_padding::{
    cover_for_path, draw_pad, frame_downlink_into, frame_downlink_message, frame_payload_into, init,
    jitter_for, scheme_for_path, CoverParams, PaddingConfig, PaddingDecoder, PaddingScheme,
    MAX_PADDING_SEGMENT,
};
use rand::rngs::StdRng;
use rand::{Rng, RngCore, SeedableRng};

fn seeded() -> StdRng {
    StdRng::seed_from_u64(0x5EED)
}

fn seeded_pad(scheme: PaddingScheme, rng: &mut StdRng) -> Vec<u8> {
    let mut pad = vec![0u8; scheme.pad_len(rng.random::<u16>()) as usize];
    rng.fill_bytes(&mut pad);
    pad
}

#[test]
fn frame_then_decode_round_trips() {
    let scheme = PaddingScheme::new(0, 128);
    let mut rng = seeded();
    let data = b"shadowsocks downlink ciphertext bytes".to_vec();

    let mut framed = Vec::new();
    frame_payload_into(&data, &seeded_pad(scheme, &mut rng), &mut framed);

    let mut decoded = Vec::new();
    let mut dec = PaddingDecoder::new();
    dec.push(&framed, &mut decoded);
    assert_eq!(decoded, data);
    assert!(dec.is_at_frame_boundary());
}

#[test]
fn oversize_payload_is_chunked_and_recovered() {
    let scheme = PaddingScheme::new(16, 64);
    let mut rng = seeded();
    let data = vec![0x5Au8; MAX_PADDING_SEGMENT + 4096];

    let mut framed = Vec::new();
    frame_payload_into(&data, &seeded_pad(scheme, &mut rng), &mut framed);

    let mut decoded = Vec::new();
    let mut dec = PaddingDecoder::new();
    dec.push(&framed, &mut decoded);
    assert_eq!(decoded, data);
}

#[test]
fn a_frame_is_two_lengths_then_payload_then_pad() {
    let mut framed = vec![9];
    frame_payload_into(b"abc", &[7, 7], &mut framed);
    assert_eq!(framed, vec![9, 0, 3, 0, 2, b'a', b'b', b'c', 7, 7]);
    let mut framed = Vec::new();
    frame_payload_into(b"", &[1], &mut framed);
    assert_eq!(framed, vec![0, 0, 0, 1, 1]);
}

#[test]
fn only_the_last_segment_is_padded() {
    let data = vec![1u8; MAX_PADDING_SEGMENT + 1];
    let mut framed = Vec::new();
    frame_payload_into(&data, &[5; 3], &mut framed);
    assert_eq!(framed.len(), data.len() + 4 + 4 + 3);
    assert_eq!(&framed[..4], &[0xff, 0xff, 0, 0]);
    let second = 4 + MAX_PADDING_SEGMENT;
    assert_eq!(&framed[second..second + 5], &[0, 1, 0, 3, 1]);
}

#[test]
fn a_decoder_takes_frames_in_any_pieces() {
    let mut framed = Vec::new();
    frame_payload_into(b"hello ", &[0; 9], &mut framed);
    frame_payload_into(b"", &[0; 5], &mut framed);
    frame_payload_into(b"world", &[], &mut framed);
    let mut decoder = PaddingDecoder::new();
    let mut out = Vec::new();
    for byte in &framed {
        decoder.push(std::slice::from_ref(byte), &mut out);
    }
    assert_eq!(out, b"hello world");
    assert!(decoder.is_at_frame_boundary());
    decoder.push(&[0], &mut out);
    assert!(!decoder.is_at_frame_boundary());
}

#[test]
fn pads_stay_within_the_scheme() {
    let scheme = PaddingScheme::new(16, 64);
    assert_eq!(scheme.pad_len(0), 16);
    assert_eq!(scheme.pad_len(48), 64);
    assert_eq!(scheme.pad_len(49), 16);
    assert_eq!(PaddingScheme::new(9, 3).pad_len(77), 9);
    for _ in 0..200 {
        let pad = draw_pad(scheme);
        assert!(pad.len() >= 16 && pad.len() <= 64);
    }
    let long = draw_pad(PaddingScheme::new(4096, 4096));
    assert_eq!(long.len(), 4096);
    assert!(long.iter().any(|b| *b != 0), "a pad is random bytes");
}

#[test]
fn what_a_carrier_sends_reads_back() {
    let mut framed = vec![];
    frame_downlink_into(PaddingScheme::new(1, 9), b"data", &mut framed);
    assert!(framed.len() >= 4 + 4 + 1 && framed.len() <= 4 + 4 + 9);
    let mut out = Vec::new();
    PaddingDecoder::new().push(&framed, &mut out);
    assert_eq!(out, b"data");

    assert_eq!(frame_downlink_message(PaddingScheme::disabled(), b"plain".to_vec()), b"plain");
    let message = frame_downlink_message(PaddingScheme::new(2, 2), b"data".to_vec());
    assert_eq!(message.len(), 4 + 4 + 2);
}

fn policy() -> PaddingConfig {
    PaddingConfig {
        enabled: true,
        min: 1,
        max: 8,
        paths: vec!["/padded".to_string()],
        cover: true,
        cover_jitter_min_ms: 20,
        cover_jitter_max_ms: 40,
    }
}

#[test]
fn the_first_policy_wins() {
    let mut current = None;
    assert!(init(&mut current, policy()));
    assert!(!init(&mut current, PaddingConfig { enabled: false, ..policy() }));
    assert!(current.unwrap().enabled);
}

#[test]
fn padding_and_cover_follow_the_paths() {
    let padded = "/padded".to_string();
    let plain = "/plain".to_string();
    assert_eq!(scheme_for_path(&None, &padded), PaddingScheme::disabled());
    let current = Some(policy());
    assert_eq!(scheme_for_path(&current, &padded), PaddingScheme::new(1, 8));
    assert_eq!(scheme_for_path(&current, &plain), PaddingScheme::disabled());
    assert!(!scheme_for_path(&current, &plain).is_enabled());
    assert_eq!(
        cover_for_path(&current, &padded),
        Some(CoverParams {
            scheme: PaddingScheme::new(1, 8),
            jitter_min_ms: 20,
            jitter_max_ms: 40,
        })
    );
    assert_eq!(cover_for_path(&current, &plain), None);
    assert_eq!(cover_for_path(&Some(PaddingConfig { cover: false, ..policy() }), &padded), None);
    assert_eq!(cover_for_path(&Some(PaddingConfig { enabled: false, ..policy() }), &padded), None);
}

#[test]
fn gaps_stay_within_the_jitter() {
    assert_eq!(jitter_for(20, 40, 0), 20);
    assert_eq!(jitter_for(20, 40, 20), 40);
    assert_eq!(jitter_for(20, 40, 21), 20);
    assert_eq!(jitter_for(40, 20, 99), 40);
    assert_eq!(jitter_for(0, u64::MAX, u64::MAX), 0);
    let cover = cover_for_path(&Some(policy()), &"/padded".to_string()).unwrap();
    let mut seen = std::collections::HashSet::new();
    for _ in 0..400 {
        let gap = cover.next_gap();
        assert!((20..=40).contains(&gap));
        seen.insert(gap);
    }
    assert!(seen.len() > 1, "gaps vary");
}

#[test]
fn a_cover_frame_reads_back_as_nothing() {
    let cover = cover_for_path(&Some(policy()), &"/padded".to_string()).unwrap();
    let framed = cover.frame();
    assert!(framed.len() > 4);
    let mut out = Vec::new();
    let mut decoder = PaddingDecoder::new();
    decoder.push(&framed, &mut out);
    assert!(out.is_empty());
    assert!(decoder.is_at_frame_boundary());
}
