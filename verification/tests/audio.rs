use voicepipe::audio::{
    convert_u16_sample, encode_i16_samples, encode_u16_samples, sample_to_le, stream_params,
    AudioCaptureBridge, AudioFrame,
};

#[test]
fn samples_become_little_endian_bytes() {
    assert_eq!(sample_to_le(0), (0, 0));
    assert_eq!(sample_to_le(1), (1, 0));
    assert_eq!(sample_to_le(256), (0, 1));
    assert_eq!(sample_to_le(-1), (255, 255));
    assert_eq!(sample_to_le(i16::MIN), (0, 128));
    assert_eq!(sample_to_le(i16::MAX), (255, 127));
}

#[test]
fn le_encoding_matches_std() {
    for x in [0i16, 1, -1, 257, -300, i16::MIN, i16::MAX] {
        let le = x.to_le_bytes();
        assert_eq!(sample_to_le(x), (le[0], le[1]));
    }
}

#[test]
fn unsigned_samples_are_recentred() {
    assert_eq!(convert_u16_sample(0x8000), 0);
    assert_eq!(convert_u16_sample(0), i16::MIN);
    assert_eq!(convert_u16_sample(0xFFFF), i16::MAX);
    assert_eq!(convert_u16_sample(0x8001), 1);
}

#[test]
fn frames_hold_two_bytes_per_sample() {
    let out = encode_i16_samples(&vec![258, -1]);
    assert_eq!(out, vec![2, 1, 255, 255]);
    let out = encode_u16_samples(&vec![0x8000, 0x8001]);
    assert_eq!(out, vec![0, 0, 1, 0]);
}

#[test]
fn bridge_keeps_frame_order_and_drops_nothing() {
    let mut b = AudioCaptureBridge::new();
    for data in [vec![1u8], vec![2u8], vec![3u8]] {
        b.push_frame(AudioFrame { data });
    }
    assert_eq!(b.len(), 3);
    assert_eq!(b.take_frame().unwrap().data, vec![1u8]);
    assert_eq!(b.take_frame().unwrap().data, vec![2u8]);
    assert_eq!(b.take_frame().unwrap().data, vec![3u8]);
    assert!(b.take_frame().is_none());
}

#[test]
fn stream_parameters_match_the_capture_format() {
    let p = stream_params();
    assert_eq!(p.encoding, "linear16");
    assert_eq!(p.sample_rate, 44100);
    assert_eq!(p.channels, 2);
    assert!(p.keep_alive);
}
