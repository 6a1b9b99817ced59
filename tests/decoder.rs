use std::io::Cursor;
use std::sync::mpsc;

use tunein_cli::decoder::Mp3Decoder;

/// A buffer of silent MPEG-1 Layer III frames: 128 kb/s, 44.1 kHz, stereo,
/// 417 bytes each, all side information and audio data zero.
fn silent_mp3(frames: usize) -> Vec<u8> {
    let mut bytes = Vec::new();
    for _ in 0..frames {
        let mut frame = vec![0u8; 417];
        frame[0] = 0xFF;
        frame[1] = 0xFB;
        frame[2] = 0x90;
        frame[3] = 0x00;
        bytes.extend_from_slice(&frame);
    }
    bytes
}

fn drain<R: std::io::Read>(mut d: Mp3Decoder<R>) -> Vec<i16> {
    let mut out = Vec::new();
    while let Some(s) = d.next_sample() {
        out.push(s);
    }
    out
}

#[test]
fn decoding_same_buffer_twice_is_identical() {
    let bytes = silent_mp3(24);
    let first = Mp3Decoder::new(Cursor::new(bytes.clone()), None).ok().expect("first decoder");
    let second = Mp3Decoder::new(Cursor::new(bytes), None).ok().expect("second decoder");
    let a = drain(first);
    let b = drain(second);
    assert!(!a.is_empty());
    assert_eq!(a.len() % 1152, 0);
    assert_eq!(a, b);
}

#[test]
fn decoder_reports_frame_format() {
    let d = Mp3Decoder::new(Cursor::new(silent_mp3(12)), None).ok().expect("decoder");
    assert_eq!(d.channels(), 2);
    assert_eq!(d.sample_rate(), 44100);
    assert_eq!(d.current_frame_len(), 2304);
}

#[test]
fn bad_input_fails_without_panic() {
    let garbage: Vec<u8> = (0..4096u32).map(|i| (i * 7 % 13) as u8).collect();
    match Mp3Decoder::new(Cursor::new(garbage), None) {
        Ok(_) => panic!("garbage decoded"),
        Err(reader) => assert_eq!(reader.get_ref().len(), 4096),
    }
    assert!(Mp3Decoder::new(Cursor::new(Vec::new()), None).is_err());
}

#[test]
fn exhausted_decoder_stays_exhausted() {
    let mut d = Mp3Decoder::new(Cursor::new(silent_mp3(12)), None).ok().expect("decoder");
    while d.next_sample().is_some() {}
    assert_eq!(d.next_sample(), None);
    assert_eq!(d.next_sample(), None);
}

#[test]
fn observer_receives_each_new_frame() {
    let (tx, rx) = mpsc::channel();
    let d = Mp3Decoder::new(Cursor::new(silent_mp3(16)), Some(tx)).ok().expect("decoder");
    let samples = drain(d);
    let frames: Vec<_> = rx.try_iter().collect();
    assert!(!frames.is_empty());
    assert_eq!(samples.len(), (frames.len() + 1) * 2304);
    assert!(frames.iter().all(|f| f.channels == 2 && f.data.len() == 2304));
}

#[test]
fn dropped_observer_does_not_end_decoding() {
    let (tx, rx) = mpsc::channel();
    drop(rx);
    let tapped = drain(Mp3Decoder::new(Cursor::new(silent_mp3(16)), Some(tx)).ok().expect("tapped"));
    let plain = drain(Mp3Decoder::new(Cursor::new(silent_mp3(16)), None).ok().expect("plain"));
    assert_eq!(tapped, plain);
}
