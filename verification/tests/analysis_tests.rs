use smplr::analysis::{clamp_detected_tempo, parse_filepath_beats, read_original_tempo};
use smplr::clock::{bar_samples, beat_samples, is_beat_frame, ticks_to_samples};
use smplr::positions::{quantize_pos, sanitize_onsets, slice_onsets};

#[test]
fn parse_bpm_token() {
    let r = parse_filepath_beats("samples/bank0/phrase_120bpm.wav").unwrap();
    assert_eq!(r, (120, String::from("bpm")));
}

#[test]
fn parse_beats_token() {
    let r = parse_filepath_beats("loop_16beats.wav").unwrap();
    assert_eq!(r, (16, String::from("beats")));
}

#[test]
fn parse_prefers_leftmost_three_digits() {
    // at the first position only two digits fit before the unit
    let r = parse_filepath_beats("take1234bpm.wav").unwrap();
    assert_eq!(r, (234, String::from("bpm")));
}

#[test]
fn parse_no_token() {
    assert_eq!(parse_filepath_beats("kick.wav"), Err("NoBeatNum"));
}

#[test]
fn parse_no_file_name() {
    assert_eq!(parse_filepath_beats("somedir/"), Err("NoFileName"));
    assert_eq!(parse_filepath_beats(""), Err("NoFileName"));
}

#[test]
fn parse_single_digit_is_no_token() {
    // the number needs at least two digits
    assert_eq!(parse_filepath_beats("loop_8beats.wav"), Err("NoBeatNum"));
}

#[test]
fn tempo_from_bpm_name() {
    // ten seconds of stereo audio at 44.1 kHz
    let r = read_original_tempo("phrase_120bpm.wav", 2 * 441_000).unwrap();
    assert_eq!(r.0, 120_000);
    assert_eq!(r.1, 20);
}

#[test]
fn tempo_from_beats_name() {
    // 441000 frames holding 16 beats: 96 beats per minute
    let r = read_original_tempo("phrase_16beats.wav", 2 * 441_000).unwrap();
    assert_eq!(r.0, 96_000);
    assert_eq!(r.1, 16);
}

#[test]
fn tempo_needs_audio() {
    assert_eq!(read_original_tempo("phrase_120bpm.wav", 0), None);
}

#[test]
fn detected_tempo_octave_heuristic() {
    assert_eq!(clamp_detected_tempo(70_000), 140_000);
    assert_eq!(clamp_detected_tempo(200_000), 100_000);
    assert_eq!(clamp_detected_tempo(120_000), 120_000);
}

#[test]
fn clock_samples_per_beat() {
    assert_eq!(beat_samples(120_000), 22_050);
    assert_eq!(bar_samples(120_000), 88_200);
    // one beat of clock ticks lands one beat of samples later
    assert_eq!(ticks_to_samples(24, 120_000), 22_050);
    assert!(is_beat_frame(44_100, 120_000));
    assert!(!is_beat_frame(44_101, 120_000));
}

#[test]
fn equal_divisions() {
    let t = slice_onsets(100, 4);
    assert_eq!(t, vec![0, 25, 50, 75, 100]);
}

#[test]
fn quantize_to_grid() {
    let d = vec![0usize, 12, 26];
    let q = quantize_pos(&d, 10);
    assert_eq!(q, vec![0, 10, 30]);
}

#[test]
fn sanitize_drops_junk() {
    // duplicates, regressions and out-of-range detections disappear,
    // the sentinels 0 and the length are added
    let raw = vec![5usize, 5, 3, 90, 400];
    let clean = sanitize_onsets(&raw, 100);
    assert_eq!(clean, vec![0, 5, 90, 100]);
}
