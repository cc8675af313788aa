use smplr::buffer::SmartBuffer;
use smplr::config::{CcBinding, MidiMap, TrackType};
use smplr::control::{ControlHub, ControlMessage, SlicerMessage, SmoothParam, SyncMessage, UNIT};
use smplr::frame::Frame;
use smplr::midi::{map_cc, midi_sync_cb, MidiTime};
use smplr::mixer::AudioMixer;
use smplr::osc::{route_osc, OscAction, OscAddress, OscArg};
use smplr::positions::PositionsMode;
use smplr::library::SampleLib;
use smplr::repitch::RePitchGen;
use smplr::pvoc::PvocSched;
use smplr::seq::{SliceSeq, TransformType};
use smplr::slice::Slice;
use smplr::slicemap::SliceMap;
use smplr::slicer::SlicerGen;
use smplr::track::{BlockFrame, Generator};

fn frames_of(words: &[u32]) -> Vec<Frame> {
    words.iter().map(|w| Frame { left: *w, right: *w }).collect()
}

fn loaded_buffer(len: usize, mbpm: u64, beats: usize, onsets: &[usize]) -> SmartBuffer {
    let mut b = SmartBuffer::new_empty();
    let words: Vec<u32> = (0..len as u32).map(|i| i + 1).collect();
    b.load_analysed(
        String::from("test_phrase"),
        frames_of(&words),
        mbpm,
        beats,
        &onsets.to_vec(),
    );
    b
}

#[test]
fn buffer_positions_invariant() {
    // every table starts at 0, ends at the frame count, strictly rises
    let b = loaded_buffer(44_100, 120_000, 4, &[1_000, 9_000, 30_000]);
    assert!(b.check_loaded());
    for mode in [
        PositionsMode::OnsetMode,
        PositionsMode::QonsetMode,
        PositionsMode::Bar4Mode,
        PositionsMode::Bar8Mode,
        PositionsMode::Bar16Mode,
    ] {
        let t = b.positions(mode);
        assert!(t.len() >= 2);
        assert_eq!(t[0], 0);
        assert_eq!(*t.last().unwrap(), 44_100);
        for w in t.windows(2) {
            assert!(w[0] < w[1]);
        }
    }
}

#[test]
fn buffer_copy_is_observational_clone() {
    let a = loaded_buffer(2_048, 96_000, 4, &[100, 700]);
    let mut b = SmartBuffer::new_empty();
    b.copy_from(&a);
    assert_eq!(b.frames(), a.frames());
    assert_eq!(b.file_name().as_str(), a.file_name().as_str());
    assert_eq!(b.original_tempo(), a.original_tempo());
    assert_eq!(b.num_beats(), a.num_beats());
    for mode in [
        PositionsMode::OnsetMode,
        PositionsMode::QonsetMode,
        PositionsMode::Bar4Mode,
        PositionsMode::Bar8Mode,
        PositionsMode::Bar16Mode,
    ] {
        assert_eq!(b.positions(mode), a.positions(mode));
    }
}

#[test]
fn slice_bounds_and_consumption() {
    let mut s = Slice { id: 0, start: 2, end: 5, cursor: 0, reverse: false };
    assert_eq!(s.len(), 3);
    assert_eq!(s.remaining(), 3);
    assert!(!s.is_consumed());
    let frames = frames_of(&[10, 20, 30, 40, 50, 60]);
    // rate one: 120 BPM over a 120 BPM phrase
    let p0 = s.next_frame(&frames, 120, 120_000);
    assert_eq!(p0.frame, Frame { left: 30, right: 30 });
    // the envelope is evaluated at the pre-advance cursor
    assert_eq!(p0.env.t, 0);
    assert_eq!(p0.env.fade_in_len, 256);
    assert_eq!(p0.env.fade_out_len, 512);
    assert_eq!(p0.env.env_end, 3);
    let p1 = s.next_frame(&frames, 120, 120_000);
    assert_eq!(p1.frame, Frame { left: 40, right: 40 });
    let _ = s.next_frame(&frames, 120, 120_000);
    assert!(s.is_consumed());
    // a consumed slice yields silence
    let p3 = s.next_frame(&frames, 120, 120_000);
    assert_eq!(p3.frame, Frame::equilibrium());
}

#[test]
fn slicemap_insert_and_get() {
    let mut m = SliceMap::new();
    m.insert_copy(10, Slice { id: 1, start: 10, end: 20, cursor: 0, reverse: false });
    m.insert_copy(0, Slice { id: 0, start: 0, end: 10, cursor: 0, reverse: false });
    assert_eq!(m.len(), 2);
    assert_eq!(m.ord_keys().as_slice(), &[0, 10]);
    let s = m.get_by_copy(&10).unwrap();
    assert_eq!(s.id, 1);
    assert!(m.get_by_copy(&5).is_none());
}

#[test]
fn slicemap_swap_keeps_keys_and_slot_lengths() {
    // slots of lengths 10 and 90; the swap permutes contents only
    let mut orig = SliceMap::new();
    orig.insert_copy(0, Slice { id: 0, start: 0, end: 10, cursor: 0, reverse: false });
    orig.insert_copy(10, Slice { id: 1, start: 10, end: 100, cursor: 0, reverse: false });
    let mut playing = SliceMap::new();
    playing.copy_from(&orig);
    let perm = vec![10usize, 0];
    playing.swap_with_keys(&orig, &perm);
    assert_eq!(playing.ord_keys().as_slice(), &[0, 10]);
    let a = playing.get_by_copy(&0).unwrap();
    let b = playing.get_by_copy(&10).unwrap();
    // contents moved: slot 0 now carries slice 1, slot 10 carries slice 0
    assert_eq!(a.id, 1);
    assert_eq!(a.start, 10);
    assert_eq!(b.id, 0);
    assert_eq!(b.start, 0);
    // slot lengths stayed in place
    assert_eq!(a.end - a.start, 10);
    assert_eq!(b.end - b.start, 90);
}

#[test]
fn slicemap_rand_swap_preserves_lengths() {
    let mut orig = SliceMap::new();
    orig.insert_copy(0, Slice { id: 0, start: 0, end: 25, cursor: 0, reverse: false });
    orig.insert_copy(25, Slice { id: 1, start: 25, end: 60, cursor: 0, reverse: false });
    orig.insert_copy(60, Slice { id: 2, start: 60, end: 100, cursor: 0, reverse: false });
    let mut playing = SliceMap::new();
    playing.copy_from(&orig);
    playing.rand_swap(&orig);
    assert_eq!(playing.ord_keys().as_slice(), &[0, 25, 60]);
    let lens: Vec<usize> = [0usize, 25, 60]
        .iter()
        .map(|k| {
            let s = playing.get_by_copy(k).unwrap();
            s.end - s.start
        })
        .collect();
    assert_eq!(lens, vec![25, 35, 40]);
}

#[test]
fn slicemap_quant_repeat_grid() {
    let mut m = SliceMap::new();
    m.insert_copy(0, Slice { id: 7, start: 40, end: 100, cursor: 0, reverse: false });
    m.quant_repeat(25, 0, 100);
    assert_eq!(m.ord_keys().as_slice(), &[0, 25, 50, 75]);
    for (i, k) in [0usize, 25, 50, 75].iter().enumerate() {
        let s = m.get_by_copy(k).unwrap();
        assert_eq!(s.id, i);
        assert_eq!(s.start, 40);
        assert_eq!(s.end, 40 + 25 - 1);
    }
}

#[test]
fn control_hub_drops_past_capacity() {
    let mut hub = ControlHub::new();
    for i in 0..1024u64 {
        let ok = hub.push(ControlMessage::TrackNextSample { tcode: i, track_num: 0 });
        assert!(ok);
    }
    // the queue is full: the next offer is dropped, nothing panics
    let ok = hub.push(ControlMessage::TrackNextSample { tcode: 9_999, track_num: 0 });
    assert!(!ok);
    assert_eq!(hub.len(), 1024);
    // messages leave in arrival order
    match hub.pop().unwrap() {
        ControlMessage::TrackNextSample { tcode, .. } => assert_eq!(tcode, 0),
        _ => panic!("wrong message"),
    }
}

#[test]
fn smooth_param_ramps_linearly() {
    let mut p = SmoothParam::new(0, 0);
    p.new_value(UNIT);
    let reads: Vec<i64> = (0..6).map(|_| p.get_param(4)).collect();
    assert_eq!(reads, vec![0, 250_000, 500_000, 750_000, 1_000_000, 1_000_000]);
}

#[test]
fn remap_volume_and_pan() {
    let mut v = ControlMessage::TrackVolume { tcode: 0, val: UNIT, track_num: 0 };
    v.remap_from_midi();
    assert_eq!(v, ControlMessage::TrackVolume { tcode: 0, val: 1_200_000, track_num: 0 });
    let mut center = ControlMessage::TrackPan { tcode: 0, val: UNIT / 2, track_num: 0 };
    center.remap_from_midi();
    assert_eq!(center, ControlMessage::TrackPan { tcode: 0, val: 0, track_num: 0 });
    let mut left = ControlMessage::TrackPan { tcode: 0, val: 0, track_num: 0 };
    left.remap_from_midi();
    assert_eq!(left, ControlMessage::TrackPan { tcode: 0, val: -UNIT, track_num: 0 });
}

#[test]
fn midi_sync_decodes_status_bytes() {
    assert_eq!(midi_sync_cb(5, &[250]), Some(SyncMessage::Start));
    // a song-position change is not a transport start
    assert_eq!(midi_sync_cb(5, &[242]), None);
    assert_eq!(midi_sync_cb(5, &[252]), Some(SyncMessage::Stop));
    assert_eq!(midi_sync_cb(5, &[248]), Some(SyncMessage::Tick(5)));
    assert_eq!(midi_sync_cb(5, &[128]), None);
}

#[test]
fn midi_time_derives_tempo() {
    let mut t = MidiTime::new();
    t.tick(1_000);
    // 20833 microseconds per tick at 24 pulses per quarter: 120 BPM
    t.tick(1_000 + 20_833);
    assert_eq!(t.tempo, 120);
    assert_eq!(t.ticks, 2);
    t.restart();
    assert_eq!(t.ticks, 0);
    assert_eq!(t.last_timecode, 0);
}

#[test]
fn cc_binding_builds_messages() {
    let map = MidiMap {
        cc: vec![CcBinding {
            channel: 0,
            cc_num: 7,
            template: ControlMessage::TrackVolume { tcode: 0, val: 0, track_num: 2 },
        }],
    };
    let m = map_cc(&map, 0, 7, 127, 42).unwrap();
    // 127/128 of a unit, stretched by 1.2
    let raw = 127i64 * UNIT / 128;
    assert_eq!(
        m,
        ControlMessage::TrackVolume { tcode: 42, val: raw * 6 / 5, track_num: 2 }
    );
    assert_eq!(map_cc(&map, 1, 7, 64, 0), None);
}

#[test]
fn osc_routing() {
    let ping = route_osc(OscAddress::Ping, &vec![OscArg::Int(17)]);
    assert_eq!(ping, OscAction::ReplyPing(17));
    let vol = route_osc(
        OscAddress::TrackVolume,
        &vec![OscArg::Int(1), OscArg::Micro(500_000)],
    );
    assert_eq!(
        vol,
        OscAction::Emit(ControlMessage::TrackVolume { tcode: 0, val: 500_000, track_num: 1 })
    );
    assert_eq!(route_osc(OscAddress::Ping, &vec![]), OscAction::Ignore);
    assert_eq!(route_osc(OscAddress::GetConfig, &vec![]), OscAction::SendConfig);
}

#[test]
fn repitch_unit_rate_pulls_one_frame_per_output() {
    let mut g = RePitchGen::new();
    let b = loaded_buffer(44_100, 120_000, 4, &[]);
    g.load_buffer(&b);
    g.play();
    // the first step starts at phase zero and pulls nothing
    let s0 = g.next();
    assert_eq!(s0.pulls.len(), 0);
    assert_eq!(s0.frac_num, 0);
    // at unit rate every further step pulls exactly one source frame
    for _ in 0..8 {
        let s = g.next();
        assert_eq!(s.pulls.len(), 1);
        assert_eq!(s.frac_num, 0);
        assert_eq!(s.frac_den, 120_000);
    }
}

#[test]
fn repitch_half_rate_doubles_output_length() {
    let mut g = RePitchGen::new();
    let b = loaded_buffer(44_100, 120_000, 4, &[]);
    g.load_buffer(&b);
    g.sync(60, 0);
    g.play();
    let mut pulled = 0usize;
    let n = 16;
    for _ in 0..n {
        pulled += g.next().pulls.len();
    }
    // half-speed playback consumes half a source frame per output frame;
    // the phase starts at zero, so the first output frame pulls nothing
    assert_eq!(pulled, (n - 1) / 2);
}

#[test]
fn pvoc_schedule_halves_duration_at_double_rate() {
    let mut s = PvocSched::new();
    // warm-up hop
    assert_eq!(s.hop(240, 120_000), 0);
    // at rate two, one synthesis frame falls on every second hop
    let mut emitted = 0u64;
    for _ in 0..16 {
        emitted += s.hop(240, 120_000);
    }
    assert_eq!(emitted, 8);
    // at unit rate the schedule keeps pace with the hops
    let mut s1 = PvocSched::new();
    let _ = s1.hop(120, 120_000);
    let mut emitted1 = 0u64;
    for _ in 0..16 {
        emitted1 += s1.hop(120, 120_000);
    }
    assert_eq!(emitted1, 16);
}

#[test]
fn sequencer_plays_frames_in_order_at_unit_rate() {
    let mut seq = SliceSeq::new(PositionsMode::Bar4Mode);
    let b = loaded_buffer(88_200, 120_000, 4, &[]);
    seq.load_buffer(&b);
    // at 120 over 120 the local clock walks one frame per emission
    let o1 = seq.next_frame();
    let f1 = o1.new.unwrap();
    assert_eq!(f1.frame, Frame { left: 1, right: 1 });
    let o2 = seq.next_frame();
    assert_eq!(o2.new.unwrap().frame, Frame { left: 2, right: 2 });
    assert!(o1.old.is_none());
}

#[test]
fn sequencer_transform_primes_crossfade() {
    let mut seq = SliceSeq::new(PositionsMode::Bar4Mode);
    let b = loaded_buffer(88_200, 120_000, 4, &[]);
    seq.load_buffer(&b);
    seq.push_transform(Some(TransformType::Reset));
    // applying the transform fills the crossfade queue; the next frames
    // drain it alongside the new stream
    let o = seq.next_frame();
    assert!(o.new.is_some());
    let cf = o.old.expect("crossfade frame");
    assert_eq!(cf.t, 0);
    let o2 = seq.next_frame();
    assert_eq!(o2.old.expect("still draining").t, 1);
}

#[test]
fn slicer_queues_repeat_with_captured_slice() {
    let mut g = SlicerGen::new();
    let b = loaded_buffer(88_200, 120_000, 4, &[11_025, 22_050, 44_100]);
    g.load_buffer(&b);
    g.play();
    g.push_control_message(ControlMessage::Slicer {
        tcode: 0,
        track_num: 0,
        message: SlicerMessage::Transform(TransformType::QuantRepeat {
            quant: 16,
            slice_index: 77,
        }),
    });
    // the repeat captured the currently playing slice, not the payload
    let out = g.next_block(4).unwrap();
    assert_eq!(out.len(), 4);
    assert!(out[0].new.is_some());
}

#[test]
fn sequencer_quant_repeat_rebuilds_grid() {
    let mut seq = SliceSeq::new(PositionsMode::Bar4Mode);
    let b = loaded_buffer(88_200, 120_000, 4, &[]);
    seq.load_buffer(&b);
    // a sixteenth of a bar at 120 BPM is 5512 samples, rounded down, so
    // one extra repeat starts just before the buffer end
    seq.push_transform(Some(TransformType::QuantRepeat { quant: 16, slice_index: 0 }));
    let _ = seq.next_frame();
    let playing = seq.playing_map();
    let step = 88_200 / 16;
    let expected: Vec<usize> = (0..17).map(|i| i * step).collect();
    assert_eq!(playing.ord_keys().as_slice(), expected.as_slice());
    for k in expected {
        let s = playing.get_by_copy(&k).unwrap();
        assert_eq!(s.start, 0);
        assert_eq!(s.end - s.start, step - 1);
    }
}

#[test]
fn sequencer_quant_repeat_repeats_content() {
    let mut seq = SliceSeq::new(PositionsMode::Bar4Mode);
    let b = loaded_buffer(88_200, 120_000, 4, &[]);
    seq.load_buffer(&b);
    seq.push_transform(Some(TransformType::QuantRepeat { quant: 16, slice_index: 0 }));
    // the transform lands on the first frame; the grid step is 5512
    let first = seq.next_frame().new.unwrap();
    assert_eq!(first.frame, Frame { left: 2, right: 2 });
    for _ in 0..5_510 {
        let _ = seq.next_frame();
    }
    // the clock crosses into the second grid cell: the captured slice
    // restarts from its head, repeating its content
    let restart = seq.next_frame().new.unwrap();
    assert_eq!(restart.frame, Frame { left: 1, right: 1 });
    let again = seq.next_frame().new.unwrap();
    assert_eq!(again.frame, Frame { left: 2, right: 2 });
}

#[test]
fn sequencer_rand_swap_keeps_boundaries() {
    let mut seq = SliceSeq::new(PositionsMode::OnsetMode);
    let b = loaded_buffer(88_200, 120_000, 4, &[22_050, 44_100, 66_150]);
    seq.load_buffer(&b);
    seq.push_transform(Some(TransformType::RandSwap));
    let _ = seq.next_frame();
    let playing = seq.playing_map();
    let orig = seq.orig_map();
    // the slot boundaries stand: same keys, the same length in each slot
    assert_eq!(playing.ord_keys().as_slice(), orig.ord_keys().as_slice());
    for k in playing.ord_keys().clone() {
        let p = playing.get_by_copy(&k).unwrap();
        let o = orig.get_by_copy(&k).unwrap();
        assert_eq!(p.end - p.start, o.end - o.start);
        // whatever content landed here came from some original slice
        assert!(orig.ord_keys().iter().any(|ok| {
            let os = orig.get_by_copy(ok).unwrap();
            os.id == p.id && os.start == p.start
        }));
    }
}

#[test]
fn silent_idle_mixer_block() {
    // no sample loaded: a repitch track plans a silent block and every
    // frame read out of it is equilibrium
    let lib = SampleLib::new();
    let types = vec![TrackType::RePitchGen { bank: 0 }];
    let mut mixer = AudioMixer::new(lib, &types);
    assert_eq!(mixer.get_tracks_number(), 1);
    mixer.next_block(128);
    for i in 0..128 {
        match mixer.tracks[0].get_frame(i) {
            BlockFrame::Silent => {},
            _ => panic!("an idle track must be silent"),
        }
    }
}

#[test]
fn mixer_dispatches_and_ignores_out_of_range() {
    let lib = SampleLib::new();
    let types = vec![TrackType::RePitchGen { bank: 0 }, TrackType::SlicerGen { bank: 1 }];
    let mut mixer = AudioMixer::new(lib, &types);
    mixer.apply_message(ControlMessage::TrackVolume { tcode: 0, val: 800_000, track_num: 1 });
    assert_eq!(mixer.tracks[1].volume.next_val, 800_000);
    assert_eq!(mixer.tracks[0].volume.next_val, UNIT);
    // an out-of-range track number changes nothing
    mixer.apply_message(ControlMessage::TrackVolume { tcode: 0, val: 100, track_num: 9 });
    assert_eq!(mixer.tracks[0].volume.next_val, UNIT);
    assert_eq!(mixer.tracks[1].volume.next_val, 800_000);
}

#[test]
fn mixer_transport_counts_ticks() {
    let lib = SampleLib::new();
    let types = vec![TrackType::PVOCGen { bank: 0 }];
    let mut mixer = AudioMixer::new(lib, &types);
    let time = MidiTime { tempo: 120, ticks: 0, last_timecode: 0 };
    mixer.apply_message(ControlMessage::Playback(smplr::control::PlaybackMessage {
        sync: SyncMessage::Tick(1),
        time,
    }));
    assert_eq!(mixer.clock_ticks, 1);
    mixer.apply_message(ControlMessage::Playback(smplr::control::PlaybackMessage {
        sync: SyncMessage::Stop,
        time,
    }));
    assert_eq!(mixer.clock_ticks, 0);
}

#[test]
fn library_lookup_and_wrap() {
    let mut lib = SampleLib::new();
    let a = loaded_buffer(1_024, 120_000, 4, &[]);
    let mut b = SmartBuffer::new_empty();
    b.load_analysed(
        String::from("other"),
        frames_of(&[1, 2, 3, 4]),
        96_000,
        1,
        &vec![],
    );
    lib.buffers.push(vec![a, b]);
    assert_eq!(lib.get_first_sample_name(0), "test_phrase");
    assert_eq!(lib.get_first_sample_name(3), "");
    assert_eq!(lib.get_sample_by_name(0, "other").file_name().as_str(), "other");
    // a miss falls back to the shared empty buffer
    assert_eq!(lib.get_sample_by_name(0, "nope").frames_len(), 0);
    // the sibling lookup wraps around the bank in both directions
    assert_eq!(lib.get_sibling_sample(0, "test_phrase", 1).file_name().as_str(), "other");
    assert_eq!(lib.get_sibling_sample(0, "test_phrase", -1).file_name().as_str(), "other");
    assert_eq!(lib.get_sibling_sample(0, "other", 1).file_name().as_str(), "test_phrase");
    assert_eq!(lib.get_sibling_sample(0, "test_phrase", 2).file_name().as_str(), "test_phrase");
}

#[test]
fn generator_enum_dispatch() {
    let mut g = Generator::Slicer(SlicerGen::new());
    g.play();
    assert!(matches!(g.next_block(8), smplr::track::BlockPlan::Silent));
}
