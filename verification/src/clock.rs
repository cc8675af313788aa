use vstd::prelude::*;

verus! {

/// Pulses per quarter note of the MIDI clock.
pub const PPQN: u64 = 24;

/// Every audio path runs at 44.1 kHz.
pub const SAMPLE_RATE: u64 = 44_100;

/// Tempos are carried in thousandths of a beat per minute, so that
/// fractional analysis results stay exact integers.
pub const MBPM_MIN: u64 = 1_000;

/// Upper tempo bound in milli-BPM; keeps one beat at least one sample long.
pub const MBPM_MAX: u64 = 2_000_000_000;

/// Upper bound on the global tempo (whole beats per minute) a clock sync
/// may carry; keeps the rate arithmetic inside 64 bits.
pub const GLOBAL_TEMPO_MAX: u64 = 4_000_000;

/// Upper bound on clock ticks accepted by the sample math.
pub const TICKS_MAX: u64 = 0xFFFF_FFFF;

/// Upper bound on frame counts fed to the rate scalers.
pub const SCALE_MAX: u64 = 0x1_0000_0000;

/// Samples per MIDI tick, scaled by 1000 to pair with milli-BPM tempos:
/// `SAMPLE_RATE * 60 * 1000 / PPQN`.
pub const TICK_SAMPLES_SCALED: u64 = 44_100 * 60 * 1000 / 24;

/// Samples per beat, scaled by 1000: `SAMPLE_RATE * 60 * 1000`.
pub const BEAT_SAMPLES_SCALED: u64 = 44_100 * 60 * 1000;

/// A tempo the engine's arithmetic accepts.
pub open spec fn tempo_wf(mbpm: u64) -> bool {
    MBPM_MIN <= mbpm <= MBPM_MAX
}

/// Whole samples elapsed after `ticks` clock ticks at original tempo
/// `mbpm`: `floor(ticks * 110_250_000 / mbpm)`.
pub open spec fn spec_tick_samples(ticks: int, mbpm: int) -> int {
    ticks * (TICK_SAMPLES_SCALED as int) / mbpm
}

/// Whole samples in one beat at tempo `mbpm`.
pub open spec fn spec_beat_samples(mbpm: int) -> int {
    (BEAT_SAMPLES_SCALED as int) / mbpm
}

/// `floor(x * tempo * 1000 / mbpm)`: a frame count scaled by the playback
/// rate `tempo / (mbpm/1000)`.
pub open spec fn spec_scale_by_rate(x: int, tempo: int, mbpm: int) -> int {
    x * tempo * 1000 / mbpm
}

/// `floor(x * mbpm / (tempo * 1000))`: a frame count divided by the
/// playback rate.
pub open spec fn spec_div_by_rate(x: int, tempo: int, mbpm: int) -> int {
    x * mbpm / (tempo * 1000)
}

/// The playback rate `tempo / (mbpm/1000)` is at least one.
pub open spec fn spec_rate_ge_one(tempo: int, mbpm: int) -> bool {
    tempo * 1000 >= mbpm
}

/// Clock position in samples after `ticks` ticks of the synchronized
/// transport, at the buffer's original tempo.
pub fn ticks_to_samples(ticks: u64, mbpm: u64) -> (r: u64)
    requires
        ticks <= TICKS_MAX,
        mbpm >= MBPM_MIN,
    ensures
        r == spec_tick_samples(ticks as int, mbpm as int),
{
    proof {
        assert(ticks as int * (TICK_SAMPLES_SCALED as int) <= TICKS_MAX as int * (
        TICK_SAMPLES_SCALED as int)) by (nonlinear_arith)
            requires ticks <= TICKS_MAX;
    }
    let wide: u128 = (ticks as u128) * (TICK_SAMPLES_SCALED as u128);
    let q: u128 = wide / (mbpm as u128);
    proof {
        assert(wide as int / (mbpm as int) <= wide as int) by (nonlinear_arith)
            requires mbpm >= 1 && wide >= 0;
    }
    q as u64
}

/// Whole samples in one beat at original tempo `mbpm`.
pub fn beat_samples(mbpm: u64) -> (r: u64)
    requires
        tempo_wf(mbpm),
    ensures
        r == spec_beat_samples(mbpm as int),
        1 <= r <= BEAT_SAMPLES_SCALED,
{
    proof {
        assert((BEAT_SAMPLES_SCALED as int) / (mbpm as int) >= 1) by (nonlinear_arith)
            requires 1 <= mbpm <= MBPM_MAX && MBPM_MAX <= BEAT_SAMPLES_SCALED;
        assert((BEAT_SAMPLES_SCALED as int) / (mbpm as int) <= BEAT_SAMPLES_SCALED)
            by (nonlinear_arith)
            requires mbpm >= 1;
    }
    BEAT_SAMPLES_SCALED / mbpm
}

/// Samples per bar at the original tempo: four beats of four quarters.
pub fn bar_samples(mbpm: u64) -> (r: u64)
    requires
        tempo_wf(mbpm),
    ensures
        r == 4 * spec_beat_samples(mbpm as int),
{
    4 * beat_samples(mbpm)
}

/// A frame lies on a beat boundary when its index is an exact multiple of
/// the per-beat sample count.
pub fn is_beat_frame(frame_index: u64, mbpm: u64) -> (r: bool)
    requires
        tempo_wf(mbpm),
    ensures
        r == (frame_index as int % spec_beat_samples(mbpm as int) == 0),
{
    let bs = beat_samples(mbpm);
    frame_index % bs == 0
}

/// Whether the playback rate `tempo / (mbpm/1000)` is one or faster.
pub fn rate_ge_one(tempo: u64, mbpm: u64) -> (r: bool)
    requires
        tempo <= GLOBAL_TEMPO_MAX,
    ensures
        r == spec_rate_ge_one(tempo as int, mbpm as int),
{
    tempo * 1000 >= mbpm
}

/// Scales a frame count by the playback rate, rounding down.
pub fn scale_by_rate(x: u64, tempo: u64, mbpm: u64) -> (r: u64)
    requires
        x <= SCALE_MAX,
        tempo <= GLOBAL_TEMPO_MAX,
        mbpm >= MBPM_MIN,
    ensures
        r == spec_scale_by_rate(x as int, tempo as int, mbpm as int),
{
    proof {
        assert(x as int * (tempo as int) <= SCALE_MAX as int * (GLOBAL_TEMPO_MAX as int)
            && x as int * (tempo as int) * 1000 <= SCALE_MAX as int * (GLOBAL_TEMPO_MAX as int)
            * 1000) by (nonlinear_arith)
            requires x <= SCALE_MAX && tempo <= GLOBAL_TEMPO_MAX;
    }
    let wide: u128 = (x as u128) * (tempo as u128) * 1000;
    let q: u128 = wide / (mbpm as u128);
    proof {
        assert(wide as int / (mbpm as int) <= wide as int / (MBPM_MIN as int)) by (nonlinear_arith)
            requires mbpm >= MBPM_MIN && MBPM_MIN >= 1 && wide >= 0;
        assert(wide as int / (MBPM_MIN as int) <= (SCALE_MAX as int * (GLOBAL_TEMPO_MAX as int)
            * 1000) / (MBPM_MIN as int)) by (nonlinear_arith)
            requires wide as int <= SCALE_MAX as int * (GLOBAL_TEMPO_MAX as int) * 1000
                && MBPM_MIN >= 1;
        assert((SCALE_MAX as int * (GLOBAL_TEMPO_MAX as int) * 1000) / (MBPM_MIN as int)
            < 0x1_0000_0000_0000_0000) by (nonlinear_arith);
    }
    q as u64
}

/// Divides a frame count by the playback rate, rounding down. With a rate
/// of one or more the result never exceeds the input.
pub fn div_by_rate(x: u64, tempo: u64, mbpm: u64) -> (r: u64)
    requires
        x <= SCALE_MAX,
        1 <= tempo <= GLOBAL_TEMPO_MAX,
        mbpm <= MBPM_MAX,
    ensures
        r == spec_div_by_rate(x as int, tempo as int, mbpm as int),
        spec_rate_ge_one(tempo as int, mbpm as int) ==> r <= x,
{
    proof {
        assert(x as int * (mbpm as int) <= SCALE_MAX as int * (MBPM_MAX as int))
            by (nonlinear_arith)
            requires x <= SCALE_MAX && mbpm <= MBPM_MAX;
    }
    let wide: u128 = (x as u128) * (mbpm as u128);
    let q: u128 = wide / ((tempo as u128) * 1000);
    proof {
        assert(wide as int / ((tempo as int) * 1000) <= wide as int) by (nonlinear_arith)
            requires tempo >= 1 && wide >= 0;
        assert(wide as int <= SCALE_MAX as int * (MBPM_MAX as int));
        assert(SCALE_MAX as int * (MBPM_MAX as int) < 0x1_0000_0000_0000_0000_0000_0000)
            by (nonlinear_arith);
        assert(wide as int / ((tempo as int) * 1000) == spec_div_by_rate(x as int, tempo as int,
        mbpm as int));
        if tempo as int * 1000 >= mbpm as int {
            assert(x as int * (mbpm as int) / ((tempo as int) * 1000) <= x) by (nonlinear_arith)
                requires tempo as int * 1000 >= mbpm as int && mbpm >= 0 && x >= 0 && tempo >= 1;
        }
        assert(wide as int / ((tempo as int) * 1000) <= SCALE_MAX as int * (MBPM_MAX as int)
            / 1000) by (nonlinear_arith)
            requires tempo >= 1 && 0 <= wide as int <= SCALE_MAX as int * (MBPM_MAX as int);
        assert(SCALE_MAX as int * (MBPM_MAX as int) / 1000 < 0x1_0000_0000_0000_0000)
            by (nonlinear_arith);
    }
    q as u64
}

} // verus!
