use vstd::prelude::*;

use vstd::string::StringSliceAdditionalSpecFns;

use crate::buffer::NUM_BEATS_MAX;
use crate::clock::{MBPM_MAX, MBPM_MIN};

verus! {

/// An ASCII decimal digit.
pub open spec fn is_digit(b: u8) -> bool {
    48 <= b <= 57
}

/// The bytes `bpm` start at `i`.
pub open spec fn is_bpm_at(s: Seq<u8>, i: int) -> bool {
    &&& i + 3 <= s.len()
    &&& s[i] == 98
    &&& s[i + 1] == 112
    &&& s[i + 2] == 109
}

/// The bytes `beats` start at `i`.
pub open spec fn is_beats_at(s: Seq<u8>, i: int) -> bool {
    &&& i + 5 <= s.len()
    &&& s[i] == 98
    &&& s[i + 1] == 101
    &&& s[i + 2] == 97
    &&& s[i + 3] == 116
    &&& s[i + 4] == 115
}

/// Either unit word starts at `i`.
pub open spec fn is_unit_at(s: Seq<u8>, i: int) -> bool {
    is_bpm_at(s, i) || is_beats_at(s, i)
}

/// Three digits at `i` directly followed by a unit word.
pub open spec fn match3_at(s: Seq<u8>, i: int) -> bool {
    &&& 0 <= i
    &&& i + 3 <= s.len()
    &&& is_digit(s[i])
    &&& is_digit(s[i + 1])
    &&& is_digit(s[i + 2])
    &&& is_unit_at(s, i + 3)
}

/// Two digits at `i` directly followed by a unit word. Three digits and
/// two digits exclude each other at one position: the third byte is a
/// digit in one case and the letter of a unit in the other.
pub open spec fn match2_at(s: Seq<u8>, i: int) -> bool {
    &&& 0 <= i
    &&& i + 2 <= s.len()
    &&& is_digit(s[i])
    &&& is_digit(s[i + 1])
    &&& is_unit_at(s, i + 2)
}

/// A two-or-three digit number directly followed by `bpm` or `beats`
/// starts at `i`.
pub open spec fn match_at(s: Seq<u8>, i: int) -> bool {
    match3_at(s, i) || match2_at(s, i)
}

/// Value of the three digits at `i`.
pub open spec fn val3(s: Seq<u8>, i: int) -> int {
    (s[i] - 48) * 100 + (s[i + 1] - 48) * 10 + (s[i + 2] - 48)
}

/// Value of the two digits at `i`.
pub open spec fn val2(s: Seq<u8>, i: int) -> int {
    (s[i] - 48) * 10 + (s[i + 1] - 48)
}

/// Position of the leftmost tempo token at or after `i`, if any.
pub open spec fn spec_first_match_from(s: Seq<u8>, i: int) -> Option<int>
    decreases s.len() - i,
{
    if i < 0 || i + 2 > s.len() {
        None
    } else if match_at(s, i) {
        Some(i)
    } else {
        spec_first_match_from(s, i + 1)
    }
}

/// Position of the leftmost tempo token in `s`, if any.
pub open spec fn spec_first_match(s: Seq<u8>) -> Option<int> {
    spec_first_match_from(s, 0)
}

/// A found leftmost position really carries a token.
pub proof fn lemma_first_match_is_match(s: Seq<u8>, i: int)
    requires
        spec_first_match_from(s, i) is Some,
    ensures
        match_at(s, spec_first_match_from(s, i).unwrap()),
        spec_first_match_from(s, i).unwrap() >= i,
    decreases s.len() - i,
{
    if !(i < 0 || i + 2 > s.len()) && !match_at(s, i) {
        lemma_first_match_is_match(s, i + 1);
    }
}

/// One past the last occurrence of byte `b`, or 0 when `b` does not
/// occur.
pub open spec fn spec_after_last(s: Seq<u8>, b: u8) -> int
    decreases s.len(),
{
    if s.len() == 0 {
        0
    } else if s.last() == b {
        s.len() as int
    } else {
        spec_after_last(s.drop_last(), b)
    }
}

/// `spec_after_last` points just past the last occurrence: nothing at or
/// after it equals `b`, and the byte before it, if it exists, is `b`.
pub proof fn lemma_after_last(s: Seq<u8>, b: u8)
    ensures
        0 <= spec_after_last(s, b) <= s.len(),
        spec_after_last(s, b) > 0 ==> s[spec_after_last(s, b) - 1] == b,
        forall|j: int| spec_after_last(s, b) <= j < s.len() ==> s[j] != b,
    decreases s.len(),
{
    if s.len() > 0 && s.last() != b {
        lemma_after_last(s.drop_last(), b);
        assert forall|j: int| spec_after_last(s, b) <= j < s.len() implies s[j] != b by {
            if j < s.len() - 1 {
                assert(s.drop_last()[j] == s[j]);
            }
        }
    }
}

/// The stem of a path: the bytes after the last slash and, when a dot
/// follows at least one stem byte, before the last dot.
pub open spec fn spec_stem(s: Seq<u8>) -> Seq<u8> {
    let a = spec_after_last(s, 47);
    let e = spec_after_last(s, 46);
    let b = if e - 1 > a {
        e - 1
    } else {
        s.len() as int
    };
    s.subrange(a, b)
}

/// One past the last occurrence of `b`, or 0 when absent.
fn after_last(bytes: &[u8], b: u8) -> (r: usize)
    ensures
        r == spec_after_last(bytes@, b),
{
    proof {
        lemma_after_last(bytes@, b);
    }
    let mut i: usize = bytes.len();
    while i > 0
        invariant
            i <= bytes@.len(),
            spec_after_last(bytes@, b) <= i,
            forall|j: int| i <= j < bytes@.len() ==> bytes@[j] != b,
        decreases i,
    {
        proof {
            lemma_after_last(bytes@, b);
        }
        if bytes[i - 1] == b {
            return i;
        }
        i = i - 1;
    }
    0
}

/// Whether a unit word starts at `i`: 1 for `bpm`, 2 for `beats`, 0 for
/// neither.
fn unit_at(stem: &Vec<u8>, i: usize) -> (r: u8)
    requires
        i <= stem@.len(),
    ensures
        (r == 1) == is_bpm_at(stem@, i as int),
        (r == 2) == (is_beats_at(stem@, i as int) && !is_bpm_at(stem@, i as int)),
        (r == 0) == !is_unit_at(stem@, i as int),
{
    let len = stem.len();
    if len >= 3 && i <= len - 3 && stem[i] == 98 && stem[i + 1] == 112 && stem[i + 2] == 109 {
        1
    } else if len >= 5 && i <= len - 5 && stem[i] == 98 && stem[i + 1] == 101 && stem[i + 2] == 97
        && stem[i + 3] == 116 && stem[i + 4] == 115 {
        2
    } else {
        0
    }
}

/// An ASCII decimal digit.
fn digit(b: u8) -> (r: bool)
    ensures
        r == is_digit(b),
{
    48 <= b && b <= 57
}

/// Scans the stem for the leftmost two-or-three digit run directly
/// followed by `bpm` or `beats`; returns the number and whether the unit
/// was `bpm`.
fn scan_tempo_token(stem: &Vec<u8>) -> (r: Option<(usize, bool)>)
    ensures
        match r {
            Some((n, bpm)) => {
                &&& spec_first_match(stem@) is Some
                &&& ({
                    let i = spec_first_match(stem@).unwrap();
                    if match3_at(stem@, i) {
                        n == val3(stem@, i) && bpm == is_bpm_at(stem@, i + 3)
                    } else {
                        n == val2(stem@, i) && bpm == is_bpm_at(stem@, i + 2)
                    }
                })
            },
            None => spec_first_match(stem@) is None,
        },
{
    let len = stem.len();
    if len < 2 {
        return None;
    }
    let mut i: usize = 0;
    while i <= len - 2
        invariant
            len == stem@.len(),
            2 <= len,
            i <= len,
            spec_first_match(stem@) == spec_first_match_from(stem@, i as int),
        decreases len - i,
    {
        if digit(stem[i]) && digit(stem[i + 1]) {
            if len >= 3 && i <= len - 3 && digit(stem[i + 2]) && unit_at(stem, i + 3) != 0 {
                let n = (stem[i] - 48) as usize * 100 + (stem[i + 1] - 48) as usize * 10 + (stem[i
                    + 2] - 48) as usize;
                let bpm = unit_at(stem, i + 3) == 1;
                return Some((n, bpm));
            }
            if unit_at(stem, i + 2) != 0 {
                let n = (stem[i] - 48) as usize * 10 + (stem[i + 1] - 48) as usize;
                let bpm = unit_at(stem, i + 2) == 1;
                return Some((n, bpm));
            }
        }
        proof {
            assert(!match_at(stem@, i as int));
        }
        i = i + 1;
    }
    None
}

/// Parses the tempo token of a file path's stem, as written in names
/// like `phrase_120bpm.wav` or `loop_8beats.wav` (the number carries two
/// or three digits): the leftmost such token yields its number and unit.
/// Fails with `NoFileName` when nothing follows the last slash, with
/// `NoBeatNum` when the stem holds no token.
pub fn parse_filepath_beats(path: &str) -> (r: Result<(usize, String), &'static str>)
    ensures
        ({
            let bytes = path.spec_bytes();
            let stem = spec_stem(bytes);
            match r {
                Ok((n, unit)) => {
                    &&& spec_after_last(bytes, 47) < bytes.len()
                    &&& spec_first_match(stem) is Some
                    &&& ({
                        let i = spec_first_match(stem).unwrap();
                        let bpm = if match3_at(stem, i) {
                            is_bpm_at(stem, i + 3)
                        } else {
                            is_bpm_at(stem, i + 2)
                        };
                        &&& (if match3_at(stem, i) {
                            n == val3(stem, i)
                        } else {
                            n == val2(stem, i)
                        })
                        &&& (bpm ==> unit@ == "bpm"@)
                        &&& (!bpm ==> unit@ == "beats"@)
                    })
                },
                Err(e) => {
                    &&& (spec_after_last(bytes, 47) == bytes.len() ==> e@ == "NoFileName"@)
                    &&& (spec_after_last(bytes, 47) < bytes.len() ==> spec_first_match(stem)
                        is None && e@ == "NoBeatNum"@)
                },
            }
        }),
{
    let bytes = path.as_bytes();
    let a = after_last(bytes, 47);
    if a >= bytes.len() {
        return Err("NoFileName");
    }
    let e = after_last(bytes, 46);
    let b = if e >= 1 && e - 1 > a {
        e - 1
    } else {
        bytes.len()
    };
    let mut stem: Vec<u8> = Vec::new();
    let mut j: usize = a;
    proof {
        lemma_after_last(bytes@, 46);
        assert(stem@ =~= bytes@.subrange(a as int, a as int));
    }
    while j < b
        invariant
            a <= j <= b <= bytes@.len(),
            stem@ == bytes@.subrange(a as int, j as int),
        decreases b - j,
    {
        stem.push(bytes[j]);
        proof {
            assert(stem@ =~= bytes@.subrange(a as int, j + 1));
        }
        j = j + 1;
    }
    proof {
        assert(stem@ =~= spec_stem(bytes@));
    }
    match scan_tempo_token(&stem) {
        Some((n, bpm)) => {
            if bpm {
                Ok((n, "bpm".to_owned()))
            } else {
                Ok((n, "beats".to_owned()))
            }
        },
        None => Err("NoBeatNum"),
    }
}

/// A raw milli-BPM value clamped into the engine's working range.
pub open spec fn spec_clamp_mbpm(x: int) -> int {
    if x < MBPM_MIN {
        MBPM_MIN as int
    } else if x > MBPM_MAX {
        MBPM_MAX as int
    } else {
        x
    }
}

/// A derived beat count clamped into `[1, NUM_BEATS_MAX]`.
pub open spec fn spec_clamp_beats(x: int) -> int {
    if x < 1 {
        1
    } else if x > NUM_BEATS_MAX {
        NUM_BEATS_MAX as int
    } else {
        x
    }
}

/// Resolves the original tempo of a phrase from its file name and its
/// interleaved stereo sample count. A `beats` token gives
/// `tempo = 60 * 44100 * beats / frames`; a `bpm` token gives the number
/// itself, with the beat count derived from the duration. The tempo comes
/// out in milli-BPM and the beat count at least one, both clamped into
/// the engine's working range; `None` when the name holds no token or no
/// audio came with it.
pub fn read_original_tempo(path: &str, num_samples: usize) -> (r: Option<(u64, usize)>)
    ensures
        r is Some <==> (num_samples >= 2 && spec_after_last(path.spec_bytes(), 47)
            < path.spec_bytes().len() && spec_first_match(spec_stem(path.spec_bytes())) is Some),
        r is Some ==> ({
            let stem = spec_stem(path.spec_bytes());
            let i = spec_first_match(stem).unwrap();
            let n = if match3_at(stem, i) {
                val3(stem, i)
            } else {
                val2(stem, i)
            };
            let bpm = if match3_at(stem, i) {
                is_bpm_at(stem, i + 3)
            } else {
                is_bpm_at(stem, i + 2)
            };
            let frames = num_samples as int / 2;
            let (mbpm, beats) = r.unwrap();
            if bpm {
                mbpm == spec_clamp_mbpm(n * 1000) && beats == spec_clamp_beats(
                    frames * n / 2_646_000,
                )
            } else {
                mbpm == spec_clamp_mbpm(n * 2_646_000_000 / frames) && beats == spec_clamp_beats(n)
            }
        }),
{
    let frames = num_samples / 2;
    let (num, is_bpm) = match parse_filepath_beats(path) {
        Ok((n, unit)) => {
            let bpm_word: String = "bpm".to_owned();
            let flag = unit == bpm_word;
            proof {
                reveal_strlit("bpm");
                reveal_strlit("beats");
                assert("bpm"@.len() == 3);
                assert("beats"@.len() == 5);
            }
            (n, flag)
        },
        Err(_) => {
            return None;
        },
    };
    if frames < 1 {
        return None;
    }
    proof {
        let stem = spec_stem(path.spec_bytes());
        lemma_first_match_is_match(stem, 0);
        let i = spec_first_match(stem).unwrap();
        if match3_at(stem, i) {
            assert(0 <= val3(stem, i) <= 999);
        } else {
            assert(0 <= val2(stem, i) <= 99);
        }
        assert(num <= 999);
    }
    if is_bpm {
        // the number is the tempo; beats follow from the duration
        let mbpm = clamp_mbpm((num as u64) * 1000);
        proof {
            assert(frames as int * (num as int) <= frames as int * 999) by (nonlinear_arith)
                requires num <= 999 && frames >= 0;
        }
        let beats_wide: u128 = ((frames as u128) * (num as u128)) / 2_646_000;
        proof {
            assert(frames as int * (num as int) / 2_646_000 >= 0) by (nonlinear_arith)
                requires frames >= 0 && num >= 0;
        }
        let beats = if beats_wide > NUM_BEATS_MAX as u128 {
            NUM_BEATS_MAX
        } else if beats_wide < 1 {
            1
        } else {
            beats_wide as usize
        };
        Some((mbpm, beats))
    } else {
        // the number is the beat count; the tempo follows from the
        // duration: 60 * 44100 * beats / frames, in milli-BPM
        proof {
            assert((num as int) * 2_646_000_000 <= 999 * 2_646_000_000) by (nonlinear_arith)
                requires num <= 999;
        }
        let wide: u128 = (num as u128) * 2_646_000_000u128;
        let q: u128 = wide / (frames as u128);
        proof {
            assert(wide as int / (frames as int) <= wide as int) by (nonlinear_arith)
                requires frames >= 1 && wide >= 0;
        }
        let mbpm = clamp_mbpm(q as u64);
        let beats = clamp_beats(num as u64);
        Some((mbpm, beats))
    }
}

/// Clamps a raw milli-BPM value into the engine's working tempo range.
pub fn clamp_mbpm(raw: u64) -> (r: u64)
    ensures
        r == spec_clamp_mbpm(raw as int),
        MBPM_MIN <= r <= MBPM_MAX,
{
    if raw < MBPM_MIN {
        MBPM_MIN
    } else if raw > MBPM_MAX {
        MBPM_MAX
    } else {
        raw
    }
}

/// Clamps a derived beat count into `[1, NUM_BEATS_MAX]`.
pub fn clamp_beats(raw: u64) -> (r: usize)
    ensures
        r == spec_clamp_beats(raw as int),
        1 <= r <= NUM_BEATS_MAX,
{
    if raw < 1 {
        1
    } else if raw > NUM_BEATS_MAX as u64 {
        NUM_BEATS_MAX
    } else {
        raw as usize
    }
}

/// Applies the analyzer's octave heuristic to a detected tempo in
/// milli-BPM: a value under 80 BPM is doubled, one over 190 BPM halved,
/// and the result clamped into the engine's working range.
pub fn clamp_detected_tempo(raw: u64) -> (r: u64)
    requires
        raw <= MBPM_MAX,
    ensures
        ({
            let adjusted: int = if raw < 80_000 {
                2 * raw as int
            } else if raw > 190_000 {
                raw as int / 2
            } else {
                raw as int
            };
            r == spec_clamp_mbpm(adjusted)
        }),
        MBPM_MIN <= r <= MBPM_MAX,
{
    let adjusted = if raw < 80_000 {
        2 * raw
    } else if raw > 190_000 {
        raw / 2
    } else {
        raw
    };
    clamp_mbpm(adjusted)
}

} // verus!
