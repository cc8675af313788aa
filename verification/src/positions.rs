use vstd::prelude::*;

verus! {

/// How slice boundaries are chosen inside a loaded phrase: detected
/// onsets, detected onsets quantized to a grid, or fixed bar divisions.
#[derive(Debug, Clone, Copy, PartialEq, Eq, Structural)]
pub enum PositionsMode {
    /// Natural detected onsets.
    OnsetMode,
    /// Detected onsets quantized to a sixteenth-of-a-beat grid.
    QonsetMode,
    /// Four divisions per bar.
    Bar4Mode,
    /// Eight divisions per bar.
    Bar8Mode,
    /// Sixteen divisions per bar.
    Bar16Mode,
}

/// A well-formed positions table over a buffer of `len` frames: at least
/// two entries, starting at 0, ending at `len`, strictly increasing.
/// Adjacent pairs of entries delimit the slices of the buffer.
pub open spec fn positions_wf(s: Seq<usize>, len: nat) -> bool {
    &&& s.len() >= 2
    &&& s[0] == 0
    &&& s[s.len() - 1] == len
    &&& forall|i: int| 0 <= i < s.len() - 1 ==> #[trigger] s[i] < s[i + 1]
}

/// In a strictly increasing table every earlier entry is below every
/// later one, and every entry is at most the final one.
pub proof fn lemma_positions_sorted(s: Seq<usize>, len: nat)
    requires
        positions_wf(s, len),
    ensures
        forall|i: int, j: int| 0 <= i < j < s.len() ==> s[i] < s[j],
        forall|i: int| 0 <= i < s.len() ==> s[i] <= len,
    decreases s.len(),
{
    assert forall|i: int, j: int| 0 <= i < j < s.len() implies s[i] < s[j] by {
        lemma_increasing_chain(s, i, j);
    }
    assert forall|i: int| 0 <= i < s.len() implies s[i] <= len by {
        if i < s.len() - 1 {
            lemma_increasing_chain(s, i, s.len() - 1);
        }
    }
}

/// Chains adjacent strict increases from index `i` up to index `j`.
pub proof fn lemma_increasing_chain(s: Seq<usize>, i: int, j: int)
    requires
        forall|k: int| 0 <= k < s.len() - 1 ==> #[trigger] s[k] < s[k + 1],
        0 <= i < j < s.len(),
    ensures
        s[i] < s[j],
    decreases j - i,
{
    if i + 1 < j {
        lemma_increasing_chain(s, i + 1, j);
    }
}

/// The table of `divisor` equally spaced positions plus the terminal
/// index: `[0, step, 2*step, ..., (divisor-1)*step, len]` with
/// `step == len / divisor`. With `1 <= divisor <= len` the result is a
/// well-formed positions table.
pub fn slice_onsets(len: usize, divisor: usize) -> (r: Vec<usize>)
    requires
        1 <= divisor <= len,
    ensures
        r@.len() == divisor + 1,
        forall|i: int| 0 <= i < divisor ==> r@[i] == i * ((len / divisor) as int),
        r@[divisor as int] == len,
        positions_wf(r@, len as nat),
{
    let step: usize = len / divisor;
    let mut positions: Vec<usize> = Vec::new();
    let mut x: usize = 0;
    proof {
        assert(step >= 1) by (nonlinear_arith)
            requires 1 <= divisor <= len && step == len / divisor;
    }
    while x < divisor
        invariant
            x <= divisor,
            1 <= divisor <= len,
            step == len / divisor,
            step >= 1,
            positions@.len() == x,
            forall|i: int| 0 <= i < x ==> positions@[i] == i * (step as int),
        decreases divisor - x,
    {
        proof {
            assert(x * step <= (divisor - 1) * step) by (nonlinear_arith)
                requires x <= divisor - 1 && step >= 0;
            assert((divisor - 1) * step < len) by (nonlinear_arith)
                requires 1 <= divisor && step == len / divisor && 1 <= step;
        }
        positions.push(x * step);
        x = x + 1;
    }
    positions.push(len);
    proof {
        assert forall|i: int| 0 <= i < positions@.len() - 1 implies #[trigger] positions@[i]
            < positions@[i + 1] by {
            if i + 1 < divisor {
                assert(i * (step as int) + step == (i + 1) * (step as int)) by (nonlinear_arith);
            } else {
                assert((divisor - 1) * (step as int) < len) by (nonlinear_arith)
                    requires 1 <= divisor && step == len / divisor && 1 <= step <= len;
            }
        }
    }
    positions
}

/// The multiple of `m` nearest to `pos`, halves rounding up.
pub open spec fn nearest_multiple(pos: int, m: int) -> int {
    ((pos + m / 2) / m) * m
}

/// The nearest multiple is divisible by `m` and within half a grid step
/// of the original position.
pub proof fn lemma_nearest_multiple(pos: int, m: int)
    requires
        pos >= 0,
        m >= 1,
    ensures
        nearest_multiple(pos, m) % m == 0,
        nearest_multiple(pos, m) >= 0,
        -(m / 2) - (m % 2) <= nearest_multiple(pos, m) - pos <= m / 2,
{
    let q = (pos + m / 2) / m;
    vstd::arithmetic::div_mod::lemma_mod_multiples_basic(q, m);
    assert(q >= 0) by (nonlinear_arith)
        requires q == (pos + m / 2) / m && pos + m / 2 >= 0 && m >= 1;
    assert(q * m >= 0) by (nonlinear_arith)
        requires q >= 0 && m >= 1;
    assert(q * m <= pos + m / 2 && pos + m / 2 < q * m + m) by (nonlinear_arith)
        requires q == (pos + m / 2) / m && m >= 1;
    assert(m == 2 * (m / 2) + m % 2);
}

/// Rounds every position to the nearest multiple of `multiple`.
pub fn quantize_pos(d: &Vec<usize>, multiple: usize) -> (r: Vec<usize>)
    requires
        multiple >= 1,
        forall|i: int| 0 <= i < d@.len() ==> #[trigger] d@[i] + multiple <= usize::MAX,
    ensures
        r@.len() == d@.len(),
        forall|i: int| 0 <= i < d@.len() ==> r@[i] == nearest_multiple(d@[i] as int, multiple as int),
{
    let mut new_pos: Vec<usize> = Vec::new();
    let mut k: usize = 0;
    while k < d.len()
        invariant
            k <= d@.len(),
            multiple >= 1,
            forall|i: int| 0 <= i < d@.len() ==> #[trigger] d@[i] + multiple <= usize::MAX,
            new_pos@.len() == k,
            forall|i: int| 0 <= i < k ==> new_pos@[i] == nearest_multiple(d@[i] as int, multiple as int),
        decreases d@.len() - k,
    {
        let pos = d[k];
        proof {
            lemma_nearest_multiple(pos as int, multiple as int);
            assert(((pos + multiple / 2) as int / multiple as int) * multiple as int <= pos
                + multiple / 2) by (nonlinear_arith)
                requires multiple >= 1;
        }
        let q = ((pos + multiple / 2) / multiple) * multiple;
        new_pos.push(q);
        k = k + 1;
    }
    new_pos
}

/// The detections kept by the cleaner, scanning from index `i` with
/// `latest` the last kept position: a detection survives when it strictly
/// exceeds the latest kept one and lies strictly inside the buffer.
pub open spec fn spec_kept_from(raw: Seq<usize>, len: usize, latest: usize, i: int) -> Seq<usize>
    decreases raw.len() - i,
{
    if i < 0 || i >= raw.len() {
        Seq::empty()
    } else if raw[i] > latest && raw[i] < len {
        seq![raw[i]] + spec_kept_from(raw, len, raw[i], i + 1)
    } else {
        spec_kept_from(raw, len, latest, i + 1)
    }
}

/// The cleaned positions table of a detection list: the greedily kept
/// detections between the sentinels 0 and `len`.
pub open spec fn spec_sanitized(raw: Seq<usize>, len: usize) -> Seq<usize> {
    seq![0usize] + spec_kept_from(raw, len, 0, 0) + seq![len]
}

/// Every position snapped to the nearest multiple of `m`.
pub open spec fn spec_quantized(s: Seq<usize>, m: usize) -> Seq<usize> {
    s.map_values(|p: usize| nearest_multiple(p as int, m as int) as usize)
}

/// The equally spaced table of `divisor` slots over `len` frames:
/// `[0, step, ..., (divisor-1)*step, len]` with `step = len / divisor`.
pub open spec fn spec_division_table(len: usize, divisor: int) -> Seq<usize> {
    Seq::new(
        (divisor + 1) as nat,
        |i: int|
            if i < divisor {
                (i * (len as int / divisor)) as usize
            } else {
                len
            },
    )
}

/// Cleans a list of detected positions over a buffer of `len` frames:
/// keeps only detections that strictly exceed the latest kept one and lie
/// strictly inside the buffer, prepends 0 and appends `len`. Duplicate,
/// decreasing and out-of-range detections are dropped. The result is
/// always a well-formed positions table.
pub fn sanitize_onsets(raw: &Vec<usize>, len: usize) -> (r: Vec<usize>)
    requires
        len >= 1,
    ensures
        positions_wf(r@, len as nat),
        forall|i: int| 1 <= i < r@.len() - 1 ==> raw@.contains(#[trigger] r@[i]),
        r@ == spec_sanitized(raw@, len),
{
    let mut positions: Vec<usize> = Vec::new();
    positions.push(0);
    let mut latest: usize = 0;
    let mut k: usize = 0;
    proof {
        assert(positions@ =~= seq![0usize]);
    }
    while k < raw.len()
        invariant
            k <= raw@.len(),
            positions@.len() >= 1,
            positions@[0] == 0,
            positions@[positions@.len() - 1] == latest,
            latest < len,
            forall|i: int| 0 <= i < positions@.len() - 1 ==> #[trigger] positions@[i]
                < positions@[i + 1],
            forall|i: int| 1 <= i < positions@.len() ==> raw@.contains(#[trigger] positions@[i]),
            positions@ + spec_kept_from(raw@, len, latest, k as int) == seq![0usize]
                + spec_kept_from(raw@, len, 0, 0),
        decreases raw@.len() - k,
    {
        let detected = raw[k];
        if detected > latest && detected < len {
            proof {
                assert(spec_kept_from(raw@, len, latest, k as int) == seq![detected]
                    + spec_kept_from(raw@, len, detected, k + 1));
                assert(positions@.push(detected) + spec_kept_from(raw@, len, detected, k + 1)
                    =~= positions@ + spec_kept_from(raw@, len, latest, k as int));
            }
            positions.push(detected);
            latest = detected;
        } else {
            proof {
                assert(spec_kept_from(raw@, len, latest, k as int) == spec_kept_from(
                    raw@,
                    len,
                    latest,
                    k + 1,
                ));
            }
        }
        k = k + 1;
    }
    proof {
        assert(spec_kept_from(raw@, len, latest, k as int) =~= Seq::<usize>::empty());
        assert(positions@ =~= seq![0usize] + spec_kept_from(raw@, len, 0, 0));
        assert(positions@.push(len) =~= spec_sanitized(raw@, len));
    }
    positions.push(len);
    positions
}

} // verus!
