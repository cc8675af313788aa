use vstd::prelude::*;

use rand::seq::SliceRandom;

use crate::slice::{Slice, SLICE_LEN_MAX, SLICE_START_MAX};

verus! {

broadcast use vstd::seq_lib::group_to_multiset_ensures;

/// A mapping from buffer start index to `Slice`, kept as two parallel
/// vectors: the keys in strictly increasing order and, aligned with them,
/// the slice values. Lookups walk the key vector; transforms rebuild or
/// rewrite the value vector while the key order is preserved.
#[derive(Debug, Clone)]
pub struct SliceMap {
    keys: Vec<usize>,
    slices: Vec<Slice>,
}

impl SliceMap {
    /// The ordered key sequence.
    pub closed spec fn spec_keys(self) -> Seq<usize> {
        self.keys@
    }

    /// The slice values, aligned with `spec_keys`.
    pub closed spec fn spec_vals(self) -> Seq<Slice> {
        self.slices@
    }

    /// Map soundness: keys and values aligned, keys strictly increasing
    /// (hence unique), every stored slice well formed with a rested
    /// cursor.
    pub open spec fn sound(self) -> bool {
        &&& self.spec_keys().len() == self.spec_vals().len()
        &&& (forall|i: int|
            0 <= i < self.spec_keys().len() - 1 ==> #[trigger] self.spec_keys()[i]
                < self.spec_keys()[i + 1])
        &&& (forall|i: int|
            0 <= i < self.spec_vals().len() ==> (#[trigger] self.spec_vals()[i]).stored_wf())
    }

    /// The key is present.
    pub open spec fn spec_contains_key(self, k: usize) -> bool {
        self.spec_keys().contains(k)
    }

    /// Index of a present key.
    pub open spec fn key_index(self, k: usize) -> int {
        self.spec_keys().index_of(k)
    }

    /// The slice stored under a key, if any.
    pub open spec fn spec_get(self, k: usize) -> Option<Slice> {
        if self.spec_contains_key(k) {
            Some(self.spec_vals()[self.key_index(k)])
        } else {
            None
        }
    }

    /// Every stored slice lies inside a buffer of `len` frames.
    pub open spec fn fits(self, len: nat) -> bool {
        forall|i: int|
            0 <= i < self.spec_vals().len() ==> (#[trigger] self.spec_vals()[i]).fits(len)
    }

    /// In a sound map earlier keys are strictly below later ones.
    pub proof fn lemma_keys_sorted(self)
        requires
            self.sound(),
        ensures
            forall|i: int, j: int|
                0 <= i < j < self.spec_keys().len() ==> self.spec_keys()[i] < self.spec_keys()[j],
    {
        assert forall|i: int, j: int|
            0 <= i < j < self.spec_keys().len() implies self.spec_keys()[i]
            < self.spec_keys()[j] by {
            crate::positions::lemma_increasing_chain(self.spec_keys(), i, j);
        }
    }

    /// A present key has exactly one index, and `key_index` names it.
    pub proof fn lemma_key_index(self, k: usize)
        requires
            self.sound(),
            self.spec_contains_key(k),
        ensures
            0 <= self.key_index(k) < self.spec_keys().len(),
            self.spec_keys()[self.key_index(k)] == k,
            forall|i: int|
                0 <= i < self.spec_keys().len() && self.spec_keys()[i] == k ==> i == self.key_index(
                    k,
                ),
    {
        self.lemma_keys_sorted();
    }

    /// An empty map, with room grown on demand.
    pub fn new() -> (r: SliceMap)
        ensures
            r.sound(),
            r.spec_keys().len() == 0,
            r.spec_vals().len() == 0,
    {
        SliceMap { keys: Vec::new(), slices: Vec::new() }
    }

    /// Number of stored slices.
    pub fn len(&self) -> (r: usize)
        ensures
            r == self.spec_keys().len(),
    {
        self.keys.len()
    }

    /// Drops every entry; the allocation is kept.
    pub fn clear(&mut self)
        ensures
            final(self).sound(),
            final(self).spec_keys().len() == 0,
            final(self).spec_vals().len() == 0,
    {
        self.keys.clear();
        self.slices.clear();
    }

    /// The ordered keys.
    pub fn ord_keys(&self) -> (r: &Vec<usize>)
        ensures
            r@ == self.spec_keys(),
    {
        &self.keys
    }

    /// Key at a position of the order.
    pub fn key_at(&self, i: usize) -> (r: usize)
        requires
            i < self.spec_keys().len(),
        ensures
            r == self.spec_keys()[i as int],
    {
        self.keys[i]
    }

    /// Position of a key in the order, when present.
    fn find_key(&self, k: usize) -> (r: Option<usize>)
        requires
            self.sound(),
        ensures
            match r {
                Some(i) => self.spec_contains_key(k) && i == self.key_index(k),
                None => !self.spec_contains_key(k),
            },
    {
        let mut i: usize = 0;
        while i < self.keys.len()
            invariant
                self.sound(),
                i <= self.spec_keys().len(),
                forall|j: int| 0 <= j < i ==> self.spec_keys()[j] != k,
            decreases self.spec_keys().len() - i,
        {
            if self.keys[i] == k {
                proof {
                    self.lemma_key_index(k);
                }
                return Some(i);
            }
            i = i + 1;
        }
        None
    }

    /// Borrows the slice stored under a key.
    pub fn get_by_ref(&self, idx: &usize) -> (r: Option<&Slice>)
        requires
            self.sound(),
        ensures
            match r {
                Some(s) => self.spec_get(*idx) == Some(*s),
                None => self.spec_get(*idx) is None,
            },
    {
        match self.find_key(*idx) {
            Some(i) => Some(&self.slices[i]),
            None => None,
        }
    }

    /// Copies the slice stored under a key.
    pub fn get_by_copy(&self, idx: &usize) -> (r: Option<Slice>)
        requires
            self.sound(),
        ensures
            r == self.spec_get(*idx),
    {
        match self.find_key(*idx) {
            Some(i) => Some(self.slices[i]),
            None => None,
        }
    }

    /// Inserts a copy of the slice under a fresh key, keeping the keys
    /// sorted. Inserting past every present key appends.
    #[verifier::rlimit(100)]
    #[verifier::spinoff_prover]
    pub fn insert_copy(&mut self, k: usize, v: Slice)
        requires
            old(self).sound(),
            !old(self).spec_contains_key(k),
            v.stored_wf(),
        ensures
            final(self).sound(),
            final(self).spec_keys().len() == old(self).spec_keys().len() + 1,
            final(self).spec_contains_key(k),
            final(self).spec_get(k) == Some(v),
            forall|k2: usize|
                k2 != k ==> #[trigger] final(self).spec_get(k2) == old(self).spec_get(k2),
            (forall|i: int|
                0 <= i < old(self).spec_keys().len() ==> #[trigger] old(self).spec_keys()[i] < k)
                ==> (final(self).spec_keys() == old(self).spec_keys().push(k)
                && final(self).spec_vals() == old(self).spec_vals().push(v)),
    {
        proof {
            old(self).lemma_keys_sorted();
        }
        let ghost old_keys = self.keys@;
        let ghost old_vals = self.slices@;
        let mut pos: usize = 0;
        while pos < self.keys.len() && self.keys[pos] < k
            invariant
                self.keys@ == old_keys,
                self.slices@ == old_vals,
                pos <= old_keys.len(),
                forall|j: int| 0 <= j < pos ==> #[trigger] old_keys[j] < k,
            decreases old_keys.len() - pos,
        {
            pos = pos + 1;
        }
        proof {
            assert(pos == old_keys.len() || old_keys[pos as int] >= k);
        }
        self.keys.insert(pos, k);
        self.slices.insert(pos, v);
        proof {
            let p = pos as int;
            let new_keys = self.keys@;
            old_keys.insert_ensures(p, k);
            old_vals.insert_ensures(p, v);
            assert forall|i: int|
                0 <= i < new_keys.len() - 1 implies #[trigger] new_keys[i] < new_keys[i + 1] by {
                if i + 1 < p {
                    assert(new_keys[i] == old_keys[i] && new_keys[i + 1] == old_keys[i + 1]);
                } else if i + 1 == p {
                    assert(new_keys[i] == old_keys[i] && new_keys[i + 1] == k);
                } else if i == p {
                    assert(new_keys[i] == k);
                    assert(new_keys[i + 1] == old_keys[i]);
                    assert(old_keys.contains(old_keys[i]));
                    assert(!(old_keys[i] < k) && old_keys[i] != k);
                } else {
                    assert(new_keys[i] == old_keys[i - 1] && new_keys[i + 1] == old_keys[i]);
                }
            }
            assert(new_keys[p] == k);
            assert(self.spec_contains_key(k));
            self.lemma_key_index(k);
            assert(self.spec_get(k) == Some(v));
            assert forall|k2: usize|
                k2 != k implies #[trigger] self.spec_get(k2) == old(self).spec_get(k2) by {
                if old(self).spec_contains_key(k2) {
                    old(self).lemma_key_index(k2);
                    let i = old(self).key_index(k2);
                    let ni: int = if i < p {
                        i
                    } else {
                        i + 1
                    };
                    assert(new_keys[ni] == k2);
                    assert(self.spec_contains_key(k2));
                    self.lemma_key_index(k2);
                    assert(self.key_index(k2) == ni);
                    assert(self.spec_vals()[ni] == old_vals[i]);
                } else {
                    if self.spec_contains_key(k2) {
                        self.lemma_key_index(k2);
                        let ni = self.key_index(k2);
                        if ni < p {
                            assert(old_keys[ni] == k2);
                            assert(old_keys.contains(k2));
                        } else if ni == p {
                            assert(new_keys[ni] == k);
                        } else {
                            assert(old_keys[ni - 1] == k2);
                            assert(old_keys.contains(k2));
                        }
                        assert(false);
                    }
                }
            }
            if forall|i: int|
                0 <= i < old_keys.len() ==> #[trigger] old_keys[i] < k {
                assert(p == old_keys.len());
                assert(new_keys =~= old_keys.push(k));
                assert(self.spec_vals() =~= old_vals.push(v));
            }
        }
    }

    /// Whether every key of this map is also a key of the other.
    pub fn keys_subset_of(&self, other: &SliceMap) -> (r: bool)
        requires
            self.sound(),
            other.sound(),
        ensures
            r == forall|i: int|
                0 <= i < self.spec_keys().len() ==> other.spec_contains_key(
                    #[trigger] self.spec_keys()[i],
                ),
    {
        let mut i: usize = 0;
        while i < self.keys.len()
            invariant
                self.sound(),
                other.sound(),
                i <= self.spec_keys().len(),
                forall|j: int|
                    0 <= j < i ==> other.spec_contains_key(#[trigger] self.spec_keys()[j]),
            decreases self.spec_keys().len() - i,
        {
            if other.get_by_ref(&self.keys[i]).is_none() {
                return false;
            }
            i = i + 1;
        }
        true
    }

    /// Replaces this map with a copy of another, reusing the allocation.
    pub fn copy_from(&mut self, other: &SliceMap)
        requires
            other.sound(),
        ensures
            final(self).sound(),
            final(self).spec_keys() == other.spec_keys(),
            final(self).spec_vals() == other.spec_vals(),
    {
        self.keys.clear();
        self.slices.clear();
        let mut i: usize = 0;
        while i < other.keys.len()
            invariant
                other.sound(),
                i <= other.spec_keys().len(),
                self.keys@ == other.spec_keys().subrange(0, i as int),
                self.slices@ == other.spec_vals().subrange(0, i as int),
            decreases other.spec_keys().len() - i,
        {
            self.keys.push(other.keys[i]);
            self.slices.push(other.slices[i]);
            proof {
                assert(self.keys@ =~= other.spec_keys().subrange(0, i + 1));
                assert(self.slices@ =~= other.spec_vals().subrange(0, i + 1));
            }
            i = i + 1;
        }
        proof {
            assert(self.keys@ =~= other.spec_keys());
            assert(self.slices@ =~= other.spec_vals());
        }
    }

    /// Rewrites the slice values in key order: the slot at position `i`
    /// receives a copy of the `prev` value stored under `shifted[i]`, its
    /// end moved so that the slot keeps the length it had before. The key
    /// order and the slot lengths are untouched; only contents move.
    pub fn swap_with_keys(&mut self, prev: &SliceMap, shifted: &Vec<usize>)
        requires
            old(self).sound(),
            prev.sound(),
            shifted@.len() == old(self).spec_keys().len(),
            forall|i: int|
                0 <= i < shifted@.len() ==> prev.spec_contains_key(#[trigger] shifted@[i]),
        ensures
            final(self).sound(),
            final(self).spec_keys() == old(self).spec_keys(),
            final(self).spec_vals().len() == old(self).spec_vals().len(),
            forall|i: int|
                0 <= i < final(self).spec_vals().len() ==> {
                    let src = prev.spec_get(shifted@[i]).unwrap();
                    let dst = #[trigger] final(self).spec_vals()[i];
                    &&& dst.id == src.id
                    &&& dst.start == src.start
                    &&& dst.reverse == src.reverse
                    &&& dst.cursor == 0
                    &&& dst.spec_len() == old(self).spec_vals()[i].spec_len()
                },
    {
        let ghost old_vals = self.slices@;
        let mut idx: usize = 0;
        while idx < shifted.len()
            invariant
                prev.sound(),
                shifted@.len() == self.slices@.len(),
                self.keys@ == old(self).spec_keys(),
                self.slices@.len() == old_vals.len(),
                old(self).sound(),
                old_vals == old(self).spec_vals(),
                idx <= shifted@.len(),
                forall|i: int|
                    0 <= i < shifted@.len() ==> prev.spec_contains_key(#[trigger] shifted@[i]),
                forall|i: int| idx <= i < old_vals.len() ==> self.slices@[i] == old_vals[i],
                forall|i: int|
                    0 <= i < idx ==> {
                        let src = prev.spec_get(shifted@[i]).unwrap();
                        let dst = #[trigger] self.slices@[i];
                        &&& dst.id == src.id
                        &&& dst.start == src.start
                        &&& dst.reverse == src.reverse
                        &&& dst.cursor == 0
                        &&& dst.spec_len() == old_vals[i].spec_len()
                        &&& dst.stored_wf()
                    },
            decreases shifted@.len() - idx,
        {
            let src = match prev.get_by_copy(&shifted[idx]) {
                Some(s) => s,
                None => {
                    proof {
                        assert(prev.spec_contains_key(shifted@[idx as int]));
                    }
                    // unreachable: every shifted key is present in `prev`
                    Slice { id: 0, start: 0, end: 1, cursor: 0, reverse: false }
                },
            };
            proof {
                prev.lemma_key_index(shifted@[idx as int]);
                assert(src == prev.spec_vals()[prev.key_index(shifted@[idx as int])]);
                assert(src.stored_wf());
                assert(self.slices@[idx as int] == old_vals[idx as int]);
                assert(old(self).spec_vals()[idx as int].stored_wf());
            }
            let slot_len = self.slices[idx].end - self.slices[idx].start;
            let replaced = Slice {
                id: src.id,
                start: src.start,
                end: src.start + slot_len,
                cursor: 0,
                reverse: src.reverse,
            };
            self.slices[idx] = replaced;
            idx = idx + 1;
        }
    }

    /// Permutes the slice contents at random while keeping the key order:
    /// each slot receives some original slot's identity and start, with
    /// its end moved so the slot length stays what it was. Every shifted
    /// key must exist in `prev`, so this map's keys must all be `prev`
    /// keys.
    pub fn rand_swap(&mut self, prev: &SliceMap)
        requires
            old(self).sound(),
            prev.sound(),
            forall|i: int|
                0 <= i < old(self).spec_keys().len() ==> prev.spec_contains_key(
                    #[trigger] old(self).spec_keys()[i],
                ),
        ensures
            final(self).sound(),
            final(self).spec_keys() == old(self).spec_keys(),
            final(self).spec_vals().len() == old(self).spec_vals().len(),
            forall|i: int|
                0 <= i < final(self).spec_vals().len() ==> (#[trigger] final(self).spec_vals()[i]).spec_len()
                    == old(self).spec_vals()[i].spec_len(),
    {
        // working copy of the ordered keys, to be permuted
        let mut shifted: Vec<usize> = Vec::new();
        let mut i: usize = 0;
        while i < self.keys.len()
            invariant
                i <= self.keys@.len(),
                shifted@ == self.keys@.subrange(0, i as int),
            decreases self.keys@.len() - i,
        {
            shifted.push(self.keys[i]);
            proof {
                assert(shifted@ =~= self.keys@.subrange(0, i + 1));
            }
            i = i + 1;
        }
        proof {
            assert(shifted@ =~= self.keys@);
        }
        shuffle_keys(&mut shifted);
        proof {
            assert forall|k: int|
                0 <= k < shifted@.len() implies prev.spec_contains_key(
                #[trigger] shifted@[k],
            ) by {
                assert(shifted@.contains(shifted@[k]));
                assert(shifted@.to_multiset().count(shifted@[k]) > 0);
                assert(old(self).spec_keys().contains(shifted@[k]));
            }
        }
        self.swap_with_keys(prev, &shifted);
    }

    /// Rebuilds the map as one slice repeated over a sample grid: the
    /// slice stored under `slice_idx` is copied, cut to `quant - 1`
    /// frames, and laid out under the keys `0, quant, 2*quant, ...` as
    /// long as they stay below `max`, with fresh identifiers counted from
    /// zero. The last key `kq` satisfies `kq < max <= (k+1)q`, and every
    /// value keeps one and the same length.
    pub fn quant_repeat(&mut self, quant: usize, slice_idx: usize, max: usize)
        requires
            old(self).sound(),
            old(self).spec_contains_key(slice_idx),
            2 <= quant <= SLICE_LEN_MAX,
            1 <= max <= SLICE_START_MAX,
        ensures
            final(self).sound(),
            ({
                let t = old(self).spec_get(slice_idx).unwrap();
                let n = final(self).spec_keys().len();
                &&& n == ((max + quant - 1) as int) / (quant as int)
                &&& n >= 1
                &&& (forall|i: int|
                    0 <= i < n ==> #[trigger] final(self).spec_keys()[i] == i * (quant as int))
                &&& (forall|i: int|
                    0 <= i < n ==> #[trigger] final(self).spec_vals()[i] == (Slice {
                        id: i as usize,
                        start: t.start,
                        end: (t.start + quant - 1) as usize,
                        cursor: 0,
                        reverse: t.reverse,
                    }))
                &&& (n - 1) * (quant as int) < max <= n * (quant as int)
            }),
    {
        let to_repeat = match self.get_by_copy(&slice_idx) {
            Some(s) => s,
            None => {
                // unreachable: the repeated slice is present by contract
                Slice { id: 0, start: 0, end: 1, cursor: 0, reverse: false }
            },
        };
        let repeated = Slice {
            id: 0,
            start: to_repeat.start,
            end: to_repeat.start + quant - 1,
            cursor: 0,
            reverse: to_repeat.reverse,
        };
        self.keys.clear();
        self.slices.clear();
        let mut x: usize = 0;
        let mut ct: usize = 0;
        while x < max
            invariant
                2 <= quant <= SLICE_LEN_MAX,
                1 <= max <= SLICE_START_MAX,
                repeated.start <= SLICE_START_MAX,
                repeated.start < repeated.end,
                repeated.end - repeated.start == quant - 1,
                repeated.cursor == 0,
                x == ct * quant,
                ct <= x,
                x < max + quant,
                self.keys@.len() == ct,
                self.slices@.len() == ct,
                forall|i: int| 0 <= i < ct ==> #[trigger] self.keys@[i] == i * (quant as int),
                forall|i: int|
                    0 <= i < ct ==> #[trigger] self.slices@[i] == (Slice {
                        id: i as usize,
                        start: repeated.start,
                        end: repeated.end,
                        cursor: 0,
                        reverse: repeated.reverse,
                    }),
            decreases max + quant - x,
        {
            self.keys.push(x);
            self.slices.push(Slice { id: ct, ..repeated });
            proof {
                assert((ct + 1) * (quant as int) == ct * (quant as int) + quant)
                    by (nonlinear_arith);
            }
            x = x + quant;
            ct = ct + 1;
        }
        proof {
            assert(ct >= 1) by (nonlinear_arith)
                requires x == ct * quant && x >= max && max >= 1 && quant >= 1 && ct >= 0;
            assert forall|i: int|
                0 <= i < self.keys@.len() - 1 implies #[trigger] self.keys@[i] < self.keys@[i
                + 1] by {
                assert(i * (quant as int) + quant == (i + 1) * (quant as int)) by (nonlinear_arith);
                assert(i * (quant as int) >= 0) by (nonlinear_arith)
                    requires i >= 0 && quant >= 1;
            }
            assert forall|i: int|
                0 <= i < self.slices@.len() implies (#[trigger] self.slices@[i]).stored_wf() by {}
            assert(ct as int == ((max + quant - 1) as int) / (quant as int)) by (nonlinear_arith)
                requires
                    ct >= 1 && quant >= 2 && x == ct * quant && x >= max && x < max + quant,
            ;
            assert((ct - 1) * (quant as int) < max <= ct * (quant as int)) by (nonlinear_arith)
                requires
                    ct >= 1 && quant >= 2 && x == ct * quant && x >= max && x < max + quant,
            ;
        }
    }
}

/// Relies on rand's `SliceRandom::shuffle`: an in-place Fisher-Yates
/// permutation of the slice, so the elements are rearranged and none is
/// added or lost.
#[verifier::external_body]
fn shuffle_keys(keys: &mut Vec<usize>)
    ensures
        final(keys)@.len() == old(keys)@.len(),
        final(keys)@.to_multiset() == old(keys)@.to_multiset(),
{
    keys.shuffle(&mut rand::rng());
}

/// Pointwise equal slot lengths make equal length multisets: a swap that
/// keeps each slot's length in place keeps the whole collection of slot
/// lengths.
pub proof fn lemma_slot_lengths_multiset(a: Seq<Slice>, b: Seq<Slice>)
    requires
        a.len() == b.len(),
        forall|i: int| 0 <= i < a.len() ==> a[i].spec_len() == b[i].spec_len(),
    ensures
        a.map_values(|s: Slice| s.spec_len()).to_multiset() == b.map_values(
            |s: Slice| s.spec_len(),
        ).to_multiset(),
{
    assert(a.map_values(|s: Slice| s.spec_len()) =~= b.map_values(|s: Slice| s.spec_len()));
}

/// Every slice handed out of a sound map that fits a buffer respects the
/// buffer: its window lies inside `[0, len]`, is non-empty, and its
/// cursor rests inside the window.
pub proof fn lemma_get_within_buffer(m: SliceMap, len: nat, k: usize)
    requires
        m.sound(),
        m.fits(len),
        m.spec_get(k) is Some,
    ensures
        ({
            let s = m.spec_get(k).unwrap();
            &&& 0 <= s.start < s.end <= len
            &&& 0 <= s.cursor <= s.end - s.start
        }),
{
    m.lemma_key_index(k);
}

} // verus!
