use vstd::prelude::*;

use vstd::string::StringSliceAdditionalSpecFns;

use crate::buffer::SmartBuffer;

verus! {

/// String equality by bytes: two UTF-8 encodings agree exactly when the
/// character sequences do.
fn str_eq(a: &str, b: &str) -> (r: bool)
    ensures
        r == (a@ == b@),
{
    let ab = a.as_bytes();
    let bb = b.as_bytes();
    proof {
        vstd::utf8::encode_utf8_decode_utf8(a@);
        vstd::utf8::encode_utf8_decode_utf8(b@);
    }
    if ab.len() != bb.len() {
        return false;
    }
    let mut i: usize = 0;
    while i < ab.len()
        invariant
            ab@ == a.spec_bytes(),
            bb@ == b.spec_bytes(),
            ab@.len() == bb@.len(),
            i <= ab@.len(),
            forall|j: int| 0 <= j < i ==> ab@[j] == bb@[j],
            vstd::utf8::decode_utf8(a.spec_bytes()) == a@,
            vstd::utf8::decode_utf8(b.spec_bytes()) == b@,
        decreases ab@.len() - i,
    {
        if ab[i] != bb[i] {
            proof {
                assert(a.spec_bytes() != b.spec_bytes());
            }
            return false;
        }
        i = i + 1;
    }
    proof {
        assert(a.spec_bytes() =~= b.spec_bytes());
    }
    true
}

/// The in-memory sample store: banks of analyzed phrases, in directory
/// order, plus one shared empty buffer that every missing lookup falls
/// back to — lookups never fail.
pub struct SampleLib {
    /// The banks, each an ordered run of loaded buffers.
    pub buffers: Vec<Vec<SmartBuffer>>,
    /// The buffer handed out when a lookup misses.
    pub empty_buff: SmartBuffer,
}

impl SampleLib {
    /// Index of the first buffer of `bank` whose file name equals `name`,
    /// if any.
    pub open spec fn spec_find_by_name(self, bank: int, name: Seq<char>) -> Option<int> {
        self.spec_find_by_name_from(bank, name, 0)
    }

    /// Index of the first matching buffer at or after `i`.
    pub open spec fn spec_find_by_name_from(self, bank: int, name: Seq<char>, i: int) -> Option<
        int,
    >
        recommends
            0 <= bank < self.buffers@.len(),
        decreases self.buffers@[bank]@.len() - i,
    {
        if !(0 <= bank < self.buffers@.len()) || i < 0 || i >= self.buffers@[bank]@.len() {
            None
        } else if self.buffers@[bank]@[i].spec_file_name() == name {
            Some(i)
        } else {
            self.spec_find_by_name_from(bank, name, i + 1)
        }
    }

    /// An empty library.
    pub fn new() -> (r: SampleLib)
        ensures
            r.buffers@.len() == 0,
            r.empty_buff.spec_frames().len() == 0,
    {
        SampleLib { buffers: Vec::new(), empty_buff: SmartBuffer::new_empty() }
    }

    /// File name of the first sample of the bank; empty when the bank is
    /// missing or empty.
    pub fn get_first_sample_name(&self, bank: usize) -> (r: &str)
        ensures
            (bank < self.buffers@.len() && self.buffers@[bank as int]@.len() > 0) ==> r@ == self.buffers@[bank as int]@[0].spec_file_name(),
            !(bank < self.buffers@.len() && self.buffers@[bank as int]@.len() > 0) ==> r@.len()
                == 0,
    {
        if bank < self.buffers.len() {
            let b = &self.buffers[bank];
            if b.len() > 0 {
                return b[0].file_name().as_str();
            }
        }
        proof {
            reveal_strlit("");
        }
        ""
    }

    /// The first sample of the bank; the empty buffer when the bank is
    /// missing or empty.
    pub fn get_first_sample(&self, bank: usize) -> (r: &SmartBuffer)
        ensures
            (bank < self.buffers@.len() && self.buffers@[bank as int]@.len() > 0) ==> r == &self.buffers@[bank as int]@[0],
            !(bank < self.buffers@.len() && self.buffers@[bank as int]@.len() > 0) ==> r
                == &self.empty_buff,
    {
        if bank < self.buffers.len() {
            let b = &self.buffers[bank];
            if b.len() > 0 {
                return &b[0];
            }
        }
        &self.empty_buff
    }

    /// The sample at a bank and position; the empty buffer when either
    /// index misses.
    pub fn get_sample_by_pos(&self, pos: (usize, usize)) -> (r: &SmartBuffer)
        ensures
            (pos.0 < self.buffers@.len() && pos.1 < self.buffers@[pos.0 as int]@.len()) ==> r
                == &self.buffers@[pos.0 as int]@[pos.1 as int],
            !(pos.0 < self.buffers@.len() && pos.1 < self.buffers@[pos.0 as int]@.len()) ==> r
                == &self.empty_buff,
    {
        if pos.0 < self.buffers.len() {
            let b = &self.buffers[pos.0];
            if pos.1 < b.len() {
                return &b[pos.1];
            }
        }
        &self.empty_buff
    }

    /// The first sample of the bank with the given file name; the empty
    /// buffer when the bank or the name misses.
    pub fn get_sample_by_name(&self, bank: usize, name: &str) -> (r: &SmartBuffer)
        ensures
            match self.spec_find_by_name(bank as int, name@) {
                Some(i) => r == &self.buffers@[bank as int]@[i],
                None => r == &self.empty_buff,
            },
    {
        if bank >= self.buffers.len() {
            return &self.empty_buff;
        }
        let b = &self.buffers[bank];
        let mut i: usize = 0;
        while i < b.len()
            invariant
                bank < self.buffers@.len(),
                b == &self.buffers@[bank as int],
                i <= b@.len(),
                self.spec_find_by_name(bank as int, name@) == self.spec_find_by_name_from(
                    bank as int,
                    name@,
                    i as int,
                ),
            decreases b@.len() - i,
        {
            if str_eq(b[i].file_name().as_str(), name) {
                return &b[i];
            }
            i = i + 1;
        }
        &self.empty_buff
    }

    /// The sample `order` places away from the named one inside the bank,
    /// wrapping around the bank in both directions; the empty buffer when
    /// the bank or the name misses.
    pub fn get_sibling_sample(&self, bank: usize, name: &str, order: i64) -> (r: &SmartBuffer)
        ensures
            match self.spec_find_by_name(bank as int, name@) {
                Some(i) => {
                    let n = self.buffers@[bank as int]@.len() as int;
                    let wrapped = (i + order) % n;
                    r == &self.buffers@[bank as int]@[wrapped]
                },
                None => r == &self.empty_buff,
            },
    {
        if bank >= self.buffers.len() {
            return &self.empty_buff;
        }
        let b = &self.buffers[bank];
        let mut i: usize = 0;
        while i < b.len()
            invariant
                bank < self.buffers@.len(),
                b == &self.buffers@[bank as int],
                i <= b@.len(),
                self.spec_find_by_name(bank as int, name@) == self.spec_find_by_name_from(
                    bank as int,
                    name@,
                    i as int,
                ),
            decreases b@.len() - i,
        {
            if str_eq(b[i].file_name().as_str(), name) {
                let n = b.len();
                // Euclidean offset of `order` within the bank length
                let off: usize = if order >= 0 {
                    ((order as u64) % (n as u64)) as usize
                } else {
                    let neg = (((-(order as i128)) as u64) % (n as u64)) as usize;
                    if neg == 0 {
                        0
                    } else {
                        n - neg
                    }
                };
                let wrapped = (((i as u128) + (off as u128)) % (n as u128)) as usize;
                proof {
                    let ni = n as int;
                    let ii = i as int;
                    let oi = order as int;
                    vstd::arithmetic::div_mod::lemma_add_mod_noop(ii, oi, ni);
                    vstd::arithmetic::div_mod::lemma_small_mod(ii as nat, ni as nat);
                    if oi >= 0 {
                        assert(off as int == oi % ni);
                    } else {
                        let m = -oi;
                        let neg = m % ni;
                        let q = m / ni;
                        vstd::arithmetic::div_mod::lemma_fundamental_div_mod(m, ni);
                        assert(m == q * ni + neg);
                        if neg == 0 {
                            assert(oi == (-q) * ni + 0) by (nonlinear_arith)
                                requires oi == -m && m == q * ni + 0;
                            vstd::arithmetic::div_mod::lemma_fundamental_div_mod_converse(
                                oi,
                                ni,
                                -q,
                                0,
                            );
                        } else {
                            assert(oi == (-q - 1) * ni + (ni - neg)) by (nonlinear_arith)
                                requires oi == -m && m == q * ni + neg;
                            vstd::arithmetic::div_mod::lemma_fundamental_div_mod_converse(
                                oi,
                                ni,
                                -q - 1,
                                ni - neg,
                            );
                        }
                        assert(off as int == oi % ni);
                    }
                    assert(wrapped as int == (ii + off as int) % ni);
                    assert((ii % ni + oi % ni) % ni == (ii + oi) % ni);
                    assert(wrapped as int == (ii + oi) % ni);
                }
                return &b[wrapped];
            }
            i = i + 1;
        }
        &self.empty_buff
    }
}

} // verus!
