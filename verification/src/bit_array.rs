//! A densely packed, fixed-capacity vector of booleans. It marks which members
//! of a multisig key took part in a signature.

use vstd::prelude::*;

verus! {

/// The first bit of a byte, counting from the most significant one.
pub const MASK: u8 = 0x80;

/// A bit vector stored eight bits to a byte, most significant bit first.
///
/// When `extra_bits_stored` is zero every byte of `elems` is in use; otherwise
/// only the first `extra_bits_stored` bits of the last byte are.
#[derive(Clone, Debug, PartialEq, Eq)]
pub struct CompactBitArray {
    pub extra_bits_stored: u32,
    pub elems: Vec<u8>,
}

/// Bit `pos` of `byte`, counting from the most significant bit.
pub open spec fn bit_of(byte: u8, pos: int) -> bool {
    byte & (MASK >> (pos as u8)) != 0
}

/// `byte` with bit `pos` (counting from the most significant bit) made `value`.
pub open spec fn with_bit(byte: u8, pos: int, value: bool) -> u8 {
    if value {
        byte | (MASK >> (pos as u8))
    } else {
        byte & !(MASK >> (pos as u8))
    }
}

/// How many entries of `bits` are `true`.
pub open spec fn count_true(bits: Seq<bool>) -> nat
    decreases bits.len(),
{
    if bits.len() == 0 {
        0
    } else {
        count_true(bits.drop_last()) + if bits.last() {
            1nat
        } else {
            0nat
        }
    }
}

/// Setting one bit of a byte changes that bit and no other.
pub proof fn lemma_with_bit(byte: u8, pos: u8, other: u8, value: bool)
    requires
        pos < 8,
        other < 8,
    ensures
        bit_of(with_bit(byte, pos as int, value), other as int) == if other == pos {
            value
        } else {
            bit_of(byte, other as int)
        },
{
    assert((byte | (0x80u8 >> pos)) & (0x80u8 >> other) != 0 <==> (other == pos || byte & (0x80u8
        >> other) != 0)) by (bit_vector)
        requires
            pos < 8,
            other < 8,
    ;
    assert((byte & !(0x80u8 >> pos)) & (0x80u8 >> other) != 0 <==> (other != pos && byte & (0x80u8
        >> other) != 0)) by (bit_vector)
        requires
            pos < 8,
            other < 8,
    ;
}

/// A count of `true` entries never exceeds the number of entries.
pub proof fn lemma_count_true_bound(bits: Seq<bool>)
    ensures
        count_true(bits) <= bits.len(),
    decreases bits.len(),
{
    if bits.len() > 0 {
        lemma_count_true_bound(bits.drop_last());
    }
}

/// Taking one more entry adds one to the count where that entry is `true`.
pub proof fn lemma_count_true_step(bits: Seq<bool>, i: int)
    requires
        0 <= i < bits.len(),
    ensures
        count_true(bits.take(i + 1)) == count_true(bits.take(i)) + if bits[i] {
            1nat
        } else {
            0nat
        },
{
    assert(bits.take(i + 1).drop_last() =~= bits.take(i));
    assert(bits.take(i + 1).last() == bits[i]);
}

/// A longer prefix holds at least as many `true` entries as a shorter one.
pub proof fn lemma_count_true_monotonic(bits: Seq<bool>, i: int, j: int)
    requires
        0 <= i <= j <= bits.len(),
    ensures
        count_true(bits.take(i)) <= count_true(bits.take(j)),
    decreases j - i,
{
    if i < j {
        lemma_count_true_monotonic(bits, i, j - 1);
        lemma_count_true_step(bits, j - 1);
    }
}

/// Two set bits with the same number of set bits before them are one bit.
pub proof fn lemma_rank_decides_position(bits: Seq<bool>, p: int, q: int)
    requires
        0 <= p < bits.len(),
        0 <= q < bits.len(),
        bits[p],
        bits[q],
        count_true(bits.take(p)) == count_true(bits.take(q)),
    ensures
        p == q,
{
    if p < q {
        lemma_count_true_step(bits, p);
        lemma_count_true_monotonic(bits, p + 1, q);
    } else if q < p {
        lemma_count_true_step(bits, q);
        lemma_count_true_monotonic(bits, q + 1, p);
    }
}

/// The two fields of a bit array as plain values. They may disagree with each
/// other: see `wf`.
pub struct BitArrayFields {
    pub extra_bits_stored: u32,
    pub elems: Seq<u8>,
}

impl BitArrayFields {
    /// The number of bits held: all of every byte, or, with extra bits, all of
    /// every byte but the last and `extra_bits_stored` of the last.
    pub open spec fn len(self) -> nat {
        if self.extra_bits_stored == 0 {
            self.elems.len() * 8
        } else {
            ((self.elems.len() - 1) * 8 + self.extra_bits_stored) as nat
        }
    }

    /// The fields agree with each other: extra bits lie in a last byte that
    /// exists, and the bit count fits the machine word.
    pub open spec fn wf(self) -> bool {
        &&& self.len() <= usize::MAX
        &&& self.extra_bits_stored != 0 ==> self.elems.len() >= 1 && self.extra_bits_stored <= 8
    }

    /// The bits in order, as many as `len` says.
    pub open spec fn bits(self) -> Seq<bool> {
        Seq::new(self.len(), |i: int| bit_of(self.elems[i / 8], i % 8))
    }
}

impl View for CompactBitArray {
    type V = Seq<bool>;

    /// The bits in order.
    open spec fn view(&self) -> Seq<bool> {
        self.fields().bits()
    }
}

impl CompactBitArray {
    /// The two fields, the bytes as a sequence.
    pub open spec fn fields(&self) -> BitArrayFields {
        BitArrayFields { extra_bits_stored: self.extra_bits_stored, elems: self.elems@ }
    }

    /// The number of bits held.
    pub open spec fn spec_len(&self) -> nat {
        self.fields().len()
    }

    /// The fields agree with each other: see `BitArrayFields::wf`.
    pub open spec fn wf(&self) -> bool {
        self.fields().wf()
    }

    /// An array of `num_bits` bits, all `false`.
    pub fn new(num_bits: usize) -> (r: Self)
        ensures
            r.wf(),
            r.extra_bits_stored == num_bits % 8,
            r.elems@ == Seq::new(((num_bits + 7) / 8) as nat, |i: int| 0u8),
            r@ == Seq::new(num_bits as nat, |i: int| false),
    {
        let extra_bits_stored: usize = num_bits % 8;
        let mut elem_size: usize = num_bits / 8;
        if extra_bits_stored > 0 {
            elem_size += 1;
        }
        let r = Self { extra_bits_stored: extra_bits_stored as u32, elems: vec![0u8; elem_size] };
        proof {
            assert(r.elems@ =~= Seq::new(((num_bits + 7) / 8) as nat, |i: int| 0u8));
            assert(r.spec_len() == num_bits);
            assert forall|i: int| 0 <= i < num_bits implies !bit_of(#[trigger] r.elems@[i / 8], i % 8) by {
                let k = (i % 8) as u8;
                assert(0u8 & (0x80u8 >> k) == 0) by (bit_vector);
            }
            assert(r@ =~= Seq::new(num_bits as nat, |i: int| false));
        }
        r
    }

    /// Whether the fields agree with each other (see `wf`).
    pub fn is_well_formed(&self) -> (b: bool)
        ensures
            b == self.wf(),
    {
        if self.extra_bits_stored == 0 {
            self.elems.len() <= usize::MAX / 8
        } else {
            self.elems.len() >= 1 && self.extra_bits_stored <= 8 && self.elems.len() - 1 <= (
            usize::MAX - self.extra_bits_stored as usize) / 8
        }
    }

    /// The number of bits held.
    pub fn len(&self) -> (n: usize)
        requires
            self.wf(),
        ensures
            n == self.spec_len(),
            n == self@.len(),
    {
        if self.extra_bits_stored == 0 {
            return self.elems.len() * 8;
        }
        (self.elems.len() - 1) * 8 + self.extra_bits_stored as usize
    }

    /// Bit `index`, or `false` where `index` lies past the end.
    pub fn get(&self, index: usize) -> (b: bool)
        requires
            self.wf(),
        ensures
            b == (index < self@.len() && self@[index as int]),
    {
        if index >= self.len() {
            return false;
        }
        (self.elems[index / 8] & (MASK >> ((index % 8) as u8))) > 0
    }

    /// Makes bit `index` equal to `value` and returns `true`; past the end it
    /// changes nothing and returns `false`.
    pub fn set(&mut self, index: usize, value: bool) -> (changed: bool)
        requires
            old(self).wf(),
        ensures
            final(self).wf(),
            changed == (index < old(self)@.len()),
            final(self).extra_bits_stored == old(self).extra_bits_stored,
            changed ==> final(self).elems@ == old(self).elems@.update(
                index as int / 8,
                with_bit(old(self).elems@[index as int / 8], index as int % 8, value),
            ),
            changed ==> final(self)@ == old(self)@.update(index as int, value),
            !changed ==> *final(self) == *old(self),
    {
        if index >= self.len() {
            return false;
        }
        let slot: usize = index / 8;
        let pos: u8 = (index % 8) as u8;
        let byte: u8 = self.elems[slot];
        let updated: u8 = if value {
            byte | (MASK >> pos)
        } else {
            byte & !(MASK >> pos)
        };
        self.elems.set(slot, updated);
        proof {
            assert(self.spec_len() == old(self).spec_len());
            assert forall|i: int| 0 <= i < self.spec_len() implies self@[i] == old(self)@.update(
                index as int,
                value,
            )[i] by {
                if i / 8 == slot as int {
                    lemma_with_bit(byte, pos, (i % 8) as u8, value);
                }
            }
            assert(self@ =~= old(self)@.update(index as int, value));
        }
        true
    }

    /// How many of the bits before `index` are set. Bits past the end count as
    /// unset.
    pub fn num_true_bits_before(&self, index: usize) -> (n: usize)
        requires
            self.wf(),
        ensures
            n == count_true(self@.take(if index <= self@.len() { index as int } else { self@.len() as int })),
            n <= index,
    {
        let len: usize = self.len();
        let end: usize = if index <= len { index } else { len };
        let mut num_true_values: usize = 0;
        let mut i: usize = 0;
        while i < end
            invariant
                self.wf(),
                len == self@.len(),
                end <= len,
                i <= end,
                num_true_values <= i,
                num_true_values == count_true(self@.take(i as int)),
            decreases end - i,
        {
            proof {
                assert(self@.take(i as int + 1).drop_last() =~= self@.take(i as int));
                assert(self@.take(i as int + 1).last() == self@[i as int]);
            }
            if self.get(i) {
                num_true_values += 1;
            }
            i += 1;
        }
        num_true_values
    }
}

} // verus!
