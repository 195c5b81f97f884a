use vstd::prelude::*;

verus! {

/// Number of independent bits a `BitSet64` holds.
pub const BIT_COUNT: usize = 64;

/// True when bit `i` of `bits` is set.
pub open spec fn bit_of(bits: u64, i: u64) -> bool {
    (bits >> i) & 1u64 == 1u64
}

/// A fixed-width set of small integer "reasons". An object that owns one is
/// hidden (or disabled) while any reason is present, so independent
/// subsystems can each toggle a private bit without knowing about the others.
pub struct BitSet64 {
    bits: u64,
}

proof fn lemma_nonzero_has_bit(x: u64, k: u64)
    requires
        k < 64,
        (x >> k) != 0,
    ensures
        exists|j: u64| k <= j < 64 && bit_of(x, j),
    decreases 64 - k,
{
    if (x >> k) & 1u64 == 1u64 {
        assert(bit_of(x, k));
    } else {
        assert(k < 63 && (x >> ((k + 1) as u64)) != 0) by (bit_vector)
            requires
                k < 64,
                (x >> k) != 0,
                (x >> k) & 1u64 != 1u64,
        ;
        lemma_nonzero_has_bit(x, (k + 1) as u64);
    }
}

impl BitSet64 {
    /// The set bits, as integers in `0..64`.
    pub closed spec fn view(&self) -> Set<int> {
        Set::new(|i: int| 0 <= i < 64 && bit_of(self.bits, i as u64))
    }

    pub fn new() -> (r: BitSet64)
        ensures
            r@ == Set::<int>::empty(),
    {
        let r = BitSet64 { bits: 0 };
        assert forall|i: u64| i < 64 implies !bit_of(0u64, i) by {
            assert((0u64 >> i) & 1u64 == 0u64) by (bit_vector);
        }
        assert(r@ =~= Set::<int>::empty());
        r
    }

    /// Sets bit `index` when `value` holds and clears it otherwise; the
    /// other bits are untouched.
    pub fn set(&mut self, index: usize, value: bool)
        requires
            index < BIT_COUNT,
        ensures
            final(self)@ == (if value {
                old(self)@.insert(index as int)
            } else {
                old(self)@.remove(index as int)
            }),
    {
        let old_bits = self.bits;
        let i = index as u64;
        let mask: u64 = 1u64 << i;
        if value {
            self.bits = old_bits | mask;
            assert forall|j: u64| j < 64 implies bit_of(self.bits, j) == (j == i || bit_of(
                old_bits,
                j,
            )) by {
                let b = self.bits;
                assert(b == old_bits | (1u64 << i) && i < 64 && j < 64 ==> (((b >> j) & 1u64
                    == 1u64) == (j == i || (old_bits >> j) & 1u64 == 1u64))) by (bit_vector);
            }
            assert(self@ =~= old(self)@.insert(index as int));
        } else {
            self.bits = old_bits & !mask;
            assert forall|j: u64| j < 64 implies bit_of(self.bits, j) == (j != i && bit_of(
                old_bits,
                j,
            )) by {
                let b = self.bits;
                assert(b == old_bits & !(1u64 << i) && i < 64 && j < 64 ==> (((b >> j) & 1u64
                    == 1u64) == (j != i && (old_bits >> j) & 1u64 == 1u64))) by (bit_vector);
            }
            assert(self@ =~= old(self)@.remove(index as int));
        }
    }

    /// True when bit `index` is set.
    pub fn get(&self, index: usize) -> (r: bool)
        requires
            index < BIT_COUNT,
        ensures
            r == self@.contains(index as int),
    {
        let i = index as u64;
        let b = self.bits;
        let r = (b >> i) & 1u64 == 1u64;
        assert(self@.contains(index as int) == bit_of(b, i));
        r
    }

    /// Clears every bit.
    pub fn clear(&mut self)
        ensures
            final(self)@ == Set::<int>::empty(),
    {
        *self = BitSet64::new();
    }

    /// True when at least one bit is set.
    pub fn any(&self) -> (r: bool)
        ensures
            r == (self@ != Set::<int>::empty()),
    {
        let r = self.bits != 0;
        if r {
            proof {
                let b = self.bits;
                assert(b != 0 ==> (b >> 0u64) != 0) by (bit_vector);
                lemma_nonzero_has_bit(b, 0);
                let j = choose|j: u64| 0 <= j < 64 && bit_of(b, j);
                assert(self@.contains(j as int));
            }
        } else {
            assert forall|i: u64| i < 64 implies !bit_of(self.bits, i) by {
                let b = self.bits;
                assert(b == 0 ==> (b >> i) & 1u64 == 0u64) by (bit_vector);
            }
            assert(self@ =~= Set::<int>::empty());
        }
        r
    }
}

/// Clears each reason of `reasons`, in order.
pub open spec fn clear_all(s: Set<int>, reasons: Seq<int>) -> Set<int>
    decreases reasons.len(),
{
    if reasons.len() == 0 {
        s
    } else {
        clear_all(s, reasons.drop_last()).remove(reasons.last())
    }
}

/// Setting any one reason bit makes the set non-empty; setting and then
/// clearing the same bit twice gives the same set as doing it once; and
/// clearing every reason that was set (in any order, repeats allowed) leaves
/// the set empty again.
pub proof fn lemma_reason_bits(s: Set<int>, i: int, reasons: Seq<int>)
    requires
        0 <= i < 64,
    ensures
        s.insert(i) != Set::<int>::empty(),
        s.insert(i).remove(i).insert(i).remove(i) == s.insert(i).remove(i),
        s.subset_of(reasons.to_set()) ==> clear_all(s, reasons) == Set::<int>::empty(),
{
    assert(s.insert(i).contains(i));
    assert(s.insert(i).remove(i).insert(i).remove(i) =~= s.insert(i).remove(i));
    lemma_clear_all(s, reasons);
    if s.subset_of(reasons.to_set()) {
        assert(clear_all(s, reasons) =~= Set::<int>::empty());
    }
}

proof fn lemma_clear_all(s: Set<int>, reasons: Seq<int>)
    ensures
        forall|x: int| #[trigger]
            clear_all(s, reasons).contains(x) <==> s.contains(x) && !reasons.contains(x),
    decreases reasons.len(),
{
    if reasons.len() > 0 {
        lemma_clear_all(s, reasons.drop_last());
        assert forall|x: int| #[trigger]
            clear_all(s, reasons).contains(x) <==> s.contains(x) && !reasons.contains(x) by {
            assert(reasons =~= reasons.drop_last().push(reasons.last()));
            assert(clear_all(s, reasons.drop_last()).contains(x) <==> s.contains(x)
                && !reasons.drop_last().contains(x));
            assert(reasons.contains(reasons.last()));
            if reasons.drop_last().contains(x) {
                let k = choose|k: int| 0 <= k < reasons.drop_last().len() && reasons.drop_last()[k] == x;
                assert(reasons[k] == x);
            }
            if reasons.contains(x) && x != reasons.last() {
                let k = choose|k: int| 0 <= k < reasons.len() && reasons[k] == x;
                assert(reasons.drop_last()[k] == x);
            }
        }
    }
}

} // verus!
