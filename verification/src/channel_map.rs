//! Bit sets used to describe which channels of a device are selected.
use vstd::prelude::*;

verus! {

/// Trait for types which can represent bitsets.
///
/// A bit set is a type which encodes a boolean value per index, functioning similarly in
/// principle to a set of `usize`. Its abstract model is a capacity and, for every index below
/// the capacity, a boolean.
pub trait Bitset: Sized {
    /// Number of indices that can be used with this value.
    spec fn spec_capacity(&self) -> nat;

    /// Value stored at `index`; only meaningful for `0 <= index < spec_capacity()`.
    spec fn spec_index(&self, index: int) -> bool;

    /// Validity of the value: what the operations need to be free of overflow.
    spec fn spec_well_formed(&self) -> bool;

    /// Indices on which `get_index` does not panic.
    spec fn spec_get_allowed(&self, index: int) -> bool;

    /// A well-formed value has a capacity that fits in `usize`, and every index below it can be
    /// read.
    proof fn lemma_well_formed(&self)
        requires
            self.spec_well_formed(),
        ensures
            self.spec_capacity() <= usize::MAX,
            forall|index: int| 0 <= index < self.spec_capacity() ==> #[trigger] self.spec_get_allowed(index),
    ;

    /// Return the capacity of this bitset, that is, how many indices can be used with this type.
    fn capacity(&self) -> (r: usize)
        requires
            self.spec_well_formed(),
        ensures
            r == self.spec_capacity(),
    ;

    /// Get the value for a specific index.
    fn get_index(&self, index: usize) -> (r: bool)
        requires
            self.spec_well_formed(),
            self.spec_get_allowed(index as int),
        ensures
            r == (index < self.spec_capacity() && self.spec_index(index as int)),
    ;

    /// Sets the value for a specific index; every other index keeps its value.
    fn set_index(&mut self, index: usize, value: bool)
        requires
            old(self).spec_well_formed(),
            index < old(self).spec_capacity(),
        ensures
            final(self).spec_well_formed(),
            final(self).spec_capacity() == old(self).spec_capacity(),
            final(self).spec_index(index as int) == value,
            forall|j: int|
                0 <= j < old(self).spec_capacity() && j != index
                    ==> #[trigger] final(self).spec_index(j) == old(self).spec_index(j),
    ;

    /// Returns the indices for which the value has been set `true`, in increasing order.
    fn indices(&self) -> (r: Vec<usize>)
        requires
            self.spec_well_formed(),
        ensures
            r@ == true_indices_below(|j: int| self.spec_index(j), self.spec_capacity()),
    {
        let cap = self.capacity();
        let mut out: Vec<usize> = Vec::new();
        let mut i: usize = 0;
        while i < cap
            invariant
                self.spec_well_formed(),
                cap == self.spec_capacity(),
                i <= cap,
                out@ == true_indices_below(|j: int| self.spec_index(j), i as nat),
            decreases cap - i,
        {
            proof {
                self.lemma_well_formed();
            }
            if self.get_index(i) {
                out.push(i);
            }
            i = i + 1;
        }
        out
    }

    /// Count the number of `true` elements in this bit set.
    fn count(&self) -> (r: usize)
        requires
            self.spec_well_formed(),
        ensures
            r == true_indices_below(|j: int| self.spec_index(j), self.spec_capacity()).len(),
    {
        let v = self.indices();
        v.len()
    }

    /// Builder-like method for setting a value at a specific index.
    fn with_index(&mut self, index: usize, value: bool) -> (r: &mut Self)
        requires
            old(self).spec_well_formed(),
            index < old(self).spec_capacity(),
        ensures
            r.spec_well_formed(),
            r.spec_capacity() == old(self).spec_capacity(),
            r.spec_index(index as int) == value,
            forall|j: int|
                0 <= j < old(self).spec_capacity() && j != index ==> #[trigger] r.spec_index(j)
                    == old(self).spec_index(j),
            *final(self) == *final(r),
    {
        self.set_index(index, value);
        self
    }

    /// Builder-like method for setting all provided indices to `true`.
    fn with_indices(self, indices: &[usize]) -> (r: Self)
        requires
            self.spec_well_formed(),
            forall|k: int| 0 <= k < indices@.len() ==> #[trigger] indices@[k] < self.spec_capacity(),
        ensures
            r.spec_well_formed(),
            r.spec_capacity() == self.spec_capacity(),
            forall|j: int|
                0 <= j < self.spec_capacity() ==> #[trigger] r.spec_index(j) == (self.spec_index(j)
                    || indices@.contains(j as usize)),
    {
        proof {
            self.lemma_well_formed();
        }
        let mut out = self;
        let mut k: usize = 0;
        while k < indices.len()
            invariant
                out.spec_well_formed(),
                out.spec_capacity() == self.spec_capacity(),
                self.spec_capacity() <= usize::MAX,
                k <= indices@.len(),
                forall|m: int|
                    0 <= m < indices@.len() ==> #[trigger] indices@[m] < self.spec_capacity(),
                forall|j: int|
                    0 <= j < self.spec_capacity() ==> #[trigger] out.spec_index(j) == (
                    self.spec_index(j) || indices@.subrange(0, k as int).contains(j as usize)),
            decreases indices@.len() - k,
        {
            let ix = indices[k];
            out.set_index(ix, true);
            proof {
                assert forall|j: int| 0 <= j < self.spec_capacity() implies #[trigger] out.spec_index(j) == (self.spec_index(j) || indices@.subrange(0, k + 1).contains(j as usize)) by {
                    assert(indices@.subrange(0, k + 1) == indices@.subrange(0, k as int).push(ix));
                    if j == ix {
                        assert(indices@.subrange(0, k + 1)[k as int] == ix);
                    } else {
                        if indices@.subrange(0, k + 1).contains(j as usize) {
                            let w = choose|w: int|
                                0 <= w < k + 1 && #[trigger] indices@.subrange(0, k + 1)[w] == j as usize;
                            assert(w < k);
                            assert(indices@.subrange(0, k as int)[w] == j as usize);
                        }
                        if indices@.subrange(0, k as int).contains(j as usize) {
                            let w = choose|w: int|
                                0 <= w < k && #[trigger] indices@.subrange(0, k as int)[w] == j as usize;
                            assert(indices@.subrange(0, k + 1)[w] == j as usize);
                        }
                    }
                }
            }
            k = k + 1;
        }
        proof {
            assert(indices@.subrange(0, indices@.len() as int) == indices@);
        }
        out
    }
}

/// The indices below `n` at which `bit` holds, in increasing order.
pub open spec fn true_indices_below(bit: spec_fn(int) -> bool, n: nat) -> Seq<usize>
    decreases n,
{
    if n == 0 {
        Seq::empty()
    } else {
        let prev = true_indices_below(bit, (n - 1) as nat);
        if bit(n - 1) {
            prev.push((n - 1) as usize)
        } else {
            prev
        }
    }
}

/// The indices that `true_indices_below` lists are exactly those below `n` at which `bit`
/// holds, each once, in increasing order.
pub proof fn lemma_true_indices_below(bit: spec_fn(int) -> bool, n: nat)
    requires
        n <= usize::MAX + 1,
    ensures
        forall|k: int|
            0 <= k < true_indices_below(bit, n).len() ==> (#[trigger] true_indices_below(
                bit,
                n,
            )[k]) < n && bit(true_indices_below(bit, n)[k] as int),
        forall|i: int, j: int|
            0 <= i < j < true_indices_below(bit, n).len() ==> (#[trigger] true_indices_below(
                bit,
                n,
            )[i]) < (#[trigger] true_indices_below(bit, n)[j]),
        forall|x: int| 0 <= x < n && bit(x) ==> #[trigger] true_indices_below(bit, n).contains(x as usize),
        true_indices_below(bit, n).len() <= n,
    decreases n,
{
    if n > 0 {
        let m = (n - 1) as nat;
        lemma_true_indices_below(bit, m);
        let prev = true_indices_below(bit, m);
        let cur = true_indices_below(bit, n);
        assert forall|x: int| 0 <= x < n && bit(x) implies #[trigger] cur.contains(x as usize) by {
            if x < m {
                assert(prev.contains(x as usize));
                let w = choose|w: int| 0 <= w < prev.len() && prev[w] == x as usize;
                assert(cur[w] == x as usize);
            } else {
                assert(cur[cur.len() - 1] == x as usize);
            }
        }
    }
}

/// Whether bit `index` of `x` is set.
pub open spec fn u8_bit(x: u8, index: int) -> bool {
    (x >> (index as u8)) & 1u8 == 1u8
}

/// `u8::count_ones`: the number of ones in the binary representation of `x`, that is the
/// number of bit positions below 8 whose bit is set.
#[verifier::external_body]
fn u8_count_ones(x: u8) -> (r: u32)
    ensures
        r == true_indices_below(|j: int| u8_bit(x, j), 8).len(),
{
    x.count_ones()
}

/// Reading bit `i` through a mask, setting it and clearing it, each leaving the other bits
/// unchanged.
proof fn lemma_u8_bits(x: u8, i: u8, j: u8)
    by (bit_vector)
    requires
        i < 8,
        j < 8,
    ensures
        ((x & (1u8 << i)) > 0) == ((x >> i) & 1u8 == 1u8),
        ((x | (1u8 << i)) >> j) & 1u8 == if j == i {
            1u8
        } else {
            (x >> j) & 1u8
        },
        ((x & !(1u8 << i)) >> j) & 1u8 == if j == i {
            0u8
        } else {
            (x >> j) & 1u8
        },
{
}

impl Bitset for u8 {
    open spec fn spec_capacity(&self) -> nat {
        8
    }

    open spec fn spec_index(&self, index: int) -> bool {
        u8_bit(*self, index)
    }

    open spec fn spec_well_formed(&self) -> bool {
        true
    }

    open spec fn spec_get_allowed(&self, index: int) -> bool {
        0 <= index < 8
    }

    proof fn lemma_well_formed(&self) {
        assert(self.spec_capacity() == 8);
        assert forall|index: int| 0 <= index < 8 implies #[trigger] self.spec_get_allowed(index) by {}
    }

    fn capacity(&self) -> (r: usize) {
        u8::BITS as usize
    }

    fn get_index(&self, index: usize) -> (r: bool) {
        assert(self.spec_get_allowed(index as int));
        let i = index as u8;
        let mask: u8 = 1u8 << i;
        proof {
            lemma_u8_bits(*self, i, i);
        }
        *self & mask > 0
    }

    fn set_index(&mut self, index: usize, value: bool) {
        assert(index < 8);
        let i = index as u8;
        let mask: u8 = 1u8 << i;
        let ghost x = *self;
        if value {
            *self = *self | mask;
        } else {
            *self = *self & !mask;
        }
        proof {
            assert forall|j: int| 0 <= j < 8 implies #[trigger] self.spec_index(j) == (if j
                == index {
                value
            } else {
                x.spec_index(j)
            }) by {
                lemma_u8_bits(x, i, j as u8);
            }
        }
    }


    fn count(&self) -> (r: usize) {
        let n = u8_count_ones(*self);
        proof {
            assert((|j: int| self.spec_index(j)) =~= (|j: int| u8_bit(*self, j)));
            assert(self.spec_capacity() == 8);
        }
        n as usize
    }
}


/// Whether bit `index` of `x` is set.
pub open spec fn u16_bit(x: u16, index: int) -> bool {
    (x >> (index as u16)) & 1u16 == 1u16
}

/// `u16::count_ones`: the number of ones in the binary representation of `x`, that is the
/// number of bit positions below 16 whose bit is set.
#[verifier::external_body]
fn u16_count_ones(x: u16) -> (r: u32)
    ensures
        r == true_indices_below(|j: int| u16_bit(x, j), 16).len(),
{
    x.count_ones()
}

/// Reading bit `i` through a mask, setting it and clearing it, each leaving the other bits
/// unchanged.
proof fn lemma_u16_bits(x: u16, i: u16, j: u16)
    by (bit_vector)
    requires
        i < 16,
        j < 16,
    ensures
        ((x & (1u16 << i)) > 0) == ((x >> i) & 1u16 == 1u16),
        ((x | (1u16 << i)) >> j) & 1u16 == if j == i {
            1u16
        } else {
            (x >> j) & 1u16
        },
        ((x & !(1u16 << i)) >> j) & 1u16 == if j == i {
            0u16
        } else {
            (x >> j) & 1u16
        },
{
}

impl Bitset for u16 {
    open spec fn spec_capacity(&self) -> nat {
        16
    }

    open spec fn spec_index(&self, index: int) -> bool {
        u16_bit(*self, index)
    }

    open spec fn spec_well_formed(&self) -> bool {
        true
    }

    open spec fn spec_get_allowed(&self, index: int) -> bool {
        0 <= index < 16
    }

    proof fn lemma_well_formed(&self) {
        assert(self.spec_capacity() == 16);
        assert forall|index: int| 0 <= index < 16 implies #[trigger] self.spec_get_allowed(index) by {}
    }

    fn capacity(&self) -> (r: usize) {
        u16::BITS as usize
    }

    fn get_index(&self, index: usize) -> (r: bool) {
        assert(self.spec_get_allowed(index as int));
        let i = index as u16;
        let mask: u16 = 1u16 << i;
        proof {
            lemma_u16_bits(*self, i, i);
        }
        *self & mask > 0
    }

    fn set_index(&mut self, index: usize, value: bool) {
        assert(index < 16);
        let i = index as u16;
        let mask: u16 = 1u16 << i;
        let ghost x = *self;
        if value {
            *self = *self | mask;
        } else {
            *self = *self & !mask;
        }
        proof {
            assert forall|j: int| 0 <= j < 16 implies #[trigger] self.spec_index(j) == (if j
                == index {
                value
            } else {
                x.spec_index(j)
            }) by {
                lemma_u16_bits(x, i, j as u16);
            }
        }
    }


    fn count(&self) -> (r: usize) {
        let n = u16_count_ones(*self);
        proof {
            assert((|j: int| self.spec_index(j)) =~= (|j: int| u16_bit(*self, j)));
            assert(self.spec_capacity() == 16);
        }
        n as usize
    }
}


/// Whether bit `index` of `x` is set.
pub open spec fn u32_bit(x: u32, index: int) -> bool {
    (x >> (index as u32)) & 1u32 == 1u32
}

/// `u32::count_ones`: the number of ones in the binary representation of `x`, that is the
/// number of bit positions below 32 whose bit is set.
#[verifier::external_body]
fn u32_count_ones(x: u32) -> (r: u32)
    ensures
        r == true_indices_below(|j: int| u32_bit(x, j), 32).len(),
{
    x.count_ones()
}

/// Reading bit `i` through a mask, setting it and clearing it, each leaving the other bits
/// unchanged.
proof fn lemma_u32_bits(x: u32, i: u32, j: u32)
    by (bit_vector)
    requires
        i < 32,
        j < 32,
    ensures
        ((x & (1u32 << i)) > 0) == ((x >> i) & 1u32 == 1u32),
        ((x | (1u32 << i)) >> j) & 1u32 == if j == i {
            1u32
        } else {
            (x >> j) & 1u32
        },
        ((x & !(1u32 << i)) >> j) & 1u32 == if j == i {
            0u32
        } else {
            (x >> j) & 1u32
        },
{
}

impl Bitset for u32 {
    open spec fn spec_capacity(&self) -> nat {
        32
    }

    open spec fn spec_index(&self, index: int) -> bool {
        u32_bit(*self, index)
    }

    open spec fn spec_well_formed(&self) -> bool {
        true
    }

    open spec fn spec_get_allowed(&self, index: int) -> bool {
        0 <= index < 32
    }

    proof fn lemma_well_formed(&self) {
        assert(self.spec_capacity() == 32);
        assert forall|index: int| 0 <= index < 32 implies #[trigger] self.spec_get_allowed(index) by {}
    }

    fn capacity(&self) -> (r: usize) {
        u32::BITS as usize
    }

    fn get_index(&self, index: usize) -> (r: bool) {
        assert(self.spec_get_allowed(index as int));
        let i = index as u32;
        let mask: u32 = 1u32 << i;
        proof {
            lemma_u32_bits(*self, i, i);
        }
        *self & mask > 0
    }

    fn set_index(&mut self, index: usize, value: bool) {
        assert(index < 32);
        let i = index as u32;
        let mask: u32 = 1u32 << i;
        let ghost x = *self;
        if value {
            *self = *self | mask;
        } else {
            *self = *self & !mask;
        }
        proof {
            assert forall|j: int| 0 <= j < 32 implies #[trigger] self.spec_index(j) == (if j
                == index {
                value
            } else {
                x.spec_index(j)
            }) by {
                lemma_u32_bits(x, i, j as u32);
            }
        }
    }


    fn count(&self) -> (r: usize) {
        let n = u32_count_ones(*self);
        proof {
            assert((|j: int| self.spec_index(j)) =~= (|j: int| u32_bit(*self, j)));
            assert(self.spec_capacity() == 32);
        }
        n as usize
    }
}


/// Whether bit `index` of `x` is set.
pub open spec fn u64_bit(x: u64, index: int) -> bool {
    (x >> (index as u64)) & 1u64 == 1u64
}

/// `u64::count_ones`: the number of ones in the binary representation of `x`, that is the
/// number of bit positions below 64 whose bit is set.
#[verifier::external_body]
fn u64_count_ones(x: u64) -> (r: u32)
    ensures
        r == true_indices_below(|j: int| u64_bit(x, j), 64).len(),
{
    x.count_ones()
}

/// Reading bit `i` through a mask, setting it and clearing it, each leaving the other bits
/// unchanged.
proof fn lemma_u64_bits(x: u64, i: u64, j: u64)
    by (bit_vector)
    requires
        i < 64,
        j < 64,
    ensures
        ((x & (1u64 << i)) > 0) == ((x >> i) & 1u64 == 1u64),
        ((x | (1u64 << i)) >> j) & 1u64 == if j == i {
            1u64
        } else {
            (x >> j) & 1u64
        },
        ((x & !(1u64 << i)) >> j) & 1u64 == if j == i {
            0u64
        } else {
            (x >> j) & 1u64
        },
{
}

impl Bitset for u64 {
    open spec fn spec_capacity(&self) -> nat {
        64
    }

    open spec fn spec_index(&self, index: int) -> bool {
        u64_bit(*self, index)
    }

    open spec fn spec_well_formed(&self) -> bool {
        true
    }

    open spec fn spec_get_allowed(&self, index: int) -> bool {
        0 <= index < 64
    }

    proof fn lemma_well_formed(&self) {
        assert(self.spec_capacity() == 64);
        assert forall|index: int| 0 <= index < 64 implies #[trigger] self.spec_get_allowed(index) by {}
    }

    fn capacity(&self) -> (r: usize) {
        u64::BITS as usize
    }

    fn get_index(&self, index: usize) -> (r: bool) {
        assert(self.spec_get_allowed(index as int));
        let i = index as u64;
        let mask: u64 = 1u64 << i;
        proof {
            lemma_u64_bits(*self, i, i);
        }
        *self & mask > 0
    }

    fn set_index(&mut self, index: usize, value: bool) {
        assert(index < 64);
        let i = index as u64;
        let mask: u64 = 1u64 << i;
        let ghost x = *self;
        if value {
            *self = *self | mask;
        } else {
            *self = *self & !mask;
        }
        proof {
            assert forall|j: int| 0 <= j < 64 implies #[trigger] self.spec_index(j) == (if j
                == index {
                value
            } else {
                x.spec_index(j)
            }) by {
                lemma_u64_bits(x, i, j as u64);
            }
        }
    }


    fn count(&self) -> (r: usize) {
        let n = u64_count_ones(*self);
        proof {
            assert((|j: int| self.spec_index(j)) =~= (|j: int| u64_bit(*self, j)));
            assert(self.spec_capacity() == 64);
        }
        n as usize
    }
}


/// Whether bit `index` of `x` is set.
pub open spec fn u128_bit(x: u128, index: int) -> bool {
    (x >> (index as u128)) & 1u128 == 1u128
}

/// `u128::count_ones`: the number of ones in the binary representation of `x`, that is the
/// number of bit positions below 128 whose bit is set.
#[verifier::external_body]
fn u128_count_ones(x: u128) -> (r: u32)
    ensures
        r == true_indices_below(|j: int| u128_bit(x, j), 128).len(),
{
    x.count_ones()
}

/// Reading bit `i` through a mask, setting it and clearing it, each leaving the other bits
/// unchanged.
proof fn lemma_u128_bits(x: u128, i: u128, j: u128)
    by (bit_vector)
    requires
        i < 128,
        j < 128,
    ensures
        ((x & (1u128 << i)) > 0) == ((x >> i) & 1u128 == 1u128),
        ((x | (1u128 << i)) >> j) & 1u128 == if j == i {
            1u128
        } else {
            (x >> j) & 1u128
        },
        ((x & !(1u128 << i)) >> j) & 1u128 == if j == i {
            0u128
        } else {
            (x >> j) & 1u128
        },
{
}

impl Bitset for u128 {
    open spec fn spec_capacity(&self) -> nat {
        128
    }

    open spec fn spec_index(&self, index: int) -> bool {
        u128_bit(*self, index)
    }

    open spec fn spec_well_formed(&self) -> bool {
        true
    }

    open spec fn spec_get_allowed(&self, index: int) -> bool {
        0 <= index < 128
    }

    proof fn lemma_well_formed(&self) {
        assert(self.spec_capacity() == 128);
        assert forall|index: int| 0 <= index < 128 implies #[trigger] self.spec_get_allowed(index) by {}
    }

    fn capacity(&self) -> (r: usize) {
        u128::BITS as usize
    }

    fn get_index(&self, index: usize) -> (r: bool) {
        assert(self.spec_get_allowed(index as int));
        let i = index as u128;
        let mask: u128 = 1u128 << i;
        proof {
            lemma_u128_bits(*self, i, i);
        }
        *self & mask > 0
    }

    fn set_index(&mut self, index: usize, value: bool) {
        assert(index < 128);
        let i = index as u128;
        let mask: u128 = 1u128 << i;
        let ghost x = *self;
        if value {
            *self = *self | mask;
        } else {
            *self = *self & !mask;
        }
        proof {
            assert forall|j: int| 0 <= j < 128 implies #[trigger] self.spec_index(j) == (if j
                == index {
                value
            } else {
                x.spec_index(j)
            }) by {
                lemma_u128_bits(x, i, j as u128);
            }
        }
    }


    fn count(&self) -> (r: usize) {
        let n = u128_count_ones(*self);
        proof {
            assert((|j: int| self.spec_index(j)) =~= (|j: int| u128_bit(*self, j)));
            assert(self.spec_capacity() == 128);
        }
        n as usize
    }
}


/// Sum of the capacities of the first `n` bitsets of `s`.
pub open spec fn prefix_capacity<T: Bitset>(s: Seq<T>, n: int) -> nat
    decreases n,
{
    if n <= 0 {
        0
    } else {
        prefix_capacity(s, n - 1) + s[n - 1].spec_capacity()
    }
}

/// Where `index` falls when the bitsets of `s` are walked in order from `from` on, each one
/// taking the next `spec_capacity()` indices: the bitset and the index within it.
pub open spec fn locate<T: Bitset>(s: Seq<T>, from: int, index: int) -> Option<(int, int)>
    decreases s.len() - from,
{
    if from < 0 || from >= s.len() {
        None
    } else if index < s[from].spec_capacity() {
        Some((from, index))
    } else {
        locate(s, from + 1, index - s[from].spec_capacity())
    }
}

/// `locate` finds an index exactly when it lies below the remaining capacity, and the position
/// it finds accounts for the index.
proof fn lemma_locate<T: Bitset>(s: Seq<T>, from: int, index: int)
    requires
        0 <= from <= s.len(),
        0 <= index,
    ensures
        locate(s, from, index) is Some <==> index < prefix_capacity(s, s.len() as int)
            - prefix_capacity(s, from),
        locate(s, from, index) matches Some((a, b)) ==> {
            &&& from <= a < s.len()
            &&& 0 <= b < s[a].spec_capacity()
            &&& prefix_capacity(s, a) - prefix_capacity(s, from) + b == index
        },
    decreases s.len() - from,
{
    lemma_prefix_monotonic(s, from, s.len() as int);
    if from < s.len() {
        assert(prefix_capacity(s, from + 1) == prefix_capacity(s, from) + s[from].spec_capacity());
        lemma_prefix_monotonic(s, from + 1, s.len() as int);
        if index >= s[from].spec_capacity() {
            lemma_locate(s, from + 1, index - s[from].spec_capacity());
        }
    }
}

/// Prefix sums of capacities grow with the prefix.
proof fn lemma_prefix_monotonic<T: Bitset>(s: Seq<T>, m: int, n: int)
    requires
        m <= n,
    ensures
        prefix_capacity(s, m) <= prefix_capacity(s, n),
    decreases n - m,
{
    if m < n {
        lemma_prefix_monotonic(s, m, n - 1);
    }
}

/// `locate` only looks at the capacities of the bitsets.
proof fn lemma_locate_capacities<T: Bitset>(s: Seq<T>, t: Seq<T>, from: int, index: int)
    requires
        s.len() == t.len(),
        forall|k: int| 0 <= k < s.len() ==> #[trigger] s[k].spec_capacity() == t[k].spec_capacity(),
    ensures
        locate(s, from, index) == locate(t, from, index),
    decreases s.len() - from,
{
    if 0 <= from < s.len() && index >= s[from].spec_capacity() {
        lemma_locate_capacities(s, t, from + 1, index - s[from].spec_capacity());
    }
}

/// Prefix sums of capacities only look at the capacities of the bitsets.
proof fn lemma_prefix_capacities<T: Bitset>(s: Seq<T>, t: Seq<T>, n: int)
    requires
        s.len() == t.len(),
        n <= s.len(),
        forall|k: int| 0 <= k < s.len() ==> #[trigger] s[k].spec_capacity() == t[k].spec_capacity(),
    ensures
        prefix_capacity(s, n) == prefix_capacity(t, n),
    decreases n,
{
    if n > 0 {
        lemma_prefix_capacities(s, t, n - 1);
    }
}

/// Index `b` of bitset `a` of a slice of bitsets is index `prefix_capacity(s, a) + b` of the
/// slice: the bitsets follow one another, each taking as many indices as its capacity.
pub proof fn lemma_locate_position<T: Bitset>(s: Seq<T>, a: int, b: int)
    requires
        0 <= a < s.len(),
        0 <= b < s[a].spec_capacity(),
    ensures
        locate(s, 0, prefix_capacity(s, a) + b) == Some((a, b)),
{
    let k = prefix_capacity(s, a) + b;
    assert(prefix_capacity(s, a + 1) == prefix_capacity(s, a) + s[a].spec_capacity());
    lemma_prefix_monotonic(s, a + 1, s.len() as int);
    lemma_prefix_monotonic(s, 0, a);
    lemma_locate(s, 0, k);
    let (a2, b2) = locate(s, 0, k).unwrap();
    assert(prefix_capacity(s, a2 + 1) == prefix_capacity(s, a2) + s[a2].spec_capacity());
    if a2 < a {
        lemma_prefix_monotonic(s, a2 + 1, a);
    } else if a2 > a {
        lemma_prefix_monotonic(s, a + 1, a2);
    }
}

/// Locating an index in a slice of bitsets: there is no position exactly when the index is at
/// least the total capacity; otherwise the position is the first bitset whose capacity, added to
/// those before it, covers the index, and the index within it is what is left after the
/// capacities of the bitsets before it.
pub proof fn lemma_locate_first<T: Bitset>(s: Seq<T>, index: int)
    requires
        0 <= index,
    ensures
        locate(s, 0, index) is None <==> index >= prefix_capacity(s, s.len() as int),
        locate(s, 0, index) matches Some((a, b)) ==> {
            &&& 0 <= a < s.len()
            &&& b == index - prefix_capacity(s, a)
            &&& 0 <= b < s[a].spec_capacity()
            &&& index < prefix_capacity(s, a + 1)
            &&& forall|k: int| 0 <= k < a ==> index >= #[trigger] prefix_capacity(s, k + 1)
        },
{
    lemma_locate(s, 0, index);
    if let Some((a, b)) = locate(s, 0, index) {
        assert(prefix_capacity(s, a + 1) == prefix_capacity(s, a) + s[a].spec_capacity());
        assert forall|k: int| 0 <= k < a implies index >= #[trigger] prefix_capacity(s, k + 1) by {
            lemma_prefix_monotonic(s, k + 1, a);
        }
    }
}

/// Find the bitset of `arr` that holds `index`, and the index within that bitset: none when the
/// index is at least the total capacity; otherwise the first bitset whose capacity, added to
/// those before it, covers the index, and what is left of the index after the capacities of the
/// bitsets before it.
pub fn get_inner_bitset_at<T: Bitset>(arr: &[T], index: usize) -> (r: Option<(usize, usize)>)
    requires
        forall|k: int| 0 <= k < arr@.len() ==> #[trigger] arr@[k].spec_well_formed(),
    ensures
        match r {
            Some((a, b)) => locate(arr@, 0, index as int) == Some((a as int, b as int)),
            None => locate(arr@, 0, index as int) is None,
        },
        r is None <==> index >= prefix_capacity(arr@, arr@.len() as int),
        r matches Some((a, b)) ==> {
            &&& a < arr@.len()
            &&& b == index - prefix_capacity(arr@, a as int)
            &&& b < arr@[a as int].spec_capacity()
            &&& index < prefix_capacity(arr@, a + 1)
            &&& forall|k: int| 0 <= k < a ==> index >= #[trigger] prefix_capacity(arr@, k + 1)
        },
{
    let mut i: usize = 0;
    let mut rem: usize = index;
    while i < arr.len()
        invariant
            i <= arr@.len(),
            forall|k: int| 0 <= k < arr@.len() ==> #[trigger] arr@[k].spec_well_formed(),
            locate(arr@, 0, index as int) == locate(arr@, i as int, rem as int),
        decreases arr@.len() - i,
    {
        let c = arr[i].capacity();
        match rem.checked_sub(c) {
            None => {
                proof {
                    lemma_locate_first(arr@, index as int);
                }
                return Some((i, rem));
            },
            Some(v) => {
                rem = v;
            },
        }
        i = i + 1;
    }
    proof {
        lemma_locate_first(arr@, index as int);
    }
    None
}

impl<'a, T: Bitset> Bitset for &'a mut [T] {
    open spec fn spec_capacity(&self) -> nat {
        prefix_capacity((**self)@, (**self)@.len() as int)
    }

    open spec fn spec_index(&self, index: int) -> bool {
        match locate((**self)@, 0, index) {
            Some((a, b)) => (**self)@[a].spec_index(b),
            None => false,
        }
    }

    open spec fn spec_well_formed(&self) -> bool {
        &&& forall|k: int| 0 <= k < (**self)@.len() ==> #[trigger] (**self)@[k].spec_well_formed()
        &&& prefix_capacity((**self)@, (**self)@.len() as int) <= usize::MAX
    }

    open spec fn spec_get_allowed(&self, index: int) -> bool {
        0 <= index < self.spec_capacity()
    }

    proof fn lemma_well_formed(&self) {
        assert forall|index: int| 0 <= index < self.spec_capacity() implies #[trigger] self.spec_get_allowed(index) by {}
    }

    fn capacity(&self) -> (r: usize) {
        let arr: &[T] = &**self;
        let mut total: usize = 0;
        let mut i: usize = 0;
        while i < arr.len()
            invariant
                arr@ == (**self)@,
                i <= arr@.len(),
                forall|k: int| 0 <= k < arr@.len() ==> #[trigger] arr@[k].spec_well_formed(),
                prefix_capacity(arr@, arr@.len() as int) <= usize::MAX,
                total == prefix_capacity(arr@, i as int),
            decreases arr@.len() - i,
        {
            proof {
                lemma_prefix_monotonic(arr@, i + 1, arr@.len() as int);
            }
            total = total + arr[i].capacity();
            i = i + 1;
        }
        total
    }

    fn get_index(&self, index: usize) -> (r: bool) {
        let arr: &[T] = &**self;
        proof {
            lemma_locate(arr@, 0, index as int);
        }
        match get_inner_bitset_at(arr, index) {
            None => false,
            Some((bitset_index, inner_index)) => {
                proof {
                    arr@[bitset_index as int].lemma_well_formed();
                }
                arr[bitset_index].get_index(inner_index)
            },
        }
    }

    fn set_index(&mut self, index: usize, value: bool) {
        let ghost before = (**self)@;
        proof {
            lemma_locate(before, 0, index as int);
        }
        let (bitset_index, inner_index) = match get_inner_bitset_at(&**self, index) {
            Some(p) => p,
            None => {
                proof {
                    assert(false);
                }
                (0, 0)
            },
        };
        (**self)[bitset_index].set_index(inner_index, value);
        let ghost after = (**self)@;
        proof {
            let bi = bitset_index as int;
            let ii = inner_index as int;
            assert(after == before.update(bi, after[bi]));
            assert forall|k: int| 0 <= k < before.len() implies #[trigger] before[k].spec_capacity()
                == after[k].spec_capacity() by {
                if k != bi {
                    assert(after[k] == before[k]);
                }
            }
            lemma_prefix_capacities(before, after, before.len() as int);
            assert forall|j: int| 0 <= j < before.len() implies #[trigger] after[j].spec_well_formed() by {
                if j != bi {
                    assert(after[j] == before[j]);
                }
            }
            lemma_locate_capacities(before, after, 0, index as int);
            assert forall|j: int|
                0 <= j < prefix_capacity(before, before.len() as int) && j != index implies #[trigger] self.spec_index(j)
                == old(self).spec_index(j) by {
                lemma_locate(before, 0, j);
                lemma_locate_capacities(before, after, 0, j);
                let (a, b) = locate(before, 0, j).unwrap();
                if a != bi {
                    assert(after[a] == before[a]);
                } else {
                    assert(b != ii);
                }
            }
        }
    }
}

/// Type alias for a bitset with a capacity of 32 slots.
pub type ChannelMap32 = u32;

/// Type alias for a bitset with a capacity of 64 slots.
pub type ChannelMap64 = u64;

/// Type alias for a bitset with a capacity of 128 slots.
pub type ChannelMap128 = u128;

} // verus!
