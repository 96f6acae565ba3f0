use vstd::prelude::*;

verus! {

/// The value of bit `i` of a byte sequence: bit `i % 8` of byte `i / 8`,
/// counting from the least significant bit.
pub open spec fn bit_of(bytes: Seq<u8>, i: int) -> bool {
    (bytes[i / 8] >> ((i % 8) as u8)) & 1u8 == 1u8
}

/// A fixed-size set of bits stored in a byte buffer.
pub trait BitSet {
    /// Number of addressable bits.
    spec fn bit_len(&self) -> nat;

    /// Whether bit `i` is set.
    spec fn is_set(&self, i: int) -> bool;

    /// Sets bit `bit`, leaving every other bit unchanged.
    fn set_bit(&mut self, bit: usize)
        requires
            bit < old(self).bit_len(),
        ensures
            final(self).bit_len() == old(self).bit_len(),
            final(self).is_set(bit as int),
            forall|j: int|
                0 <= j < old(self).bit_len() && j != bit ==> #[trigger] final(self).is_set(j)
                    == old(self).is_set(j),
    ;

    /// Clears bit `bit`, leaving every other bit unchanged.
    fn unset_bit(&mut self, bit: usize)
        requires
            bit < old(self).bit_len(),
        ensures
            final(self).bit_len() == old(self).bit_len(),
            !final(self).is_set(bit as int),
            forall|j: int|
                0 <= j < old(self).bit_len() && j != bit ==> #[trigger] final(self).is_set(j)
                    == old(self).is_set(j),
    ;

    /// Reads bit `bit`.
    fn bit(&self, bit: usize) -> (r: bool)
        requires
            bit < self.bit_len(),
        ensures
            r == self.is_set(bit as int),
    ;

    /// Clears every bit.
    fn clear_bits(&mut self)
        ensures
            final(self).bit_len() == old(self).bit_len(),
            forall|j: int| 0 <= j < old(self).bit_len() ==> !#[trigger] final(self).is_set(j),
    ;
}

proof fn lemma_or_bit(x: u8, k: u8, j: u8)
    by (bit_vector)
    requires
        k < 8,
        j < 8,
    ensures
        ((x | (1u8 << k)) >> j) & 1u8 == (if j == k {
            1u8
        } else {
            (x >> j) & 1u8
        }),
{
}

proof fn lemma_and_not_bit(x: u8, k: u8, j: u8)
    by (bit_vector)
    requires
        k < 8,
        j < 8,
    ensures
        ((x & !(1u8 << k)) >> j) & 1u8 == (if j == k {
            0u8
        } else {
            (x >> j) & 1u8
        }),
{
}

proof fn lemma_and_bit(x: u8, k: u8)
    by (bit_vector)
    requires
        k < 8,
    ensures
        (x & (1u8 << k) != 0u8) == ((x >> k) & 1u8 == 1u8),
{
}

proof fn lemma_zero_bit(j: u8)
    by (bit_vector)
    requires
        j < 8,
    ensures
        (0u8 >> j) & 1u8 == 0u8,
{
}

proof fn lemma_split_index(bit: usize)
    by (bit_vector)
    ensures
        bit >> 3usize == bit / 8,
        bit & 7usize == bit % 8,
{
}

impl BitSet for [u8] {
    open spec fn bit_len(&self) -> nat {
        8 * self@.len()
    }

    open spec fn is_set(&self, i: int) -> bool {
        bit_of(self@, i)
    }

    fn set_bit(&mut self, bit: usize)
        ensures
            final(self)@.len() == old(self)@.len(),
            bit_of(final(self)@, bit as int),
            forall|j: int|
                0 <= j < 8 * old(self)@.len() && j != bit ==> #[trigger] bit_of(final(self)@, j)
                    == bit_of(old(self)@, j),
    {
        proof {
            lemma_split_index(bit);
        }
        let byte = bit >> 3;
        let shift = (bit & 7) as u8;
        let value = self[byte] | (1u8 << shift);
        self[byte] = value;
        proof {
            assert forall|j: int| 0 <= j < old(self).bit_len() implies #[trigger] bit_of(self@, j)
                == (if j == bit {
                true
            } else {
                bit_of(old(self)@, j)
            }) by {
                lemma_or_bit(old(self)@[byte as int], shift, (j % 8) as u8);
            }
        }
    }

    fn unset_bit(&mut self, bit: usize)
        ensures
            final(self)@.len() == old(self)@.len(),
            !bit_of(final(self)@, bit as int),
            forall|j: int|
                0 <= j < 8 * old(self)@.len() && j != bit ==> #[trigger] bit_of(final(self)@, j)
                    == bit_of(old(self)@, j),
    {
        proof {
            lemma_split_index(bit);
        }
        let byte = bit >> 3;
        let shift = (bit & 7) as u8;
        let value = self[byte] & !(1u8 << shift);
        self[byte] = value;
        proof {
            assert forall|j: int| 0 <= j < old(self).bit_len() implies #[trigger] bit_of(self@, j)
                == (if j == bit {
                false
            } else {
                bit_of(old(self)@, j)
            }) by {
                lemma_and_not_bit(old(self)@[byte as int], shift, (j % 8) as u8);
            }
        }
    }

    fn bit(&self, bit: usize) -> (r: bool) {
        proof {
            lemma_split_index(bit);
        }
        let byte = bit >> 3;
        let shift = (bit & 7) as u8;
        proof {
            lemma_and_bit(self@[byte as int], shift);
        }
        self[byte] & (1u8 << shift) != 0
    }

    fn clear_bits(&mut self)
        ensures
            final(self)@.len() == old(self)@.len(),
            forall|j: int| 0 <= j < 8 * old(self)@.len() ==> !#[trigger] bit_of(final(self)@, j),
    {
        let len = self.len();
        for i in 0..len
            invariant
                len == self@.len(),
                self@.len() == old(self)@.len(),
                forall|k: int| 0 <= k < i ==> self@[k] == 0u8,
        {
            self[i] = 0;
        }
        proof {
            assert forall|j: int| 0 <= j < old(self).bit_len() implies !#[trigger] bit_of(self@, j) by {
                lemma_zero_bit((j % 8) as u8);
            }
        }
    }
}

} // verus!
