//! Sets of flags that travel as the bits of one integer.

use vstd::prelude::*;

verus! {

/// The set of type `F` that holds exactly the bits `bits`, where every one of
/// them is a flag that `F` has a name for; none where one is not.
pub open spec fn spec_from_bits<F: Flags>(bits: u64) -> Option<F> {
    if bits & !F::named() == 0 {
        Some(F::with_bits(bits))
    } else {
        None
    }
}

/// What every set of flags offers. A type of flags gives its names and the
/// way to and from the bits; the operations on sets come with the trait.
///
/// Every operation that makes a set keeps to the named flags: bits that have
/// no name are cut off. A value that must keep such bits is held in an
/// [`IntegerEnum`](crate::enums::IntegerEnum), which falls back to the
/// integer where [`from_bits`](Flags::from_bits) finds a bit it has no name
/// for.
pub trait Flags: Sized + Copy {
    /// The bits that the set holds.
    spec fn bits_of(self) -> u64;

    /// The set that holds the bits `bits`.
    spec fn with_bits(bits: u64) -> Self;

    /// Every flag that has a name, in one integer.
    spec fn named() -> u64;

    /// A set holds the bits it was made with.
    proof fn lemma_with_bits(bits: u64)
        ensures
            Self::with_bits(bits).bits_of() == bits,
    ;

    /// A set is its bits and nothing more.
    proof fn lemma_bits_are_all(self)
        ensures
            Self::with_bits(self.bits_of()) == self,
    ;

    /// Every flag that has a name, in one integer.
    fn named_bits() -> (r: u64)
        ensures
            r == Self::named(),
    ;

    /// The bits that the set holds.
    fn bits(&self) -> (r: u64)
        ensures
            r == self.bits_of(),
    ;

    /// The set of those bits of `bits` that have a name.
    fn from_bits_truncate(bits: u64) -> (r: Self)
        ensures
            r.bits_of() == bits & Self::named(),
    ;

    /// The set of the bits `bits`; none where a bit of `bits` has no name.
    fn from_bits(bits: u64) -> (r: Option<Self>)
        ensures
            match r {
                Some(f) => bits & !Self::named() == 0 && f.bits_of() == bits,
                None => bits & !Self::named() != 0,
            },
    {
        let named = Self::named_bits();
        if bits & !named == 0 {
            assert(bits & named == bits) by (bit_vector)
                requires
                    bits & !named == 0,
            ;
            Some(Self::from_bits_truncate(bits))
        } else {
            None
        }
    }

    /// The set with no flag in it.
    fn empty() -> (r: Self)
        ensures
            r.bits_of() == 0,
    {
        let named = Self::named_bits();
        assert(0u64 & named == 0) by (bit_vector);
        Self::from_bits_truncate(0)
    }

    /// The set with every named flag in it.
    fn all() -> (r: Self)
        ensures
            r.bits_of() == Self::named(),
    {
        let named = Self::named_bits();
        assert(named & named == named) by (bit_vector);
        Self::from_bits_truncate(named)
    }

    /// Whether no flag is in the set.
    fn is_empty(&self) -> (r: bool)
        ensures
            r == (self.bits_of() == 0),
    {
        self.bits() == 0
    }

    /// Whether every named flag is in the set.
    fn is_all(&self) -> (r: bool)
        ensures
            r == (Self::named() & !self.bits_of() == 0),
    {
        Self::named_bits() & !self.bits() == 0
    }

    /// Whether every flag of `other` is in the set.
    fn contains(&self, other: Self) -> (r: bool)
        ensures
            r == (self.bits_of() & other.bits_of() == other.bits_of()),
    {
        self.bits() & other.bits() == other.bits()
    }

    /// Whether some flag of `other` is in the set.
    fn intersects(&self, other: Self) -> (r: bool)
        ensures
            r == (self.bits_of() & other.bits_of() != 0),
    {
        self.bits() & other.bits() != 0
    }

    /// The flags that are in either set.
    fn union(self, other: Self) -> (r: Self)
        ensures
            r.bits_of() == (self.bits_of() | other.bits_of()) & Self::named(),
    {
        Self::from_bits_truncate(self.bits() | other.bits())
    }

    /// The flags that are in both sets.
    fn intersection(self, other: Self) -> (r: Self)
        ensures
            r.bits_of() == (self.bits_of() & other.bits_of()) & Self::named(),
    {
        Self::from_bits_truncate(self.bits() & other.bits())
    }

    /// The flags that are in the set and not in `other`.
    fn difference(self, other: Self) -> (r: Self)
        ensures
            r.bits_of() == (self.bits_of() & !other.bits_of()) & Self::named(),
    {
        Self::from_bits_truncate(self.bits() & !other.bits())
    }

    /// The flags that are in one of the sets and not in the other.
    fn symmetric_difference(self, other: Self) -> (r: Self)
        ensures
            r.bits_of() == (self.bits_of() ^ other.bits_of()) & Self::named(),
    {
        Self::from_bits_truncate(self.bits() ^ other.bits())
    }

    /// The named flags that are not in the set.
    fn complement(self) -> (r: Self)
        ensures
            r.bits_of() == !self.bits_of() & Self::named(),
    {
        Self::from_bits_truncate(!self.bits())
    }

    /// Puts the flags of `other` into the set.
    fn insert(&mut self, other: Self)
        ensures
            final(self).bits_of() == (old(self).bits_of() | other.bits_of()) & Self::named(),
    {
        *self = Self::from_bits_truncate(self.bits() | other.bits());
    }

    /// Takes the flags of `other` out of the set.
    fn remove(&mut self, other: Self)
        ensures
            final(self).bits_of() == (old(self).bits_of() & !other.bits_of()) & Self::named(),
    {
        *self = Self::from_bits_truncate(self.bits() & !other.bits());
    }

    /// Takes out the flags of `other` that are in the set and puts in those
    /// that are not.
    fn toggle(&mut self, other: Self)
        ensures
            final(self).bits_of() == (old(self).bits_of() ^ other.bits_of()) & Self::named(),
    {
        *self = Self::from_bits_truncate(self.bits() ^ other.bits());
    }

    /// Puts the flags of `other` in where `value` is true, takes them out
    /// where it is false.
    fn set(&mut self, other: Self, value: bool)
        ensures
            final(self).bits_of() == (if value {
                    old(self).bits_of() | other.bits_of()
                } else {
                    old(self).bits_of() & !other.bits_of()
                }) & Self::named(),
    {
        if value {
            self.insert(other);
        } else {
            self.remove(other);
        }
    }
}

/// Whatever bits come in go out again: a set made from bits holds those
/// bits, and bits with a flag that has no name make no set, so that the one
/// who holds them keeps them as they came.
pub proof fn lemma_bits_round_trip<F: Flags>(bits: u64)
    ensures
        spec_from_bits::<F>(bits) matches Some(f) ==> f.bits_of() == bits,
        spec_from_bits::<F>(bits) is None <==> bits & !F::named() != 0,
{
    F::lemma_with_bits(bits);
}

/// Two sets with the same bits are the same set.
pub proof fn lemma_same_bits<F: Flags>(a: F, b: F)
    requires
        a.bits_of() == b.bits_of(),
    ensures
        a == b,
{
    a.lemma_bits_are_all();
    b.lemma_bits_are_all();
}

} // verus!
