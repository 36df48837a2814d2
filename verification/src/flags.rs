//! Typed sets of flags, kept as one machine word.

use core::marker::PhantomData;
use vstd::prelude::*;

verus! {

/// An enumeration whose values each own one bit of a word.
pub trait BitFlag: Copy {
    /// The bit that this flag owns.
    spec fn mask(self) -> u32;

    /// The bits of all flags of the enumeration together.
    spec fn all_mask() -> u32;

    /// The bit that this flag owns.
    fn bit(self) -> (bit: u32)
        ensures
            bit == self.mask(),
    ;

    /// The bits of all flags of the enumeration together.
    fn all_bits() -> (bits: u32)
        ensures
            bits == Self::all_mask(),
    ;

    /// A flag owns exactly one bit, which is one of the known bits.
    proof fn owns_one_known_bit(self)
        ensures
            self.mask() != 0,
            self.mask() & ((self.mask() - 1) as u32) == 0,
            self.mask() & !Self::all_mask() == 0,
    ;

    /// No two flags share a bit.
    proof fn owns_bit_alone(self, other: Self)
        ensures
            (self.mask() & other.mask() != 0) == (self == other),
    ;

    /// Two words of known bits that hold the same flags are the same word.
    proof fn flags_fix_the_word(a: u32, b: u32)
        requires
            a & !Self::all_mask() == 0,
            b & !Self::all_mask() == 0,
            forall|flag: Self| (a & flag.mask() != 0) == (b & #[trigger] flag.mask() != 0),
        ensures
            a == b,
    ;
}

/// The flags whose bits are set in `bits`.
pub open spec fn flags_in<T: BitFlag>(bits: u32) -> Set<T> {
    Set::new(|flag: T| bits & flag.mask() != 0)
}

/// Whether `bits` sets no bit that belongs to no flag.
pub open spec fn known_bits<T: BitFlag>(bits: u32) -> bool {
    bits & !T::all_mask() == 0
}

/// A set of flags.
#[derive(Debug)]
pub struct BitFlags<T: BitFlag> {
    bits: u32,
    flag: PhantomData<T>,
}

impl<T: BitFlag> View for BitFlags<T> {
    type V = Set<T>;

    closed spec fn view(&self) -> Set<T> {
        flags_in(self.bits)
    }
}

impl<T: BitFlag> Clone for BitFlags<T> {
    fn clone(&self) -> (r: Self)
        ensures
            r == *self,
    {
        *self
    }
}

impl<T: BitFlag> Copy for BitFlags<T> {

}

impl<T: BitFlag> PartialEq for BitFlags<T> {
    fn eq(&self, other: &Self) -> (r: bool) {
        proof {
            use_type_invariant(self);
            use_type_invariant(other);
            if self@ == other@ {
                assert forall|flag: T|
                    (self.bits & flag.mask() != 0) == (other.bits & #[trigger] flag.mask() != 0) by {
                    assert(self@.contains(flag) == other@.contains(flag));
                }
                T::flags_fix_the_word(self.bits, other.bits);
            }
        }
        self.bits == other.bits
    }
}

impl<T: BitFlag> vstd::std_specs::cmp::PartialEqSpecImpl for BitFlags<T> {
    open spec fn obeys_eq_spec() -> bool {
        true
    }

    open spec fn eq_spec(&self, other: &Self) -> bool {
        self@ == other@
    }
}

impl<T: BitFlag> Eq for BitFlags<T> {

}

impl<T: BitFlag> BitFlags<T> {
    #[verifier::type_invariant]
    spec fn wf(self) -> bool {
        known_bits::<T>(self.bits)
    }

    /// The set without any flag.
    pub fn empty() -> (r: Self)
        ensures
            r@ == Set::<T>::empty(),
    {
        proof {
            let all = T::all_mask();
            assert(0u32 & !all == 0) by (bit_vector);
        }
        let r = BitFlags { bits: 0, flag: PhantomData };
        proof {
            assert forall|flag: T| !r@.contains(flag) by {
                let m = flag.mask();
                assert(0u32 & m == 0) by (bit_vector);
            }
            assert(r@ =~= Set::<T>::empty());
        }
        r
    }

    /// The set of one flag.
    pub fn from_flag(flag: T) -> (r: Self)
        ensures
            r@ == Set::<T>::empty().insert(flag),
    {
        proof {
            flag.owns_one_known_bit();
        }
        let r = BitFlags { bits: flag.bit(), flag: PhantomData };
        proof {
            assert forall|other: T| r@.contains(other) == (other == flag) by {
                flag.owns_bit_alone(other);
            }
            assert(r@ =~= Set::<T>::empty().insert(flag));
        }
        r
    }

    /// The set whose word is `bits`; there is none where `bits` sets a bit of no flag.
    pub fn from_bits(bits: u32) -> (r: Option<Self>)
        ensures
            r is Some <==> known_bits::<T>(bits),
            r matches Some(set) ==> set@ == flags_in::<T>(bits),
    {
        if bits & !T::all_bits() == 0 {
            Some(BitFlags { bits, flag: PhantomData })
        } else {
            None
        }
    }

    /// The word that holds the set.
    pub fn bits(&self) -> (bits: u32)
        ensures
            known_bits::<T>(bits),
            flags_in::<T>(bits) == self@,
    {
        proof {
            use_type_invariant(self);
        }
        self.bits
    }

    /// Whether the set holds `flag`.
    pub fn contains(&self, flag: T) -> (r: bool)
        ensures
            r == self@.contains(flag),
    {
        self.bits & flag.bit() != 0
    }

    /// Whether the set holds no flag.
    pub fn is_empty(&self) -> (r: bool)
        ensures
            r == (self@ == Set::<T>::empty()),
    {
        *self == Self::empty()
    }

    /// The flags of either set.
    pub fn union(self, other: Self) -> (r: Self)
        ensures
            r@ == self@.union(other@),
    {
        let bits: u32 = self.bits | other.bits;
        proof {
            use_type_invariant(&self);
            use_type_invariant(&other);
            let a = self.bits;
            let b = other.bits;
            let all = T::all_mask();
            assert((a | b) & !all == 0) by (bit_vector)
                requires
                    a & !all == 0,
                    b & !all == 0,
            ;
        }
        let r = BitFlags { bits, flag: PhantomData };
        proof {
            assert forall|flag: T|
                r@.contains(flag) == (self@.contains(flag) || other@.contains(flag)) by {
                let a = self.bits;
                let b = other.bits;
                let m = flag.mask();
                assert(((a | b) & m != 0) == (a & m != 0 || b & m != 0)) by (bit_vector);
            }
            assert(r@ =~= self@.union(other@));
        }
        r
    }

    /// The flags of both sets.
    pub fn intersection(self, other: Self) -> (r: Self)
        ensures
            r@ == self@.intersect(other@),
    {
        let bits: u32 = self.bits & other.bits;
        proof {
            use_type_invariant(&self);
            let a = self.bits;
            let b = other.bits;
            let all = T::all_mask();
            assert((a & b) & !all == 0) by (bit_vector)
                requires
                    a & !all == 0,
            ;
        }
        let r = BitFlags { bits, flag: PhantomData };
        proof {
            assert forall|flag: T|
                r@.contains(flag) == (self@.contains(flag) && other@.contains(flag)) by {
                let a = self.bits;
                let b = other.bits;
                let m = flag.mask();
                flag.owns_one_known_bit();
                assert(((a & b) & m != 0) == (a & m != 0 && b & m != 0)) by (bit_vector)
                    requires
                        m != 0,
                        m & ((m - 1) as u32) == 0,
                ;
            }
            assert(r@ =~= self@.intersect(other@));
        }
        r
    }

    /// The set with `flag` added.
    pub fn with(self, flag: T) -> (r: Self)
        ensures
            r@ == self@.insert(flag),
    {
        let r = self.union(Self::from_flag(flag));
        assert(r@ =~= self@.insert(flag));
        r
    }
}

/// A word of known bits and the set that it holds determine each other: reading the word of a
/// set back gives the set, and no other word of known bits holds it.
pub proof fn word_and_set_determine_each_other<T: BitFlag>(a: u32, b: u32)
    requires
        known_bits::<T>(a),
        known_bits::<T>(b),
    ensures
        flags_in::<T>(a) == flags_in::<T>(b) <==> a == b,
{
    if flags_in::<T>(a) == flags_in::<T>(b) {
        assert forall|flag: T| (a & flag.mask() != 0) == (b & #[trigger] flag.mask() != 0) by {
            assert(flags_in::<T>(a).contains(flag) == flags_in::<T>(b).contains(flag));
        }
        T::flags_fix_the_word(a, b);
    }
}

} // verus!
