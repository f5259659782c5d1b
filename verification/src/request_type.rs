//! Request-type flags of a lattice: a seven-bit set with bitwise combinators.
use std::ops::{BitAnd, BitAndAssign, BitOr, BitOrAssign, BitXor, BitXorAssign, Not};
use vstd::prelude::*;
use vstd::std_specs::ops::{BitAndSpecImpl, BitOrSpecImpl, BitXorSpecImpl, NotSpecImpl};

verus! {

/// A set of request flags, one bit each. Only the low seven bits name a flag.
#[derive(Debug, Clone, Copy, PartialEq, Eq, PartialOrd, Ord, Hash, Structural)]
pub struct RequestType(pub u8);

/// Only the best path is computed.
pub const ONE_BEST: u8 = 1;

/// The N best paths can be enumerated.
pub const N_BEST: u8 = 2;

/// Partial parsing under constraints.
pub const PARTIAL: u8 = 4;

/// Marginal probabilities are computed.
pub const MARGINAL_PROB: u8 = 8;

/// Alternative candidates are kept.
pub const ALTERNATIVE: u8 = 16;

/// Every morph is enumerated.
pub const ALL_MORPHS: u8 = 32;

/// The sentence is copied into the lattice.
pub const ALLOC_SENTENCE: u8 = 64;

/// Mask of the seven bits that name a flag.
pub const ALL_FLAGS: u8 = 127;

impl RequestType {
    /// Only the best path is computed.
    pub fn one_best() -> (r: Self)
        ensures
            r == RequestType(ONE_BEST),
    {
        Self(ONE_BEST)
    }

    /// The N best paths can be enumerated.
    pub fn n_best() -> (r: Self)
        ensures
            r == RequestType(N_BEST),
    {
        Self(N_BEST)
    }

    /// Partial parsing under constraints.
    pub fn partial() -> (r: Self)
        ensures
            r == RequestType(PARTIAL),
    {
        Self(PARTIAL)
    }

    /// Marginal probabilities are computed.
    pub fn marginal_prob() -> (r: Self)
        ensures
            r == RequestType(MARGINAL_PROB),
    {
        Self(MARGINAL_PROB)
    }

    /// Alternative candidates are kept.
    pub fn alternative() -> (r: Self)
        ensures
            r == RequestType(ALTERNATIVE),
    {
        Self(ALTERNATIVE)
    }

    /// Every morph is enumerated.
    pub fn all_morphs() -> (r: Self)
        ensures
            r == RequestType(ALL_MORPHS),
    {
        Self(ALL_MORPHS)
    }

    /// The sentence is copied into the lattice.
    pub fn alloc_sentence() -> (r: Self)
        ensures
            r == RequestType(ALLOC_SENTENCE),
    {
        Self(ALLOC_SENTENCE)
    }

    /// The bit pattern of the set.
    pub open spec fn bits(self) -> u8 {
        self.0
    }

    /// The complement within the seven flags; a higher bit is kept as it is.
    pub open spec fn complement(self) -> RequestType {
        RequestType(ALL_FLAGS ^ self.0)
    }

    /// Whether every flag of `other` is in `self`.
    pub open spec fn has(self, other: RequestType) -> bool {
        self.bits() & other.bits() == other.bits()
    }

    /// The set with the given bit pattern.
    pub fn from_int(n: u8) -> (r: Self)
        ensures
            r == RequestType(n),
    {
        Self(n)
    }

    /// The bit pattern of the set.
    pub fn to_int(self) -> (n: u8)
        ensures
            n == self.bits(),
    {
        self.0
    }

    /// Whether every flag of `other` is set in `self`.
    pub fn contains(self, other: RequestType) -> (b: bool)
        ensures
            b == self.has(other),
    {
        self.0 & other.0 == other.0
    }
}

impl BitAnd for RequestType {
    type Output = Self;

    /// The intersection of the two sets.
    fn bitand(self, rhs: Self) -> (r: Self)
        ensures
            r == RequestType(self.0 & rhs.0),
    {
        Self(self.0 & rhs.0)
    }
}

impl BitAndSpecImpl for RequestType {
    open spec fn obeys_bitand_spec() -> bool {
        true
    }

    open spec fn bitand_req(self, rhs: Self) -> bool {
        true
    }

    open spec fn bitand_spec(self, rhs: Self) -> Self {
        RequestType(self.0 & rhs.0)
    }
}

impl BitAndAssign for RequestType {
    /// Replaces the set by its intersection with `rhs`.
    fn bitand_assign(&mut self, rhs: Self)
        ensures
            *final(self) == RequestType(old(self).0 & rhs.0),
    {
        self.0 = self.0 & rhs.0;
    }
}

impl BitOr for RequestType {
    type Output = Self;

    /// The union of the two sets.
    fn bitor(self, rhs: Self) -> (r: Self)
        ensures
            r == RequestType(self.0 | rhs.0),
    {
        Self(self.0 | rhs.0)
    }
}

impl BitOrSpecImpl for RequestType {
    open spec fn obeys_bitor_spec() -> bool {
        true
    }

    open spec fn bitor_req(self, rhs: Self) -> bool {
        true
    }

    open spec fn bitor_spec(self, rhs: Self) -> Self {
        RequestType(self.0 | rhs.0)
    }
}

impl BitOrAssign for RequestType {
    /// Replaces the set by its union with `rhs`.
    fn bitor_assign(&mut self, rhs: Self)
        ensures
            *final(self) == RequestType(old(self).0 | rhs.0),
    {
        self.0 = self.0 | rhs.0;
    }
}

impl BitXor for RequestType {
    type Output = Self;

    /// The symmetric difference of the two sets.
    fn bitxor(self, rhs: Self) -> (r: Self)
        ensures
            r == RequestType(self.0 ^ rhs.0),
    {
        Self(self.0 ^ rhs.0)
    }
}

impl BitXorSpecImpl for RequestType {
    open spec fn obeys_bitxor_spec() -> bool {
        true
    }

    open spec fn bitxor_req(self, rhs: Self) -> bool {
        true
    }

    open spec fn bitxor_spec(self, rhs: Self) -> Self {
        RequestType(self.0 ^ rhs.0)
    }
}

impl BitXorAssign for RequestType {
    /// Replaces the set by its symmetric difference with `rhs`.
    fn bitxor_assign(&mut self, rhs: Self)
        ensures
            *final(self) == RequestType(old(self).0 ^ rhs.0),
    {
        self.0 = self.0 ^ rhs.0;
    }
}

impl Not for RequestType {
    type Output = Self;

    /// The complement within the seven flags; a higher bit is kept as it is.
    fn not(self) -> (r: Self)
        ensures
            r == self.complement(),
    {
        Self(ALL_FLAGS ^ self.0)
    }
}

impl NotSpecImpl for RequestType {
    open spec fn obeys_not_spec() -> bool {
        true
    }

    open spec fn not_req(self) -> bool {
        true
    }

    open spec fn not_spec(self) -> Self {
        self.complement()
    }
}

/// Within the seven flags, the complement of the complement of a set is the
/// set itself.
pub proof fn lemma_complement_twice(r: RequestType)
    ensures
        r.complement().complement() == r,
        r.0 <= ALL_FLAGS ==> r.complement().0 <= ALL_FLAGS,
        r.0 <= ALL_FLAGS ==> r.complement().0 & r.0 == 0,
        r.0 <= ALL_FLAGS ==> r.complement().0 | r.0 == ALL_FLAGS,
{
    let x = r.0;
    assert(127u8 ^ (127u8 ^ x) == x) by (bit_vector);
    assert(x <= 127u8 ==> (127u8 ^ x) <= 127u8) by (bit_vector);
    assert(x <= 127u8 ==> (127u8 ^ x) & x == 0u8) by (bit_vector);
    assert(x <= 127u8 ==> (127u8 ^ x) | x == 127u8) by (bit_vector);
}

/// A set to which flags are added has them all and keeps what it had; a set
/// from which flags are taken has none of them and keeps every other flag
/// it had.
pub proof fn lemma_add_and_remove(r: RequestType, flags: RequestType, other: RequestType)
    ensures
        RequestType(r.0 | flags.0).has(flags),
        RequestType(r.0 | flags.0).has(r),
        RequestType(r.0 & !flags.0).0 & flags.0 == 0,
        r.has(other) && other.0 & flags.0 == 0 ==> RequestType(r.0 & !flags.0).has(other),
        r.has(flags) ==> RequestType(r.0 | flags.0) == r,
{
    let x = r.0;
    let f = flags.0;
    let o = other.0;
    assert((x | f) & f == f) by (bit_vector);
    assert((x | f) & x == x) by (bit_vector);
    assert((x & !f) & f == 0u8) by (bit_vector);
    assert(x & o == o && o & f == 0u8 ==> (x & !f) & o == o) by (bit_vector);
    assert(x & f == f ==> x | f == x) by (bit_vector);
}

} // verus!
