//! The capability set that a sensor advertises: named bits for what this
//! system knows, and room for bits that newer firmware may report.

use vstd::prelude::*;

verus! {

/// Bit of the temperature capability.
pub const TEMPERATURE: u32 = 1;

/// Bit of the motion capability.
pub const MOTION: u32 = 2;

/// All bits that have a name.
pub const KNOWN: u32 = 3;

/// A set of sensor capabilities. Bits without a name are kept as they are.
#[derive(Debug, Clone, Copy, PartialEq, Eq, Structural)]
pub struct SensorFeatures {
    bits: u32,
}

impl View for SensorFeatures {
    type V = u32;

    closed spec fn view(&self) -> u32 {
        self.bits
    }
}

/// The members of the set `bits`, as `iter` yields them: each named
/// capability that is present, in the order of the names, then all
/// unnamed bits together as one last member.
pub open spec fn members(bits: u32) -> Seq<u32> {
    let named = (if bits & TEMPERATURE == TEMPERATURE {
        seq![TEMPERATURE]
    } else {
        Seq::<u32>::empty()
    }) + (if bits & MOTION == MOTION {
        seq![MOTION]
    } else {
        Seq::<u32>::empty()
    });
    if bits & !KNOWN != 0 {
        named.push(bits & !KNOWN)
    } else {
        named
    }
}

impl SensorFeatures {
    /// The empty set.
    pub fn empty() -> (f: SensorFeatures)
        ensures
            f@ == 0,
    {
        SensorFeatures { bits: 0 }
    }

    /// The set with the temperature capability only.
    pub fn temperature() -> (f: SensorFeatures)
        ensures
            f@ == TEMPERATURE,
    {
        SensorFeatures { bits: TEMPERATURE }
    }

    /// The set with the motion capability only.
    pub fn motion() -> (f: SensorFeatures)
        ensures
            f@ == MOTION,
    {
        SensorFeatures { bits: MOTION }
    }

    /// The set with exactly these bits, named or not.
    pub fn from_bits_retain(bits: u32) -> (f: SensorFeatures)
        ensures
            f@ == bits,
    {
        SensorFeatures { bits }
    }

    /// The bits of the set.
    pub fn bits(&self) -> (b: u32)
        ensures
            b == self@,
    {
        self.bits
    }

    /// Whether no capability is present.
    pub fn is_empty(&self) -> (b: bool)
        ensures
            b == (self@ == 0),
    {
        self.bits == 0
    }

    /// Whether every capability of `other` is present.
    pub fn contains(&self, other: SensorFeatures) -> (b: bool)
        ensures
            b == (self@ & other@ == other@),
    {
        self.bits & other.bits == other.bits
    }

    /// The capabilities of either set.
    pub fn union(self, other: SensorFeatures) -> (f: SensorFeatures)
        ensures
            f@ == self@ | other@,
    {
        SensorFeatures { bits: self.bits | other.bits }
    }

    /// Adds the capabilities of `other`.
    pub fn insert(&mut self, other: SensorFeatures)
        ensures
            final(self)@ == old(self)@ | other@,
    {
        self.bits = self.bits | other.bits;
    }

    /// The members of the set as sets of their own.
    pub closed spec fn member_sets(self) -> Seq<SensorFeatures> {
        members(self.bits).map_values(|b: u32| SensorFeatures { bits: b })
    }

    /// The members of the set: each named capability that is present, then
    /// the unnamed bits as one member.
    pub fn iter(&self) -> (v: Vec<SensorFeatures>)
        ensures
            v@ == self.member_sets(),
            v@.map_values(|f: SensorFeatures| f@) == members(self@),
    {
        let mut v: Vec<SensorFeatures> = Vec::new();
        if self.bits & TEMPERATURE == TEMPERATURE {
            v.push(SensorFeatures { bits: TEMPERATURE });
        }
        if self.bits & MOTION == MOTION {
            v.push(SensorFeatures { bits: MOTION });
        }
        let rest = self.bits & !KNOWN;
        if rest != 0 {
            v.push(SensorFeatures { bits: rest });
        }
        assert(v@.map_values(|f: SensorFeatures| f@) =~= members(self@));
        assert(v@ =~= self.member_sets());
        v
    }
}

/// The member sets of a set have the bits of its members.
pub proof fn lemma_member_sets(f: SensorFeatures)
    ensures
        f.member_sets().map_values(|m: SensorFeatures| m@) == members(f@),
        f.member_sets().len() == members(f@).len(),
{
    assert(f.member_sets().map_values(|m: SensorFeatures| m@) =~= members(f@));
}

/// Two sets with the same bits are the same set.
pub proof fn lemma_same_bits(a: SensorFeatures, b: SensorFeatures)
    ensures
        a@ == b@ <==> a == b,
{
}

/// The members of a set are disjoint and together give back the set.
pub proof fn lemma_members_partition(bits: u32)
    ensures
        (bits & TEMPERATURE) | (bits & MOTION) | (bits & !KNOWN) == bits,
        members(bits).len() <= 3,
        bits == 0 <==> members(bits).len() == 0,
{
    assert((bits & 1u32) | (bits & 2u32) | (bits & !3u32) == bits) by (bit_vector);
    assert(bits == 0 <==> (bits & 1u32 != 1u32 && bits & 2u32 != 2u32 && bits & !3u32 == 0))
        by (bit_vector);
}

} // verus!
