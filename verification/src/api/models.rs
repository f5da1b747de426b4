//! Users and areas as the orchestrator presents them.

use vstd::prelude::*;
use vstd::seq_lib::to_multiset_build;
use vstd::seq_lib::to_multiset_remove;
use crate::api::db::SensorEntity;
use crate::api::features::SensorFeatures;
use crate::text::lowercase_of;
use crate::text::to_lowercase;

verus! {

/// A text in lower case, by which names are compared.
#[derive(Debug)]
pub struct NormalizedString(String);

impl View for NormalizedString {
    type V = Seq<char>;

    closed spec fn view(&self) -> Seq<char> {
        self.0@
    }
}

impl NormalizedString {
    /// The lower-case form of `s`.
    pub fn new(s: &str) -> (n: NormalizedString)
        ensures
            n@ == lowercase_of(s@),
    {
        NormalizedString(to_lowercase(s))
    }

    /// The text.
    pub fn as_str(&self) -> (s: &str)
        ensures
            s@ == self@,
    {
        self.0.as_str()
    }
}

impl Clone for NormalizedString {
    fn clone(&self) -> (n: NormalizedString)
        ensures
            n == *self,
    {
        NormalizedString(self.0.clone())
    }
}

/// A user of the orchestrator.
#[derive(Debug)]
pub struct User {
    pub id: i64,
    pub name: String,
}

impl Clone for User {
    fn clone(&self) -> (u: User)
        ensures
            u == *self,
    {
        User { id: self.id, name: self.name.clone() }
    }
}

/// An area with the sensors that stand in it.
#[derive(Debug)]
pub struct Area {
    pub id: i64,
    pub name: String,
    pub sensors: Vec<SensorEntity>,
}

/// The members of the feature sets of `sensors`, sensor after sensor.
pub open spec fn all_members(sensors: Seq<SensorEntity>) -> Seq<SensorFeatures>
    decreases sensors.len(),
{
    if sensors.len() == 0 {
        Seq::empty()
    } else {
        all_members(sensors.drop_last()) + sensors.last().features.member_sets()
    }
}

/// The sets are in ascending order of their bits.
pub open spec fn ascending(sets: Seq<SensorFeatures>) -> bool {
    forall|i: int, j: int| 0 <= i <= j < sets.len() ==> sets[i]@ <= sets[j]@
}

/// Puts `x` into the ascending list `v`, behind the members that are not
/// greater.
fn insert_ascending(v: &mut Vec<SensorFeatures>, x: SensorFeatures)
    requires
        ascending(old(v)@),
    ensures
        ascending(final(v)@),
        final(v)@.to_multiset() == old(v)@.to_multiset().insert(x),
{
    let n = v.len();
    let mut i: usize = 0;
    while i < n && v[i].bits() <= x.bits()
        invariant
            i <= n == v@.len(),
            v@ == old(v)@,
            forall|k: int| 0 <= k < i ==> v@[k]@ <= x@,
        decreases n - i,
    {
        i += 1;
    }
    v.insert(i, x);
    proof {
        let before = old(v)@;
        let after = v@;
        assert(after.remove(i as int) =~= before);
        to_multiset_remove(after, i as int);
        assert(after[i as int] == x);
        after.to_multiset_ensures();
        assert(after.contains(x));
        assert(after.to_multiset() =~= before.to_multiset().insert(x));
        assert forall|a: int, b: int| 0 <= a <= b < after.len() implies after[a]@ <= after[b]@ by {
            if a < i && b > i {
                assert(after[a] == before[a]);
                assert(after[b] == before[b - 1]);
            } else if a < i && b < i {
                assert(after[a] == before[a]);
                assert(after[b] == before[b]);
            } else if a > i {
                assert(after[a] == before[a - 1]);
                assert(after[b] == before[b - 1]);
            } else if a == i && b > i {
                assert(after[b] == before[b - 1]);
                assert(before[i as int]@ > x@);
            } else if b == i && a < i {
                assert(after[a] == before[a]);
            }
        }
    }
}

impl Area {
    /// The features that the sensors of the area offer: the members of
    /// every sensor's feature set, in ascending order of their bits. A
    /// feature that several sensors offer occurs once for each of them.
    pub fn features(&self) -> (v: Vec<SensorFeatures>)
        ensures
            ascending(v@),
            v@.to_multiset() == all_members(self.sensors@).to_multiset(),
    {
        let mut sorted: Vec<SensorFeatures> = Vec::new();
        let ghost mut seen: Seq<SensorFeatures> = Seq::empty();
        let n = self.sensors.len();
        let mut i: usize = 0;
        assert(self.sensors@.take(0) =~= Seq::<SensorEntity>::empty());
        while i < n
            invariant
                i <= n == self.sensors@.len(),
                ascending(sorted@),
                seen == all_members(self.sensors@.take(i as int)),
                sorted@.to_multiset() == seen.to_multiset(),
            decreases n - i,
        {
            let members = self.sensors[i].features.iter();
            let m = members.len();
            let mut j: usize = 0;
            let ghost base = seen;
            assert(members@.take(0) =~= Seq::<SensorFeatures>::empty());
            assert(base + members@.take(0) =~= base);
            while j < m
                invariant
                    j <= m == members@.len(),
                    ascending(sorted@),
                    seen == base + members@.take(j as int),
                    sorted@.to_multiset() == seen.to_multiset(),
                decreases m - j,
            {
                insert_ascending(&mut sorted, members[j]);
                proof {
                    to_multiset_build(seen, members@[j as int]);
                    assert(seen.push(members@[j as int]) =~= base + members@.take(j + 1));
                    seen = seen.push(members@[j as int]);
                }
                j += 1;
            }
            proof {
                assert(members@.take(m as int) =~= members@);
                let upto = self.sensors@.take(i + 1);
                assert(upto.drop_last() =~= self.sensors@.take(i as int));
                assert(upto.last() == self.sensors@[i as int]);
            }
            i += 1;
        }
        assert(self.sensors@.take(n as int) =~= self.sensors@);
        sorted
    }
}

} // verus!
