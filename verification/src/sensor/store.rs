//! The persisted record of a device: its identity and its confirmed keys,
//! kept in one flash region that is always rewritten as a whole.

use vstd::prelude::*;
use crate::common::Sensor;
use crate::common::SensorView;
use crate::common::StoreUsage;
use crate::sensor::keys::PairedKeys;
use crate::sensor::keys::PAIRED_CAPACITY;
use crate::text::find_bytes;
use crate::text::find_first;
use crate::text::lemma_find_from;
use crate::text::matches_at;

verus! {

/// Offset of the record's region in flash.
pub const OFFSET: u32 = 0x9000;

/// Size of the record's region in flash, in bytes.
pub const CAPACITY: u32 = 0x6000;

/// The value of an erased flash byte. It never occurs in a serialized
/// record, so the first one marks the record's end.
pub const ERASED: u8 = 0xFF;

/// What a device persists.
pub struct Store {
    pub sensor: Sensor,
    pub paired_keys: PairedKeys,
}

/// Mathematical value of a [`Store`].
pub struct StoreView {
    pub sensor: SensorView,
    pub paired_keys: Seq<Seq<u8>>,
}

impl View for Store {
    type V = StoreView;

    open spec fn view(&self) -> StoreView {
        StoreView { sensor: self.sensor@, paired_keys: self.paired_keys@ }
    }
}

impl Default for Store {
    /// The record of a device on its first boot: no name, no location, no
    /// features, no keys.
    fn default() -> (s: Store)
        ensures
            s@ == (StoreView {
                sensor: SensorView { name: Seq::empty(), location: Seq::empty(), features: 0 },
                paired_keys: Seq::empty(),
            }),
    {
        Store { sensor: Sensor::default(), paired_keys: PairedKeys::new() }
    }
}

/// The length of the record in a region: the offset of the first erased
/// byte, or the whole region if there is none.
pub open spec fn used_len(region: Seq<u8>) -> int {
    match find_first(region, seq![ERASED]) {
        Some(i) => i,
        None => region.len() as int,
    }
}

/// The region that holds `payload`: the payload, then erased bytes up to
/// `capacity`.
pub open spec fn image(payload: Seq<u8>, capacity: nat) -> Seq<u8> {
    payload + Seq::new((capacity - payload.len()) as nat, |i: int| ERASED)
}

/// The length of the record in a region as it was read from flash.
pub fn used_length(region: &[u8]) -> (n: usize)
    ensures
        n == used_len(region@),
        n <= region@.len(),
{
    let mark: [u8; 1] = [ERASED];
    assert(mark@ =~= seq![ERASED]);
    match find_bytes(region, mark.as_slice()) {
        Some(i) => i,
        None => region.len(),
    }
}

/// The serialized record in a region: what precedes the first erased byte.
pub fn record<'a>(region: &'a [u8]) -> (r: &'a [u8])
    ensures
        r@ == region@.subrange(0, used_len(region@)),
{
    let n = used_length(region);
    &region[0..n]
}

/// Whether the region holds no record at all, as on a device's first boot.
pub fn is_blank(region: &[u8]) -> (b: bool)
    ensures
        b == (used_len(region@) == 0),
{
    used_length(region) == 0
}

/// The occupancy that a device reports: the record's length against the
/// region's, and the number of confirmed keys against the capacity.
pub fn usage(region: &[u8], keys: &PairedKeys) -> (u: StoreUsage)
    requires
        region@.len() <= u32::MAX,
    ensures
        u == (StoreUsage {
            data_used: used_len(region@) as u32,
            data_total: region@.len() as u32,
            pair_used: keys@.len() as u32,
            pair_total: PAIRED_CAPACITY as u32,
        }),
{
    StoreUsage {
        data_used: used_length(region) as u32,
        data_total: region.len() as u32,
        pair_used: keys.len() as u32,
        pair_total: PAIRED_CAPACITY as u32,
    }
}

/// The whole region to write for a serialized record: the bytes of the
/// record, then erased bytes up to [`CAPACITY`].
pub fn frame(payload: &[u8]) -> (region: Vec<u8>)
    requires
        payload@.len() <= CAPACITY,
    ensures
        region@ == image(payload@, CAPACITY as nat),
        region@.len() == CAPACITY,
{
    let mut region: Vec<u8> = Vec::new();
    let n = payload.len();
    let mut i: usize = 0;
    while i < n
        invariant
            i <= n == payload@.len(),
            region@ == payload@.subrange(0, i as int),
        decreases n - i,
    {
        region.push(payload[i]);
        assert(region@ =~= payload@.subrange(0, i + 1));
        i += 1;
    }
    assert(region@ =~= payload@);
    let total: usize = CAPACITY as usize;
    while i < total
        invariant
            n <= i <= total,
            n == payload@.len(),
            total == CAPACITY,
            region@ == payload@ + Seq::new((i - n) as nat, |j: int| ERASED),
        decreases total - i,
    {
        region.push(ERASED);
        assert(region@ =~= payload@ + Seq::new((i + 1 - n) as nat, |j: int| ERASED));
        i += 1;
    }
    region
}

/// Writing a record and reading the region back gives the record again: a
/// payload without an erased byte that fits the region is found, whole and
/// unchanged, in the image written for it.
pub proof fn lemma_frame_round_trip(payload: Seq<u8>, capacity: nat)
    requires
        payload.len() <= capacity,
        forall|i: int| 0 <= i < payload.len() ==> payload[i] != ERASED,
    ensures
        used_len(image(payload, capacity)) == payload.len(),
        image(payload, capacity).subrange(0, used_len(image(payload, capacity))) == payload,
{
    let region = image(payload, capacity);
    let mark = seq![ERASED];
    lemma_find_from(region, mark, 0);
    assert forall|j: int| 0 <= j < payload.len() implies !matches_at(region, mark, j) by {
        if matches_at(region, mark, j) {
            assert(region.subrange(j, j + 1)[0] == mark[0]);
        }
    }
    if payload.len() < capacity {
        let p = payload.len() as int;
        assert(region.subrange(p, p + 1) =~= mark);
        assert(matches_at(region, mark, p));
    } else {
        assert(region.len() == payload.len());
    }
    assert(region.subrange(0, payload.len() as int) =~= payload);
}

/// A region of erased bytes only holds no record.
pub proof fn lemma_erased_region_is_blank(capacity: nat)
    requires
        capacity > 0,
    ensures
        used_len(image(Seq::empty(), capacity)) == 0,
{
    lemma_frame_round_trip(Seq::empty(), capacity);
}

} // verus!
