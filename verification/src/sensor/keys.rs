//! Pairing keys and the two bounded collections that hold them: the keys
//! issued during the current pairing window and the keys that were confirmed.

use vstd::prelude::*;
use vstd::string::StringSliceAdditionalSpecFns;
use vstd::utf8::valid_utf8;
use vstd::utf8::partial_valid_utf8;
use vstd::utf8::partial_valid_utf8_extend_ascii_block;
use vstd::utf8::is_leading_byte_width_1;
use crate::text::bytes_eq;
use std::str::FromStr;

verus! {

/// Longest pairing key, in bytes.
pub const KEY_LEN: usize = 32;

/// Number of keys that can await confirmation at once.
pub const PENDING_CAPACITY: usize = 16;

/// Number of confirmed keys that a device can hold.
pub const PAIRED_CAPACITY: usize = 32;

/// `heapless::Vec`: a vector of fixed capacity. Nothing is known of its
/// inside; what it holds is named per use.
#[verifier::external_type_specification]
#[verifier::external_body]
#[verifier::reject_recursive_types(T)]
pub struct ExHeaplessVec<T, const N: usize>(heapless::Vec<T, N>);

/// `heapless::String`: a string of fixed capacity. Nothing is known of its
/// inside; its bytes are named by `key_text`.
#[verifier::external_type_specification]
#[verifier::external_body]
pub struct ExHeaplessString<const N: usize>(heapless::String<N>);

/// The bytes of a fixed-capacity string.
pub uninterp spec fn key_text(k: heapless::String<32>) -> Seq<u8>;

/// The items of a fixed-capacity vector of keys, oldest first.
pub uninterp spec fn pending_list(v: heapless::Vec<heapless::String<32>, 16>) -> Seq<Seq<u8>>;

/// The items of the confirmed-key set, in the order of their insertion.
pub uninterp spec fn paired_list(s: PairedKeys) -> Seq<Seq<u8>>;

/// The two-digit lower-case hexadecimal form of every byte, in order.
pub open spec fn hex_lower(bytes: Seq<u8>) -> Seq<u8> {
    Seq::new(2 * bytes.len(), |i: int| hex_digit(if i % 2 == 0 {
        bytes[i / 2] / 16
    } else {
        bytes[i / 2] % 16
    }))
}

/// The lower-case hexadecimal digit of a value below 16.
pub open spec fn hex_digit(v: u8) -> u8 {
    if v < 10 {
        (48 + v) as u8
    } else {
        (87 + v) as u8
    }
}

/// `core::str::from_utf8`: the text of `bytes` if they are valid UTF-8,
/// nothing otherwise. The text has exactly the bytes given.
#[verifier::external_body]
fn utf8_text<'a>(bytes: &'a [u8]) -> (r: Option<&'a str>)
    ensures
        r.is_some() <==> valid_utf8(bytes@),
        r.is_some() ==> r.unwrap().spec_bytes() == bytes@,
{
    core::str::from_utf8(bytes).ok()
}

/// `heapless::String::<32>::from_str`: a string with the bytes of `s` if
/// there are at most 32 of them, an error otherwise.
#[verifier::external_body]
fn key_from_str(s: &str) -> (r: Result<heapless::String<32>, ()>)
    ensures
        r.is_ok() <==> s.spec_bytes().len() <= 32,
        r.is_ok() ==> key_text(r.unwrap()) == s.spec_bytes(),
{
    heapless::String::from_str(s)
}

/// `heapless::String::as_bytes` (through `str`): the bytes of the string.
#[verifier::external_body]
fn key_as_bytes<'a>(k: &'a heapless::String<32>) -> (r: &'a [u8])
    ensures
        r@ == key_text(*k),
        r@.len() <= 32,
{
    k.as_bytes()
}

/// `heapless::String::clone`: a string with the same bytes.
#[verifier::external_body]
fn key_clone(k: &heapless::String<32>) -> (r: heapless::String<32>)
    ensures
        key_text(r) == key_text(*k),
{
    k.clone()
}

/// `hex::encode_to_slice` on 16 input bytes and a 32-byte output: the
/// output holds two lower-case hexadecimal digits per input byte.
#[verifier::external_body]
fn hex_encode(input: &[u8; 16]) -> (out: [u8; 32])
    ensures
        out@ == hex_lower(input@),
{
    let mut out = [0u8; 32];
    let _ = hex::encode_to_slice(input, &mut out);
    out
}

/// `heapless::Vec::new`: an empty vector.
#[verifier::external_body]
fn pending_new() -> (v: heapless::Vec<heapless::String<32>, 16>)
    ensures
        pending_list(v) == Seq::<Seq<u8>>::empty(),
{
    heapless::Vec::new()
}

/// `heapless::Vec::len`: the number of items.
#[verifier::external_body]
fn pending_len(v: &heapless::Vec<heapless::String<32>, 16>) -> (n: usize)
    ensures
        n == pending_list(*v).len(),
        n <= 16,
{
    v.len()
}

/// Indexing a `heapless::Vec` through its slice: the item at `i`.
#[verifier::external_body]
fn pending_at(v: &heapless::Vec<heapless::String<32>, 16>, i: usize) -> (k: &heapless::String<32>)
    requires
        i < pending_list(*v).len(),
    ensures
        key_text(*k) == pending_list(*v)[i as int],
{
    &v.as_slice()[i]
}

/// `heapless::Vec::push`: appends the item if fewer than 16 are held,
/// otherwise changes nothing and hands the item back.
#[verifier::external_body]
fn pending_push(v: &mut heapless::Vec<heapless::String<32>, 16>, k: heapless::String<32>) -> (r:
    Result<(), heapless::String<32>>)
    ensures
        r.is_ok() <==> pending_list(*old(v)).len() < 16,
        r.is_ok() ==> pending_list(*final(v)) == pending_list(*old(v)).push(key_text(k)),
        r.is_err() ==> pending_list(*final(v)) == pending_list(*old(v)) && key_text(
            r.unwrap_err(),
        ) == key_text(k),
{
    v.push(k)
}

/// `heapless::Vec::clear`: removes every item.
#[verifier::external_body]
fn pending_clear(v: &mut heapless::Vec<heapless::String<32>, 16>)
    ensures
        pending_list(*final(v)) == Seq::<Seq<u8>>::empty(),
{
    v.clear()
}

/// `heapless::Vec::retain` with "differs from `k`" as the predicate: the
/// items equal to `k` leave, the others stay in their order.
#[verifier::external_body]
fn pending_remove(v: &mut heapless::Vec<heapless::String<32>, 16>, k: &heapless::String<32>)
    ensures
        pending_list(*final(v)) == without(pending_list(*old(v)), key_text(*k)),
{
    v.retain(|item| other_key(item, k))
}

/// Whether two keys hold different bytes.
fn other_key(a: &heapless::String<32>, b: &heapless::String<32>) -> (r: bool)
    ensures
        r == (key_text(*a) != key_text(*b)),
{
    !same_key(a, b)
}

/// The items of `list` that differ from `key`, in their order.
pub open spec fn without(list: Seq<Seq<u8>>, key: Seq<u8>) -> Seq<Seq<u8>> {
    list.filter(|t: Seq<u8>| t != key)
}

/// Whether two keys hold the same bytes.
fn same_key(a: &heapless::String<32>, b: &heapless::String<32>) -> (r: bool)
    ensures
        r == (key_text(*a) == key_text(*b)),
{
    bytes_eq(key_as_bytes(a), key_as_bytes(b))
}

/// Every byte is below 128.
pub open spec fn is_ascii_bytes(bytes: Seq<u8>) -> bool {
    forall|i: int| 0 <= i < bytes.len() ==> #[trigger] bytes[i] < 128
}

/// ASCII bytes are valid UTF-8.
pub proof fn lemma_ascii_is_utf8(bytes: Seq<u8>)
    requires
        is_ascii_bytes(bytes),
    ensures
        valid_utf8(bytes),
{
    assert forall|i: int| 0 <= i < bytes.len() implies #[trigger] is_leading_byte_width_1(
        bytes[i],
    ) by {
        let b = bytes[i];
        assert(b < 128);
        assert(b & 0x80 == 0) by (bit_vector)
            requires
                b < 128,
        ;
    }
    assert(bytes.subrange(0, 0) =~= Seq::<u8>::empty());
    assert(valid_utf8(bytes.subrange(0, 0)));
    assert(partial_valid_utf8(bytes, 0));
    partial_valid_utf8_extend_ascii_block(bytes, 0, bytes.len() as int);
    assert(bytes.subrange(0, bytes.len() as int) =~= bytes);
}

/// A pairing key: an opaque token of at most 32 bytes of UTF-8 text.
pub struct PairKey {
    text: heapless::String<32>,
}

impl View for PairKey {
    type V = Seq<u8>;

    closed spec fn view(&self) -> Seq<u8> {
        key_text(self.text)
    }
}

impl PairKey {
    /// Reads a key from raw bytes, as they arrive in a request header.
    /// Succeeds exactly on valid UTF-8 of at most 32 bytes.
    pub fn from_bytes(bytes: &[u8]) -> (r: Option<PairKey>)
        ensures
            r.is_some() <==> bytes@.len() <= KEY_LEN && valid_utf8(bytes@),
            r.is_some() ==> r.unwrap()@ == bytes@,
    {
        match utf8_text(bytes) {
            None => None,
            Some(s) => match key_from_str(s) {
                Ok(text) => Some(PairKey { text }),
                Err(_) => None,
            },
        }
    }

    /// Makes a fresh key from 16 random bytes: their lower-case hexadecimal
    /// form, 32 characters long.
    pub fn from_random(random: &[u8; 16]) -> (k: PairKey)
        ensures
            k@ == hex_lower(random@),
            k@.len() == KEY_LEN,
    {
        let digits = hex_encode(random);
        proof {
            assert forall|i: int| 0 <= i < digits@.len() implies #[trigger] digits@[i] < 128 by {
                let v: u8 = if i % 2 == 0 {
                    random@[i / 2] / 16
                } else {
                    random@[i / 2] % 16
                };
                assert(v < 16);
                assert(digits@[i] == hex_digit(v));
            }
            lemma_ascii_is_utf8(digits@);
        }
        let r = PairKey::from_bytes(digits.as_slice());
        match r {
            Some(k) => k,
            None => vstd::pervasive::unreached(),
        }
    }

    /// The bytes of the key.
    pub fn as_bytes(&self) -> (b: &[u8])
        ensures
            b@ == self@,
            b@.len() <= KEY_LEN,
    {
        key_as_bytes(&self.text)
    }

    /// A copy of the key.
    pub fn duplicate(&self) -> (k: PairKey)
        ensures
            k@ == self@,
    {
        PairKey { text: key_clone(&self.text) }
    }
}

/// The keys issued during the current pairing window that still await
/// confirmation, oldest first; at most [`PENDING_CAPACITY`] of them.
pub struct PendingKeys {
    list: heapless::Vec<heapless::String<32>, 16>,
}

impl View for PendingKeys {
    type V = Seq<Seq<u8>>;

    closed spec fn view(&self) -> Seq<Seq<u8>> {
        pending_list(self.list)
    }
}

impl PendingKeys {
    pub fn new() -> (p: PendingKeys)
        ensures
            p@ == Seq::<Seq<u8>>::empty(),
    {
        PendingKeys { list: pending_new() }
    }

    pub fn len(&self) -> (n: usize)
        ensures
            n == self@.len(),
            n <= PENDING_CAPACITY,
    {
        pending_len(&self.list)
    }

    /// Whether `key` was issued and still awaits confirmation.
    pub fn contains(&self, key: &PairKey) -> (r: bool)
        ensures
            r == self@.contains(key@),
    {
        let n = pending_len(&self.list);
        let mut i: usize = 0;
        while i < n
            invariant
                i <= n == self@.len(),
                forall|j: int| 0 <= j < i ==> self@[j] != key@,
            decreases n - i,
        {
            if same_key(pending_at(&self.list, i), &key.text) {
                return true;
            }
            i += 1;
        }
        false
    }

    /// Records a freshly issued key. Fails, changing nothing, when
    /// [`PENDING_CAPACITY`] keys already wait.
    pub fn issue(&mut self, key: &PairKey) -> (ok: bool)
        ensures
            ok <==> old(self)@.len() < PENDING_CAPACITY,
            ok ==> final(self)@ == old(self)@.push(key@),
            !ok ==> final(self)@ == old(self)@,
    {
        pending_push(&mut self.list, key_clone(&key.text)).is_ok()
    }

    /// Forgets `key`; the other keys stay in their order.
    pub fn consume(&mut self, key: &PairKey)
        ensures
            final(self)@ == without(old(self)@, key@),
    {
        pending_remove(&mut self.list, &key.text)
    }

    /// Forgets every key: the window closed.
    pub fn clear(&mut self)
        ensures
            final(self)@ == Seq::<Seq<u8>>::empty(),
    {
        pending_clear(&mut self.list)
    }
}

/// The confirmed keys of a device, a set of at most [`PAIRED_CAPACITY`]
/// keys kept in the order of their insertion. It holds a
/// `heapless::FnvIndexSet`, of which nothing is known but what the
/// functions below state.
#[verifier::external_body]
pub struct PairedKeys {
    set: heapless::FnvIndexSet<heapless::String<32>, 32>,
}

impl View for PairedKeys {
    type V = Seq<Seq<u8>>;

    open spec fn view(&self) -> Seq<Seq<u8>> {
        paired_list(*self)
    }
}

/// `heapless::IndexSet::new`: an empty set.
#[verifier::external_body]
fn paired_new() -> (s: PairedKeys)
    ensures
        paired_list(s) == Seq::<Seq<u8>>::empty(),
{
    PairedKeys { set: heapless::FnvIndexSet::new() }
}

/// `heapless::IndexSet::len`: the number of items, never above 32.
#[verifier::external_body]
fn paired_len(s: &PairedKeys) -> (n: usize)
    ensures
        n == paired_list(*s).len(),
        n <= 32,
{
    s.set.len()
}

/// `heapless::IndexSet::iter` and `nth`: the item at position `i` of the
/// insertion order.
#[verifier::external_body]
fn paired_at(s: &PairedKeys, i: usize) -> (k: &heapless::String<32>)
    requires
        i < paired_list(*s).len(),
    ensures
        key_text(*k) == paired_list(*s)[i as int],
{
    s.set.iter().nth(i).unwrap()
}

/// `heapless::IndexSet::insert`: an item already held changes nothing and
/// gives `Ok(false)`; a new item is appended and gives `Ok(true)` if fewer
/// than 32 are held, and is handed back, the set unchanged, if not.
#[verifier::external_body]
fn paired_insert(s: &mut PairedKeys, k: heapless::String<32>) -> (r: Result<
    bool,
    heapless::String<32>,
>)
    ensures
        r.is_ok() <==> paired_list(*old(s)).contains(key_text(k)) || paired_list(*old(s)).len()
            < 32,
        r.is_ok() ==> r.unwrap() == !paired_list(*old(s)).contains(key_text(k)),
        r.is_err() ==> key_text(r.unwrap_err()) == key_text(k),
        paired_list(*final(s)) == insert_effect(paired_list(*old(s)), key_text(k)),
{
    s.set.insert(k)
}

/// The items after inserting `key`.
pub open spec fn insert_effect(keys: Seq<Seq<u8>>, key: Seq<u8>) -> Seq<Seq<u8>> {
    if !keys.contains(key) && keys.len() < PAIRED_CAPACITY {
        keys.push(key)
    } else {
        keys
    }
}

impl PairedKeys {
    pub fn new() -> (s: PairedKeys)
        ensures
            s@ == Seq::<Seq<u8>>::empty(),
    {
        paired_new()
    }

    pub fn len(&self) -> (n: usize)
        ensures
            n == self@.len(),
            n <= PAIRED_CAPACITY,
    {
        paired_len(self)
    }

    /// The key at position `i` of the insertion order.
    pub fn key_at(&self, i: usize) -> (k: PairKey)
        requires
            i < self@.len(),
        ensures
            k@ == self@[i as int],
    {
        PairKey { text: key_clone(paired_at(self, i)) }
    }

    /// The confirmed key with the given bytes, if there is one.
    pub fn find(&self, id: &[u8]) -> (r: Option<PairKey>)
        ensures
            r.is_some() <==> self@.contains(id@),
            r.is_some() ==> r.unwrap()@ == id@,
    {
        let n = paired_len(self);
        let mut i: usize = 0;
        while i < n
            invariant
                i <= n == self@.len(),
                forall|j: int| 0 <= j < i ==> self@[j] != id@,
            decreases n - i,
        {
            let k = paired_at(self, i);
            if bytes_eq(key_as_bytes(k), id) {
                return Some(PairKey { text: key_clone(k) });
            }
            i += 1;
        }
        None
    }

    /// Adds a confirmed key. A key already held changes nothing and gives
    /// `Ok(false)`; a new key gives `Ok(true)`. At capacity a new key is
    /// refused with `Err` and the set stays as it was: nothing is evicted.
    pub fn insert(&mut self, key: &PairKey) -> (r: Result<bool, ()>)
        ensures
            final(self)@ == insert_effect(old(self)@, key@),
            r == (if old(self)@.contains(key@) {
                Ok::<bool, ()>(false)
            } else if old(self)@.len() < PAIRED_CAPACITY {
                Ok::<bool, ()>(true)
            } else {
                Err::<bool, ()>(())
            }),
    {
        let n = paired_len(self);
        match paired_insert(self, key_clone(&key.text)) {
            Ok(fresh) => Ok(fresh),
            Err(_) => Err(()),
        }
    }
}

} // verus!
