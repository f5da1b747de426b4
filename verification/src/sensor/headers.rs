//! The header map of a request or a reply: at most sixteen name/value
//! pairs that borrow the buffer they were read from.

use vstd::prelude::*;
use crate::text::bytes_eq_ignore_case;
use crate::text::eq_ignore_case;

verus! {

/// Number of headers that a request or a reply can carry.
pub const HEADERS_LEN: usize = 16;

/// An insertion-ordered map from header names to values. No two entries
/// have the same name, byte for byte. It holds a `heapless::FnvIndexMap`,
/// of which nothing is known but what the functions below state.
#[verifier::external_body]
pub struct Headers<'h> {
    map: heapless::FnvIndexMap<&'h [u8], &'h [u8], 16>,
}

/// The entries of a header map, in the order of their insertion.
pub uninterp spec fn header_entries(h: Headers<'_>) -> Seq<(Seq<u8>, Seq<u8>)>;

impl<'h> View for Headers<'h> {
    type V = Seq<(Seq<u8>, Seq<u8>)>;

    open spec fn view(&self) -> Seq<(Seq<u8>, Seq<u8>)> {
        header_entries(*self)
    }
}

/// Some entry of `entries` is named `key`, byte for byte.
pub open spec fn has_key(entries: Seq<(Seq<u8>, Seq<u8>)>, key: Seq<u8>) -> bool {
    exists|i: int| 0 <= i < entries.len() && (#[trigger] entries[i]).0 == key
}

/// The entries after the map's own insertion of `key` with `value`: the
/// entry of that name gets the value, or a new entry is appended if there
/// is room for it.
pub open spec fn put(entries: Seq<(Seq<u8>, Seq<u8>)>, key: Seq<u8>, value: Seq<u8>) -> Seq<
    (Seq<u8>, Seq<u8>),
> {
    if has_key(entries, key) {
        entries.map_values(
            |e: (Seq<u8>, Seq<u8>)|
                if e.0 == key {
                    (key, value)
                } else {
                    e
                },
        )
    } else if entries.len() < HEADERS_LEN {
        entries.push((key, value))
    } else {
        entries
    }
}

/// Whether the map's own insertion of `key` succeeds: the name is there
/// already, or there is room for one more entry.
pub open spec fn put_fits(entries: Seq<(Seq<u8>, Seq<u8>)>, key: Seq<u8>) -> bool {
    has_key(entries, key) || entries.len() < HEADERS_LEN
}

/// The entries whose name differs from `key` even up to ASCII case.
pub open spec fn without_named(entries: Seq<(Seq<u8>, Seq<u8>)>, key: Seq<u8>) -> Seq<
    (Seq<u8>, Seq<u8>),
> {
    entries.filter(|e: (Seq<u8>, Seq<u8>)| !eq_ignore_case(e.0, key))
}

/// The position of the first entry at or after `from` whose name equals
/// `key` up to ASCII case.
pub open spec fn first_named(entries: Seq<(Seq<u8>, Seq<u8>)>, key: Seq<u8>, from: int) -> Option<
    int,
>
    decreases entries.len() - from,
{
    if from < 0 || from >= entries.len() {
        None
    } else if eq_ignore_case(entries[from].0, key) {
        Some(from)
    } else {
        first_named(entries, key, from + 1)
    }
}

/// The value of the first entry whose name equals `key` up to ASCII case.
pub open spec fn lookup(entries: Seq<(Seq<u8>, Seq<u8>)>, key: Seq<u8>) -> Option<Seq<u8>> {
    match first_named(entries, key, 0) {
        Some(i) => Some(entries[i].1),
        None => None,
    }
}

/// `first_named` gives the least position with a matching name, and nothing
/// only when no entry at or after `from` matches.
pub proof fn lemma_first_named(entries: Seq<(Seq<u8>, Seq<u8>)>, key: Seq<u8>, from: int)
    requires
        0 <= from,
    ensures
        match first_named(entries, key, from) {
            Some(i) => from <= i < entries.len() && eq_ignore_case(entries[i].0, key)
                && forall|j: int| from <= j < i ==> !eq_ignore_case((#[trigger] entries[j]).0, key),
            None => forall|j: int|
                from <= j < entries.len() ==> !eq_ignore_case((#[trigger] entries[j]).0, key),
        },
    decreases entries.len() - from,
{
    if from < entries.len() && !eq_ignore_case(entries[from].0, key) {
        lemma_first_named(entries, key, from + 1);
    }
}

/// `heapless::IndexMap::new`: an empty map.
#[verifier::external_body]
fn headers_new<'h>() -> (h: Headers<'h>)
    ensures
        header_entries(h) == Seq::<(Seq<u8>, Seq<u8>)>::empty(),
{
    Headers { map: heapless::FnvIndexMap::new() }
}

/// `heapless::IndexMap::len`: the number of entries, never above 16.
#[verifier::external_body]
fn headers_len(h: &Headers<'_>) -> (n: usize)
    ensures
        n == header_entries(*h).len(),
        n <= 16,
{
    h.map.len()
}

/// `heapless::IndexMap::iter` and `nth`: the entry at position `i` of the
/// insertion order.
#[verifier::external_body]
fn headers_at<'a, 'h>(h: &'a Headers<'h>, i: usize) -> (e: (&'h [u8], &'h [u8]))
    requires
        i < header_entries(*h).len(),
    ensures
        (e.0@, e.1@) == header_entries(*h)[i as int],
{
    let (k, v) = h.map.iter().nth(i).unwrap();
    (*k, *v)
}

/// `heapless::IndexMap::insert`: replaces the value of an entry with the
/// same name and hands the old value out; else appends the entry if fewer
/// than 16 are held; else changes nothing and hands the pair back.
#[verifier::external_body]
fn headers_put<'h>(h: &mut Headers<'h>, key: &'h [u8], value: &'h [u8]) -> (r: Result<
    Option<&'h [u8]>,
    (&'h [u8], &'h [u8]),
>)
    ensures
        r.is_ok() <==> put_fits(header_entries(*old(h)), key@),
        r.is_ok() ==> (r.unwrap().is_some() <==> has_key(header_entries(*old(h)), key@)),
        r.is_err() ==> r.unwrap_err().0@ == key@ && r.unwrap_err().1@ == value@,
        header_entries(*final(h)) == put(header_entries(*old(h)), key@, value@),
{
    h.map.insert(key, value)
}

/// `heapless::IndexMap::retain` with "the name differs from `key` even up
/// to ASCII case" as the predicate: the other entries stay in their order.
#[verifier::external_body]
fn headers_drop_named(h: &mut Headers<'_>, key: &[u8])
    ensures
        header_entries(*final(h)) == without_named(header_entries(*old(h)), key@),
{
    h.map.retain(|k, _| differs_ignoring_case(k, key))
}

/// Whether two names differ even up to ASCII case.
fn differs_ignoring_case(a: &[u8], b: &[u8]) -> (r: bool)
    ensures
        r == !eq_ignore_case(a@, b@),
{
    !bytes_eq_ignore_case(a, b)
}

impl<'h> Headers<'h> {
    /// An empty map.
    pub fn new() -> (h: Headers<'h>)
        ensures
            h@ == Seq::<(Seq<u8>, Seq<u8>)>::empty(),
    {
        headers_new()
    }

    /// The number of entries.
    pub fn len(&self) -> (n: usize)
        ensures
            n == self@.len(),
            n <= HEADERS_LEN,
    {
        headers_len(self)
    }

    /// The entry at position `i` of the insertion order.
    pub fn entry(&self, i: usize) -> (e: (&'h [u8], &'h [u8]))
        requires
            i < self@.len(),
        ensures
            (e.0@, e.1@) == self@[i as int],
    {
        headers_at(self, i)
    }

    /// The value of the first header whose name equals `key` up to ASCII
    /// case.
    pub fn get(&self, key: &[u8]) -> (r: Option<&'h [u8]>)
        ensures
            match r {
                Some(v) => lookup(self@, key@) == Some(v@),
                None => lookup(self@, key@).is_none(),
            },
    {
        let n = headers_len(self);
        let mut i: usize = 0;
        while i < n
            invariant
                i <= n == self@.len(),
                first_named(self@, key@, 0) == first_named(self@, key@, i as int),
            decreases n - i,
        {
            let (k, v) = headers_at(self, i);
            if bytes_eq_ignore_case(k, key) {
                return Some(v);
            }
            i += 1;
        }
        None
    }

    /// Adds a header as the parser does: a header of exactly this name gets
    /// the new value, any other name is appended. Fails, changing nothing,
    /// when the name is new and the map is full.
    pub fn put(&mut self, key: &'h [u8], value: &'h [u8]) -> (ok: bool)
        ensures
            ok == put_fits(old(self)@, key@),
            final(self)@ == put(old(self)@, key@, value@),
    {
        headers_put(self, key, value).is_ok()
    }

    /// Sets a header: every header whose name equals `key` up to ASCII case
    /// leaves, then the new one is appended. When the map is still full
    /// after that the pair comes back as the error, and only the removal
    /// has happened.
    pub fn insert(&mut self, key: &'h [u8], value: &'h [u8]) -> (r: Result<
        Option<&'h [u8]>,
        (&'h [u8], &'h [u8]),
    >)
        ensures
            final(self)@ == set_header(old(self)@, key@, value@),
            r.is_ok() <==> without_named(old(self)@, key@).len() < HEADERS_LEN,
            r.is_ok() ==> r.unwrap().is_none(),
            r.is_err() ==> r.unwrap_err().0@ == key@ && r.unwrap_err().1@ == value@,
    {
        headers_drop_named(self, key);
        proof {
            lemma_without_named_has_no_key(old(self)@, key@);
        }
        headers_put(self, key, value)
    }
}

/// The entries after setting the header `key` to `value`.
pub open spec fn set_header(entries: Seq<(Seq<u8>, Seq<u8>)>, key: Seq<u8>, value: Seq<u8>) -> Seq<
    (Seq<u8>, Seq<u8>),
> {
    let rest = without_named(entries, key);
    if rest.len() < HEADERS_LEN {
        rest.push((key, value))
    } else {
        rest
    }
}

/// After the headers named `key` have left, none has that name.
pub proof fn lemma_without_named_has_no_key(entries: Seq<(Seq<u8>, Seq<u8>)>, key: Seq<u8>)
    ensures
        !has_key(without_named(entries, key), key),
        without_named(entries, key).len() <= entries.len(),
{
    let pred = |e: (Seq<u8>, Seq<u8>)| !eq_ignore_case(e.0, key);
    let rest = entries.filter(pred);
    entries.lemma_filter_len(pred);
    assert forall|i: int| 0 <= i < rest.len() implies (#[trigger] rest[i]).0 != key by {
        entries.lemma_filter_pred(pred, i);
        assert(pred(rest[i]));
        if rest[i].0 == key {
            assert(eq_ignore_case(key, key));
        }
    }
}

/// A header that was set is found again, under its name in any case, with
/// the value that was set.
pub proof fn lemma_set_then_get(
    entries: Seq<(Seq<u8>, Seq<u8>)>,
    key: Seq<u8>,
    value: Seq<u8>,
    asked: Seq<u8>,
)
    requires
        without_named(entries, key).len() < HEADERS_LEN,
        eq_ignore_case(asked, key),
    ensures
        lookup(set_header(entries, key, value), asked) == Some(value),
{
    let rest = without_named(entries, key);
    let after = set_header(entries, key, value);
    let pred = |e: (Seq<u8>, Seq<u8>)| !eq_ignore_case(e.0, key);
    lemma_first_named(after, asked, 0);
    assert(after[rest.len() as int] == (key, value));
    assert(eq_ignore_case(key, asked));
    assert forall|j: int| 0 <= j < rest.len() implies !eq_ignore_case(
        (#[trigger] after[j]).0,
        asked,
    ) by {
        entries.lemma_filter_pred(pred, j);
        assert(after[j] == rest[j]);
        assert(pred(rest[j]));
        if eq_ignore_case(rest[j].0, asked) {
            let name = rest[j].0;
            assert forall|i: int| 0 <= i < name.len() implies crate::text::lower(
                #[trigger] name[i],
            ) == crate::text::lower(key[i]) by {
                assert(crate::text::lower(name[i]) == crate::text::lower(asked[i]));
                assert(crate::text::lower(asked[i]) == crate::text::lower(key[i]));
            }
            assert(eq_ignore_case(name, key));
        }
    }
}

} // verus!
