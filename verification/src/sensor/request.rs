//! The request parser: one pass over the bytes of a connection, yielding
//! slices of the buffer it was given.

use vstd::prelude::*;
use vstd::string::StringSliceAdditionalSpecFns;
use crate::sensor::headers::put;
use crate::sensor::headers::put_fits;
use crate::sensor::headers::Headers;
use crate::sensor::status::StatusCode;
use crate::text::bytes_eq;
use crate::text::find_bytes;
use crate::text::find_bytes_from;
use crate::text::find_first;
use crate::text::find_from;
use crate::text::lemma_find_from;
use crate::text::COLON;
use crate::text::CR;
use crate::text::LF;
use crate::text::SPACE;

verus! {

/// Size of the buffer that one request is read into.
pub const BUFFER_LEN: usize = 1024;

/// The blank line that ends the header block.
pub open spec fn blank_line() -> Seq<u8> {
    seq![CR, LF, CR, LF]
}

/// A line without the carriage return that may precede its line feed.
pub open spec fn strip_cr(line: Seq<u8>) -> Seq<u8> {
    if line.len() > 0 && line.last() == CR {
        line.drop_last()
    } else {
        line
    }
}

/// The lines of `s` from offset `from` on. A line ends at a line feed,
/// which is dropped together with a carriage return just before it; what
/// follows the last line feed is a line too, unless it is empty.
pub open spec fn lines_from(s: Seq<u8>, from: int) -> Seq<Seq<u8>>
    decreases s.len() - from,
{
    if from < 0 || from >= s.len() {
        seq![]
    } else {
        match find_from(s, seq![LF], from) {
            None => seq![s.subrange(from, s.len() as int)],
            Some(i) => if i < from || i >= s.len() {
                seq![]
            } else {
                seq![strip_cr(s.subrange(from, i))] + lines_from(s, i + 1)
            },
        }
    }
}

/// The lines of `s`.
pub open spec fn lines_of(s: Seq<u8>) -> Seq<Seq<u8>> {
    lines_from(s, 0)
}

/// The method and the route of a request line: what precedes its first
/// space, and what stands between that space and the next.
pub open spec fn request_line(line: Seq<u8>) -> Option<(Seq<u8>, Seq<u8>)> {
    match find_first(line, seq![SPACE]) {
        None => None,
        Some(me) => {
            let rest = line.subrange(me + 1, line.len() as int);
            match find_first(rest, seq![SPACE]) {
                None => None,
                Some(re) => Some((line.subrange(0, me), rest.subrange(0, re))),
            }
        },
    }
}

/// The name and the value of a header line: what precedes and what
/// follows its first colon-and-space. A line without one is no header.
pub open spec fn header_of(line: Seq<u8>) -> Option<(Seq<u8>, Seq<u8>)> {
    match find_first(line, seq![COLON, SPACE]) {
        None => None,
        Some(c) => Some((line.subrange(0, c), line.subrange(c + 2, line.len() as int))),
    }
}

/// The header map that results from adding the headers among `lines`, in
/// order, to `acc`; nothing if one of them does not fit.
pub open spec fn collect(lines: Seq<Seq<u8>>, acc: Seq<(Seq<u8>, Seq<u8>)>) -> Option<
    Seq<(Seq<u8>, Seq<u8>)>,
>
    decreases lines.len(),
{
    if lines.len() == 0 {
        Some(acc)
    } else {
        match header_of(lines[0]) {
            None => collect(lines.drop_first(), acc),
            Some((k, v)) => if put_fits(acc, k) {
                collect(lines.drop_first(), put(acc, k, v))
            } else {
                None
            },
        }
    }
}

/// Mathematical value of a [`Request`].
pub struct RequestView {
    pub route: Seq<u8>,
    pub method: Seq<u8>,
    pub headers: Seq<(Seq<u8>, Seq<u8>)>,
    pub body: Seq<u8>,
}

/// What a buffer parses to. The header block ends at the first blank line;
/// its first line gives method and route, the others the headers; the body
/// is everything after the blank line. A buffer without a blank line, with
/// an empty header block or with a request line of fewer than two spaces
/// is a bad request; a seventeenth header name is too many.
pub open spec fn parse(v: Seq<u8>) -> Result<RequestView, StatusCode> {
    match find_first(v, blank_line()) {
        None => Err(StatusCode::BAD_REQUEST),
        Some(he) => {
            let lines = lines_of(v.subrange(0, he));
            if lines.len() == 0 {
                Err(StatusCode::BAD_REQUEST)
            } else {
                match request_line(lines[0]) {
                    None => Err(StatusCode::BAD_REQUEST),
                    Some((method, route)) => match collect(lines.drop_first(), Seq::empty()) {
                        None => Err(StatusCode::REQUEST_HEADER_FIELDS_TOO_LARGE),
                        Some(headers) => Ok(
                            RequestView {
                                route,
                                method,
                                headers,
                                body: v.subrange(he + 4, v.len() as int),
                            },
                        ),
                    },
                }
            }
        },
    }
}

/// A parsed request. Every field borrows the buffer that was parsed.
pub struct Request<'r> {
    pub route: &'r [u8],
    pub method: &'r [u8],
    pub headers: Headers<'r>,
    pub body: &'r [u8],
}

impl<'r> View for Request<'r> {
    type V = RequestView;

    open spec fn view(&self) -> RequestView {
        RequestView {
            route: self.route@,
            method: self.method@,
            headers: self.headers@,
            body: self.body@,
        }
    }
}

/// Splits off the line that starts at `from`: the line, and the offset at
/// which the next one starts.
fn take_line<'a>(s: &'a [u8], from: usize) -> (r: (&'a [u8], usize))
    requires
        from < s@.len(),
    ensures
        lines_from(s@, from as int) == seq![r.0@] + lines_from(s@, r.1 as int),
        from < r.1 <= s@.len(),
{
    let lf: [u8; 1] = [LF];
    proof {
        lemma_find_from(s@, seq![LF], from as int);
        assert(lf@ =~= seq![LF]);
    }
    match find_bytes_from(s, lf.as_slice(), from) {
        None => {
            proof {
                assert(lines_from(s@, s@.len() as int) =~= Seq::<Seq<u8>>::empty());
                assert(seq![s@.subrange(from as int, s@.len() as int)] =~= seq![
                    s@.subrange(from as int, s@.len() as int),
                ] + Seq::<Seq<u8>>::empty());
            }
            (&s[from..s.len()], s.len())
        },
        Some(i) => {
            let line = &s[from..i];
            let n = line.len();
            if n > 0 && line[n - 1] == CR {
                assert(line@.drop_last() =~= s@.subrange(from as int, i - 1));
                (&s[from..i - 1], i + 1)
            } else {
                (line, i + 1)
            }
        },
    }
}

/// Splits a request line into method and route.
fn split_request_line<'a>(line: &'a [u8]) -> (r: Option<(&'a [u8], &'a [u8])>)
    ensures
        match r {
            Some((m, p)) => request_line(line@) == Some((m@, p@)),
            None => request_line(line@).is_none(),
        },
{
    let sp: [u8; 1] = [SPACE];
    proof {
        assert(sp@ =~= seq![SPACE]);
        lemma_find_from(line@, seq![SPACE], 0);
    }
    match find_bytes(line, sp.as_slice()) {
        None => None,
        Some(me) => {
            let rest = &line[me + 1..line.len()];
            proof {
                lemma_find_from(rest@, seq![SPACE], 0);
            }
            match find_bytes(rest, sp.as_slice()) {
                None => None,
                Some(re) => Some((&line[0..me], &rest[0..re])),
            }
        },
    }
}

/// Splits a header line into name and value.
fn split_header<'a>(line: &'a [u8]) -> (r: Option<(&'a [u8], &'a [u8])>)
    ensures
        match r {
            Some((k, v)) => header_of(line@) == Some((k@, v@)),
            None => header_of(line@).is_none(),
        },
{
    let sep: [u8; 2] = [COLON, SPACE];
    proof {
        assert(sep@ =~= seq![COLON, SPACE]);
        lemma_find_from(line@, seq![COLON, SPACE], 0);
    }
    match find_bytes(line, sep.as_slice()) {
        None => None,
        Some(c) => Some((&line[0..c], &line[c + 2..line.len()])),
    }
}

impl<'r> Request<'r> {
    /// Parses the bytes read from one connection.
    #[verifier::loop_isolation(false)]
    pub fn try_from(value: &'r [u8]) -> (r: Result<Request<'r>, StatusCode>)
        ensures
            match r {
                Ok(req) => parse(value@) == Ok::<RequestView, StatusCode>(req@),
                Err(e) => parse(value@) == Err::<RequestView, StatusCode>(e),
            },
    {
        let blank: [u8; 4] = [CR, LF, CR, LF];
        proof {
            assert(blank@ =~= blank_line());
            lemma_find_from(value@, blank_line(), 0);
        }
        let he = match find_bytes(value, blank.as_slice()) {
            None => {
                return Err(StatusCode::BAD_REQUEST);
            },
            Some(he) => he,
        };
        let head = &value[0..he];
        if he == 0 {
            return Err(StatusCode::BAD_REQUEST);
        }
        let (path_line, first) = take_line(head, 0);
        let ghost lines = lines_of(head@);
        proof {
            assert(lines[0] == path_line@);
            assert(lines.drop_first() =~= lines_from(head@, first as int));
        }
        let (method, route) = match split_request_line(path_line) {
            None => {
                return Err(StatusCode::BAD_REQUEST);
            },
            Some(pair) => pair,
        };
        let mut headers = Headers::new();
        let mut cursor: usize = first;
        while cursor < he
            invariant
                cursor <= he == head@.len(),
                collect(lines.drop_first(), Seq::empty()) == collect(
                    lines_from(head@, cursor as int),
                    headers@,
                ),
            decreases he - cursor,
        {
            let (line, next) = take_line(head, cursor);
            proof {
                let rest = lines_from(head@, cursor as int);
                assert(rest[0] == line@);
                assert(rest.drop_first() =~= lines_from(head@, next as int));
            }
            match split_header(line) {
                None => {},
                Some((key, val)) => {
                    if !headers.put(key, val) {
                        return Err(StatusCode::REQUEST_HEADER_FIELDS_TOO_LARGE);
                    }
                },
            }
            cursor = next;
        }
        let body = &value[he + 4..value.len()];
        Ok(Request { route, method, headers, body })
    }

    /// Whether the request has the given method and route, byte for byte.
    pub fn is(&self, method: &str, route: &str) -> (b: bool)
        ensures
            b == (self.method@ == method.spec_bytes() && self.route@ == route.spec_bytes()),
    {
        bytes_eq(self.method, method.as_bytes()) && bytes_eq(self.route, route.as_bytes())
    }
}

} // verus!
