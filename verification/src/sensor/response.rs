//! Replies: a status line, headers and an optional body, written into one
//! buffer of fixed capacity.

use vstd::prelude::*;
use vstd::string::StringSliceAdditionalSpecFns;
use crate::sensor::headers::set_header;
use crate::sensor::headers::without_named;
use crate::sensor::headers::Headers;
use crate::sensor::headers::HEADERS_LEN;
use crate::sensor::status::StatusCode;
use crate::text::decimal_digits;
use crate::text::COLON;
use crate::text::CR;
use crate::text::LF;
use crate::text::SPACE;

verus! {

/// Room for the status line and the headers of a reply.
pub const RESPONSE_HEADER_LEN: usize = 512;

/// Room for the body of a reply.
pub const RESPONSE_BODY_LEN: usize = 512;

/// Capacity of a reply: header room plus body room.
pub const RESPONSE_LEN: usize = 1024;

/// The bytes held by a reply buffer.
pub uninterp spec fn buffer_bytes(v: heapless::Vec<u8, 1024>) -> Seq<u8>;

/// `itoa::Buffer`: scratch space in which an integer is formatted.
#[verifier::external_type_specification]
#[verifier::external_body]
pub struct ExItoaBuffer(itoa::Buffer);

/// `heapless::Vec::new`: an empty buffer.
#[verifier::external_body]
fn buffer_new() -> (v: heapless::Vec<u8, 1024>)
    ensures
        buffer_bytes(v) == Seq::<u8>::empty(),
{
    heapless::Vec::new()
}

/// `heapless::Vec::extend_from_slice`: appends the bytes if the result has
/// at most 1024 of them, and changes nothing otherwise.
#[verifier::external_body]
fn buffer_extend(v: &mut heapless::Vec<u8, 1024>, part: &[u8]) -> (r: Result<(), ()>)
    ensures
        r.is_ok() <==> buffer_bytes(*old(v)).len() + part@.len() <= 1024,
        r.is_ok() ==> buffer_bytes(*final(v)) == buffer_bytes(*old(v)) + part@,
        r.is_err() ==> buffer_bytes(*final(v)) == buffer_bytes(*old(v)),
{
    v.extend_from_slice(part)
}

/// `heapless::Vec::as_slice`: the bytes held, at most 1024.
#[verifier::external_body]
fn buffer_slice(v: &heapless::Vec<u8, 1024>) -> (s: &[u8])
    ensures
        s@ == buffer_bytes(*v),
        s@.len() <= 1024,
{
    v.as_slice()
}

/// `itoa::Buffer::new`: scratch space for one formatted integer.
#[verifier::external_body]
fn digits_buffer() -> itoa::Buffer {
    itoa::Buffer::new()
}

/// `itoa::Buffer::format`: the decimal digits of `n`.
#[verifier::external_body]
fn format_decimal<'a>(buf: &'a mut itoa::Buffer, n: usize) -> (r: &'a str)
    ensures
        r.spec_bytes() == decimal_digits(n as nat),
{
    buf.format(n)
}

/// A reply, ready to be written to the connection.
pub struct Response {
    buf: heapless::Vec<u8, 1024>,
}

impl View for Response {
    type V = Seq<u8>;

    closed spec fn view(&self) -> Seq<u8> {
        buffer_bytes(self.buf)
    }
}

impl Response {
    /// Wraps a filled buffer.
    pub fn new(data: heapless::Vec<u8, 1024>) -> (r: Response)
        ensures
            r@ == buffer_bytes(data),
    {
        Response { buf: data }
    }

    /// The bytes of the reply.
    pub fn as_slice(&self) -> (s: &[u8])
        ensures
            s@ == self@,
            s@.len() <= RESPONSE_LEN,
    {
        buffer_slice(&self.buf)
    }

    /// The number of bytes of the reply.
    pub fn len(&self) -> (n: usize)
        ensures
            n == self@.len(),
            n <= RESPONSE_LEN,
    {
        buffer_slice(&self.buf).len()
    }
}

/// The first line of a reply: protocol version, code and reason phrase.
pub open spec fn status_line(code: StatusCode) -> Seq<u8> {
    "HTTP/1.1 ".spec_bytes() + decimal_digits(code.code() as nat) + seq![SPACE]
        + code.reason_spec().spec_bytes() + seq![CR, LF]
}

/// One header on the wire: name, colon and space, value, line end.
pub open spec fn header_line(entry: (Seq<u8>, Seq<u8>)) -> Seq<u8> {
    entry.0 + seq![COLON, SPACE] + entry.1 + seq![CR, LF]
}

/// The header lines of `entries`, in order.
pub open spec fn header_block(entries: Seq<(Seq<u8>, Seq<u8>)>) -> Seq<u8>
    decreases entries.len(),
{
    if entries.len() == 0 {
        Seq::empty()
    } else {
        header_block(entries.drop_last()) + header_line(entries.last())
    }
}

/// A whole reply on the wire: status line, headers, blank line, body.
pub open spec fn wire(code: StatusCode, entries: Seq<(Seq<u8>, Seq<u8>)>, body: Seq<u8>) -> Seq<
    u8,
> {
    status_line(code) + header_block(entries) + seq![CR, LF] + body
}

/// The reply if it fits the buffer.
pub open spec fn framed(code: StatusCode, entries: Seq<(Seq<u8>, Seq<u8>)>, body: Seq<u8>)
    -> Option<Seq<u8>> {
    let w = wire(code, entries, body);
    if w.len() <= RESPONSE_LEN {
        Some(w)
    } else {
        None
    }
}

/// A buffer under construction. Once a part did not fit, nothing more is
/// written; `intended` is what all parts together would have been.
struct Writer {
    buf: heapless::Vec<u8, 1024>,
    ok: bool,
    intended: Ghost<Seq<u8>>,
}

impl Writer {
    spec fn inv(self) -> bool {
        &&& self.ok ==> buffer_bytes(self.buf) == self.intended@
        &&& !self.ok ==> self.intended@.len() > RESPONSE_LEN
    }

    fn new() -> (w: Writer)
        ensures
            w.inv(),
            w.intended@ == Seq::<u8>::empty(),
    {
        Writer { buf: buffer_new(), ok: true, intended: Ghost(Seq::empty()) }
    }

    fn emit(&mut self, part: &[u8])
        requires
            old(self).inv(),
        ensures
            final(self).inv(),
            final(self).intended@ == old(self).intended@ + part@,
    {
        if self.ok {
            self.ok = buffer_extend(&mut self.buf, part).is_ok();
        }
        self.intended = Ghost(self.intended@ + part@);
    }

    fn emit_byte_pair(&mut self, a: u8, b: u8)
        requires
            old(self).inv(),
        ensures
            final(self).inv(),
            final(self).intended@ == old(self).intended@ + seq![a, b],
    {
        let pair: [u8; 2] = [a, b];
        assert(pair@ =~= seq![a, b]);
        self.emit(pair.as_slice());
    }
}

/// `header_block` grows by one line with each further entry.
proof fn lemma_block_step(entries: Seq<(Seq<u8>, Seq<u8>)>, i: int)
    requires
        0 <= i < entries.len(),
    ensures
        header_block(entries.take(i + 1)) == header_block(entries.take(i)) + header_line(
            entries[i],
        ),
{
    assert(entries.take(i + 1).drop_last() =~= entries.take(i));
}

/// Writes the status line and the headers, then the blank line.
fn write_head(w: &mut Writer, code: StatusCode, headers: &Headers<'_>)
    requires
        old(w).inv(),
        old(w).intended@ == Seq::<u8>::empty(),
    ensures
        final(w).inv(),
        final(w).intended@ == status_line(code) + header_block(headers@) + seq![CR, LF],
{
    let mut scratch = digits_buffer();
    w.emit("HTTP/1.1 ".as_bytes());
    w.emit(format_decimal(&mut scratch, code.as_u16() as usize).as_bytes());
    let sp: [u8; 1] = [SPACE];
    assert(sp@ =~= seq![SPACE]);
    w.emit(sp.as_slice());
    w.emit(code.reason().as_bytes());
    w.emit_byte_pair(CR, LF);
    assert(w.intended@ =~= status_line(code));
    let n = headers.len();
    let mut i: usize = 0;
    assert(headers@.take(0) =~= Seq::<(Seq<u8>, Seq<u8>)>::empty());
    while i < n
        invariant
            i <= n == headers@.len(),
            w.inv(),
            w.intended@ == status_line(code) + header_block(headers@.take(i as int)),
        decreases n - i,
    {
        let (k, v) = headers.entry(i);
        w.emit(k);
        w.emit_byte_pair(COLON, SPACE);
        w.emit(v);
        w.emit_byte_pair(CR, LF);
        proof {
            lemma_block_step(headers@, i as int);
            assert(w.intended@ =~= status_line(code) + header_block(headers@.take(i + 1)));
        }
        i += 1;
    }
    assert(headers@.take(n as int) =~= headers@);
    w.emit_byte_pair(CR, LF);
}

/// Collects the parts of a reply: a status code, extra headers and an
/// optional body that is already serialized.
pub struct ResponseBuilder<'h> {
    pub headers: Headers<'h>,
    code: Option<StatusCode>,
    data: Option<&'h [u8]>,
}

impl<'h> ResponseBuilder<'h> {
    /// The extra headers that were set.
    pub closed spec fn entries(self) -> Seq<(Seq<u8>, Seq<u8>)> {
        self.headers@
    }

    /// The status code that was set, if any.
    pub closed spec fn code(self) -> Option<StatusCode> {
        self.code
    }

    /// The body that was set, if any.
    pub closed spec fn data(self) -> Option<Seq<u8>> {
        match self.data {
            Some(d) => Some(d@),
            None => None,
        }
    }

    /// The status code of the reply: the one set, or 200.
    pub open spec fn effective_code(self) -> StatusCode {
        match self.code() {
            Some(c) => c,
            None => StatusCode::OK,
        }
    }

    /// The bytes that the builder stands for, if they can be built: a reply
    /// without body is the status line and the headers; one with a body of
    /// at most [`RESPONSE_BODY_LEN`] bytes also sets the headers
    /// `Content-Type` and `Content-Length`, for which the header map must
    /// have room. Nothing if any capacity is exceeded.
    pub open spec fn built(self) -> Option<Seq<u8>> {
        match self.data() {
            None => framed(self.effective_code(), self.entries(), Seq::empty()),
            Some(d) => {
                let typed = set_header(
                    self.entries(),
                    "Content-Type".spec_bytes(),
                    "application/json".spec_bytes(),
                );
                let sized = set_header(
                    typed,
                    "Content-Length".spec_bytes(),
                    decimal_digits(d.len()),
                );
                if d.len() > RESPONSE_BODY_LEN {
                    None
                } else if without_named(self.entries(), "Content-Type".spec_bytes()).len()
                    >= HEADERS_LEN {
                    None
                } else if without_named(typed, "Content-Length".spec_bytes()).len()
                    >= HEADERS_LEN {
                    None
                } else {
                    framed(self.effective_code(), sized, d)
                }
            },
        }
    }

    /// A builder without headers, code or body.
    pub fn new() -> (b: ResponseBuilder<'h>)
        ensures
            b.entries() == Seq::<(Seq<u8>, Seq<u8>)>::empty(),
            b.code().is_none(),
            b.data().is_none(),
    {
        ResponseBuilder { headers: Headers::new(), code: None, data: None }
    }

    /// Sets the status code.
    pub fn with_code(self, code: StatusCode) -> (b: ResponseBuilder<'h>)
        ensures
            b.entries() == self.entries(),
            b.code() == Some(code),
            b.data() == self.data(),
    {
        let mut b = self;
        b.code = Some(code);
        b
    }

    /// Sets the body: the serialized payload.
    pub fn with_data(self, data: &'h [u8]) -> (b: ResponseBuilder<'h>)
        ensures
            b.entries() == self.entries(),
            b.code() == self.code(),
            b.data() == Some(data@),
    {
        let mut b = self;
        b.data = Some(data);
        b
    }

    /// Builds the reply, or nothing if it exceeds a capacity.
    pub fn try_into_response(self) -> (r: Option<Response>)
        ensures
            match r {
                Some(resp) => self.built() == Some(resp@),
                None => self.built().is_none(),
            },
    {
        let code = match self.code {
            Some(c) => c,
            None => StatusCode::OK,
        };
        let mut scratch = digits_buffer();
        let mut headers = self.headers;
        let mut w = Writer::new();
        match self.data {
            None => {
                write_head(&mut w, code, &headers);
                assert(w.intended@ =~= wire(code, headers@, Seq::empty()));
            },
            Some(data) => {
                if data.len() > RESPONSE_BODY_LEN {
                    return None;
                }
                if headers.insert("Content-Type".as_bytes(), "application/json".as_bytes()).is_err() {
                    return None;
                }
                let digits = format_decimal(&mut scratch, data.len());
                if headers.insert("Content-Length".as_bytes(), digits.as_bytes()).is_err() {
                    return None;
                }
                write_head(&mut w, code, &headers);
                w.emit(data);
            },
        }
        if w.ok {
            let resp = Response { buf: w.buf };
            let n = resp.len();
            Some(resp)
        } else {
            None
        }
    }

    /// Builds the reply.
    pub fn into_response(self) -> (r: Response)
        requires
            self.built().is_some(),
        ensures
            Some(r@) == self.built(),
    {
        match self.try_into_response() {
            Some(r) => r,
            None => vstd::pervasive::unreached(),
        }
    }
}

} // verus!
