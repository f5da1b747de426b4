//! Passwords, session tokens and the claims that a token carries.

use vstd::prelude::*;
use vstd::string::StringExecFns;
use vstd::utf8::encode_utf8;
use crate::api::models::User;
use crate::text::bytes_eq;
use crate::text::find_bytes_from;
use crate::text::find_from;
use vstd::string::StringSliceAdditionalSpecFns;
use sha2::Digest;

verus! {

/// How long a session lasts, in seconds.
pub const SESSION_SECONDS: i64 = 3600;

/// The SHA-256 digest of a byte string.
pub uninterp spec fn sha256_of(data: Seq<u8>) -> Seq<u8>;

/// The character of a hexadecimal digit, in lower case.
pub open spec fn hex_char(v: u8) -> char {
    if v == 0 {
        '0'
    } else if v == 1 {
        '1'
    } else if v == 2 {
        '2'
    } else if v == 3 {
        '3'
    } else if v == 4 {
        '4'
    } else if v == 5 {
        '5'
    } else if v == 6 {
        '6'
    } else if v == 7 {
        '7'
    } else if v == 8 {
        '8'
    } else if v == 9 {
        '9'
    } else if v == 10 {
        'a'
    } else if v == 11 {
        'b'
    } else if v == 12 {
        'c'
    } else if v == 13 {
        'd'
    } else if v == 14 {
        'e'
    } else {
        'f'
    }
}

/// The lower-case hexadecimal text of a byte string, two digits a byte.
pub open spec fn hex_text(bytes: Seq<u8>) -> Seq<char> {
    Seq::new(2 * bytes.len(), |i: int| hex_char(if i % 2 == 0 {
        bytes[i / 2] / 16
    } else {
        bytes[i / 2] % 16
    }))
}

/// `sha2::Sha256::digest`: the digest of the data, 32 bytes.
#[verifier::external_body]
fn sha256(data: &[u8]) -> (d: [u8; 32])
    ensures
        d@ == sha256_of(data@),
{
    sha2::Sha256::digest(data).into()
}

/// `hex::encode`: the lower-case hexadecimal text of the bytes.
#[verifier::external_body]
fn hex_string(bytes: &[u8]) -> (s: String)
    ensures
        s@ == hex_text(bytes@),
{
    hex::encode(bytes)
}

/// `urandom::csprng` and `next`: sixteen bytes from the system's secure
/// random number generator. Nothing is known of them.
#[verifier::external_body]
fn random_salt() -> [u8; 16] {
    urandom::csprng().next::<[u8; 16]>()
}

/// `str::split_once` with a colon: what precedes the first colon and what
/// follows it, or nothing if there is no colon.
#[verifier::external_body]
fn split_at_colon<'a>(s: &'a str) -> (r: Option<(&'a str, &'a str)>)
    ensures
        match r {
            Some((a, b)) => s@ == a@ + seq![':'] + b@ && !a@.contains(':'),
            None => !s@.contains(':'),
        },
{
    s.split_once(':')
}

/// A stored password: the digest of password and salt, and the salt, both
/// as hexadecimal text.
#[derive(Debug)]
pub struct Password {
    hash: String,
    salt: String,
}

/// The hash that is stored for a password with a salt: the hexadecimal
/// text of the digest of the password followed by the salt.
pub open spec fn hash_of(password: Seq<char>, salt: Seq<char>) -> Seq<char> {
    hex_text(sha256_of(encode_utf8(password + salt)))
}

impl Password {
    /// The stored hash.
    pub closed spec fn hash(self) -> Seq<char> {
        self.hash@
    }

    /// The stored salt.
    pub closed spec fn salt(self) -> Seq<char> {
        self.salt@
    }

    /// The stored form of `password` with sixteen bytes of salt.
    pub fn with_salt(password: &str, salt: &[u8; 16]) -> (p: Password)
        ensures
            p.salt() == hex_text(salt@),
            p.salt().len() == 32,
            p.hash() == hash_of(password@, hex_text(salt@)),
    {
        let salt = hex_string(salt.as_slice());
        let mut salted = String::from_str(password);
        salted.append(salt.as_str());
        let hash = hex_string(sha256(salted.as_str().as_bytes()).as_slice());
        Password { hash, salt }
    }

    /// The stored form of `password` with a fresh random salt.
    pub fn new(password: &str) -> (p: Password)
        ensures
            p.hash() == hash_of(password@, p.salt()),
            p.salt().len() == 32,
    {
        let salt = random_salt();
        Password::with_salt(password, &salt)
    }

    /// Whether `password` is the password that was stored.
    pub fn verify(&self, password: &str) -> (b: bool)
        ensures
            b == (self.hash() == hash_of(password@, self.salt())),
    {
        let mut salted = String::from_str(password);
        salted.append(self.salt.as_str());
        let hash = hex_string(sha256(salted.as_str().as_bytes()).as_slice());
        self.hash == hash
    }

    /// The text that is stored: hash, colon, salt.
    pub fn to_string(&self) -> (s: String)
        ensures
            s@ == self.hash() + seq![':'] + self.salt(),
    {
        proof {
            reveal_strlit(":");
        }
        let mut s = self.hash.clone();
        s.append(":");
        s.append(self.salt.as_str());
        assert(":"@ =~= seq![':']);
        s
    }

    /// Reads the stored text: the hash is what precedes the first colon,
    /// the salt what follows it. A text without a colon is refused.
    pub fn from_str(s: &str) -> (r: Option<Password>)
        ensures
            match r {
                Some(p) => s@ == p.hash() + seq![':'] + p.salt() && !p.hash().contains(':'),
                None => !s@.contains(':'),
            },
    {
        match split_at_colon(s) {
            Some((hash, salt)) => Some(
                Password { hash: String::from_str(hash), salt: String::from_str(salt) },
            ),
            None => None,
        }
    }
}

impl Clone for Password {
    fn clone(&self) -> (p: Password)
        ensures
            p == *self,
    {
        Password { hash: self.hash.clone(), salt: self.salt.clone() }
    }
}

/// A session token, as the browser presents it.
#[derive(Debug)]
pub struct Token(String);

impl View for Token {
    type V = Seq<char>;

    closed spec fn view(&self) -> Seq<char> {
        self.0@
    }
}

impl Token {
    /// The token with this text.
    pub fn from_str(s: &str) -> (t: Token)
        ensures
            t@ == s@,
    {
        Token(String::from_str(s))
    }

    /// The text of the token.
    pub fn as_str(&self) -> (s: &str)
        ensures
            s@ == self@,
    {
        self.0.as_str()
    }
}

impl Clone for Token {
    fn clone(&self) -> (t: Token)
        ensures
            t == *self,
    {
        Token(self.0.clone())
    }
}

/// What a token says: who the user is, until when the token holds, and the
/// user's id.
#[derive(Debug)]
pub struct Claims {
    pub sub: String,
    pub exp: i64,
    pub acs: i64,
}

impl Claims {
    /// The claims of a session that starts at `now_s` for the user with
    /// this name and id: it holds for an hour.
    pub fn for_user(name: String, id: i64, now_s: i64) -> (c: Claims)
        requires
            now_s + SESSION_SECONDS <= i64::MAX,
        ensures
            c.sub == name,
            c.acs == id,
            c.exp == now_s + SESSION_SECONDS,
    {
        Claims { sub: name, exp: now_s + SESSION_SECONDS, acs: id }
    }

    /// Whether the token still holds at `now_s`, seconds since the Unix
    /// epoch: its expiry lies in the future.
    pub fn validate(&self, now_s: i64) -> (b: bool)
        ensures
            b == (self.exp > now_s),
    {
        self.exp > now_s
    }

    /// The user that the claims name.
    pub fn into_user(self) -> (u: User)
        ensures
            u.id == self.acs,
            u.name == self.sub,
    {
        User { id: self.acs, name: self.sub }
    }
}

/// What a presented token amounts to.
#[derive(Debug)]
pub enum SessionCheck {
    /// The token belongs to no stored session: the request is anonymous.
    Unknown,
    /// The session is stored but its token has expired: the session is to
    /// be deleted, and the request is anonymous.
    Expired,
    /// The session holds: the request is made by this user.
    Valid(User),
}

impl Claims {
    /// Judges a token whose signature was found good and whose claims
    /// these are. `stored` says whether the sessions table holds the token
    /// for the user that it names.
    pub fn check_session(self, stored: bool, now_s: i64) -> (c: SessionCheck)
        ensures
            c == (if !stored {
                SessionCheck::Unknown
            } else if self.exp > now_s {
                SessionCheck::Valid(User { id: self.acs, name: self.sub })
            } else {
                SessionCheck::Expired
            }),
    {
        if !stored {
            SessionCheck::Unknown
        } else if self.validate(now_s) {
            SessionCheck::Valid(self.into_user())
        } else {
            SessionCheck::Expired
        }
    }
}

/// The name under which the session token travels in a cookie, with the
/// equals sign that follows it.
pub open spec fn cookie_prefix() -> Seq<u8> {
    "session=".spec_bytes()
}

/// `s` begins with `prefix`.
pub open spec fn starts_with(s: Seq<u8>, prefix: Seq<u8>) -> bool {
    s.len() >= prefix.len() && s.subrange(0, prefix.len() as int) == prefix
}

/// A cookie value without the prefix, as often as it stands in front.
pub open spec fn stripped(part: Seq<u8>) -> Seq<u8>
    decreases part.len(),
{
    if cookie_prefix().len() > 0 && starts_with(part, cookie_prefix()) {
        stripped(part.subrange(cookie_prefix().len() as int, part.len() as int))
    } else {
        part
    }
}

/// The session token in the cookies from offset `from` on: the cookies
/// are separated by semicolons, and the first one that begins with the
/// prefix gives the token, which is what follows the prefix.
pub open spec fn session_from(cookies: Seq<u8>, from: int) -> Option<Seq<u8>>
    decreases cookies.len() - from + 1,
{
    if from < 0 || from > cookies.len() {
        None
    } else {
        let end = match find_from(cookies, seq![SEMICOLON], from) {
            Some(i) => i,
            None => cookies.len() as int,
        };
        if end < from || end > cookies.len() {
            None
        } else if starts_with(cookies.subrange(from, end), cookie_prefix()) {
            Some(stripped(cookies.subrange(from, end)))
        } else if end == cookies.len() {
            None
        } else {
            session_from(cookies, end + 1)
        }
    }
}

/// The byte that separates cookies.
pub const SEMICOLON: u8 = 59;

/// Whether `s` begins with `prefix`.
fn begins_with(s: &[u8], prefix: &[u8]) -> (b: bool)
    ensures
        b == starts_with(s@, prefix@),
{
    if s.len() < prefix.len() {
        return false;
    }
    let head = &s[0..prefix.len()];
    bytes_eq(head, prefix)
}

/// Finds the session token in the value of a cookie header.
pub fn session_cookie<'a>(cookies: &'a [u8]) -> (token: Option<&'a [u8]>)
    ensures
        match token {
            Some(t) => session_from(cookies@, 0) == Some(t@),
            None => session_from(cookies@, 0).is_none(),
        },
{
    let prefix = "session=".as_bytes();
    let semicolon: [u8; 1] = [SEMICOLON];
    assert(semicolon@ =~= seq![SEMICOLON]);
    let n = cookies.len();
    let mut from: usize = 0;
    loop
        invariant
            from <= n == cookies@.len(),
            prefix@ == cookie_prefix(),
            semicolon@ == seq![SEMICOLON],
            session_from(cookies@, 0) == session_from(cookies@, from as int),
        decreases n - from,
    {
        let end = match find_bytes_from(cookies, semicolon.as_slice(), from) {
            Some(i) => i,
            None => n,
        };
        let part = &cookies[from..end];
        if begins_with(part, prefix) {
            let mut value = part;
            while prefix.len() > 0 && begins_with(value, prefix)
                invariant
                    prefix@ == cookie_prefix(),
                    stripped(part@) == stripped(value@),
                decreases value@.len(),
            {
                value = &value[prefix.len()..value.len()];
            }
            return Some(value);
        }
        if end == n {
            return None;
        }
        from = end + 1;
    }
}

impl Clone for Claims {
    fn clone(&self) -> (c: Claims)
        ensures
            c == *self,
    {
        Claims { sub: self.sub.clone(), exp: self.exp, acs: self.acs }
    }
}

} // verus!
