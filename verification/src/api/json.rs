//! The forms and replies that the orchestrator reads.

use vstd::prelude::*;
use vstd::utf8::encode_utf8;
use crate::api::db::DataScheduleEntry;
use crate::api::db::SensorEntity;
use crate::api::features::SensorFeatures;
use crate::api::features::MOTION;
use crate::api::features::TEMPERATURE;
use crate::common::StoreUsage;
use crate::text::decimal_chars;
use crate::text::decimal_digits;
use crate::text::find_bytes;
use crate::text::find_first;
use crate::text::COLON;

verus! {

/// The form that renames a sensor or moves it to another area.
#[derive(Debug)]
pub struct SensorFormData {
    pub name: String,
    pub area_id: String,
}

/// The update that the orchestrator sends to a device: a new name, or
/// nothing.
#[derive(Debug)]
pub struct SensorDto {
    pub name: Option<String>,
}

impl SensorDto {
    /// The update that a form asks for.
    pub fn from_form(form: SensorFormData) -> (dto: SensorDto)
        ensures
            dto.name == Some(form.name),
    {
        SensorDto { name: Some(form.name) }
    }

    /// The update that gives a device the name of a stored sensor.
    pub fn from_entity(sensor: SensorEntity) -> (dto: SensorDto)
        ensures
            dto.name == Some(sensor.name),
    {
        SensorDto { name: Some(sensor.name) }
    }
}

/// The reply of a device that reports its identity only.
#[derive(Debug)]
pub struct SensorResponse {
    pub name: String,
    pub features: u32,
    pub pairing: bool,
}

/// The reply of a device to `GET /sensor`.
#[derive(Debug)]
pub struct SensorFullResponse {
    pub name: String,
    pub location: String,
    pub features: u32,
    pub pairing: bool,
    pub paired_keys: u32,
    pub usage: StoreUsage,
}

/// The form that names an area.
#[derive(Debug)]
pub struct AreaFormData {
    pub name: String,
}

/// The form that puts an entry into the schedule: a box for each feature,
/// ticked if it holds anything, and the interval as hours, minutes and
/// seconds.
#[derive(Debug)]
pub struct ScheduleEntryFormData {
    pub features_temp: Option<String>,
    pub features_motion: Option<String>,
    pub interval: String,
}

/// Why a schedule form is refused.
#[derive(Debug, Clone, Copy, PartialEq, Eq, Structural)]
pub enum FormError {
    /// A part of the interval is not a number.
    NotANumber,
    /// The interval does not fit 64 bits of milliseconds.
    TooLong,
}

/// The value of a string of decimal digits.
pub open spec fn digits_value(s: Seq<u8>) -> nat
    decreases s.len(),
{
    if s.len() == 0 {
        0
    } else {
        digits_value(s.drop_last()) * 10 + (s.last() - 48) as nat
    }
}

/// Every byte is a decimal digit.
pub open spec fn all_digits(s: Seq<u8>) -> bool {
    forall|i: int| 0 <= i < s.len() ==> 48 <= #[trigger] s[i] <= 57
}

/// The digits of a number, without the plus sign that may precede them.
pub open spec fn unsigned_part(s: Seq<u8>) -> Seq<u8> {
    if s.len() > 0 && s[0] == 43 {
        s.drop_first()
    } else {
        s
    }
}

/// The number that a text stands for: decimal digits, at least one, with
/// or without a plus sign in front, and of a value that fits 64 bits.
pub open spec fn number(s: Seq<u8>) -> Option<nat> {
    let d = unsigned_part(s);
    if d.len() > 0 && all_digits(d) && digits_value(d) <= u64::MAX {
        Some(digits_value(d))
    } else {
        None
    }
}

/// The parts of an interval: what stands before the first colon, between
/// the first and the second, and after the second. A text without a colon
/// is one part, one with a single colon two.
pub open spec fn parts(s: Seq<u8>) -> Seq<Seq<u8>> {
    match find_first(s, seq![COLON]) {
        None => seq![s],
        Some(a) => {
            let rest = s.subrange(a + 1, s.len() as int);
            match find_first(rest, seq![COLON]) {
                None => seq![s.subrange(0, a), rest],
                Some(b) => seq![
                    s.subrange(0, a),
                    rest.subrange(0, b),
                    rest.subrange(b + 1, rest.len() as int),
                ],
            }
        },
    }
}

/// The seconds that the parts of an interval stand for, if all of them are
/// numbers: the first part counts hours, the second minutes, the third
/// seconds.
pub open spec fn seconds(p: Seq<Seq<u8>>) -> Option<nat> {
    if p.len() == 1 {
        match number(p[0]) {
            Some(h) => Some(h * 3600),
            None => None,
        }
    } else if p.len() == 2 {
        match (number(p[0]), number(p[1])) {
            (Some(h), Some(m)) => Some(h * 3600 + m * 60),
            _ => None,
        }
    } else {
        match (number(p[0]), number(p[1]), number(p[2])) {
            (Some(h), Some(m), Some(s)) => Some(h * 3600 + m * 60 + s),
            _ => None,
        }
    }
}

/// The milliseconds that an interval stands for, if all its parts are
/// numbers.
pub open spec fn interval_ms(s: Seq<u8>) -> Option<nat> {
    match seconds(parts(s)) {
        Some(sum) => Some(sum * 1000),
        None => None,
    }
}

/// The value of a string of digits is at least the value of any prefix.
proof fn lemma_digits_monotone(s: Seq<u8>, k: int)
    requires
        0 <= k <= s.len(),
    ensures
        digits_value(s.take(k)) <= digits_value(s),
    decreases s.len() - k,
{
    if k == s.len() {
        assert(s.take(k) =~= s);
    } else {
        lemma_digits_monotone(s, k + 1);
        assert(s.take(k + 1).drop_last() =~= s.take(k));
        assert(digits_value(s.take(k + 1)) >= digits_value(s.take(k)) * 10) by {
            assert(digits_value(s.take(k + 1)) == digits_value(s.take(k)) * 10 + (s.take(
                k + 1,
            ).last() - 48) as nat);
        }
    }
}

/// Reads a number.
#[verifier::loop_isolation(false)]
pub fn parse_number(text: &[u8]) -> (r: Option<u64>)
    ensures
        match r {
            Some(v) => number(text@) == Some(v as nat),
            None => number(text@).is_none(),
        },
{
    let n = text.len();
    let start: usize = if n > 0 && text[0] == 43 {
        1
    } else {
        0
    };
    let digits = &text[start..n];
    assert(digits@ =~= unsigned_part(text@));
    let m = digits.len();
    if m == 0 {
        return None;
    }
    let mut acc: u128 = 0;
    let mut i: usize = 0;
    assert(digits@.take(0) =~= Seq::<u8>::empty());
    while i < m
        invariant
            i <= m == digits@.len(),
            acc == digits_value(digits@.take(i as int)),
            acc <= u64::MAX,
            all_digits(digits@.take(i as int)),
        decreases m - i,
    {
        let b = digits[i];
        if b < 48 || b > 57 {
            assert(!(48 <= digits@[i as int] <= 57));
            return None;
        }
        proof {
            let next = digits@.take(i + 1);
            assert(next.drop_last() =~= digits@.take(i as int));
            assert(next.last() == b);
            assert(digits_value(next) == digits_value(next.drop_last()) * 10 + (next.last()
                - 48) as nat);
        }
        acc = acc * 10 + (b - 48) as u128;
        if acc > u64::MAX as u128 {
            proof {
                lemma_digits_monotone(digits@, i + 1);
            }
            return None;
        }
        i += 1;
    }
    assert(digits@.take(m as int) =~= digits@);
    Some(acc as u64)
}

impl ScheduleEntryFormData {
    /// The features that the form ticks.
    pub open spec fn ticked(self) -> u32 {
        (if self.features_temp.is_some() {
            TEMPERATURE
        } else {
            0
        }) | (if self.features_motion.is_some() {
            MOTION
        } else {
            0
        })
    }

    /// The schedule entry that the form stands for. The interval is read
    /// as up to three numbers with colons between them: hours, then
    /// minutes, then seconds.
    pub fn try_into(self) -> (r: Result<DataScheduleEntry, FormError>)
        ensures
            match interval_ms(encode_utf8(self.interval@)) {
                None => r == Err::<DataScheduleEntry, FormError>(FormError::NotANumber),
                Some(ms) => if ms > u64::MAX {
                    r == Err::<DataScheduleEntry, FormError>(FormError::TooLong)
                } else {
                    r.is_ok() && r.unwrap().interval_ms == ms && r.unwrap().features@
                        == self.ticked()
                },
            },
    {
        let mut features = SensorFeatures::empty();
        if self.features_temp.is_some() {
            features.insert(SensorFeatures::temperature());
        }
        if self.features_motion.is_some() {
            features.insert(SensorFeatures::motion());
        }
        proof {
            assert(0u32 | 1u32 == 1u32) by (bit_vector);
            assert(0u32 | 0u32 == 0u32) by (bit_vector);
            assert((0u32 | 1u32) | 2u32 == 1u32 | 2u32) by (bit_vector);
            assert(0u32 | 2u32 == 2u32) by (bit_vector);
            assert(1u32 | 0u32 == 1u32) by (bit_vector);
        }
        match read_interval(self.interval.as_str().as_bytes()) {
            None => Err(FormError::NotANumber),
            Some(total) => {
                let ms: u128 = total * 1000;
                if ms > u64::MAX as u128 {
                    Err(FormError::TooLong)
                } else {
                    Ok(DataScheduleEntry { features, interval_ms: ms as u64 })
                }
            },
        }
    }
}

/// Reads an interval: the seconds that it stands for.
fn read_interval(text: &[u8]) -> (r: Option<u128>)
    ensures
        match r {
            Some(total) => seconds(parts(text@)) == Some(total as nat) && total <= 3661
                * 0x1_0000_0000_0000_0000,
            None => seconds(parts(text@)).is_none(),
        },
{
    let colon: [u8; 1] = [COLON];
    assert(colon@ =~= seq![COLON]);
    match find_bytes(text, colon.as_slice()) {
        None => match parse_number(text) {
            None => None,
            Some(h) => Some(h as u128 * 3600),
        },
        Some(a) => {
            let rest = &text[a + 1..text.len()];
            let hours = parse_number(&text[0..a]);
            match find_bytes(rest, colon.as_slice()) {
                None => {
                    let minutes = parse_number(rest);
                    match (hours, minutes) {
                        (Some(h), Some(m)) => Some(h as u128 * 3600 + m as u128 * 60),
                        _ => None,
                    }
                },
                Some(b) => {
                    let minutes = parse_number(&rest[0..b]);
                    let secs = parse_number(&rest[b + 1..rest.len()]);
                    match (hours, minutes, secs) {
                        (Some(h), Some(m), Some(s)) => Some(
                            h as u128 * 3600 + m as u128 * 60 + s as u128,
                        ),
                        _ => None,
                    }
                },
            }
        },
    }
}

/// The digits of a number are digits, at least one, and have its value.
pub proof fn lemma_digits_value(n: nat)
    ensures
        decimal_digits(n).len() >= 1,
        all_digits(decimal_digits(n)),
        digits_value(decimal_digits(n)) == n,
    decreases n,
{
    if n < 10 {
        let s = decimal_digits(n);
        assert(s.drop_last() =~= Seq::<u8>::empty());
        assert(digits_value(s) == digits_value(s.drop_last()) * 10 + (s.last() - 48) as nat);
    } else {
        lemma_digits_value(n / 10);
        let s = decimal_digits(n);
        assert(s.drop_last() =~= decimal_digits(n / 10));
        assert(s.last() == (48 + n % 10) as u8);
        assert(digits_value(s) == digits_value(s.drop_last()) * 10 + (s.last() - 48) as nat);
    }
}

/// The text of a number, as it is printed, is made of its digits.
pub proof fn lemma_decimal_text(n: nat)
    ensures
        encode_utf8(decimal_chars(n)) == decimal_digits(n),
        decimal_chars(n).len() == decimal_digits(n).len(),
{
    lemma_decimal_chars(n);
    let c = decimal_chars(n);
    vstd::utf8::is_ascii_chars_encode_utf8(c);
    assert(encode_utf8(c) =~= decimal_digits(n));
}

/// The characters of a number are those of its digits.
proof fn lemma_decimal_chars(n: nat)
    ensures
        decimal_chars(n).len() == decimal_digits(n).len(),
        vstd::utf8::is_ascii_chars(decimal_chars(n)),
        forall|i: int|
            0 <= i < decimal_chars(n).len() ==> (#[trigger] decimal_chars(n)[i]) as u8
                == decimal_digits(n)[i],
    decreases n,
{
    if n >= 10 {
        lemma_decimal_chars(n / 10);
    }
}

/// Reading a number that was printed gives the number.
pub proof fn lemma_number_round_trip(n: nat)
    requires
        n <= u64::MAX,
    ensures
        number(encode_utf8(decimal_chars(n))) == Some(n),
{
    lemma_decimal_text(n);
    lemma_digits_value(n);
    let b = decimal_digits(n);
    assert(48 <= b[0] <= 57);
    assert(unsigned_part(b) == b);
}

} // verus!
