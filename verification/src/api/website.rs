//! What the pages of the orchestrator compute before they are rendered.

use vstd::prelude::*;
use vstd::string::StringExecFns;
use vstd::string::StringSliceAdditionalSpecFns;
use crate::api::db::AreaEntity;
use crate::api::db::DataScheduleEntry;
use crate::api::db::SensorEntity;
use crate::api::features::SensorFeatures;
use crate::api::json::lemma_number_round_trip;
use crate::api::json::number;
use crate::api::json::parse_number;
use vstd::utf8::encode_utf8;
use crate::text::decimal_chars;
use crate::text::u64_to_string;

verus! {

/// The style of a sensor that offers no feature.
pub const STYLE_INERT: &'static str =
    "bg-neutral border-neutral-content text-neutral-content opacity-70";

/// The style of a sensor that offers some feature.
pub const STYLE_ACTIVE: &'static str = "bg-base-300 border-base-content text-base-content";

/// The query that names a schedule entry for deletion:
/// `features=<bits>&interval_ms=<interval>`.
pub fn delete_query(entry: &DataScheduleEntry) -> (q: String)
    ensures
        q@ == "features="@ + decimal_chars(entry.features@ as nat) + "&interval_ms="@
            + decimal_chars(entry.interval_ms as nat),
{
    let mut q = String::from_str("features=");
    q.append(u64_to_string(entry.features.bits() as u64).as_str());
    q.append("&interval_ms=");
    q.append(u64_to_string(entry.interval_ms).as_str());
    q
}

/// Why the query of a deletion names no schedule entry.
#[derive(Debug, Clone, Copy, PartialEq, Eq, Structural)]
pub enum QueryError {
    /// The query has no `features` field.
    MissingFeatures,
    /// The query has no `interval_ms` field.
    MissingInterval,
    /// A field is not a number, or one too large for its type.
    NotANumber,
}

/// The features and the interval that the fields of a query name. The
/// features are looked at first; they must fit 32 bits, the interval 64.
pub open spec fn query_entry(features: Option<Seq<u8>>, interval_ms: Option<Seq<u8>>) -> Result<
    (u32, u64),
    QueryError,
> {
    match features {
        None => Err(QueryError::MissingFeatures),
        Some(f) => match number(f) {
            None => Err(QueryError::NotANumber),
            Some(bits) => if bits > u32::MAX {
                Err(QueryError::NotANumber)
            } else {
                match interval_ms {
                    None => Err(QueryError::MissingInterval),
                    Some(i) => match number(i) {
                        None => Err(QueryError::NotANumber),
                        Some(ms) => Ok((bits as u32, ms as u64)),
                    },
                }
            },
        },
    }
}

/// The bytes of a text that may be absent.
pub open spec fn bytes_of(text: Option<&str>) -> Option<Seq<u8>> {
    match text {
        Some(t) => Some(t.spec_bytes()),
        None => None,
    }
}

/// Reads the schedule entry that a deletion names from the two fields of
/// its query.
pub fn entry_from_query(features: Option<&str>, interval_ms: Option<&str>) -> (r: Result<
    DataScheduleEntry,
    QueryError,
>)
    ensures
        match query_entry(bytes_of(features), bytes_of(interval_ms)) {
            Ok((bits, ms)) => r.is_ok() && r.unwrap().features@ == bits && r.unwrap().interval_ms
                == ms,
            Err(e) => r == Err::<DataScheduleEntry, QueryError>(e),
        },
{
    let features = match features {
        None => {
            return Err(QueryError::MissingFeatures);
        },
        Some(f) => match parse_number(f.as_bytes()) {
            None => {
                return Err(QueryError::NotANumber);
            },
            Some(bits) => if bits > u32::MAX as u64 {
                return Err(QueryError::NotANumber);
            } else {
                SensorFeatures::from_bits_retain(bits as u32)
            },
        },
    };
    match interval_ms {
        None => Err(QueryError::MissingInterval),
        Some(i) => match parse_number(i.as_bytes()) {
            None => Err(QueryError::NotANumber),
            Some(ms) => Ok(DataScheduleEntry { features, interval_ms: ms }),
        },
    }
}

/// The two fields of the query that `delete_query` writes for an entry
/// name that entry again.
pub proof fn lemma_delete_query_names_entry(bits: u32, interval_ms: u64)
    ensures
        query_entry(
            Some(encode_utf8(decimal_chars(bits as nat))),
            Some(encode_utf8(decimal_chars(interval_ms as nat))),
        ) == Ok::<(u32, u64), QueryError>((bits, interval_ms)),
{
    lemma_number_round_trip(bits as nat);
    lemma_number_round_trip(interval_ms as nat);
}

/// Number of stored readings on one page.
pub const PAGE_SIZE: usize = 10;

/// The number of readings to skip for a page: none where no page is asked
/// for, else the readings of the pages before it. Pages count from one.
pub fn page_offset(page: Option<usize>) -> (offset: Option<usize>)
    requires
        page.is_some() ==> 1 <= page.unwrap() && (page.unwrap() - 1) * PAGE_SIZE <= usize::MAX,
    ensures
        offset == (match page {
            Some(p) => Some(((p - 1) * PAGE_SIZE) as usize),
            None => None,
        }),
{
    match page {
        Some(p) => Some((p - 1) * PAGE_SIZE),
        None => None,
    }
}

/// Whether a page is the last one, given how many readings were found when
/// one more than a page holds was asked for.
pub fn is_last_page(found: usize) -> (last: bool)
    ensures
        last == (found <= PAGE_SIZE),
{
    found <= PAGE_SIZE
}

/// Every area, each with the mark whether the sensor stands in it.
pub fn areas(all: &Vec<AreaEntity>, sensor: &SensorEntity) -> (v: Vec<(AreaEntity, bool)>)
    ensures
        v@.len() == all@.len(),
        forall|i: int|
            0 <= i < v@.len() ==> (#[trigger] v@[i]).0 == all@[i] && v@[i].1 == (
            sensor.area.is_some() && sensor.area.unwrap().id == all@[i].id),
{
    let mut v: Vec<(AreaEntity, bool)> = Vec::new();
    let n = all.len();
    let mut i: usize = 0;
    while i < n
        invariant
            i <= n == all@.len(),
            v@.len() == i,
            forall|k: int|
                0 <= k < i ==> (#[trigger] v@[k]).0 == all@[k] && v@[k].1 == (
                sensor.area.is_some() && sensor.area.unwrap().id == all@[k].id),
        decreases n - i,
    {
        let area = all[i].clone();
        let here = match &sensor.area {
            Some(a) => a.id == area.id,
            None => false,
        };
        v.push((area, here));
        i += 1;
    }
    v
}

/// No areas to choose from.
pub fn areas_empty() -> (v: Vec<(AreaEntity, bool)>)
    ensures
        v@.len() == 0,
{
    Vec::new()
}

/// The style in which a sensor is shown: subdued if it offers no feature.
pub fn sensor_style(sensor: &SensorEntity) -> (style: &'static str)
    ensures
        style == (if sensor.features@ == 0 {
            STYLE_INERT
        } else {
            STYLE_ACTIVE
        }),
{
    if sensor.features.is_empty() {
        return STYLE_INERT;
    }
    STYLE_ACTIVE
}

/// The page from which a sensor is acted on.
#[derive(Debug, Clone, Copy, PartialEq, Eq, Structural)]
pub enum SensorActions {
    Overview,
    Scanner,
}

/// `s` ends with `suffix`.
pub open spec fn ends_with(s: Seq<u8>, suffix: Seq<u8>) -> bool {
    s.len() >= suffix.len() && s.subrange(s.len() - suffix.len(), s.len() as int) == suffix
}

impl SensorActions {
    /// The page that a request came from, by the address that the browser
    /// reports: the scanner if the address ends with `scanner`, the
    /// overview otherwise and where no address is reported.
    pub fn from_current_url(url: Option<&str>) -> (a: SensorActions)
        ensures
            a == (match url {
                Some(u) => if ends_with(u.spec_bytes(), "scanner".spec_bytes()) {
                    SensorActions::Scanner
                } else {
                    SensorActions::Overview
                },
                None => SensorActions::Overview,
            }),
    {
        match url {
            None => SensorActions::Overview,
            Some(u) => {
                let s = u.as_bytes();
                let suffix = "scanner".as_bytes();
                if s.len() < suffix.len() {
                    return SensorActions::Overview;
                }
                let tail = &s[s.len() - suffix.len()..s.len()];
                if crate::text::bytes_eq(tail, suffix) {
                    SensorActions::Scanner
                } else {
                    SensorActions::Overview
                }
            },
        }
    }
}

/// The kind of an alert.
#[derive(Debug, Clone, Copy, PartialEq, Eq, Structural)]
pub enum AlertType {
    Success,
    Info,
    Warning,
    Error,
}

impl Default for AlertType {
    fn default() -> (a: AlertType)
        ensures
            a == AlertType::Info,
    {
        AlertType::Info
    }
}

impl AlertType {
    /// The kind of alert that a status code calls for: success for
    /// `200..=299`, a warning for `400..=499`, an error for the rest.
    pub fn from_status(status: u16) -> (a: AlertType)
        ensures
            a == (if 200 <= status <= 299 {
                AlertType::Success
            } else if 400 <= status <= 499 {
                AlertType::Warning
            } else {
                AlertType::Error
            }),
    {
        if 200 <= status && status <= 299 {
            AlertType::Success
        } else if 400 <= status && status <= 499 {
            AlertType::Warning
        } else {
            AlertType::Error
        }
    }

    /// The style class of the alert.
    pub fn css_class(&self) -> (c: &'static str)
        ensures
            c == (match self {
                AlertType::Success => "alert-success",
                AlertType::Info => "alert-info",
                AlertType::Warning => "alert-warning",
                AlertType::Error => "alert-error",
            }),
    {
        match self {
            AlertType::Success => "alert-success",
            AlertType::Info => "alert-info",
            AlertType::Warning => "alert-warning",
            AlertType::Error => "alert-error",
        }
    }
}

/// What a visitor enters to log in.
#[derive(Debug)]
pub struct Credentials {
    pub username: String,
    pub password: String,
}

/// What is entered to create a user or to change a password.
#[derive(Debug)]
pub struct UserForm {
    name: String,
    password: String,
    confirm: String,
}

/// Why a user form is refused.
pub const NAME_EMPTY: &'static str = "Name cannot be empty";

/// Why a user form is refused.
pub const PASSWORD_EMPTY: &'static str = "Password cannot be empty";

/// Why a user form is refused.
pub const PASSWORDS_DIFFER: &'static str = "Passwords do not match";

impl UserForm {
    /// The name that was entered.
    pub closed spec fn name(self) -> Seq<char> {
        self.name@
    }

    /// The password that was entered.
    pub closed spec fn password(self) -> Seq<char> {
        self.password@
    }

    /// The password as it was entered again.
    pub closed spec fn confirm(self) -> Seq<char> {
        self.confirm@
    }

    /// Why the form is refused, if it is: the first of these that holds. The
    /// name is empty; the password or its repetition is empty; the two
    /// differ.
    pub open spec fn fault(self) -> Option<Seq<char>> {
        if self.name().len() == 0 {
            Some(NAME_EMPTY@)
        } else if self.password().len() == 0 || self.confirm().len() == 0 {
            Some(PASSWORD_EMPTY@)
        } else if self.password() != self.confirm() {
            Some(PASSWORDS_DIFFER@)
        } else {
            None
        }
    }

    /// A filled form.
    pub fn new(name: String, password: String, confirm: String) -> (f: UserForm)
        ensures
            f.name() == name@,
            f.password() == password@,
            f.confirm() == confirm@,
    {
        UserForm { name, password, confirm }
    }

    /// Checks the form.
    pub fn validate(&self) -> (r: Result<(), String>)
        ensures
            match r {
                Ok(_) => self.fault().is_none(),
                Err(message) => self.fault() == Some(message@),
            },
    {
        if self.name.as_str().is_empty() {
            return Err(String::from_str(NAME_EMPTY));
        }
        if self.password.as_str().is_empty() || self.confirm.as_str().is_empty() {
            return Err(String::from_str(PASSWORD_EMPTY));
        }
        if self.password != self.confirm {
            return Err(String::from_str(PASSWORDS_DIFFER));
        }
        Ok(())
    }

    /// The name that was entered.
    pub fn user_name(&self) -> (s: &str)
        ensures
            s@ == self.name(),
    {
        self.name.as_str()
    }

    /// The password that was entered.
    pub fn user_password(&self) -> (s: &str)
        ensures
            s@ == self.password(),
    {
        self.password.as_str()
    }
}

} // verus!
