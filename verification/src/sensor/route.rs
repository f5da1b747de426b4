//! The route dispatcher: from a parsed request, the state of the pairing
//! window and the stored record to a reply, the record to persist and the
//! keys that still await confirmation.

use vstd::prelude::*;
use vstd::string::StringSliceAdditionalSpecFns;
use vstd::utf8::valid_utf8;
use crate::common::MeasurementQuery;
use crate::common::SensorDto;
use crate::common::SensorDtoView;
use crate::common::SensorResponse;
use crate::common::SensorResponseView;
use crate::common::StoreUsage;
use crate::common::PAIR_HEADER_NAME;
use crate::sensor::headers::lookup;
use crate::sensor::keys::insert_effect;
use crate::sensor::keys::without;
use crate::sensor::keys::PairKey;
use crate::sensor::keys::KEY_LEN;
use crate::sensor::keys::PAIRED_CAPACITY;
use crate::sensor::keys::PENDING_CAPACITY;
use crate::sensor::keys::hex_lower;
use crate::sensor::request::Request;
use crate::sensor::request::RequestView;
use crate::sensor::status::StatusCode;
use crate::sensor::store::Store;
use crate::sensor::store::StoreView;
use crate::sensor::timeout::PairingWindow;
use crate::sensor::timeout::WindowState;

verus! {

/// Error message of a pairing request while the window is closed.
pub const PAIRING_CLOSED: &'static str =
    "To connect use /pair endpoint and pairing button on the device.";

/// Error message when too many issued keys await confirmation.
pub const TOO_MANY_PAIRINGS: &'static str = "Too many pairing requests";

/// Error message for a key that was not issued in the current window.
pub const KEY_NOT_FOUND: &'static str = "Pairing key not found";

/// Error message when the store of confirmed keys is full.
pub const STORE_FULL: &'static str = "Paired devices storage full";

/// Error message for a request that no route matches.
pub const NOT_FOUND: &'static str = "Not found";

/// The body of a reply, before it is serialized.
pub enum Payload {
    /// No body.
    Empty,
    /// `{error}` with this message.
    Error(&'static str),
    /// `{id}` with this key.
    Pair(PairKey),
    /// The device's identity and status.
    Sensor(SensorResponse),
    /// `{measurements}`: the caller is entitled to the recent readings
    /// within these limits, which the main loop takes from the sensor
    /// hardware.
    Measurements(MeasurementQuery),
}

/// Mathematical value of a [`Payload`].
pub enum PayloadView {
    Empty,
    Error(Seq<char>),
    Pair(Seq<u8>),
    Sensor(SensorResponseView),
    Measurements(MeasurementQuery),
}

impl View for Payload {
    type V = PayloadView;

    open spec fn view(&self) -> PayloadView {
        match self {
            Payload::Empty => PayloadView::Empty,
            Payload::Error(m) => PayloadView::Error(m@),
            Payload::Pair(k) => PayloadView::Pair(k@),
            Payload::Sensor(s) => PayloadView::Sensor(s@),
            Payload::Measurements(q) => PayloadView::Measurements(*q),
        }
    }
}

/// A reply: status code and body.
pub struct Reply {
    pub code: StatusCode,
    pub payload: Payload,
}

/// What handling one request results in: the reply, and the record to
/// write to flash if the request changed it.
pub struct Outcome {
    pub reply: Reply,
    pub write: Option<Store>,
}

/// Mathematical value of handling one request: the reply, the record to
/// write, and the keys that await confirmation afterwards.
pub struct OutcomeView {
    pub code: StatusCode,
    pub payload: PayloadView,
    pub write: Option<StoreView>,
    pub issued: Seq<Seq<u8>>,
}

impl Outcome {
    /// The value of this outcome, with the issued keys as they are after
    /// the request.
    pub open spec fn view_with(self, issued: Seq<Seq<u8>>) -> OutcomeView {
        OutcomeView {
            code: self.reply.code,
            payload: self.reply.payload@,
            write: match self.write {
                Some(s) => Some(s@),
                None => None,
            },
            issued,
        }
    }
}

/// Everything that the handling of a request depends on.
pub struct Situation {
    /// The parsed request.
    pub request: RequestView,
    /// Whether the pairing window is open.
    pub open: bool,
    /// Whether the window's deadline has not passed at the time of the
    /// request; reported by `GET /sensor`.
    pub pairing: bool,
    /// The keys issued in the current window that await confirmation.
    pub issued: Seq<Seq<u8>>,
    /// The stored record with its usage, unless reading it failed.
    pub stored: Option<(StoreView, StoreUsage)>,
    /// The update in the request's body, unless the body is no such update.
    pub update: Option<SensorDtoView>,
    /// The limits in the request's body; none where the body names none.
    pub query: MeasurementQuery,
    /// The key to issue if the request asks for one.
    pub fresh: Seq<u8>,
}

/// The request has this method and this route.
pub open spec fn is_route(r: RequestView, method: &str, route: &str) -> bool {
    r.method == method.spec_bytes() && r.route == route.spec_bytes()
}

/// The key that the request presents in its pairing header.
pub open spec fn presented(r: RequestView) -> Option<Seq<u8>> {
    lookup(r.headers, PAIR_HEADER_NAME.spec_bytes())
}

/// The request presents a key that the stored record holds as confirmed.
pub open spec fn authorized(s: Situation) -> bool {
    match (presented(s.request), s.stored) {
        (Some(id), Some((store, _))) => store.paired_keys.contains(id),
        _ => false,
    }
}

/// A reply that changes nothing.
pub open spec fn answer(s: Situation, code: StatusCode, payload: PayloadView) -> OutcomeView {
    OutcomeView { code, payload, write: None, issued: s.issued }
}

/// `POST /pair` in an open window: the fresh key is issued and returned,
/// unless too many keys already await confirmation.
pub open spec fn issue(s: Situation) -> OutcomeView {
    if s.issued.len() < PENDING_CAPACITY {
        OutcomeView {
            code: StatusCode::OK,
            payload: PayloadView::Pair(s.fresh),
            write: None,
            issued: s.issued.push(s.fresh),
        }
    } else {
        answer(s, StatusCode::TOO_MANY_REQUESTS, PayloadView::Error(TOO_MANY_PAIRINGS@))
    }
}

/// `POST /pair/confirm` in an open window: the presented key moves from
/// the issued keys to the confirmed ones. A request without a well-formed
/// key is bad; a key that was not issued in this window is not found; a
/// record that cannot be read is a server error; a full store refuses the
/// key and stays as it is.
pub open spec fn confirm(s: Situation) -> OutcomeView {
    match presented(s.request) {
        None => answer(s, StatusCode::BAD_REQUEST, PayloadView::Empty),
        Some(id) => if !(id.len() <= KEY_LEN && valid_utf8(id)) {
            answer(s, StatusCode::BAD_REQUEST, PayloadView::Empty)
        } else if !s.issued.contains(id) {
            answer(s, StatusCode::NOT_FOUND, PayloadView::Error(KEY_NOT_FOUND@))
        } else {
            match s.stored {
                None => answer(s, StatusCode::INTERNAL_SERVER_ERROR, PayloadView::Empty),
                Some((store, _)) => if !store.paired_keys.contains(id) && store.paired_keys.len()
                    >= PAIRED_CAPACITY {
                    answer(s, StatusCode::INSUFFICIENT_STORAGE, PayloadView::Error(STORE_FULL@))
                } else {
                    OutcomeView {
                        code: StatusCode::OK,
                        payload: PayloadView::Empty,
                        write: Some(
                            StoreView {
                                sensor: store.sensor,
                                paired_keys: insert_effect(store.paired_keys, id),
                            },
                        ),
                        issued: without(s.issued, id),
                    }
                },
            }
        },
    }
}

/// `GET /sensor`: identity, pairing status and usage; open to everyone.
pub open spec fn describe(s: Situation) -> OutcomeView {
    match s.stored {
        None => answer(s, StatusCode::INTERNAL_SERVER_ERROR, PayloadView::Empty),
        Some((store, usage)) => answer(
            s,
            StatusCode::OK,
            PayloadView::Sensor(
                SensorResponseView {
                    name: store.sensor.name,
                    location: store.sensor.location,
                    features: store.sensor.features,
                    pairing: s.pairing,
                    paired_keys: store.paired_keys.len() as u32,
                    usage,
                },
            ),
        ),
    }
}

/// `POST /sensor`: merges the update into the stored identity; for callers
/// with a confirmed key only.
pub open spec fn configure(s: Situation) -> OutcomeView {
    if !authorized(s) {
        answer(s, StatusCode::FORBIDDEN, PayloadView::Empty)
    } else {
        match (s.stored, s.update) {
            (None, _) => answer(s, StatusCode::INTERNAL_SERVER_ERROR, PayloadView::Empty),
            (Some(_), None) => answer(s, StatusCode::BAD_REQUEST, PayloadView::Empty),
            (Some((store, _)), Some(update)) => OutcomeView {
                code: StatusCode::OK,
                payload: PayloadView::Empty,
                write: Some(
                    StoreView {
                        sensor: update.merge(store.sensor),
                        paired_keys: store.paired_keys,
                    },
                ),
                issued: s.issued,
            },
        }
    }
}

/// `GET /dht` or `GET /temp`: the recent measurements within the limits
/// that the request names; for callers with a confirmed key only.
pub open spec fn measure(s: Situation) -> OutcomeView {
    if !authorized(s) {
        answer(s, StatusCode::FORBIDDEN, PayloadView::Empty)
    } else {
        answer(s, StatusCode::OK, PayloadView::Measurements(s.query))
    }
}

/// The handling of a request. The two pairing routes come first and are
/// served only while the window is open; while it is closed they are
/// forbidden whatever the request holds. Every other route is matched by
/// method and path; what matches none is not found.
pub open spec fn respond(s: Situation) -> OutcomeView {
    let pair = is_route(s.request, "POST", "/pair");
    let pair_confirm = is_route(s.request, "POST", "/pair/confirm");
    if s.open && pair {
        issue(s)
    } else if s.open && pair_confirm {
        confirm(s)
    } else if pair || pair_confirm {
        answer(s, StatusCode::FORBIDDEN, PayloadView::Error(PAIRING_CLOSED@))
    } else if is_route(s.request, "GET", "/sensor") {
        describe(s)
    } else if is_route(s.request, "POST", "/sensor") {
        configure(s)
    } else if is_route(s.request, "GET", "/dht") || is_route(s.request, "GET", "/temp") {
        measure(s)
    } else {
        answer(s, StatusCode::NOT_FOUND, PayloadView::Error(NOT_FOUND@))
    }
}

/// The situation in which `dispatch` handles a request.
pub open spec fn situation(
    request: RequestView,
    window: PairingWindow,
    now_ms: u64,
    stored: Option<(Store, StoreUsage)>,
    update: Option<SensorDto>,
    query: MeasurementQuery,
    random: Seq<u8>,
) -> Situation {
    Situation {
        request,
        open: window.state() != WindowState::Closed,
        pairing: window.open_at(now_ms),
        issued: window.issued(),
        stored: match stored {
            Some((store, usage)) => Some((store@, usage)),
            None => None,
        },
        update: match update {
            Some(u) => Some(u@),
            None => None,
        },
        query,
        fresh: hex_lower(random),
    }
}

fn plain(code: StatusCode) -> (o: Outcome)
    ensures
        o.reply.code == code,
        o.reply.payload@ == PayloadView::Empty,
        o.write.is_none(),
{
    Outcome { reply: Reply { code, payload: Payload::Empty }, write: None }
}

fn failure(code: StatusCode, message: &'static str) -> (o: Outcome)
    ensures
        o.reply.code == code,
        o.reply.payload@ == PayloadView::Error(message@),
        o.write.is_none(),
{
    Outcome { reply: Reply { code, payload: Payload::Error(message) }, write: None }
}

/// Whether the request presents a key that the record holds as confirmed.
fn is_authorized(request: &Request<'_>, stored: &Option<(Store, StoreUsage)>) -> (b: bool)
    ensures
        b == (match (presented(request@), stored) {
            (Some(id), Some((store, _))) => store@.paired_keys.contains(id),
            _ => false,
        }),
{
    match request.headers.get(PAIR_HEADER_NAME.as_bytes()) {
        None => false,
        Some(id) => match stored {
            None => false,
            Some((store, _)) => store.paired_keys.find(id).is_some(),
        },
    }
}

/// Handles `POST /pair/confirm` in an open window.
fn handle_confirm(
    request: &Request<'_>,
    window: &mut PairingWindow,
    stored: Option<(Store, StoreUsage)>,
) -> (out: Outcome)
    requires
        old(window).wf(),
    ensures
        final(window).wf(),
        final(window).state() == old(window).state(),
        forall|s: Situation|
            s.request == request@ && s.issued == old(window).issued() && s.stored == (match stored {
                Some((store, usage)) => Some((store@, usage)),
                None => None,
            }) ==> out.view_with(final(window).issued()) == #[trigger] confirm(s),
{
    let id = match request.headers.get(PAIR_HEADER_NAME.as_bytes()) {
        None => {
            return plain(StatusCode::BAD_REQUEST);
        },
        Some(id) => id,
    };
    let key = match PairKey::from_bytes(id) {
        None => {
            return plain(StatusCode::BAD_REQUEST);
        },
        Some(key) => key,
    };
    if !window.holds(&key) {
        return failure(StatusCode::NOT_FOUND, KEY_NOT_FOUND);
    }
    let (store, _) = match stored {
        None => {
            return plain(StatusCode::INTERNAL_SERVER_ERROR);
        },
        Some(pair) => pair,
    };
    let mut store = store;
    match store.paired_keys.insert(&key) {
        Err(_) => failure(StatusCode::INSUFFICIENT_STORAGE, STORE_FULL),
        Ok(_) => {
            window.consume(&key);
            Outcome {
                reply: Reply { code: StatusCode::OK, payload: Payload::Empty },
                write: Some(store),
            }
        },
    }
}

/// Handles one request. The caller has run the window's periodic check,
/// read the stored record with its usage (`None` if that failed), tried to
/// read the body as an update (`None` if it is none) and as the limits of
/// a measurement query, and drawn sixteen random bytes for a key that may
/// be issued. The reply, the record to write and the issued keys
/// afterwards are those of [`respond`].
pub fn dispatch(
    request: &Request<'_>,
    window: &mut PairingWindow,
    now_ms: u64,
    stored: Option<(Store, StoreUsage)>,
    update: Option<SensorDto>,
    query: MeasurementQuery,
    random: &[u8; 16],
) -> (out: Outcome)
    requires
        old(window).wf(),
    ensures
        final(window).wf(),
        final(window).state() == old(window).state(),
        out.view_with(final(window).issued()) == respond(
            situation(request@, *old(window), now_ms, stored, update, query, random@),
        ),
{
    let ghost s = situation(request@, *old(window), now_ms, stored, update, query, random@);
    let open = window.is_open();
    let pair = request.is("POST", "/pair");
    let pair_confirm = request.is("POST", "/pair/confirm");
    if open && pair {
        let key = PairKey::from_random(random);
        if window.issue(&key) {
            Outcome {
                reply: Reply { code: StatusCode::OK, payload: Payload::Pair(key) },
                write: None,
            }
        } else {
            failure(StatusCode::TOO_MANY_REQUESTS, TOO_MANY_PAIRINGS)
        }
    } else if open && pair_confirm {
        let out = handle_confirm(request, window, stored);
        assert(out.view_with(window.issued()) == confirm(s));
        out
    } else if pair || pair_confirm {
        failure(StatusCode::FORBIDDEN, PAIRING_CLOSED)
    } else if request.is("GET", "/sensor") {
        match stored {
            None => plain(StatusCode::INTERNAL_SERVER_ERROR),
            Some((store, usage)) => {
                let paired = store.paired_keys.len() as u32;
                let pairing = window.is_open_at(now_ms);
                Outcome {
                    reply: Reply {
                        code: StatusCode::OK,
                        payload: Payload::Sensor(
                            SensorResponse {
                                name: store.sensor.name,
                                location: store.sensor.location,
                                features: store.sensor.features,
                                pairing,
                                paired_keys: paired,
                                usage,
                            },
                        ),
                    },
                    write: None,
                }
            },
        }
    } else if request.is("POST", "/sensor") {
        if !is_authorized(request, &stored) {
            return plain(StatusCode::FORBIDDEN);
        }
        match stored {
            None => plain(StatusCode::INTERNAL_SERVER_ERROR),
            Some((store, _)) => match update {
                None => plain(StatusCode::BAD_REQUEST),
                Some(update) => {
                    let merged = update.merge(store.sensor);
                    Outcome {
                        reply: Reply { code: StatusCode::OK, payload: Payload::Empty },
                        write: Some(Store { sensor: merged, paired_keys: store.paired_keys }),
                    }
                },
            },
        }
    } else if request.is("GET", "/dht") || request.is("GET", "/temp") {
        if !is_authorized(request, &stored) {
            plain(StatusCode::FORBIDDEN)
        } else {
            Outcome {
                reply: Reply { code: StatusCode::OK, payload: Payload::Measurements(query) },
                write: None,
            }
        }
    } else {
        failure(StatusCode::NOT_FOUND, NOT_FOUND)
    }
}

/// No two routes of the device share their path.
pub proof fn lemma_paths_differ()
    ensures
        "/pair".spec_bytes() != "/pair/confirm".spec_bytes(),
        "/pair".spec_bytes() != "/sensor".spec_bytes(),
        "/pair/confirm".spec_bytes() != "/sensor".spec_bytes(),
        "/pair".spec_bytes() != "/dht".spec_bytes(),
        "/pair/confirm".spec_bytes() != "/dht".spec_bytes(),
        "/pair".spec_bytes() != "/temp".spec_bytes(),
        "/pair/confirm".spec_bytes() != "/temp".spec_bytes(),
        "/sensor".spec_bytes() != "/dht".spec_bytes(),
        "/sensor".spec_bytes() != "/temp".spec_bytes(),
{
    broadcast use vstd::string::is_ascii_spec_bytes;

    reveal_strlit("/pair");
    reveal_strlit("/pair/confirm");
    reveal_strlit("/sensor");
    reveal_strlit("/dht");
    reveal_strlit("/temp");
    assert(vstd::string::is_ascii("/pair"));
    assert(vstd::string::is_ascii("/pair/confirm"));
    assert(vstd::string::is_ascii("/sensor"));
    assert(vstd::string::is_ascii("/dht"));
    assert(vstd::string::is_ascii("/temp"));
    assert("/pair".spec_bytes().len() == 5);
    assert("/pair/confirm".spec_bytes().len() == 13);
    assert("/sensor".spec_bytes().len() == 7);
    assert("/dht".spec_bytes().len() == 4);
    assert("/temp".spec_bytes().len() == 5);
    assert("/temp".spec_bytes()[1] == 116u8);
    assert("/pair".spec_bytes()[1] == 112u8);
}

/// While the window is closed, `POST /pair` and `POST /pair/confirm` are
/// forbidden, with the same advisory message, whatever headers and body the
/// request carries; nothing is issued and nothing is written.
pub proof fn lemma_closed_window_forbids_pairing(s: Situation)
    requires
        !s.open,
        is_route(s.request, "POST", "/pair") || is_route(s.request, "POST", "/pair/confirm"),
    ensures
        respond(s) == answer(s, StatusCode::FORBIDDEN, PayloadView::Error(PAIRING_CLOSED@)),
        respond(s).code.code() == 403,
{
}

/// Confirming a key that was not issued in the current window is answered
/// with 404, and changes neither the issued keys nor the record.
pub proof fn lemma_unissued_key_is_not_found(s: Situation, id: Seq<u8>)
    requires
        s.open,
        is_route(s.request, "POST", "/pair/confirm"),
        presented(s.request) == Some(id),
        id.len() <= KEY_LEN,
        valid_utf8(id),
        !s.issued.contains(id),
    ensures
        respond(s) == answer(s, StatusCode::NOT_FOUND, PayloadView::Error(KEY_NOT_FOUND@)),
        respond(s).code.code() == 404,
{
    lemma_paths_differ();
}

/// Confirming the same key twice succeeds once: the first confirmation
/// takes the key out of the issued ones, so a second one, whatever the
/// record then holds, is answered with 404.
pub proof fn lemma_key_confirms_once(first: Situation, second: Situation, id: Seq<u8>)
    requires
        first.open,
        second.open,
        is_route(first.request, "POST", "/pair/confirm"),
        is_route(second.request, "POST", "/pair/confirm"),
        presented(first.request) == Some(id),
        presented(second.request) == Some(id),
        id.len() <= KEY_LEN,
        valid_utf8(id),
        first.issued.contains(id),
        first.stored.is_some(),
        first.stored.unwrap().0.paired_keys.len() < PAIRED_CAPACITY,
        second.issued == respond(first).issued,
    ensures
        respond(first).code.code() == 200,
        respond(first).write.is_some(),
        respond(first).write.unwrap().paired_keys.contains(id),
        !respond(first).issued.contains(id),
        respond(second).code.code() == 404,
{
    lemma_paths_differ();
    let keys = first.stored.unwrap().0.paired_keys;
    let after = insert_effect(keys, id);
    if keys.contains(id) {
    } else {
        assert(after[keys.len() as int] == id);
    }
    let pred = |t: Seq<u8>| t != id;
    if first.issued.filter(pred).contains(id) {
        let i = choose|i: int| 0 <= i < first.issued.filter(pred).len() && first.issued.filter(pred)[i] == id;
        first.issued.lemma_filter_pred(pred, i);
    }
}

/// Confirming a new key while the store of confirmed keys is at capacity is
/// answered with 507; the record is not written and the key stays issued.
pub proof fn lemma_full_store_refuses_key(s: Situation, id: Seq<u8>)
    requires
        s.open,
        is_route(s.request, "POST", "/pair/confirm"),
        presented(s.request) == Some(id),
        id.len() <= KEY_LEN,
        valid_utf8(id),
        s.issued.contains(id),
        s.stored.is_some(),
        s.stored.unwrap().0.paired_keys.len() >= PAIRED_CAPACITY,
        !s.stored.unwrap().0.paired_keys.contains(id),
    ensures
        respond(s) == answer(s, StatusCode::INSUFFICIENT_STORAGE, PayloadView::Error(STORE_FULL@)),
        respond(s).code.code() == 507,
        respond(s).write.is_none(),
        respond(s).issued == s.issued,
{
    lemma_paths_differ();
}

/// The protected routes, `POST /sensor` and `GET /dht` or `/temp`, answer
/// with success only to a caller that presents a confirmed key.
pub proof fn lemma_protected_routes_need_key(s: Situation)
    requires
        is_route(s.request, "POST", "/sensor") || is_route(s.request, "GET", "/dht") || is_route(
            s.request,
            "GET",
            "/temp",
        ),
        200 <= respond(s).code.code() <= 299,
    ensures
        authorized(s),
{
    lemma_paths_differ();
    lemma_verbs_differ();
}

/// The two verbs of the protocol differ.
pub proof fn lemma_verbs_differ()
    ensures
        "GET".spec_bytes() != "POST".spec_bytes(),
{
    broadcast use vstd::string::is_ascii_spec_bytes;

    reveal_strlit("GET");
    reveal_strlit("POST");
    assert(vstd::string::is_ascii("GET"));
    assert(vstd::string::is_ascii("POST"));
    assert("GET".spec_bytes().len() == 3);
    assert("POST".spec_bytes().len() == 4);
}

} // verus!
