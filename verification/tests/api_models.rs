use home_core::api::auth::{session_cookie, Claims, Password, SessionCheck, Token};
use home_core::api::db::{AreaEntity, DataScheduleEntry, SensorEntity, UserEntity, UserSession};
use home_core::api::features::{SensorFeatures, MOTION, TEMPERATURE};
use home_core::api::models::{Area, NormalizedString, User};
use home_core::api::json::{SensorDto, SensorFormData};
use home_core::api::queries::{area_id_text, delete_sessions_query, temp_data_query};
use home_core::api::pairing::{
    endpoint, Pairing, PairingAction, PairingError, PairingEvent, Reply, SETTLE_MS,
};
use home_core::common::{SensorResponse, StoreUsage};
use home_core::api::website::{
    areas, areas_empty, delete_query, entry_from_query, is_last_page, page_offset, sensor_style,
    AlertType, QueryError, SensorActions, UserForm,
};

fn sensor(name: &str, bits: u32, area: Option<i64>) -> SensorEntity {
    SensorEntity {
        name: name.to_string(),
        area: area.map(|id| AreaEntity { id, name: format!("area {}", id) }),
        features: SensorFeatures::from_bits_retain(bits),
        host: format!("{}.local", name),
        pair_id: None,
    }
}

#[test]
fn normalized_string_is_lower_case() {
    assert_eq!(NormalizedString::new("AdMin").as_str(), "admin");
    assert_eq!(NormalizedString::new("ÄÖü").as_str(), "äöü");
    assert_eq!(NormalizedString::new("").as_str(), "");
    let n = NormalizedString::new("ABC");
    assert_eq!(n.clone().as_str(), "abc");
}

#[test]
fn features_members_and_bits() {
    assert_eq!(TEMPERATURE, 1);
    assert_eq!(MOTION, 2);
    assert!(SensorFeatures::empty().is_empty());
    assert!(SensorFeatures::empty().iter().is_empty());
    let f = SensorFeatures::temperature().union(SensorFeatures::motion());
    assert_eq!(f.bits(), 3);
    assert!(f.contains(SensorFeatures::temperature()));
    assert!(!SensorFeatures::motion().contains(f));
    assert_eq!(f.iter(), vec![SensorFeatures::temperature(), SensorFeatures::motion()]);
    let unknown = SensorFeatures::from_bits_retain(0b1101_0010);
    assert_eq!(
        unknown.iter(),
        vec![SensorFeatures::motion(), SensorFeatures::from_bits_retain(0b1101_0000)]
    );
    assert_eq!(unknown.bits(), 0b1101_0010);
    let mut g = SensorFeatures::empty();
    g.insert(SensorFeatures::motion());
    assert_eq!(g, SensorFeatures::motion());
}

#[test]
fn area_features_are_sorted_by_bits() {
    let area = Area {
        id: 1,
        name: "hall".into(),
        sensors: vec![sensor("a", 0b1010, None), sensor("b", 0b0011, None), sensor("c", 0, None), sensor("d", 1, None)],
    };
    let bits: Vec<u32> = area.features().iter().map(|f| f.bits()).collect();
    assert_eq!(bits, vec![1, 1, 2, 2, 8]);
    let empty = Area { id: 2, name: "none".into(), sensors: vec![] };
    assert!(empty.features().is_empty());
}

#[test]
fn areas_mark_the_area_of_the_sensor() {
    let all = vec![
        AreaEntity { id: 1, name: "one".into() },
        AreaEntity { id: 2, name: "two".into() },
        AreaEntity { id: 3, name: "three".into() },
    ];
    let marked = areas(&all, &sensor("s", 1, Some(2)));
    let flags: Vec<(i64, &str, bool)> =
        marked.iter().map(|(a, here)| (a.id, a.name.as_str(), *here)).collect();
    assert_eq!(flags, vec![(1, "one", false), (2, "two", true), (3, "three", false)]);
    let marked = areas(&all, &sensor("s", 1, None));
    assert!(marked.iter().all(|(_, here)| !here));
    assert!(areas_empty().is_empty());
}

#[test]
fn sensor_style_depends_on_features() {
    assert_eq!(
        sensor_style(&sensor("s", 0, None)),
        "bg-neutral border-neutral-content text-neutral-content opacity-70"
    );
    assert_eq!(sensor_style(&sensor("s", 2, None)), "bg-base-300 border-base-content text-base-content");
}

#[test]
fn delete_query_names_the_entry() {
    let e = DataScheduleEntry { features: SensorFeatures::from_bits_retain(3), interval_ms: 60_000 };
    assert_eq!(delete_query(&e), "features=3&interval_ms=60000");
    let e = DataScheduleEntry { features: SensorFeatures::from_bits_retain(u32::MAX), interval_ms: u64::MAX };
    assert_eq!(delete_query(&e), "features=4294967295&interval_ms=18446744073709551615");
    let e = DataScheduleEntry { features: SensorFeatures::empty(), interval_ms: 0 };
    assert_eq!(delete_query(&e), "features=0&interval_ms=0");
}

#[test]
fn user_form_validation() {
    let f = |n: &str, p: &str, c: &str| UserForm::new(n.into(), p.into(), c.into()).validate();
    assert_eq!(f("", "a", "a"), Err("Name cannot be empty".to_string()));
    assert_eq!(f("", "", ""), Err("Name cannot be empty".to_string()));
    assert_eq!(f("n", "", "a"), Err("Password cannot be empty".to_string()));
    assert_eq!(f("n", "a", ""), Err("Password cannot be empty".to_string()));
    assert_eq!(f("n", "a", "b"), Err("Passwords do not match".to_string()));
    assert_eq!(f("n", "a", "a"), Ok(()));
    let form = UserForm::new("n".into(), "p".into(), "p".into());
    assert_eq!(form.user_name(), "n");
    assert_eq!(form.user_password(), "p");
}

#[test]
fn alert_type_by_status() {
    assert_eq!(AlertType::from_status(200), AlertType::Success);
    assert_eq!(AlertType::from_status(299), AlertType::Success);
    assert_eq!(AlertType::from_status(300), AlertType::Error);
    assert_eq!(AlertType::from_status(404), AlertType::Warning);
    assert_eq!(AlertType::from_status(500), AlertType::Error);
    assert_eq!(AlertType::default(), AlertType::Info);
    assert_eq!(AlertType::Success.css_class(), "alert-success");
    assert_eq!(AlertType::Info.css_class(), "alert-info");
    assert_eq!(AlertType::Warning.css_class(), "alert-warning");
    assert_eq!(AlertType::Error.css_class(), "alert-error");
}

#[test]
fn sensor_actions_by_current_url() {
    assert_eq!(SensorActions::from_current_url(Some("https://host/scanner")), SensorActions::Scanner);
    assert_eq!(SensorActions::from_current_url(Some("scanner")), SensorActions::Scanner);
    assert_eq!(SensorActions::from_current_url(Some("https://host/sensors")), SensorActions::Overview);
    assert_eq!(SensorActions::from_current_url(Some("scan")), SensorActions::Overview);
    assert_eq!(SensorActions::from_current_url(None), SensorActions::Overview);
}

#[test]
fn password_hash_and_verify() {
    let p = Password::with_salt("secret", &[0u8; 16]);
    // sha256("secret" + "00000000000000000000000000000000") in lower-case hex, then the salt
    let text = p.to_string();
    let (hash, salt) = text.split_once(':').unwrap();
    assert_eq!(salt, "00000000000000000000000000000000");
    assert_eq!(hash, "d36b0c0b1c947f8aa680724629be0d7f162f5ae9b6ce9f299884ee8dfb167e70");
    assert_eq!(hash.len(), 64);
    assert!(hash.chars().all(|c| c.is_ascii_hexdigit() && !c.is_ascii_uppercase()));
    assert!(p.verify("secret"));
    assert!(!p.verify("Secret"));
    assert!(!p.verify(""));

    let q = Password::from_str(&text).unwrap();
    assert!(q.verify("secret"));
    assert_eq!(q.to_string(), text);
    assert!(Password::from_str("no colon").is_none());

    let other = Password::with_salt("secret", &[1u8; 16]);
    assert_ne!(other.to_string(), text);

    let fresh = Password::new("pw");
    assert!(fresh.verify("pw"));
    assert!(!fresh.verify("pw2"));
    assert_eq!(fresh.to_string().len(), 64 + 1 + 32);
}

#[test]
fn password_hash_known_value() {
    // sha256 of the empty password with the salt "000102030405060708090a0b0c0d0e0f"
    let salt: [u8; 16] = [0, 1, 2, 3, 4, 5, 6, 7, 8, 9, 10, 11, 12, 13, 14, 15];
    let p = Password::with_salt("", &salt);
    let text = p.to_string();
    assert_eq!(
        text,
        "d65df89f702eec58ca3c7bf2001c9ffc7cd80553ae01d42a799ba26756142d96:000102030405060708090a0b0c0d0e0f"
    );
    let again = Password::with_salt("", &salt);
    assert_eq!(again.to_string(), text);
}

#[test]
fn claims_and_tokens() {
    let c = Claims::for_user("ann".into(), 7, 1_000);
    assert_eq!(c.exp, 4_600);
    assert!(c.validate(4_599));
    assert!(!c.validate(4_600));
    let u: User = c.clone().into_user();
    assert_eq!((u.id, u.name.as_str()), (7, "ann"));
    let t = Token::from_str("abc.def.ghi");
    assert_eq!(t.as_str(), "abc.def.ghi");
    assert_eq!(t.clone().as_str(), "abc.def.ghi");
    let e = UserEntity {
        id: 3,
        name: "Bob".into(),
        normalized_name: NormalizedString::new("Bob"),
        password: Password::with_salt("x", &[0; 16]),
    };
    let s = UserSession { normalized_name: e.normalized_name.clone(), token: t };
    assert_eq!(s.clone().normalized_name.as_str(), "bob");
    let u = e.clone().into_user();
    assert_eq!((u.id, u.name.as_str()), (3, "Bob"));
}

fn ok_run() -> (Pairing, Vec<String>) {
    let mut log = Vec::new();
    let (p, a) = Pairing::new().advance(PairingEvent::Begin);
    assert!(matches!(a, PairingAction::RequestKey));
    let (p, a) = p.advance(PairingEvent::Key(Reply::Success("k1".into())));
    match a {
        PairingAction::Settle(ms) => assert_eq!(ms, SETTLE_MS),
        _ => panic!("a pause is expected"),
    }
    let (p, a) = p.advance(PairingEvent::Settled);
    match a {
        PairingAction::ConfirmKey(id) => log.push(id),
        _ => panic!("the confirmation is expected"),
    }
    (p, log)
}

#[test]
fn pairing_handshake_succeeds_in_three_requests() {
    let (p, log) = ok_run();
    assert_eq!(log, vec!["k1".to_string()]);
    let (p, a) = p.advance(PairingEvent::Confirm(Reply::Success(200)));
    assert!(matches!(a, PairingAction::Settle(200)));
    let (p, a) = p.advance(PairingEvent::Settled);
    assert!(matches!(a, PairingAction::ReadIdentity));
    assert!(!p.is_closed());
    let (p, a) = p.advance(PairingEvent::Identity(Reply::Success(sensor("s", 1, None))));
    assert!(p.is_closed());
    match a {
        PairingAction::Paired(s) => {
            assert_eq!(s.pair_id.as_deref(), Some("k1"));
            assert_eq!(s.name, "s");
            assert_eq!(s.host, "s.local");
        }
        _ => panic!("a paired sensor is expected"),
    }
}

#[test]
fn pairing_handshake_aborts_on_any_failure() {
    let (p, _) = Pairing::new().advance(PairingEvent::Begin);
    let (p, a) = p.advance(PairingEvent::Key(Reply::Error("closed".into())));
    assert!(p.is_closed());
    match a {
        PairingAction::Abort(PairingError::Refused(m)) => assert_eq!(m, "closed"),
        _ => panic!("an abort is expected"),
    }

    let (p, _) = Pairing::new().advance(PairingEvent::Begin);
    let (_, a) = p.advance(PairingEvent::Key(Reply::Unreachable("timeout".into())));
    match a {
        PairingAction::Abort(PairingError::Transport(m)) => assert_eq!(m, "timeout"),
        _ => panic!("an abort is expected"),
    }

    let (p, _) = ok_run();
    let (p, a) = p.advance(PairingEvent::Confirm(Reply::Success(404)));
    assert!(p.is_closed());
    assert!(matches!(a, PairingAction::Abort(PairingError::Unsuccessful)));

    let (p, _) = ok_run();
    let (_, a) = p.advance(PairingEvent::Confirm(Reply::Error("Pairing key not found".into())));
    match a {
        PairingAction::Abort(PairingError::Refused(m)) => assert_eq!(m, "Pairing key not found"),
        _ => panic!("an abort is expected"),
    }

    let (p, _) = ok_run();
    let (p, _) = p.advance(PairingEvent::Confirm(Reply::Success(200)));
    let (p, _) = p.advance(PairingEvent::Settled);
    let (p, a) = p.advance(PairingEvent::Identity(Reply::Unreachable("refused".into())));
    assert!(p.is_closed());
    assert!(matches!(a, PairingAction::Abort(PairingError::Transport(_))));

    // events out of order
    let (p, a) = Pairing::new().advance(PairingEvent::Settled);
    assert!(p.is_closed());
    assert!(matches!(a, PairingAction::Abort(PairingError::OutOfOrder)));
    let (_, a) = p.advance(PairingEvent::Begin);
    assert!(matches!(a, PairingAction::Abort(PairingError::OutOfOrder)));
}

#[test]
fn discovered_sensor_and_enrichment() {
    let resp = SensorResponse {
        name: "probe".into(),
        location: "attic".into(),
        features: 0x8000_0003,
        pairing: false,
        paired_keys: 0,
        usage: StoreUsage::default(),
    };
    let mut s = SensorEntity::discovered(resp, "10.0.0.7".into());
    assert_eq!(s.name, "probe");
    assert_eq!(s.features.bits(), 0x8000_0003);
    assert_eq!(s.host, "10.0.0.7");
    assert!(s.pair_id.is_none() && s.area.is_none());

    let mut known = sensor("stored", 1, Some(4));
    known.pair_id = Some("key".into());
    s.enrich(Some(&known));
    assert_eq!(s.pair_id.as_deref(), Some("key"));
    assert_eq!(s.area.as_ref().map(|a| a.id), Some(4));
    assert_eq!(s.name, "probe");
    s.enrich(None);
    assert!(s.pair_id.is_none() && s.area.is_none());

    assert_eq!(endpoint("10.0.0.7", "sensor"), "http://10.0.0.7:42069/sensor");
    assert_eq!(endpoint("h", "pair/confirm"), "http://h:42069/pair/confirm");
    assert_eq!(endpoint("h", ""), "http://h:42069/");
}

#[test]
fn pairing_error_messages() {
    assert_eq!(PairingError::Transport("timed out".into()).message(), "timed out");
    assert_eq!(PairingError::Refused("Pairing key not found".into()).message(), "Pairing key not found");
    assert_eq!(PairingError::Unsuccessful.message(), "Pairing failed");
    assert_eq!(PairingError::OutOfOrder.message(), "Unexpected step in pairing");
}

#[test]
fn sensor_update_from_form_and_entity() {
    let dto = SensorDto::from_form(SensorFormData { name: "kitchen".into(), area_id: "3".into() });
    assert_eq!(dto.name.as_deref(), Some("kitchen"));
    let dto = SensorDto::from_entity(sensor("hall", 1, None));
    assert_eq!(dto.name.as_deref(), Some("hall"));
}

#[test]
fn entry_from_query_reads_what_delete_query_writes() {
    for (bits, ms) in [(0u32, 0u64), (3, 60_000), (u32::MAX, u64::MAX), (2, 1)] {
        let e = DataScheduleEntry { features: SensorFeatures::from_bits_retain(bits), interval_ms: ms };
        let query = delete_query(&e);
        let fields: Vec<(&str, &str)> =
            query.split('&').map(|field| field.split_once('=').unwrap()).collect();
        assert_eq!(fields[0].0, "features");
        assert_eq!(fields[1].0, "interval_ms");
        assert_eq!(entry_from_query(Some(fields[0].1), Some(fields[1].1)), Ok(e));
    }
}

#[test]
fn entry_from_query_refuses_bad_fields() {
    assert_eq!(entry_from_query(None, Some("1")), Err(QueryError::MissingFeatures));
    assert_eq!(entry_from_query(None, None), Err(QueryError::MissingFeatures));
    assert_eq!(entry_from_query(Some("1"), None), Err(QueryError::MissingInterval));
    assert_eq!(entry_from_query(Some("x"), None), Err(QueryError::NotANumber));
    assert_eq!(entry_from_query(Some(""), Some("1")), Err(QueryError::NotANumber));
    assert_eq!(entry_from_query(Some("4294967296"), Some("1")), Err(QueryError::NotANumber));
    assert_eq!(entry_from_query(Some("1"), Some("18446744073709551616")), Err(QueryError::NotANumber));
    assert_eq!(entry_from_query(Some("1"), Some("1 ")), Err(QueryError::NotANumber));
    assert_eq!(
        entry_from_query(Some("+7"), Some("007")),
        Ok(DataScheduleEntry { features: SensorFeatures::from_bits_retain(7), interval_ms: 7 })
    );
}

#[test]
fn session_cookie_is_found_among_cookies() {
    assert_eq!(session_cookie(b"session=abc"), Some(&b"abc"[..]));
    assert_eq!(session_cookie(b"a=1;session=abc;b=2"), Some(&b"abc"[..]));
    assert_eq!(session_cookie(b"session=;x=1"), Some(&b""[..]));
    assert_eq!(session_cookie(b"session=session=abc"), Some(&b"abc"[..]));
    assert_eq!(session_cookie(b"session=a;session=b"), Some(&b"a"[..]));
    // a cookie that follows a space is not recognised
    assert_eq!(session_cookie(b"a=1; session=abc"), None);
    assert_eq!(session_cookie(b"a=1;sessio=abc;"), None);
    assert_eq!(session_cookie(b""), None);
    assert_eq!(session_cookie(b";;"), None);
    assert_eq!(session_cookie(b"SESSION=abc"), None);
}

#[test]
fn session_check_by_store_and_expiry() {
    let claims = Claims { sub: "ann".into(), exp: 100, acs: 7 };
    assert!(matches!(claims.clone().check_session(false, 50), SessionCheck::Unknown));
    assert!(matches!(claims.clone().check_session(false, 500), SessionCheck::Unknown));
    assert!(matches!(claims.clone().check_session(true, 100), SessionCheck::Expired));
    match claims.check_session(true, 99) {
        SessionCheck::Valid(user) => assert_eq!((user.id, user.name.as_str()), (7, "ann")),
        _ => panic!("a valid session is expected"),
    }
}

#[test]
fn pages_of_ten() {
    assert_eq!(page_offset(None), None);
    assert_eq!(page_offset(Some(1)), Some(0));
    assert_eq!(page_offset(Some(2)), Some(10));
    assert_eq!(page_offset(Some(13)), Some(120));
    assert!(is_last_page(0));
    assert!(is_last_page(10));
    assert!(!is_last_page(11));
}

#[test]
fn readings_query_text() {
    assert_eq!(
        temp_data_query(None, None, None, None),
        "SELECT * FROM sensor_temp_data ORDER BY timestamp DESC"
    );
    let hosts = vec!["10.0.0.1".to_string(), "10.0.0.2".to_string(), "h3".to_string()];
    assert_eq!(
        temp_data_query(Some(&hosts), Some(1), None, None),
        "SELECT * FROM sensor_temp_data WHERE host IN ('10.0.0.1', '10.0.0.2', 'h3') ORDER BY timestamp DESC LIMIT 1"
    );
    let one = vec!["a".to_string()];
    assert_eq!(
        temp_data_query(Some(&one), Some(11), Some(20), Some(-5)),
        "SELECT * FROM sensor_temp_data WHERE host IN ('a') AND timestamp > -5 ORDER BY timestamp DESC LIMIT 11 OFFSET 20"
    );
    assert_eq!(
        temp_data_query(Some(&vec![]), None, Some(3), None),
        "SELECT * FROM sensor_temp_data WHERE host IN ('') ORDER BY timestamp DESC OFFSET 3"
    );
    assert_eq!(
        temp_data_query(None, None, None, Some(i64::MIN)),
        "SELECT * FROM sensor_temp_data WHERE timestamp > -9223372036854775808 ORDER BY timestamp DESC"
    );
    assert_eq!(
        temp_data_query(None, Some(0), None, Some(1_700_000_000)),
        "SELECT * FROM sensor_temp_data WHERE timestamp > 1700000000 ORDER BY timestamp DESC LIMIT 0"
    );
}

#[test]
fn delete_sessions_query_text() {
    let session = |name: &str, token: &str| UserSession {
        normalized_name: NormalizedString::new(name),
        token: Token::from_str(token),
    };
    assert_eq!(
        delete_sessions_query(&vec![session("Ann", "t1")]),
        "DELETE FROM user_sessions WHERE (normalized_name = 'ann' AND token = 't1')"
    );
    assert_eq!(
        delete_sessions_query(&vec![session("a", "1"), session("b", "2"), session("c", "3")]),
        "DELETE FROM user_sessions WHERE (normalized_name = 'a' AND token = '1') OR (normalized_name = 'b' AND token = '2') OR (normalized_name = 'c' AND token = '3')"
    );
    assert_eq!(delete_sessions_query(&vec![]), "DELETE FROM user_sessions WHERE ");
}

#[test]
fn area_id_text_or_null() {
    assert_eq!(area_id_text(&None), "NULL");
    assert_eq!(area_id_text(&Some(AreaEntity { id: 12, name: "x".into() })), "12");
    assert_eq!(area_id_text(&Some(AreaEntity { id: -3, name: "x".into() })), "-3");
    assert_eq!(area_id_text(&Some(AreaEntity { id: 0, name: "x".into() })), "0");
}
