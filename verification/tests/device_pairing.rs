use home_core::common::{MeasurementQuery, Sensor, SensorDto, StoreUsage};
use home_core::sensor::keys::{PairKey, PairedKeys, PendingKeys};
use home_core::sensor::request::Request;
use home_core::sensor::route::{dispatch, Outcome, Payload};
use home_core::sensor::status::StatusCode;
use home_core::sensor::store::Store;
use home_core::sensor::timeout::{PairingWindow, Timeout, WINDOW_MS};

fn store_with(keys: &[&str]) -> Store {
    let mut s = Store::default();
    s.sensor = Sensor { name: "n".to_string(), location: "l".to_string(), features: 1 };
    for k in keys {
        let key = PairKey::from_bytes(k.as_bytes()).unwrap();
        assert_eq!(s.paired_keys.insert(&key), Ok(true));
    }
    s
}

fn usage() -> StoreUsage {
    StoreUsage { data_used: 10, data_total: 24576, pair_used: 0, pair_total: 32 }
}

fn handle(
    raw: &[u8],
    window: &mut PairingWindow,
    now: u64,
    stored: Option<Store>,
    update: Option<SensorDto>,
    random: [u8; 16],
) -> Outcome {
    let req = Request::try_from(raw).unwrap();
    dispatch(&req, window, now, stored.map(|s| (s, usage())), update, MeasurementQuery::all(), &random)
}

fn key_of(out: &Outcome) -> String {
    match &out.reply.payload {
        Payload::Pair(k) => String::from_utf8(k.as_bytes().to_vec()).unwrap(),
        _ => panic!("no key in the reply"),
    }
}

fn confirm_request(id: &str) -> Vec<u8> {
    format!("POST /pair/confirm HTTP/1.1\r\nX-Pair-Id: {}\r\n\r\n", id).into_bytes()
}

#[test]
fn timeout_starts_and_finishes() {
    let mut t = Timeout::new(100);
    assert!(!t.started());
    // a timeout that never started counts as finished at any later time
    assert!(t.finished(1));
    assert!(!t.finished(0));
    t.start(1000);
    assert!(t.started());
    assert!(!t.finished(1100));
    assert!(t.finished(1101));
    t.reset();
    assert!(!t.started());
}

#[test]
fn window_opens_on_press_and_closes_after_deadline() {
    let mut w = PairingWindow::new();
    assert!(!w.is_open());
    w.check(5);
    assert!(!w.is_open());
    w.press(1_000);
    assert!(w.is_open());
    assert!(w.is_open_at(1_000 + WINDOW_MS));
    assert!(!w.is_open_at(1_001 + WINDOW_MS));
    w.check(1_000 + WINDOW_MS);
    assert!(w.is_open());
    w.check(1_001 + WINDOW_MS);
    assert!(!w.is_open());
}

#[test]
fn press_extends_an_open_window() {
    let mut w = PairingWindow::new();
    w.press(0);
    w.press(20_000);
    w.check(WINDOW_MS + 1);
    assert!(w.is_open());
    w.check(20_000 + WINDOW_MS + 1);
    assert!(!w.is_open());
}

#[test]
fn closing_the_window_drops_issued_keys() {
    let mut w = PairingWindow::new();
    w.press(0);
    let out = handle(b"POST /pair HTTP/1.1\r\n\r\n", &mut w, 1, None, None, [7; 16]);
    assert_eq!(out.reply.code, StatusCode::OK);
    let id = key_of(&out);
    w.check(WINDOW_MS + 1);
    w.press(WINDOW_MS + 2);
    let out = handle(&confirm_request(&id), &mut w, WINDOW_MS + 3, Some(store_with(&[])), None, [0; 16]);
    assert_eq!(out.reply.code, StatusCode::NOT_FOUND);
    assert!(out.write.is_none());
}

#[test]
fn pair_and_confirm_are_forbidden_while_closed() {
    let mut w = PairingWindow::new();
    for raw in [
        &b"POST /pair HTTP/1.1\r\n\r\n"[..],
        &b"POST /pair HTTP/1.1\r\nX-Pair-Id: zz\r\n\r\n\xff\xfegarbage"[..],
        &b"POST /pair/confirm HTTP/1.1\r\n\r\n"[..],
        &b"POST /pair/confirm HTTP/1.1\r\nX-Pair-Id: 00112233445566778899aabbccddeeff\r\n\r\n{}"[..],
    ] {
        let out = handle(raw, &mut w, 10, Some(store_with(&[])), None, [1; 16]);
        assert_eq!(out.reply.code, StatusCode::FORBIDDEN);
        assert_eq!(out.reply.code.as_u16(), 403);
        match out.reply.payload {
            Payload::Error(m) => {
                assert_eq!(m, "To connect use /pair endpoint and pairing button on the device.")
            }
            _ => panic!("an error body is expected"),
        }
        assert!(out.write.is_none());
    }
}

#[test]
fn issued_key_is_hex_of_random_bytes() {
    let mut w = PairingWindow::new();
    w.press(0);
    let random = [0x00, 0x01, 0x0a, 0x10, 0x7f, 0x80, 0xab, 0xff, 0, 0, 0, 0, 0, 0, 0, 0x9c];
    let out = handle(b"POST /pair HTTP/1.1\r\n\r\n", &mut w, 1, None, None, random);
    assert_eq!(out.reply.code, StatusCode::OK);
    assert_eq!(key_of(&out), "00010a107f80abff000000000000009c");
}

#[test]
fn confirm_moves_key_into_store_once() {
    let mut w = PairingWindow::new();
    w.press(0);
    let out = handle(b"POST /pair HTTP/1.1\r\n\r\n", &mut w, 1, None, None, [0xab; 16]);
    let id = key_of(&out);
    assert_eq!(id, "ab".repeat(16));

    let out = handle(&confirm_request(&id), &mut w, 2, Some(store_with(&["other"])), None, [0; 16]);
    assert_eq!(out.reply.code, StatusCode::OK);
    assert!(matches!(out.reply.payload, Payload::Empty));
    let written = out.write.expect("the record is rewritten");
    assert_eq!(written.paired_keys.len(), 2);
    assert!(written.paired_keys.find(id.as_bytes()).is_some());
    assert!(written.paired_keys.find(b"other").is_some());
    assert_eq!(written.sensor.name, "n");

    // the same id again: it is no longer pending
    let out = handle(&confirm_request(&id), &mut w, 3, Some(written), None, [0; 16]);
    assert_eq!(out.reply.code, StatusCode::NOT_FOUND);
    assert!(out.write.is_none());
}

#[test]
fn confirm_of_unknown_id_is_not_found() {
    let mut w = PairingWindow::new();
    w.press(0);
    let out = handle(&confirm_request("deadbeef"), &mut w, 2, Some(store_with(&[])), None, [0; 16]);
    assert_eq!(out.reply.code, StatusCode::NOT_FOUND);
    match out.reply.payload {
        Payload::Error(m) => assert_eq!(m, "Pairing key not found"),
        _ => panic!("an error body is expected"),
    }
}

#[test]
fn confirm_without_header_or_with_long_id_is_bad_request() {
    let mut w = PairingWindow::new();
    w.press(0);
    let out = handle(b"POST /pair/confirm HTTP/1.1\r\n\r\n", &mut w, 2, Some(store_with(&[])), None, [0; 16]);
    assert_eq!(out.reply.code, StatusCode::BAD_REQUEST);
    let long = "a".repeat(33);
    let out = handle(&confirm_request(&long), &mut w, 2, Some(store_with(&[])), None, [0; 16]);
    assert_eq!(out.reply.code, StatusCode::BAD_REQUEST);
}

#[test]
fn confirm_with_unreadable_store_is_server_error() {
    let mut w = PairingWindow::new();
    w.press(0);
    let out = handle(b"POST /pair HTTP/1.1\r\n\r\n", &mut w, 1, None, None, [3; 16]);
    let id = key_of(&out);
    let out = handle(&confirm_request(&id), &mut w, 2, None, None, [0; 16]);
    assert_eq!(out.reply.code, StatusCode::INTERNAL_SERVER_ERROR);
}

#[test]
fn full_store_refuses_key_and_stays_unchanged() {
    let names: Vec<String> = (0..32).map(|i| format!("key{}", i)).collect();
    let refs: Vec<&str> = names.iter().map(|s| s.as_str()).collect();
    let mut w = PairingWindow::new();
    w.press(0);
    let out = handle(b"POST /pair HTTP/1.1\r\n\r\n", &mut w, 1, None, None, [9; 16]);
    let id = key_of(&out);
    let out = handle(&confirm_request(&id), &mut w, 2, Some(store_with(&refs)), None, [0; 16]);
    assert_eq!(out.reply.code, StatusCode::INSUFFICIENT_STORAGE);
    assert_eq!(out.reply.code.as_u16(), 507);
    match out.reply.payload {
        Payload::Error(m) => assert_eq!(m, "Paired devices storage full"),
        _ => panic!("an error body is expected"),
    }
    assert!(out.write.is_none());
    // the key is still pending: with room in the store it can be confirmed
    let out = handle(&confirm_request(&id), &mut w, 3, Some(store_with(&["a"])), None, [0; 16]);
    assert_eq!(out.reply.code, StatusCode::OK);
}

#[test]
fn seventeenth_pending_key_is_too_many() {
    let mut w = PairingWindow::new();
    w.press(0);
    for i in 0..16u8 {
        let out = handle(b"POST /pair HTTP/1.1\r\n\r\n", &mut w, 1, None, None, [i; 16]);
        assert_eq!(out.reply.code, StatusCode::OK);
    }
    let out = handle(b"POST /pair HTTP/1.1\r\n\r\n", &mut w, 1, None, None, [99; 16]);
    assert_eq!(out.reply.code, StatusCode::TOO_MANY_REQUESTS);
    match out.reply.payload {
        Payload::Error(m) => assert_eq!(m, "Too many pairing requests"),
        _ => panic!("an error body is expected"),
    }
}

#[test]
fn sensor_status_is_public() {
    let mut w = PairingWindow::new();
    let out = handle(b"GET /sensor HTTP/1.1\r\n\r\n", &mut w, 5, Some(store_with(&["k1", "k2"])), None, [0; 16]);
    assert_eq!(out.reply.code, StatusCode::OK);
    match out.reply.payload {
        Payload::Sensor(s) => {
            assert_eq!(s.name, "n");
            assert_eq!(s.location, "l");
            assert_eq!(s.features, 1);
            assert!(!s.pairing);
            assert_eq!(s.paired_keys, 2);
            assert_eq!(s.usage, usage());
        }
        _ => panic!("the sensor is expected"),
    }
    w.press(10);
    let out = handle(b"GET /sensor HTTP/1.1\r\n\r\n", &mut w, 11, Some(store_with(&[])), None, [0; 16]);
    match out.reply.payload {
        Payload::Sensor(s) => assert!(s.pairing),
        _ => panic!("the sensor is expected"),
    }
    let out = handle(b"GET /sensor HTTP/1.1\r\n\r\n", &mut w, 11, None, None, [0; 16]);
    assert_eq!(out.reply.code, StatusCode::INTERNAL_SERVER_ERROR);
}

#[test]
fn sensor_update_needs_a_confirmed_key() {
    let mut w = PairingWindow::new();
    let dto = || SensorDto { name: Some("new".to_string()), location: None, features: Some(3) };
    let out = handle(b"POST /sensor HTTP/1.1\r\n\r\n{}", &mut w, 5, Some(store_with(&["k1"])), Some(dto()), [0; 16]);
    assert_eq!(out.reply.code, StatusCode::FORBIDDEN);
    assert!(out.write.is_none());
    let out = handle(b"POST /sensor HTTP/1.1\r\nX-Pair-Id: nope\r\n\r\n{}", &mut w, 5, Some(store_with(&["k1"])), Some(dto()), [0; 16]);
    assert_eq!(out.reply.code, StatusCode::FORBIDDEN);
    let out = handle(b"POST /sensor HTTP/1.1\r\nx-pair-id: k1\r\n\r\n{}", &mut w, 5, Some(store_with(&["k1"])), Some(dto()), [0; 16]);
    assert_eq!(out.reply.code, StatusCode::OK);
    let written = out.write.unwrap();
    assert_eq!(written.sensor.name, "new");
    assert_eq!(written.sensor.location, "l");
    assert_eq!(written.sensor.features, 3);
    assert_eq!(written.paired_keys.len(), 1);
    let out = handle(b"POST /sensor HTTP/1.1\r\nX-Pair-Id: k1\r\n\r\nnot json", &mut w, 5, Some(store_with(&["k1"])), None, [0; 16]);
    assert_eq!(out.reply.code, StatusCode::BAD_REQUEST);
}

#[test]
fn measurements_need_a_confirmed_key() {
    let mut w = PairingWindow::new();
    for path in ["/dht", "/temp"] {
        let raw = format!("GET {} HTTP/1.1\r\n\r\n", path).into_bytes();
        let out = handle(&raw, &mut w, 5, Some(store_with(&["k1"])), None, [0; 16]);
        assert_eq!(out.reply.code, StatusCode::FORBIDDEN);
        let raw = format!("GET {} HTTP/1.1\r\nX-Pair-Id: k1\r\n\r\n", path).into_bytes();
        let out = handle(&raw, &mut w, 5, Some(store_with(&["k1"])), None, [0; 16]);
        assert_eq!(out.reply.code, StatusCode::OK);
        assert!(matches!(out.reply.payload, Payload::Measurements(_)));
    }
}

#[test]
fn unknown_route_is_not_found() {
    let mut w = PairingWindow::new();
    let out = handle(b"GET /nothing HTTP/1.1\r\n\r\n", &mut w, 5, Some(store_with(&[])), None, [0; 16]);
    assert_eq!(out.reply.code, StatusCode::NOT_FOUND);
    match out.reply.payload {
        Payload::Error(m) => assert_eq!(m, "Not found"),
        _ => panic!("an error body is expected"),
    }
}

#[test]
fn pair_key_round_trip_and_limits() {
    let k = PairKey::from_bytes(b"abc").unwrap();
    assert_eq!(k.as_bytes(), b"abc");
    assert_eq!(k.duplicate().as_bytes(), b"abc");
    assert!(PairKey::from_bytes(&[b'x'; 32]).is_some());
    assert!(PairKey::from_bytes(&[b'x'; 33]).is_none());
    assert!(PairKey::from_bytes(&[0xff, 0xfe]).is_none());
}

#[test]
fn pending_keys_hold_sixteen() {
    let mut p = PendingKeys::new();
    for i in 0..16 {
        let k = PairKey::from_bytes(format!("k{}", i).as_bytes()).unwrap();
        assert!(p.issue(&k));
    }
    assert_eq!(p.len(), 16);
    let extra = PairKey::from_bytes(b"extra").unwrap();
    assert!(!p.issue(&extra));
    assert!(!p.contains(&extra));
    let k3 = PairKey::from_bytes(b"k3").unwrap();
    assert!(p.contains(&k3));
    p.consume(&k3);
    assert!(!p.contains(&k3));
    assert_eq!(p.len(), 15);
    p.clear();
    assert_eq!(p.len(), 0);
}

#[test]
fn paired_keys_are_a_bounded_set() {
    let mut s = PairedKeys::new();
    let a = PairKey::from_bytes(b"a").unwrap();
    assert_eq!(s.insert(&a), Ok(true));
    assert_eq!(s.insert(&a), Ok(false));
    assert_eq!(s.len(), 1);
    for i in 0..31 {
        let k = PairKey::from_bytes(format!("k{}", i).as_bytes()).unwrap();
        assert_eq!(s.insert(&k), Ok(true));
    }
    assert_eq!(s.len(), 32);
    let extra = PairKey::from_bytes(b"extra").unwrap();
    assert_eq!(s.insert(&extra), Err(()));
    assert_eq!(s.len(), 32);
    assert!(s.find(b"extra").is_none());
    // a key that is held already is still accepted when the set is full
    assert_eq!(s.insert(&a), Ok(false));
    assert_eq!(s.key_at(0).as_bytes(), b"a");
    assert_eq!(s.key_at(1).as_bytes(), b"k0");
}

#[test]
fn measurement_query_limits_the_count() {
    let req = Request::try_from(b"GET /dht HTTP/1.1\r\nX-Pair-Id: k1\r\n\r\n{\"count\":3}").unwrap();
    let mut w = PairingWindow::new();
    let query = MeasurementQuery { count: Some(3), max_age: Some(60) };
    let out = dispatch(&req, &mut w, 5, Some((store_with(&["k1"]), usage())), None, query, &[0; 16]);
    match out.reply.payload {
        Payload::Measurements(q) => {
            assert_eq!(q, query);
            assert_eq!(q.take(10), 3);
            assert_eq!(q.take(2), 2);
            assert_eq!(q.take(0), 0);
        }
        _ => panic!("measurements are expected"),
    }
    assert_eq!(MeasurementQuery::all().take(7), 7);
    assert_eq!(MeasurementQuery { count: Some(0), max_age: None }.take(7), 0);
    assert_eq!(MeasurementQuery { count: Some(u64::MAX), max_age: None }.take(7), 7);
}
