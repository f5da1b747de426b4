use home_core::api::db::SensorEntity;
use home_core::api::features::SensorFeatures;
use home_core::api::scanner::{
    is_usable, pick_target, probe_host, subnet_prefix, ScanProgress, ScannerResult, ScannerService,
    ScannerState, SCAN_TOTAL,
};

fn sensor(host: &str) -> SensorEntity {
    SensorEntity {
        name: format!("sensor at {}", host),
        area: None,
        features: SensorFeatures::temperature(),
        host: host.to_string(),
        pair_id: None,
    }
}

#[test]
fn scan_of_three_responsive_hosts() {
    for responsive in [[0u32, 1, 2], [17, 100, 255], [254, 3, 128]] {
        let mut s: ScannerService<SensorEntity> = ScannerService::new();
        assert!(s.init(Some("192.168.1.".to_string()), 1_000));
        let mut last_progress = 0;
        // probes end in an order of their own
        for k in 0..SCAN_TOTAL {
            let suffix = (k * 7 + 3) % 256;
            let found = if responsive.contains(&suffix) {
                Some(sensor(&probe_host("192.168.1.", suffix as u8)))
            } else {
                None
            };
            s.probe_finished(found);
            match s.state() {
                ScannerState::Scanning(p) => {
                    assert!(p.progress <= p.total);
                    assert_eq!(p.total, 256);
                    assert!(p.progress >= last_progress);
                    assert_eq!(p.progress, k + 1);
                    assert_eq!(p.target, "192.168.1.");
                    last_progress = p.progress;
                }
                _ => panic!("the scan is in flight"),
            }
        }
        assert!(s.all_probed());
        s.finish(4_500);
        match s.state() {
            ScannerState::Idle(Some(result)) => {
                assert_eq!(result.scanned.len(), 3);
                assert_eq!(result.created_ms, 4_500);
                assert_eq!(result.duration_ms, 3_500);
                let mut hosts: Vec<String> = result.scanned.iter().map(|s| s.host.clone()).collect();
                hosts.sort();
                let mut expected: Vec<String> =
                    responsive.iter().map(|i| format!("192.168.1.{}", i)).collect();
                expected.sort();
                assert_eq!(hosts, expected);
            }
            _ => panic!("the scan has ended"),
        }
        assert_eq!(s.last_result.as_ref().unwrap().scanned.len(), 3);
    }
}

#[test]
fn init_is_idempotent_while_scanning() {
    let mut s: ScannerService<SensorEntity> = ScannerService::new();
    assert!(s.init(Some("10.0.0.".to_string()), 0));
    s.probe_finished(Some(sensor("10.0.0.1")));
    s.probe_finished(None);
    assert!(!s.init(Some("172.16.0.".to_string()), 5));
    match s.state() {
        ScannerState::Scanning(p) => {
            assert_eq!(p.progress, 2);
            assert_eq!(p.scanned.len(), 1);
            assert_eq!(p.target, "10.0.0.");
        }
        _ => panic!("the scan is in flight"),
    }
}

#[test]
fn cancel_returns_to_idle_and_stops_progress() {
    let mut s: ScannerService<SensorEntity> = ScannerService::new();
    s.init(Some("10.0.0.".to_string()), 0);
    for _ in 0..256 {
        s.probe_finished(None);
    }
    s.finish(10);
    assert!(matches!(s.state(), ScannerState::Idle(Some(_))));

    assert!(s.init(Some("10.0.1.".to_string()), 20));
    s.probe_finished(Some(sensor("10.0.1.9")));
    s.cancel();
    match s.state() {
        ScannerState::Idle(Some(last)) => {
            assert_eq!(last.created_ms, 10);
            assert_eq!(last.scanned.len(), 0);
        }
        _ => panic!("idle with the last result is expected"),
    }
    // late probes of the cancelled scan change nothing
    s.probe_finished(Some(sensor("10.0.1.10")));
    s.finish(30);
    assert!(!s.all_probed());
    match s.state() {
        ScannerState::Idle(Some(last)) => assert_eq!(last.created_ms, 10),
        _ => panic!("idle with the last result is expected"),
    }
    // a new scan starts from zero
    assert!(s.init(Some("10.0.2.".to_string()), 40));
    match s.state() {
        ScannerState::Scanning(p) => {
            assert_eq!(p.progress, 0);
            assert_eq!(p.scanned.len(), 0);
        }
        _ => panic!("the scan is in flight"),
    }
}

#[test]
fn more_than_256_probes_are_not_counted() {
    let mut s: ScannerService<SensorEntity> = ScannerService::new();
    s.init(Some("10.0.0.".to_string()), 0);
    for _ in 0..300 {
        s.probe_finished(Some(sensor("x")));
    }
    match s.state() {
        ScannerState::Scanning(p) => {
            assert_eq!(p.progress, 256);
            assert_eq!(p.scanned.len(), 256);
        }
        _ => panic!("the scan is in flight"),
    }
}

#[test]
fn finish_waits_for_all_probes() {
    let mut s: ScannerService<SensorEntity> = ScannerService::new();
    s.init(Some("10.0.0.".to_string()), 0);
    s.probe_finished(None);
    s.finish(10);
    assert!(matches!(s.state(), ScannerState::Scanning(_)));
}

#[test]
fn no_network_is_an_error_reported_once() {
    let mut s: ScannerService<SensorEntity> = ScannerService::new();
    assert!(!s.init(None, 0));
    match s.state() {
        ScannerState::Error(m) => assert_eq!(m, "No network to scan!"),
        _ => panic!("an error is expected"),
    }
    assert!(matches!(s.state(), ScannerState::Idle(None)));
}

#[test]
fn state_scanned_lists_the_sensors() {
    let idle: ScannerState<SensorEntity> = ScannerState::Idle(None);
    assert!(idle.scanned().is_empty());
    let err: ScannerState<SensorEntity> = ScannerState::Error("e".into());
    assert!(err.scanned().is_empty());
    let mut p = ScanProgress::new("t".to_string());
    p.record(Some(sensor("a")));
    p.record(None);
    let scanning = ScannerState::Scanning(p);
    assert_eq!(scanning.scanned().len(), 1);
    assert_eq!(scanning.scanned()[0].host, "a");
    let done = ScannerState::Idle(Some(ScannerResult {
        scanned: vec![sensor("b"), sensor("c")],
        created_ms: 0,
        duration_ms: 0,
    }));
    assert_eq!(done.scanned().len(), 2);
}

#[test]
fn progress_text() {
    let mut p: ScanProgress<SensorEntity> = ScanProgress::new("t".to_string());
    assert_eq!(p.text(), "Scanned 0 of 256 hosts");
    for _ in 0..12 {
        p.record(None);
    }
    assert_eq!(p.text(), "Scanned 12 of 256 hosts");
    assert!(!p.is_complete());
}

#[test]
fn result_display() {
    let r: ScannerResult<SensorEntity> =
        ScannerResult { scanned: vec![], created_ms: 947_638_923_004, duration_ms: 83_045 };
    assert_eq!(r.created_display().as_deref(), Some("2000-01-12 01:02:03 UTC"));
    assert_eq!(r.duration_display(), "01:23.045");
    let r: ScannerResult<SensorEntity> =
        ScannerResult { scanned: vec![], created_ms: i64::MAX, duration_ms: 0 };
    assert_eq!(r.created_display(), None);
    assert_eq!(r.duration_display(), "00:00.000");
    let r: ScannerResult<SensorEntity> =
        ScannerResult { scanned: vec![], created_ms: 0, duration_ms: 6_000_000 + 59_999 };
    assert_eq!(r.created_display().as_deref(), Some("1970-01-01 00:00:00 UTC"));
    assert_eq!(r.duration_display(), "100:59.999");
}

#[test]
fn target_is_prefix_of_first_usable_address() {
    assert!(!is_usable(&[127, 0, 0, 1]));
    assert!(!is_usable(&[0, 0, 0, 0]));
    assert!(is_usable(&[192, 168, 1, 20]));
    assert_eq!(subnet_prefix(&[192, 168, 1, 20]), "192.168.1.");
    assert_eq!(subnet_prefix(&[10, 0, 0, 255]), "10.0.0.");
    assert_eq!(
        pick_target(&[[127, 0, 0, 1], [0, 0, 0, 0], [10, 1, 2, 3], [192, 168, 0, 4]]).as_deref(),
        Some("10.1.2.")
    );
    assert_eq!(pick_target(&[[127, 0, 0, 1]]), None);
    assert_eq!(pick_target(&[]), None);
    assert_eq!(probe_host("10.1.2.", 0), "10.1.2.0");
    assert_eq!(probe_host("10.1.2.", 255), "10.1.2.255");
}
