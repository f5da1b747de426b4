use home_core::common::{Sensor, SensorDto, SensorResponse, StoreUsage};
use home_core::sensor::keys::{PairKey, PairedKeys};
use home_core::sensor::store::{frame, is_blank, record, usage, used_length, Store, CAPACITY, ERASED};

#[test]
fn default_store_is_empty() {
    let s = Store::default();
    assert_eq!(s.sensor.name, "");
    assert_eq!(s.sensor.location, "");
    assert_eq!(s.sensor.features, 0);
    assert_eq!(s.paired_keys.len(), 0);
}

#[test]
fn erased_region_is_blank() {
    let region = vec![ERASED; CAPACITY as usize];
    assert_eq!(used_length(&region), 0);
    assert!(is_blank(&region));
    assert_eq!(record(&region), b"");
}

#[test]
fn region_without_erased_byte_is_fully_used() {
    let region = vec![b'a'; 64];
    assert_eq!(used_length(&region), 64);
    assert!(!is_blank(&region));
}

#[test]
fn frame_pads_with_erased_bytes_and_reads_back() {
    let payload = b"{\"sensor\":{\"name\":\"x\"}}";
    let region = frame(payload);
    assert_eq!(region.len(), CAPACITY as usize);
    assert_eq!(&region[..payload.len()], payload);
    assert!(region[payload.len()..].iter().all(|&b| b == ERASED));
    assert_eq!(used_length(&region), payload.len());
    assert_eq!(record(&region), payload);
}

#[test]
fn frame_of_full_capacity_payload() {
    let payload = vec![b'z'; CAPACITY as usize];
    let region = frame(&payload);
    assert_eq!(region, payload);
    assert_eq!(used_length(&region), CAPACITY as usize);
}

#[test]
fn usage_counts_record_and_keys() {
    let region = frame(b"0123456789");
    let mut keys = PairedKeys::new();
    keys.insert(&PairKey::from_bytes(b"a").unwrap()).unwrap();
    keys.insert(&PairKey::from_bytes(b"b").unwrap()).unwrap();
    assert_eq!(
        usage(&region, &keys),
        StoreUsage { data_used: 10, data_total: 24576, pair_used: 2, pair_total: 32 }
    );
}

#[test]
fn merge_replaces_present_fields_only() {
    let sensor = Sensor { name: "old".into(), location: "hall".into(), features: 1 };
    let dto = SensorDto { name: Some("new".into()), location: None, features: None };
    let merged = dto.merge(sensor.clone());
    assert_eq!(merged.name, "new");
    assert_eq!(merged.location, "hall");
    assert_eq!(merged.features, 1);

    let dto = SensorDto { name: None, location: Some("attic".into()), features: Some(3) };
    let merged = dto.merge(sensor.clone());
    assert_eq!(merged.name, "old");
    assert_eq!(merged.location, "attic");
    assert_eq!(merged.features, 3);

    let dto = SensorDto { name: None, location: None, features: None };
    let merged = dto.merge(sensor);
    assert_eq!((merged.name.as_str(), merged.location.as_str(), merged.features), ("old", "hall", 1));
}

#[test]
fn dto_from_sensor_and_sensor_from_response() {
    let dto = SensorDto::from_sensor(Sensor { name: "a".into(), location: "b".into(), features: 2 });
    assert_eq!(dto.name.as_deref(), Some("a"));
    assert_eq!(dto.location.as_deref(), Some("b"));
    assert_eq!(dto.features, Some(2));
    let s = Sensor::from_response(SensorResponse {
        name: "n".into(),
        location: "l".into(),
        features: 7,
        pairing: true,
        paired_keys: 3,
        usage: StoreUsage::default(),
    });
    assert_eq!((s.name.as_str(), s.location.as_str(), s.features), ("n", "l", 7));
}
