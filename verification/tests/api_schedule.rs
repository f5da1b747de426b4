use home_core::api::db::DataScheduleEntry;
use home_core::api::features::SensorFeatures;
use home_core::api::json::{FormError, ScheduleEntryFormData};
use home_core::api::retry::{decode, decode_status, Retry, RetryAction, Undecodable, RETRY_DELAY_MS};
use home_core::api::schedule::{
    collects_temperature, first_pause, next_pause, phase_offset, restart_needed, samples_owed,
    DataSchedule, Pause, RestartStep, ServicePhase,
};

fn entry(bits: u32, interval_ms: u64) -> DataScheduleEntry {
    DataScheduleEntry { features: SensorFeatures::from_bits_retain(bits), interval_ms }
}

#[test]
fn first_sleep_aligns_to_the_interval() {
    assert_eq!(phase_offset(12_345, 60_000), 12_345);
    assert_eq!(first_pause(12_345, 60_000), Pause { sleep_ms: 60_000 - 12_345, overran: false });
    assert_eq!(first_pause(12_345, 60_000).sleep_ms, 47_655);
    assert_eq!(first_pause(120_000, 60_000).sleep_ms, 60_000);
    assert_eq!(first_pause(1_700_000_123_456, 900_000).sleep_ms, 900_000 - 1_700_000_123_456 % 900_000);
}

#[test]
fn later_sleeps_subtract_the_iteration() {
    assert_eq!(next_pause(60_000, 1_250), Pause { sleep_ms: 58_750, overran: false });
    assert_eq!(next_pause(60_000, 60_000), Pause { sleep_ms: 0, overran: false });
    assert_eq!(next_pause(60_000, 60_001), Pause { sleep_ms: 0, overran: true });
    assert_eq!(next_pause(60_000, 0), Pause { sleep_ms: 60_000, overran: false });
}

#[test]
fn samples_owed_by_age_with_margin_and_cap() {
    assert_eq!(samples_owed(10_000, 10_000), 4);
    assert_eq!(samples_owed(10_000 + 899, 10_000), 4);
    assert_eq!(samples_owed(10_000 + 900, 10_000), 5);
    assert_eq!(samples_owed(10_000 + 900 * 10, 10_000), 14);
    assert_eq!(samples_owed(10_000 + 900 * 145, 10_000), 149);
    assert_eq!(samples_owed(10_000 + 900 * 146, 10_000), 150);
    assert_eq!(samples_owed(1_700_000_000, 0), 150);
    // a newest sample from the future
    assert_eq!(samples_owed(10_000, 10_000 + 899), 4);
    assert_eq!(samples_owed(10_000, 10_000 + 900 * 6), -2);
}

#[test]
fn temperature_entries_are_collected() {
    assert!(collects_temperature(&entry(1, 1000)));
    assert!(collects_temperature(&entry(3, 1000)));
    assert!(collects_temperature(&entry(0xffff_ffff, 1000)));
    assert!(!collects_temperature(&entry(2, 1000)));
    assert!(!collects_temperature(&entry(0, 1000)));
}

#[test]
fn create_entry_is_idempotent() {
    let mut s = DataSchedule::new();
    let created = s.create_entry(entry(1, 60_000));
    assert_eq!(created, Some(entry(1, 60_000)));
    assert!(restart_needed(&created));

    let again = s.create_entry(entry(1, 60_000));
    assert_eq!(again, None);
    assert!(!restart_needed(&again));
    assert_eq!(s.entries(), &vec![entry(1, 60_000)]);

    let changed = s.create_entry(entry(1, 30_000));
    assert_eq!(changed, Some(entry(1, 30_000)));
    assert!(restart_needed(&changed));
    assert_eq!(s.entries(), &vec![entry(1, 30_000)]);

    assert_eq!(s.create_entry(entry(2, 60_000)), Some(entry(2, 60_000)));
    assert_eq!(s.create_entry(entry(3, 1)), Some(entry(3, 1)));
    assert_eq!(s.len(), 3);
    assert_eq!(s.entries(), &vec![entry(1, 30_000), entry(2, 60_000), entry(3, 1)]);
}

#[test]
fn delete_entry_needs_features_and_interval() {
    let mut s = DataSchedule::new();
    s.create_entry(entry(1, 60_000));
    s.create_entry(entry(2, 5_000));
    assert!(!s.delete_entry(entry(1, 1)));
    assert!(!s.delete_entry(entry(4, 60_000)));
    assert_eq!(s.len(), 2);
    assert!(s.delete_entry(entry(1, 60_000)));
    assert_eq!(s.entries(), &vec![entry(2, 5_000)]);
    assert!(!s.delete_entry(entry(1, 60_000)));
}

#[test]
fn restart_awaits_the_old_loops() {
    let mut phase = ServicePhase::Stopped;
    assert_eq!(phase.restart(), RestartStep::Start);
    assert!(phase.start());
    assert_eq!(phase, ServicePhase::Running);
    assert!(!phase.start());
    assert_eq!(phase.restart(), RestartStep::AbortAndAwait);
    assert_eq!(phase, ServicePhase::Stopping);
    assert!(!phase.start());
    phase.stopped();
    assert_eq!(phase.restart(), RestartStep::Start);
    assert!(phase.start());
}

#[test]
fn retry_gives_up_after_the_limit() {
    let mut r = Retry::new(3);
    assert!(!r.exhausted());
    assert_eq!(r.failed(), RetryAction::RetryAfter(RETRY_DELAY_MS));
    assert_eq!(r.failed(), RetryAction::RetryAfter(200));
    assert_eq!(r.failed(), RetryAction::GiveUp);
    assert!(r.exhausted());
    assert_eq!(r.failed(), RetryAction::GiveUp);
}

#[test]
fn retry_makes_at_least_one_attempt() {
    let mut r = Retry::new(0);
    assert!(!r.exhausted());
    assert_eq!(r.failed(), RetryAction::GiveUp);
    let mut r = Retry::new(1);
    assert_eq!(r.failed(), RetryAction::GiveUp);
}

#[test]
fn decode_prefers_success_shape() {
    assert_eq!(decode::<u8, &str>(Some(1), Some("e")), Ok(Ok(1)));
    assert_eq!(decode::<u8, &str>(Some(1), None), Ok(Ok(1)));
    assert_eq!(decode::<u8, &str>(None, Some("e")), Ok(Err("e")));
    assert_eq!(decode::<u8, &str>(None, None), Err(Undecodable));
    assert_eq!(decode_status::<&str>(200, None), Ok(200));
    assert_eq!(decode_status::<&str>(404, None), Ok(404));
    assert_eq!(decode_status::<&str>(200, Some("e")), Err("e"));
}

fn form(temp: bool, motion: bool, interval: &str) -> ScheduleEntryFormData {
    ScheduleEntryFormData {
        features_temp: if temp { Some("on".into()) } else { None },
        features_motion: if motion { Some("on".into()) } else { None },
        interval: interval.to_string(),
    }
}

#[test]
fn schedule_form_reads_hours_minutes_seconds() {
    assert_eq!(form(true, false, "00:01:00").try_into(), Ok(entry(1, 60_000)));
    assert_eq!(form(false, true, "1:30:15").try_into(), Ok(entry(2, (3600 + 1800 + 15) * 1000)));
    assert_eq!(form(true, true, "0:15").try_into(), Ok(entry(3, 900_000)));
    assert_eq!(form(false, false, "2").try_into(), Ok(entry(0, 7_200_000)));
    assert_eq!(form(true, false, "+1:+2:+3").try_into(), Ok(entry(1, 3_723_000)));
    assert_eq!(form(true, false, "0:0:0").try_into(), Ok(entry(1, 0)));
}

#[test]
fn schedule_form_refuses_what_is_no_number() {
    for bad in ["", ":", "1:", ":1", "a", "1:b:3", "1:2:3:4", "1:2:", "-1", "1.5", " 1", "+"] {
        assert_eq!(form(true, false, bad).try_into(), Err(FormError::NotANumber), "{:?}", bad);
    }
    assert_eq!(
        form(true, false, "18446744073709551616").try_into(),
        Err(FormError::NotANumber)
    );
}

#[test]
fn schedule_form_refuses_an_interval_beyond_64_bits() {
    assert_eq!(form(true, false, "18446744073709551615").try_into(), Err(FormError::TooLong));
    assert_eq!(form(true, false, "0:0:18446744073709552").try_into(), Err(FormError::TooLong));
    assert_eq!(
        form(true, false, "0:0:18446744073709551").try_into(),
        Ok(entry(1, 18_446_744_073_709_551_000))
    );
}
