use acter_core::device::{
    any_last_seen, device_records, CryptoDevice, DeviceChangedEvent, DeviceController,
    DeviceEvent, DeviceInfo, DeviceNewEvent, NINETY_DAYS,
};
use acter_core::error::CoreError;

const NOW: u64 = 1_700_000_000;

fn device(id: &str, last_seen_secs: Option<u64>, crypto: Option<(bool, bool)>) -> DeviceInfo {
    DeviceInfo {
        device_id: id.to_owned(),
        display_name: Some(format!("name of {id}")),
        last_seen_ts: last_seen_secs.map(|s| s * 1000 + 999),
        last_seen_ip: Some("10.0.0.1".to_owned()),
        crypto: crypto.map(|(cross_signed_by_owner, verified_with_cross_signing)| CryptoDevice {
            cross_signed_by_owner,
            verified_with_cross_signing,
        }),
    }
}

#[test]
fn ninety_days_in_seconds() {
    assert_eq!(NINETY_DAYS, 90 * 24 * 60 * 60);
}

#[test]
fn verified_devices_are_those_signed_or_cross_verified() {
    let devices = vec![
        device("SIGNED", None, Some((true, false))),
        device("CROSS", None, Some((false, true))),
        device("BOTH", None, Some((true, true))),
        device("KNOWN", None, Some((false, false))),
        device("UNKNOWN", None, None),
    ];
    let verified = device_records(&devices, NOW, true, "BOTH").expect("clock is fine");
    let ids: Vec<String> = verified.iter().map(|r| r.device_id()).collect();
    assert_eq!(ids, vec!["SIGNED", "CROSS", "BOTH"]);
    assert!(verified.iter().all(|r| r.is_verified()));
    assert_eq!(verified.iter().map(|r| r.is_me()).collect::<Vec<_>>(), vec![false, false, true]);

    let unverified = device_records(&devices, NOW, false, "BOTH").expect("clock is fine");
    let ids: Vec<String> = unverified.iter().map(|r| r.device_id()).collect();
    assert_eq!(ids, vec!["KNOWN", "UNKNOWN"]);
    assert!(unverified.iter().all(|r| !r.is_verified() && !r.is_me()));
}

#[test]
fn last_seen_is_told_of_known_devices_only() {
    let devices = vec![
        device("KNOWN", Some(NOW), Some((false, false))),
        device("UNKNOWN", Some(NOW), None),
    ];
    let records = device_records(&devices, NOW, false, "X").unwrap();
    assert_eq!(records[0].last_seen_ts(), Some(NOW * 1000 + 999));
    assert_eq!(records[0].last_seen_ip(), Some("10.0.0.1".to_owned()));
    assert_eq!(records[0].display_name(), Some("name of KNOWN".to_owned()));
    assert_eq!(records[1].last_seen_ts(), None);
    assert_eq!(records[1].last_seen_ip(), None);
    assert_eq!(records[1].display_name(), Some("name of UNKNOWN".to_owned()));
}

#[test]
fn active_flag_is_set_for_devices_last_seen_before_the_limit() {
    let limit = NOW - NINETY_DAYS;
    let devices = vec![
        device("BEFORE", Some(limit - 1), Some((true, false))),
        device("AT", Some(limit), Some((true, false))),
        device("AFTER", Some(limit + 1), Some((true, false))),
        device("NEVER", None, Some((true, false))),
    ];
    let records = device_records(&devices, NOW, true, "X").unwrap();
    let flags: Vec<bool> = records.iter().map(|r| r.is_active()).collect();
    assert_eq!(flags, vec![true, false, false, false]);
}

#[test]
fn clock_near_the_epoch_cannot_look_back() {
    let seen = vec![device("A", None, None), device("B", Some(5), None)];
    assert_eq!(
        device_records(&seen, NINETY_DAYS - 1, true, "X").err(),
        Some(CoreError::ClockOutOfRange)
    );
    assert_eq!(
        device_records(&seen, 0, false, "X").err(),
        Some(CoreError::ClockOutOfRange)
    );
    let at_limit = device_records(&seen, NINETY_DAYS, false, "X").expect("just enough");
    assert_eq!(at_limit.len(), 2);
    assert!(!at_limit[1].is_active());

    assert!(any_last_seen(&seen));
    let never_seen = vec![device("A", None, None)];
    assert!(!any_last_seen(&never_seen));
    assert!(!any_last_seen(&Vec::new()));
    let early = device_records(&never_seen, 0, false, "A").unwrap();
    let late = device_records(&never_seen, 1_800_000_000, false, "A").unwrap();
    assert_eq!(early.len(), late.len());
    assert_eq!(early[0].is_active(), late[0].is_active());
    let records = device_records(&never_seen, 0, false, "A").expect("nothing to hold against");
    assert_eq!(records.len(), 1);
    assert!(records[0].is_me());
    assert!(device_records(&Vec::new(), 0, true, "A").unwrap().is_empty());
    assert_eq!(CoreError::ClockOutOfRange.message(), "Unable to get time of 90 days ago");
}

#[test]
fn device_list_updates_are_announced_new_first() {
    let new = vec!["N1".to_owned(), "N2".to_owned()];
    let changed = vec!["C1".to_owned()];
    let events = DeviceController::on_update(true, &new, &changed).expect("logged in");
    let seen: Vec<String> = events
        .iter()
        .map(|e| match e {
            DeviceEvent::New(e) => format!("new {}", e.device_id()),
            DeviceEvent::Changed(e) => format!("changed {}", e.device_id()),
        })
        .collect();
    assert_eq!(seen, vec!["new N1", "new N2", "changed C1"]);
    assert!(DeviceController::on_update(true, &Vec::new(), &Vec::new()).unwrap().is_empty());
    assert!(DeviceController::on_update(false, &new, &changed).is_none());
    assert_eq!(DeviceNewEvent::new("D".to_owned()).device_id(), "D");
    assert_eq!(DeviceChangedEvent::new("D".to_owned()).device_id(), "D");
}
