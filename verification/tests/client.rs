use acter_core::client::Client;
use acter_core::device::{CryptoDevice, DeviceInfo};
use acter_core::error::CoreError;
use acter_core::push::{NotificationItem, PusherKind};

fn device(id: &str) -> DeviceInfo {
    DeviceInfo {
        device_id: id.to_owned(),
        display_name: None,
        last_seen_ts: Some(1_700_000_000_000),
        last_seen_ip: None,
        crypto: Some(CryptoDevice { cross_signed_by_owner: true, verified_with_cross_signing: false }),
    }
}

#[test]
fn a_new_client_has_no_device() {
    let client = Client::new("@me:example.org".to_owned());
    assert_eq!(client.user_id, "@me:example.org");
    assert_eq!(client.device_id, None);
    assert_eq!(client.store().len(), 0);
}

#[test]
fn http_pusher_needs_a_device() {
    let mut client = Client::new("@me:example.org".to_owned());
    let add = |client: &Client| {
        client.add_pusher(
            "global.acter.a3".to_owned(),
            "token".to_owned(),
            "My phone".to_owned(),
            "Acter".to_owned(),
            "https://push.example.org".to_owned(),
            false,
            None,
        )
    };
    assert_eq!(add(&client).err(), Some(CoreError::DeviceIdNotFound));
    assert_eq!(CoreError::DeviceIdNotFound.message(), "DeviceId not found");
    client.device_id = Some("DEVICE".to_owned());
    let pusher = add(&client).expect("has a device");
    assert_eq!(pusher.pushkey(), "token");
    assert_eq!(pusher.lang(), "en");
    match &pusher.kind {
        PusherKind::Http { url, device_id, ios_defaults } => {
            assert_eq!(url, "https://push.example.org");
            assert_eq!(device_id, "DEVICE");
            assert!(!*ios_defaults);
        }
        other => panic!("http pusher expected, got {:?}", other),
    }
}

#[test]
fn email_pusher_needs_no_device() {
    let client = Client::new("@me:example.org".to_owned());
    let pusher = client.add_email_pusher(
        "My phone".to_owned(),
        "Acter".to_owned(),
        "me@example.org".to_owned(),
        Some("fr".to_owned()),
    );
    assert!(pusher.is_email_pusher());
    assert_eq!(pusher.pushkey(), "me@example.org");
    assert_eq!(pusher.app_id(), "m.email");
    assert_eq!(pusher.lang(), "fr");
}

#[test]
fn device_records_mark_the_own_device() {
    let mut client = Client::new("@me:example.org".to_owned());
    let devices = vec![device("A"), device("B")];
    assert_eq!(
        client.device_records(&devices, 1_800_000_000, true).err(),
        Some(CoreError::DeviceIdNotFound)
    );
    assert_eq!(client.device_records(&devices, 0, true).err(), Some(CoreError::DeviceIdNotFound));
    client.device_id = Some("B".to_owned());
    let records = client.device_records(&devices, 1_800_000_000, true).expect("has a device");
    assert_eq!(records.iter().map(|r| r.is_me()).collect::<Vec<_>>(), vec![false, true]);
    assert_eq!(records.iter().map(|r| r.is_active()).collect::<Vec<_>>(), vec![true, true]);
    assert_eq!(client.device_records(&devices, 0, true).err(), Some(CoreError::ClockOutOfRange));
    assert!(client.device_records(&devices, 1_800_000_000, false).unwrap().is_empty());
}

#[test]
fn notification_item_is_handed_on_under_its_room() {
    let client = Client::new("@me:example.org".to_owned());
    let item = || NotificationItem {
        room_id: String::new(),
        is_invite: false,
        sender_display_name: Some("Alice".to_owned()),
        sender_avatar_url: None,
        room_display_name: "Lobby".to_owned(),
        room_avatar_url: None,
        room_canonical_alias: None,
        is_room_encrypted: None,
        is_direct_message_room: true,
        joined_members_count: 2,
        is_noisy: Some(true),
    };
    let found = client
        .get_notification_item("!r:example.org".to_owned(), "$e".to_owned(), Some(item()))
        .expect("valid ids and something to show");
    assert_eq!(found.room_id, "!r:example.org");
    assert_eq!(found.room_display_name(), "Lobby");
    assert_eq!(found.joined_members_count(), 2);
    assert_eq!(
        client.get_notification_item("!r:example.org".to_owned(), "$e".to_owned(), None).err(),
        Some(CoreError::HiddenNotification)
    );
    assert_eq!(
        client.get_notification_item("r".to_owned(), "$e".to_owned(), Some(item())).err(),
        Some(CoreError::InvalidId)
    );
    assert_eq!(
        client.get_notification_item("!r:example.org".to_owned(), "e".to_owned(), None).err(),
        Some(CoreError::InvalidId)
    );
    assert_eq!(CoreError::HiddenNotification.message(), "(hidden notification)");
}
