use acter_core::error::CoreError;
use acter_core::push::{
    default_mode_from_input, notification_mode_from_input, room_notification_mode_name,
    NotificationItem, Pusher, PusherKind, RoomNotificationMode,
};

#[test]
fn modes_have_names() {
    assert_eq!(room_notification_mode_name(&RoomNotificationMode::AllMessages), "all");
    assert_eq!(
        room_notification_mode_name(&RoomNotificationMode::MentionsAndKeywordsOnly),
        "mentions"
    );
    assert_eq!(room_notification_mode_name(&RoomNotificationMode::Mute), "muted");
}

#[test]
fn input_is_trimmed_and_lowered() {
    assert_eq!(notification_mode_from_input("all"), Some(RoomNotificationMode::AllMessages));
    assert_eq!(notification_mode_from_input("  ALL \n"), Some(RoomNotificationMode::AllMessages));
    assert_eq!(
        notification_mode_from_input("\tMentions"),
        Some(RoomNotificationMode::MentionsAndKeywordsOnly)
    );
    assert_eq!(notification_mode_from_input("MUTED"), Some(RoomNotificationMode::Mute));
    assert_eq!(notification_mode_from_input("mute"), None);
    assert_eq!(notification_mode_from_input(""), None);
    assert_eq!(notification_mode_from_input("a ll"), None);
    assert_eq!(RoomNotificationMode::from_name("all"), Some(RoomNotificationMode::AllMessages));
    assert_eq!(RoomNotificationMode::from_name(" all"), None);
    assert_eq!(RoomNotificationMode::from_name("ALL"), None);
}

#[test]
fn unknown_default_mode_is_an_error() {
    assert_eq!(default_mode_from_input(" Muted "), Ok(RoomNotificationMode::Mute));
    assert_eq!(default_mode_from_input("loud"), Err(CoreError::UnknownNotificationMode));
    assert_eq!(CoreError::UnknownNotificationMode.message(), "Unknown Notification Level");
}

#[test]
fn email_pusher() {
    let pusher = Pusher::new_email(
        "My phone".to_owned(),
        "Acter".to_owned(),
        "alice@example.org".to_owned(),
        None,
    );
    assert!(pusher.is_email_pusher());
    assert_eq!(pusher.pushkey(), "alice@example.org");
    assert_eq!(pusher.app_id(), "m.email");
    assert_eq!(pusher.app_display_name(), "Acter");
    assert_eq!(pusher.device_display_name(), "My phone");
    assert_eq!(pusher.lang(), "en");
    assert_eq!(pusher.profile_tag(), None);
}

#[test]
fn http_pusher() {
    let pusher = Pusher::new_http(
        "global.acter.a3".to_owned(),
        "token".to_owned(),
        "My phone".to_owned(),
        "Acter".to_owned(),
        "https://push.example.org/_matrix/push/v1/notify".to_owned(),
        true,
        Some("de".to_owned()),
        "DEVICE".to_owned(),
    );
    assert!(!pusher.is_email_pusher());
    assert_eq!(pusher.pushkey(), "token");
    assert_eq!(pusher.app_id(), "global.acter.a3");
    assert_eq!(pusher.lang(), "de");
    match &pusher.kind {
        PusherKind::Http { url, device_id, ios_defaults } => {
            assert_eq!(url, "https://push.example.org/_matrix/push/v1/notify");
            assert_eq!(device_id, "DEVICE");
            assert!(*ios_defaults);
        }
        other => panic!("http pusher expected, got {:?}", other),
    }
}

#[test]
fn notification_item_getters() {
    let item = NotificationItem {
        room_id: "!r:example.org".to_owned(),
        is_invite: true,
        sender_display_name: Some("Alice".to_owned()),
        sender_avatar_url: None,
        room_display_name: "Lobby".to_owned(),
        room_avatar_url: Some("mxc://x/y".to_owned()),
        room_canonical_alias: None,
        is_room_encrypted: Some(false),
        is_direct_message_room: false,
        joined_members_count: 3,
        is_noisy: None,
    };
    assert!(item.is_invite());
    assert_eq!(item.sender_display_name(), Some("Alice".to_owned()));
    assert_eq!(item.sender_avatar_url(), None);
    assert_eq!(item.room_display_name(), "Lobby");
    assert_eq!(item.room_avatar_url(), Some("mxc://x/y".to_owned()));
    assert_eq!(item.room_canonical_alias(), None);
    assert_eq!(item.is_room_encrypted(), Some(false));
    assert!(!item.is_direct_message_room());
    assert_eq!(item.joined_members_count(), 3);
    assert_eq!(item.is_noisy(), None);
    assert_eq!(item.clone().room_id, "!r:example.org");
}
