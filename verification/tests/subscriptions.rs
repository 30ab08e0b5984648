use acter_core::client::Client;
use acter_core::error::CoreError;
use acter_core::meta::EventMeta;
use acter_core::models::any::AnyActerModel;
use acter_core::models::pins::{Pin, PinUpdate};
use acter_core::models::relations::Reaction;
use acter_core::referencing::IndexKey;
use acter_core::subscriptions::Registry;
use acter_core::tristate::TriState;

fn meta(event_id: &str, room: &str) -> EventMeta {
    EventMeta {
        event_id: event_id.to_owned(),
        room_id: room.to_owned(),
        sender: "@alice:example.org".to_owned(),
        origin_server_ts: 1,
        event_type: "test".to_owned(),
    }
}

fn pin(id: &str, room: &str) -> AnyActerModel {
    AnyActerModel::Pin(Pin { meta: meta(id, room), title: id.to_owned(), description: None, url: None })
}

fn room(id: &str) -> IndexKey {
    IndexKey::RoomHistory(id.to_owned())
}

fn object(id: &str) -> IndexKey {
    IndexKey::ObjectHistory(id.to_owned())
}

#[test]
fn flags_coalesce_and_are_lowered_by_a_look() {
    let mut registry = Registry::new();
    assert!(!registry.is_raised(&room("!r")));
    assert!(!registry.take(&room("!r")));
    registry.notify(&room("!r"));
    registry.notify(&room("!r"));
    registry.notify(&object("!r"));
    assert!(registry.is_raised(&room("!r")));
    assert!(registry.take(&room("!r")));
    assert!(!registry.take(&room("!r")));
    assert!(registry.is_raised(&object("!r")));
    registry.notify_all(&vec![room("!a"), room("!b"), room("!a")]);
    assert!(registry.take(&room("!a")));
    assert!(!registry.take(&room("!a")));
    assert!(registry.take(&room("!b")));
    assert!(registry.take(&object("!r")));
    assert!(!registry.is_raised(&object("!r")));
}

#[test]
fn every_change_is_announced_at_least_once() {
    let mut client = Client::new("@me:example.org".to_owned());
    assert!(!client.poll(&room("!r")));
    client.put(pin("$a", "!r"));
    client.put(pin("$b", "!r"));
    assert!(client.poll(&room("!r")));
    assert!(!client.poll(&room("!r")));
    assert!(client.poll(&object("$a")));
    assert!(client.poll(&object("$b")));
    assert!(!client.poll(&object("$c")));

    client.put(AnyActerModel::PinUpdate(PinUpdate {
        meta: meta("$u", "!r"),
        pin: "$a".to_owned(),
        title: TriState::Value("renamed".to_owned()),
        description: TriState::Absent,
        url: TriState::Absent,
    }));
    assert!(client.poll(&object("$a")));
    assert!(!client.poll(&object("$b")));
    assert!(client.poll(&room("!r")));
}

#[test]
fn replayed_event_announces_nothing() {
    let mut client = Client::new("@me:example.org".to_owned());
    assert_eq!(client.put(pin("$a", "!r")).len(), 2);
    assert!(client.poll(&room("!r")));
    assert!(client.poll(&object("$a")));
    assert!(client.put(pin("$a", "!r")).is_empty());
    assert!(!client.poll(&room("!r")));
    assert!(!client.poll(&object("$a")));
    assert_eq!(client.store().len(), 1);
}

#[test]
fn waiting_for_a_reaction() {
    let mut client = Client::new("@me:example.org".to_owned());
    assert_eq!(client.wait_for_reaction("$r".to_owned()).err(), Some(CoreError::NotFound));
    client.put(pin("$a", "!r"));
    client.put(AnyActerModel::Reaction(Reaction {
        meta: meta("$r", "!r"),
        relates_to: "$a".to_owned(),
        key: "👍".to_owned(),
    }));
    let reaction = client.wait_for_reaction("$r".to_owned()).expect("has arrived");
    assert_eq!(reaction.relates_to(), "$a");
    assert_eq!(reaction.sender(), "@alice:example.org");
    assert_eq!(client.wait_for_reaction("$a".to_owned()).err(), Some(CoreError::UnexpectedKind));
    assert_eq!(CoreError::UnexpectedKind.message(), "Event is not of the expected kind");
    assert_eq!(client.reactions("$a").total_reaction_count(), 1);
    assert!(client.invitations("$a").invited().is_empty());
    assert_eq!(client.user_id, "@me:example.org");
}

#[test]
fn core_activity_reads_the_parent_from_the_store() {
    let mut client = Client::new("@me:example.org".to_owned());
    client.put(AnyActerModel::Reaction(Reaction {
        meta: meta("$early", "!r"),
        relates_to: "$a".to_owned(),
        key: "👍".to_owned(),
    }));
    let before = client.core.activity("$early").expect("reported without its parent");
    assert_eq!(before.object().unwrap().type_str(), "unknown");
    assert_eq!(before.object().unwrap().object_id_str(), "$a");
    client.put(pin("$a", "!r"));
    let after = client.core.activity("$early").expect("reported with its parent");
    assert_eq!(after.object().unwrap().type_str(), "pin");
    assert_eq!(after.object().unwrap().title(), Some("$a".to_owned()));
    client.core.store.redact("$a");
    let gone = client.core.activity("$early").expect("reported after the parent is gone");
    assert_eq!(gone.object().unwrap().type_str(), "unknown");
    assert_eq!(client.core.activity("$a").err(), Some(CoreError::NotFound));
}
