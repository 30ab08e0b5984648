use acter_core::activities::feed::Activities;
use acter_core::client::Client;
use acter_core::error::CoreError;
use acter_core::meta::EventMeta;
use acter_core::models::any::AnyActerModel;
use acter_core::models::pins::Pin;
use acter_core::models::relations::{BareEvent, Comment, Reaction};
use acter_core::content::TextContent;
use acter_core::referencing::IndexKey;
use acter_core::store::Store;

fn meta(event_id: &str, room: &str) -> EventMeta {
    EventMeta {
        event_id: event_id.to_owned(),
        room_id: room.to_owned(),
        sender: "@alice:example.org".to_owned(),
        origin_server_ts: 1,
        event_type: "test".to_owned(),
    }
}

fn pin(id: &str, room: &str) -> AnyActerModel {
    AnyActerModel::Pin(Pin {
        meta: meta(id, room),
        title: id.to_owned(),
        description: None,
        url: None,
    })
}

fn store_of(n: usize) -> Store {
    let mut store = Store::new();
    for i in 0..n {
        store.put(pin(&format!("${i}"), "!r"));
        store.put(AnyActerModel::ReadReceipt(BareEvent {
            meta: meta(&format!("$receipt{i}"), "!r"),
            refers_to: Some(format!("${i}")),
        }));
        store.put(pin(&format!("$elsewhere{i}"), "!other"));
    }
    store
}

fn room() -> Activities {
    Activities { index: IndexKey::RoomHistory("!r".to_owned()) }
}

fn expected(from: usize, to: usize) -> Vec<String> {
    (from..to).map(|i| format!("${i}")).collect()
}

#[test]
fn pages_are_disjoint_and_in_order() {
    let store = store_of(25);
    let feed = room();
    let first = feed.get_ids(&store, 0, 10);
    let second = feed.get_ids(&store, 10, 10);
    let third = feed.get_ids(&store, 20, 10);
    assert_eq!(first, expected(0, 10));
    assert_eq!(second, expected(10, 20));
    assert_eq!(third, expected(20, 25));
    for id in &first {
        assert!(!second.contains(id));
    }
    let mut joined = first.clone();
    joined.extend(second.clone());
    assert_eq!(joined, feed.get_ids(&store, 0, 20));
    assert_eq!(feed.get_ids(&store, 0, 10), first);
}

#[test]
fn pages_at_the_edges() {
    let store = store_of(3);
    let feed = room();
    assert!(feed.get_ids(&store, 0, 0).is_empty());
    assert!(feed.get_ids(&store, 3, 10).is_empty());
    assert!(feed.get_ids(&store, 100, 10).is_empty());
    assert_eq!(feed.get_ids(&store, 2, 10), expected(2, 3));
    assert_eq!(feed.get_ids(&store, 0, u32::MAX), expected(0, 3));
    assert_eq!(feed.get_ids(&store, u32::MAX, u32::MAX), Vec::<String>::new());
    assert!(room().get_ids(&Store::new(), 0, 10).is_empty());
}

#[test]
fn events_without_activity_are_not_in_the_feed() {
    let mut store = Store::new();
    store.put(pin("$a", "!r"));
    store.put(AnyActerModel::Story(BareEvent { meta: meta("$story", "!r"), refers_to: None }));
    store.put(AnyActerModel::Comment(Comment {
        meta: meta("$c", "!r"),
        on: "$a".to_owned(),
        content: TextContent { body: "hi".to_owned(), formatted_body: None },
    }));
    store.put(AnyActerModel::RedactedActerModel(BareEvent {
        meta: meta("$red", "!r"),
        refers_to: None,
    }));
    store.put(AnyActerModel::Reaction(Reaction {
        meta: meta("$like", "!r"),
        relates_to: "$a".to_owned(),
        key: "👍".to_owned(),
    }));
    assert_eq!(room().get_ids(&store, 0, 10), vec!["$a", "$c", "$like"]);
    assert_eq!(room().get_ids(&store, 1, 1), vec!["$c"]);
    let object = Activities { index: IndexKey::ObjectHistory("$a".to_owned()) };
    assert_eq!(object.get_ids(&store, 0, 10), vec!["$a", "$c", "$like"]);
    let other = Activities { index: IndexKey::ObjectHistory("$c".to_owned()) };
    assert!(other.get_ids(&store, 0, 10).is_empty());
    assert!(object.subscribe().same(&IndexKey::ObjectHistory("$a".to_owned())));
}

#[test]
fn feeds_are_made_from_valid_ids_only() {
    let client = Client::new("@me:example.org".to_owned());
    let feed = client.activities_for_room("!r:example.org".to_owned()).expect("a room id");
    assert!(feed.index.same(&IndexKey::RoomHistory("!r:example.org".to_owned())));
    assert_eq!(
        client.activities_for_room("r:example.org".to_owned()).err(),
        Some(CoreError::InvalidId)
    );
    assert_eq!(
        client.activities_for_room("$r:example.org".to_owned()).err(),
        Some(CoreError::InvalidId)
    );
    let feed = client.activities_for_obj("$obj".to_owned()).expect("an event id");
    assert!(feed.index.same(&IndexKey::ObjectHistory("$obj".to_owned())));
    assert_eq!(client.activities_for_obj("obj".to_owned()).err(), Some(CoreError::InvalidId));
    assert_eq!(CoreError::InvalidId.message(), "Not a valid identifier");
}
