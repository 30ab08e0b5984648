use acter_core::error::CoreError;
use acter_core::meta::EventMeta;
use acter_core::models::any::AnyActerModel;
use acter_core::models::pins::Pin;
use acter_core::models::relations::Reaction;
use acter_core::reactions::{ReactionManager, ReactionRecord};
use acter_core::referencing::IndexKey;
use acter_core::store::Store;

fn reaction(id: &str, sender: &str, target: &str, key: &str, ts: u64) -> Reaction {
    Reaction {
        meta: EventMeta {
            event_id: id.to_owned(),
            room_id: "!room:example.org".to_owned(),
            sender: sender.to_owned(),
            origin_server_ts: ts,
            event_type: "m.reaction".to_owned(),
        },
        relates_to: target.to_owned(),
        key: key.to_owned(),
    }
}

fn manager() -> ReactionManager {
    ReactionManager::new("$T".to_owned(), "@me:example.org".to_owned())
}

#[test]
fn no_reaction_no_entries() {
    let m = manager();
    assert!(!m.has_reaction_entries());
    assert_eq!(m.total_reaction_count(), 0);
    assert!(m.entries().is_empty());
    assert_eq!(m.event_id(), "$T");
    let stats = m.stats();
    assert!(!stats.has_reaction_entries());
    assert_eq!(stats.total_reaction_count(), 0);
}

#[test]
fn second_reaction_of_a_sender_replaces_the_first() {
    let mut m = manager();
    assert!(m.add_reaction_entry(&reaction("$1", "@s:example.org", "$T", "👍", 10)));
    assert!(m.add_reaction_entry(&reaction("$2", "@s:example.org", "$T", "❤️", 20)));
    let entries = m.entries();
    assert_eq!(entries.len(), 1);
    assert_eq!(entries[0].sender, "@s:example.org");
    assert_eq!(entries[0].key, "❤️");
    assert_eq!(entries[0].event_id, "$2");
    assert_eq!(entries[0].timestamp, 20);
    assert!(!entries[0].sent_by_me);
    assert_eq!(m.total_reaction_count(), 1);
    assert!(m.has_reaction_entries());
    m.senders_are_distinct();
}

#[test]
fn each_sender_has_one_entry_in_the_order_of_first_reaction() {
    let mut m = manager();
    m.add_reaction_entry(&reaction("$1", "@a:example.org", "$T", "👍", 1));
    m.add_reaction_entry(&reaction("$2", "@me:example.org", "$T", "🎉", 2));
    m.add_reaction_entry(&reaction("$3", "@a:example.org", "$T", "👎", 3));
    m.add_reaction_entry(&reaction("$4", "@b:example.org", "$T", "👍", 4));
    let entries = m.entries();
    let seen: Vec<(&str, &str, bool)> =
        entries.iter().map(|e| (e.sender.as_str(), e.key.as_str(), e.sent_by_me)).collect();
    assert_eq!(
        seen,
        vec![
            ("@a:example.org", "👎", false),
            ("@me:example.org", "🎉", true),
            ("@b:example.org", "👍", false),
        ]
    );
    assert_eq!(m.stats().total_reaction_count, 3);
    let record = entries[1].record();
    assert_eq!(record.sender_id(), "@me:example.org");
    assert_eq!(record.timestamp(), 2);
    assert!(record.sent_by_me());
    let records = m.records();
    let seen: Vec<(String, u64, bool)> =
        records.iter().map(|r| (r.sender_id(), r.timestamp(), r.sent_by_me())).collect();
    assert_eq!(
        seen,
        vec![
            ("@a:example.org".to_owned(), 3, false),
            ("@me:example.org".to_owned(), 2, true),
            ("@b:example.org".to_owned(), 4, false),
        ]
    );
}

#[test]
fn reaction_to_another_object_is_ignored() {
    let mut m = manager();
    assert!(!m.add_reaction_entry(&reaction("$1", "@a:example.org", "$other", "👍", 1)));
    assert_eq!(m.total_reaction_count(), 0);
    let not_a_reaction = AnyActerModel::Pin(Pin {
        meta: reaction("$p", "@a:example.org", "$T", "", 1).meta,
        title: "T".to_owned(),
        description: None,
        url: None,
    });
    assert!(!m.add_event(&not_a_reaction));
    assert!(m.add_event(&AnyActerModel::Reaction(reaction("$2", "@a:example.org", "$T", "👍", 1))));
    assert_eq!(m.total_reaction_count(), 1);
}

#[test]
fn manager_folds_what_the_store_holds() {
    let mut store = Store::new();
    store.put(AnyActerModel::Reaction(reaction("$1", "@a:example.org", "$T", "👍", 1)));
    store.put(AnyActerModel::Reaction(reaction("$2", "@b:example.org", "$other", "👍", 2)));
    store.put(AnyActerModel::Reaction(reaction("$3", "@a:example.org", "$T", "❤️", 3)));
    store.put(AnyActerModel::Reaction(reaction("$4", "@me:example.org", "$T", "👍", 4)));
    let m = ReactionManager::from_store_and_event_id(&store, "$T", "@me:example.org");
    assert_eq!(m.total_reaction_count(), 2);
    let resolved = m.reaction_entries(&store);
    let seen: Vec<(String, String, u64, String)> = resolved
        .iter()
        .map(|r| (r.sender(), r.key.clone(), r.origin_server_ts(), r.relates_to()))
        .collect();
    assert_eq!(
        seen,
        vec![
            ("@a:example.org".to_owned(), "❤️".to_owned(), 3, "$T".to_owned()),
            ("@me:example.org".to_owned(), "👍".to_owned(), 4, "$T".to_owned()),
        ]
    );
    store.redact("$3");
    assert_eq!(m.reaction_entries(&store).len(), 1);
    let again = ReactionManager::from_store_and_event_id(&store, "$T", "@me:example.org");
    let entries = again.entries();
    assert_eq!(entries.len(), 2);
    assert_eq!(entries[0].key, "👍");
    assert_eq!(entries[0].event_id, "$1");
}

#[test]
fn sending_needs_membership_and_permission() {
    let m = manager();
    let sent = m
        .try_send_reaction(Some(true), "$T".to_owned(), "👍".to_owned())
        .expect("may send");
    assert_eq!(sent.relates_to, "$T");
    assert_eq!(sent.key, "👍");
    assert_eq!(
        m.try_send_reaction(Some(false), "$T".to_owned(), "👍".to_owned()).err(),
        Some(CoreError::PermissionDenied)
    );
    assert_eq!(
        m.try_send_reaction(None, "$T".to_owned(), "👍".to_owned()).err(),
        Some(CoreError::NotAMember)
    );
    assert_eq!(
        m.try_send_reaction(Some(true), "not an id".to_owned(), "👍".to_owned()).err(),
        Some(CoreError::InvalidId)
    );
    assert_eq!(
        m.try_send_reaction(None, "not an id".to_owned(), "👍".to_owned()).err(),
        Some(CoreError::InvalidId)
    );
    let direct = m.send_reaction(Some(true), "$T".to_owned(), "🎉".to_owned()).expect("may send");
    assert_eq!(direct.key, "🎉");
    assert_eq!(CoreError::PermissionDenied.message(), "No permission to send message in this room");
    assert_eq!(CoreError::NotAMember.message(), "Couldn't find me among room members");
}

#[test]
fn changes_are_announced_under_the_object() {
    match manager().subscribe() {
        IndexKey::ObjectHistory(id) => assert_eq!(id, "$T"),
        other => panic!("object history expected, got {:?}", other),
    }
}

#[test]
fn reaction_record_getters() {
    let record = ReactionRecord::new("@a:example.org".to_owned(), 17, true);
    assert_eq!(record.sender_id(), "@a:example.org");
    assert_eq!(record.timestamp(), 17);
    assert!(record.sent_by_me());
    assert_eq!(record.clone().timestamp(), 17);
}
