use acter_core::error::CoreError;
use acter_core::invitations::InvitationsManager;
use acter_core::meta::EventMeta;
use acter_core::models::any::AnyActerModel;
use acter_core::models::relations::{ExplicitInvite, Reaction};
use acter_core::referencing::IndexKey;
use acter_core::store::Store;

fn meta(id: &str) -> EventMeta {
    EventMeta {
        event_id: id.to_owned(),
        room_id: "!room:example.org".to_owned(),
        sender: "@alice:example.org".to_owned(),
        origin_server_ts: 1,
        event_type: "global.acter.dev.invite".to_owned(),
    }
}

fn invite(id: &str, to: &str, users: &[&str]) -> AnyActerModel {
    AnyActerModel::ExplicitInvite(ExplicitInvite {
        meta: meta(id),
        to: to.to_owned(),
        user_ids: users.iter().map(|u| (*u).to_owned()).collect(),
    })
}

#[test]
fn nobody_is_invited_at_first() {
    let m = InvitationsManager::empty("$o".to_owned());
    assert!(!m.has_invitations());
    assert!(m.invited().is_empty());
    assert!(!m.is_invited("@bob:example.org"));
    assert_eq!(m.event_id(), "$o");
}

#[test]
fn inviting_twice_is_inviting_once() {
    let mut m = InvitationsManager::empty("$o".to_owned());
    assert!(m.add_invitee("@bob:example.org"));
    assert!(!m.add_invitee("@bob:example.org"));
    assert!(m.add_invitee("@carol:example.org"));
    assert_eq!(m.invited(), vec!["@bob:example.org", "@carol:example.org"]);
    assert!(m.is_invited("@bob:example.org"));
    assert!(!m.is_invited("@dave:example.org"));
    assert!(m.has_invitations());
    m.invitees_are_distinct();
}

#[test]
fn invitations_fold_in_the_order_of_arrival() {
    let mut store = Store::new();
    store.put(invite("$1", "$o", &["@bob:example.org", "@carol:example.org"]));
    store.put(invite("$2", "$other", &["@eve:example.org"]));
    store.put(invite("$3", "$o", &["@carol:example.org", "@dave:example.org", "@dave:example.org"]));
    store.put(AnyActerModel::Reaction(Reaction {
        meta: meta("$4"),
        relates_to: "$o".to_owned(),
        key: "👍".to_owned(),
    }));
    let m = InvitationsManager::new(&store, "$o");
    assert_eq!(m.invited(), vec!["@bob:example.org", "@carol:example.org", "@dave:example.org"]);
    let same = InvitationsManager::from_store_and_event_id(&store, "$o");
    assert_eq!(same.invited(), m.invited());

    store.put(invite("$5", "$o", &["@frank:example.org"]));
    assert_eq!(m.invited().len(), 3);
    let reloaded = m.reload(&store);
    assert_eq!(
        reloaded.invited(),
        vec!["@bob:example.org", "@carol:example.org", "@dave:example.org", "@frank:example.org"]
    );
    assert_eq!(reloaded.event_id(), "$o");
}

#[test]
fn invite_checks_the_user_id() {
    let mut m = InvitationsManager::empty("$o".to_owned());
    m.add_invitee("@bob:example.org");
    let draft = m.invite("@carol:example.org".to_owned()).expect("a user id");
    assert_eq!(draft.to, "$o");
    assert_eq!(draft.user_id, "@carol:example.org");
    let again = m.invite("@bob:example.org".to_owned()).expect("already invited, still sent");
    assert_eq!(again.user_id, "@bob:example.org");
    assert_eq!(m.invite("carol".to_owned()).err(), Some(CoreError::InvalidId));
    assert_eq!(m.invite("@carol".to_owned()).err(), Some(CoreError::InvalidId));
    assert_eq!(m.invited(), vec!["@bob:example.org"]);
}

#[test]
fn invitation_changes_are_announced_under_the_object() {
    let manager = InvitationsManager::empty("$o".to_owned());
    match manager.update_key() {
        IndexKey::ObjectHistory(id) => assert_eq!(id, "$o"),
        other => panic!("object history expected, got {:?}", other),
    }
    assert!(manager.subscribe().same(&IndexKey::ObjectHistory("$o".to_owned())));
}
