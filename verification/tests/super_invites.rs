use acter_core::super_invites::{
    SuperInviteToken, SuperInvites, SuperInvitesTokenUpdateBuilder, Token, TokenRequest,
};

fn rooms(names: &[&str]) -> Vec<String> {
    names.iter().map(|n| (*n).to_owned()).collect()
}

#[test]
fn token_getters() {
    let token = SuperInviteToken::new(Token {
        token: "WELCOME".to_owned(),
        create_dm: true,
        accepted_count: 3,
        rooms: rooms(&["!a:example.org", "!b:example.org"]),
    });
    assert_eq!(token.token(), "WELCOME");
    assert!(token.create_dm());
    assert_eq!(token.accepted_count(), 3);
    assert_eq!(token.rooms(), rooms(&["!a:example.org", "!b:example.org"]));
    let builder = token.update_builder();
    assert_eq!(builder.token.token, Some("WELCOME".to_owned()));
    assert_eq!(builder.token.create_dm, Some(true));
    assert_eq!(builder.token.rooms, rooms(&["!a:example.org", "!b:example.org"]));
}

#[test]
fn builder_collects_rooms() {
    let mut builder = SuperInvitesTokenUpdateBuilder::new();
    assert!(!builder.has_token());
    assert!(builder.token.rooms.is_empty());
    assert_eq!(builder.token.create_dm, None);
    builder.add_room("!a".to_owned());
    builder.add_room("!b".to_owned());
    builder.add_room("!a".to_owned());
    builder.add_room("!c".to_owned());
    assert_eq!(builder.token.rooms, rooms(&["!a", "!b", "!a", "!c"]));
    builder.remove_room("!a".to_owned());
    assert_eq!(builder.token.rooms, rooms(&["!b", "!c"]));
    builder.remove_room("!nowhere".to_owned());
    assert_eq!(builder.token.rooms, rooms(&["!b", "!c"]));
    builder.token("NAME".to_owned());
    assert!(builder.has_token());
    builder.create_dm(false);
    assert_eq!(builder.token.create_dm, Some(false));
    assert_eq!(builder.token.rooms, rooms(&["!b", "!c"]));
}

#[test]
fn builder_without_a_name_updates_nothing() {
    let mut builder = SuperInvitesTokenUpdateBuilder::new();
    builder.add_room("!a".to_owned());
    assert!(builder.into_update_token().is_none());

    let mut named = SuperInvitesTokenUpdateBuilder::new();
    named.token("NAME".to_owned());
    named.add_room("!a".to_owned());
    let update = named.into_update_token().expect("has a name");
    assert_eq!(update.token, "NAME");
    assert!(!update.create_dm);
    assert_eq!(update.rooms, rooms(&["!a"]));

    let mut with_dm = SuperInvitesTokenUpdateBuilder::new();
    with_dm.token("NAME".to_owned());
    with_dm.create_dm(true);
    assert!(with_dm.into_update_token().unwrap().create_dm);
}

#[test]
fn named_token_is_updated_and_unnamed_created() {
    let mut named = SuperInvitesTokenUpdateBuilder::new();
    named.token("NAME".to_owned());
    named.add_room("!a".to_owned());
    match SuperInvites::create_or_update_token(named) {
        TokenRequest::Update(update) => {
            assert_eq!(update.token, "NAME");
            assert!(!update.create_dm);
            assert_eq!(update.rooms, rooms(&["!a"]));
        }
        other => panic!("update expected, got {:?}", other),
    }
    let mut unnamed = SuperInvitesTokenUpdateBuilder::new();
    unnamed.create_dm(true);
    unnamed.add_room("!b".to_owned());
    match SuperInvites::create_or_update_token(unnamed) {
        TokenRequest::Create(create) => {
            assert_eq!(create.token, None);
            assert_eq!(create.create_dm, Some(true));
            assert_eq!(create.rooms, rooms(&["!b"]));
        }
        other => panic!("create expected, got {:?}", other),
    }
}
