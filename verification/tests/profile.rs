use acter_core::profile::{
    DisplayName, ProfileData, ProfileSource, PublicProfile, RoomProfile, UserProfile,
};

fn data(name: Option<&str>, avatar: Option<&str>) -> ProfileData {
    ProfileData {
        display_name: name.map(|n| n.to_owned()),
        avatar_url: avatar.map(|a| a.to_owned()),
    }
}

#[test]
fn account_answers_before_room_and_directory() {
    let mut profile = UserProfile::from_account(data(Some("Account"), None), "@a:x.org".to_owned());
    profile.member = Some(data(Some("Member"), Some("mxc://x/member")));
    profile.public_profile =
        Some(PublicProfile::new("@a:x.org".to_owned(), data(Some("Public"), Some("mxc://x/p"))));
    assert_eq!(profile.source(), ProfileSource::Account);
    assert_eq!(profile.get_display_name().inner(), Some("Account".to_owned()));
    assert!(!profile.has_avatar());
    assert_eq!(profile.get_avatar().inner(), None);

    profile.account = None;
    assert_eq!(profile.source(), ProfileSource::Member);
    assert_eq!(profile.get_display_name().inner(), Some("Member".to_owned()));
    assert!(profile.has_avatar());
    assert_eq!(profile.get_avatar().inner(), Some("mxc://x/member".to_owned()));

    profile.member = None;
    assert_eq!(profile.source(), ProfileSource::Search);
    assert_eq!(profile.get_display_name().inner(), Some("Public".to_owned()));
    assert_eq!(profile.get_avatar().inner(), Some("mxc://x/p".to_owned()));

    profile.public_profile = None;
    assert_eq!(profile.source(), ProfileSource::Nothing);
    assert_eq!(profile.get_display_name().inner(), None);
    assert!(!profile.has_avatar());
    assert_eq!(profile.user_id(), "@a:x.org");
}

#[test]
fn profile_constructors() {
    let member = UserProfile::from_member(data(None, Some("mxc://x/y")), "@m:x.org".to_owned());
    assert_eq!(member.user_id(), "@m:x.org");
    assert_eq!(member.source(), ProfileSource::Member);
    assert!(member.has_avatar());
    assert_eq!(member.get_display_name().inner(), None);

    let found = UserProfile::from_search(PublicProfile::new(
        "@s:x.org".to_owned(),
        data(Some("Sam"), None),
    ));
    assert_eq!(found.user_id(), "@s:x.org");
    assert_eq!(found.public_profile.as_ref().map(|p| p.user_id.as_str()), Some("@s:x.org"));
    assert_eq!(found.source(), ProfileSource::Search);
    assert_eq!(found.get_display_name().inner(), Some("Sam".to_owned()));
}

#[test]
fn room_names() {
    let room = RoomProfile::new("!r:x.org".to_owned());
    assert_eq!(room.room_id, "!r:x.org");
    let name = |n: DisplayName| room.get_display_name(n).inner();
    assert_eq!(name(DisplayName::Named("Lobby".to_owned())), Some("Lobby".to_owned()));
    assert_eq!(name(DisplayName::Aliased("#lobby".to_owned())), Some("#lobby".to_owned()));
    assert_eq!(name(DisplayName::Calculated("A and B".to_owned())), Some("A and B".to_owned()));
    assert_eq!(name(DisplayName::EmptyWas("Old".to_owned())), Some("Old".to_owned()));
    assert_eq!(name(DisplayName::Empty), None);
    assert!(room.has_avatar(&Some("mxc://x/y".to_owned())));
    assert!(!room.has_avatar(&None));
}
