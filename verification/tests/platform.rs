use acter_core::ids::{event_id, room_id, user_id};
use acter_core::error::CoreError;
use acter_core::platform::{init_logging, sanitize};

#[test]
fn home_is_made_fit_for_a_file_system() {
    let path = sanitize(
        "/var/data".to_owned(),
        "Read: http://blog.getreu.net/projects/tp-note/".to_owned(),
    );
    assert_eq!(path.base, "/var/data");
    assert_eq!(path.leaf, "Read_ http_blog.getreu.net_projects_tp-note");
    let plain = sanitize("base".to_owned(), "alice".to_owned());
    assert_eq!(plain.base, "base");
    assert_eq!(plain.leaf, "alice");
    let user = sanitize("base".to_owned(), "@alice:example.org".to_owned());
    assert_eq!(user.leaf, "@alice_example.org");
}

#[test]
fn logging_needs_no_setup() {
    assert!(init_logging(None).is_ok());
    assert!(init_logging(Some("debug".to_owned())).is_ok());
}

#[test]
fn identifiers_are_checked() {
    assert_eq!(event_id("$abc").ok(), Some("$abc".to_owned()));
    assert_eq!(event_id("$abc:example.org").ok(), Some("$abc:example.org".to_owned()));
    assert_eq!(event_id("abc").err(), Some(CoreError::InvalidId));
    assert_eq!(event_id("").err(), Some(CoreError::InvalidId));
    assert_eq!(event_id("!abc:example.org").err(), Some(CoreError::InvalidId));
    assert_eq!(room_id("!abc:example.org").ok(), Some("!abc:example.org".to_owned()));
    assert_eq!(room_id("#abc:example.org").err(), Some(CoreError::InvalidId));
    assert_eq!(user_id("@alice:example.org").ok(), Some("@alice:example.org".to_owned()));
    assert_eq!(user_id("alice:example.org").err(), Some(CoreError::InvalidId));
    assert_eq!(user_id("@alice").err(), Some(CoreError::InvalidId));
}
