use acter_core::activities::object::ActivityObject;
use acter_core::activities::{Activity, ActivityContent};
use acter_core::content::{
    AttachmentContent, LocationContent, MediaContent, MediaSource, MsgContent, RefDetails,
    TextContent,
};
use acter_core::error::CoreError;
use acter_core::meta::{EventMeta, NaiveDate, UtcDateTime};
use acter_core::models::any::AnyActerModel;
use acter_core::models::calendar::{CalendarEvent, CalendarEventUpdate};
use acter_core::models::news::{NewsEntry, NewsEntryUpdate, NewsSlide};
use acter_core::models::pins::{Pin, PinUpdate};
use acter_core::models::relations::{
    Attachment, BareEvent, Comment, ExplicitInvite, Reaction, Rsvp, RsvpStatus,
};
use acter_core::models::status::{
    MembershipChange, MembershipChangeType, RoomCreateContent, RoomStatus, RoomStatusContent,
};
use acter_core::models::tasks::{
    Task, TaskList, TaskListUpdate, TaskSelfAssign, TaskSelfUnassign, TaskUpdate,
};
use acter_core::tristate::TriState;

fn meta(event_id: &str) -> EventMeta {
    EventMeta {
        event_id: event_id.to_owned(),
        room_id: "!room:example.org".to_owned(),
        sender: "@alice:example.org".to_owned(),
        origin_server_ts: 1_700_000_000_000,
        event_type: "test".to_owned(),
    }
}

fn text(body: &str) -> TextContent {
    TextContent { body: body.to_owned(), formatted_body: None }
}

fn pin() -> AnyActerModel {
    AnyActerModel::Pin(Pin {
        meta: meta("$pin:example.org"),
        title: "Acter Website".to_owned(),
        description: None,
        url: Some("https://acter.global".to_owned()),
    })
}

fn calendar_event() -> AnyActerModel {
    AnyActerModel::CalendarEvent(CalendarEvent {
        meta: meta("$event"),
        title: "First meeting".to_owned(),
        description: None,
        utc_start: UtcDateTime { secs: 100, nanos: 0 },
        utc_end: UtcDateTime { secs: 200, nanos: 0 },
    })
}

fn task_list() -> AnyActerModel {
    AnyActerModel::TaskList(TaskList {
        meta: meta("$list"),
        name: "Onboarding list".to_owned(),
        description: None,
    })
}

fn task() -> Task {
    Task {
        meta: meta("$task"),
        task_list_id: "$list".to_owned(),
        title: "Scroll through the news".to_owned(),
        description: None,
        due_date: None,
        progress_percent: None,
    }
}

fn news() -> AnyActerModel {
    AnyActerModel::NewsEntry(NewsEntry {
        meta: meta("$news"),
        slides: vec![
            NewsSlide { content: MsgContent::from_text("This is the news section.".to_owned()) },
            NewsSlide { content: MsgContent::from_text("second".to_owned()) },
        ],
    })
}

fn image() -> MediaContent {
    MediaContent {
        body: "Fishy.png".to_owned(),
        source: MediaSource::Plain("mxc://acter.global/fishy".to_owned()),
        info: None,
        filename: None,
        audio: None,
    }
}

fn calendar_update() -> CalendarEventUpdate {
    CalendarEventUpdate {
        meta: meta("$update"),
        calendar_event: "$event".to_owned(),
        title: TriState::Absent,
        description: TriState::Absent,
        utc_start: TriState::Absent,
        utc_end: TriState::Absent,
    }
}

fn task_update() -> TaskUpdate {
    TaskUpdate {
        meta: meta("$update"),
        task: "$task".to_owned(),
        title: TriState::Absent,
        description: TriState::Absent,
        due_date: TriState::Absent,
        progress_percent: TriState::Absent,
    }
}

fn reduce(model: AnyActerModel, parent: Option<&AnyActerModel>) -> Activity {
    Activity::for_acter_model(model, parent).expect("has an activity")
}

fn reaction_on(target: &str) -> AnyActerModel {
    AnyActerModel::Reaction(Reaction {
        meta: meta("$like"),
        relates_to: target.to_owned(),
        key: "❤️".to_owned(),
    })
}

#[test]
fn like_activity_on_news() {
    let news_entry = news();
    let activity = reduce(reaction_on("$news"), Some(&news_entry));
    assert_eq!(activity.type_str(), "reaction");
    let object = activity.object().expect("we have an object");
    assert_eq!(object.type_str(), "news");
    assert_eq!(object.object_id_str(), "$news");
    assert_eq!(activity.reaction_key(), Some("❤️".to_owned()));
    assert_eq!(activity.target_url(), "/updates/$news?section=reactions&reactionId=%24like");
}

#[test]
fn like_activity_on_story() {
    let story = AnyActerModel::Story(BareEvent { meta: meta("$story"), refers_to: None });
    let activity = reduce(reaction_on("$story"), Some(&story));
    assert_eq!(activity.type_str(), "reaction");
    let object = activity.object().expect("we have an object");
    assert_eq!(object.type_str(), "story");
    assert_eq!(object.object_id_str(), "$story");
}

#[test]
fn image_attachment_on_pin() {
    let parent = pin();
    let attachment = AnyActerModel::Attachment(Attachment {
        meta: meta("$att:example.org"),
        on: "$pin:example.org".to_owned(),
        content: AttachmentContent::Image(image()),
    });
    let activity = reduce(attachment, Some(&parent));
    assert_eq!(activity.type_str(), "attachment");
    assert_eq!(activity.sub_type_str(), Some("image".to_owned()));
    assert_eq!(activity.title(), Some("Fishy.png".to_owned()));
    assert_eq!(activity.name(), Some("Fishy.png".to_owned()));
    assert_eq!(
        activity.target_url(),
        format!(
            "/pins/{}?section=attachments&attachmentId={}",
            "$pin:example.org", "%24att%3Aexample.org"
        )
    );
    let object = activity.object().expect("parent was found");
    assert_eq!(object.type_str(), "pin".to_owned());
    assert_eq!(object.title().unwrap(), "Acter Website".to_owned());
    assert_eq!(object.emoji(), "📌");
    assert_eq!(object.object_id_str(), "$pin:example.org");
}

#[test]
fn event_creation_notification() {
    let activity = reduce(calendar_event(), None);
    assert_eq!(activity.type_str(), "creation");
    assert_eq!(activity.target_url(), "/events/$event");
    let parent = activity.object().unwrap();
    assert_eq!(parent.type_str(), "event".to_owned());
    assert_eq!(parent.title().unwrap(), "First meeting".to_owned());
    assert_eq!(parent.emoji(), "🗓️");
    assert_eq!(parent.object_id_str(), "$event");
}

#[test]
fn event_title_update() {
    let parent = calendar_event();
    let mut update = calendar_update();
    update.title = TriState::Value("Renamed Event".to_owned());
    let activity = reduce(AnyActerModel::CalendarEventUpdate(update), Some(&parent));
    assert_eq!(activity.type_str(), "titleChange");
    match activity.content() {
        ActivityContent::TitleChange { new_title, .. } => assert_eq!(new_title, "Renamed Event"),
        other => panic!("title change expected, got {:?}", other),
    }
    assert_eq!(activity.target_url(), format!("/events/{}", "$event"));
    let object = activity.object().expect("parent was found");
    assert_eq!(object.type_str(), "event");
    assert_eq!(object.emoji(), "🗓️");
    assert_eq!(object.object_id_str(), "$event");
}

#[test]
fn event_desc_update() {
    let parent = calendar_event();
    let mut update = calendar_update();
    update.description = TriState::Value(text("Added content"));
    let activity = reduce(AnyActerModel::CalendarEventUpdate(update), Some(&parent));
    assert_eq!(activity.type_str(), "descriptionChange");
    match activity.content() {
        ActivityContent::DescriptionChange { content, .. } => {
            assert_eq!(content.as_ref().expect("found content").body, "Added content")
        }
        other => panic!("description change expected, got {:?}", other),
    }
    assert_eq!(activity.target_url(), format!("/events/{}", "$event"));
    let object = activity.object().expect("parent was found");
    assert_eq!(object.type_str(), "event");
    assert_eq!(object.title().unwrap(), "First meeting");
}

#[test]
fn event_rescheduled() {
    let parent = calendar_event();
    let mut update = calendar_update();
    update.utc_start = TriState::Value(UtcDateTime { secs: 86_500, nanos: 0 });
    update.utc_end = TriState::Value(UtcDateTime { secs: 90_000, nanos: 0 });
    let activity = reduce(AnyActerModel::CalendarEventUpdate(update), Some(&parent));
    assert_eq!(activity.type_str(), "eventDateChange");
    assert_eq!(activity.new_date(), Some(UtcDateTime { secs: 86_500, nanos: 0 }));
    assert_eq!(activity.target_url(), "/events/$event");

    let mut only_end = calendar_update();
    only_end.utc_end = TriState::Value(UtcDateTime { secs: 90_000, nanos: 0 });
    let activity = reduce(AnyActerModel::CalendarEventUpdate(only_end), Some(&parent));
    assert_eq!(activity.type_str(), "eventDateChange");
    assert_eq!(activity.new_date(), Some(UtcDateTime { secs: 90_000, nanos: 0 }));
}

#[test]
fn event_rsvp() {
    let parent = calendar_event();
    let rsvp = |status: RsvpStatus| {
        AnyActerModel::Rsvp(Rsvp { meta: meta("$rsvp"), to: "$event".to_owned(), status })
    };
    let yes = reduce(rsvp(RsvpStatus::Yes), Some(&parent));
    assert_eq!(yes.type_str(), "rsvpYes");
    assert_eq!(yes.target_url(), "/events/$event");
    assert_eq!(yes.object().expect("parent was found").title().unwrap(), "First meeting");
    assert_eq!(reduce(rsvp(RsvpStatus::No), Some(&parent)).type_str(), "rsvpNo");
    assert_eq!(reduce(rsvp(RsvpStatus::Maybe), Some(&parent)).type_str(), "rsvpMaybe");
}

#[test]
fn missing_parent_gives_unknown_object() {
    let comment = AnyActerModel::Comment(Comment {
        meta: meta("$comment"),
        on: "$gone".to_owned(),
        content: text("hello"),
    });
    let activity = reduce(comment, None);
    assert_eq!(activity.type_str(), "comment");
    match activity.object() {
        Some(ActivityObject::Unknown { object_id }) => assert_eq!(object_id, "$gone"),
        other => panic!("unknown object expected, got {:?}", other),
    }
    let object = activity.object().unwrap();
    assert_eq!(object.type_str(), "unknown");
    assert_eq!(object.title(), None);
    assert_eq!(object.emoji(), "🧩");
    assert_eq!(
        activity.target_url(),
        "/forward?eventId=%24gone?section=comments&commentId=%24comment"
    );
}

#[test]
fn parent_that_is_no_object_gives_unknown_object() {
    let not_an_object = reaction_on("$x");
    let comment = AnyActerModel::Comment(Comment {
        meta: meta("$comment"),
        on: "$like".to_owned(),
        content: text("hello"),
    });
    let activity = reduce(comment, Some(&not_an_object));
    match activity.object() {
        Some(ActivityObject::Unknown { object_id }) => assert_eq!(object_id, "$like"),
        other => panic!("unknown object expected, got {:?}", other),
    }
}

#[test]
fn unsupported_kinds_are_refused() {
    let bare = |id: &str| BareEvent { meta: meta(id), refers_to: Some("$x".to_owned()) };
    let unsupported = vec![
        AnyActerModel::RedactedActerModel(bare("$1")),
        AnyActerModel::Story(bare("$2")),
        AnyActerModel::StoryUpdate(bare("$3")),
        AnyActerModel::CommentUpdate(bare("$4")),
        AnyActerModel::AttachmentUpdate(bare("$5")),
        AnyActerModel::ReadReceipt(bare("$6")),
        AnyActerModel::NewsEntryUpdate(NewsEntryUpdate {
            meta: meta("$7"),
            news_entry: "$news".to_owned(),
            slides: TriState::Empty,
        }),
    ];
    for model in unsupported {
        assert!(!model.has_activity());
        assert_eq!(Activity::for_acter_model(model, None).err(), Some(CoreError::Unsupported));
    }
    assert_eq!(
        CoreError::Unsupported.message(),
        "Converting model into activity not yet supported"
    );
}

#[test]
fn news_entry_is_a_boost_with_its_first_slide() {
    let activity = reduce(news(), None);
    assert_eq!(activity.type_str(), "news");
    assert!(activity.object().is_none());
    assert_eq!(activity.target_url(), "/updates/$news");
    match activity.content() {
        ActivityContent::Boost { first_slide } => {
            assert_eq!(first_slide.as_ref().expect("a slide").body(), "This is the news section.")
        }
        other => panic!("boost expected, got {:?}", other),
    }
    let empty = AnyActerModel::NewsEntry(NewsEntry { meta: meta("$empty"), slides: vec![] });
    match reduce(empty, None).content() {
        ActivityContent::Boost { first_slide } => assert!(first_slide.is_none()),
        other => panic!("boost expected, got {:?}", other),
    }
}

#[test]
fn reference_attachment_is_a_reference() {
    let parent = pin();
    let details = RefDetails::Link {
        title: "Acter".to_owned(),
        uri: "https://acter.global".to_owned(),
    };
    let attachment = AnyActerModel::Attachment(Attachment {
        meta: meta("$ref"),
        on: "$pin:example.org".to_owned(),
        content: AttachmentContent::Reference(details),
    });
    let activity = reduce(attachment, Some(&parent));
    assert_eq!(activity.type_str(), "references");
    assert_eq!(activity.sub_type_str(), None);
    assert_eq!(activity.title(), None);
    match activity.ref_details() {
        Some(RefDetails::Link { title, uri }) => {
            assert_eq!(title, "Acter");
            assert_eq!(uri, "https://acter.global");
        }
        other => panic!("link expected, got {:?}", other),
    }
    assert_eq!(
        activity.target_url(),
        "/pins/$pin:example.org?section=references&referenceId=%24ref"
    );
}

#[test]
fn location_attachment_has_its_sub_type() {
    let attachment = AnyActerModel::Attachment(Attachment {
        meta: meta("$att"),
        on: "$pin:example.org".to_owned(),
        content: AttachmentContent::Location(LocationContent {
            body: "Here".to_owned(),
            geo_uri: "geo:1,2".to_owned(),
            info: None,
        }),
    });
    let activity = reduce(attachment, None);
    assert_eq!(activity.sub_type_str(), Some("location".to_owned()));
    assert_eq!(activity.title(), Some("Here".to_owned()));
    assert!(activity.ref_details().is_none());
}

#[test]
fn creations_name_their_own_object() {
    let activity = reduce(pin(), None);
    assert_eq!(activity.type_str(), "creation");
    assert_eq!(activity.target_url(), "/pins/$pin:example.org");
    assert_eq!(activity.object().unwrap().title(), Some("Acter Website".to_owned()));

    let activity = reduce(task_list(), None);
    assert_eq!(activity.type_str(), "creation");
    assert_eq!(activity.target_url(), "/tasks/$list");
    let object = activity.object().unwrap();
    assert_eq!(object.type_str(), "task-list");
    assert_eq!(object.emoji(), "📋");
    assert_eq!(object.task_list_id_str(), None);
}

#[test]
fn task_add_leads_to_the_task_under_its_list() {
    let list = task_list();
    let activity = reduce(AnyActerModel::Task(task()), Some(&list));
    assert_eq!(activity.type_str(), "taskAdd");
    assert_eq!(activity.title(), Some("Scroll through the news".to_owned()));
    assert_eq!(activity.target_url(), "/tasks/$list/$task");
    assert_eq!(activity.object().unwrap().object_id_str(), "$list");
    assert_eq!(activity.task_list_id_str(), None);
}

#[test]
fn task_update_counts_as_its_first_mentioned_field() {
    let parent = AnyActerModel::Task(task());

    let mut all = task_update();
    all.progress_percent = TriState::Value(99);
    all.due_date = TriState::Value(NaiveDate { year: 2024, month: 1, day: 1 });
    all.title = TriState::Value("t".to_owned());
    all.description = TriState::Value(text("d"));
    let activity = reduce(AnyActerModel::TaskUpdate(all), Some(&parent));
    assert_eq!(activity.type_str(), "taskReOpen");
    assert_eq!(activity.target_url(), "/tasks/$list/$task");
    assert_eq!(activity.task_list_id_str(), Some("$list".to_owned()));

    let mut done = task_update();
    done.progress_percent = TriState::Value(100);
    assert_eq!(reduce(AnyActerModel::TaskUpdate(done), Some(&parent)).type_str(), "taskComplete");

    let mut over = task_update();
    over.progress_percent = TriState::Value(250);
    assert_eq!(reduce(AnyActerModel::TaskUpdate(over), Some(&parent)).type_str(), "taskComplete");

    let mut cleared = task_update();
    cleared.progress_percent = TriState::Empty;
    assert_eq!(reduce(AnyActerModel::TaskUpdate(cleared), Some(&parent)).type_str(), "taskReOpen");

    let mut due = task_update();
    due.due_date = TriState::Value(NaiveDate { year: 1970, month: 1, day: 2 });
    due.title = TriState::Value("t".to_owned());
    let activity = reduce(AnyActerModel::TaskUpdate(due), Some(&parent));
    assert_eq!(activity.type_str(), "taskDueDateChange");
    assert_eq!(activity.new_date(), Some(UtcDateTime { secs: 86_400, nanos: 0 }));

    let mut no_due = task_update();
    no_due.due_date = TriState::Empty;
    let activity = reduce(AnyActerModel::TaskUpdate(no_due), Some(&parent));
    assert_eq!(activity.type_str(), "taskDueDateChange");
    assert_eq!(activity.new_date(), None);

    let mut title = task_update();
    title.title = TriState::Value("t".to_owned());
    title.description = TriState::Value(text("d"));
    assert_eq!(reduce(AnyActerModel::TaskUpdate(title), Some(&parent)).type_str(), "titleChange");

    let mut description = task_update();
    description.description = TriState::Empty;
    let activity = reduce(AnyActerModel::TaskUpdate(description), Some(&parent));
    assert_eq!(activity.type_str(), "descriptionChange");
    match activity.content() {
        ActivityContent::DescriptionChange { content, .. } => assert!(content.is_none()),
        other => panic!("description change expected, got {:?}", other),
    }

    let activity = reduce(AnyActerModel::TaskUpdate(task_update()), Some(&parent));
    assert_eq!(activity.type_str(), "otherChanges");
}

#[test]
fn due_date_that_is_no_date_sets_no_date() {
    let mut due = task_update();
    due.due_date = TriState::Value(NaiveDate { year: 2023, month: 2, day: 30 });
    let activity = reduce(AnyActerModel::TaskUpdate(due), None);
    assert_eq!(activity.type_str(), "taskDueDateChange");
    assert_eq!(activity.new_date(), None);
    assert_eq!(NaiveDate { year: 2024, month: 2, day: 29 }.and_midnight_utc().map(|d| d.secs), Some(1_709_164_800));
    assert_eq!(NaiveDate { year: 1969, month: 12, day: 31 }.and_midnight_utc().map(|d| d.secs), Some(-86_400));
    assert_eq!(UtcDateTime::from_timestamp(5), UtcDateTime { secs: 5, nanos: 0 });
}

#[test]
fn pin_and_task_list_updates_follow_their_order() {
    let parent = pin();
    let update = |title: TriState<String>, description: TriState<TextContent>, url: TriState<String>| {
        AnyActerModel::PinUpdate(PinUpdate {
            meta: meta("$update"),
            pin: "$pin:example.org".to_owned(),
            title,
            description,
            url,
        })
    };
    let both = update(TriState::Value("t".to_owned()), TriState::Value(text("d")), TriState::Absent);
    assert_eq!(reduce(both, Some(&parent)).type_str(), "titleChange");
    let description = update(TriState::Absent, TriState::Value(text("d")), TriState::Empty);
    assert_eq!(reduce(description, Some(&parent)).type_str(), "descriptionChange");
    let url_only = update(TriState::Absent, TriState::Absent, TriState::Value("u".to_owned()));
    let activity = reduce(url_only, Some(&parent));
    assert_eq!(activity.type_str(), "otherChanges");
    assert_eq!(activity.target_url(), "/pins/$pin:example.org");

    let list = task_list();
    let renamed = AnyActerModel::TaskListUpdate(TaskListUpdate {
        meta: meta("$update"),
        task_list: "$list".to_owned(),
        name: TriState::Empty,
        description: TriState::Value(text("d")),
    });
    let activity = reduce(renamed, Some(&list));
    assert_eq!(activity.type_str(), "titleChange");
    match activity.content() {
        ActivityContent::TitleChange { new_title, .. } => assert_eq!(new_title, ""),
        other => panic!("title change expected, got {:?}", other),
    }
}

#[test]
fn self_assignment_is_accept_and_decline() {
    let parent = AnyActerModel::Task(task());
    let accept = AnyActerModel::TaskSelfAssign(TaskSelfAssign {
        meta: meta("$a"),
        task: "$task".to_owned(),
    });
    let activity = reduce(accept, Some(&parent));
    assert_eq!(activity.type_str(), "taskAccept");
    assert_eq!(activity.task_list_id_str(), Some("$list".to_owned()));
    assert_eq!(activity.object().unwrap().emoji(), "☑️");
    let decline = AnyActerModel::TaskSelfUnassign(TaskSelfUnassign {
        meta: meta("$d"),
        task: "$task".to_owned(),
    });
    assert_eq!(reduce(decline, Some(&parent)).type_str(), "taskDecline");
}

#[test]
fn invitation_names_who_was_invited() {
    let parent = calendar_event();
    let invite = AnyActerModel::ExplicitInvite(ExplicitInvite {
        meta: meta("$invite"),
        to: "$event".to_owned(),
        user_ids: vec!["@bob:example.org".to_owned(), "@carol:example.org".to_owned()],
    });
    let activity = reduce(invite, Some(&parent));
    assert_eq!(activity.type_str(), "objectInvitation");
    assert_eq!(activity.whom(), vec!["@bob:example.org".to_owned(), "@carol:example.org".to_owned()]);
    assert_eq!(activity.target_url(), "/events/$event");
    assert!(reduce(pin(), None).whom().is_empty());
}

#[test]
fn room_status_events_have_no_object() {
    let change = MembershipChange {
        user_id: "@bob:example.org".to_owned(),
        display_name: Some("Bob".to_owned()),
        avatar_url: None,
        reason: Some("welcome".to_owned()),
        change: MembershipChangeType::InvitationAccepted,
    };
    let status = AnyActerModel::RoomStatus(RoomStatus {
        meta: meta("$m"),
        inner: RoomStatusContent::MembershipChange(change),
    });
    let activity = reduce(status, None);
    assert_eq!(activity.type_str(), "invitationAccepted");
    assert!(activity.object().is_none());
    assert!(!activity.has_target());
    assert_eq!(activity.target_url(), "");
    let change = activity.membership_change().expect("a membership change");
    assert_eq!(change.user_id_str(), "@bob:example.org");
    assert_eq!(change.display_name(), Some("Bob".to_owned()));
    assert_eq!(change.avatar_url(), None);
    assert_eq!(change.reason(), Some("welcome".to_owned()));
    assert_eq!(change.as_str(), "invitationAccepted");

    let named = AnyActerModel::RoomStatus(RoomStatus {
        meta: meta("$n"),
        inner: RoomStatusContent::RoomName("Lobby".to_owned()),
    });
    let activity = reduce(named, None);
    assert_eq!(activity.type_str(), "roomName");
    assert!(activity.membership_change().is_none());
    assert!(!activity.has_target());
    assert_eq!(activity.target_url(), "");
    assert!(reduce(pin(), None).has_target());
    assert!(reduce(news(), None).has_target());

    let created = AnyActerModel::RoomStatus(RoomStatus {
        meta: meta("$c"),
        inner: RoomStatusContent::RoomCreate(RoomCreateContent {
            room_version: "11".to_owned(),
            room_type: None,
            federate: true,
        }),
    });
    let activity = reduce(created, None);
    assert_eq!(activity.type_str(), "roomCreate");
    assert!(!activity.has_target());
    assert_eq!(activity.target_url(), "");
}

#[test]
fn membership_change_names() {
    let names = [
        (MembershipChangeType::Joined, "joined"),
        (MembershipChangeType::Left, "left"),
        (MembershipChangeType::InvitationAccepted, "invitationAccepted"),
        (MembershipChangeType::InvitationRejected, "invitationRejected"),
        (MembershipChangeType::InvitationRevoked, "invitationRevoked"),
        (MembershipChangeType::KnockAccepted, "knockAccepted"),
        (MembershipChangeType::KnockRetracted, "knockRetracted"),
        (MembershipChangeType::KnockDenied, "knockDenied"),
        (MembershipChangeType::Banned, "banned"),
        (MembershipChangeType::Unbanned, "unbanned"),
        (MembershipChangeType::Kicked, "kicked"),
        (MembershipChangeType::Invited, "invited"),
        (MembershipChangeType::KickedAndBanned, "kickedAndBanned"),
        (MembershipChangeType::Knocked, "knocked"),
    ];
    for (change, name) in names {
        assert_eq!(change.as_str(), name);
    }
}

#[test]
fn activity_hands_out_its_envelope() {
    let activity = reduce(pin(), None);
    assert_eq!(activity.sender_id_str(), "@alice:example.org");
    assert_eq!(activity.origin_server_ts(), 1_700_000_000_000);
    assert_eq!(activity.room_id_str(), "!room:example.org");
    assert_eq!(activity.event_id_str(), "$pin:example.org");
    assert_eq!(activity.event_meta().event_type, "test");
    assert_eq!(activity.clone().type_str(), "creation");
}

#[test]
fn object_urls() {
    let id = || "$o".to_owned();
    assert_eq!(ActivityObject::News { object_id: id() }.target_url(), "/updates/$o");
    assert_eq!(ActivityObject::Story { object_id: id() }.target_url(), "/updates/$o");
    assert_eq!(ActivityObject::Pin { object_id: id(), title: "t".to_owned() }.target_url(), "/pins/$o");
    assert_eq!(
        ActivityObject::CalendarEvent { object_id: id(), title: "t".to_owned() }.target_url(),
        "/events/$o"
    );
    assert_eq!(
        ActivityObject::TaskList { object_id: id(), title: "t".to_owned() }.target_url(),
        "/tasks/$o"
    );
    assert_eq!(
        ActivityObject::Task { object_id: id(), tl_id: "$l".to_owned(), title: "t".to_owned() }
            .target_url(),
        "/tasks/$l/$o"
    );
    assert_eq!(
        ActivityObject::Unknown { object_id: "$a b/ü~".to_owned() }.target_url(),
        "/forward?eventId=%24a%20b%2F%C3%BC~"
    );
    assert_eq!(ActivityObject::News { object_id: id() }.emoji(), "🚀");
    assert_eq!(ActivityObject::Story { object_id: id() }.emoji(), "📖");
}
