use acter_core::activities::object::ActivityObject;
use acter_core::client::Client;
use acter_core::error::CoreError;
use acter_core::meta::EventMeta;
use acter_core::models::any::AnyActerModel;
use acter_core::models::relations::Reaction;
use acter_core::models::tasks::{Task, TaskList, TaskUpdate};
use acter_core::tristate::TriState;

fn meta(event_id: &str, sender: &str, ts: u64, event_type: &str) -> EventMeta {
    EventMeta {
        event_id: event_id.to_owned(),
        room_id: "!room:example.org".to_owned(),
        sender: sender.to_owned(),
        origin_server_ts: ts,
        event_type: event_type.to_owned(),
    }
}

#[test]
fn task_progress_update_completes_the_task() {
    let mut client = Client::new("@me:example.org".to_owned());
    client.put(AnyActerModel::TaskList(TaskList {
        meta: meta("$E1", "@me:example.org", 1, "global.acter.dev.tasklist"),
        name: "Onboarding list".to_owned(),
        description: None,
    }));
    client.put(AnyActerModel::Task(Task {
        meta: meta("$E2", "@me:example.org", 2, "global.acter.dev.task"),
        task_list_id: "$E1".to_owned(),
        title: "Scroll through the news".to_owned(),
        description: None,
        due_date: None,
        progress_percent: None,
    }));
    client.put(AnyActerModel::TaskUpdate(TaskUpdate {
        meta: meta("$E3", "@me:example.org", 3, "global.acter.dev.task.update"),
        task: "$E2".to_owned(),
        title: TriState::Absent,
        description: TriState::Absent,
        due_date: TriState::Absent,
        progress_percent: TriState::Value(100),
    }));

    let activity = client.activity("$E3".to_owned()).expect("activity of the update");
    assert_eq!(activity.type_str(), "taskComplete");
    assert_eq!(activity.object().expect("has an object").object_id_str(), "$E2");
    assert_eq!(activity.task_list_id_str(), Some("$E1".to_owned()));
    match client.store().get("$E2") {
        Ok(AnyActerModel::Task(task)) => assert_eq!(task.progress_percent, Some(100)),
        other => panic!("expected the task, got {:?}", other),
    }
}

#[test]
fn duplicate_reaction_counts_once() {
    let mut client = Client::new("@me:example.org".to_owned());
    client.put(AnyActerModel::Reaction(Reaction {
        meta: meta("$r1", "@u:example.org", 1, "m.reaction"),
        relates_to: "$M".to_owned(),
        key: "👍".to_owned(),
    }));
    client.put(AnyActerModel::Reaction(Reaction {
        meta: meta("$r2", "@u:example.org", 2, "m.reaction"),
        relates_to: "$M".to_owned(),
        key: "👍".to_owned(),
    }));
    let manager = client.reactions("$M");
    assert_eq!(manager.total_reaction_count(), 1);
    assert!(manager.has_reaction_entries());
}

#[test]
fn unknown_event_is_not_found() {
    let client = Client::new("@me:example.org".to_owned());
    assert_eq!(client.activity("$nope".to_owned()).err(), Some(CoreError::NotFound));
    assert_eq!(client.activity("nope".to_owned()).err(), Some(CoreError::InvalidId));
    let _ = ActivityObject::Unknown { object_id: "$x".to_owned() };
}
