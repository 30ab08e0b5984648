//! The local replica: the store, and the user it belongs to.

use crate::activities::feed::Activities;
use crate::activities::object::ActivityObjectView;
use crate::activities::{Activity, ActivityView};
use crate::common::DeviceRecord;
use crate::device::{any_seen, device_records, records_of, DeviceInfo, NINETY_DAYS};
use crate::error::CoreError;
use crate::foreign::{is_event_id, is_room_id};
use crate::ids::event_id;
use crate::invitations::{invited_to, InvitationsManager, InvitationsManagerView};
use crate::models::any::{AnyActerModel, AnyActerModelView};
use crate::models::relations::Reaction;
use crate::push::{
    lang_or_default, NotificationItem, NotificationItemView, Pusher, PusherKindView, PusherView,
};
use crate::reactions::{reactions_to, ReactionManager, ReactionManagerView};
use crate::referencing::{IndexKey, IndexKeyView};
use crate::store::{lookup, stored, Store};
use crate::subscriptions::Registry;
use vstd::prelude::*;

verus! {

/// What the store holds under the id of the object that `m` hangs on.
pub open spec fn parent_of(s: Seq<AnyActerModelView>, m: AnyActerModelView) -> Option<
    AnyActerModelView,
> {
    match m.parent_id() {
        Some(id) => lookup(s, id),
        None => None,
    }
}

/// The result of asking the store `s` for the activity of the event of id `key`.
pub open spec fn activity_of(s: Seq<AnyActerModelView>, key: Seq<char>) -> Result<
    ActivityView,
    CoreError,
> {
    match lookup(s, key) {
        None => Err(CoreError::NotFound),
        Some(m) => match ActivityView::of_model(m, parent_of(s, m)) {
            Some(activity) => Ok(activity),
            None => Err(CoreError::Unsupported),
        },
    }
}

/// An event whose parent the store does not hold still has its activity, and the activity
/// names the parent as unknown, with the id that was looked for.
pub proof fn lemma_absent_parent_is_unknown(s: Seq<AnyActerModelView>, key: Seq<char>)
    requires
        lookup(s, key) is Some,
        lookup(s, key)->Some_0.has_activity(),
        lookup(s, key)->Some_0.parent_id() is Some,
        lookup(s, lookup(s, key)->Some_0.parent_id()->Some_0) is None,
    ensures
        activity_of(s, key) is Ok,
        activity_of(s, key)->Ok_0.inner.object() == Some(
            ActivityObjectView::Unknown { object_id: lookup(s, key)->Some_0.parent_id()->Some_0 },
        ),
{
}

/// Asking for an activity fails only where the event is missing or of a kind without an
/// activity; what the store holds besides never makes it fail.
pub proof fn lemma_activity_fails_only_by_kind(s: Seq<AnyActerModelView>, key: Seq<char>)
    ensures
        activity_of(s, key) is Ok <==> lookup(s, key) is Some && lookup(
            s,
            key,
        )->Some_0.has_activity(),
{
}

/// The engine itself: a store and the reading of activities from it.
pub struct CoreClient {
    pub store: Store,
}

impl CoreClient {
    /// An engine over an empty store.
    pub fn new() -> (res: CoreClient)
        ensures
            res.store@ == Seq::<AnyActerModelView>::empty(),
    {
        CoreClient { store: Store::new() }
    }

    /// The activity of the event of id `key`. The object it is about is looked up now; if
    /// the store does not hold it, the activity names it as unknown. Fails with
    /// `CoreError::NotFound` where the store holds no such event and with `CoreError::Unsupported`
    /// where the event is of a kind without an activity.
    pub fn activity(&self, key: &str) -> (res: Result<Activity, CoreError>)
        ensures
            match activity_of(self.store@, key@) {
                Ok(activity) => res is Ok && res->Ok_0@ == activity,
                Err(e) => res == Err::<Activity, CoreError>(e),
            },
    {
        let model = match self.store.get(key) {
            Ok(model) => model.clone(),
            Err(e) => {
                return Err(e);
            },
        };
        let parent = match model.parent_id() {
            Some(id) => match self.store.get(id.as_str()) {
                Ok(parent) => Some(parent),
                Err(_) => None,
            },
            None => None,
        };
        Activity::for_acter_model(model, parent)
    }
}

/// The local replica as one user sees it.
pub struct Client {
    pub core: CoreClient,
    pub user_id: String,
    /// The device of the session, once it is known.
    pub device_id: Option<String>,
    /// The keys that have changed since somebody last looked at them.
    pub registry: Registry,
}

impl Client {
    /// A replica for the user `user_id`, with an empty store.
    pub fn new(user_id: String) -> (res: Client)
        ensures
            res.core.store@ == Seq::<AnyActerModelView>::empty(),
            res.user_id@ == user_id@,
            res.device_id is None,
            res.registry@ == Set::<IndexKeyView>::empty(),
    {
        Client { core: CoreClient::new(), user_id, device_id: None, registry: Registry::new() }
    }

    /// The store of the replica.
    pub fn store(&self) -> (res: &Store)
        ensures
            res@ == self.core.store@,
    {
        &self.core.store
    }

    /// Puts an event into the store, as [`Store::put`] does, raises the flag of every key
    /// that has changed by it, and says which keys these are. An event that the store has
    /// seen before changes nothing and raises no flag.
    pub fn put(&mut self, model: AnyActerModel) -> (changed: Vec<IndexKey>)
        ensures
            final(self).core.store@ == stored(old(self).core.store@, model@),
            final(self).user_id == old(self).user_id,
            final(self).device_id == old(self).device_id,
            changed.deep_view() == if lookup(old(self).core.store@, model@.event_id()) is Some {
                Seq::<IndexKeyView>::empty()
            } else {
                model@.index_keys()
            },
            final(self).registry@ == old(self).registry@.union(changed.deep_view().to_set()),
    {
        let changed = self.core.store.put(model);
        self.registry.notify_all(&changed);
        changed
    }

    /// Says whether anything listed under `key` has changed since the key was last looked
    /// at, and counts this as a look. However many changes there were, the answer is one
    /// yes; the caller reads the store to see what has changed.
    pub fn poll(&mut self, key: &IndexKey) -> (changed: bool)
        ensures
            changed == old(self).registry@.contains(key@),
            final(self).registry@ == old(self).registry@.remove(key@),
            final(self).core.store@ == old(self).core.store@,
            final(self).user_id == old(self).user_id,
            final(self).device_id == old(self).device_id,
    {
        self.registry.take(key)
    }

    /// The activity of the event of id `key`. Fails with `CoreError::InvalidId` where `key` is
    /// no event id, and else as [`CoreClient::activity`] does.
    pub fn activity(&self, key: String) -> (res: Result<Activity, CoreError>)
        ensures
            !is_event_id(key@) ==> res == Err::<Activity, CoreError>(CoreError::InvalidId),
            is_event_id(key@) ==> match activity_of(self.core.store@, key@) {
                Ok(activity) => res is Ok && res->Ok_0@ == activity,
                Err(e) => res == Err::<Activity, CoreError>(e),
            },
    {
        match event_id(key.as_str()) {
            Ok(id) => self.core.activity(id.as_str()),
            Err(e) => Err(e),
        }
    }

    /// The feed of the room `room_id`, or `CoreError::InvalidId` where the string is no room id.
    pub fn activities_for_room(&self, room_id: String) -> (res: Result<Activities, CoreError>)
        ensures
            is_room_id(room_id@) ==> res is Ok && res->Ok_0@ == IndexKeyView::RoomHistory(
                room_id@,
            ),
            !is_room_id(room_id@) ==> res is Err && res->Err_0 == CoreError::InvalidId,
    {
        match crate::ids::room_id(room_id.as_str()) {
            Ok(id) => Ok(Activities { index: IndexKey::RoomHistory(id) }),
            Err(e) => Err(e),
        }
    }

    /// The feed of the object `object_id`, or `CoreError::InvalidId` where the string is no
    /// event id.
    pub fn activities_for_obj(&self, object_id: String) -> (res: Result<Activities, CoreError>)
        ensures
            is_event_id(object_id@) ==> res is Ok && res->Ok_0@ == IndexKeyView::ObjectHistory(
                object_id@,
            ),
            !is_event_id(object_id@) ==> res is Err && res->Err_0 == CoreError::InvalidId,
    {
        match event_id(object_id.as_str()) {
            Ok(id) => Ok(Activities { index: IndexKey::ObjectHistory(id) }),
            Err(e) => Err(e),
        }
    }

    /// The reaction of id `key`, once it has arrived. Fails with `CoreError::NotFound` while
    /// the store does not hold the event, and with `CoreError::UnexpectedKind` where it holds
    /// it and it is no reaction.
    pub fn wait_for_reaction(&self, key: String) -> (res: Result<Reaction, CoreError>)
        ensures
            match lookup(self.core.store@, key@) {
                None => res is Err && res->Err_0 == CoreError::NotFound,
                Some(AnyActerModelView::Reaction(r)) => res is Ok && res->Ok_0@ == r,
                Some(_) => res is Err && res->Err_0 == CoreError::UnexpectedKind,
            },
    {
        match self.core.store.get(key.as_str()) {
            Ok(AnyActerModel::Reaction(r)) => Ok(r.clone()),
            Ok(_) => Err(CoreError::UnexpectedKind),
            Err(e) => Err(e),
        }
    }

    /// The notification about the event `event_id` of the room `room_id`, given what the
    /// notification service has found for it. The room id is looked at first, then the
    /// event id; one that is none gives `CoreError::InvalidId`. Where the service has found
    /// nothing to show, the answer is `CoreError::HiddenNotification`. What it has found is
    /// handed on under the room asked for.
    pub fn get_notification_item(
        &self,
        room_id: String,
        event_id: String,
        found: Option<NotificationItem>,
    ) -> (res: Result<NotificationItem, CoreError>)
        ensures
            !(is_room_id(room_id@) && is_event_id(event_id@)) ==> res is Err && res->Err_0
                == CoreError::InvalidId,
            is_room_id(room_id@) && is_event_id(event_id@) ==> match found {
                None => res is Err && res->Err_0 == CoreError::HiddenNotification,
                Some(item) => res is Ok && res->Ok_0@ == (NotificationItemView {
                    room_id: room_id@,
                    ..item@
                }),
            },
    {
        let room_id = match crate::ids::room_id(room_id.as_str()) {
            Ok(id) => id,
            Err(e) => {
                return Err(e);
            },
        };
        match crate::ids::event_id(event_id.as_str()) {
            Ok(_) => {},
            Err(e) => {
                return Err(e);
            },
        }
        match found {
            None => Err(CoreError::HiddenNotification),
            Some(item) => Ok(NotificationItem { room_id, ..item }),
        }
    }

    /// The pusher that sends e-mail to `email`, ready to be registered. English is the
    /// language where none is given.
    pub fn add_email_pusher(
        &self,
        device_name: String,
        app_name: String,
        email: String,
        lang: Option<String>,
    ) -> (res: Pusher)
        ensures
            res@ == (PusherView {
                pushkey: email@,
                app_id: "m.email"@,
                app_display_name: app_name@,
                device_display_name: device_name@,
                lang: lang_or_default(lang.deep_view()),
                profile_tag: None,
                kind: PusherKindView::Email,
            }),
    {
        Pusher::new_email(device_name, app_name, email, lang)
    }

    /// The pusher that reaches this session's device through the gateway at `server_url`,
    /// ready to be registered. Fails with `CoreError::DeviceIdNotFound` while the session
    /// has no device.
    pub fn add_pusher(
        &self,
        app_id: String,
        token: String,
        device_name: String,
        app_name: String,
        server_url: String,
        with_ios_defaults: bool,
        lang: Option<String>,
    ) -> (res: Result<Pusher, CoreError>)
        ensures
            match self.device_id {
                None => res is Err && res->Err_0 == CoreError::DeviceIdNotFound,
                Some(device_id) => res is Ok && res->Ok_0@ == (PusherView {
                    pushkey: token@,
                    app_id: app_id@,
                    app_display_name: app_name@,
                    device_display_name: device_name@,
                    lang: lang_or_default(lang.deep_view()),
                    profile_tag: None,
                    kind: PusherKindView::Http {
                        url: server_url@,
                        device_id: device_id@,
                        ios_defaults: with_ios_defaults,
                    },
                }),
            },
    {
        match &self.device_id {
            None => Err(CoreError::DeviceIdNotFound),
            Some(device_id) => Ok(
                Pusher::new_http(
                    app_id,
                    token,
                    device_name,
                    app_name,
                    server_url,
                    with_ios_defaults,
                    lang,
                    device_id.clone(),
                ),
            ),
        }
    }

    /// The records of the user's devices that are verified, or of those that are not, as
    /// [`device_records`] makes them, with this session's device marked as the user's own.
    /// Fails with `CoreError::DeviceIdNotFound` while the session has no device, before
    /// anything else is looked at.
    pub fn device_records(&self, devices: &Vec<DeviceInfo>, now_secs: u64, verified: bool) -> (res:
        Result<Vec<DeviceRecord>, CoreError>)
        ensures
            match self.device_id {
                None => res is Err && res->Err_0 == CoreError::DeviceIdNotFound,
                Some(device_id) => if now_secs < NINETY_DAYS && any_seen(devices.deep_view()) {
                    res is Err && res->Err_0 == CoreError::ClockOutOfRange
                } else {
                    res is Ok && res->Ok_0.deep_view() == records_of(
                        devices.deep_view(),
                        if now_secs >= NINETY_DAYS {
                            (now_secs - NINETY_DAYS) as u64
                        } else {
                            0
                        },
                        verified,
                        device_id@,
                    )
                },
            },
    {
        match &self.device_id {
            None => Err(CoreError::DeviceIdNotFound),
            Some(device_id) => device_records(devices, now_secs, verified, device_id.as_str()),
        }
    }

    /// The reactions to the object `event_id` as they stand.
    pub fn reactions(&self, event_id: &str) -> (res: ReactionManager)
        ensures
            res@ == (ReactionManagerView {
                event_id: event_id@,
                my_id: self.user_id@,
                entries: reactions_to(self.core.store@, event_id@, self.user_id@),
            }),
    {
        ReactionManager::from_store_and_event_id(&self.core.store, event_id, self.user_id.as_str())
    }

    /// The invitations to the object `event_id` as they stand.
    pub fn invitations(&self, event_id: &str) -> (res: InvitationsManager)
        ensures
            res@ == (InvitationsManagerView {
                event_id: event_id@,
                invited: invited_to(self.core.store@, event_id@),
            }),
    {
        InvitationsManager::from_store_and_event_id(&self.core.store, event_id)
    }
}

} // verus!
