//! Notification modes by name, and the registration of pushers.

use crate::error::CoreError;
use crate::foreign::{lowercased, trimmed};
use vstd::prelude::*;

verus! {

/// How much of a room's traffic notifies the user.
#[derive(Clone, Copy, Debug, PartialEq, Eq, Structural)]
pub enum RoomNotificationMode {
    AllMessages,
    MentionsAndKeywordsOnly,
    Mute,
}

impl RoomNotificationMode {
    /// The name under which the mode is shown and stored.
    pub open spec fn name(self) -> Seq<char> {
        match self {
            RoomNotificationMode::AllMessages => "all"@,
            RoomNotificationMode::MentionsAndKeywordsOnly => "mentions"@,
            RoomNotificationMode::Mute => "muted"@,
        }
    }

    /// The mode of exactly this name, if there is one.
    pub open spec fn named(name: Seq<char>) -> Option<RoomNotificationMode> {
        if name == "all"@ {
            Some(RoomNotificationMode::AllMessages)
        } else if name == "mentions"@ {
            Some(RoomNotificationMode::MentionsAndKeywordsOnly)
        } else if name == "muted"@ {
            Some(RoomNotificationMode::Mute)
        } else {
            None
        }
    }

    /// The mode of exactly this name, if there is one.
    pub fn from_name(name: &str) -> (res: Option<RoomNotificationMode>)
        ensures
            res == Self::named(name@),
    {
        if *name == *"all" {
            Some(RoomNotificationMode::AllMessages)
        } else if *name == *"mentions" {
            Some(RoomNotificationMode::MentionsAndKeywordsOnly)
        } else if *name == *"muted" {
            Some(RoomNotificationMode::Mute)
        } else {
            None
        }
    }
}

/// Every mode is found again under its own name.
pub proof fn lemma_mode_name_round_trip(mode: RoomNotificationMode)
    ensures
        RoomNotificationMode::named(mode.name()) == Some(mode),
{
    reveal_strlit("all");
    reveal_strlit("mentions");
    reveal_strlit("muted");
    assert("all"@.len() == 3);
    assert("mentions"@.len() == 8);
    assert("muted"@.len() == 5);
}

/// The name under which a mode is shown and stored.
pub fn room_notification_mode_name(input: &RoomNotificationMode) -> (res: String)
    ensures
        res@ == input.name(),
{
    match input {
        RoomNotificationMode::AllMessages => "all".to_owned(),
        RoomNotificationMode::MentionsAndKeywordsOnly => "mentions".to_owned(),
        RoomNotificationMode::Mute => "muted".to_owned(),
    }
}

/// The mode that a person's input names: the input is trimmed and put in lower case, and
/// must then be the name of a mode.
pub fn notification_mode_from_input(input: &str) -> (res: Option<RoomNotificationMode>)
    ensures
        res == RoomNotificationMode::named(lowercased(trimmed(input@))),
{
    let normal = input.trim().to_lowercase();
    RoomNotificationMode::from_name(normal.as_str())
}

/// The mode to set as a default, from a person's input; `CoreError::UnknownNotificationMode`
/// where the input names none.
pub fn default_mode_from_input(mode: &str) -> (res: Result<RoomNotificationMode, CoreError>)
    ensures
        res == match RoomNotificationMode::named(lowercased(trimmed(mode@))) {
            Some(m) => Ok::<RoomNotificationMode, CoreError>(m),
            None => Err::<RoomNotificationMode, CoreError>(CoreError::UnknownNotificationMode),
        },
{
    match notification_mode_from_input(mode) {
        Some(m) => Ok(m),
        None => Err(CoreError::UnknownNotificationMode),
    }
}

/// How a pusher reaches its target.
#[derive(Debug)]
pub enum PusherKind {
    /// By e-mail.
    Email,
    /// Through a push gateway at `url`. The payload names the device, and for Apple devices
    /// also asks for a mutable and content-available notification.
    Http { url: String, device_id: String, ios_defaults: bool },
}

/// Mathematical model of a [`PusherKind`].
pub enum PusherKindView {
    Email,
    Http { url: Seq<char>, device_id: Seq<char>, ios_defaults: bool },
}

impl View for PusherKind {
    type V = PusherKindView;

    open spec fn view(&self) -> PusherKindView {
        match self {
            PusherKind::Email => PusherKindView::Email,
            PusherKind::Http { url, device_id, ios_defaults } => PusherKindView::Http {
                url: url@,
                device_id: device_id@,
                ios_defaults: *ios_defaults,
            },
        }
    }
}

/// A pusher: where notifications go, and under what names.
#[derive(Debug)]
pub struct Pusher {
    pub pushkey: String,
    pub app_id: String,
    pub app_display_name: String,
    pub device_display_name: String,
    pub lang: String,
    pub profile_tag: Option<String>,
    pub kind: PusherKind,
}

/// Mathematical model of a [`Pusher`].
pub struct PusherView {
    pub pushkey: Seq<char>,
    pub app_id: Seq<char>,
    pub app_display_name: Seq<char>,
    pub device_display_name: Seq<char>,
    pub lang: Seq<char>,
    pub profile_tag: Option<Seq<char>>,
    pub kind: PusherKindView,
}

impl View for Pusher {
    type V = PusherView;

    open spec fn view(&self) -> PusherView {
        PusherView {
            pushkey: self.pushkey@,
            app_id: self.app_id@,
            app_display_name: self.app_display_name@,
            device_display_name: self.device_display_name@,
            lang: self.lang@,
            profile_tag: self.profile_tag.deep_view(),
            kind: self.kind@,
        }
    }
}

/// The language asked for, or English where none is.
pub open spec fn lang_or_default(lang: Option<Seq<char>>) -> Seq<char> {
    match lang {
        Some(l) => l,
        None => "en"@,
    }
}

impl Pusher {
    /// The pusher that sends e-mail to `email`.
    pub fn new_email(
        device_name: String,
        app_name: String,
        email: String,
        lang: Option<String>,
    ) -> (res: Pusher)
        ensures
            res@ == (PusherView {
                pushkey: email@,
                app_id: "m.email"@,
                app_display_name: app_name@,
                device_display_name: device_name@,
                lang: lang_or_default(lang.deep_view()),
                profile_tag: None,
                kind: PusherKindView::Email,
            }),
    {
        Pusher {
            pushkey: email,
            app_id: "m.email".to_owned(),
            app_display_name: app_name,
            device_display_name: device_name,
            lang: match lang {
                Some(l) => l,
                None => "en".to_owned(),
            },
            profile_tag: None,
            kind: PusherKind::Email,
        }
    }

    /// The pusher that reaches the device `device_id` through the gateway at `server_url`.
    pub fn new_http(
        app_id: String,
        token: String,
        device_name: String,
        app_name: String,
        server_url: String,
        with_ios_defaults: bool,
        lang: Option<String>,
        device_id: String,
    ) -> (res: Pusher)
        ensures
            res@ == (PusherView {
                pushkey: token@,
                app_id: app_id@,
                app_display_name: app_name@,
                device_display_name: device_name@,
                lang: lang_or_default(lang.deep_view()),
                profile_tag: None,
                kind: PusherKindView::Http {
                    url: server_url@,
                    device_id: device_id@,
                    ios_defaults: with_ios_defaults,
                },
            }),
    {
        Pusher {
            pushkey: token,
            app_id,
            app_display_name: app_name,
            device_display_name: device_name,
            lang: match lang {
                Some(l) => l,
                None => "en".to_owned(),
            },
            profile_tag: None,
            kind: PusherKind::Http { url: server_url, device_id, ios_defaults: with_ios_defaults },
        }
    }

    pub fn is_email_pusher(&self) -> (res: bool)
        ensures
            res == (self@.kind is Email),
    {
        match self.kind {
            PusherKind::Email => true,
            _ => false,
        }
    }

    pub fn pushkey(&self) -> (res: String)
        ensures
            res@ == self@.pushkey,
    {
        self.pushkey.clone()
    }

    pub fn app_id(&self) -> (res: String)
        ensures
            res@ == self@.app_id,
    {
        self.app_id.clone()
    }

    pub fn app_display_name(&self) -> (res: String)
        ensures
            res@ == self@.app_display_name,
    {
        self.app_display_name.clone()
    }

    pub fn device_display_name(&self) -> (res: String)
        ensures
            res@ == self@.device_display_name,
    {
        self.device_display_name.clone()
    }

    pub fn lang(&self) -> (res: String)
        ensures
            res@ == self@.lang,
    {
        self.lang.clone()
    }

    pub fn profile_tag(&self) -> (res: Option<String>)
        ensures
            res.deep_view() == self@.profile_tag,
    {
        self.profile_tag.clone()
    }
}

/// A notification, as it is shown to the user.
#[derive(Debug)]
pub struct NotificationItem {
    pub room_id: String,
    /// Whether the notification is about an invitation to a room.
    pub is_invite: bool,
    pub sender_display_name: Option<String>,
    pub sender_avatar_url: Option<String>,
    pub room_display_name: String,
    pub room_avatar_url: Option<String>,
    pub room_canonical_alias: Option<String>,
    pub is_room_encrypted: Option<bool>,
    pub is_direct_message_room: bool,
    pub joined_members_count: u64,
    pub is_noisy: Option<bool>,
}

/// Mathematical model of a [`NotificationItem`].
pub struct NotificationItemView {
    pub room_id: Seq<char>,
    pub is_invite: bool,
    pub sender_display_name: Option<Seq<char>>,
    pub sender_avatar_url: Option<Seq<char>>,
    pub room_display_name: Seq<char>,
    pub room_avatar_url: Option<Seq<char>>,
    pub room_canonical_alias: Option<Seq<char>>,
    pub is_room_encrypted: Option<bool>,
    pub is_direct_message_room: bool,
    pub joined_members_count: u64,
    pub is_noisy: Option<bool>,
}

impl View for NotificationItem {
    type V = NotificationItemView;

    open spec fn view(&self) -> NotificationItemView {
        NotificationItemView {
            room_id: self.room_id@,
            is_invite: self.is_invite,
            sender_display_name: self.sender_display_name.deep_view(),
            sender_avatar_url: self.sender_avatar_url.deep_view(),
            room_display_name: self.room_display_name@,
            room_avatar_url: self.room_avatar_url.deep_view(),
            room_canonical_alias: self.room_canonical_alias.deep_view(),
            is_room_encrypted: self.is_room_encrypted,
            is_direct_message_room: self.is_direct_message_room,
            joined_members_count: self.joined_members_count,
            is_noisy: self.is_noisy,
        }
    }
}

impl DeepView for NotificationItem {
    type V = NotificationItemView;

    open spec fn deep_view(&self) -> NotificationItemView {
        self@
    }
}

impl Clone for NotificationItem {
    fn clone(&self) -> (res: Self)
        ensures
            res@ == self@,
    {
        NotificationItem {
            room_id: self.room_id.clone(),
            is_invite: self.is_invite,
            sender_display_name: self.sender_display_name.clone(),
            sender_avatar_url: self.sender_avatar_url.clone(),
            room_display_name: self.room_display_name.clone(),
            room_avatar_url: self.room_avatar_url.clone(),
            room_canonical_alias: self.room_canonical_alias.clone(),
            is_room_encrypted: self.is_room_encrypted,
            is_direct_message_room: self.is_direct_message_room,
            joined_members_count: self.joined_members_count,
            is_noisy: self.is_noisy,
        }
    }
}

impl NotificationItem {
    pub fn is_invite(&self) -> (res: bool)
        ensures
            res == self@.is_invite,
    {
        self.is_invite
    }

    pub fn sender_display_name(&self) -> (res: Option<String>)
        ensures
            res.deep_view() == self@.sender_display_name,
    {
        self.sender_display_name.clone()
    }

    pub fn sender_avatar_url(&self) -> (res: Option<String>)
        ensures
            res.deep_view() == self@.sender_avatar_url,
    {
        self.sender_avatar_url.clone()
    }

    pub fn room_display_name(&self) -> (res: String)
        ensures
            res@ == self@.room_display_name,
    {
        self.room_display_name.clone()
    }

    pub fn room_avatar_url(&self) -> (res: Option<String>)
        ensures
            res.deep_view() == self@.room_avatar_url,
    {
        self.room_avatar_url.clone()
    }

    pub fn room_canonical_alias(&self) -> (res: Option<String>)
        ensures
            res.deep_view() == self@.room_canonical_alias,
    {
        self.room_canonical_alias.clone()
    }

    pub fn is_room_encrypted(&self) -> (res: Option<bool>)
        ensures
            res == self@.is_room_encrypted,
    {
        self.is_room_encrypted
    }

    pub fn is_direct_message_room(&self) -> (res: bool)
        ensures
            res == self@.is_direct_message_room,
    {
        self.is_direct_message_room
    }

    pub fn joined_members_count(&self) -> (res: u64)
        ensures
            res == self@.joined_members_count,
    {
        self.joined_members_count
    }

    pub fn is_noisy(&self) -> (res: Option<bool>)
        ensures
            res == self@.is_noisy,
    {
        self.is_noisy
    }
}

} // verus!
