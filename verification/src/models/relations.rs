//! Events that hang on another object: comments, attachments, reactions, answers.

use crate::content::{AttachmentContent, AttachmentContentView, TextContent, TextContentView};
use crate::meta::{EventMeta, EventMetaView};
use crate::text::clone_strings;
use vstd::prelude::*;

verus! {

/// A comment on an object.
#[derive(Debug)]
pub struct Comment {
    pub meta: EventMeta,
    /// Event id of the object commented on.
    pub on: String,
    pub content: TextContent,
}

/// Mathematical model of a [`Comment`].
pub struct CommentView {
    pub meta: EventMetaView,
    pub on: Seq<char>,
    pub content: TextContentView,
}

impl View for Comment {
    type V = CommentView;

    open spec fn view(&self) -> CommentView {
        CommentView {
            meta: self.meta@,
            on: self.on@,
            content: self.content@,
        }
    }
}

impl DeepView for Comment {
    type V = CommentView;

    open spec fn deep_view(&self) -> CommentView {
        self@
    }
}

impl Clone for Comment {
    fn clone(&self) -> (res: Self)
        ensures
            res@ == self@,
    {
        Comment {
            meta: self.meta.clone(),
            on: self.on.clone(),
            content: self.content.clone(),
        }
    }
}

/// An attachment to an object.
#[derive(Debug)]
pub struct Attachment {
    pub meta: EventMeta,
    /// Event id of the object attached to.
    pub on: String,
    pub content: AttachmentContent,
}

/// Mathematical model of an [`Attachment`].
pub struct AttachmentView {
    pub meta: EventMetaView,
    pub on: Seq<char>,
    pub content: AttachmentContentView,
}

impl View for Attachment {
    type V = AttachmentView;

    open spec fn view(&self) -> AttachmentView {
        AttachmentView {
            meta: self.meta@,
            on: self.on@,
            content: self.content@,
        }
    }
}

impl DeepView for Attachment {
    type V = AttachmentView;

    open spec fn deep_view(&self) -> AttachmentView {
        self@
    }
}

impl Clone for Attachment {
    fn clone(&self) -> (res: Self)
        ensures
            res@ == self@,
    {
        Attachment {
            meta: self.meta.clone(),
            on: self.on.clone(),
            content: self.content.clone(),
        }
    }
}

/// A reaction of its sender to an object.
#[derive(Debug)]
pub struct Reaction {
    pub meta: EventMeta,
    /// Event id of the object reacted to.
    pub relates_to: String,
    /// The reaction itself, usually an emoji.
    pub key: String,
}

/// Mathematical model of a [`Reaction`].
pub struct ReactionView {
    pub meta: EventMetaView,
    pub relates_to: Seq<char>,
    pub key: Seq<char>,
}

impl View for Reaction {
    type V = ReactionView;

    open spec fn view(&self) -> ReactionView {
        ReactionView {
            meta: self.meta@,
            relates_to: self.relates_to@,
            key: self.key@,
        }
    }
}

impl DeepView for Reaction {
    type V = ReactionView;

    open spec fn deep_view(&self) -> ReactionView {
        self@
    }
}

impl Clone for Reaction {
    fn clone(&self) -> (res: Self)
        ensures
            res@ == self@,
    {
        Reaction {
            meta: self.meta.clone(),
            relates_to: self.relates_to.clone(),
            key: self.key.clone(),
        }
    }
}

impl Reaction {
    /// Who reacted.
    pub fn sender(&self) -> (res: String)
        ensures
            res@ == self@.meta.sender,
    {
        self.meta.sender.clone()
    }

    /// When the reaction was sent, in milliseconds since the Unix epoch.
    pub fn origin_server_ts(&self) -> (res: u64)
        ensures
            res == self@.meta.origin_server_ts,
    {
        self.meta.origin_server_ts
    }

    /// Event id of the object reacted to.
    pub fn relates_to(&self) -> (res: String)
        ensures
            res@ == self@.relates_to,
    {
        self.relates_to.clone()
    }
}

/// Whether somebody comes to a calendar event.
#[derive(Clone, Copy, Debug, PartialEq, Eq, Structural)]
pub enum RsvpStatus {
    Yes,
    Maybe,
    No,
}

/// The answer of its sender to a calendar event.
#[derive(Debug)]
pub struct Rsvp {
    pub meta: EventMeta,
    /// Event id of the calendar event.
    pub to: String,
    pub status: RsvpStatus,
}

/// Mathematical model of a [`Rsvp`].
pub struct RsvpView {
    pub meta: EventMetaView,
    pub to: Seq<char>,
    pub status: RsvpStatus,
}

impl View for Rsvp {
    type V = RsvpView;

    open spec fn view(&self) -> RsvpView {
        RsvpView {
            meta: self.meta@,
            to: self.to@,
            status: self.status,
        }
    }
}

impl DeepView for Rsvp {
    type V = RsvpView;

    open spec fn deep_view(&self) -> RsvpView {
        self@
    }
}

impl Clone for Rsvp {
    fn clone(&self) -> (res: Self)
        ensures
            res@ == self@,
    {
        Rsvp {
            meta: self.meta.clone(),
            to: self.to.clone(),
            status: self.status,
        }
    }
}

/// An explicit invitation of users to an object.
#[derive(Debug)]
pub struct ExplicitInvite {
    pub meta: EventMeta,
    /// Event id of the object the users are invited to.
    pub to: String,
    /// The invited users, in the order the event names them.
    pub user_ids: Vec<String>,
}

/// Mathematical model of an [`ExplicitInvite`].
pub struct ExplicitInviteView {
    pub meta: EventMetaView,
    pub to: Seq<char>,
    pub user_ids: Seq<Seq<char>>,
}

impl View for ExplicitInvite {
    type V = ExplicitInviteView;

    open spec fn view(&self) -> ExplicitInviteView {
        ExplicitInviteView {
            meta: self.meta@,
            to: self.to@,
            user_ids: self.user_ids.deep_view(),
        }
    }
}

impl DeepView for ExplicitInvite {
    type V = ExplicitInviteView;

    open spec fn deep_view(&self) -> ExplicitInviteView {
        self@
    }
}

impl Clone for ExplicitInvite {
    fn clone(&self) -> (res: Self)
        ensures
            res@ == self@,
    {
        ExplicitInvite {
            meta: self.meta.clone(),
            to: self.to.clone(),
            user_ids: clone_strings(&self.user_ids),
        }
    }
}

/// An event of a kind the engine stores but does not interpret.
#[derive(Debug)]
pub struct BareEvent {
    pub meta: EventMeta,
    /// Event id of the object it is about, if any.
    pub refers_to: Option<String>,
}

/// Mathematical model of a [`BareEvent`].
pub struct BareEventView {
    pub meta: EventMetaView,
    pub refers_to: Option<Seq<char>>,
}

impl View for BareEvent {
    type V = BareEventView;

    open spec fn view(&self) -> BareEventView {
        BareEventView {
            meta: self.meta@,
            refers_to: self.refers_to.deep_view(),
        }
    }
}

impl DeepView for BareEvent {
    type V = BareEventView;

    open spec fn deep_view(&self) -> BareEventView {
        self@
    }
}

impl Clone for BareEvent {
    fn clone(&self) -> (res: Self)
        ensures
            res@ == self@,
    {
        BareEvent {
            meta: self.meta.clone(),
            refers_to: self.refers_to.clone(),
        }
    }
}

} // verus!
