//! State events of the room itself: who came and went, how the room was made and named.

use crate::meta::{EventMeta, EventMetaView};
use vstd::prelude::*;

verus! {

/// What happened to somebody's membership of a room.
#[derive(Clone, Copy, Debug, PartialEq, Eq, Structural)]
pub enum MembershipChangeType {
    Joined,
    Left,
    InvitationAccepted,
    InvitationRejected,
    InvitationRevoked,
    KnockAccepted,
    KnockRetracted,
    KnockDenied,
    Banned,
    Unbanned,
    Kicked,
    Invited,
    KickedAndBanned,
    Knocked,
}

impl MembershipChangeType {
    /// The tag under which a change of this kind is shown.
    pub open spec fn name(self) -> Seq<char> {
        match self {
            MembershipChangeType::Joined => "joined"@,
            MembershipChangeType::Left => "left"@,
            MembershipChangeType::InvitationAccepted => "invitationAccepted"@,
            MembershipChangeType::InvitationRejected => "invitationRejected"@,
            MembershipChangeType::InvitationRevoked => "invitationRevoked"@,
            MembershipChangeType::KnockAccepted => "knockAccepted"@,
            MembershipChangeType::KnockRetracted => "knockRetracted"@,
            MembershipChangeType::KnockDenied => "knockDenied"@,
            MembershipChangeType::Banned => "banned"@,
            MembershipChangeType::Unbanned => "unbanned"@,
            MembershipChangeType::Kicked => "kicked"@,
            MembershipChangeType::Invited => "invited"@,
            MembershipChangeType::KickedAndBanned => "kickedAndBanned"@,
            MembershipChangeType::Knocked => "knocked"@,
        }
    }

    /// The tag under which a change of this kind is shown.
    pub fn as_str(&self) -> (res: &'static str)
        ensures
            res@ == self.name(),
    {
        match self {
            MembershipChangeType::Joined => "joined",
            MembershipChangeType::Left => "left",
            MembershipChangeType::InvitationAccepted => "invitationAccepted",
            MembershipChangeType::InvitationRejected => "invitationRejected",
            MembershipChangeType::InvitationRevoked => "invitationRevoked",
            MembershipChangeType::KnockAccepted => "knockAccepted",
            MembershipChangeType::KnockRetracted => "knockRetracted",
            MembershipChangeType::KnockDenied => "knockDenied",
            MembershipChangeType::Banned => "banned",
            MembershipChangeType::Unbanned => "unbanned",
            MembershipChangeType::Kicked => "kicked",
            MembershipChangeType::Invited => "invited",
            MembershipChangeType::KickedAndBanned => "kickedAndBanned",
            MembershipChangeType::Knocked => "knocked",
        }
    }
}

/// A change of one user's membership of a room.
#[derive(Debug)]
pub struct MembershipChange {
    /// The user whose membership changed.
    pub user_id: String,
    pub display_name: Option<String>,
    pub avatar_url: Option<String>,
    pub reason: Option<String>,
    pub change: MembershipChangeType,
}

/// Mathematical model of a [`MembershipChange`].
pub struct MembershipChangeView {
    pub user_id: Seq<char>,
    pub display_name: Option<Seq<char>>,
    pub avatar_url: Option<Seq<char>>,
    pub reason: Option<Seq<char>>,
    pub change: MembershipChangeType,
}

impl View for MembershipChange {
    type V = MembershipChangeView;

    open spec fn view(&self) -> MembershipChangeView {
        MembershipChangeView {
            user_id: self.user_id@,
            display_name: self.display_name.deep_view(),
            avatar_url: self.avatar_url.deep_view(),
            reason: self.reason.deep_view(),
            change: self.change,
        }
    }
}

impl DeepView for MembershipChange {
    type V = MembershipChangeView;

    open spec fn deep_view(&self) -> MembershipChangeView {
        self@
    }
}

impl Clone for MembershipChange {
    fn clone(&self) -> (res: Self)
        ensures
            res@ == self@,
    {
        MembershipChange {
            user_id: self.user_id.clone(),
            display_name: self.display_name.clone(),
            avatar_url: self.avatar_url.clone(),
            reason: self.reason.clone(),
            change: self.change,
        }
    }
}

impl MembershipChange {
    /// The tag under which this change is shown.
    pub fn as_str(&self) -> (res: &'static str)
        ensures
            res@ == self@.change.name(),
    {
        self.change.as_str()
    }

    pub fn user_id_str(&self) -> (res: String)
        ensures
            res@ == self@.user_id,
    {
        self.user_id.clone()
    }

    pub fn display_name(&self) -> (res: Option<String>)
        ensures
            res.deep_view() == self@.display_name,
    {
        self.display_name.clone()
    }

    pub fn avatar_url(&self) -> (res: Option<String>)
        ensures
            res.deep_view() == self@.avatar_url,
    {
        self.avatar_url.clone()
    }

    pub fn reason(&self) -> (res: Option<String>)
        ensures
            res.deep_view() == self@.reason,
    {
        self.reason.clone()
    }
}

/// What the creation event of a room says.
#[derive(Debug)]
pub struct RoomCreateContent {
    pub room_version: String,
    pub room_type: Option<String>,
    /// Whether users of other servers may join.
    pub federate: bool,
}

/// Mathematical model of a [`RoomCreateContent`].
pub struct RoomCreateContentView {
    pub room_version: Seq<char>,
    pub room_type: Option<Seq<char>>,
    pub federate: bool,
}

impl View for RoomCreateContent {
    type V = RoomCreateContentView;

    open spec fn view(&self) -> RoomCreateContentView {
        RoomCreateContentView {
            room_version: self.room_version@,
            room_type: self.room_type.deep_view(),
            federate: self.federate,
        }
    }
}

impl DeepView for RoomCreateContent {
    type V = RoomCreateContentView;

    open spec fn deep_view(&self) -> RoomCreateContentView {
        self@
    }
}

impl Clone for RoomCreateContent {
    fn clone(&self) -> (res: Self)
        ensures
            res@ == self@,
    {
        RoomCreateContent {
            room_version: self.room_version.clone(),
            room_type: self.room_type.clone(),
            federate: self.federate,
        }
    }
}

/// A change of the room itself that the feed reports.
#[derive(Debug)]
pub enum RoomStatusContent {
    MembershipChange(MembershipChange),
    RoomCreate(RoomCreateContent),
    RoomName(String),
}

/// Mathematical model of a [`RoomStatusContent`].
pub enum RoomStatusContentView {
    MembershipChange(MembershipChangeView),
    RoomCreate(RoomCreateContentView),
    RoomName(Seq<char>),
}

impl View for RoomStatusContent {
    type V = RoomStatusContentView;

    open spec fn view(&self) -> RoomStatusContentView {
        match self {
            RoomStatusContent::MembershipChange(c) => RoomStatusContentView::MembershipChange(c@),
            RoomStatusContent::RoomCreate(c) => RoomStatusContentView::RoomCreate(c@),
            RoomStatusContent::RoomName(n) => RoomStatusContentView::RoomName(n@),
        }
    }
}

impl DeepView for RoomStatusContent {
    type V = RoomStatusContentView;

    open spec fn deep_view(&self) -> RoomStatusContentView {
        self@
    }
}

impl Clone for RoomStatusContent {
    fn clone(&self) -> (res: Self)
        ensures
            res@ == self@,
    {
        match self {
            RoomStatusContent::MembershipChange(c) => RoomStatusContent::MembershipChange(
                c.clone(),
            ),
            RoomStatusContent::RoomCreate(c) => RoomStatusContent::RoomCreate(c.clone()),
            RoomStatusContent::RoomName(n) => RoomStatusContent::RoomName(n.clone()),
        }
    }
}

/// A state event of the room that the feed reports.
#[derive(Debug)]
pub struct RoomStatus {
    pub meta: EventMeta,
    pub inner: RoomStatusContent,
}

/// Mathematical model of a [`RoomStatus`].
pub struct RoomStatusView {
    pub meta: EventMetaView,
    pub inner: RoomStatusContentView,
}

impl View for RoomStatus {
    type V = RoomStatusView;

    open spec fn view(&self) -> RoomStatusView {
        RoomStatusView {
            meta: self.meta@,
            inner: self.inner@,
        }
    }
}

impl DeepView for RoomStatus {
    type V = RoomStatusView;

    open spec fn deep_view(&self) -> RoomStatusView {
        self@
    }
}

impl Clone for RoomStatus {
    fn clone(&self) -> (res: Self)
        ensures
            res@ == self@,
    {
        RoomStatus {
            meta: self.meta.clone(),
            inner: self.inner.clone(),
        }
    }
}

} // verus!
