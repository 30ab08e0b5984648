//! Profiles of users and rooms: which of the known sources answers a question about them.

use crate::common::FfiOption;
use vstd::prelude::*;

verus! {

/// What is known of somebody from one source: a display name and the address of an avatar.
#[derive(Debug)]
pub struct ProfileData {
    pub display_name: Option<String>,
    pub avatar_url: Option<String>,
}

/// Mathematical model of a [`ProfileData`].
pub struct ProfileDataView {
    pub display_name: Option<Seq<char>>,
    pub avatar_url: Option<Seq<char>>,
}

impl View for ProfileData {
    type V = ProfileDataView;

    open spec fn view(&self) -> ProfileDataView {
        ProfileDataView {
            display_name: self.display_name.deep_view(),
            avatar_url: self.avatar_url.deep_view(),
        }
    }
}

impl DeepView for ProfileData {
    type V = ProfileDataView;

    open spec fn deep_view(&self) -> ProfileDataView {
        self@
    }
}

/// A user as the user directory finds them.
#[derive(Debug)]
pub struct PublicProfile {
    pub user_id: String,
    pub data: ProfileData,
}

/// Mathematical model of a [`PublicProfile`].
pub struct PublicProfileView {
    pub user_id: Seq<char>,
    pub data: ProfileDataView,
}

impl View for PublicProfile {
    type V = PublicProfileView;

    open spec fn view(&self) -> PublicProfileView {
        PublicProfileView { user_id: self.user_id@, data: self.data@ }
    }
}

impl DeepView for PublicProfile {
    type V = PublicProfileView;

    open spec fn deep_view(&self) -> PublicProfileView {
        self@
    }
}

impl PublicProfile {
    pub fn new(user_id: String, data: ProfileData) -> (res: Self)
        ensures
            res@ == (PublicProfileView { user_id: user_id@, data: data@ }),
    {
        PublicProfile { user_id, data }
    }
}

/// The source that answers for a user.
#[derive(Clone, Copy, Debug, PartialEq, Eq, Structural)]
pub enum ProfileSource {
    /// The user's own account.
    Account,
    /// The user's membership of a room.
    Member,
    /// The user directory.
    Search,
    /// Nothing is known.
    Nothing,
}

/// A user, with what is known of them from their account, from a room, or from the user
/// directory.
#[derive(Debug)]
pub struct UserProfile {
    pub account: Option<ProfileData>,
    pub public_profile: Option<PublicProfile>,
    pub user_id: String,
    pub member: Option<ProfileData>,
}

/// Mathematical model of a [`UserProfile`].
pub struct UserProfileView {
    pub account: Option<ProfileDataView>,
    pub public_profile: Option<PublicProfileView>,
    pub user_id: Seq<char>,
    pub member: Option<ProfileDataView>,
}

impl View for UserProfile {
    type V = UserProfileView;

    open spec fn view(&self) -> UserProfileView {
        UserProfileView {
            account: self.account.deep_view(),
            public_profile: self.public_profile.deep_view(),
            user_id: self.user_id@,
            member: self.member.deep_view(),
        }
    }
}

impl UserProfileView {
    /// The source that answers: the account before the room, the room before the directory.
    pub open spec fn source(self) -> ProfileSource {
        if self.account is Some {
            ProfileSource::Account
        } else if self.member is Some {
            ProfileSource::Member
        } else if self.public_profile is Some {
            ProfileSource::Search
        } else {
            ProfileSource::Nothing
        }
    }

    /// What the answering source knows; `None` where nothing is known.
    pub open spec fn data(self) -> Option<ProfileDataView> {
        match self.source() {
            ProfileSource::Account => self.account,
            ProfileSource::Member => self.member,
            ProfileSource::Search => match self.public_profile {
                Some(p) => Some(p.data),
                None => None,
            },
            ProfileSource::Nothing => None,
        }
    }

    /// The display name that the answering source gives.
    pub open spec fn display_name(self) -> Option<Seq<char>> {
        match self.data() {
            Some(d) => d.display_name,
            None => None,
        }
    }

    /// Whether the answering source gives an avatar.
    pub open spec fn has_avatar(self) -> bool {
        match self.data() {
            Some(d) => d.avatar_url is Some,
            None => false,
        }
    }
}

impl UserProfile {
    /// The profile of the user `user_id` as their own account gives it.
    pub fn from_account(account: ProfileData, user_id: String) -> (res: Self)
        ensures
            res@ == (UserProfileView {
                account: Some(account@),
                public_profile: None,
                user_id: user_id@,
                member: None,
            }),
    {
        UserProfile { account: Some(account), user_id, member: None, public_profile: None }
    }

    /// The profile of the user `user_id` as a room gives it.
    pub fn from_member(member: ProfileData, user_id: String) -> (res: Self)
        ensures
            res@ == (UserProfileView {
                account: None,
                public_profile: None,
                user_id: user_id@,
                member: Some(member@),
            }),
    {
        UserProfile { account: None, user_id, member: Some(member), public_profile: None }
    }

    /// The profile of a user as the user directory gives it.
    pub fn from_search(public_profile: PublicProfile) -> (res: Self)
        ensures
            res@ == (UserProfileView {
                account: None,
                public_profile: Some(public_profile@),
                user_id: public_profile.user_id@,
                member: None,
            }),
    {
        UserProfile {
            account: None,
            user_id: public_profile.user_id.clone(),
            member: None,
            public_profile: Some(public_profile),
        }
    }

    pub fn user_id(&self) -> (res: String)
        ensures
            res@ == self@.user_id,
    {
        self.user_id.clone()
    }

    /// The source that answers for the user.
    pub fn source(&self) -> (res: ProfileSource)
        ensures
            res == self@.source(),
    {
        if self.account.is_some() {
            ProfileSource::Account
        } else if self.member.is_some() {
            ProfileSource::Member
        } else if self.public_profile.is_some() {
            ProfileSource::Search
        } else {
            ProfileSource::Nothing
        }
    }

    /// Whether the answering source gives an avatar.
    pub fn has_avatar(&self) -> (res: bool)
        ensures
            res == self@.has_avatar(),
    {
        if let Some(account) = &self.account {
            return account.avatar_url.is_some();
        }
        if let Some(member) = &self.member {
            return member.avatar_url.is_some();
        }
        if let Some(public_profile) = &self.public_profile {
            return public_profile.data.avatar_url.is_some();
        }
        false
    }

    /// The address of the avatar that the answering source gives.
    pub fn get_avatar(&self) -> (res: FfiOption<String>)
        ensures
            res.0.deep_view() == match self@.data() {
                Some(d) => d.avatar_url,
                None => None,
            },
    {
        if let Some(account) = &self.account {
            return FfiOption::new(account.avatar_url.clone());
        }
        if let Some(member) = &self.member {
            return FfiOption::new(member.avatar_url.clone());
        }
        if let Some(public_profile) = &self.public_profile {
            return FfiOption::new(public_profile.data.avatar_url.clone());
        }
        FfiOption::new(None)
    }

    /// The display name that the answering source gives.
    pub fn get_display_name(&self) -> (res: FfiOption<String>)
        ensures
            res.0.deep_view() == self@.display_name(),
    {
        if let Some(account) = &self.account {
            return FfiOption::new(account.display_name.clone());
        }
        if let Some(member) = &self.member {
            return FfiOption::new(member.display_name.clone());
        }
        if let Some(public_profile) = &self.public_profile {
            return FfiOption::new(public_profile.data.display_name.clone());
        }
        FfiOption::new(None)
    }
}

/// How a room came by the name it shows.
#[derive(Debug)]
pub enum DisplayName {
    /// The room has a name.
    Named(String),
    /// The room goes by its alias.
    Aliased(String),
    /// The name is made up from the members.
    Calculated(String),
    /// The room is empty; this was its name.
    EmptyWas(String),
    /// The room is empty and never had a name.
    Empty,
}

impl DisplayName {
    /// The name to show, however the room came by it; none for an empty room without one.
    pub open spec fn text(self) -> Option<Seq<char>> {
        match self {
            DisplayName::Named(n) => Some(n@),
            DisplayName::Aliased(n) => Some(n@),
            DisplayName::Calculated(n) => Some(n@),
            DisplayName::EmptyWas(n) => Some(n@),
            DisplayName::Empty => None,
        }
    }
}

/// A room, for the questions asked about its profile.
#[derive(Debug)]
pub struct RoomProfile {
    pub room_id: String,
}

impl RoomProfile {
    pub fn new(room_id: String) -> (res: Self)
        ensures
            res.room_id@ == room_id@,
    {
        RoomProfile { room_id }
    }

    /// Whether the room has an avatar, given the address of the avatar if it has one.
    pub fn has_avatar(&self, avatar_url: &Option<String>) -> (res: bool)
        ensures
            res == avatar_url is Some,
    {
        avatar_url.is_some()
    }

    /// The name to show for the room, given how the room came by its name.
    pub fn get_display_name(&self, name: DisplayName) -> (res: FfiOption<String>)
        ensures
            res.0.deep_view() == name.text(),
    {
        match name {
            DisplayName::Named(n) => FfiOption::new(Some(n)),
            DisplayName::Aliased(n) => FfiOption::new(Some(n)),
            DisplayName::Calculated(n) => FfiOption::new(Some(n)),
            DisplayName::EmptyWas(n) => FfiOption::new(Some(n)),
            DisplayName::Empty => FfiOption::new(None),
        }
    }
}

} // verus!
