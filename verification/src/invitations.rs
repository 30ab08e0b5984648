//! Who has been invited to one object.

use crate::error::CoreError;
use crate::foreign::is_user_id;
use crate::models::any::{AnyActerModel, AnyActerModelView};
use crate::referencing::{IndexKey, IndexKeyView};
use crate::store::Store;
use crate::text::clone_strings;
use vstd::prelude::*;

verus! {

/// No user is named twice.
pub open spec fn no_duplicates(users: Seq<Seq<char>>) -> bool {
    forall|i: int, j: int| 0 <= i < j < users.len() ==> users[i] != users[j]
}

/// `users` with `user` invited: added at the end, unless already among them.
pub open spec fn with_invitee(users: Seq<Seq<char>>, user: Seq<char>) -> Seq<Seq<char>> {
    if users.contains(user) {
        users
    } else {
        users.push(user)
    }
}

/// `users` with each of `more` invited, in the order of `more`.
pub open spec fn with_invitees(users: Seq<Seq<char>>, more: Seq<Seq<char>>) -> Seq<Seq<char>>
    decreases more.len(),
{
    if more.len() == 0 {
        users
    } else {
        with_invitee(with_invitees(users, more.drop_last()), more.last())
    }
}

/// The users that the events of `s` invite to the object `target`, in the order in which
/// they were first invited.
pub open spec fn invited_to(s: Seq<AnyActerModelView>, target: Seq<char>) -> Seq<Seq<char>>
    decreases s.len(),
{
    if s.len() == 0 {
        Seq::empty()
    } else {
        let earlier = invited_to(s.drop_last(), target);
        match s.last() {
            AnyActerModelView::ExplicitInvite(e) => if e.to == target {
                with_invitees(earlier, e.user_ids)
            } else {
                earlier
            },
            _ => earlier,
        }
    }
}

/// Inviting a user who is already invited changes nothing, and inviting one who is not
/// adds that user once.
pub proof fn lemma_with_invitee(users: Seq<Seq<char>>, user: Seq<char>)
    requires
        no_duplicates(users),
    ensures
        no_duplicates(with_invitee(users, user)),
        with_invitee(users, user).contains(user),
        with_invitee(with_invitee(users, user), user) == with_invitee(users, user),
        forall|other: Seq<char>|
            users.contains(other) ==> with_invitee(users, user).contains(other),
{
    let after = with_invitee(users, user);
    if !users.contains(user) {
        assert(after[users.len() as int] == user);
        assert forall|other: Seq<char>| users.contains(other) implies after.contains(other) by {
            let i = choose|i: int| 0 <= i < users.len() && users[i] == other;
            assert(after[i] == other);
        }
    }
}

/// Inviting several users leaves nobody invited twice.
pub proof fn lemma_with_invitees(users: Seq<Seq<char>>, more: Seq<Seq<char>>)
    requires
        no_duplicates(users),
    ensures
        no_duplicates(with_invitees(users, more)),
    decreases more.len(),
{
    if more.len() > 0 {
        lemma_with_invitees(users, more.drop_last());
        lemma_with_invitee(with_invitees(users, more.drop_last()), more.last());
    }
}

/// However many invitations have come in, nobody is invited twice.
pub proof fn lemma_invited_to_unique(s: Seq<AnyActerModelView>, target: Seq<char>)
    ensures
        no_duplicates(invited_to(s, target)),
    decreases s.len(),
{
    if s.len() > 0 {
        lemma_invited_to_unique(s.drop_last(), target);
        match s.last() {
            AnyActerModelView::ExplicitInvite(e) => {
                lemma_with_invitees(invited_to(s.drop_last(), target), e.user_ids);
            },
            _ => {},
        }
    }
}

/// An invitation that is ready to be sent to the room.
#[derive(Debug)]
pub struct InviteDraft {
    /// Event id of the object the user is invited to.
    pub to: String,
    pub user_id: String,
}

/// The invitations to one object as they stand.
pub struct InvitationsManager {
    event_id: String,
    invited: Vec<String>,
}

/// Mathematical model of an [`InvitationsManager`].
pub struct InvitationsManagerView {
    /// The object invited to.
    pub event_id: Seq<char>,
    /// The invited users, in the order in which they were first invited.
    pub invited: Seq<Seq<char>>,
}

impl View for InvitationsManager {
    type V = InvitationsManagerView;

    closed spec fn view(&self) -> InvitationsManagerView {
        InvitationsManagerView { event_id: self.event_id@, invited: self.invited.deep_view() }
    }
}

impl InvitationsManagerView {
    /// The manager once the event `m` has been seen: an invitation to the manager's object
    /// adds the users it names who were not invited yet; any other event changes nothing.
    pub open spec fn with_event(self, m: AnyActerModelView) -> InvitationsManagerView {
        match m {
            AnyActerModelView::ExplicitInvite(e) => if e.to == self.event_id {
                InvitationsManagerView { invited: with_invitees(self.invited, e.user_ids), ..self }
            } else {
                self
            },
            _ => self,
        }
    }
}

impl InvitationsManager {
    #[verifier::type_invariant]
    spec fn nobody_twice(&self) -> bool {
        no_duplicates(self.invited.deep_view())
    }

    /// Does nothing, and lets the caller know that nobody is invited twice.
    pub fn invitees_are_distinct(&self)
        ensures
            no_duplicates(self@.invited),
    {
        proof {
            use_type_invariant(self);
        }
    }

    /// A manager for the object `event_id` before any invitation.
    pub fn empty(event_id: String) -> (res: InvitationsManager)
        ensures
            res@ == (InvitationsManagerView { event_id: event_id@, invited: Seq::empty() }),
    {
        let invited: Vec<String> = Vec::new();
        assert(invited.deep_view() =~= Seq::<Seq<char>>::empty());
        InvitationsManager { event_id, invited }
    }

    /// The manager for the object `event_id` as the events in `store` leave it.
    pub fn new(store: &Store, event_id: &str) -> (res: InvitationsManager)
        ensures
            res@ == (InvitationsManagerView {
                event_id: event_id@,
                invited: invited_to(store@, event_id@),
            }),
    {
        Self::from_store_and_event_id(store, event_id)
    }

    /// The manager for the object `event_id` as the events in `store` leave it.
    pub fn from_store_and_event_id(store: &Store, event_id: &str) -> (res: InvitationsManager)
        ensures
            res@ == (InvitationsManagerView {
                event_id: event_id@,
                invited: invited_to(store@, event_id@),
            }),
    {
        let mut manager = InvitationsManager::empty(event_id.to_owned());
        let all = store.all();
        let ghost s = store@;
        let n = all.len();
        let mut i: usize = 0;
        assert(s.take(0) =~= Seq::<AnyActerModelView>::empty());
        while i < n
            invariant
                i <= n,
                n == s.len(),
                all.deep_view() == s,
                manager@ == (InvitationsManagerView {
                    event_id: event_id@,
                    invited: invited_to(s.take(i as int), event_id@),
                }),
            decreases n - i,
        {
            proof {
                assert(s.take(i + 1).drop_last() =~= s.take(i as int));
                assert(s.take(i + 1).last() == s[i as int]);
            }
            manager.add_event(&all[i]);
            i += 1;
        }
        assert(s.take(n as int) =~= s);
        manager
    }

    /// The manager for the same object, folded anew from what `store` holds now.
    pub fn reload(&self, store: &Store) -> (res: InvitationsManager)
        ensures
            res@ == (InvitationsManagerView {
                event_id: self@.event_id,
                invited: invited_to(store@, self@.event_id),
            }),
    {
        Self::from_store_and_event_id(store, self.event_id.as_str())
    }

    /// Takes in one event: an invitation to the manager's object adds the users it names
    /// who were not invited yet; any other event changes nothing.
    pub fn add_event(&mut self, model: &AnyActerModel)
        ensures
            final(self)@ == old(self)@.with_event(model@),
    {
        match model {
            AnyActerModel::ExplicitInvite(e) => {
                if e.to == self.event_id {
                    let ghost before = self@;
                    let ghost users = e.user_ids.deep_view();
                    let n = e.user_ids.len();
                    let mut i: usize = 0;
                    assert(users.take(0) =~= Seq::<Seq<char>>::empty());
                    while i < n
                        invariant
                            i <= n,
                            n == e.user_ids.len(),
                            users == e.user_ids.deep_view(),
                            self@ == (InvitationsManagerView {
                                invited: with_invitees(before.invited, users.take(i as int)),
                                ..before
                            }),
                        decreases n - i,
                    {
                        proof {
                            assert(users.take(i + 1).drop_last() =~= users.take(i as int));
                            assert(users.take(i + 1).last() == users[i as int]);
                        }
                        self.add_invitee(e.user_ids[i].as_str());
                        i += 1;
                    }
                    assert(users.take(n as int) =~= users);
                }
            },
            _ => {},
        }
    }

    /// Invites one user: added at the end, unless already invited. Says whether the user is
    /// new.
    pub fn add_invitee(&mut self, user: &str) -> (added: bool)
        ensures
            final(self)@ == (InvitationsManagerView {
                invited: with_invitee(old(self)@.invited, user@),
                ..old(self)@
            }),
            added == !old(self)@.invited.contains(user@),
    {
        proof {
            use_type_invariant(&*self);
            lemma_with_invitee(self@.invited, user@);
        }
        if self.is_invited(user) {
            return false;
        }
        let ghost before = self.invited.deep_view();
        let mut invited: Vec<String> = Vec::new();
        core::mem::swap(&mut self.invited, &mut invited);
        invited.push(user.to_owned());
        assert(invited.deep_view() =~= before.push(user@));
        self.invited = invited;
        true
    }

    /// Whether `user` is invited.
    pub fn is_invited(&self, user: &str) -> (res: bool)
        ensures
            res == self@.invited.contains(user@),
    {
        let ghost s = self.invited.deep_view();
        let n = self.invited.len();
        let mut i: usize = 0;
        while i < n
            invariant
                i <= n,
                n == self.invited.len(),
                s == self.invited.deep_view(),
                forall|j: int| 0 <= j < i ==> s[j] != user@,
            decreases n - i,
        {
            if *self.invited[i].as_str() == *user {
                assert(s[i as int] == user@);
                return true;
            }
            i += 1;
        }
        false
    }

    /// The invited users, in the order in which they were first invited.
    pub fn invited(&self) -> (res: Vec<String>)
        ensures
            res.deep_view() == self@.invited,
    {
        clone_strings(&self.invited)
    }

    /// Whether anybody is invited.
    pub fn has_invitations(&self) -> (res: bool)
        ensures
            res == (self@.invited.len() > 0),
    {
        self.invited.len() > 0
    }

    /// The id of the object invited to.
    pub fn event_id(&self) -> (res: &String)
        ensures
            res@ == self@.event_id,
    {
        &self.event_id
    }

    /// The invitation of `user_id` to the manager's object, ready to be sent, or
    /// `CoreError::InvalidId` where the string is no user id. A user who is invited already
    /// gets an invitation all the same.
    pub fn invite(&self, user_id: String) -> (res: Result<InviteDraft, CoreError>)
        ensures
            is_user_id(user_id@) ==> res is Ok && res->Ok_0.to@ == self@.event_id
                && res->Ok_0.user_id@ == user_id@,
            !is_user_id(user_id@) ==> res == Err::<InviteDraft, CoreError>(CoreError::InvalidId),
    {
        match crate::ids::user_id(user_id.as_str()) {
            Ok(user_id) => Ok(InviteDraft { to: self.event_id.clone(), user_id }),
            Err(e) => Err(e),
        }
    }

    /// The key under which a change of these invitations is announced.
    pub fn update_key(&self) -> (res: IndexKey)
        ensures
            res@ == IndexKeyView::ObjectHistory(self@.event_id),
    {
        IndexKey::ObjectHistory(self.event_id.clone())
    }

    /// The key to listen on for changes of these invitations.
    pub fn subscribe(&self) -> (res: IndexKey)
        ensures
            res@ == IndexKeyView::ObjectHistory(self@.event_id),
    {
        self.update_key()
    }
}

} // verus!
