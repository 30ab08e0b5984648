//! Invitation tokens: reading them, and putting together what creates or changes one.

use crate::text::clone_strings;
use vstd::prelude::*;

verus! {

/// The rooms of `rooms` other than `room`, in their order.
pub open spec fn without_room(rooms: Seq<Seq<char>>, room: Seq<char>) -> Seq<Seq<char>> {
    rooms.filter(|r: Seq<char>| r != room)
}

/// An invitation token as the server knows it.
#[derive(Debug)]
pub struct Token {
    pub token: String,
    pub create_dm: bool,
    pub accepted_count: u32,
    pub rooms: Vec<String>,
}

/// What is asked of the server to make a token. A token without a name gets one from the
/// server.
#[derive(Debug)]
pub struct CreateToken {
    pub token: Option<String>,
    pub create_dm: Option<bool>,
    pub rooms: Vec<String>,
}

/// What is asked of the server to change the token of the name given.
#[derive(Debug)]
pub struct UpdateToken {
    pub token: String,
    pub create_dm: bool,
    pub rooms: Vec<String>,
}

/// An invitation token, for reading.
pub struct SuperInviteToken {
    pub token: Token,
}

impl SuperInviteToken {
    pub fn new(token: Token) -> (res: SuperInviteToken)
        ensures
            res.token.token@ == token.token@,
            res.token.create_dm == token.create_dm,
            res.token.accepted_count == token.accepted_count,
            res.token.rooms.deep_view() == token.rooms.deep_view(),
    {
        SuperInviteToken { token }
    }

    pub fn token(&self) -> (res: String)
        ensures
            res@ == self.token.token@,
    {
        self.token.token.clone()
    }

    pub fn create_dm(&self) -> (res: bool)
        ensures
            res == self.token.create_dm,
    {
        self.token.create_dm
    }

    pub fn accepted_count(&self) -> (res: u32)
        ensures
            res == self.token.accepted_count,
    {
        self.token.accepted_count
    }

    pub fn rooms(&self) -> (res: Vec<String>)
        ensures
            res.deep_view() == self.token.rooms.deep_view(),
    {
        clone_strings(&self.token.rooms)
    }

    /// A builder that starts from this token: its name, whether it opens a direct chat, and
    /// its rooms.
    pub fn update_builder(&self) -> (res: SuperInvitesTokenUpdateBuilder)
        ensures
            res.token.token.deep_view() == Some(self.token.token@),
            res.token.create_dm == Some(self.token.create_dm),
            res.token.rooms.deep_view() == self.token.rooms.deep_view(),
    {
        SuperInvitesTokenUpdateBuilder {
            token: CreateToken {
                token: Some(self.token()),
                create_dm: Some(self.create_dm()),
                rooms: self.rooms(),
            },
        }
    }
}

/// What to ask of the server for a token that has been put together.
#[derive(Debug)]
pub enum TokenRequest {
    /// Change the token of this name.
    Update(UpdateToken),
    /// Make a new token.
    Create(CreateToken),
}

/// A token while it is being put together.
pub struct SuperInvitesTokenUpdateBuilder {
    pub token: CreateToken,
}

impl SuperInvitesTokenUpdateBuilder {
    /// A builder for a token without a name, without rooms, and with nothing said about
    /// direct chats.
    pub fn new() -> (res: SuperInvitesTokenUpdateBuilder)
        ensures
            res.token.token is None,
            res.token.create_dm is None,
            res.token.rooms.deep_view() == Seq::<Seq<char>>::empty(),
    {
        let rooms: Vec<String> = Vec::new();
        assert(rooms.deep_view() =~= Seq::<Seq<char>>::empty());
        SuperInvitesTokenUpdateBuilder {
            token: CreateToken { token: None, create_dm: None, rooms },
        }
    }

    /// Names the token.
    pub fn token(&mut self, token: String)
        ensures
            final(self).token.token.deep_view() == Some(token@),
            final(self).token.create_dm == old(self).token.create_dm,
            final(self).token.rooms.deep_view() == old(self).token.rooms.deep_view(),
    {
        self.token.token = Some(token);
    }

    /// Adds a room at the end, also where the room is there already.
    pub fn add_room(&mut self, room: String)
        ensures
            final(self).token.rooms.deep_view() == old(self).token.rooms.deep_view().push(room@),
            final(self).token.token.deep_view() == old(self).token.token.deep_view(),
            final(self).token.create_dm == old(self).token.create_dm,
    {
        let ghost before = self.token.rooms.deep_view();
        self.token.rooms.push(room);
        assert(self.token.rooms.deep_view() =~= before.push(room@));
    }

    /// Takes a room out, as often as it is there.
    pub fn remove_room(&mut self, room: String)
        ensures
            final(self).token.rooms.deep_view() == without_room(
                old(self).token.rooms.deep_view(),
                room@,
            ),
            final(self).token.token.deep_view() == old(self).token.token.deep_view(),
            final(self).token.create_dm == old(self).token.create_dm,
    {
        let ghost before = self.token.rooms.deep_view();
        let ghost other = |r: Seq<char>| r != room@;
        let mut rooms: Vec<String> = Vec::new();
        core::mem::swap(&mut self.token.rooms, &mut rooms);
        let mut kept: Vec<String> = Vec::new();
        let n = rooms.len();
        let mut i: usize = 0;
        proof {
            reveal(Seq::filter);
            assert(before.take(0) =~= Seq::<Seq<char>>::empty());
            assert(kept.deep_view() =~= before.take(0).filter(other));
        }
        while i < n
            invariant
                i <= n,
                n == rooms.len(),
                rooms.deep_view() == before,
                other == |r: Seq<char>| r != room@,
                kept.deep_view() == before.take(i as int).filter(other),
            decreases n - i,
        {
            let ghost collected = kept.deep_view();
            proof {
                reveal(Seq::filter);
                assert(before.take(i + 1).drop_last() =~= before.take(i as int));
                assert(before.take(i + 1).last() == before[i as int]);
            }
            if rooms[i] != room {
                kept.push(rooms[i].clone());
                assert(kept.deep_view() =~= collected.push(before[i as int]));
            }
            i += 1;
        }
        assert(before.take(n as int) =~= before);
        self.token.rooms = kept;
    }

    /// Says whether redeeming the token opens a direct chat.
    pub fn create_dm(&mut self, val: bool)
        ensures
            final(self).token.create_dm == Some(val),
            final(self).token.token.deep_view() == old(self).token.token.deep_view(),
            final(self).token.rooms.deep_view() == old(self).token.rooms.deep_view(),
    {
        self.token.create_dm = Some(val);
    }

    /// Whether the token has a name.
    pub fn has_token(&self) -> (res: bool)
        ensures
            res == self.token.token is Some,
    {
        self.token.token.is_some()
    }

    /// What changes the token of the builder's name: `None` where the builder has no name;
    /// nothing said about direct chats counts as no.
    pub fn into_update_token(self) -> (res: Option<UpdateToken>)
        ensures
            self.token.token is None ==> res is None,
            self.token.token is Some ==> res is Some && res->Some_0.token@
                == self.token.token->Some_0@ && res->Some_0.rooms.deep_view()
                == self.token.rooms.deep_view() && res->Some_0.create_dm == (
            self.token.create_dm == Some(true)),
    {
        let CreateToken { create_dm, rooms, token } = self.token;
        match token {
            Some(token) => Some(
                UpdateToken {
                    token,
                    create_dm: match create_dm {
                        Some(b) => b,
                        None => false,
                    },
                    rooms,
                },
            ),
            None => None,
        }
    }
}

/// The part of the library that speaks about invitation tokens with the server.
pub struct SuperInvites {}

impl SuperInvites {
    /// What to ask of the server for the token of `builder`: a change of the token of its
    /// name where it has one, and a new token else.
    pub fn create_or_update_token(builder: SuperInvitesTokenUpdateBuilder) -> (res: TokenRequest)
        ensures
            match builder.token.token {
                Some(name) => res matches TokenRequest::Update(u) && u.token@ == name@
                    && u.rooms.deep_view() == builder.token.rooms.deep_view() && u.create_dm == (
                builder.token.create_dm == Some(true)),
                None => res matches TokenRequest::Create(c) && c.token is None && c.create_dm
                    == builder.token.create_dm && c.rooms.deep_view()
                    == builder.token.rooms.deep_view(),
            },
    {
        let CreateToken { token, create_dm, rooms } = builder.token;
        match token {
            Some(name) => TokenRequest::Update(
                UpdateToken {
                    token: name,
                    create_dm: match create_dm {
                        Some(b) => b,
                        None => false,
                    },
                    rooms,
                },
            ),
            None => TokenRequest::Create(CreateToken { token: None, create_dm, rooms }),
        }
    }
}

} // verus!
