//! Pins: a titled note with an optional text and link.

use crate::content::{TextContent, TextContentView};
use crate::meta::{EventMeta, EventMetaView};
use crate::tristate::TriState;
use vstd::prelude::*;

verus! {

/// A pin as it currently stands.
#[derive(Debug)]
pub struct Pin {
    pub meta: EventMeta,
    pub title: String,
    pub description: Option<TextContent>,
    pub url: Option<String>,
}

/// Mathematical model of a [`Pin`].
pub struct PinView {
    pub meta: EventMetaView,
    pub title: Seq<char>,
    pub description: Option<TextContentView>,
    pub url: Option<Seq<char>>,
}

impl View for Pin {
    type V = PinView;

    open spec fn view(&self) -> PinView {
        PinView {
            meta: self.meta@,
            title: self.title@,
            description: self.description.deep_view(),
            url: self.url.deep_view(),
        }
    }
}

impl DeepView for Pin {
    type V = PinView;

    open spec fn deep_view(&self) -> PinView {
        self@
    }
}

impl Clone for Pin {
    fn clone(&self) -> (res: Self)
        ensures
            res@ == self@,
    {
        Pin {
            meta: self.meta.clone(),
            title: self.title.clone(),
            description: self.description.clone(),
            url: self.url.clone(),
        }
    }
}

/// A partial update of a pin.
#[derive(Debug)]
pub struct PinUpdate {
    pub meta: EventMeta,
    /// Event id of the pin this update is for.
    pub pin: String,
    pub title: TriState<String>,
    pub description: TriState<TextContent>,
    pub url: TriState<String>,
}

/// Mathematical model of a [`PinUpdate`].
pub struct PinUpdateView {
    pub meta: EventMetaView,
    pub pin: Seq<char>,
    pub title: TriState<Seq<char>>,
    pub description: TriState<TextContentView>,
    pub url: TriState<Seq<char>>,
}

impl View for PinUpdate {
    type V = PinUpdateView;

    open spec fn view(&self) -> PinUpdateView {
        PinUpdateView {
            meta: self.meta@,
            pin: self.pin@,
            title: self.title.deep_view(),
            description: self.description.deep_view(),
            url: self.url.deep_view(),
        }
    }
}

impl DeepView for PinUpdate {
    type V = PinUpdateView;

    open spec fn deep_view(&self) -> PinUpdateView {
        self@
    }
}

impl Clone for PinUpdate {
    fn clone(&self) -> (res: Self)
        ensures
            res@ == self@,
    {
        PinUpdate {
            meta: self.meta.clone(),
            pin: self.pin.clone(),
            title: self.title.clone(),
            description: self.description.clone(),
            url: self.url.clone(),
        }
    }
}

impl PinUpdateView {
    /// The update mentions no field.
    pub open spec fn is_noop(self) -> bool {
        self.title is Absent && self.description is Absent && self.url is Absent
    }
}

impl PinView {
    /// The pin after `u` has been folded into it.
    pub open spec fn applied(self, u: PinUpdateView) -> PinView {
        PinView {
            meta: self.meta,
            title: u.title.merged_or(self.title, Seq::empty()),
            description: u.description.merged(self.description),
            url: u.url.merged(self.url),
        }
    }
}

impl Pin {
    /// Folds `update` into this pin, field by field: an absent field keeps the value, an
    /// empty one clears it, a set one overwrites it.
    pub fn apply(&mut self, update: &PinUpdate)
        ensures
            final(self)@ == old(self)@.applied(update@),
    {
        match &update.title {
            TriState::Absent => {},
            TriState::Empty => {
                self.title = String::new();
            },
            TriState::Value(v) => {
                self.title = v.clone();
            },
        }
        match &update.description {
            TriState::Absent => {},
            TriState::Empty => {
                self.description = None;
            },
            TriState::Value(v) => {
                self.description = Some(v.clone());
            },
        }
        match &update.url {
            TriState::Absent => {},
            TriState::Empty => {
                self.url = None;
            },
            TriState::Value(v) => {
                self.url = Some(v.clone());
            },
        }
    }
}

/// Folding the same update in twice gives what folding it in once gives.
pub proof fn lemma_pin_apply_idempotent(pin: PinView, u: PinUpdateView)
    ensures
        pin.applied(u).applied(u) == pin.applied(u),
{
}

/// An update that mentions no field leaves the pin as it was. A field that the update
/// does not mention keeps its value, whatever the update says of other fields, and a
/// field that it gives as empty is cleared: an update changes exactly the fields it
/// mentions.
pub proof fn lemma_pin_apply_tristate(pin: PinView, u: PinUpdateView)
    ensures
        u.is_noop() ==> pin.applied(u) == pin,
        pin.applied(u).meta == pin.meta,
        u.title is Absent ==> pin.applied(u).title == pin.title,
        u.title is Empty ==> pin.applied(u).title == Seq::<char>::empty(),
        u.description is Absent ==> pin.applied(u).description == pin.description,
        u.description is Empty ==> pin.applied(u).description is None,
        u.url is Absent ==> pin.applied(u).url == pin.url,
        u.url is Empty ==> pin.applied(u).url is None,
{
}

/// Of two updates folded in one after the other, the later decides every field it mentions,
/// so the two orders may give different pins.
pub proof fn lemma_pin_apply_last_wins(pin: PinView, first: PinUpdateView, second: PinUpdateView)
    ensures
        !(second.title is Absent) ==> pin.applied(first).applied(second).title
            == pin.applied(second).title,
        !(second.description is Absent) ==> pin.applied(first).applied(second).description
            == pin.applied(second).description,
        !(second.url is Absent) ==> pin.applied(first).applied(second).url
            == pin.applied(second).url,
{
}

} // verus!
