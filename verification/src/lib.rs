//! Event-sourced derivation of typed objects and of an activity feed from the ordered
//! events of a room.
//!
//! Events come in one by one and are kept by the [`store::Store`], each once and in the
//! order of arrival. An event that updates an object is folded into the object field by
//! field ([`tristate::TriState`]); reactions and invitations are folded into one entry per
//! sender ([`reactions`]) and one per invited user ([`invitations`]). Reading goes through
//! [`activities::Activity`], which says for each event what it means to a person, and
//! through [`activities::feed`], which pages through a room or an object.
//!
//! The calls into other crates are gathered in [`foreign`], each with the contract it is
//! trusted to keep.

pub mod activities;
pub mod client;
pub mod common;
pub mod content;
pub mod device;
pub mod error;
pub mod events;
pub mod foreign;
pub mod ids;
pub mod invitations;
pub mod meta;
pub mod models;
pub mod platform;
pub mod profile;
pub mod push;
pub mod reactions;
pub mod referencing;
pub mod store;
pub mod subscriptions;
pub mod super_invites;
pub mod text;
pub mod tristate;
