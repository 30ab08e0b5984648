//! The envelope that every event carries, and the plain date and time values of the models.

use crate::foreign::{midnight_utc, midnight_utc_secs};
use vstd::prelude::*;

verus! {

/// The immutable envelope of one event.
#[derive(Debug)]
pub struct EventMeta {
    /// Globally unique id of the event.
    pub event_id: String,
    /// The room that holds the event.
    pub room_id: String,
    /// Who sent it.
    pub sender: String,
    /// Origin timestamp in milliseconds, monotonic within one room only.
    pub origin_server_ts: u64,
    /// The raw type discriminator the event arrived with.
    pub event_type: String,
}

/// Mathematical model of an [`EventMeta`].
pub struct EventMetaView {
    pub event_id: Seq<char>,
    pub room_id: Seq<char>,
    pub sender: Seq<char>,
    pub origin_server_ts: u64,
    pub event_type: Seq<char>,
}

impl View for EventMeta {
    type V = EventMetaView;

    open spec fn view(&self) -> EventMetaView {
        EventMetaView {
            event_id: self.event_id@,
            room_id: self.room_id@,
            sender: self.sender@,
            origin_server_ts: self.origin_server_ts,
            event_type: self.event_type@,
        }
    }
}

impl DeepView for EventMeta {
    type V = EventMetaView;

    open spec fn deep_view(&self) -> EventMetaView {
        self@
    }
}

impl Clone for EventMeta {
    fn clone(&self) -> (res: Self)
        ensures
            res@ == self@,
    {
        EventMeta {
            event_id: self.event_id.clone(),
            room_id: self.room_id.clone(),
            sender: self.sender.clone(),
            origin_server_ts: self.origin_server_ts,
            event_type: self.event_type.clone(),
        }
    }
}

/// A point in time in UTC: seconds since the Unix epoch and the nanoseconds beyond them.
#[derive(Clone, Copy, Debug, PartialEq, Eq, Structural)]
pub struct UtcDateTime {
    pub secs: i64,
    pub nanos: u32,
}

impl DeepView for UtcDateTime {
    type V = UtcDateTime;

    open spec fn deep_view(&self) -> UtcDateTime {
        *self
    }
}

impl UtcDateTime {
    /// The point in time that lies `secs` whole seconds after the Unix epoch.
    pub fn from_timestamp(secs: i64) -> (res: UtcDateTime)
        ensures
            res == (UtcDateTime { secs, nanos: 0 }),
    {
        UtcDateTime { secs, nanos: 0 }
    }
}

/// A calendar date without a time zone.
#[derive(Clone, Copy, Debug, PartialEq, Eq, Structural)]
pub struct NaiveDate {
    pub year: i32,
    pub month: u32,
    pub day: u32,
}

impl DeepView for NaiveDate {
    type V = NaiveDate;

    open spec fn deep_view(&self) -> NaiveDate {
        *self
    }
}

impl NaiveDate {
    /// Midnight UTC at the start of this date; `None` where the calendar has no such date.
    pub open spec fn midnight(self) -> Option<UtcDateTime> {
        match midnight_utc_secs(self.year as int, self.month as int, self.day as int) {
            Some(secs) => Some(UtcDateTime { secs: secs as i64, nanos: 0 }),
            None => None,
        }
    }

    /// Midnight UTC at the start of this date; `None` where the calendar has no such date.
    pub fn and_midnight_utc(&self) -> (res: Option<UtcDateTime>)
        ensures
            res == self.midnight(),
    {
        match midnight_utc(self.year, self.month, self.day) {
            Some(secs) => Some(UtcDateTime::from_timestamp(secs)),
            None => None,
        }
    }
}

} // verus!
