//! What can go wrong.

use vstd::prelude::*;

verus! {

/// The ways in which a request to the library fails.
#[derive(Clone, Copy, Debug, PartialEq, Eq, Structural)]
pub enum CoreError {
    /// The store holds no event of the id asked for.
    NotFound,
    /// No activity is defined for an event of this kind.
    Unsupported,
    /// The caller may not send into the room.
    PermissionDenied,
    /// The caller is not among the members of the room.
    NotAMember,
    /// A string that should be an event, room or user id is none.
    InvalidId,
    /// The session has no device id, so nothing can be said that depends on the device.
    DeviceIdNotFound,
    /// There is a notification, but it is not to be shown.
    HiddenNotification,
    /// The event asked for is of another kind than the caller expects.
    UnexpectedKind,
    /// The width of a thumbnail is beyond what the wire format can carry.
    InvalidThumbnailWidth,
    /// The height of a thumbnail is beyond what the wire format can carry.
    InvalidThumbnailHeight,
    /// A notification mode was named that does not exist.
    UnknownNotificationMode,
    /// The clock reads a time too close to the start of the Unix epoch to look back from.
    ClockOutOfRange,
}

impl CoreError {
    /// What to tell a person about the failure.
    pub open spec fn text(self) -> Seq<char> {
        match self {
            CoreError::NotFound => "Event not found"@,
            CoreError::Unsupported => "Converting model into activity not yet supported"@,
            CoreError::PermissionDenied => "No permission to send message in this room"@,
            CoreError::NotAMember => "Couldn't find me among room members"@,
            CoreError::InvalidId => "Not a valid identifier"@,
            CoreError::DeviceIdNotFound => "DeviceId not found"@,
            CoreError::HiddenNotification => "(hidden notification)"@,
            CoreError::UnexpectedKind => "Event is not of the expected kind"@,
            CoreError::InvalidThumbnailWidth => "invalid thumbnail width"@,
            CoreError::InvalidThumbnailHeight => "invalid thumbnail height"@,
            CoreError::UnknownNotificationMode => "Unknown Notification Level"@,
            CoreError::ClockOutOfRange => "Unable to get time of 90 days ago"@,
        }
    }

    /// What to tell a person about the failure.
    pub fn message(&self) -> (res: &'static str)
        ensures
            res@ == self.text(),
    {
        match self {
            CoreError::NotFound => "Event not found",
            CoreError::Unsupported => "Converting model into activity not yet supported",
            CoreError::PermissionDenied => "No permission to send message in this room",
            CoreError::NotAMember => "Couldn't find me among room members",
            CoreError::InvalidId => "Not a valid identifier",
            CoreError::DeviceIdNotFound => "DeviceId not found",
            CoreError::HiddenNotification => "(hidden notification)",
            CoreError::UnexpectedKind => "Event is not of the expected kind",
            CoreError::InvalidThumbnailWidth => "invalid thumbnail width",
            CoreError::InvalidThumbnailHeight => "invalid thumbnail height",
            CoreError::UnknownNotificationMode => "Unknown Notification Level",
            CoreError::ClockOutOfRange => "Unable to get time of 90 days ago",
        }
    }
}

} // verus!
