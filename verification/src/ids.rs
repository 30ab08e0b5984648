//! Checking that a string is an identifier before it is used as one.

use crate::error::CoreError;
use crate::foreign::{
    is_event_id, is_room_id, is_user_id, parse_event_id, parse_room_id, parse_user_id,
};
use vstd::prelude::*;

verus! {

/// The string as an event id, or `CoreError::InvalidId` where it is none.
pub fn event_id(s: &str) -> (res: Result<String, CoreError>)
    ensures
        is_event_id(s@) ==> res is Ok && res->Ok_0@ == s@,
        !is_event_id(s@) ==> res == Err::<String, CoreError>(CoreError::InvalidId),
{
    match parse_event_id(s) {
        Ok(id) => Ok(id),
        Err(_) => Err(CoreError::InvalidId),
    }
}

/// The string as a room id, or `CoreError::InvalidId` where it is none.
pub fn room_id(s: &str) -> (res: Result<String, CoreError>)
    ensures
        is_room_id(s@) ==> res is Ok && res->Ok_0@ == s@,
        !is_room_id(s@) ==> res == Err::<String, CoreError>(CoreError::InvalidId),
{
    match parse_room_id(s) {
        Ok(id) => Ok(id),
        Err(_) => Err(CoreError::InvalidId),
    }
}

/// The string as a user id, or `CoreError::InvalidId` where it is none.
pub fn user_id(s: &str) -> (res: Result<String, CoreError>)
    ensures
        is_user_id(s@) ==> res is Ok && res->Ok_0@ == s@,
        !is_user_id(s@) ==> res == Err::<String, CoreError>(CoreError::InvalidId),
{
    match parse_user_id(s) {
        Ok(id) => Ok(id),
        Err(_) => Err(CoreError::InvalidId),
    }
}

} // verus!
