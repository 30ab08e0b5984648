//! The three states of a field in an update: not mentioned, cleared, or set.

use vstd::prelude::*;

verus! {

/// What an update says about one field.
#[derive(Debug)]
pub enum TriState<T> {
    /// The field is not mentioned: the base value stays.
    Absent,
    /// The field is explicitly cleared.
    Empty,
    /// The field is explicitly set.
    Value(T),
}

impl<T: DeepView> DeepView for TriState<T> {
    type V = TriState<T::V>;

    open spec fn deep_view(&self) -> TriState<T::V> {
        match self {
            TriState::Absent => TriState::Absent,
            TriState::Empty => TriState::Empty,
            TriState::Value(v) => TriState::Value(v.deep_view()),
        }
    }
}

impl<T> TriState<T> {
    /// The value of an optional field after this update, given its value before.
    pub open spec fn merged(self, base: Option<T>) -> Option<T> {
        match self {
            TriState::Absent => base,
            TriState::Empty => None,
            TriState::Value(v) => Some(v),
        }
    }

    /// The value of a mandatory field after this update, given its value before and the
    /// value that stands for "empty".
    pub open spec fn merged_or(self, base: T, empty: T) -> T {
        match self {
            TriState::Absent => base,
            TriState::Empty => empty,
            TriState::Value(v) => v,
        }
    }

    /// Whether the update mentions the field at all.
    pub fn is_present(&self) -> (res: bool)
        ensures
            res == !(self is Absent),
    {
        match self {
            TriState::Absent => false,
            _ => true,
        }
    }
}

impl<T: Clone> Clone for TriState<T> {
    fn clone(&self) -> (res: Self)
        ensures
            *self is Absent <==> res is Absent,
            *self is Empty <==> res is Empty,
            *self is Value <==> res is Value,
            *self is Value ==> cloned::<T>(self->Value_0, res->Value_0),
    {
        match self {
            TriState::Absent => TriState::Absent,
            TriState::Empty => TriState::Empty,
            TriState::Value(v) => TriState::Value(v.clone()),
        }
    }
}

/// Merging the same state twice gives what merging it once gives.
pub proof fn lemma_merged_idempotent<T>(s: TriState<T>, base: Option<T>)
    ensures
        s.merged(s.merged(base)) == s.merged(base),
{
}

/// Merging the same state twice into a mandatory field gives what merging it once gives.
pub proof fn lemma_merged_or_idempotent<T>(s: TriState<T>, base: T, empty: T)
    ensures
        s.merged_or(s.merged_or(base, empty), empty) == s.merged_or(base, empty),
{
}

/// When two updates both mention a field, the one applied last decides it.
pub proof fn lemma_merged_last_wins<T>(first: TriState<T>, second: TriState<T>, base: Option<T>)
    requires
        !(second is Absent),
    ensures
        second.merged(first.merged(base)) == second.merged(None),
{
}

} // verus!
