//! Changes to a field that may be empty.

use vstd::prelude::*;

verus! {

/// What an update does to a field that may be empty: leave it as it is, empty it,
/// or give it a value.
#[derive(Debug, Clone, PartialEq)]
pub enum Patch<T> {
    Keep,
    Clear,
    Assign(T),
}

impl<T: DeepView> DeepView for Patch<T> {
    type V = Patch<T::V>;

    open spec fn deep_view(&self) -> Patch<T::V> {
        match *self {
            Patch::Keep => Patch::Keep,
            Patch::Clear => Patch::Clear,
            Patch::Assign(value) => Patch::Assign(value.deep_view()),
        }
    }
}

impl<T> Patch<T> {
    /// The field after the update, given the field before it.
    pub open spec fn applied(self, current: Option<T>) -> Option<T> {
        match self {
            Patch::Keep => current,
            Patch::Clear => None,
            Patch::Assign(value) => Some(value),
        }
    }

    /// The field after the update, given the field before it.
    pub fn apply(self, current: Option<T>) -> (r: Option<T>)
        ensures
            r == self.applied(current),
    {
        match self {
            Patch::Keep => current,
            Patch::Clear => None,
            Patch::Assign(value) => Some(value),
        }
    }

    /// Whether the update touches the field.
    pub fn is_change(&self) -> (r: bool)
        ensures
            r == !(self is Keep),
    {
        match self {
            Patch::Keep => false,
            _ => true,
        }
    }
}

} // verus!
