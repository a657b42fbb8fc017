//! A field of a request that may be left out: leaving a field out keeps what
//! is there, which is not the same as setting it to something empty.

use vstd::prelude::*;

verus! {

/// A value that a request sets, or leaves as it is.
#[derive(Debug, Clone, Copy, PartialEq, Eq)]
pub enum ProvidedValue<T> {
    SetTo(T),
    Unset,
}

impl<T> ProvidedValue<T> {
    /// Whether the request sets the value.
    pub fn is_set(&self) -> (r: bool)
        ensures
            r == (*self is SetTo),
    {
        match self {
            ProvidedValue::SetTo(_) => true,
            ProvidedValue::Unset => false,
        }
    }

    /// The value that the request sets, if it sets one.
    pub fn to_option(self) -> (r: Option<T>)
        ensures
            r == match self {
                ProvidedValue::SetTo(value) => Some(value),
                ProvidedValue::Unset => None,
            },
    {
        match self {
            ProvidedValue::SetTo(value) => Some(value),
            ProvidedValue::Unset => None,
        }
    }
}

impl<T> Default for ProvidedValue<T> {
    fn default() -> (r: ProvidedValue<T>)
        ensures
            r == ProvidedValue::<T>::Unset,
    {
        ProvidedValue::Unset
    }
}

} // verus!
