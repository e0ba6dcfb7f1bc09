//! The outcome of asking for a value that may not be there yet.

use vstd::prelude::*;

verus! {

/// Either a value, or the word that there is none yet and the caller has to ask again.
#[derive(Debug, PartialEq, Eq)]
pub enum Poll<T> {
    /// The value is here.
    Ready(T),
    /// There is no value yet.
    Pending,
}

} // verus!
