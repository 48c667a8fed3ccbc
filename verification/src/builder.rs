//! Provides builder related helpers

use vstd::prelude::*;

verus! {

/// Implements a `builder()` function for the specified type
pub trait BuilderDelegate<T: Default> {
    /// Initializes a new default builder of type `T`
    fn builder() -> (builder: T)
        ensures
            call_ensures(T::default, (), builder),
    {
        T::default()
    }
}

} // verus!
