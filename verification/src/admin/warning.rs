use vstd::prelude::*;
use std::marker::PhantomData;

verus! {

/// A warning sign whose tooltip shows `message`, for a view with messages of type `M`.
pub struct Warning<M> {
    pub message: String,
    pub t: PhantomData<M>,
}

impl<M> Warning<M> {
    /// A warning that shows `message`.
    pub fn new(message: String) -> (w: Self)
        ensures
            w.message == message,
    {
        Self { message, t: PhantomData }
    }
}

} // verus!
