//! A zero-sized factory whose behaviour is chosen by its type parameter.

use core::marker::PhantomData;

use vstd::prelude::*;

verus! {

/// A factory for identifiers of the parameter type.
pub struct Factory<T> {
    marker: PhantomData<T>,
}

impl<T> Factory<T> {
    /// The factory carries no data; its type is its behaviour.
    pub fn new() -> (r: Self) {
        Factory { marker: PhantomData }
    }
}

/// What a factory produces from a textual input.
trait CreateId {
    type Response;

    /// Build the response for one input.
    fn create(&self, input: &str) -> Self::Response;
}

impl CreateId for Factory<i64> {
    type Response = String;

    fn create(&self, input: &str) -> (r: Self::Response)
        ensures
            r@ == input@,
    {
        input.to_owned()
    }
}

/// Drive one factory through its trait.
pub fn test() {
    let factory = Factory::<i64>::new();
    let _ = factory.create("");
}

} // verus!
