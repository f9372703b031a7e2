//! A value that a service publishes on the bus.
//!
//! A state is registered once, with its first value, and then set and read.
//! Telling the bus about it is the caller's part: this type keeps the value and
//! the rule that a handle registers only once.

use crate::errors::Error;
use vstd::prelude::*;

verus! {

/// The handle of one published state.
pub struct State<T> {
    internal: Option<T>,
}

impl<T> View for State<T> {
    type V = Option<T>;

    /// The value that the state holds; `None` before it is registered.
    closed spec fn view(&self) -> Option<T> {
        self.internal
    }
}

impl<T> State<T> {
    /// A handle that is not registered yet.
    pub fn new() -> (state: Self)
        ensures
            state@ is None,
    {
        Self { internal: None }
    }

    /// Whether the state is registered.
    pub fn is_registered(&self) -> (registered: bool)
        ensures
            registered == self@ is Some,
    {
        self.internal.is_some()
    }

    /// Registers the state with its first value. A handle that is registered
    /// already keeps its value and answers `AlreadyRegistered`.
    pub fn register(&mut self, initial_value: T) -> (result: Result<(), Error>)
        ensures
            old(self)@ is Some ==> result == Err::<(), Error>(Error::AlreadyRegistered),
            old(self)@ is Some ==> final(self)@ == old(self)@,
            old(self)@ is None ==> result is Ok,
            old(self)@ is None ==> final(self)@ == Some(initial_value),
    {
        if self.internal.is_some() {
            return Err(Error::AlreadyRegistered);
        }
        self.internal = Some(initial_value);
        Ok(())
    }

    /// Replaces the value of a registered state.
    pub fn set(&mut self, value: T)
        requires
            old(self)@ is Some,
        ensures
            final(self)@ == Some(value),
    {
        self.internal = Some(value);
    }

    /// The value of a registered state.
    pub fn get(&self) -> (value: &T)
        requires
            self@ is Some,
        ensures
            self@ == Some(*value),
    {
        self.internal.as_ref().unwrap()
    }
}

} // verus!
