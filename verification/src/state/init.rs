//! Setting a state up once and reading it afterwards.

use vstd::prelude::*;

verus! {

/// Why the state could not be set up or be had.
#[derive(Debug, Clone, Copy, PartialEq, Eq, Structural)]
pub enum InitError {
    /// The state has been set up before.
    AlreadyInitialized,
    /// The state has not been set up yet.
    Uninitialized,
    /// The state could not be built.
    StateBuildError,
}

/// The holder of a state that is set up once and never changed.
pub struct Initializer<S> {
    state: Option<S>,
}

impl<S> Initializer<S> {
    /// The state, once it is set up.
    pub closed spec fn state(&self) -> Option<S> {
        self.state
    }

    /// A holder without state.
    pub fn new() -> (i: Initializer<S>)
        ensures
            i.state() is None,
    {
        Initializer { state: None }
    }

    /// Sets the state up. A state that is there stays, and the attempt is
    /// an error.
    pub fn init(&mut self, state: S) -> (r: Result<&S, InitError>)
        ensures
            old(self).state() is Some ==> r == Err::<&S, InitError>(InitError::AlreadyInitialized)
                && final(self).state() == old(self).state(),
            old(self).state() is None ==> r == Ok::<&S, InitError>(&state) && final(self).state()
                == Some(state),
    {
        if self.state.is_some() {
            return Err(InitError::AlreadyInitialized);
        }
        self.state = Some(state);
        match &self.state {
            Some(s) => Ok(s),
            None => Err(InitError::Uninitialized),
        }
    }

    /// The state, or an error if it has not been set up.
    pub fn get(&self) -> (r: Result<&S, InitError>)
        ensures
            match self.state() {
                Some(s) => r == Ok::<&S, InitError>(&s),
                None => r == Err::<&S, InitError>(InitError::Uninitialized),
            },
    {
        match &self.state {
            Some(s) => Ok(s),
            None => Err(InitError::Uninitialized),
        }
    }

    /// Whether the state is set up.
    pub fn is_initialized(&self) -> (b: bool)
        ensures
            b == self.state() is Some,
    {
        self.state.is_some()
    }
}

} // verus!
