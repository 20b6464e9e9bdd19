//! The state container of the sandbox target: one slot for one state value,
//! absent until it is set, reached only through its accessors.

use vstd::prelude::*;
use vstd::string::StringExecFns;

verus! {

/// Why an accessor could not reach the state.
#[derive(Debug, Clone, Copy, PartialEq, Eq, Structural)]
pub enum StateError {
    /// The container was never given a value.
    NotInitialized,
}

/// The text of the fault for an accessor that finds the container empty: it
/// names the step that was left out.
pub open spec fn not_initialized_text() -> Seq<char> {
    "webtau: state not initialized \u{2014} call set_state() first"@
}

impl StateError {
    /// The message of the fault.
    pub fn message(&self) -> (text: String)
        ensures
            text@ == not_initialized_text(),
    {
        String::from_str("webtau: state not initialized \u{2014} call set_state() first")
    }
}

/// A slot that holds the state or nothing.
pub struct StateContainer<T> {
    slot: Option<T>,
}

impl<T> StateContainer<T> {
    /// What the container holds: `None` until the first `set_state`.
    pub closed spec fn view(&self) -> Option<T> {
        self.slot
    }

    /// A container that holds nothing yet.
    pub fn new() -> (c: Self)
        ensures
            c@ is None,
    {
        StateContainer { slot: None }
    }

    /// Whether the container was given a value.
    pub fn is_initialized(&self) -> (b: bool)
        ensures
            b == (self@ is Some),
    {
        self.slot.is_some()
    }

    /// Sets the state, or replaces the one that is there.
    pub fn set_state(&mut self, val: T)
        ensures
            final(self)@ == Some(val),
    {
        self.slot = Some(val);
    }

    /// Runs `f` on the state, borrowed for reading, and hands back what it
    /// returns. The container must hold a value.
    pub fn with_state<F, R>(&self, f: F) -> (r: R) where F: FnOnce(&T) -> R
        requires
            self@ is Some,
            f.requires((&self@->0,)),
        ensures
            f.ensures((&self@->0,), r),
    {
        let state = self.slot.as_ref().expect(
            "webtau: state not initialized \u{2014} call set_state() first",
        );
        f(state)
    }
}

impl<T> StateContainer<T> {
    /// Runs `f` on the state, borrowed for writing, and hands back what it
    /// returns. The container must hold a value; afterwards it holds the
    /// value as `f` left it.
    pub fn with_state_mut<F, R>(&mut self, f: F) -> (r: R) where F: FnOnce(&mut T) -> R
        requires
            old(self)@ is Some,
            forall|s: &mut T| *s == old(self)@->0 ==> f.requires((s,)),
        ensures
            final(self)@ is Some,
            exists|s: &mut T|
                *s == old(self)@->0 && *final(s) == final(self)@->0 && f.ensures((s,), r),
    {
        let state = self.slot.as_mut().expect(
            "webtau: state not initialized \u{2014} call set_state() first",
        );
        f(state)
    }
}

impl<T> StateContainer<T> {
    /// Runs `f` on the state, borrowed for reading, where the container
    /// holds one, and reports the missing initialization where it does not.
    /// An empty container is never filled with a made-up value.
    pub fn try_with_state<F, R>(&self, f: F) -> (res: Result<R, StateError>) where
        F: FnOnce(&T) -> R,

        requires
            self@ is Some ==> f.requires((&self@->0,)),
        ensures
            self@ is None ==> res == Err::<R, StateError>(StateError::NotInitialized),
            self@ is Some ==> res is Ok && f.ensures((&self@->0,), res->Ok_0),
    {
        match self.slot.as_ref() {
            Some(state) => Ok(f(state)),
            None => Err(StateError::NotInitialized),
        }
    }

    /// Runs `f` on the state, borrowed for writing, where the container
    /// holds one, and reports the missing initialization where it does not;
    /// the container then stays empty.
    pub fn try_with_state_mut<F, R>(&mut self, f: F) -> (res: Result<R, StateError>) where
        F: FnOnce(&mut T) -> R,

        requires
            old(self)@ is Some ==> forall|s: &mut T| *s == old(self)@->0 ==> f.requires((s,)),
        ensures
            old(self)@ is None ==> final(self)@ is None && res == Err::<R, StateError>(
                StateError::NotInitialized,
            ),
            old(self)@ is Some ==> final(self)@ is Some && res is Ok && exists|s: &mut T|
                *s == old(self)@->0 && *final(s) == final(self)@->0 && f.ensures(
                    (s,),
                    res->Ok_0,
                ),
    {
        match self.slot.as_mut() {
            Some(state) => Ok(f(state)),
            None => Err(StateError::NotInitialized),
        }
    }
}

} // verus!
