//! Relays driven through a coil driver: normally-open and normally-closed
//! contacts, and the boolean reading of a contact state.
use vstd::prelude::*;

verus! {

/// A coil driver: something that can energize or release a relay coil.
pub trait RelayCtrl: Sized {
    /// Whether the coil is currently energized.
    spec fn energized(&self) -> bool;

    fn energize(&mut self)
        ensures
            final(self).energized(),
    ;

    fn de_energize(&mut self)
        ensures
            !final(self).energized(),
    ;

    fn is_energize(&self) -> (r: bool)
        ensures
            r == self.energized(),
    ;
}

/// Contact state of a relay.
#[derive(Debug, Clone, Copy, PartialEq, Eq, Structural)]
pub enum State {
    Open,
    Close,
}

/// A relay whose contacts are driven through a coil driver `T`.
pub trait Relay<T: RelayCtrl>: Sized {
    /// The contact state of the relay.
    spec fn contact(&self) -> State;

    /// The coil driver inside the relay.
    spec fn driver(&self) -> T;

    fn new(inner: T) -> (r: Self)
        ensures
            r.driver() == inner,
    ;

    fn set_state(&mut self, state: State)
        ensures
            final(self).contact() == state,
    ;

    fn get_state(&self) -> (r: State)
        ensures
            r == self.contact(),
    ;
}

/// Normally-open relay: the contacts close while the coil is energized.
#[derive(Debug)]
pub struct NO<T: RelayCtrl>(pub T);

impl<T: RelayCtrl> Relay<T> for NO<T> {
    open spec fn contact(&self) -> State {
        if self.0.energized() {
            State::Close
        } else {
            State::Open
        }
    }

    open spec fn driver(&self) -> T {
        self.0
    }

    fn new(inner: T) -> (r: Self) {
        NO(inner)
    }

    fn set_state(&mut self, state: State) {
        match state {
            State::Open => self.0.de_energize(),
            State::Close => self.0.energize(),
        }
    }

    fn get_state(&self) -> (r: State) {
        if self.0.is_energize() {
            State::Close
        } else {
            State::Open
        }
    }
}

/// Normally-closed relay: the contacts open while the coil is energized.
#[derive(Debug)]
pub struct NC<T: RelayCtrl>(pub T);

impl<T: RelayCtrl> Relay<T> for NC<T> {
    open spec fn contact(&self) -> State {
        if self.0.energized() {
            State::Open
        } else {
            State::Close
        }
    }

    open spec fn driver(&self) -> T {
        self.0
    }

    fn new(inner: T) -> (r: Self) {
        NC(inner)
    }

    fn set_state(&mut self, state: State) {
        match state {
            State::Open => self.0.energize(),
            State::Close => self.0.de_energize(),
        }
    }

    fn get_state(&self) -> (r: State) {
        if self.0.is_energize() {
            State::Open
        } else {
            State::Close
        }
    }
}

/// `true` asks for closed contacts, `false` for open ones.
pub open spec fn state_of_bool(value: bool) -> State {
    if value {
        State::Close
    } else {
        State::Open
    }
}

/// Closed contacts read as `true`, open ones as `false`.
pub open spec fn bool_of_state(value: State) -> bool {
    match value {
        State::Open => false,
        State::Close => true,
    }
}

impl From<bool> for State {
    fn from(value: bool) -> (r: Self) {
        if value {
            State::Close
        } else {
            State::Open
        }
    }
}

impl vstd::std_specs::convert::FromSpecImpl<bool> for State {
    open spec fn obeys_from_spec() -> bool {
        true
    }

    open spec fn from_spec(v: bool) -> State {
        state_of_bool(v)
    }
}

impl From<State> for bool {
    fn from(value: State) -> (r: Self) {
        match value {
            State::Open => false,
            State::Close => true,
        }
    }
}

impl vstd::std_specs::convert::FromSpecImpl<State> for bool {
    open spec fn obeys_from_spec() -> bool {
        true
    }

    open spec fn from_spec(v: State) -> bool {
        bool_of_state(v)
    }
}

/// Reading a relay state as a boolean and back gives the state again,
/// and a boolean turned into a state reads back as the same boolean.
pub proof fn lemma_state_bool_round_trip(s: State, b: bool)
    ensures
        state_of_bool(bool_of_state(s)) == s,
        bool_of_state(state_of_bool(b)) == b,
{
}

} // verus!
