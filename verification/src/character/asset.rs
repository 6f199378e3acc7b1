//! How characters are described in their asset files.

use vstd::prelude::*;

use super::Orientation;
use super::Route;

verus! {

/// What a character does on its own, as written in its asset.
#[derive(Clone, Debug)]
pub enum CharacterBehaviour {
    Walking(Route),
}

/// A character's state together with the way it faces; keys the character's visuals.
#[derive(Clone, Copy, Hash, PartialEq, Eq, Debug, Structural)]
pub enum CharacterState {
    Standing(Orientation),
    Walking(Orientation),
}

impl Default for CharacterState {
    fn default() -> (s: CharacterState)
        ensures
            s == CharacterState::Standing(Orientation::Down),
    {
        CharacterState::Standing(Orientation::Down)
    }
}

impl CharacterState {
    /// The visual key of a state and orientation.
    pub open spec fn key(state: super::CharacterState, orientation: Orientation) -> CharacterState {
        match state {
            super::CharacterState::Standing => CharacterState::Standing(orientation),
            super::CharacterState::Walking => CharacterState::Walking(orientation),
        }
    }

    /// The state and orientation a visual key stands for.
    pub open spec fn parts(self) -> (super::CharacterState, Orientation) {
        match self {
            CharacterState::Standing(o) => (super::CharacterState::Standing, o),
            CharacterState::Walking(o) => (super::CharacterState::Walking, o),
        }
    }
}

impl From<(super::CharacterState, Orientation)> for CharacterState {
    fn from(value: (super::CharacterState, Orientation)) -> (s: CharacterState) {
        match value.0 {
            super::CharacterState::Standing => CharacterState::Standing(value.1),
            super::CharacterState::Walking => CharacterState::Walking(value.1),
        }
    }
}

impl vstd::std_specs::convert::FromSpecImpl<(super::CharacterState, Orientation)> for CharacterState {
    open spec fn obeys_from_spec() -> bool {
        true
    }

    open spec fn from_spec(value: (super::CharacterState, Orientation)) -> CharacterState {
        CharacterState::key(value.0, value.1)
    }
}

impl From<CharacterState> for super::CharacterState {
    fn from(value: CharacterState) -> (s: super::CharacterState) {
        match value {
            CharacterState::Standing(_) => super::CharacterState::Standing,
            CharacterState::Walking(_) => super::CharacterState::Walking,
        }
    }
}

impl vstd::std_specs::convert::FromSpecImpl<CharacterState> for super::CharacterState {
    open spec fn obeys_from_spec() -> bool {
        true
    }

    open spec fn from_spec(value: CharacterState) -> super::CharacterState {
        value.parts().0
    }
}

impl From<CharacterState> for (super::CharacterState, Orientation) {
    fn from(value: CharacterState) -> (p: (super::CharacterState, Orientation)) {
        match value {
            CharacterState::Standing(orientation) => (super::CharacterState::Standing, orientation),
            CharacterState::Walking(orientation) => (super::CharacterState::Walking, orientation),
        }
    }
}

impl vstd::std_specs::convert::FromSpecImpl<CharacterState> for (super::CharacterState, Orientation) {
    open spec fn obeys_from_spec() -> bool {
        true
    }

    open spec fn from_spec(value: CharacterState) -> (super::CharacterState, Orientation) {
        value.parts()
    }
}

/// A visual key splits into the state and orientation it was made from, and back.
pub proof fn lemma_key_round_trip(state: super::CharacterState, orientation: Orientation, key: CharacterState)
    ensures
        CharacterState::key(state, orientation).parts() == (state, orientation),
        CharacterState::key(key.parts().0, key.parts().1) == key,
{
}

} // verus!
