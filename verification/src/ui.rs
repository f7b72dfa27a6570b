//! The thin layer the presentation side shares with the core: the
//! transform state it carries between frames, the single-pane layout
//! marker, and the pure classification of key presses into user inputs.
//! Terminal geometry and painting live entirely in the surrounding binary.

use vstd::prelude::*;

use crate::structs::{Direction2, UserInput};

verus! {

/// Carry-over state for the renderer between frames.
#[derive(Clone, Copy, Debug, PartialEq, Eq)]
pub struct UITransform {
    pub direction: Option<Direction2>,
}

impl UITransform {
    pub fn new() -> (r: Self)
        ensures
            r == (UITransform { direction: None::<Direction2> }),
    {
        UITransform { direction: None }
    }
}

/// Marker for the single-pane (modal) layout.
#[derive(Clone, Copy, Debug, PartialEq, Eq, Structural)]
pub struct SingleLayoutUI {}

impl SingleLayoutUI {
    pub fn new() -> (r: Self)
        ensures
            r == (SingleLayoutUI {  }),
    {
        SingleLayoutUI {  }
    }
}

/// Classifies the primary keys: quit and environment change.
pub fn handle_primary_keys(key: char) -> (r: Option<UserInput>)
    ensures
        key == 'q' ==> r == Some(UserInput::Quit),
        key == 'E' ==> r == Some(UserInput::ChangeEnv),
        key != 'q' && key != 'E' ==> r is None,
{
    if key == 'q' {
        Some(UserInput::Quit)
    } else if key == 'E' {
        Some(UserInput::ChangeEnv)
    } else {
        None
    }
}

/// Classifies the pane-navigation keys.
pub fn handle_direction_keys(key: char) -> (r: Option<UserInput>)
    ensures
        key == 'h' ==> r == Some(UserInput::Direction(Direction2::Left)),
        key == 'j' ==> r == Some(UserInput::Direction(Direction2::Down)),
        key == 'k' ==> r == Some(UserInput::Direction(Direction2::Up)),
        key == 'l' ==> r == Some(UserInput::Direction(Direction2::Right)),
        key != 'h' && key != 'j' && key != 'k' && key != 'l' ==> r is None,
{
    if key == 'h' {
        Some(UserInput::Direction(Direction2::Left))
    } else if key == 'j' {
        Some(UserInput::Direction(Direction2::Down))
    } else if key == 'k' {
        Some(UserInput::Direction(Direction2::Up))
    } else if key == 'l' {
        Some(UserInput::Direction(Direction2::Right))
    } else {
        None
    }
}

} // verus!
