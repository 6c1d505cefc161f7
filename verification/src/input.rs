//! Turning the keys that are held into one command per frame.

use vstd::prelude::*;

verus! {

/// Which of the three keys that the game listens to are held down.
#[derive(Clone, Copy, Debug, PartialEq, Eq, Structural)]
pub struct KeyState {
    pub escape: bool,
    pub left: bool,
    pub right: bool,
}

/// What the player asks for in one frame.
#[derive(Clone, Copy, Debug, PartialEq, Eq, Structural)]
pub enum InputCommand {
    MoveLeft,
    MoveRight,
    Neutral,
    ExitRequested,
}

/// The command that a set of held keys stands for. Escape wins over the
/// arrows, and the left arrow over the right one.
pub open spec fn command_for(keys: KeyState) -> InputCommand {
    if keys.escape {
        InputCommand::ExitRequested
    } else if keys.left {
        InputCommand::MoveLeft
    } else if keys.right {
        InputCommand::MoveRight
    } else {
        InputCommand::Neutral
    }
}

/// Reads the command out of the held keys.
pub fn sample(keys: KeyState) -> (command: InputCommand)
    ensures
        command == command_for(keys),
{
    if keys.escape {
        InputCommand::ExitRequested
    } else if keys.left {
        InputCommand::MoveLeft
    } else if keys.right {
        InputCommand::MoveRight
    } else {
        InputCommand::Neutral
    }
}

} // verus!
