//! The command dispatcher: the lifecycle commands that the bridge recognises.

use crate::registry::Context;
use vstd::prelude::*;

verus! {

pub const APP_CMD_INIT_WINDOW: i32 = 1;

pub const APP_CMD_TERM_WINDOW: i32 = 2;

pub const APP_CMD_GAINED_FOCUS: i32 = 6;

pub const APP_CMD_LOST_FOCUS: i32 = 7;

pub const APP_CMD_SAVE_STATE: i32 = 12;

/// A lifecycle command that the dispatcher has a case for.
#[derive(Clone, Copy, Debug, PartialEq, Eq, Structural)]
pub enum Command {
    /// The window is ready to be used.
    InitWindow,
    /// The application should save its state.
    SaveState,
    /// The window is about to go away.
    TermWindow,
    /// The application's window gained the input focus.
    GainedFocus,
    /// The application's window lost the input focus.
    LostFocus,
}

/// The command that a native command code stands for, if it is one of the five
/// that the dispatcher has a case for.
pub open spec fn command_of(code: i32) -> Option<Command> {
    if code == APP_CMD_INIT_WINDOW {
        Some(Command::InitWindow)
    } else if code == APP_CMD_SAVE_STATE {
        Some(Command::SaveState)
    } else if code == APP_CMD_TERM_WINDOW {
        Some(Command::TermWindow)
    } else if code == APP_CMD_GAINED_FOCUS {
        Some(Command::GainedFocus)
    } else if code == APP_CMD_LOST_FOCUS {
        Some(Command::LostFocus)
    } else {
        None
    }
}

/// Recognises a native command code.
pub fn recognize(code: i32) -> (command: Option<Command>)
    ensures
        command == command_of(code),
{
    if code == APP_CMD_INIT_WINDOW {
        Some(Command::InitWindow)
    } else if code == APP_CMD_SAVE_STATE {
        Some(Command::SaveState)
    } else if code == APP_CMD_TERM_WINDOW {
        Some(Command::TermWindow)
    } else if code == APP_CMD_GAINED_FOCUS {
        Some(Command::GainedFocus)
    } else if code == APP_CMD_LOST_FOCUS {
        Some(Command::LostFocus)
    } else {
        None
    }
}

/// The callback for commands. Each of the five commands has a case of its own,
/// and none of them does anything yet; a code that is not recognised falls
/// through. Commands are not pointer input: nothing is published, and the
/// registry is left as it was.
pub fn commands_callback(context: &mut Context, command: i32)
    ensures
        final(context)@ == old(context)@,
{
    match recognize(command) {
        Some(Command::InitWindow) => {},
        Some(Command::SaveState) => {},
        Some(Command::TermWindow) => {},
        Some(Command::GainedFocus) => {},
        Some(Command::LostFocus) => {},
        None => {},
    }
}

} // verus!
