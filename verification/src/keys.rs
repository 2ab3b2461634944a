//! Key identities and the movement actions bound to them.

use vstd::prelude::*;

verus! {

/// A key of the keyboard, as far as the viewer tells keys apart. Keys without
/// a meaning to the viewer are `Other`, with the platform's code for them.
#[derive(Clone, Copy, Debug, PartialEq, Eq, Structural)]
pub enum Key {
    W,
    A,
    S,
    D,
    Q,
    E,
    Space,
    Shift,
    Escape,
    F11,
    Other(u32),
}

/// A direction of travel relative to the camera.
#[derive(Clone, Copy, Debug, PartialEq, Eq, Structural)]
pub enum MoveAction {
    Forward,
    Back,
    StrafeLeft,
    StrafeRight,
    Rise,
    Sink,
}

/// What a key press asks of the program besides camera motion.
#[derive(Clone, Copy, Debug, PartialEq, Eq, Structural)]
pub enum KeyCommand {
    Exit,
    ToggleFullscreen,
}

/// The key table: which movement, if any, a key stands for.
pub open spec fn key_action(key: Key) -> Option<MoveAction> {
    match key {
        Key::W => Some(MoveAction::Forward),
        Key::S => Some(MoveAction::Back),
        Key::A => Some(MoveAction::StrafeLeft),
        Key::D => Some(MoveAction::StrafeRight),
        Key::E | Key::Space => Some(MoveAction::Rise),
        Key::Q | Key::Shift => Some(MoveAction::Sink),
        _ => None,
    }
}

/// Which command, if any, a key press stands for.
pub open spec fn key_command(key: Key) -> Option<KeyCommand> {
    match key {
        Key::Escape => Some(KeyCommand::Exit),
        Key::F11 => Some(KeyCommand::ToggleFullscreen),
        _ => None,
    }
}

/// Looks a key up in the key table.
pub fn action_for_key(key: Key) -> (action: Option<MoveAction>)
    ensures
        action == key_action(key),
{
    match key {
        Key::W => Some(MoveAction::Forward),
        Key::S => Some(MoveAction::Back),
        Key::A => Some(MoveAction::StrafeLeft),
        Key::D => Some(MoveAction::StrafeRight),
        Key::E => Some(MoveAction::Rise),
        Key::Space => Some(MoveAction::Rise),
        Key::Q => Some(MoveAction::Sink),
        Key::Shift => Some(MoveAction::Sink),
        _ => None,
    }
}

/// Looks up the command bound to a key.
pub fn command_for_key(key: Key) -> (command: Option<KeyCommand>)
    ensures
        command == key_command(key),
{
    match key {
        Key::Escape => Some(KeyCommand::Exit),
        Key::F11 => Some(KeyCommand::ToggleFullscreen),
        _ => None,
    }
}

} // verus!
