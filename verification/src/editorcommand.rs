//! The command dispatcher: input events, modeled as plain values, are
//! translated into the closed set of editing commands.

use crate::screen::Size;
use vstd::prelude::*;

verus! {

/// A cursor movement direction.
#[derive(Clone, Copy, Debug, PartialEq, Eq, Structural)]
pub enum Direction {
    PageUp,
    PageDown,
    Home,
    End,
    Up,
    Down,
    Left,
    Right,
}

/// A key on the keyboard, reduced to what the dispatcher distinguishes.
#[derive(Clone, Copy, Debug, PartialEq, Eq, Structural)]
pub enum KeyCode {
    Up,
    Down,
    Left,
    Right,
    Home,
    End,
    PageUp,
    PageDown,
    Char(char),
    OtherKey,
}

/// The modifier state of a key event, reduced to the exact combinations the
/// dispatcher distinguishes.
#[derive(Clone, Copy, Debug, PartialEq, Eq, Structural)]
pub enum Modifiers {
    NoMods,
    ShiftOnly,
    ControlOnly,
    OtherMods,
}

/// One keyboard event: which key, with which modifiers, and whether it was
/// a press (as opposed to a repeat or a release).
#[derive(Clone, Copy, Debug, PartialEq, Eq, Structural)]
pub struct KeyPress {
    pub code: KeyCode,
    pub modifiers: Modifiers,
    pub is_press: bool,
}

/// One event from the input source.
#[derive(Clone, Copy, Debug, PartialEq, Eq, Structural)]
pub enum InputEvent {
    Key(KeyPress),
    WindowResize(u16, u16),
    OtherEvent,
}

/// One editing command.
#[derive(Clone, Copy, Debug, PartialEq, Eq, Structural)]
pub enum EditorCommand {
    Move(Direction),
    Resize(Size),
    Quit,
    Insert(char),
}

/// Whether an event is acted on at all: key presses and window resizes are;
/// key repeats, key releases and anything else are not.
pub open spec fn actionable(event: InputEvent) -> bool {
    match event {
        InputEvent::Key(k) => k.is_press,
        InputEvent::WindowResize(_, _) => true,
        InputEvent::OtherEvent => false,
    }
}

/// The command for an event: control-c quits, the navigation keys move
/// whatever the modifiers, a plain or shifted character inserts itself, a
/// window resize resizes, and everything else is unsupported and handed
/// back unchanged.
pub open spec fn command_for(event: InputEvent) -> Result<EditorCommand, InputEvent> {
    match event {
        InputEvent::Key(k) => match k.code {
            KeyCode::Up => Ok(EditorCommand::Move(Direction::Up)),
            KeyCode::Down => Ok(EditorCommand::Move(Direction::Down)),
            KeyCode::Left => Ok(EditorCommand::Move(Direction::Left)),
            KeyCode::Right => Ok(EditorCommand::Move(Direction::Right)),
            KeyCode::Home => Ok(EditorCommand::Move(Direction::Home)),
            KeyCode::End => Ok(EditorCommand::Move(Direction::End)),
            KeyCode::PageUp => Ok(EditorCommand::Move(Direction::PageUp)),
            KeyCode::PageDown => Ok(EditorCommand::Move(Direction::PageDown)),
            KeyCode::Char(c) => if c == 'c' && k.modifiers is ControlOnly {
                Ok(EditorCommand::Quit)
            } else if k.modifiers is NoMods || k.modifiers is ShiftOnly {
                Ok(EditorCommand::Insert(c))
            } else {
                Err(event)
            },
            KeyCode::OtherKey => Err(event),
        },
        InputEvent::WindowResize(w, h) => Ok(
            EditorCommand::Resize(Size { height: h as usize, width: w as usize }),
        ),
        InputEvent::OtherEvent => Err(event),
    }
}

impl InputEvent {
    /// Whether this event should be processed at all.
    pub fn should_process(&self) -> (r: bool)
        ensures
            r == actionable(*self),
    {
        match self {
            InputEvent::Key(k) => k.is_press,
            InputEvent::WindowResize(_, _) => true,
            InputEvent::OtherEvent => false,
        }
    }
}

impl EditorCommand {
    /// Translates an input event into a command, or hands the event back
    /// when it maps to nothing.
    pub fn try_from(event: InputEvent) -> (r: Result<EditorCommand, InputEvent>)
        ensures
            r == command_for(event),
    {
        match event {
            InputEvent::Key(k) => match k.code {
                KeyCode::Up => Ok(EditorCommand::Move(Direction::Up)),
                KeyCode::Down => Ok(EditorCommand::Move(Direction::Down)),
                KeyCode::Left => Ok(EditorCommand::Move(Direction::Left)),
                KeyCode::Right => Ok(EditorCommand::Move(Direction::Right)),
                KeyCode::Home => Ok(EditorCommand::Move(Direction::Home)),
                KeyCode::End => Ok(EditorCommand::Move(Direction::End)),
                KeyCode::PageUp => Ok(EditorCommand::Move(Direction::PageUp)),
                KeyCode::PageDown => Ok(EditorCommand::Move(Direction::PageDown)),
                KeyCode::Char(c) => {
                    if c == 'c' && matches!(k.modifiers, Modifiers::ControlOnly) {
                        Ok(EditorCommand::Quit)
                    } else if matches!(k.modifiers, Modifiers::NoMods | Modifiers::ShiftOnly) {
                        Ok(EditorCommand::Insert(c))
                    } else {
                        Err(event)
                    }
                },
                KeyCode::OtherKey => Err(event),
            },
            InputEvent::WindowResize(w, h) => Ok(
                EditorCommand::Resize(Size { height: h as usize, width: w as usize }),
            ),
            InputEvent::OtherEvent => Err(event),
        }
    }
}

} // verus!
