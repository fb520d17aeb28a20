//! Input as the simulation sees it: which key changed, and how.
//!
//! The host's window layer turns its own key events into these values,
//! one for one, before handing them to the simulation.

use vstd::prelude::*;
use crate::misc::Direction;

verus! {

/// Whether a button went down or came up.
#[derive(Clone, Copy, Debug, PartialEq, Eq, Structural)]
pub enum ButtonState {
    Press,
    Release,
}

/// The keys the simulation reacts to; every other key is `Other`.
#[derive(Clone, Copy, Debug, PartialEq, Eq, Structural)]
pub enum Key {
    W,
    A,
    S,
    D,
    E,
    L,
    Space,
    Return,
    Tab,
    Other,
}

/// A button of the host: a key of the keyboard, or anything else.
#[derive(Clone, Copy, Debug, PartialEq, Eq, Structural)]
pub enum Button {
    Keyboard(Key),
    Other,
}

/// What the player asks for, free of any key layout.
#[derive(Clone, Copy, Debug, PartialEq, Eq, Structural)]
pub enum InputIntent {
    /// Start moving in a direction.
    MoveStart(Direction),
    /// Stop moving in a direction.
    MoveStop(Direction),
    /// Open the menu, or close it.
    ToggleMenu,
    /// Act on whatever the creature stands on or holds.
    ContextAction,
    /// Take the helm, or let go of it.
    ToggleControl,
    /// Lose the given amount of health.
    TakeDamage(u32),
    /// Pick up an item in reach, or drop the one held.
    PickupOrDrop,
}

/// The direction a movement key stands for: `W` is north, `A` west, `S` south
/// and `D` east. No other key moves anything.
pub open spec fn key_direction(key: Option<Key>) -> Option<Direction> {
    match key {
        Some(Key::W) => Some(Direction::N),
        Some(Key::A) => Some(Direction::W),
        Some(Key::S) => Some(Direction::S),
        Some(Key::D) => Some(Direction::E),
        _ => None,
    }
}

/// Executable form of [`key_direction`].
pub fn direction_of_key(key: &Option<Key>) -> (dir: Option<Direction>)
    ensures
        dir == key_direction(*key),
{
    match key {
        Some(Key::W) => Some(Direction::N),
        Some(Key::A) => Some(Direction::W),
        Some(Key::S) => Some(Direction::S),
        Some(Key::D) => Some(Direction::E),
        _ => None,
    }
}

/// The intent behind a button event. Movement keys start a move when pressed
/// and stop it when released. Every other key acts on press only: `Return`
/// and `Tab` toggle the menu, `E` is the context action, `L` costs one point
/// of health, and `Space` picks up or drops.
pub open spec fn intent_of(state: ButtonState, button: Button) -> Option<InputIntent> {
    match button {
        Button::Keyboard(key) => match key_direction(Some(key)) {
            Some(dir) => match state {
                ButtonState::Press => Some(InputIntent::MoveStart(dir)),
                ButtonState::Release => Some(InputIntent::MoveStop(dir)),
            },
            None => if state == ButtonState::Press {
                match key {
                    Key::Return | Key::Tab => Some(InputIntent::ToggleMenu),
                    Key::E => Some(InputIntent::ContextAction),
                    Key::L => Some(InputIntent::TakeDamage(1)),
                    Key::Space => Some(InputIntent::PickupOrDrop),
                    _ => None,
                }
            } else {
                None
            },
        },
        Button::Other => None,
    }
}

/// Executable form of [`intent_of`].
pub fn decode_input(state: &ButtonState, button: &Button) -> (intent: Option<InputIntent>)
    ensures
        intent == intent_of(*state, *button),
{
    match button {
        Button::Keyboard(key) => {
            let pressed = match state {
                ButtonState::Press => true,
                ButtonState::Release => false,
            };
            match key {
                Key::W => Some(move_intent(pressed, Direction::N)),
                Key::A => Some(move_intent(pressed, Direction::W)),
                Key::S => Some(move_intent(pressed, Direction::S)),
                Key::D => Some(move_intent(pressed, Direction::E)),
                Key::Return | Key::Tab => if pressed {
                    Some(InputIntent::ToggleMenu)
                } else {
                    None
                },
                Key::E => if pressed {
                    Some(InputIntent::ContextAction)
                } else {
                    None
                },
                Key::L => if pressed {
                    Some(InputIntent::TakeDamage(1))
                } else {
                    None
                },
                Key::Space => if pressed {
                    Some(InputIntent::PickupOrDrop)
                } else {
                    None
                },
                Key::Other => None,
            }
        },
        Button::Other => None,
    }
}

fn move_intent(pressed: bool, dir: Direction) -> (intent: InputIntent)
    ensures
        intent == if pressed {
            InputIntent::MoveStart(dir)
        } else {
            InputIntent::MoveStop(dir)
        },
{
    if pressed {
        InputIntent::MoveStart(dir)
    } else {
        InputIntent::MoveStop(dir)
    }
}

} // verus!
