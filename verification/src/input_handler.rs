//! Commands: one object per kind of input, each of which knows what it does
//! to the game.

use vstd::prelude::*;
use crate::game::{Game, GameState, GameView};
use crate::input::{ButtonState, Key};
use crate::misc::Moveable;

verus! {

/// What every command can do: be made, and be carried out on a game.
pub trait Command: Sized {
    /// The game after the command, for a button event.
    spec fn effect(&self, state: ButtonState, key: Option<Key>, game: GameView) -> GameView;

    /// Makes the command.
    fn new() -> Self;

    /// Carries the command out on the game.
    fn execute(&mut self, state: ButtonState, key: Option<Key>, game: &mut Game)
        ensures
            final(game)@ == old(self).effect(state, key, old(game)@),
    ;
}

/// Opens the menu from the game and closes it again.
pub struct OpenMenu {}

impl Command for OpenMenu {
    /// A press switches between game and menu; nothing else happens.
    open spec fn effect(&self, state: ButtonState, key: Option<Key>, game: GameView) -> GameView {
        if state == ButtonState::Press {
            match game.game_state {
                GameState::InGame => GameView { game_state: GameState::InMenu, ..game },
                GameState::InMenu => GameView { game_state: GameState::InGame, ..game },
                _ => game,
            }
        } else {
            game
        }
    }

    fn new() -> Self {
        OpenMenu {  }
    }

    fn execute(&mut self, state: ButtonState, _key: Option<Key>, game: &mut Game) {
        if state == ButtonState::Press {
            match game.game_state {
                GameState::InGame => {
                    game.game_state = GameState::InMenu;
                },
                GameState::InMenu => {
                    game.game_state = GameState::InGame;
                },
                _ => {},
            }
        }
    }
}

/// The action button: begins the game from the title.
pub struct Action {}

impl Command for Action {
    /// A press on the title begins the game; nothing else happens.
    open spec fn effect(&self, state: ButtonState, key: Option<Key>, game: GameView) -> GameView {
        if state == ButtonState::Press && game.game_state == GameState::Title {
            GameView { game_state: GameState::InGame, ..game }
        } else {
            game
        }
    }

    fn new() -> Self {
        Action {  }
    }

    fn execute(&mut self, state: ButtonState, _key: Option<Key>, game: &mut Game) {
        if state == ButtonState::Press {
            match game.game_state {
                GameState::Title => {
                    game.game_state = GameState::InGame;
                },
                _ => {},
            }
        }
    }
}

/// Moves the creature.
pub struct Move {}

impl Command for Move {
    /// The creature records the key and recomputes its own velocity.
    open spec fn effect(&self, state: ButtonState, key: Option<Key>, game: GameView) -> GameView {
        GameView { player: game.player.after_input(state, key).with_velocity_from_directions(), ..game }
    }

    fn new() -> Self {
        Move {  }
    }

    fn execute(&mut self, state: ButtonState, key: Option<Key>, game: &mut Game) {
        game.player.handle_input(&state, &key);
        game.player.update_self_velocity();
    }
}

} // verus!
