//! The scene that is shown when the program starts.

use vstd::prelude::*;
use crate::game::Game;
use crate::scene::{Action, KeyboardInput, Scene, ElementState, KEY_ENTER};

verus! {

/// The main menu.
pub struct MainMenu {}

impl MainMenu {
    /// Creates the main menu.
    pub fn new() -> Self {
        Self {  }
    }

    /// Handles keyboard input: Enter starts a game.
    pub fn keyboard_input(&mut self, input: KeyboardInput) -> (action: Action)
        ensures
            input.pressed(KEY_ENTER) ==> action.starts_game(),
            !input.pressed(KEY_ENTER) ==> action is Continue,
    {
        if input.scancode == KEY_ENTER && input.state == ElementState::Pressed {
            // Start game [Enter]
            return Action::SwitchScene(Scene::Game(Game::new()));
        }
        Action::Continue
    }

    /// Updates scene logic: nothing happens in the menu.
    pub fn tick(&mut self) -> (action: Action)
        ensures
            action is Continue,
    {
        Action::Continue
    }
}

} // verus!
