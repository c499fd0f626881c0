//! The scene that is shown once a game is lost.

use vstd::prelude::*;
use crate::game::Game;
use crate::scene::{Action, KeyboardInput, Scene, ElementState, KEY_ENTER};

verus! {

/// The end of a game, with the score that was reached.
pub struct GameOver {
    score: u32,
}

impl GameOver {
    /// The score of the game that ended.
    pub closed spec fn spec_score(&self) -> u32 {
        self.score
    }

    /// Creates the scene for a game that ended with `score`.
    pub fn new(score: u32) -> (scene: Self)
        ensures
            scene.score() == score,
    {
        Self { score }
    }

    /// Returns the score of the game that ended.
    #[verifier::when_used_as_spec(spec_score)]
    pub fn score(&self) -> (score: u32)
        ensures
            score == self.spec_score(),
    {
        self.score
    }

    /// Handles keyboard input: Enter starts a new game.
    pub fn keyboard_input(&mut self, input: KeyboardInput) -> (action: Action)
        ensures
            *final(self) == *old(self),
            input.pressed(KEY_ENTER) ==> action.starts_game(),
            !input.pressed(KEY_ENTER) ==> action is Continue,
    {
        if input.scancode == KEY_ENTER && input.state == ElementState::Pressed {
            // Start new game [Enter]
            return Action::SwitchScene(Scene::Game(Game::new()));
        }
        Action::Continue
    }

    /// Updates scene logic: nothing happens while the score is shown.
    pub fn tick(&mut self) -> (action: Action)
        ensures
            *final(self) == *old(self),
            action is Continue,
    {
        Action::Continue
    }
}

} // verus!
