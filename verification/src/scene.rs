//! The scenes of the program, the keyboard events they take, and what they
//! ask the run loop to do next.

use vstd::prelude::*;
use crate::game::{Game, GameState};
use crate::game_over::GameOver;
use crate::main_menu::MainMenu;
use crate::tetromino::Tetromino;

verus! {

/// Whether a key was pressed or released.
#[derive(Clone, Copy, Debug, PartialEq, Eq, Structural)]
pub enum ElementState {
    Pressed,
    Released,
}

/// A keyboard event: the hardware code of the key and what happened to it.
#[derive(Clone, Copy, Debug, PartialEq, Eq, Structural)]
pub struct KeyboardInput {
    pub scancode: u32,
    pub state: ElementState,
}

impl KeyboardInput {
    /// The key with hardware code `scancode` was pressed.
    pub open spec fn pressed(self, scancode: u32) -> bool {
        self.scancode == scancode && self.state == ElementState::Pressed
    }
}

/// The scancode of the Escape key.
pub const KEY_ESCAPE: u32 = 1;

/// The scancode of the Enter key.
pub const KEY_ENTER: u32 = 28;

/// Game scene.
pub enum Scene {
    MainMenu(MainMenu),
    Game(Game),
    GameOver(GameOver),
}

/// Action to be performed after a scene handler method returns.
#[must_use]
pub enum Action {
    /// Keep the game running.
    Continue,
    /// Switch to the specified scene.
    SwitchScene(Scene),
    /// Exit the game.
    Exit,
}

impl Action {
    /// The action switches to a game that has just started.
    pub open spec fn starts_game(self) -> bool {
        &&& self matches Action::SwitchScene(Scene::Game(game))
        &&& game.wf()
        &&& exists|first: Tetromino, next: Tetromino| game@ == GameState::fresh(first, next)
    }
}

impl Scene {
    /// A game in the scene is in a state that its actions keep up.
    pub open spec fn wf(&self) -> bool {
        self matches Scene::Game(game) ==> game.wf()
    }

    /// A game in the scene has counters that can take one more tetromino.
    pub open spec fn spec_has_headroom(&self) -> bool {
        self matches Scene::Game(game) ==> game@.has_headroom()
    }

    /// Checks whether a game in the scene has counters that can take one
    /// more tetromino.
    #[verifier::when_used_as_spec(spec_has_headroom)]
    pub fn has_headroom(&self) -> (ok: bool)
        ensures
            ok == self.spec_has_headroom(),
    {
        match self {
            Scene::Game(game) => game.has_headroom(),
            _ => true,
        }
    }

    /// Handles keyboard input in the scene that is shown.
    pub fn keyboard_input(&mut self, input: KeyboardInput) -> (action: Action)
        requires
            old(self).wf(),
            old(self).has_headroom(),
        ensures
            final(self).wf(),
            match *old(self) {
                Scene::MainMenu(_) => {
                    &&& *final(self) is MainMenu
                    &&& input.pressed(KEY_ENTER) ==> action.starts_game()
                    &&& !input.pressed(KEY_ENTER) ==> action is Continue
                },
                Scene::Game(before) => {
                    &&& *final(self) matches Scene::Game(after)
                    &&& exists|upcoming: Tetromino| after@ == before@.key(input, upcoming)
                    &&& input.pressed(KEY_ESCAPE) ==> action is Exit
                    &&& !input.pressed(KEY_ESCAPE) ==> action is Continue
                },
                Scene::GameOver(_) => {
                    &&& *final(self) == *old(self)
                    &&& input.pressed(KEY_ENTER) ==> action.starts_game()
                    &&& !input.pressed(KEY_ENTER) ==> action is Continue
                },
            },
    {
        match self {
            Scene::MainMenu(menu) => menu.keyboard_input(input),
            Scene::Game(game) => game.keyboard_input(input),
            Scene::GameOver(over) => over.keyboard_input(input),
        }
    }

    /// Updates the logic of the scene that is shown.
    pub fn tick(&mut self) -> (action: Action)
        requires
            old(self).wf(),
            old(self).has_headroom(),
        ensures
            final(self).wf(),
            match *old(self) {
                Scene::MainMenu(_) => *final(self) is MainMenu && action is Continue,
                Scene::Game(before) => {
                    &&& *final(self) matches Scene::Game(after)
                    &&& exists|upcoming: Tetromino| after@ == before@.tick(upcoming)
                    &&& before@.lost ==> (action matches Action::SwitchScene(Scene::GameOver(over))
                        && over.score() == before@.score)
                    &&& !before@.lost ==> action is Continue
                },
                Scene::GameOver(_) => *final(self) == *old(self) && action is Continue,
            },
    {
        match self {
            Scene::MainMenu(menu) => menu.tick(),
            Scene::Game(game) => game.tick(),
            Scene::GameOver(over) => over.tick(),
        }
    }

    /// Performs what a scene asked for: switches to the scene it names, and
    /// says whether the program is to exit.
    pub fn handle_action(&mut self, action: Action) -> (exit: bool)
        ensures
            exit == (action is Exit),
            *final(self) == (match action {
                Action::SwitchScene(scene) => scene,
                _ => *old(self),
            }),
    {
        match action {
            Action::Continue => false,
            Action::SwitchScene(scene) => {
                *self = scene;
                false
            },
            Action::Exit => true,
        }
    }
}

} // verus!
