//! An in-progress game: the board, the falling tetromino, the preview and
//! the counters, with the actions that drive them.

use vstd::prelude::*;
use crate::board::{cleared, count_complete, empty_rows, fits, is_complete, placed, Board, Cell};
use crate::game_over::GameOver;
use crate::point::Point;
use crate::scene::{Action, ElementState, KeyboardInput, Scene, KEY_ESCAPE};
use crate::tetromino::{FallingTetromino, Tetromino};

verus! {

/// The number of ticks after which the falling tetromino moves down by itself.
pub const TICKS_PER_FALL: usize = 60;

/// The points awarded for clearing `rows` rows with one tetromino.
pub open spec fn score_for(rows: nat) -> nat {
    if rows == 0 {
        0
    } else if rows == 1 {
        40
    } else if rows == 2 {
        100
    } else if rows == 3 {
        300
    } else {
        1200
    }
}

/// One step down the board.
pub open spec fn down() -> Point {
    Point { x: 0, y: 1 }
}

/// The tetromino after it has fallen as far as it fits.
pub open spec fn landing(rows: Seq<Seq<Cell>>, tetromino: FallingTetromino) -> FallingTetromino
    decreases Board::HEIGHT - tetromino.position.y,
{
    if tetromino.position.y < Board::HEIGHT && fits(rows, tetromino.moved(down())) {
        landing(rows, tetromino.moved(down()))
    } else {
        tetromino
    }
}

/// What the player can ask of the falling tetromino.
#[derive(Clone, Copy, Debug, PartialEq, Eq, Structural)]
pub enum Command {
    RotateCounterclockwise,
    RotateClockwise,
    MoveLeft,
    MoveRight,
    MoveDown,
    Drop,
}

impl Command {
    /// The command that the key with hardware code `scancode` gives, if any.
    pub open spec fn spec_from_scancode(scancode: u32) -> Option<Command> {
        if scancode == 16 || scancode == 44 || scancode == 23 {
            Some(Command::RotateCounterclockwise)
        } else if scancode == 18 || scancode == 45 || scancode == 25 {
            Some(Command::RotateClockwise)
        } else if scancode == 30 || scancode == 57419 || scancode == 37 {
            Some(Command::MoveLeft)
        } else if scancode == 32 || scancode == 57421 || scancode == 39 {
            Some(Command::MoveRight)
        } else if scancode == 31 || scancode == 57424 || scancode == 38 {
            Some(Command::MoveDown)
        } else if scancode == 57 {
            Some(Command::Drop)
        } else {
            None
        }
    }

    /// Returns the command that a key gives.
    #[verifier::when_used_as_spec(spec_from_scancode)]
    pub fn from_scancode(scancode: u32) -> (command: Option<Command>)
        ensures
            command == Self::spec_from_scancode(scancode),
    {
        match scancode {
            // Rotate counterclockwise. [Q] / [Z] / [I]
            16 | 44 | 23 => Some(Command::RotateCounterclockwise),
            // Rotate clockwise. [E] / [X] / [P]
            18 | 45 | 25 => Some(Command::RotateClockwise),
            // Move left. [A] / [Left] / [K]
            30 | 57419 | 37 => Some(Command::MoveLeft),
            // Move right. [D] / [Right] / [;]
            32 | 57421 | 39 => Some(Command::MoveRight),
            // Move down. [S] / [Down] / [L]
            31 | 57424 | 38 => Some(Command::MoveDown),
            // Drop. [Space]
            57 => Some(Command::Drop),
            _ => None,
        }
    }
}

/// What a game consists of, as mathematical values.
pub struct GameState {
    /// The rows of the board, top to bottom.
    pub board: Seq<Seq<Cell>>,
    pub falling: FallingTetromino,
    pub next: Tetromino,
    pub ticks_elapsed: nat,
    pub score: nat,
    pub level: nat,
    pub rows_cleared: nat,
    pub lost: bool,
}

impl GameState {
    /// What holds of a game between any two actions: the board has its
    /// dimensions and no complete row, fewer ticks than one fall takes have
    /// elapsed, and while the game is not lost the falling tetromino fits.
    pub open spec fn wf(self) -> bool {
        &&& self.board.len() == Board::HEIGHT
        &&& forall|y: int| 0 <= y < Board::HEIGHT ==> (#[trigger] self.board[y]).len() == Board::WIDTH
        &&& forall|y: int| 0 <= y < Board::HEIGHT ==> !is_complete(#[trigger] self.board[y])
        &&& self.ticks_elapsed < TICKS_PER_FALL
        &&& self.falling.representable()
        &&& !self.lost ==> fits(self.board, self.falling)
    }

    /// The counters can take the rows and the points of one more tetromino.
    /// A lost game needs no room: nothing is placed in it any more.
    pub open spec fn has_headroom(self) -> bool {
        ||| self.lost
        ||| self.score + 1200 <= u32::MAX && self.rows_cleared + 4 <= u32::MAX
    }

    /// A game that starts at level 0 on an empty board with `first` falling
    /// and `next` in the preview.
    pub open spec fn fresh(first: Tetromino, next: Tetromino) -> GameState {
        GameState {
            board: empty_rows(Board::HEIGHT as nat),
            falling: FallingTetromino { position: FallingTetromino::origin(), rotation: 0, tetromino: first },
            next,
            ticks_elapsed: 0,
            score: 0,
            level: 0,
            rows_cleared: 0,
            lost: false,
        }
    }

    /// The game after an attempt to turn the falling tetromino by `by`
    /// quarter turns: it turns if it then fits, else nothing changes.
    pub open spec fn rotate(self, by: i8) -> GameState {
        if !self.lost && fits(self.board, self.falling.rotated(by)) {
            GameState { falling: self.falling.rotated(by), ..self }
        } else {
            self
        }
    }

    /// The falling tetromino can be shifted by `by`.
    pub open spec fn can_move(self, by: Point) -> bool {
        !self.lost && fits(self.board, self.falling.moved(by))
    }

    /// The game after an attempt to shift the falling tetromino by `by`: it
    /// moves if it then fits, and a move downwards restarts the fall timer;
    /// else nothing changes.
    pub open spec fn shift(self, by: Point) -> GameState {
        if self.can_move(by) {
            GameState {
                falling: self.falling.moved(by),
                ticks_elapsed: if by.y > 0 { 0 } else { self.ticks_elapsed },
                ..self
            }
        } else {
            self
        }
    }

    /// The game after the falling tetromino has been placed where it is:
    /// its squares settle, complete rows are cleared and scored, the
    /// previewed tetromino starts to fall and `upcoming` becomes the preview.
    /// The game is lost if the new tetromino does not fit.
    pub open spec fn finalize(self, upcoming: Tetromino) -> GameState {
        let settled = placed(self.board, self.falling);
        let rows = count_complete(settled);
        let board = cleared(settled);
        let falling = FallingTetromino {
            position: FallingTetromino::origin(),
            rotation: 0,
            tetromino: self.next,
        };
        GameState {
            board,
            falling,
            next: upcoming,
            score: self.score + score_for(rows),
            rows_cleared: self.rows_cleared + rows,
            lost: !fits(board, falling),
            ..self
        }
    }

    /// The game after the falling tetromino has fallen as far as it fits.
    /// The fall timer restarts if it went down at all.
    pub open spec fn landed(self) -> GameState {
        let falling = landing(self.board, self.falling);
        GameState {
            falling,
            ticks_elapsed: if falling == self.falling { self.ticks_elapsed } else { 0 },
            ..self
        }
    }

    /// The game after a hard drop: the falling tetromino falls as far as it
    /// fits and is placed there. A lost game stays as it is.
    pub open spec fn hard_drop(self, upcoming: Tetromino) -> GameState {
        if self.lost {
            self
        } else {
            self.landed().finalize(upcoming)
        }
    }

    /// The game after the falling tetromino has moved down one square or, if
    /// it cannot, has been placed. A lost game stays as it is.
    pub open spec fn fall(self, upcoming: Tetromino) -> GameState {
        if self.lost {
            self
        } else if self.can_move(down()) {
            self.shift(down())
        } else {
            self.finalize(upcoming)
        }
    }

    /// The game after a command of the player.
    pub open spec fn perform(self, command: Command, upcoming: Tetromino) -> GameState {
        match command {
            Command::RotateCounterclockwise => self.rotate(-1i8),
            Command::RotateClockwise => self.rotate(1),
            Command::MoveLeft => self.shift(Point { x: -1i32, y: 0 }),
            Command::MoveRight => self.shift(Point { x: 1, y: 0 }),
            Command::MoveDown => self.shift(down()),
            Command::Drop => self.hard_drop(upcoming),
        }
    }

    /// The game after a keyboard event: a pressed key that gives a command
    /// has that command performed, any other event changes nothing.
    pub open spec fn key(self, input: KeyboardInput, upcoming: Tetromino) -> GameState {
        if input.state == ElementState::Pressed && input.scancode != KEY_ESCAPE {
            match Command::from_scancode(input.scancode) {
                Some(command) => self.perform(command, upcoming),
                None => self,
            }
        } else {
            self
        }
    }

    /// The game after one tick of the clock: every `TICKS_PER_FALL`th tick
    /// lets the tetromino fall. A lost game stays as it is.
    pub open spec fn tick(self, upcoming: Tetromino) -> GameState {
        if self.lost {
            self
        } else if self.ticks_elapsed + 1 == TICKS_PER_FALL {
            GameState { ticks_elapsed: 0, ..self }.fall(upcoming)
        } else {
            GameState { ticks_elapsed: self.ticks_elapsed + 1, ..self }
        }
    }
}

/// An in-progress game.
pub struct Game {
    board: Board,
    falling_tetromino: FallingTetromino,
    next_tetromino: Tetromino,
    ticks_elapsed: usize,
    score: u32,
    level: u32,
    rows_cleared: u32,
    lost: bool,
}

impl View for Game {
    type V = GameState;

    closed spec fn view(&self) -> GameState {
        GameState {
            board: self.board@,
            falling: self.falling_tetromino,
            next: self.next_tetromino,
            ticks_elapsed: self.ticks_elapsed as nat,
            score: self.score as nat,
            level: self.level as nat,
            rows_cleared: self.rows_cleared as nat,
            lost: self.lost,
        }
    }
}

/// Calculates the score for a given number of cleared rows.
pub fn calc_score(rows_cleared: u8) -> (score: u32)
    requires
        rows_cleared <= 4,
    ensures
        score == score_for(rows_cleared as nat),
{
    if rows_cleared == 0 {
        0
    } else if rows_cleared == 1 {
        40
    } else if rows_cleared == 2 {
        100
    } else if rows_cleared == 3 {
        300
    } else {
        1200
    }
}

/// A tetromino at the origin fits on the empty board.
pub proof fn lemma_fresh_is_wf(first: Tetromino, next: Tetromino)
    ensures
        GameState::fresh(first, next).wf(),
{
    let state = GameState::fresh(first, next);
    crate::tetromino::lemma_squares_in_frame(first, 0);
    assert forall|y: int| 0 <= y < Board::HEIGHT implies !is_complete(#[trigger] state.board[y]) by {
        assert(state.board[y][0] is None);
    }
}

impl Game {
    /// The board is well-formed.
    pub closed spec fn board_wf(&self) -> bool {
        self.board.wf()
    }

    /// The game is in a state that the actions keep up.
    pub open spec fn wf(&self) -> bool {
        &&& self.board_wf()
        &&& self@.wf()
    }

    /// Returns the board with the settled squares.
    pub fn board(&self) -> (board: &Board)
        requires
            self.wf(),
        ensures
            board.wf(),
            board@ == self@.board,
    {
        &self.board
    }

    /// Returns the falling tetromino.
    pub fn falling_tetromino(&self) -> (falling: FallingTetromino)
        ensures
            falling == self@.falling,
    {
        self.falling_tetromino
    }

    /// Returns the tetromino that will fall next.
    pub fn next_tetromino(&self) -> (next: Tetromino)
        ensures
            next == self@.next,
    {
        self.next_tetromino
    }

    /// Returns the number of ticks since the falling tetromino last went down.
    pub fn ticks_elapsed(&self) -> (ticks: usize)
        ensures
            ticks == self@.ticks_elapsed,
    {
        self.ticks_elapsed
    }

    /// Returns the score.
    pub fn score(&self) -> (score: u32)
        ensures
            score == self@.score,
    {
        self.score
    }

    /// Returns the level.
    pub fn level(&self) -> (level: u32)
        ensures
            level == self@.level,
    {
        self.level
    }

    /// Returns the number of rows cleared so far.
    pub fn rows_cleared(&self) -> (rows: u32)
        ensures
            rows == self@.rows_cleared,
    {
        self.rows_cleared
    }

    /// Returns whether the game is lost.
    pub fn lost(&self) -> (lost: bool)
        ensures
            lost == self@.lost,
    {
        self.lost
    }

    /// Checks whether the counters can take the rows and the points of one
    /// more tetromino.
    pub fn has_headroom(&self) -> (ok: bool)
        ensures
            ok == self@.has_headroom(),
    {
        self.lost || (self.score <= u32::MAX - 1200 && self.rows_cleared <= u32::MAX - 4)
    }

    /// Starts a new game at level 0 with the given falling and previewed
    /// tetrominoes.
    pub fn with_tetrominoes(first: Tetromino, next: Tetromino) -> (game: Self)
        ensures
            game.wf(),
            game@ == GameState::fresh(first, next),
    {
        proof {
            lemma_fresh_is_wf(first, next);
        }
        Self {
            board: Board::empty(),
            falling_tetromino: FallingTetromino::new_at_origin(first),
            next_tetromino: next,
            ticks_elapsed: 0,
            score: 0,
            level: 0,
            rows_cleared: 0,
            lost: false,
        }
    }

    /// Starts a new game starting at level 0. The falling and the previewed
    /// tetromino are drawn at random.
    pub fn new() -> (game: Self)
        ensures
            game.wf(),
            exists|first: Tetromino, next: Tetromino| game@ == GameState::fresh(first, next),
    {
        let falling = FallingTetromino::random_at_origin();
        let next = Tetromino::random();
        proof {
            lemma_fresh_is_wf(falling.tetromino, next);
        }
        let game = Self {
            board: Board::empty(),
            falling_tetromino: falling,
            next_tetromino: next,
            ticks_elapsed: 0,
            score: 0,
            level: 0,
            rows_cleared: 0,
            lost: false,
        };
        assert(game@ == GameState::fresh(falling.tetromino, next));
        game
    }

    /// Rotates the falling tetromino if possible.
    pub fn try_rotate(&mut self, by: i8)
        requires
            old(self).wf(),
        ensures
            final(self).wf(),
            final(self)@ == old(self)@.rotate(by),
    {
        if self.lost {
            return ;
        }
        let rotated = self.falling_tetromino.rotated(by);
        if self.board.can_fit(rotated) {
            self.falling_tetromino = rotated;
        }
    }

    /// Moves the falling tetromino if possible, and says whether it moved.
    pub fn try_move(&mut self, by: Point) -> (moved: bool)
        requires
            old(self).wf(),
            !old(self)@.lost ==> old(self)@.falling.position.can_add(by),
        ensures
            final(self).wf(),
            moved == old(self)@.can_move(by),
            final(self)@ == old(self)@.shift(by),
    {
        if self.lost {
            return false;
        }
        let moved = self.falling_tetromino.moved(by);
        if self.board.can_fit(moved) {
            self.falling_tetromino = moved;

            // Reset tick counter after successfully moving down.
            if by.y > 0 {
                self.ticks_elapsed = 0;
            }
            proof {
                lemma_fit_is_representable(self.board@, moved);
            }
            true
        } else {
            false
        }
    }

    /// Places the falling tetromino, clears and scores complete rows, and
    /// lets the previewed tetromino fall, with `upcoming` as the new preview.
    pub fn finalize_with(&mut self, upcoming: Tetromino)
        requires
            old(self).wf(),
            old(self)@.has_headroom(),
            !old(self)@.lost,
        ensures
            final(self).wf(),
            final(self)@ == old(self)@.finalize(upcoming),
    {
        proof {
            crate::board::lemma_place_completes_at_most_four(self.board@, self.falling_tetromino);
            crate::board::lemma_cleared_has_no_complete_row(
                placed(self.board@, self.falling_tetromino),
            );
        }
        self.board.place(self.falling_tetromino);
        let rows_cleared = self.board.clear_complete();
        self.rows_cleared += rows_cleared as u32;
        self.score += calc_score(rows_cleared);

        self.falling_tetromino = FallingTetromino::new_at_origin(self.next_tetromino);
        self.next_tetromino = upcoming;

        if !self.board.can_fit(self.falling_tetromino) {
            self.lost = true;
        }
    }

    /// Places the falling tetromino and spawns a new one. The new preview is
    /// drawn at random.
    pub fn finalize(&mut self)
        requires
            old(self).wf(),
            old(self)@.has_headroom(),
            !old(self)@.lost,
        ensures
            final(self).wf(),
            exists|upcoming: Tetromino| final(self)@ == old(self)@.finalize(upcoming),
    {
        let upcoming = Tetromino::random();
        self.finalize_with(upcoming);
        assert(self@ == old(self)@.finalize(upcoming));
    }

    /// Drops the falling tetromino and places it immediately.
    pub fn drop(&mut self)
        requires
            old(self).wf(),
            old(self)@.has_headroom(),
        ensures
            final(self).wf(),
            exists|upcoming: Tetromino| final(self)@ == old(self)@.hard_drop(upcoming),
    {
        if self.lost {
            assert(self@ == old(self)@.hard_drop(Tetromino::I));
            return ;
        }
        loop
            invariant
                self.wf(),
                old(self).wf(),
                !old(self)@.lost,
                old(self)@.has_headroom(),
                self@ == (GameState {
                    falling: self@.falling,
                    ticks_elapsed: self@.ticks_elapsed,
                    ..old(self)@
                }),
                landing(self@.board, self@.falling) == landing(old(self)@.board, old(self)@.falling),
                self@.falling.position.y >= old(self)@.falling.position.y,
                self@.ticks_elapsed == if self@.falling == old(self)@.falling {
                    old(self)@.ticks_elapsed
                } else {
                    0
                },
            ensures
                self.wf(),
                !self@.lost,
                self@.has_headroom(),
                self@ == old(self)@.landed(),
            decreases Board::HEIGHT - self@.falling.position.y,
        {
            proof {
                lemma_fit_is_representable(self@.board, self@.falling);
            }
            let moved = self.try_move(Point::new(0, 1));
            if !moved {
                proof {
                    lemma_landing(old(self)@.board, old(self)@.falling);
                }
                break ;
            }
        }
        let ghost landed = self@;
        self.finalize();
        proof {
            let upcoming = choose|upcoming: Tetromino| self@ == landed.finalize(upcoming);
            assert(self@ == old(self)@.hard_drop(upcoming));
        }
    }

    /// Moves the falling tetromino down one square. If it can't be moved down it's
    /// placed.
    pub fn fall(&mut self)
        requires
            old(self).wf(),
            old(self)@.has_headroom(),
        ensures
            final(self).wf(),
            exists|upcoming: Tetromino| final(self)@ == old(self)@.fall(upcoming),
    {
        if self.lost {
            assert(self@ == old(self)@.fall(Tetromino::I));
            return ;
        }
        proof {
            lemma_fit_is_representable(self@.board, self@.falling);
        }
        if !self.try_move(Point::new(0, 1)) {
            self.finalize();
            proof {
                let upcoming = choose|upcoming: Tetromino| self@ == old(self)@.finalize(upcoming);
                assert(self@ == old(self)@.fall(upcoming));
            }
        } else {
            assert(self@ == old(self)@.fall(Tetromino::I));
        }
    }

    /// Performs a command of the player.
    pub fn perform(&mut self, command: Command)
        requires
            old(self).wf(),
            old(self)@.has_headroom(),
        ensures
            final(self).wf(),
            exists|upcoming: Tetromino| final(self)@ == old(self)@.perform(command, upcoming),
    {
        proof {
            if !self@.lost {
                lemma_fit_is_representable(self@.board, self@.falling);
            }
        }
        match command {
            Command::RotateCounterclockwise => {
                self.try_rotate(-1);
            },
            Command::RotateClockwise => {
                self.try_rotate(1);
            },
            Command::MoveLeft => {
                self.try_move(Point::new(-1, 0));
            },
            Command::MoveRight => {
                self.try_move(Point::new(1, 0));
            },
            Command::MoveDown => {
                self.try_move(Point::new(0, 1));
            },
            Command::Drop => {
                self.drop();
                proof {
                    let upcoming = choose|upcoming: Tetromino|
                        self@ == old(self)@.hard_drop(upcoming);
                    assert(self@ == old(self)@.perform(command, upcoming));
                }
                return ;
            },
        }
        assert(self@ == old(self)@.perform(command, Tetromino::I));
    }

    /// Handles keyboard input.
    pub fn keyboard_input(&mut self, input: KeyboardInput) -> (action: Action)
        requires
            old(self).wf(),
            old(self)@.has_headroom(),
        ensures
            final(self).wf(),
            exists|upcoming: Tetromino| final(self)@ == old(self)@.key(input, upcoming),
            input.pressed(KEY_ESCAPE) ==> action is Exit,
            !input.pressed(KEY_ESCAPE) ==> action is Continue,
    {
        if input.state == ElementState::Pressed {
            // Exit [Esc] (temporary)
            if input.scancode == KEY_ESCAPE {
                assert(self@ == old(self)@.key(input, Tetromino::I));
                return Action::Exit;
            }
            match Command::from_scancode(input.scancode) {
                Some(command) => {
                    self.perform(command);
                    proof {
                        let upcoming = choose|upcoming: Tetromino|
                            self@ == old(self)@.perform(command, upcoming);
                        assert(self@ == old(self)@.key(input, upcoming));
                    }
                    return Action::Continue;
                },
                None => {},
            }
        }
        assert(self@ == old(self)@.key(input, Tetromino::I));
        Action::Continue
    }

    /// Updates the game logic. Should be called 60 times per second.
    ///
    /// A lost game asks for the game-over scene and stays as it is.
    pub fn tick(&mut self) -> (action: Action)
        requires
            old(self).wf(),
            old(self)@.has_headroom(),
        ensures
            final(self).wf(),
            exists|upcoming: Tetromino| final(self)@ == old(self)@.tick(upcoming),
            old(self)@.lost ==> (action matches Action::SwitchScene(Scene::GameOver(over))
                && over.score() == old(self)@.score),
            !old(self)@.lost ==> action is Continue,
    {
        if self.lost {
            assert(self@ == old(self)@.tick(Tetromino::I));
            return Action::SwitchScene(Scene::GameOver(GameOver::new(self.score)));
        }
        self.ticks_elapsed += 1;
        if self.ticks_elapsed == TICKS_PER_FALL {
            self.ticks_elapsed = 0;
            let ghost reset = self@;
            self.fall();
            proof {
                let upcoming = choose|upcoming: Tetromino| self@ == reset.fall(upcoming);
                assert(self@ == old(self)@.tick(upcoming));
            }
        } else {
            assert(self@ == old(self)@.tick(Tetromino::I));
        }
        Action::Continue
    }
}

/// A lost game is final: no command, key or tick changes it.
pub proof fn lemma_lost_is_final(
    state: GameState,
    command: Command,
    input: KeyboardInput,
    by: Point,
    quarter_turns: i8,
    upcoming: Tetromino,
)
    requires
        state.lost,
    ensures
        state.rotate(quarter_turns) == state,
        state.shift(by) == state,
        state.hard_drop(upcoming) == state,
        state.fall(upcoming) == state,
        state.perform(command, upcoming) == state,
        state.key(input, upcoming) == state,
        state.tick(upcoming) == state,
{
}

/// A move downwards that succeeds restarts the fall timer, any other move
/// that succeeds leaves it alone, and a move that fails changes nothing.
pub proof fn lemma_move_and_timer(state: GameState, by: Point)
    ensures
        state.can_move(by) && by.y > 0 ==> state.shift(by).ticks_elapsed == 0,
        state.can_move(by) && by.y <= 0 ==> state.shift(by).ticks_elapsed == state.ticks_elapsed,
        state.can_move(by) ==> state.shift(by).falling == state.falling.moved(by),
        !state.can_move(by) ==> state.shift(by) == state,
{
}

/// Every action keeps a game in order: the state after it is well-formed
/// again.
pub proof fn lemma_actions_keep_order(
    state: GameState,
    command: Command,
    input: KeyboardInput,
    upcoming: Tetromino,
)
    requires
        state.wf(),
    ensures
        state.perform(command, upcoming).wf(),
        state.key(input, upcoming).wf(),
        state.tick(upcoming).wf(),
        !state.lost ==> state.finalize(upcoming).wf(),
        !state.lost ==> state.hard_drop(upcoming).wf(),
        state.fall(upcoming).wf(),
{
    lemma_finalize_keeps_order(state, upcoming);
    lemma_finalize_keeps_order(GameState { ticks_elapsed: 0, ..state }, upcoming);
    if !state.lost {
        lemma_landing(state.board, state.falling);
        lemma_fit_is_representable(state.board, state.falling);
        lemma_fit_is_representable(state.board, state.landed().falling);
        lemma_finalize_keeps_order(state.landed(), upcoming);
    }
    assert forall|by: Point| #[trigger] state.can_move(by) implies state.shift(by).wf() by {
        lemma_fit_is_representable(state.board, state.falling.moved(by));
    }
    assert forall|by: i8| state.rotate(by).wf() by {
        if state.rotate(by) != state {
            lemma_fit_is_representable(state.board, state.falling.rotated(by));
        }
    }
}

/// Placing the falling tetromino keeps a game in order.
proof fn lemma_finalize_keeps_order(state: GameState, upcoming: Tetromino)
    requires
        state.wf(),
    ensures
        !state.lost ==> state.finalize(upcoming).wf(),
{
    if !state.lost {
        let settled = placed(state.board, state.falling);
        crate::board::lemma_cleared_has_no_complete_row(settled);
        crate::board::lemma_surviving(settled);
        crate::board::lemma_cleared_rows_come_from(settled);
        crate::tetromino::lemma_squares_in_frame(state.next, 0);
    }
}

/// The tetromino `distance` squares further down.
pub open spec fn lowered(tetromino: FallingTetromino, distance: int) -> FallingTetromino {
    FallingTetromino {
        position: Point { x: tetromino.position.x, y: (tetromino.position.y + distance) as i32 },
        ..tetromino
    }
}

/// Where a tetromino lands: straight below where it is, at the lowest place
/// that it reaches through places where it fits. One square further down it
/// does not fit.
pub proof fn lemma_landing(rows: Seq<Seq<Cell>>, tetromino: FallingTetromino)
    requires
        fits(rows, tetromino),
    ensures
        tetromino.position.y <= landing(rows, tetromino).position.y < Board::HEIGHT,
        landing(rows, tetromino) == lowered(
            tetromino,
            landing(rows, tetromino).position.y - tetromino.position.y,
        ),
        forall|distance: int|
            0 <= distance <= landing(rows, tetromino).position.y - tetromino.position.y ==> fits(
                rows,
                #[trigger] lowered(tetromino, distance),
            ),
        !fits(rows, lowered(landing(rows, tetromino), 1)),
    decreases Board::HEIGHT - tetromino.position.y,
{
    lemma_fit_is_representable(rows, tetromino);
    let below = tetromino.moved(down());
    assert(below == lowered(tetromino, 1));
    assert(tetromino == lowered(tetromino, 0));
    if fits(rows, below) {
        lemma_landing(rows, below);
        let landed = landing(rows, tetromino);
        assert(landed == landing(rows, below));
        assert forall|distance: int|
            0 <= distance <= landed.position.y - tetromino.position.y implies fits(
            rows,
            #[trigger] lowered(tetromino, distance),
        ) by {
            if distance > 0 {
                assert(lowered(tetromino, distance) == lowered(below, distance - 1));
            }
        }
    }
}

/// A tetromino that fits has all its squares on or above the board, so their
/// coordinates are small.
pub proof fn lemma_fit_is_representable(rows: Seq<Seq<Cell>>, tetromino: FallingTetromino)
    requires
        fits(rows, tetromino),
    ensures
        -3 <= tetromino.position.x < Board::WIDTH,
        tetromino.position.y < Board::HEIGHT,
        tetromino.representable(),
{
    crate::tetromino::lemma_squares_in_frame(tetromino.tetromino, tetromino.rotation);
    assert(crate::board::admits(rows, tetromino.cells()[0]));
}

} // verus!
