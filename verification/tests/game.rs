use tetris::board::Board;
use tetris::game::{calc_score, Command, Game, TICKS_PER_FALL};
use tetris::game_over::GameOver;
use tetris::main_menu::MainMenu;
use tetris::point::Point;
use tetris::scene::{Action, ElementState, KeyboardInput, Scene, KEY_ENTER, KEY_ESCAPE};
use tetris::tetromino::{FallingTetromino, Tetromino};

const DOWN: Point = Point { x: 0, y: 1 };
const LEFT: Point = Point { x: -1, y: 0 };
const RIGHT: Point = Point { x: 1, y: 0 };

fn pressed(scancode: u32) -> KeyboardInput {
    KeyboardInput { scancode, state: ElementState::Pressed }
}

fn released(scancode: u32) -> KeyboardInput {
    KeyboardInput { scancode, state: ElementState::Released }
}

/// What can be seen of a game.
#[derive(Debug, PartialEq)]
struct Snapshot {
    settled: Vec<(usize, usize, Tetromino)>,
    falling: FallingTetromino,
    next: Tetromino,
    ticks_elapsed: usize,
    score: u32,
    level: u32,
    rows_cleared: u32,
    lost: bool,
}

fn snapshot(game: &Game) -> Snapshot {
    Snapshot {
        settled: game.board().settled_squares(),
        falling: game.falling_tetromino(),
        next: game.next_tetromino(),
        ticks_elapsed: game.ticks_elapsed(),
        score: game.score(),
        level: game.level(),
        rows_cleared: game.rows_cleared(),
        lost: game.lost(),
    }
}

/// Lets the falling tetromino fall as far as it goes and places it, with a
/// chosen new preview.
fn drop_with(game: &mut Game, upcoming: Tetromino) {
    while game.try_move(DOWN) {}
    game.finalize_with(upcoming);
}

/// Moves the falling tetromino `by` columns to the side.
fn slide(game: &mut Game, by: i32) {
    for _ in 0..by.abs() {
        assert!(game.try_move(if by < 0 { LEFT } else { RIGHT }));
    }
}

#[test]
fn score_table() {
    assert_eq!(calc_score(0), 0);
    assert_eq!(calc_score(1), 40);
    assert_eq!(calc_score(2), 100);
    assert_eq!(calc_score(3), 300);
    assert_eq!(calc_score(4), 1200);
}

#[test]
fn a_game_starts_empty() {
    let game = Game::with_tetrominoes(Tetromino::L, Tetromino::Z);
    assert_eq!(
        snapshot(&game),
        Snapshot {
            settled: vec![],
            falling: FallingTetromino {
                position: Point { x: 3, y: -1 },
                rotation: 0,
                tetromino: Tetromino::L,
            },
            next: Tetromino::Z,
            ticks_elapsed: 0,
            score: 0,
            level: 0,
            rows_cleared: 0,
            lost: false,
        }
    );
}

#[test]
fn a_random_game_starts_empty() {
    let game = Game::new();
    let fresh = Game::with_tetrominoes(game.falling_tetromino().tetromino, game.next_tetromino());
    assert_eq!(snapshot(&game), snapshot(&fresh));
    assert_eq!(game.falling_tetromino().position, Point { x: 3, y: -1 });
    assert_eq!(game.falling_tetromino().rotation, 0);
}

#[test]
fn moves_stop_at_the_walls() {
    let mut game = Game::with_tetrominoes(Tetromino::O, Tetromino::I);
    // An O at the origin is in the columns 4 and 5.
    for expected in [2, 1, 0, -1] {
        assert!(game.try_move(LEFT));
        assert_eq!(game.falling_tetromino().position, Point { x: expected, y: -1 });
    }
    let before = snapshot(&game);
    assert!(!game.try_move(LEFT));
    assert_eq!(snapshot(&game), before);
    for expected in 0..=7 {
        assert!(game.try_move(RIGHT));
        assert_eq!(game.falling_tetromino().position, Point { x: expected, y: -1 });
    }
    assert!(!game.try_move(RIGHT));
    assert_eq!(game.falling_tetromino().position, Point { x: 7, y: -1 });
}

#[test]
fn moving_down_restarts_the_fall_timer() {
    let mut game = Game::with_tetrominoes(Tetromino::T, Tetromino::I);
    for _ in 0..10 {
        assert!(matches!(game.tick(), Action::Continue));
    }
    assert_eq!(game.ticks_elapsed(), 10);
    assert!(game.try_move(DOWN));
    assert_eq!(game.ticks_elapsed(), 0);
    assert_eq!(game.falling_tetromino().position, Point { x: 3, y: 0 });
}

#[test]
fn a_failed_move_leaves_the_fall_timer() {
    let mut game = Game::with_tetrominoes(Tetromino::O, Tetromino::I);
    slide(&mut game, -4);
    for _ in 0..5 {
        let _ = game.tick();
    }
    assert_eq!(game.ticks_elapsed(), 5);
    assert!(!game.try_move(LEFT));
    assert_eq!(game.ticks_elapsed(), 5);
    // Down to the floor, then once more.
    while game.try_move(DOWN) {}
    assert_eq!(game.falling_tetromino().position, Point { x: -1, y: 17 });
    for _ in 0..7 {
        let _ = game.tick();
    }
    assert_eq!(game.ticks_elapsed(), 7);
    assert!(!game.try_move(DOWN));
    assert_eq!(game.ticks_elapsed(), 7);
    assert_eq!(game.falling_tetromino().position, Point { x: -1, y: 17 });
}

#[test]
fn a_move_to_the_side_leaves_the_fall_timer() {
    let mut game = Game::with_tetrominoes(Tetromino::S, Tetromino::I);
    for _ in 0..42 {
        let _ = game.tick();
    }
    assert!(game.try_move(RIGHT));
    assert!(game.try_move(Point { x: 0, y: -1 }));
    assert_eq!(game.ticks_elapsed(), 42);
    assert_eq!(game.falling_tetromino().position, Point { x: 4, y: -2 });
}

#[test]
fn rotation_is_refused_where_it_does_not_fit() {
    let mut game = Game::with_tetrominoes(Tetromino::I, Tetromino::O);
    game.try_rotate(1);
    assert_eq!(game.falling_tetromino().rotation, 1);
    // The standing I is in column 5. Move it to column 0.
    slide(&mut game, -5);
    assert_eq!(game.falling_tetromino().position, Point { x: -2, y: -1 });
    let before = snapshot(&game);
    game.try_rotate(1);
    assert_eq!(snapshot(&game), before);
    game.try_rotate(-1);
    assert_eq!(snapshot(&game), before);
    slide(&mut game, 2);
    game.try_rotate(-1);
    assert_eq!(game.falling_tetromino().rotation, 0);
    game.try_rotate(-1);
    assert_eq!(game.falling_tetromino().rotation, 255);
    assert_eq!(game.falling_tetromino().position, Point { x: 0, y: -1 });
}

#[test]
fn the_tetromino_falls_every_sixtieth_tick() {
    assert_eq!(TICKS_PER_FALL, 60);
    let mut game = Game::with_tetrominoes(Tetromino::J, Tetromino::O);
    for tick in 1..60 {
        assert!(matches!(game.tick(), Action::Continue));
        assert_eq!(game.ticks_elapsed(), tick);
        assert_eq!(game.falling_tetromino().position, Point { x: 3, y: -1 });
    }
    assert!(matches!(game.tick(), Action::Continue));
    assert_eq!(game.ticks_elapsed(), 0);
    assert_eq!(game.falling_tetromino().position, Point { x: 3, y: 0 });
    for _ in 0..60 {
        let _ = game.tick();
    }
    assert_eq!(game.falling_tetromino().position, Point { x: 3, y: 1 });
}

#[test]
fn falling_onto_the_floor_places_the_tetromino() {
    let mut game = Game::with_tetrominoes(Tetromino::O, Tetromino::T);
    while game.try_move(DOWN) {}
    assert_eq!(game.falling_tetromino().position, Point { x: 3, y: 17 });
    for _ in 0..59 {
        let _ = game.tick();
    }
    assert_eq!(game.board().settled_squares(), vec![]);
    let _ = game.tick();
    assert_eq!(
        game.board().settled_squares(),
        vec![
            (4, 18, Tetromino::O),
            (5, 18, Tetromino::O),
            (4, 19, Tetromino::O),
            (5, 19, Tetromino::O),
        ]
    );
    assert_eq!(game.falling_tetromino(), FallingTetromino::new_at_origin(Tetromino::T));
    assert_eq!(game.ticks_elapsed(), 0);
    assert_eq!(game.score(), 0);
    assert!(!game.lost());
}

#[test]
fn fall_moves_down_or_places() {
    let mut game = Game::with_tetrominoes(Tetromino::I, Tetromino::J);
    for y in 0..=17 {
        game.fall();
        assert_eq!(game.falling_tetromino().position, Point { x: 3, y });
        assert_eq!(game.board().settled_squares(), vec![]);
    }
    game.fall();
    assert_eq!(game.falling_tetromino(), FallingTetromino::new_at_origin(Tetromino::J));
    assert_eq!(game.board().settled_squares().len(), 4);
    assert_eq!(game.board().get(3, 19), Some(Some(Tetromino::I)));
}

#[test]
fn drop_places_the_tetromino_at_the_bottom() {
    let mut game = Game::with_tetrominoes(Tetromino::O, Tetromino::T);
    for _ in 0..30 {
        let _ = game.tick();
    }
    game.drop();
    assert_eq!(
        game.board().settled_squares(),
        vec![
            (4, 18, Tetromino::O),
            (5, 18, Tetromino::O),
            (4, 19, Tetromino::O),
            (5, 19, Tetromino::O),
        ]
    );
    assert_eq!(game.falling_tetromino(), FallingTetromino::new_at_origin(Tetromino::T));
    assert_eq!(game.ticks_elapsed(), 0);
    assert_eq!(game.score(), 0);
    assert_eq!(game.rows_cleared(), 0);
    assert!(!game.lost());

    // The T lands on the O.
    game.drop();
    assert_eq!(game.board().settled_squares().len(), 8);
    assert_eq!(game.board().get(5, 17), Some(Some(Tetromino::T)));
    assert_eq!(game.board().get(4, 16), Some(Some(Tetromino::T)));
    assert_eq!(game.board().get(6, 16), Some(Some(Tetromino::T)));
    assert_eq!(game.board().get(6, 17), Some(None));
}

#[test]
fn drop_of_a_resting_tetromino_keeps_the_fall_timer() {
    let mut game = Game::with_tetrominoes(Tetromino::O, Tetromino::T);
    while game.try_move(DOWN) {}
    for _ in 0..30 {
        let _ = game.tick();
    }
    game.drop();
    assert_eq!(game.ticks_elapsed(), 30);
    assert_eq!(game.board().settled_squares().len(), 4);
}

#[test]
fn finalize_takes_the_preview_and_the_new_preview() {
    let mut game = Game::with_tetrominoes(Tetromino::Z, Tetromino::L);
    slide(&mut game, 2);
    game.try_rotate(1);
    for _ in 0..3 {
        assert!(game.try_move(DOWN));
    }
    game.finalize_with(Tetromino::S);
    // The Z stood in (8, 2), (7, 3), (8, 3), (7, 4).
    assert_eq!(
        snapshot(&game),
        Snapshot {
            settled: vec![
                (8, 2, Tetromino::Z),
                (7, 3, Tetromino::Z),
                (8, 3, Tetromino::Z),
                (7, 4, Tetromino::Z),
            ],
            falling: FallingTetromino::new_at_origin(Tetromino::L),
            next: Tetromino::S,
            ticks_elapsed: 0,
            score: 0,
            level: 0,
            rows_cleared: 0,
            lost: false,
        }
    );
    game.finalize();
    assert_eq!(game.falling_tetromino(), FallingTetromino::new_at_origin(Tetromino::S));
    assert_eq!(game.board().settled_squares().len(), 8);
    assert_eq!(game.board().get(4, 1), Some(Some(Tetromino::L)));
}

#[test]
fn a_complete_row_scores_forty() {
    let mut game = Game::with_tetrominoes(Tetromino::I, Tetromino::I);
    slide(&mut game, -3);
    drop_with(&mut game, Tetromino::O);
    slide(&mut game, 1);
    drop_with(&mut game, Tetromino::T);
    assert_eq!(game.score(), 0);
    assert_eq!(game.board().settled_squares().len(), 8);
    // The O fills the columns 8 and 9.
    slide(&mut game, 4);
    drop_with(&mut game, Tetromino::J);
    assert_eq!(game.score(), 40);
    assert_eq!(game.rows_cleared(), 1);
    assert_eq!(game.level(), 0);
    assert_eq!(
        game.board().settled_squares(),
        vec![(8, 19, Tetromino::O), (9, 19, Tetromino::O)]
    );
    assert_eq!(game.falling_tetromino(), FallingTetromino::new_at_origin(Tetromino::T));
    assert_eq!(game.next_tetromino(), Tetromino::J);
}

#[test]
fn two_complete_rows_score_a_hundred() {
    let mut game = Game::with_tetrominoes(Tetromino::O, Tetromino::O);
    for by in [-4, -2, 0, 2] {
        slide(&mut game, by);
        drop_with(&mut game, Tetromino::O);
        assert_eq!(game.score(), 0);
    }
    slide(&mut game, 4);
    drop_with(&mut game, Tetromino::O);
    assert_eq!(game.score(), 100);
    assert_eq!(game.rows_cleared(), 2);
    assert_eq!(game.board().settled_squares(), vec![]);
}

#[test]
fn three_complete_rows_score_three_hundred() {
    let mut game = Game::with_tetrominoes(Tetromino::I, Tetromino::I);
    // Lying Is fill the columns 0 to 7 of the three bottom rows ...
    for _ in 0..3 {
        slide(&mut game, -3);
        drop_with(&mut game, Tetromino::I);
        slide(&mut game, 1);
        drop_with(&mut game, Tetromino::I);
    }
    // ... and a standing I fills column 8, one row higher.
    game.try_rotate(1);
    slide(&mut game, 3);
    drop_with(&mut game, Tetromino::I);
    assert_eq!(game.score(), 0);
    assert_eq!(game.rows_cleared(), 0);
    assert_eq!(game.board().settled_squares().len(), 28);
    // A standing I in column 9 completes the three bottom rows.
    game.try_rotate(-1);
    slide(&mut game, 4);
    drop_with(&mut game, Tetromino::I);
    assert_eq!(game.score(), 300);
    assert_eq!(game.rows_cleared(), 3);
    assert_eq!(
        game.board().settled_squares(),
        vec![(8, 19, Tetromino::I), (9, 19, Tetromino::I)]
    );
}

#[test]
fn four_complete_rows_score_twelve_hundred() {
    let mut game = Game::with_tetrominoes(Tetromino::I, Tetromino::I);
    for column in 0..10 {
        assert_eq!(game.score(), 0);
        assert_eq!(game.board().settled_squares().len(), 4 * column as usize);
        game.try_rotate(1);
        slide(&mut game, column - 5);
        drop_with(&mut game, Tetromino::I);
    }
    assert_eq!(game.score(), 1200);
    assert_eq!(game.rows_cleared(), 4);
    assert_eq!(game.board().settled_squares(), vec![]);
    assert!(!game.lost());

    // Once more: the counters add up.
    for column in 0..10 {
        game.try_rotate(1);
        slide(&mut game, column - 5);
        drop_with(&mut game, Tetromino::I);
    }
    assert_eq!(game.score(), 2400);
    assert_eq!(game.rows_cleared(), 8);
}

#[test]
fn the_game_is_lost_when_the_new_tetromino_does_not_fit() {
    let mut game = Game::new();
    let mut drops = 0;
    while !game.lost() {
        game.drop();
        drops += 1;
        assert!(drops <= 200);
    }
    assert!(drops >= 5);
    assert!(!game.board().can_fit(game.falling_tetromino()));
    assert_eq!(game.falling_tetromino().position, Point { x: 3, y: -1 });
    assert_eq!(game.falling_tetromino().rotation, 0);

    let before = snapshot(&game);
    for _ in 0..130 {
        match game.tick() {
            Action::SwitchScene(Scene::GameOver(over)) => assert_eq!(over.score(), before.score),
            _ => panic!("a lost game asks for the game over scene"),
        }
        assert_eq!(snapshot(&game), before);
    }
    assert!(!game.try_move(DOWN));
    assert!(!game.try_move(LEFT));
    assert!(!game.try_move(Point { x: 0, y: -4 }));
    game.try_rotate(1);
    game.drop();
    game.fall();
    game.perform(Command::Drop);
    assert!(matches!(game.keyboard_input(pressed(57)), Action::Continue));
    assert!(matches!(game.keyboard_input(pressed(KEY_ESCAPE)), Action::Exit));
    assert_eq!(snapshot(&game), before);
}

#[test]
fn losing_with_chosen_tetrominoes() {
    let mut game = Game::with_tetrominoes(Tetromino::O, Tetromino::O);
    // Each O is two rows high: ten of them reach from the floor to the top.
    for placed in 1..=9 {
        drop_with(&mut game, Tetromino::O);
        assert!(!game.lost());
        assert_eq!(game.board().settled_squares().len(), 4 * placed);
    }
    // The tenth comes to rest where it started, in the two top rows.
    assert!(!game.try_move(DOWN));
    drop_with(&mut game, Tetromino::I);
    assert!(game.lost());
    assert_eq!(game.board().settled_squares().len(), 40);
    assert_eq!(game.falling_tetromino(), FallingTetromino::new_at_origin(Tetromino::O));
    assert_eq!(game.next_tetromino(), Tetromino::I);
    assert_eq!(game.score(), 0);
}

#[test]
fn scancodes_give_commands() {
    for scancode in [16, 44, 23] {
        assert_eq!(Command::from_scancode(scancode), Some(Command::RotateCounterclockwise));
    }
    for scancode in [18, 45, 25] {
        assert_eq!(Command::from_scancode(scancode), Some(Command::RotateClockwise));
    }
    for scancode in [30, 57419, 37] {
        assert_eq!(Command::from_scancode(scancode), Some(Command::MoveLeft));
    }
    for scancode in [32, 57421, 39] {
        assert_eq!(Command::from_scancode(scancode), Some(Command::MoveRight));
    }
    for scancode in [31, 57424, 38] {
        assert_eq!(Command::from_scancode(scancode), Some(Command::MoveDown));
    }
    assert_eq!(Command::from_scancode(57), Some(Command::Drop));
    for scancode in [0, 1, 2, 17, 28, 56, 58, 57420, u32::MAX] {
        assert_eq!(Command::from_scancode(scancode), None);
    }
}

#[test]
fn commands_act_on_the_falling_tetromino() {
    let mut game = Game::with_tetrominoes(Tetromino::T, Tetromino::O);
    game.perform(Command::MoveLeft);
    assert_eq!(game.falling_tetromino().position, Point { x: 2, y: -1 });
    game.perform(Command::MoveRight);
    game.perform(Command::MoveRight);
    assert_eq!(game.falling_tetromino().position, Point { x: 4, y: -1 });
    game.perform(Command::MoveDown);
    assert_eq!(game.falling_tetromino().position, Point { x: 4, y: 0 });
    game.perform(Command::RotateClockwise);
    assert_eq!(game.falling_tetromino().rotation, 1);
    game.perform(Command::RotateCounterclockwise);
    game.perform(Command::RotateCounterclockwise);
    assert_eq!(game.falling_tetromino().rotation, 255);
    game.perform(Command::Drop);
    assert_eq!(game.falling_tetromino(), FallingTetromino::new_at_origin(Tetromino::O));
    // The T stood on its side in column 6, with its nose in column 7.
    assert_eq!(
        game.board().settled_squares(),
        vec![
            (6, 17, Tetromino::T),
            (6, 18, Tetromino::T),
            (7, 18, Tetromino::T),
            (6, 19, Tetromino::T),
        ]
    );
}

#[test]
fn keys_act_when_pressed() {
    let mut game = Game::with_tetrominoes(Tetromino::L, Tetromino::O);
    assert!(matches!(game.keyboard_input(pressed(30)), Action::Continue));
    assert_eq!(game.falling_tetromino().position, Point { x: 2, y: -1 });
    assert!(matches!(game.keyboard_input(pressed(57421)), Action::Continue));
    assert!(matches!(game.keyboard_input(pressed(39)), Action::Continue));
    assert_eq!(game.falling_tetromino().position, Point { x: 4, y: -1 });
    assert!(matches!(game.keyboard_input(pressed(31)), Action::Continue));
    assert_eq!(game.falling_tetromino().position, Point { x: 4, y: 0 });
    assert!(matches!(game.keyboard_input(pressed(18)), Action::Continue));
    assert_eq!(game.falling_tetromino().rotation, 1);
    assert!(matches!(game.keyboard_input(pressed(16)), Action::Continue));
    assert_eq!(game.falling_tetromino().rotation, 0);

    let before = snapshot(&game);
    for scancode in [16, 18, 30, 32, 31, 57, KEY_ESCAPE, KEY_ENTER] {
        assert!(matches!(game.keyboard_input(released(scancode)), Action::Continue));
    }
    for scancode in [0, 2, 17, KEY_ENTER, 100, u32::MAX] {
        assert!(matches!(game.keyboard_input(pressed(scancode)), Action::Continue));
    }
    assert!(matches!(game.keyboard_input(pressed(KEY_ESCAPE)), Action::Exit));
    assert_eq!(snapshot(&game), before);

    assert!(matches!(game.keyboard_input(pressed(57)), Action::Continue));
    assert_eq!(game.board().settled_squares().len(), 4);
    assert_eq!(game.falling_tetromino(), FallingTetromino::new_at_origin(Tetromino::O));
}

#[test]
fn the_menu_starts_a_game_on_enter() {
    let mut menu = MainMenu::new();
    assert!(matches!(menu.tick(), Action::Continue));
    assert!(matches!(menu.keyboard_input(pressed(57)), Action::Continue));
    assert!(matches!(menu.keyboard_input(released(KEY_ENTER)), Action::Continue));
    match menu.keyboard_input(pressed(KEY_ENTER)) {
        Action::SwitchScene(Scene::Game(game)) => {
            assert_eq!(game.score(), 0);
            assert_eq!(game.board().settled_squares(), vec![]);
            assert!(!game.lost());
        }
        _ => panic!("Enter starts a game"),
    }
}

#[test]
fn game_over_keeps_the_score_and_starts_a_game_on_enter() {
    let mut over = GameOver::new(4321);
    assert_eq!(over.score(), 4321);
    assert!(matches!(over.tick(), Action::Continue));
    assert!(matches!(over.keyboard_input(pressed(KEY_ESCAPE)), Action::Continue));
    assert!(matches!(over.keyboard_input(released(KEY_ENTER)), Action::Continue));
    match over.keyboard_input(pressed(KEY_ENTER)) {
        Action::SwitchScene(Scene::Game(game)) => {
            assert_eq!(game.score(), 0);
            assert_eq!(game.ticks_elapsed(), 0);
            assert_eq!(game.falling_tetromino().position, Point { x: 3, y: -1 });
        }
        _ => panic!("Enter starts a game"),
    }
    assert_eq!(over.score(), 4321);
}

#[test]
fn scenes_follow_one_another() {
    let mut scene = Scene::MainMenu(MainMenu::new());
    let action = scene.tick();
    assert!(matches!(action, Action::Continue));
    assert!(!scene.handle_action(action));
    assert!(matches!(scene, Scene::MainMenu(_)));

    let action = scene.keyboard_input(pressed(KEY_ENTER));
    assert!(!scene.handle_action(action));
    assert!(matches!(scene, Scene::Game(_)));

    // Drop until the game is lost.
    for _ in 0..200 {
        let action = scene.keyboard_input(pressed(57));
        assert!(matches!(action, Action::Continue));
        assert!(!scene.handle_action(action));
    }
    let score = match &scene {
        Scene::Game(game) => {
            assert!(game.lost());
            game.score()
        }
        _ => panic!("the game goes on until the next tick"),
    };
    let action = scene.tick();
    assert!(!scene.handle_action(action));
    match &scene {
        Scene::GameOver(over) => assert_eq!(over.score(), score),
        _ => panic!("a lost game is followed by the game over scene"),
    }

    let action = scene.tick();
    assert!(!scene.handle_action(action));
    assert!(matches!(scene, Scene::GameOver(_)));
    let action = scene.keyboard_input(pressed(KEY_ENTER));
    assert!(!scene.handle_action(action));
    match &scene {
        Scene::Game(game) => assert!(!game.lost()),
        _ => panic!("Enter starts a game"),
    }

    let action = scene.keyboard_input(pressed(KEY_ESCAPE));
    assert!(matches!(action, Action::Exit));
    assert!(scene.handle_action(action));
    assert!(matches!(scene, Scene::Game(_)));
}

#[test]
fn board_of_a_game_is_the_standard_board() {
    let game = Game::with_tetrominoes(Tetromino::I, Tetromino::I);
    assert_eq!(game.board().get(Board::WIDTH - 1, Board::HEIGHT - 1), Some(None));
    assert_eq!(game.board().get(Board::WIDTH, Board::HEIGHT - 1), None);
}

#[test]
fn counters_have_headroom() {
    let mut game = Game::with_tetrominoes(Tetromino::O, Tetromino::O);
    assert!(game.has_headroom());
    assert!(Scene::Game(Game::new()).has_headroom());
    assert!(Scene::MainMenu(MainMenu::new()).has_headroom());
    assert!(Scene::GameOver(GameOver::new(u32::MAX)).has_headroom());
    while !game.lost() {
        drop_with(&mut game, Tetromino::O);
    }
    assert!(game.has_headroom());
}
