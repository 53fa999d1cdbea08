//! The per-tick game state machine.
use dark_tetris::game::TetrisGame;
use dark_tetris::game::TetrominoState;
use dark_tetris::intvector::CardinalRotation;
use dark_tetris::intvector::IntVector2;
use dark_tetris::playfield::Playfield;
use dark_tetris::tetris_input::ButtonEvent;
use dark_tetris::tetris_input::GameButton;
use dark_tetris::tetris_input::TetrisInput;
use dark_tetris::tetromino::PieceType;
use dark_tetris::tetromino::Tetromino;

fn o_piece(x: i8, y: i8) -> Tetromino {
    Tetromino {
        piece_type: PieceType::OBlock,
        orientation: CardinalRotation::Rotate0,
        position: IntVector2::new(x, y),
    }
}

fn active_game(piece: Tetromino, drop_cooldown: i64) -> TetrisGame {
    TetrisGame {
        playfield: Playfield::new_empty(),
        state: TetrominoState::Active(piece, drop_cooldown),
        input: TetrisInput::new(),
    }
}

#[test]
fn new_game_awaits_an_immediate_spawn() {
    let game = TetrisGame::new();
    assert_eq!(game.state, TetrominoState::Spawning(0));
    assert!(game.playfield.iter_orphans().is_empty());
}

#[test]
fn expired_spawn_cooldown_never_stays_spawning() {
    // From Spawning(0), one tick must transition; on an empty board the
    // spawned piece is valid, so the game must be Active afterwards.
    let mut game = TetrisGame::new();
    game.update(10, &vec![]);
    match game.state {
        TetrominoState::Active(piece, _) => {
            // The spawn happened at the spawn cell; the same tick's gravity
            // then dropped the fresh piece one row.
            assert_eq!(piece.orientation, CardinalRotation::Rotate0);
            assert_eq!(piece.position, IntVector2::new(5, 19));
        },
        other => panic!("expected an active piece, got {:?}", other),
    }
}

#[test]
fn spawn_cooldown_counts_down_while_nonnegative() {
    let mut game = TetrisGame::new();
    game.state = TetrominoState::Spawning(1000);
    game.update(300, &vec![]);
    assert_eq!(game.state, TetrominoState::Spawning(700));
    game.update(700, &vec![]);
    assert_eq!(game.state, TetrominoState::Spawning(0));
    // Zero elapsed time leaves the cooldown at zero: it has not crossed yet.
    game.update(0, &vec![]);
    assert_eq!(game.state, TetrominoState::Spawning(0));
}

#[test]
fn blocked_spawn_cell_tops_the_board_out() {
    // Every piece template contains the spawn cell itself, so occupying it
    // makes any drawn piece invalid: the game must end.
    let mut game = TetrisGame::new();
    game.playfield.lock_tetromino(&o_piece(5, 20));
    game.update(10, &vec![]);
    assert_eq!(game.state, TetrominoState::GameOver);
    // The board is untouched by the failed spawn.
    assert_eq!(game.playfield.iter_orphans().len(), 4);
}

#[test]
fn game_over_is_terminal() {
    let mut game = TetrisGame::new();
    game.state = TetrominoState::GameOver;
    for _ in 0..5 {
        game.update(100, &vec![ButtonEvent { button: GameButton::ArrowLeft, pressed: true }]);
        assert_eq!(game.state, TetrominoState::GameOver);
    }
    assert!(game.playfield.iter_orphans().is_empty());
}

#[test]
fn gravity_drops_one_row_and_resets_the_cooldown() {
    // An active piece with drop_cooldown 500 ticked with dt 600 drops exactly
    // one row and the cooldown resets to the fixed 1000-unit interval.
    let mut game = active_game(o_piece(5, 10), 500);
    game.update(600, &vec![]);
    assert_eq!(game.state, TetrominoState::Active(o_piece(5, 9), 1000));
    assert!(game.playfield.iter_orphans().is_empty());
}

#[test]
fn gravity_merely_counts_down_while_nonnegative() {
    let mut game = active_game(o_piece(5, 10), 500);
    game.update(200, &vec![]);
    assert_eq!(game.state, TetrominoState::Active(o_piece(5, 10), 300));
}

#[test]
fn blocked_drop_locks_the_piece_and_schedules_a_spawn() {
    // The same expired cooldown with an invalid destination locks the piece
    // where it is and moves to Spawning(1000).
    let mut game = active_game(o_piece(5, 0), 500);
    game.update(600, &vec![]);
    assert_eq!(game.state, TetrominoState::Spawning(1000));
    let orphans = game.playfield.iter_orphans();
    assert_eq!(orphans.len(), 4);
    let mut cells: Vec<(i8, i8)> = orphans.iter().map(|(v, _)| (v.x, v.y)).collect();
    cells.sort();
    assert_eq!(cells, vec![(5, 0), (5, 1), (6, 0), (6, 1)]);
}

#[test]
fn edge_press_moves_the_active_piece() {
    let mut game = active_game(o_piece(5, 10), 1000);
    let press = vec![ButtonEvent { button: GameButton::ArrowLeft, pressed: true }];
    game.update(10, &press);
    assert_eq!(game.state, TetrominoState::Active(o_piece(4, 10), 990));

    // Holding the key does not keep moving the piece: the edge fired already.
    game.update(10, &vec![]);
    assert_eq!(game.state, TetrominoState::Active(o_piece(4, 10), 980));
    game.update(10, &vec![]);
    assert_eq!(game.state, TetrominoState::Active(o_piece(4, 10), 970));
}

#[test]
fn rejected_move_is_silently_ignored() {
    // An O piece at x = 0 cannot move further left.
    let mut game = active_game(o_piece(0, 10), 1000);
    let press = vec![ButtonEvent { button: GameButton::ArrowLeft, pressed: true }];
    game.update(10, &press);
    assert_eq!(game.state, TetrominoState::Active(o_piece(0, 10), 990));
}

#[test]
fn move_right_and_rotations_apply_in_order() {
    let t_piece = Tetromino {
        piece_type: PieceType::TBlock,
        orientation: CardinalRotation::Rotate0,
        position: IntVector2::new(5, 10),
    };
    let mut game = active_game(t_piece, 1000);
    let press = vec![
        ButtonEvent { button: GameButton::ArrowRight, pressed: true },
        ButtonEvent { button: GameButton::KeyA, pressed: true },
    ];
    game.update(10, &press);
    let expected = Tetromino {
        piece_type: PieceType::TBlock,
        orientation: CardinalRotation::Rotate90,
        position: IntVector2::new(6, 10),
    };
    assert_eq!(game.state, TetrominoState::Active(expected, 990));

    // Rotating right afterwards undoes the rotation but keeps the position.
    let release_then_press = vec![
        ButtonEvent { button: GameButton::KeyD, pressed: true },
    ];
    game.update(10, &release_then_press);
    let expected = Tetromino {
        piece_type: PieceType::TBlock,
        orientation: CardinalRotation::Rotate0,
        position: IntVector2::new(6, 10),
    };
    assert_eq!(game.state, TetrominoState::Active(expected, 980));
}

#[test]
fn locked_piece_receives_no_move_input_on_the_same_tick() {
    // The piece locks during this tick's gravity stage; the input stage then
    // sees no active piece, so the press is not applied to anything.
    let mut game = active_game(o_piece(5, 0), 100);
    let press = vec![ButtonEvent { button: GameButton::ArrowLeft, pressed: true }];
    game.update(200, &press);
    assert_eq!(game.state, TetrominoState::Spawning(1000));
    assert_eq!(game.playfield.iter_orphans().len(), 4);
}
