//! The per-tick game state machine: spawn, gravity, lock, player input, and
//! game-over detection, driven by an elapsed time in milliseconds and the
//! tick's buffered button events.
use vstd::prelude::*;

use crate::binary_axis::spec_pressed_this_frame;
use crate::intvector::CardinalRotation;
use crate::intvector::IntVector2;
use crate::playfield::PLAYFIELD_HEIGHT;
use crate::playfield::PLAYFIELD_WIDTH;
use crate::playfield::Playfield;
use crate::playfield::empty_grid_map;
use crate::playfield::lemma_bounded_cells_position_in_range;
use crate::playfield::spec_lock;
use crate::playfield::spec_valid_placement;
use crate::tetris_input::ButtonEvent;
use crate::tetris_input::TetrisInput;
use crate::tetris_input::spec_input_tick;
use crate::tetromino::Tetromino;

verus! {

/// The fixed gravity interval, in milliseconds: how long an active piece
/// waits before dropping one row.
pub const GRAVITY_INTERVAL_MS: i64 = 1000;

/// The fixed delay, in milliseconds, between locking a piece and spawning the
/// next one.
pub const SPAWN_DELAY_MS: i64 = 1000;

/// The game-level piece state. `GameOver` is terminal: no transition leaves
/// it.
#[derive(Clone, Copy, Debug, PartialEq, Eq, Structural)]
pub enum TetrominoState {
    Spawning(i64),
    Active(Tetromino, i64),
    GameOver,
}

/// The cell where new pieces appear: horizontal center, two rows below the
/// top of the buffered grid.
pub open spec fn spec_spawn_cell() -> (int, int) {
    (PLAYFIELD_WIDTH as int / 2, PLAYFIELD_HEIGHT as int - 2)
}

/// Whether `p` looks freshly spawned: at the spawn cell, with zero rotation.
pub open spec fn spec_spawned_piece(p: Tetromino) -> bool {
    p.orientation == CardinalRotation::Rotate0 && p.position@ == spec_spawn_cell()
}

/// The piece after one attempted translation: committed only if the moved
/// piece is a valid placement, else unchanged.
pub open spec fn spec_try_move(
    g: Map<(int, int), Option<(u8, u8, u8)>>,
    p: Tetromino,
    offset: (int, int),
) -> Tetromino {
    if spec_valid_placement(g, p.spec_moved(offset)) {
        p.spec_moved(offset)
    } else {
        p
    }
}

/// The piece after one attempted counterclockwise rotation in place:
/// committed only if valid, else unchanged (no wall-kick search).
pub open spec fn spec_try_rotate_left(
    g: Map<(int, int), Option<(u8, u8, u8)>>,
    p: Tetromino,
) -> Tetromino {
    if spec_valid_placement(g, p.spec_rotated_left()) {
        p.spec_rotated_left()
    } else {
        p
    }
}

/// The piece after one attempted clockwise rotation in place: committed only
/// if valid, else unchanged (no wall-kick search).
pub open spec fn spec_try_rotate_right(
    g: Map<(int, int), Option<(u8, u8, u8)>>,
    p: Tetromino,
) -> Tetromino {
    if spec_valid_placement(g, p.spec_rotated_right()) {
        p.spec_rotated_right()
    } else {
        p
    }
}

/// The piece after this tick's player input, applied in the fixed order:
/// move left, move right, rotate left, rotate right; each attempt is
/// committed only if valid and silently ignored otherwise.
pub open spec fn spec_player_moves(
    g: Map<(int, int), Option<(u8, u8, u8)>>,
    p: Tetromino,
    move_left: bool,
    move_right: bool,
    rotate_left: bool,
    rotate_right: bool,
) -> Tetromino {
    let p1 = if move_left {
        spec_try_move(g, p, (-1, 0))
    } else {
        p
    };
    let p2 = if move_right {
        spec_try_move(g, p1, (1, 0))
    } else {
        p1
    };
    let p3 = if rotate_left {
        spec_try_rotate_left(g, p2)
    } else {
        p2
    };
    if rotate_right {
        spec_try_rotate_right(g, p3)
    } else {
        p3
    }
}

/// The gravity outcome for an active piece: if the decremented cooldown is
/// still nonnegative the piece merely waits; otherwise it drops one row when
/// the destination is valid, and locks into the grid and schedules a spawn
/// when it is not.
pub open spec fn spec_gravity(
    g: Map<(int, int), Option<(u8, u8, u8)>>,
    p: Tetromino,
    drop_cooldown: int,
    dt: int,
) -> (TetrominoState, Map<(int, int), Option<(u8, u8, u8)>>) {
    let d2 = drop_cooldown - dt;
    if d2 >= 0 {
        (TetrominoState::Active(p, d2 as i64), g)
    } else {
        let moved = p.spec_moved((0, -1));
        if spec_valid_placement(g, moved) {
            (TetrominoState::Active(moved, GRAVITY_INTERVAL_MS), g)
        } else {
            (TetrominoState::Spawning(SPAWN_DELAY_MS), spec_lock(g, p))
        }
    }
}

/// The whole tick for an already-active piece: gravity first, then — only if
/// the piece is still active — this tick's player input, read from the
/// already-updated axes `inp`.
pub open spec fn spec_active_tick(
    g: Map<(int, int), Option<(u8, u8, u8)>>,
    p: Tetromino,
    drop_cooldown: int,
    dt: int,
    inp: TetrisInput,
) -> (TetrominoState, Map<(int, int), Option<(u8, u8, u8)>>) {
    let after_gravity = spec_gravity(g, p, drop_cooldown, dt);
    match after_gravity.0 {
        TetrominoState::Active(p2, d2) => (
            TetrominoState::Active(
                spec_player_moves(
                    after_gravity.1,
                    p2,
                    spec_pressed_this_frame(inp.arrow_left),
                    spec_pressed_this_frame(inp.arrow_right),
                    spec_pressed_this_frame(inp.key_a),
                    spec_pressed_this_frame(inp.key_d),
                ),
                d2,
            ),
            after_gravity.1,
        ),
        _ => after_gravity,
    }
}

/// The game: the board, the piece state, and the tracked input axes.
pub struct TetrisGame {
    pub playfield: Playfield,
    pub state: TetrominoState,
    pub input: TetrisInput,
}

impl TetrisGame {
    /// Well-formedness: the board covers its fixed index set, cooldowns stay
    /// within one interval, and an active piece is always validly placed.
    pub open spec fn wf(self) -> bool {
        &&& self.playfield.wf()
        &&& match self.state {
            TetrominoState::Spawning(c) => 0 <= c <= SPAWN_DELAY_MS,
            TetrominoState::Active(p, d) => 0 <= d <= GRAVITY_INTERVAL_MS && spec_valid_placement(
                self.playfield.grid(),
                p,
            ),
            TetrominoState::GameOver => true,
        }
    }

    /// A fresh game: empty board, released inputs, and a spawn due on the
    /// first tick.
    pub fn new() -> (r: Self)
        ensures
            r.wf(),
            r.playfield.grid() == empty_grid_map(),
            r.state == TetrominoState::Spawning(0i64),
            r.input == crate::tetris_input::spec_fresh_input(),
    {
        Self {
            playfield: Playfield::new_empty(),
            state: TetrominoState::Spawning(0),
            input: TetrisInput::new(),
        }
    }

    /// One tick of the state machine, in the fixed stage order: update the
    /// input axes, then resolve a due spawn, then gravity, then player input;
    /// each stage sees the already-updated output of the stage before it.
    pub fn update(&mut self, dt: u32, input_events: &Vec<ButtonEvent>)
        requires
            old(self).wf(),
        ensures
            final(self).wf(),
            final(self).input == spec_input_tick(old(self).input, input_events@, dt),
            match old(self).state {
                TetrominoState::GameOver => final(self).state is GameOver && final(self).playfield.grid() == old(self).playfield.grid(),
                TetrominoState::Active(p, d) => {
                    let tick = spec_active_tick(
                        old(self).playfield.grid(),
                        p,
                        d as int,
                        dt as int,
                        final(self).input,
                    );
                    final(self).state == tick.0 && final(self).playfield.grid() == tick.1
                },
                TetrominoState::Spawning(c) => if c as int - dt as int >= 0 {
                    final(self).state == TetrominoState::Spawning((c as int - dt as int) as i64)
                        && final(self).playfield.grid() == old(self).playfield.grid()
                } else {
                    ||| (final(self).state is GameOver && final(self).playfield.grid() == old(self).playfield.grid() && (exists|p: Tetromino|
                        spec_spawned_piece(p) && !spec_valid_placement(
                            old(self).playfield.grid(),
                            p,
                        )))
                    ||| (exists|p: Tetromino|
                        {
                            let tick = spec_active_tick(
                                old(self).playfield.grid(),
                                p,
                                0,
                                dt as int,
                                final(self).input,
                            );
                            &&& #[trigger] spec_spawned_piece(p)
                            &&& spec_valid_placement(old(self).playfield.grid(), p)
                            &&& final(self).state == tick.0
                            &&& final(self).playfield.grid() == tick.1
                        })
                },
            },
    {
        // Update our input axes with this tick's events and elapsed time.
        self.input.update(dt, input_events);
        self.spawn_step(dt);
        let ghost after_spawn = self.state;
        self.gravity_step(dt);
        self.input_step();
        proof {
            // In the expired-spawn case, name the freshly drawn piece as the
            // witness for the postcondition's existentials.
            match after_spawn {
                TetrominoState::Active(p, _) => {
                    if old(self).state is Spawning {
                        assert(spec_spawned_piece(p));
                    }
                },
                _ => {},
            }
        }
    }

    /// If a spawn is pending, count its cooldown down; once it crosses zero,
    /// draw a random piece at the spawn cell and either activate it or, if it
    /// has no valid placement, end the game.
    pub fn spawn_step(&mut self, dt: u32)
        requires
            old(self).wf(),
        ensures
            final(self).wf(),
            final(self).input == old(self).input,
            final(self).playfield == old(self).playfield,
            match old(self).state {
                TetrominoState::Spawning(c) => if c as int - dt as int >= 0 {
                    final(self).state == TetrominoState::Spawning((c as int - dt as int) as i64)
                } else {
                    match final(self).state {
                        TetrominoState::Active(p, d) => spec_spawned_piece(p) && d == 0
                            && spec_valid_placement(old(self).playfield.grid(), p),
                        TetrominoState::GameOver => exists|p: Tetromino|
                            spec_spawned_piece(p) && !spec_valid_placement(
                                old(self).playfield.grid(),
                                p,
                            ),
                        _ => false,
                    }
                },
                _ => final(self).state == old(self).state,
            },
    {
        if let TetrominoState::Spawning(cooldown) = self.state {
            let new_cooldown = cooldown - dt as i64;
            if new_cooldown < 0 {
                let new_tetromino = Tetromino::new_random(self.playfield.spawn_location());
                if !self.playfield.is_valid_placement(&new_tetromino) {
                    proof {
                        assert(spec_spawned_piece(new_tetromino) && !spec_valid_placement(
                            old(self).playfield.grid(),
                            new_tetromino,
                        ));
                    }
                    self.state = TetrominoState::GameOver;
                } else {
                    self.state = TetrominoState::Active(new_tetromino, 0);
                }
            } else {
                self.state = TetrominoState::Spawning(new_cooldown);
            }
        }
    }

    /// If a piece is active, count its drop cooldown down; once it crosses
    /// zero, move the piece down one row if that placement is valid, else
    /// lock the piece into the playfield and schedule the next spawn.
    pub fn gravity_step(&mut self, dt: u32)
        requires
            old(self).wf(),
        ensures
            final(self).wf(),
            final(self).input == old(self).input,
            match old(self).state {
                TetrominoState::Active(p, d) => {
                    let after = spec_gravity(old(self).playfield.grid(), p, d as int, dt as int);
                    final(self).state == after.0 && final(self).playfield.grid() == after.1
                },
                _ => final(self).state == old(self).state && final(self).playfield == old(self).playfield,
            },
    {
        if let TetrominoState::Active(active_tetromino, drop_cooldown) = self.state {
            let new_cooldown = drop_cooldown - dt as i64;
            // If we've hit the drop cooldown, move this piece down by one
            // row; if we can't, lock it in place.
            if new_cooldown < 0 {
                proof {
                    lemma_active_piece_in_range(self.playfield.grid(), active_tetromino);
                }
                let moved_tetromino = active_tetromino.moved(IntVector2::new(0, -1));
                if self.playfield.is_valid_placement(&moved_tetromino) {
                    self.state = TetrominoState::Active(moved_tetromino, GRAVITY_INTERVAL_MS);
                } else {
                    self.playfield.lock_tetromino(&active_tetromino);
                    self.state = TetrominoState::Spawning(SPAWN_DELAY_MS);
                }
            } else {
                self.state = TetrominoState::Active(active_tetromino, new_cooldown);
            }
        }
    }

    /// If a piece is still active after gravity, apply this tick's edge
    /// presses: move left, move right, rotate left, rotate right, each
    /// committed only if the result is a valid placement.
    pub fn input_step(&mut self)
        requires
            old(self).wf(),
        ensures
            final(self).wf(),
            final(self).input == old(self).input,
            final(self).playfield == old(self).playfield,
            match old(self).state {
                TetrominoState::Active(p, d) => final(self).state == TetrominoState::Active(
                    spec_player_moves(
                        old(self).playfield.grid(),
                        p,
                        spec_pressed_this_frame(old(self).input.arrow_left),
                        spec_pressed_this_frame(old(self).input.arrow_right),
                        spec_pressed_this_frame(old(self).input.key_a),
                        spec_pressed_this_frame(old(self).input.key_d),
                    ),
                    d,
                ),
                _ => final(self).state == old(self).state,
            },
    {
        if let TetrominoState::Active(mut active_tetromino, drop_cooldown) = self.state {
            // Try to move the tetromino left.
            if self.input.arrow_left.pressed_this_frame() {
                proof {
                    lemma_active_piece_in_range(self.playfield.grid(), active_tetromino);
                }
                let updated_tetromino = active_tetromino.moved(IntVector2::new(-1, 0));
                if self.playfield.is_valid_placement(&updated_tetromino) {
                    active_tetromino = updated_tetromino;
                }
            }
            // Try to move the tetromino right.
            if self.input.arrow_right.pressed_this_frame() {
                proof {
                    lemma_active_piece_in_range(self.playfield.grid(), active_tetromino);
                }
                let updated_tetromino = active_tetromino.moved(IntVector2::new(1, 0));
                if self.playfield.is_valid_placement(&updated_tetromino) {
                    active_tetromino = updated_tetromino;
                }
            }
            // Try to rotate the tetromino left.
            if self.input.key_a.pressed_this_frame() {
                let updated_tetromino = active_tetromino.rotated_left();
                if self.playfield.is_valid_placement(&updated_tetromino) {
                    active_tetromino = updated_tetromino;
                }
            }
            // Try to rotate the tetromino right.
            if self.input.key_d.pressed_this_frame() {
                let updated_tetromino = active_tetromino.rotated_right();
                if self.playfield.is_valid_placement(&updated_tetromino) {
                    active_tetromino = updated_tetromino;
                }
            }
            self.state = TetrominoState::Active(active_tetromino, drop_cooldown);
        }
    }
}

/// A piece that is validly placed on a well-formed board has its position in
/// the range where deriving its cells cannot overflow.
pub proof fn lemma_active_piece_in_range(g: Map<(int, int), Option<(u8, u8, u8)>>, p: Tetromino)
    requires
        spec_valid_placement(g, p),
    ensures
        p.position_in_range(),
{
    assert(crate::playfield::cell_in_bounds(p.spec_occupied_cells()[0]));
    lemma_bounded_cells_position_in_range(p);
}

} // verus!
