//! Playfield placement validation, locking, and orphan listing.
use dark_tetris::intvector::CardinalRotation;
use dark_tetris::intvector::IntVector2;
use dark_tetris::playfield::Playfield;
use dark_tetris::tetromino::Color;
use dark_tetris::tetromino::PieceType;
use dark_tetris::tetromino::Tetromino;

fn o_piece(x: i8, y: i8) -> Tetromino {
    Tetromino {
        piece_type: PieceType::OBlock,
        orientation: CardinalRotation::Rotate0,
        position: IntVector2::new(x, y),
    }
}

#[test]
fn empty_field_has_no_orphans() {
    let field = Playfield::new_empty();
    assert!(field.iter_orphans().is_empty());
}

#[test]
fn spawn_location_and_visible_dimensions() {
    let field = Playfield::new_empty();
    assert_eq!(field.spawn_location(), IntVector2::new(5, 20));
    assert_eq!(field.visible_dimensions(), (10, 20));
}

#[test]
fn rejects_negative_coordinates() {
    let field = Playfield::new_empty();
    // An O piece at x = -1 has cells at x in {-1, 0}.
    assert!(!field.is_valid_placement(&o_piece(-1, 5)));
    assert!(!field.is_valid_placement(&o_piece(5, -1)));
    assert!(field.is_valid_placement(&o_piece(0, 0)));
}

#[test]
fn rejects_cells_beyond_the_board() {
    let field = Playfield::new_empty();
    // An O piece at x = 9 has cells at x in {9, 10}; width is 10.
    assert!(!field.is_valid_placement(&o_piece(9, 5)));
    assert!(field.is_valid_placement(&o_piece(8, 5)));
    // An O piece at y = 21 has cells at y in {21, 22}; height is 22.
    assert!(!field.is_valid_placement(&o_piece(5, 21)));
    assert!(field.is_valid_placement(&o_piece(5, 20)));
}

#[test]
fn rejects_far_out_positions_without_panicking() {
    let field = Playfield::new_empty();
    assert!(!field.is_valid_placement(&o_piece(-128, -128)));
    assert!(!field.is_valid_placement(&o_piece(127, 127)));
    assert!(!field.is_valid_placement(&o_piece(-128, 5)));
    assert!(!field.is_valid_placement(&o_piece(5, 127)));
}

#[test]
fn rejects_overlap_with_locked_blocks() {
    let mut field = Playfield::new_empty();
    field.lock_tetromino(&o_piece(4, 4));
    // Any piece sharing one of the four locked cells is rejected.
    assert!(!field.is_valid_placement(&o_piece(4, 4)));
    assert!(!field.is_valid_placement(&o_piece(3, 3)));
    assert!(!field.is_valid_placement(&o_piece(5, 5)));
    // A disjoint placement is still accepted.
    assert!(field.is_valid_placement(&o_piece(6, 6)));
    assert!(field.is_valid_placement(&o_piece(2, 2)));
}

#[test]
fn spawned_o_piece_drops_to_the_floor_and_locks() {
    // Spawn an O piece at (5, 20) on an empty 10 x 22 field, move it down
    // until the bottom row, then lock it: exactly the piece's final cells are
    // orphaned, with the O piece's color.
    let mut field = Playfield::new_empty();
    let mut piece = o_piece(5, 20);
    assert!(field.is_valid_placement(&piece));
    loop {
        let moved = piece.moved(IntVector2::new(0, -1));
        if field.is_valid_placement(&moved) {
            piece = moved;
        } else {
            break;
        }
    }
    assert_eq!(piece.position, IntVector2::new(5, 0));
    field.lock_tetromino(&piece);

    let mut orphans: Vec<((i8, i8), Color)> =
        field.iter_orphans().iter().map(|(v, b)| ((v.x, v.y), b.color)).collect();
    orphans.sort_by_key(|entry| entry.0);
    let o_color = Color { r: 210, g: 210, b: 10 };
    assert_eq!(
        orphans,
        vec![((5, 0), o_color), ((5, 1), o_color), ((6, 0), o_color), ((6, 1), o_color)]
    );
}

#[test]
fn locking_records_each_piece_color() {
    let mut field = Playfield::new_empty();
    field.lock_tetromino(&o_piece(0, 0));
    let i_piece = Tetromino {
        piece_type: PieceType::IBlock,
        orientation: CardinalRotation::Rotate0,
        position: IntVector2::new(5, 10),
    };
    field.lock_tetromino(&i_piece);
    let orphans = field.iter_orphans();
    assert_eq!(orphans.len(), 8);
    let i_color = Color { r: 10, g: 220, b: 220 };
    let o_color = Color { r: 210, g: 210, b: 10 };
    for (cell, block) in &orphans {
        if cell.y == 10 {
            assert_eq!(block.color, i_color);
        } else {
            assert_eq!(block.color, o_color);
        }
    }
}
