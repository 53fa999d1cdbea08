//! Tetromino pieces: the seven piece types with their colors, 4-cell shape
//! templates and rotation kinds, and the piece value deriving its occupied
//! board cells from type, orientation and position.
use vstd::prelude::*;

use crate::intvector::CardinalRotation;
use crate::intvector::IntVector2;
use crate::intvector::fits_i8;
use crate::intvector::spec_rotate_around_cell;
use crate::intvector::spec_rotate_around_corner;
use crate::intvector::spec_rotated_relative;

verus! {

/// An RGB color triple.
#[derive(Clone, Copy, Debug, PartialEq, Eq, Structural)]
pub struct Color {
    pub r: u8,
    pub g: u8,
    pub b: u8,
}

impl Color {
    pub open spec fn spec_rgb(self) -> (u8, u8, u8) {
        (self.r, self.g, self.b)
    }
}

/// The seven tetromino shapes.
#[derive(Clone, Copy, Debug, PartialEq, Eq, Structural)]
pub enum PieceType {
    IBlock,
    OBlock,
    LBlock,
    JBlock,
    SBlock,
    ZBlock,
    TBlock,
}

/// How a piece type rotates: not at all (the visually symmetric O), around a
/// lattice corner (the 4-long I), or around the template's center cell.
#[derive(Clone, Copy, Debug, PartialEq, Eq, Structural)]
pub enum RotationType {
    NoRotation,
    AroundCorner,
    AroundCell,
}

impl PieceType {
    /// The fixed color of each piece type.
    pub open spec fn spec_color(self) -> Color {
        match self {
            PieceType::IBlock => Color { r: 10, g: 220, b: 220 },
            PieceType::OBlock => Color { r: 210, g: 210, b: 10 },
            PieceType::LBlock => Color { r: 240, g: 120, b: 10 },
            PieceType::JBlock => Color { r: 10, g: 20, b: 250 },
            PieceType::SBlock => Color { r: 10, g: 240, b: 10 },
            PieceType::ZBlock => Color { r: 240, g: 10, b: 10 },
            PieceType::TBlock => Color { r: 140, g: 10, b: 240 },
        }
    }

    pub fn get_color(&self) -> (c: Color)
        ensures
            c == self.spec_color(),
    {
        match *self {
            PieceType::IBlock => Color { r: 10, g: 220, b: 220 },
            PieceType::OBlock => Color { r: 210, g: 210, b: 10 },
            PieceType::LBlock => Color { r: 240, g: 120, b: 10 },
            PieceType::JBlock => Color { r: 10, g: 20, b: 250 },
            PieceType::SBlock => Color { r: 10, g: 240, b: 10 },
            PieceType::ZBlock => Color { r: 240, g: 10, b: 10 },
            PieceType::TBlock => Color { r: 140, g: 10, b: 240 },
        }
    }

    /// The rotation kind of each piece type.
    pub open spec fn spec_rotation_type(self) -> RotationType {
        match self {
            PieceType::OBlock => RotationType::NoRotation,
            PieceType::IBlock => RotationType::AroundCorner,
            _ => RotationType::AroundCell,
        }
    }

    /// The 4-cell shape template of each piece type, in a local frame centered
    /// on (0, 0), in fixed template order.
    pub open spec fn spec_template(self) -> Seq<(int, int)> {
        match self {
            PieceType::OBlock => seq![(0int, 0int), (0int, 1int), (1int, 0int), (1int, 1int)],
            PieceType::IBlock => seq![(-1int, 0int), (0int, 0int), (1int, 0int), (2int, 0int)],
            PieceType::LBlock => seq![(-1int, 0int), (0int, 0int), (1int, 0int), (1int, 1int)],
            PieceType::JBlock => seq![(-1int, 1int), (-1int, 0int), (0int, 0int), (1int, 0int)],
            PieceType::SBlock => seq![(-1int, 0int), (0int, 0int), (0int, 1int), (1int, 1int)],
            PieceType::ZBlock => seq![(-1int, 1int), (0int, 1int), (0int, 0int), (1int, 0int)],
            PieceType::TBlock => seq![(-1int, 0int), (0int, 0int), (1int, 0int), (0int, 1int)],
        }
    }
}

/// Template entry `i` of piece type `t` after applying the type's rotation
/// kind with orientation `orientation`, still relative to the piece position.
pub open spec fn spec_rotated_offset(
    t: PieceType,
    orientation: CardinalRotation,
    i: int,
) -> (int, int) {
    let entry = t.spec_template()[i];
    match t.spec_rotation_type() {
        RotationType::NoRotation => entry,
        RotationType::AroundCorner => spec_rotate_around_corner(entry, (1, 0), orientation),
        RotationType::AroundCell => spec_rotate_around_cell(entry, (0, 0), orientation),
    }
}

/// A tetromino: type, orientation, and position. An immutable value; every
/// mutator returns a new instance.
#[derive(Clone, Copy, Debug, PartialEq, Eq, Structural)]
pub struct Tetromino {
    pub piece_type: PieceType,
    pub orientation: CardinalRotation,
    pub position: IntVector2,
}

impl Tetromino {
    /// Board cell `i` (in template order) occupied by this piece: the rotated
    /// template entry translated by the piece position.
    pub open spec fn spec_occupied_cell(self, i: int) -> (int, int) {
        let off = spec_rotated_offset(self.piece_type, self.orientation, i);
        (self.position@.0 + off.0, self.position@.1 + off.1)
    }

    /// All four board cells occupied by this piece, in template order.
    pub open spec fn spec_occupied_cells(self) -> Seq<(int, int)> {
        Seq::new(4, |i: int| self.spec_occupied_cell(i))
    }

    /// Positions far enough from the `i8` limits that deriving the occupied
    /// cells cannot overflow; every position near the board satisfies this.
    pub open spec fn position_in_range(self) -> bool {
        -100 <= self.position@.0 <= 100 && -100 <= self.position@.1 <= 100
    }

    pub open spec fn spec_rotated_right(self) -> Tetromino {
        Tetromino {
            piece_type: self.piece_type,
            orientation: self.orientation.spec_rotated_right(),
            position: self.position,
        }
    }

    pub open spec fn spec_rotated_left(self) -> Tetromino {
        Tetromino {
            piece_type: self.piece_type,
            orientation: self.orientation.spec_rotated_left(),
            position: self.position,
        }
    }

    pub open spec fn spec_moved(self, offset: (int, int)) -> Tetromino {
        Tetromino {
            piece_type: self.piece_type,
            orientation: self.orientation,
            position: IntVector2 {
                x: (self.position@.0 + offset.0) as i8,
                y: (self.position@.1 + offset.1) as i8,
            },
        }
    }

    /// A new piece of a uniformly chosen type at the given position, with
    /// orientation fixed at zero degrees.
    pub fn new_random(position: IntVector2) -> (r: Self)
        ensures
            r.orientation == CardinalRotation::Rotate0,
            r.position == position,
    {
        let types = [
            PieceType::IBlock,
            PieceType::LBlock,
            PieceType::JBlock,
            PieceType::SBlock,
            PieceType::ZBlock,
            PieceType::TBlock,
            PieceType::OBlock,
        ];
        let choice: usize = random_below_seven();
        Self { piece_type: types[choice], orientation: CardinalRotation::Rotate0, position }
    }

    /// The four board cells this piece occupies, in template order: the type's
    /// template entries, transformed per the type's rotation kind with the
    /// piece orientation, translated by the piece position.
    pub fn get_occupied_cells(&self) -> (r: [IntVector2; 4])
        requires
            self.position_in_range(),
        ensures
            forall|i: int| 0 <= i < 4 ==> r@[i]@ == self.spec_occupied_cells()[i],
    {
        let (rotation_type, cells): (RotationType, [IntVector2; 4]) = match self.piece_type {
            PieceType::OBlock => (
                RotationType::NoRotation,
                [
                    IntVector2::new(0, 0),
                    IntVector2::new(0, 1),
                    IntVector2::new(1, 0),
                    IntVector2::new(1, 1),
                ],
            ),
            PieceType::IBlock => (
                RotationType::AroundCorner,
                [
                    IntVector2::new(-1, 0),
                    IntVector2::new(0, 0),
                    IntVector2::new(1, 0),
                    IntVector2::new(2, 0),
                ],
            ),
            PieceType::LBlock => (
                RotationType::AroundCell,
                [
                    IntVector2::new(-1, 0),
                    IntVector2::new(0, 0),
                    IntVector2::new(1, 0),
                    IntVector2::new(1, 1),
                ],
            ),
            PieceType::JBlock => (
                RotationType::AroundCell,
                [
                    IntVector2::new(-1, 1),
                    IntVector2::new(-1, 0),
                    IntVector2::new(0, 0),
                    IntVector2::new(1, 0),
                ],
            ),
            PieceType::SBlock => (
                RotationType::AroundCell,
                [
                    IntVector2::new(-1, 0),
                    IntVector2::new(0, 0),
                    IntVector2::new(0, 1),
                    IntVector2::new(1, 1),
                ],
            ),
            PieceType::ZBlock => (
                RotationType::AroundCell,
                [
                    IntVector2::new(-1, 1),
                    IntVector2::new(0, 1),
                    IntVector2::new(0, 0),
                    IntVector2::new(1, 0),
                ],
            ),
            PieceType::TBlock => (
                RotationType::AroundCell,
                [
                    IntVector2::new(-1, 0),
                    IntVector2::new(0, 0),
                    IntVector2::new(1, 0),
                    IntVector2::new(0, 1),
                ],
            ),
        };
        [
            self.place_entry(rotation_type, cells[0], 0),
            self.place_entry(rotation_type, cells[1], 1),
            self.place_entry(rotation_type, cells[2], 2),
            self.place_entry(rotation_type, cells[3], 3),
        ]
    }

    /// One template entry transformed by the rotation kind and translated by
    /// the piece position.
    fn place_entry(&self, rotation_type: RotationType, entry: IntVector2, i: usize) -> (r:
        IntVector2)
        requires
            self.position_in_range(),
            0 <= i < 4,
            rotation_type == self.piece_type.spec_rotation_type(),
            entry@ == self.piece_type.spec_template()[i as int],
        ensures
            r@ == self.spec_occupied_cells()[i as int],
    {
        proof {
            lemma_rotated_offset_bounded(self.piece_type, self.orientation, i as int);
        }
        let transformed = match rotation_type {
            RotationType::NoRotation => entry,
            RotationType::AroundCorner => entry.rotate_around_corner(
                IntVector2::new(1, 0),
                self.orientation,
            ),
            RotationType::AroundCell => entry.rotate_around_cell(
                IntVector2::zero(),
                self.orientation,
            ),
        };
        self.position.plus(transformed)
    }

    /// A copy rotated one step clockwise; position and type unchanged, not
    /// validated against any board.
    pub fn rotated_right(&self) -> (r: Self)
        ensures
            r == self.spec_rotated_right(),
    {
        Self {
            piece_type: self.piece_type,
            orientation: self.orientation.rotated_right(),
            position: self.position,
        }
    }

    /// A copy rotated one step counterclockwise; position and type unchanged,
    /// not validated against any board.
    pub fn rotated_left(&self) -> (r: Self)
        ensures
            r == self.spec_rotated_left(),
    {
        Self {
            piece_type: self.piece_type,
            orientation: self.orientation.rotated_left(),
            position: self.position,
        }
    }

    /// A copy translated by `offset`.
    pub fn moved(&self, offset: IntVector2) -> (r: Self)
        requires
            fits_i8((self.position@.0 + offset@.0, self.position@.1 + offset@.1)),
        ensures
            r == self.spec_moved(offset@),
    {
        Self {
            piece_type: self.piece_type,
            orientation: self.orientation,
            position: self.position.plus(offset),
        }
    }

    pub fn get_color(&self) -> (c: Color)
        ensures
            c == self.piece_type.spec_color(),
    {
        self.piece_type.get_color()
    }
}

/// A locked, piece-less cell record stored in the playfield grid once a piece
/// can no longer move.
#[derive(Clone, Copy, Debug, PartialEq, Eq, Structural)]
pub struct OrphanBlock {
    pub color: Color,
}

/// Relies on `rand::random_range` over the constant non-empty range `0..7`:
/// it returns a uniformly drawn value of that range, so the result is always
/// below seven.
#[verifier::external_body]
fn random_below_seven() -> (r: usize)
    ensures
        r < 7,
{
    rand::random_range(0..7usize)
}

/// Every rotated template offset stays within three units of the origin, in
/// either component.
pub proof fn lemma_rotated_offset_bounded(t: PieceType, orientation: CardinalRotation, i: int)
    requires
        0 <= i < 4,
    ensures
        -3 <= spec_rotated_offset(t, orientation, i).0 <= 2,
        -3 <= spec_rotated_offset(t, orientation, i).1 <= 2,
{
}

/// Every piece occupies exactly four distinct cells: the four entries of
/// `spec_occupied_cells` are pairwise different, for every piece type,
/// orientation, and position.
pub proof fn lemma_occupied_cells_distinct(p: Tetromino)
    ensures
        forall|i: int, j: int|
            0 <= i < 4 && 0 <= j < 4 && i != j ==> p.spec_occupied_cells()[i]
                != p.spec_occupied_cells()[j],
{
    assert forall|i: int, j: int|
        0 <= i < 4 && 0 <= j < 4 && i != j implies p.spec_occupied_cells()[i]
        != p.spec_occupied_cells()[j] by {
        assert(spec_rotated_offset(p.piece_type, p.orientation, i) != spec_rotated_offset(
            p.piece_type,
            p.orientation,
            j,
        ));
    }
}

/// Rotating a piece one step left and then one step right (or right and then
/// left) returns a piece equal in all fields to the original.
pub proof fn lemma_piece_rotation_round_trip(p: Tetromino)
    ensures
        p.spec_rotated_left().spec_rotated_right() == p,
        p.spec_rotated_right().spec_rotated_left() == p,
{
}

} // verus!
