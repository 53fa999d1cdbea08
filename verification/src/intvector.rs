//! Integer 2D vectors with cardinal (90-degree-step) rotation around a cell or
//! around a lattice corner, and the four-state rotation enum.
use vstd::prelude::*;

verus! {

/// One of the four cardinal orientations, stepped through by
/// `rotated_right` / `rotated_left`.
#[derive(Clone, Copy, Debug, PartialEq, Eq, Structural)]
pub enum CardinalRotation {
    Rotate0,
    Rotate90,
    Rotate180,
    Rotate270,
}

impl CardinalRotation {
    pub open spec fn spec_rotated_right(self) -> Self {
        match self {
            CardinalRotation::Rotate0 => CardinalRotation::Rotate270,
            CardinalRotation::Rotate90 => CardinalRotation::Rotate0,
            CardinalRotation::Rotate180 => CardinalRotation::Rotate90,
            CardinalRotation::Rotate270 => CardinalRotation::Rotate180,
        }
    }

    pub open spec fn spec_rotated_left(self) -> Self {
        match self {
            CardinalRotation::Rotate0 => CardinalRotation::Rotate90,
            CardinalRotation::Rotate90 => CardinalRotation::Rotate180,
            CardinalRotation::Rotate180 => CardinalRotation::Rotate270,
            CardinalRotation::Rotate270 => CardinalRotation::Rotate0,
        }
    }

    /// Step one quarter turn clockwise.
    pub fn rotated_right(&self) -> (r: Self)
        ensures
            r == self.spec_rotated_right(),
    {
        match *self {
            CardinalRotation::Rotate0 => CardinalRotation::Rotate270,
            CardinalRotation::Rotate90 => CardinalRotation::Rotate0,
            CardinalRotation::Rotate180 => CardinalRotation::Rotate90,
            CardinalRotation::Rotate270 => CardinalRotation::Rotate180,
        }
    }

    /// Step one quarter turn counterclockwise.
    pub fn rotated_left(&self) -> (r: Self)
        ensures
            r == self.spec_rotated_left(),
    {
        match *self {
            CardinalRotation::Rotate0 => CardinalRotation::Rotate90,
            CardinalRotation::Rotate90 => CardinalRotation::Rotate180,
            CardinalRotation::Rotate180 => CardinalRotation::Rotate270,
            CardinalRotation::Rotate270 => CardinalRotation::Rotate0,
        }
    }
}

/// `rotated_left` and `rotated_right` are mutually inverse steps through the
/// four-state cycle.
pub proof fn lemma_rotation_steps_inverse(r: CardinalRotation)
    ensures
        r.spec_rotated_left().spec_rotated_right() == r,
        r.spec_rotated_right().spec_rotated_left() == r,
{
}

/// An immutable integer 2D vector; componentwise addition and subtraction,
/// plus the two cardinal rotation operations.
#[derive(Clone, Copy, Debug, PartialEq, Eq, Structural)]
pub struct IntVector2 {
    pub x: i8,
    pub y: i8,
}

impl View for IntVector2 {
    type V = (int, int);

    open spec fn view(&self) -> (int, int) {
        (self.x as int, self.y as int)
    }
}

/// Rotation of `v` by a quarter-turn multiple around the origin:
/// (x, y) -> (x, y) / (-y, x) / (-x, -y) / (y, -x) for 0/90/180/270 degrees.
pub open spec fn spec_rotated_relative(v: (int, int), rotation: CardinalRotation) -> (int, int) {
    match rotation {
        CardinalRotation::Rotate0 => v,
        CardinalRotation::Rotate90 => (-v.1, v.0),
        CardinalRotation::Rotate180 => (-v.0, -v.1),
        CardinalRotation::Rotate270 => (v.1, -v.0),
    }
}

/// Per-rotation correction applied by the corner rotation, accounting for the
/// pivot sitting on a lattice corner rather than a cell center.
pub open spec fn spec_corner_adjust(rotation: CardinalRotation) -> (int, int) {
    match rotation {
        CardinalRotation::Rotate0 => (0, 0),
        CardinalRotation::Rotate90 => (-1, 0),
        CardinalRotation::Rotate180 => (-1, -1),
        CardinalRotation::Rotate270 => (0, -1),
    }
}

/// Rotation of `v` around the cell `cell`: translate into pivot-relative
/// coordinates, rotate, translate back.
pub open spec fn spec_rotate_around_cell(
    v: (int, int),
    cell: (int, int),
    rotation: CardinalRotation,
) -> (int, int) {
    let rel = spec_rotated_relative((v.0 - cell.0, v.1 - cell.1), rotation);
    (cell.0 + rel.0, cell.1 + rel.1)
}

/// Rotation of `v` around the corner of the cell `corner`: as around a cell,
/// then shifted by one unit in x and/or y depending on the rotation.
pub open spec fn spec_rotate_around_corner(
    v: (int, int),
    corner: (int, int),
    rotation: CardinalRotation,
) -> (int, int) {
    let rel = spec_rotated_relative((v.0 - corner.0, v.1 - corner.1), rotation);
    let adj = spec_corner_adjust(rotation);
    (corner.0 + rel.0 + adj.0, corner.1 + rel.1 + adj.1)
}

/// Whether both components of a mathematical pair fit in `i8`.
pub open spec fn fits_i8(v: (int, int)) -> bool {
    i8::MIN <= v.0 <= i8::MAX && i8::MIN <= v.1 <= i8::MAX
}

impl IntVector2 {
    pub fn new(x: i8, y: i8) -> (r: Self)
        ensures
            r@ == (x as int, y as int),
    {
        Self { x, y }
    }

    /// The zero vector, the identity of addition.
    pub fn zero() -> (r: Self)
        ensures
            r@ == (0int, 0int),
    {
        Self { x: 0, y: 0 }
    }

    pub fn is_zero(&self) -> (r: bool)
        ensures
            r == (self@ == (0int, 0int)),
    {
        self.x == 0 && self.y == 0
    }

    /// Componentwise sum.
    pub fn plus(self, rhs: Self) -> (r: Self)
        requires
            fits_i8((self@.0 + rhs@.0, self@.1 + rhs@.1)),
        ensures
            r@ == (self@.0 + rhs@.0, self@.1 + rhs@.1),
    {
        Self { x: self.x + rhs.x, y: self.y + rhs.y }
    }

    /// Componentwise difference.
    pub fn minus(self, rhs: Self) -> (r: Self)
        requires
            fits_i8((self@.0 - rhs@.0, self@.1 - rhs@.1)),
        ensures
            r@ == (self@.0 - rhs@.0, self@.1 - rhs@.1),
    {
        Self { x: self.x - rhs.x, y: self.y - rhs.y }
    }

    /// Rotate this vector around the cell `cell` by the given cardinal rotation.
    pub fn rotate_around_cell(&self, cell: Self, rotation: CardinalRotation) -> (r: Self)
        requires
            fits_i8((self@.0 - cell@.0, self@.1 - cell@.1)),
            fits_i8(spec_rotated_relative((self@.0 - cell@.0, self@.1 - cell@.1), rotation)),
            fits_i8(spec_rotate_around_cell(self@, cell@, rotation)),
        ensures
            r@ == spec_rotate_around_cell(self@, cell@, rotation),
    {
        let relative = self.minus(cell);
        let rotated_relative = match rotation {
            CardinalRotation::Rotate0 => relative,
            CardinalRotation::Rotate90 => Self { x: -relative.y, y: relative.x },
            CardinalRotation::Rotate180 => Self { x: -relative.x, y: -relative.y },
            CardinalRotation::Rotate270 => Self { x: relative.y, y: -relative.x },
        };
        cell.plus(rotated_relative)
    }

    /// Rotate this vector around the corner of the cell `corner` by the given
    /// cardinal rotation.
    pub fn rotate_around_corner(&self, corner: Self, rotation: CardinalRotation) -> (r: Self)
        requires
            fits_i8((self@.0 - corner@.0, self@.1 - corner@.1)),
            fits_i8(spec_rotated_relative((self@.0 - corner@.0, self@.1 - corner@.1), rotation)),
            fits_i8(spec_rotate_around_corner(self@, corner@, rotation)),
        ensures
            r@ == spec_rotate_around_corner(self@, corner@, rotation),
    {
        let relative = self.minus(corner);
        let rotated_relative = match rotation {
            CardinalRotation::Rotate0 => relative,
            CardinalRotation::Rotate90 => Self { x: -relative.y - 1, y: relative.x },
            CardinalRotation::Rotate180 => Self { x: -relative.x - 1, y: -relative.y - 1 },
            CardinalRotation::Rotate270 => Self { x: relative.y, y: -relative.x - 1 },
        };
        corner.plus(rotated_relative)
    }
}

/// Applying the same cell rotation four times returns the original vector
/// exactly, for every vector, pivot, and cardinal rotation.
pub proof fn lemma_rotate_around_cell_four_times(
    v: (int, int),
    cell: (int, int),
    rotation: CardinalRotation,
)
    ensures
        spec_rotate_around_cell(
            spec_rotate_around_cell(
                spec_rotate_around_cell(spec_rotate_around_cell(v, cell, rotation), cell, rotation),
                cell,
                rotation,
            ),
            cell,
            rotation,
        ) == v,
{
}

/// Applying the same corner rotation four times returns the original vector
/// exactly, for every vector, pivot, and cardinal rotation.
pub proof fn lemma_rotate_around_corner_four_times(
    v: (int, int),
    corner: (int, int),
    rotation: CardinalRotation,
)
    ensures
        spec_rotate_around_corner(
            spec_rotate_around_corner(
                spec_rotate_around_corner(
                    spec_rotate_around_corner(v, corner, rotation),
                    corner,
                    rotation,
                ),
                corner,
                rotation,
            ),
            corner,
            rotation,
        ) == v,
{
}

} // verus!
