//! The playfield: a fixed 10 x 22 grid of optionally occupied cells (20
//! visible rows plus 2 buffer rows of headroom). It validates placements,
//! locks a piece's cells into the grid, and lists the locked cells.
use vstd::prelude::*;

use crate::intvector::IntVector2;
use crate::tetromino::Color;
use crate::tetromino::OrphanBlock;
use crate::tetromino::Tetromino;
use crate::tetromino::lemma_rotated_offset_bounded;

verus! {

pub const PLAYFIELD_WIDTH: usize = 10;

pub const PLAYFIELD_HEIGHT: usize = 22;

pub const PLAYFIELD_VISIBLE_HEIGHT: usize = 20;

/// The cell storage: a two-dimensional `ndarray` array of optionally occupied
/// cells, each occupied cell holding its color triple. Held opaquely; its
/// contents are exposed to specifications only through `grid_cells`.
#[verifier::external_body]
pub struct CellGrid {
    cells: ndarray::Array2<Option<(u8, u8, u8)>>,
}

/// The contents of the cell storage, by coordinate: the domain is the index
/// set the array was created with, and each coordinate maps to the stored
/// element.
pub uninterp spec fn grid_cells(g: CellGrid) -> Map<(int, int), Option<(u8, u8, u8)>>;

/// Whether a coordinate pair lies on the (buffered) board.
pub open spec fn cell_in_bounds(c: (int, int)) -> bool {
    &&& 0 <= c.0 < PLAYFIELD_WIDTH
    &&& 0 <= c.1 < PLAYFIELD_HEIGHT
}

/// The coordinate pairs of the (buffered) board.
pub open spec fn playfield_dom() -> Set<(int, int)> {
    Set::new(|c: (int, int)| cell_in_bounds(c))
}

/// The contents of a grid whose every cell is unoccupied.
pub open spec fn empty_grid_map() -> Map<(int, int), Option<(u8, u8, u8)>> {
    Map::new(|c: (int, int)| cell_in_bounds(c), |c: (int, int)| None)
}

/// Relies on `ndarray::ArrayBase::from_elem`: an array of the given shape with
/// every element the given value, here 10 x 22 of `None`.
#[verifier::external_body]
fn grid_new() -> (g: CellGrid)
    ensures
        grid_cells(g) == empty_grid_map(),
{
    CellGrid { cells: ndarray::Array2::from_elem((PLAYFIELD_WIDTH, PLAYFIELD_HEIGHT), None) }
}

/// Relies on `ndarray`'s `Index` impl for `ArrayBase`: returns the element at
/// the given coordinates, which must lie within the array's shape.
#[verifier::external_body]
fn grid_get(g: &CellGrid, x: usize, y: usize) -> (r: Option<(u8, u8, u8)>)
    requires
        grid_cells(*g).dom().contains((x as int, y as int)),
    ensures
        r == grid_cells(*g)[(x as int, y as int)],
{
    g.cells[[x, y]]
}

/// Relies on `ndarray`'s `IndexMut` impl for `ArrayBase`: replaces the element
/// at the given coordinates, which must lie within the array's shape, and
/// leaves every other element unchanged.
#[verifier::external_body]
fn grid_set(g: &mut CellGrid, x: usize, y: usize, v: Option<(u8, u8, u8)>)
    requires
        grid_cells(*old(g)).dom().contains((x as int, y as int)),
    ensures
        grid_cells(*final(g)) == grid_cells(*old(g)).insert((x as int, y as int), v),
{
    g.cells[[x, y]] = v;
}

/// Whether every cell of `t` lies on the board and is unoccupied in `g`.
pub open spec fn spec_valid_placement(
    g: Map<(int, int), Option<(u8, u8, u8)>>,
    t: Tetromino,
) -> bool {
    forall|i: int|
        0 <= i < 4 ==> cell_in_bounds(#[trigger] t.spec_occupied_cells()[i])
            && g[t.spec_occupied_cells()[i]] is None
}

/// The grid contents after writing the color of `t` into each of its cells.
pub open spec fn spec_lock(
    g: Map<(int, int), Option<(u8, u8, u8)>>,
    t: Tetromino,
) -> Map<(int, int), Option<(u8, u8, u8)>> {
    let color = Some(t.piece_type.spec_color().spec_rgb());
    g.insert(t.spec_occupied_cells()[0], color).insert(t.spec_occupied_cells()[1], color).insert(
        t.spec_occupied_cells()[2],
        color,
    ).insert(t.spec_occupied_cells()[3], color)
}

/// The fixed-size board owning all locked cells for the lifetime of one game.
pub struct Playfield {
    cells: CellGrid,
}

impl Playfield {
    /// The board contents, by coordinate.
    pub closed spec fn grid(self) -> Map<(int, int), Option<(u8, u8, u8)>> {
        grid_cells(self.cells)
    }

    /// Well-formedness: the contents cover exactly the 10 x 22 board.
    pub open spec fn wf(self) -> bool {
        self.grid().dom() == playfield_dom()
    }

    /// A board with every cell unoccupied.
    pub fn new_empty() -> (r: Self)
        ensures
            r.wf(),
            r.grid() == empty_grid_map(),
    {
        let r = Self { cells: grid_new() };
        proof {
            assert(r.grid().dom() =~= playfield_dom());
        }
        r
    }

    /// The fixed spawn cell: horizontal center, two rows below the top of the
    /// buffered grid.
    pub fn spawn_location(&self) -> (r: IntVector2)
        ensures
            r@ == (PLAYFIELD_WIDTH as int / 2, PLAYFIELD_HEIGHT as int - 2),
    {
        IntVector2::new((PLAYFIELD_WIDTH / 2) as i8, (PLAYFIELD_HEIGHT - 2) as i8)
    }

    /// The visible board size: the full width, and the height without the two
    /// buffer rows.
    pub fn visible_dimensions(&self) -> (r: (usize, usize))
        ensures
            r.0 == PLAYFIELD_WIDTH,
            r.1 == PLAYFIELD_VISIBLE_HEIGHT,
    {
        (PLAYFIELD_WIDTH, PLAYFIELD_VISIBLE_HEIGHT)
    }

    /// The sole collision and bounds authority: true exactly when every cell
    /// of the piece has nonnegative coordinates, lies within the board's
    /// width and height, and is not already occupied by an orphan block.
    pub fn is_valid_placement(&self, tetromino: &Tetromino) -> (r: bool)
        requires
            self.wf(),
        ensures
            r == spec_valid_placement(self.grid(), *tetromino),
    {
        // A piece whose position is further than the largest template offset
        // from the board cannot have any cell on it.
        if tetromino.position.x < -3 || tetromino.position.x > 12 || tetromino.position.y < -3
            || tetromino.position.y > 24 {
            proof {
                lemma_rotated_offset_bounded(tetromino.piece_type, tetromino.orientation, 0);
                assert(!cell_in_bounds(tetromino.spec_occupied_cells()[0]));
            }
            return false;
        }
        let cells = tetromino.get_occupied_cells();
        for i in 0..4usize
            invariant
                self.wf(),
                tetromino.position_in_range(),
                forall|k: int| 0 <= k < 4 ==> cells@[k]@ == tetromino.spec_occupied_cells()[k],
                forall|k: int|
                    0 <= k < i ==> cell_in_bounds(#[trigger] tetromino.spec_occupied_cells()[k])
                        && self.grid()[tetromino.spec_occupied_cells()[k]] is None,
        {
            let cell = cells[i];
            // The tetromino can't go here if it has negative coordinates.
            if cell.x < 0 || cell.y < 0 {
                proof {
                    assert(!cell_in_bounds(tetromino.spec_occupied_cells()[i as int]));
                }
                return false;
            }
            // Nor if its coordinates exceed the dimensions of the board.
            if cell.x as usize >= PLAYFIELD_WIDTH || cell.y as usize >= PLAYFIELD_HEIGHT {
                proof {
                    assert(!cell_in_bounds(tetromino.spec_occupied_cells()[i as int]));
                }
                return false;
            }
            // Nor if this cell is already occupied by an orphaned block.
            if grid_get(&self.cells, cell.x as usize, cell.y as usize).is_some() {
                proof {
                    assert(self.grid()[tetromino.spec_occupied_cells()[i as int]] is Some);
                }
                return false;
            }
        }
        true
    }

    /// Write an orphan block with the piece's color into each of the piece's
    /// four cells. The caller must already have validated the placement: the
    /// cells must lie on the board, and any block already there is silently
    /// overwritten.
    pub fn lock_tetromino(&mut self, tetromino: &Tetromino)
        requires
            old(self).wf(),
            forall|i: int| 0 <= i < 4 ==> cell_in_bounds(tetromino.spec_occupied_cells()[i]),
        ensures
            final(self).wf(),
            final(self).grid() == spec_lock(old(self).grid(), *tetromino),
    {
        proof {
            lemma_rotated_offset_bounded(tetromino.piece_type, tetromino.orientation, 0);
            assert(cell_in_bounds(tetromino.spec_occupied_cells()[0]));
            assert(cell_in_bounds(tetromino.spec_occupied_cells()[1]));
            assert(cell_in_bounds(tetromino.spec_occupied_cells()[2]));
            assert(cell_in_bounds(tetromino.spec_occupied_cells()[3]));
        }
        let color = tetromino.get_color();
        let stored = Some((color.r, color.g, color.b));
        let cells = tetromino.get_occupied_cells();
        grid_set(&mut self.cells, cells[0].x as usize, cells[0].y as usize, stored);
        grid_set(&mut self.cells, cells[1].x as usize, cells[1].y as usize, stored);
        grid_set(&mut self.cells, cells[2].x as usize, cells[2].y as usize, stored);
        grid_set(&mut self.cells, cells[3].x as usize, cells[3].y as usize, stored);
        proof {
            assert(self.grid().dom() =~= playfield_dom());
        }
    }

    /// Every occupied grid cell with its orphan block, in grid storage order
    /// (the order is an implementation detail): each listed cell is occupied
    /// with the listed color, every occupied cell is listed, and no cell is
    /// listed twice.
    pub fn iter_orphans(&self) -> (r: Vec<(IntVector2, OrphanBlock)>)
        requires
            self.wf(),
        ensures
            forall|k: int|
                0 <= k < r@.len() ==> cell_in_bounds(r@[k].0@) && self.grid()[r@[k].0@] == Some(
                    r@[k].1.color.spec_rgb(),
                ),
            forall|c: (int, int)|
                cell_in_bounds(c) && self.grid()[c] is Some ==> exists|k: int|
                    0 <= k < r@.len() && r@[k].0@ == c,
            forall|k1: int, k2: int| 0 <= k1 < k2 < r@.len() ==> r@[k1].0@ != r@[k2].0@,
    {
        let mut r: Vec<(IntVector2, OrphanBlock)> = Vec::new();
        for x in 0..PLAYFIELD_WIDTH
            invariant
                self.wf(),
                forall|k: int|
                    0 <= k < r@.len() ==> cell_in_bounds(r@[k].0@) && self.grid()[r@[k].0@]
                        == Some(r@[k].1.color.spec_rgb()),
                forall|c: (int, int)|
                    cell_in_bounds(c) && c.0 < x && self.grid()[c] is Some ==> exists|k: int|
                        0 <= k < r@.len() && r@[k].0@ == c,
                forall|k: int| 0 <= k < r@.len() ==> r@[k].0@.0 < x,
                forall|k1: int, k2: int| 0 <= k1 < k2 < r@.len() ==> r@[k1].0@ != r@[k2].0@,
        {
            for y in 0..PLAYFIELD_HEIGHT
                invariant
                    self.wf(),
                    x < PLAYFIELD_WIDTH,
                    forall|k: int|
                        0 <= k < r@.len() ==> cell_in_bounds(r@[k].0@) && self.grid()[r@[k].0@]
                            == Some(r@[k].1.color.spec_rgb()),
                    forall|c: (int, int)|
                        cell_in_bounds(c) && (c.0 < x || (c.0 == x && c.1 < y)) && self.grid()[c]
                            is Some ==> exists|k: int| 0 <= k < r@.len() && r@[k].0@ == c,
                    forall|k: int|
                        0 <= k < r@.len() ==> r@[k].0@.0 < x || (r@[k].0@.0 == x && r@[k].0@.1
                            < y),
                    forall|k1: int, k2: int| 0 <= k1 < k2 < r@.len() ==> r@[k1].0@ != r@[k2].0@,
            {
                let ghost r0 = r@;
                if let Some(stored) = grid_get(&self.cells, x, y) {
                    let block = OrphanBlock {
                        color: Color { r: stored.0, g: stored.1, b: stored.2 },
                    };
                    r.push((IntVector2::new(x as i8, y as i8), block));
                    proof {
                        assert forall|c: (int, int)|
                            cell_in_bounds(c) && (c.0 < x as int || (c.0 == x as int && c.1 <= y
                                as int)) && self.grid()[c] is Some implies exists|k: int|
                            0 <= k < r@.len() && r@[k].0@ == c by {
                            if c.0 < x as int || (c.0 == x as int && c.1 < y as int) {
                                let k0 = choose|k: int| 0 <= k < r0.len() && r0[k].0@ == c;
                                assert(r@[k0].0@ == c);
                            } else {
                                assert(r@[r0.len() as int].0@ == c);
                            }
                        }
                    }
                }
            }
        }
        r
    }
}

/// A piece all of whose cells lie on the board has its position within the
/// range where deriving the cells cannot overflow.
pub proof fn lemma_bounded_cells_position_in_range(t: Tetromino)
    requires
        cell_in_bounds(t.spec_occupied_cells()[0]),
    ensures
        t.position_in_range(),
{
    lemma_rotated_offset_bounded(t.piece_type, t.orientation, 0);
}

} // verus!

