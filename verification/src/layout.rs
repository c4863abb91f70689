//! Where each facelet lives, and which border lines surround each face.

use vstd::prelude::*;
use crate::face::Face;

verus! {

/// A position on the cube: a face, and a row and column of its 3x3 grid.
pub ghost struct Cell {
    pub face: Face,
    pub row: int,
    pub col: int,
}

impl Cell {
    /// The position lies on the grid.
    pub open spec fn valid(self) -> bool {
        0 <= self.row < 3 && 0 <= self.col < 3
    }

    /// Place of the cell among the 54 facelets: faces in colour order, each
    /// face row by row.
    pub open spec fn slot(self) -> int {
        9 * self.face.ordinal() + 3 * self.row + self.col
    }

    /// The cell at a place among the 54 facelets.
    #[verifier::opaque]
    pub open spec fn at(slot: int) -> Cell {
        Cell { face: Face::at_ordinal(slot / 9), row: (slot % 9) / 3, col: slot % 3 }
    }
}

/// Every place among the 54 facelets has a cell on the grid, and that cell
/// has the place for its slot.
pub proof fn lemma_cell_at(slot: int)
    requires
        0 <= slot < 54,
    ensures
        Cell::at(slot).valid(),
        Cell::at(slot).slot() == slot,
{
    reveal(Cell::at);
}

/// Every cell on the grid has a place among the 54 facelets, and the cell at
/// that place is the cell itself.
pub proof fn lemma_slot_of(cell: Cell)
    requires
        cell.valid(),
    ensures
        0 <= cell.slot() < 54,
        Cell::at(cell.slot()) == cell,
{
    reveal(Cell::at);
}

/// Three facelets of one face that lie along an edge of its grid, walked in a
/// fixed sense.
#[derive(Clone, Copy, Debug, PartialEq, Eq, Structural)]
pub struct Line {
    /// The face that the line lies on.
    pub face: Face,
    /// The line is a row of the grid; otherwise it is a column.
    pub is_row: bool,
    /// Which row or column.
    pub index: usize,
    /// The line is walked from the high end of the row or column to the low end.
    pub reversed: bool,
}

impl Line {
    /// The line lies on the grid.
    pub open spec fn valid(self) -> bool {
        self.index < 3
    }

    /// The cell reached after `step` steps along the line.
    pub open spec fn cell(self, step: int) -> Cell {
        let along = if self.reversed {
            2 - step
        } else {
            step
        };
        if self.is_row {
            Cell { face: self.face, row: self.index as int, col: along }
        } else {
            Cell { face: self.face, row: along, col: self.index as int }
        }
    }

    /// The cell lies on the line.
    pub open spec fn holds(self, cell: Cell) -> bool {
        cell.face == self.face && if self.is_row {
            cell.row == self.index
        } else {
            cell.col == self.index
        }
    }

    /// How many steps along the line a cell of the line is reached.
    pub open spec fn step_of(self, cell: Cell) -> int {
        let along = if self.is_row {
            cell.col
        } else {
            cell.row
        };
        if self.reversed {
            2 - along
        } else {
            along
        }
    }
}

/// The four border lines around a face, one on each neighbouring face, in the
/// order in which a clockwise twist hands their facelets on: what stood on one
/// line moves, step for step, to the line that follows it, and what stood on
/// the last moves to the first.
///
/// Around the front face, for one: the bottom row of Up takes the right
/// column of Left, last facelet first; the left column of Right takes the
/// bottom row of Up, last facelet first; the top row of Down takes the left
/// column of Right as it stands; and the right column of Left takes the top
/// row of Down as it stands.
pub open spec fn border(face: Face) -> Seq<Line> {
    match face {
        Face::Front => seq![
            Line { face: Face::Left, is_row: false, index: 2, reversed: false },
            Line { face: Face::Up, is_row: true, index: 2, reversed: true },
            Line { face: Face::Right, is_row: false, index: 0, reversed: false },
            Line { face: Face::Down, is_row: true, index: 0, reversed: false },
        ],
        Face::Back => seq![
            Line { face: Face::Right, is_row: false, index: 2, reversed: false },
            Line { face: Face::Up, is_row: true, index: 0, reversed: true },
            Line { face: Face::Left, is_row: false, index: 0, reversed: true },
            Line { face: Face::Down, is_row: true, index: 2, reversed: true },
        ],
        Face::Left => seq![
            Line { face: Face::Up, is_row: false, index: 0, reversed: false },
            Line { face: Face::Front, is_row: false, index: 0, reversed: false },
            Line { face: Face::Down, is_row: false, index: 0, reversed: false },
            Line { face: Face::Back, is_row: false, index: 2, reversed: true },
        ],
        Face::Right => seq![
            Line { face: Face::Front, is_row: false, index: 2, reversed: false },
            Line { face: Face::Up, is_row: false, index: 2, reversed: false },
            Line { face: Face::Back, is_row: false, index: 0, reversed: true },
            Line { face: Face::Down, is_row: false, index: 2, reversed: false },
        ],
        Face::Up => seq![
            Line { face: Face::Right, is_row: true, index: 0, reversed: false },
            Line { face: Face::Front, is_row: true, index: 0, reversed: false },
            Line { face: Face::Left, is_row: true, index: 0, reversed: false },
            Line { face: Face::Back, is_row: true, index: 0, reversed: false },
        ],
        Face::Down => seq![
            Line { face: Face::Right, is_row: true, index: 2, reversed: false },
            Line { face: Face::Front, is_row: true, index: 2, reversed: false },
            Line { face: Face::Left, is_row: true, index: 2, reversed: false },
            Line { face: Face::Back, is_row: true, index: 2, reversed: false },
        ],
    }
}

/// The border lines around a face, as values to work with.
pub fn border_lines(face: Face) -> (lines: [Line; 4])
    ensures
        lines@ == border(face),
{
    let lines = match face {
        Face::Front => [
            Line { face: Face::Left, is_row: false, index: 2, reversed: false },
            Line { face: Face::Up, is_row: true, index: 2, reversed: true },
            Line { face: Face::Right, is_row: false, index: 0, reversed: false },
            Line { face: Face::Down, is_row: true, index: 0, reversed: false },
        ],
        Face::Back => [
            Line { face: Face::Right, is_row: false, index: 2, reversed: false },
            Line { face: Face::Up, is_row: true, index: 0, reversed: true },
            Line { face: Face::Left, is_row: false, index: 0, reversed: true },
            Line { face: Face::Down, is_row: true, index: 2, reversed: true },
        ],
        Face::Left => [
            Line { face: Face::Up, is_row: false, index: 0, reversed: false },
            Line { face: Face::Front, is_row: false, index: 0, reversed: false },
            Line { face: Face::Down, is_row: false, index: 0, reversed: false },
            Line { face: Face::Back, is_row: false, index: 2, reversed: true },
        ],
        Face::Right => [
            Line { face: Face::Front, is_row: false, index: 2, reversed: false },
            Line { face: Face::Up, is_row: false, index: 2, reversed: false },
            Line { face: Face::Back, is_row: false, index: 0, reversed: true },
            Line { face: Face::Down, is_row: false, index: 2, reversed: false },
        ],
        Face::Up => [
            Line { face: Face::Right, is_row: true, index: 0, reversed: false },
            Line { face: Face::Front, is_row: true, index: 0, reversed: false },
            Line { face: Face::Left, is_row: true, index: 0, reversed: false },
            Line { face: Face::Back, is_row: true, index: 0, reversed: false },
        ],
        Face::Down => [
            Line { face: Face::Right, is_row: true, index: 2, reversed: false },
            Line { face: Face::Front, is_row: true, index: 2, reversed: false },
            Line { face: Face::Left, is_row: true, index: 2, reversed: false },
            Line { face: Face::Back, is_row: true, index: 2, reversed: false },
        ],
    };
    assert(lines@ =~= border(face));
    lines
}

/// The border of a face is four lines on the grid, one on each of the four
/// faces next to it: none on the face itself, none on the face opposite, and
/// no two on the same face.
pub proof fn lemma_border_shape(face: Face)
    ensures
        border(face).len() == 4,
        forall|i: int| 0 <= i < 4 ==> (#[trigger] border(face)[i]).valid(),
        forall|i: int| 0 <= i < 4 ==> (#[trigger] border(face)[i]).face != face,
        forall|i: int| 0 <= i < 4 ==> (#[trigger] border(face)[i]).face != face.opposite(),
        forall|i: int, j: int|
            0 <= i < j < 4 ==> (#[trigger] border(face)[i]).face != (#[trigger] border(
                face,
            )[j]).face,
{
    let lines = border(face);
    match face {
        Face::Front => {
            assert(lines[0].face == Face::Left && lines[1].face == Face::Up && lines[2].face
                == Face::Right && lines[3].face == Face::Down);
        },
        Face::Back => {
            assert(lines[0].face == Face::Right && lines[1].face == Face::Up && lines[2].face
                == Face::Left && lines[3].face == Face::Down);
        },
        Face::Left => {
            assert(lines[0].face == Face::Up && lines[1].face == Face::Front && lines[2].face
                == Face::Down && lines[3].face == Face::Back);
        },
        Face::Right => {
            assert(lines[0].face == Face::Front && lines[1].face == Face::Up && lines[2].face
                == Face::Back && lines[3].face == Face::Down);
        },
        Face::Up => {
            assert(lines[0].face == Face::Right && lines[1].face == Face::Front && lines[2].face
                == Face::Left && lines[3].face == Face::Back);
        },
        Face::Down => {
            assert(lines[0].face == Face::Right && lines[1].face == Face::Front && lines[2].face
                == Face::Left && lines[3].face == Face::Back);
        },
    }
    assert(lines[0].valid() && lines[1].valid() && lines[2].valid() && lines[3].valid());
}

/// The cell reached by walking a line lies on the grid and on the line, as
/// many steps along it as were walked.
pub proof fn lemma_line_walk(line: Line, step: int)
    requires
        line.valid(),
        0 <= step < 3,
    ensures
        line.cell(step).valid(),
        line.holds(line.cell(step)),
        line.step_of(line.cell(step)) == step,
{
}

/// A cell of a line is reached by walking the line as many steps as the cell
/// stands along it.
pub proof fn lemma_line_holds(line: Line, cell: Cell)
    requires
        line.valid(),
        cell.valid(),
    ensures
        line.holds(cell) ==> 0 <= line.step_of(cell) < 3 && line.cell(line.step_of(cell)) == cell,
{
}

/// The place, among the four border lines of a face, of the line that hands
/// its facelets to the line at place `i`.
pub open spec fn line_before(i: int) -> int {
    if i == 0 {
        3
    } else {
        i - 1
    }
}

/// The source of a cell on a border line, under the cycle of the border
/// lines, is the cell as many steps along the line before it.
pub proof fn lemma_edge_source_on_line(face: Face, i: int, step: int)
    requires
        0 <= i < 4,
        0 <= step < 3,
    ensures
        edge_source(face, border(face)[i].cell(step)) == border(face)[line_before(i)].cell(step),
{
    reveal(edge_source);
    lemma_border_shape(face);
    let lines = border(face);
    lemma_line_walk(lines[i], step);
    if i == 0 {
        assert(!lines[1].holds(lines[i].cell(step)));
        assert(!lines[2].holds(lines[i].cell(step)));
        assert(!lines[3].holds(lines[i].cell(step)));
    } else if i == 1 {
        assert(!lines[0].holds(lines[i].cell(step)));
        assert(!lines[2].holds(lines[i].cell(step)));
        assert(!lines[3].holds(lines[i].cell(step)));
    } else if i == 2 {
        assert(!lines[0].holds(lines[i].cell(step)));
        assert(!lines[1].holds(lines[i].cell(step)));
        assert(!lines[3].holds(lines[i].cell(step)));
    } else {
        assert(!lines[0].holds(lines[i].cell(step)));
        assert(!lines[1].holds(lines[i].cell(step)));
        assert(!lines[2].holds(lines[i].cell(step)));
    }
}

/// Where the facelet that a quarter turn of a face's own grid brings to a cell
/// stood before: on the turned face, what stood at row `i`, column `j` goes to
/// row `j`, column `2 - i`; every other cell keeps its facelet.
pub open spec fn face_source(face: Face, cell: Cell) -> Cell {
    if cell.face == face {
        Cell { face, row: 2 - cell.col, col: cell.row }
    } else {
        cell
    }
}

/// Where the facelet that the cycle of the border lines brings to a cell stood
/// before: a cell of a border line takes the facelet that stood as many steps
/// along the line before it; every other cell keeps its facelet.
#[verifier::opaque]
pub open spec fn edge_source(face: Face, cell: Cell) -> Cell {
    let lines = border(face);
    if lines[0].holds(cell) {
        lines[line_before(0)].cell(lines[0].step_of(cell))
    } else if lines[1].holds(cell) {
        lines[line_before(1)].cell(lines[1].step_of(cell))
    } else if lines[2].holds(cell) {
        lines[line_before(2)].cell(lines[2].step_of(cell))
    } else if lines[3].holds(cell) {
        lines[line_before(3)].cell(lines[3].step_of(cell))
    } else {
        cell
    }
}

/// Where the facelet that a clockwise twist brings to a cell stood before.
pub open spec fn twist_source(face: Face, cell: Cell) -> Cell {
    if cell.face == face {
        face_source(face, cell)
    } else {
        edge_source(face, cell)
    }
}

} // verus!
