//! The cube itself.

use vstd::prelude::*;
use crate::face::{Direction, Face};
use crate::laws::{
    lemma_edge_cycle_conserves, lemma_face_rotation_conserves, lemma_turn_conserves,
    lemma_twist_conserves,
};
use crate::layout::{
    border_lines, face_source, lemma_cell_at, lemma_line_holds, lemma_line_walk, lemma_slot_of,
    Cell, Line,
};
use crate::twist::{
    edges_cycled, face_rotated, lemma_border_written, line_read, line_written, turned, twisted,
    twisted_times,
};

verus! {

/// A 3x3 grid of colours, row by row.
pub type Grid = [[i32; 3]; 3];

/// The state of a cube: six grids of facelets.
#[derive(Clone, Debug, PartialEq, Eq)]
pub struct Cube {
    up: Grid,
    down: Grid,
    front: Grid,
    back: Grid,
    left: Grid,
    right: Grid,
}

impl View for Cube {
    type V = Seq<i32>;

    /// The 54 facelets: faces in colour order, each face row by row.
    closed spec fn view(&self) -> Seq<i32> {
        Seq::new(54, |k: int| self.grid(Cell::at(k).face)[Cell::at(k).row][Cell::at(k).col])
    }
}

/// The facelets of a solved cube: every face carries its own colour.
pub open spec fn solved() -> Seq<i32> {
    Seq::new(54, |k: int| (Cell::at(k).face.ordinal() + 1) as i32)
}

/// On a solved cube every cell carries the colour of its face: 1 on Up, 2 on
/// Left, 3 on Front, 4 on Right, 5 on Back, 6 on Down. So each colour is on
/// one face only, on all nine of its cells.
pub proof fn lemma_solved_cells(cell: Cell)
    requires
        cell.valid(),
    ensures
        solved()[cell.slot()] == cell.face.ordinal() + 1,
{
    lemma_slot_of(cell);
}

/// On a numbered cube every cell carries its own place.
pub proof fn lemma_numbered_cells(cell: Cell)
    requires
        cell.valid(),
    ensures
        numbered()[cell.slot()] == cell.slot(),
{
}

/// The facelets of a cube on which every facelet can be told from every
/// other: the facelet at place `k` carries the number `k`.
pub open spec fn numbered() -> Seq<i32> {
    Seq::new(54, |k: int| k as i32)
}

impl Cube {
    spec fn grid(&self, face: Face) -> Grid {
        match face {
            Face::Up => self.up,
            Face::Down => self.down,
            Face::Front => self.front,
            Face::Back => self.back,
            Face::Left => self.left,
            Face::Right => self.right,
        }
    }

    /// A cube has 54 facelets.
    pub proof fn lemma_facelet_count(&self)
        ensures
            self@.len() == 54,
    {
    }

    /// A solved cube.
    pub fn new() -> (cube: Cube)
        ensures
            cube@ == solved(),
    {
        let cube = Cube {
            up: [[1, 1, 1], [1, 1, 1], [1, 1, 1]],
            left: [[2, 2, 2], [2, 2, 2], [2, 2, 2]],
            front: [[3, 3, 3], [3, 3, 3], [3, 3, 3]],
            right: [[4, 4, 4], [4, 4, 4], [4, 4, 4]],
            back: [[5, 5, 5], [5, 5, 5], [5, 5, 5]],
            down: [[6, 6, 6], [6, 6, 6], [6, 6, 6]],
        };
        assert forall|k: int| 0 <= k < 54 implies cube@[k] == solved()[k] by {
            lemma_cell_at(k);
        }
        assert(cube@ =~= solved());
        cube
    }

    /// A cube whose facelets are numbered from 0 to 53, faces in colour
    /// order, each face row by row. Twisting it shows where every single
    /// facelet goes.
    pub fn numbered() -> (cube: Cube)
        ensures
            cube@ == numbered(),
    {
        let cube = Cube {
            up: [[0, 1, 2], [3, 4, 5], [6, 7, 8]],
            left: [[9, 10, 11], [12, 13, 14], [15, 16, 17]],
            front: [[18, 19, 20], [21, 22, 23], [24, 25, 26]],
            right: [[27, 28, 29], [30, 31, 32], [33, 34, 35]],
            back: [[36, 37, 38], [39, 40, 41], [42, 43, 44]],
            down: [[45, 46, 47], [48, 49, 50], [51, 52, 53]],
        };
        assert forall|k: int| 0 <= k < 54 implies cube@[k] == numbered()[k] by {
            lemma_cell_at(k);
        }
        assert(cube@ =~= numbered());
        cube
    }

    /// All 54 facelets: faces in colour order, each face row by row.
    pub fn facelets(&self) -> (all: Vec<i32>)
        ensures
            all@ == self@,
    {
        let order = [Face::Up, Face::Left, Face::Front, Face::Right, Face::Back, Face::Down];
        let mut all: Vec<i32> = Vec::new();
        let mut f: usize = 0;
        while f < 6
            invariant
                f <= 6,
                self@.len() == 54,
                forall|n: int| 0 <= n < 6 ==> (#[trigger] order[n]).ordinal() == n,
                all@ == self@.take(9 * f),
            decreases 6 - f,
        {
            let mut row: usize = 0;
            while row < 3
                invariant
                    f < 6,
                    row <= 3,
                    self@.len() == 54,
                    order[f as int].ordinal() == f,
                    all@ == self@.take(9 * f + 3 * row),
                decreases 3 - row,
            {
                let mut col: usize = 0;
                while col < 3
                    invariant
                        f < 6,
                        row < 3,
                        col <= 3,
                        self@.len() == 54,
                        order[f as int].ordinal() == f,
                        all@ == self@.take(9 * f + 3 * row + col),
                    decreases 3 - col,
                {
                    let value = self.facelet(order[f], row, col);
                    all.push(value);
                    assert(all@ =~= self@.take(9 * f + 3 * row + col + 1));
                    col += 1;
                }
                row += 1;
            }
            f += 1;
        }
        assert(all@ =~= self@);
        all
    }

    /// The whole grid of one face, row by row.
    pub fn face(&self, face: Face) -> (grid: &Grid)
        ensures
            forall|row: int, col: int|
                0 <= row < 3 && 0 <= col < 3 ==> #[trigger] grid[row][col] == self@[(Cell {
                    face,
                    row,
                    col,
                }).slot()],
    {
        proof {
            assert forall|row: int, col: int| 0 <= row < 3 && 0 <= col < 3 implies self.grid(
                face,
            )[row][col] == self@[(Cell { face, row, col }).slot()] by {
                lemma_slot_of(Cell { face, row, col });
            }
        }
        match face {
            Face::Up => &self.up,
            Face::Down => &self.down,
            Face::Front => &self.front,
            Face::Back => &self.back,
            Face::Left => &self.left,
            Face::Right => &self.right,
        }
    }

    /// The colour at one position.
    pub fn facelet(&self, face: Face, row: usize, col: usize) -> (value: i32)
        requires
            row < 3,
            col < 3,
        ensures
            value == self@[(Cell { face, row: row as int, col: col as int }).slot()],
    {
        proof {
            lemma_slot_of(Cell { face, row: row as int, col: col as int });
        }
        match face {
            Face::Up => self.up[row][col],
            Face::Down => self.down[row][col],
            Face::Front => self.front[row][col],
            Face::Back => self.back[row][col],
            Face::Left => self.left[row][col],
            Face::Right => self.right[row][col],
        }
    }
}

/// Row and column of the cell reached after `step` steps along a line.
fn line_position(line: &Line, step: usize) -> (position: (usize, usize))
    requires
        line.valid(),
        step < 3,
    ensures
        position.0 < 3,
        position.1 < 3,
        line.cell(step as int) == (Cell {
            face: line.face,
            row: position.0 as int,
            col: position.1 as int,
        }),
{
    let along = if line.reversed {
        2 - step
    } else {
        step
    };
    if line.is_row {
        (line.index, along)
    } else {
        (along, line.index)
    }
}

/// A grid turned a quarter turn clockwise: what stood at row `i`, column `j`
/// stands at row `j`, column `2 - i`.
fn quarter_turn(grid: &Grid) -> (turned: Grid)
    ensures
        forall|row: int, col: int|
            0 <= row < 3 && 0 <= col < 3 ==> #[trigger] turned[row][col] == grid[2 - col][row],
{
    let mut turned: Grid = *grid;
    let mut i: usize = 0;
    while i < 3
        invariant
            i <= 3,
            forall|row: int, col: int|
                0 <= row < 3 && 3 - i <= col < 3 ==> #[trigger] turned[row][col] == grid[2
                    - col][row],
        decreases 3 - i,
    {
        let mut j: usize = 0;
        while j < 3
            invariant
                i < 3,
                j <= 3,
                forall|row: int, col: int|
                    0 <= row < 3 && 3 - i <= col < 3 ==> #[trigger] turned[row][col] == grid[2
                        - col][row],
                forall|row: int|
                    0 <= row < j ==> #[trigger] turned[row][2 - i] == grid[i as int][row],
            decreases 3 - j,
        {
            turned[j][2 - i] = grid[i][j];
            j += 1;
        }
        assert forall|row: int, col: int|
            0 <= row < 3 && 2 - i <= col < 3 implies #[trigger] turned[row][col] == grid[2
            - col][row] by {
            if col == 2 - i {
                assert(turned[row][2 - i] == grid[i as int][row]);
            }
        }
        i += 1;
    }
    turned
}

impl Cube {
    /// Turns the grid of the front face a quarter turn clockwise.
    pub fn rotate_front_face(&mut self)
        ensures
            final(self)@ == face_rotated(old(self)@, Face::Front),
            final(self)@.to_multiset() == old(self)@.to_multiset(),
    {
        let turned = quarter_turn(&self.front);
        self.front = turned;
        proof {
            self.lemma_face_rotated(*old(self), Face::Front);
            lemma_face_rotation_conserves(old(self)@, Face::Front);
        }
    }

    /// Turns the grid of the up face a quarter turn clockwise.
    pub fn rotate_up_face(&mut self)
        ensures
            final(self)@ == face_rotated(old(self)@, Face::Up),
            final(self)@.to_multiset() == old(self)@.to_multiset(),
    {
        let turned = quarter_turn(&self.up);
        self.up = turned;
        proof {
            self.lemma_face_rotated(*old(self), Face::Up);
            lemma_face_rotation_conserves(old(self)@, Face::Up);
        }
    }

    /// Turns the grid of the down face a quarter turn clockwise.
    pub fn rotate_down_face(&mut self)
        ensures
            final(self)@ == face_rotated(old(self)@, Face::Down),
            final(self)@.to_multiset() == old(self)@.to_multiset(),
    {
        let turned = quarter_turn(&self.down);
        self.down = turned;
        proof {
            self.lemma_face_rotated(*old(self), Face::Down);
            lemma_face_rotation_conserves(old(self)@, Face::Down);
        }
    }

    /// Turns the grid of the back face a quarter turn clockwise.
    pub fn rotate_back_face(&mut self)
        ensures
            final(self)@ == face_rotated(old(self)@, Face::Back),
            final(self)@.to_multiset() == old(self)@.to_multiset(),
    {
        let turned = quarter_turn(&self.back);
        self.back = turned;
        proof {
            self.lemma_face_rotated(*old(self), Face::Back);
            lemma_face_rotation_conserves(old(self)@, Face::Back);
        }
    }

    /// Turns the grid of the left face a quarter turn clockwise.
    pub fn rotate_left_face(&mut self)
        ensures
            final(self)@ == face_rotated(old(self)@, Face::Left),
            final(self)@.to_multiset() == old(self)@.to_multiset(),
    {
        let turned = quarter_turn(&self.left);
        self.left = turned;
        proof {
            self.lemma_face_rotated(*old(self), Face::Left);
            lemma_face_rotation_conserves(old(self)@, Face::Left);
        }
    }

    /// Turns the grid of the right face a quarter turn clockwise.
    pub fn rotate_right_face(&mut self)
        ensures
            final(self)@ == face_rotated(old(self)@, Face::Right),
            final(self)@.to_multiset() == old(self)@.to_multiset(),
    {
        let turned = quarter_turn(&self.right);
        self.right = turned;
        proof {
            self.lemma_face_rotated(*old(self), Face::Right);
            lemma_face_rotation_conserves(old(self)@, Face::Right);
        }
    }

    /// Writes one colour at one position.
    fn put(&mut self, face: Face, row: usize, col: usize, value: i32)
        requires
            row < 3,
            col < 3,
        ensures
            final(self)@ == old(self)@.update(
                (Cell { face, row: row as int, col: col as int }).slot(),
                value,
            ),
    {
        match face {
            Face::Up => {
                self.up[row][col] = value;
            },
            Face::Down => {
                self.down[row][col] = value;
            },
            Face::Front => {
                self.front[row][col] = value;
            },
            Face::Back => {
                self.back[row][col] = value;
            },
            Face::Left => {
                self.left[row][col] = value;
            },
            Face::Right => {
                self.right[row][col] = value;
            },
        }
        proof {
            self.lemma_put(*old(self), Cell { face, row: row as int, col: col as int }, value);
        }
    }

    /// What holds once one cell has a new colour and every other cell is as
    /// it was.
    proof fn lemma_put(self, before: Cube, target: Cell, value: i32)
        requires
            target.valid(),
            forall|other: Face| other != target.face ==> self.grid(other) == before.grid(other),
            self.grid(target.face)[target.row][target.col] == value,
            forall|row: int, col: int|
                0 <= row < 3 && 0 <= col < 3 && !(row == target.row && col == target.col)
                    ==> self.grid(target.face)[row][col] == before.grid(target.face)[row][col],
        ensures
            self@ == before@.update(target.slot(), value),
    {
        let after = before@.update(target.slot(), value);
        lemma_slot_of(target);
        assert forall|k: int| 0 <= k < 54 implies self@[k] == after[k] by {
            let cell = Cell::at(k);
            lemma_cell_at(k);
            lemma_slot_of(cell);
            if cell.face != target.face {
                assert(self.grid(cell.face) == before.grid(cell.face));
            } else if cell.row == target.row && cell.col == target.col {
                assert(cell == target);
            } else {
                assert(k != target.slot());
                assert(self.grid(target.face)[cell.row][cell.col] == before.grid(
                    target.face,
                )[cell.row][cell.col]);
            }
        }
        assert(self@ =~= after);
    }

    /// The three colours along a line, in the sense in which it is walked.
    fn read_line(&self, line: &Line) -> (values: [i32; 3])
        requires
            line.valid(),
        ensures
            values@ == line_read(self@, *line),
    {
        let mut values: [i32; 3] = [0, 0, 0];
        let mut step: usize = 0;
        while step < 3
            invariant
                step <= 3,
                line.valid(),
                forall|done: int|
                    0 <= done < step ==> values[done] == self@[line.cell(done).slot()],
            decreases 3 - step,
        {
            let (row, col) = line_position(line, step);
            values[step] = self.facelet(line.face, row, col);
            step += 1;
        }
        assert(values@ =~= line_read(self@, *line));
        values
    }

    /// Writes three colours along a line, in the sense in which it is walked.
    fn write_line(&mut self, line: &Line, values: &[i32; 3])
        requires
            line.valid(),
        ensures
            final(self)@ == line_written(old(self)@, *line, values@),
    {
        let mut step: usize = 0;
        proof {
            assert forall|k: int| 0 <= k < 54 implies !(line.holds(Cell::at(k)) && line.step_of(
                Cell::at(k),
            ) < 0) by {
                lemma_cell_at(k);
                lemma_line_holds(*line, Cell::at(k));
            }
        }
        while step < 3
            invariant
                step <= 3,
                line.valid(),
                self@.len() == 54,
                forall|k: int|
                    0 <= k < 54 ==> self@[k] == if line.holds(Cell::at(k)) && line.step_of(
                        Cell::at(k),
                    ) < step {
                        values@[line.step_of(Cell::at(k))]
                    } else {
                        old(self)@[k]
                    },
            decreases 3 - step,
        {
            let (row, col) = line_position(line, step);
            self.put(line.face, row, col, values[step]);
            proof {
                let target = line.cell(step as int);
                lemma_line_walk(*line, step as int);
                assert forall|k: int| 0 <= k < 54 implies self@[k] == if line.holds(Cell::at(k))
                    && line.step_of(Cell::at(k)) < step + 1 {
                    values@[line.step_of(Cell::at(k))]
                } else {
                    old(self)@[k]
                } by {
                    lemma_cell_at(k);
                    lemma_slot_of(target);
                    lemma_line_holds(*line, Cell::at(k));
                }
            }
            step += 1;
        }
        proof {
            assert forall|k: int| 0 <= k < 54 implies self@[k] == line_written(
                old(self)@,
                *line,
                values@,
            )[k] by {
                lemma_cell_at(k);
                lemma_line_holds(*line, Cell::at(k));
            }
        }
        assert(self@ =~= line_written(old(self)@, *line, values@));
    }

    /// Cycles the four border lines around a face: each line takes, step for
    /// step, the facelets that stood on the line before it in the face's
    /// border. The face's own grid and every cell off those lines stay as
    /// they are.
    pub fn rotate_adjacent_edges(&mut self, face: Face)
        ensures
            final(self)@ == edges_cycled(old(self)@, face),
            final(self)@.to_multiset() == old(self)@.to_multiset(),
    {
        let lines = border_lines(face);
        let first = self.read_line(&lines[0]);
        let second = self.read_line(&lines[1]);
        let third = self.read_line(&lines[2]);
        let fourth = self.read_line(&lines[3]);
        self.write_line(&lines[1], &first);
        self.write_line(&lines[2], &second);
        self.write_line(&lines[3], &third);
        self.write_line(&lines[0], &fourth);
        proof {
            lemma_border_written(old(self)@, face);
            lemma_edge_cycle_conserves(old(self)@, face);
        }
    }

    /// Twists a face a quarter turn clockwise: turns its own grid, then cycles
    /// the border lines around it.
    pub fn rotate_face_clockwise(&mut self, face: Face)
        ensures
            final(self)@ == twisted(old(self)@, face),
            final(self)@.to_multiset() == old(self)@.to_multiset(),
    {
        proof {
            lemma_twist_conserves(old(self)@, face);
        }
        match face {
            Face::Front => {
                self.rotate_front_face();
                self.rotate_adjacent_edges(Face::Front);
            },
            Face::Up => {
                self.rotate_up_face();
                self.rotate_adjacent_edges(Face::Up);
            },
            Face::Down => {
                self.rotate_down_face();
                self.rotate_adjacent_edges(Face::Down);
            },
            Face::Back => {
                self.rotate_back_face();
                self.rotate_adjacent_edges(Face::Back);
            },
            Face::Left => {
                self.rotate_left_face();
                self.rotate_adjacent_edges(Face::Left);
            },
            Face::Right => {
                self.rotate_right_face();
                self.rotate_adjacent_edges(Face::Right);
            },
        }
    }

    /// Twists a face a quarter turn in the given direction. A
    /// counter-clockwise twist is three clockwise twists.
    pub fn rotate_face(&mut self, face: Face, direction: Direction)
        ensures
            final(self)@ == turned(old(self)@, face, direction),
            final(self)@.to_multiset() == old(self)@.to_multiset(),
    {
        proof {
            lemma_turn_conserves(old(self)@, face, direction);
        }
        match direction {
            Direction::Clockwise => {
                self.rotate_face_clockwise(face);
                assert(twisted_times(old(self)@, face, 1) == twisted(
                    twisted_times(old(self)@, face, 0),
                    face,
                ));
            },
            Direction::CounterClockwise => {
                let mut done: u8 = 0;
                while done < 3
                    invariant
                        done <= 3,
                        self@ == twisted_times(old(self)@, face, done as nat),
                    decreases 3 - done,
                {
                    self.rotate_face_clockwise(face);
                    done += 1;
                }
            },
        }
    }

    /// What holds once the grid of one face has been replaced by its quarter
    /// turn and the other five are as they were.
    proof fn lemma_face_rotated(self, before: Cube, face: Face)
        requires
            forall|other: Face| other != face ==> self.grid(other) == before.grid(other),
            forall|row: int, col: int|
                0 <= row < 3 && 0 <= col < 3 ==> #[trigger] self.grid(face)[row][col]
                    == before.grid(face)[2 - col][row],
        ensures
            self@ == face_rotated(before@, face),
    {
        let after = face_rotated(before@, face);
        assert forall|k: int| 0 <= k < 54 implies self@[k] == after[k] by {
            let cell = Cell::at(k);
            lemma_cell_at(k);
            lemma_slot_of(cell);
            let from = face_source(face, cell);
            lemma_slot_of(from);
            if cell.face == face {
                assert(self.grid(face)[cell.row][cell.col] == before.grid(face)[2
                    - cell.col][cell.row]);
            } else {
                assert(self.grid(cell.face) == before.grid(cell.face));
            }
        }
        assert(self@ =~= after);
    }
}

} // verus!
