//! What a twist does to the 54 facelets, as mathematics.

use vstd::prelude::*;
use crate::face::{Direction, Face};
use crate::layout::{
    border, edge_source, face_source, lemma_border_shape, lemma_cell_at, lemma_line_holds,
    lemma_slot_of, Cell, Line,
};

verus! {

/// The facelets after the grid of one face has been turned a quarter turn
/// clockwise.
pub open spec fn face_rotated(s: Seq<i32>, face: Face) -> Seq<i32> {
    Seq::new(54, |k: int| s[face_source(face, Cell::at(k)).slot()])
}

/// The facelets after the four border lines around a face have handed their
/// facelets on.
pub open spec fn edges_cycled(s: Seq<i32>, face: Face) -> Seq<i32> {
    Seq::new(54, |k: int| s[edge_source(face, Cell::at(k)).slot()])
}

/// The facelets after one clockwise twist of a face: its own grid is turned,
/// then the border lines around it are cycled.
pub open spec fn twisted(s: Seq<i32>, face: Face) -> Seq<i32> {
    edges_cycled(face_rotated(s, face), face)
}

/// The facelets after `n` clockwise twists of the same face.
pub open spec fn twisted_times(s: Seq<i32>, face: Face, n: nat) -> Seq<i32>
    decreases n,
{
    if n == 0 {
        s
    } else {
        twisted(twisted_times(s, face, (n - 1) as nat), face)
    }
}

/// The facelets after a clockwise twist of each face of a sequence, in order.
pub open spec fn twisted_along(s: Seq<i32>, faces: Seq<Face>) -> Seq<i32>
    decreases faces.len(),
{
    if faces.len() == 0 {
        s
    } else {
        twisted(twisted_along(s, faces.drop_last()), faces.last())
    }
}

/// The facelets after one twist of a face in a direction.
pub open spec fn turned(s: Seq<i32>, face: Face, direction: Direction) -> Seq<i32> {
    twisted_times(s, face, direction.quarter_turns_spec())
}

/// The facelets after a sequence of twists, each of a face in a direction, in
/// order.
pub open spec fn turned_along(s: Seq<i32>, twists: Seq<(Face, Direction)>) -> Seq<i32>
    decreases twists.len(),
{
    if twists.len() == 0 {
        s
    } else {
        turned(turned_along(s, twists.drop_last()), twists.last().0, twists.last().1)
    }
}

/// The facelets after three values have been written along a line.
pub open spec fn line_written(s: Seq<i32>, line: Line, values: Seq<i32>) -> Seq<i32> {
    Seq::new(
        54,
        |k: int|
            if line.holds(Cell::at(k)) {
                values[line.step_of(Cell::at(k))]
            } else {
                s[k]
            },
    )
}

/// The three facelets along a line, in the sense in which it is walked.
pub open spec fn line_read(s: Seq<i32>, line: Line) -> Seq<i32> {
    Seq::new(3, |step: int| s[line.cell(step).slot()])
}

/// Writing onto each border line what stood on the line before it is the
/// cycle of the border lines.
pub proof fn lemma_border_written(s: Seq<i32>, face: Face)
    requires
        s.len() == 54,
    ensures
        ({
            let lines = border(face);
            let a = line_written(s, lines[1], line_read(s, lines[0]));
            let b = line_written(a, lines[2], line_read(s, lines[1]));
            let c = line_written(b, lines[3], line_read(s, lines[2]));
            line_written(c, lines[0], line_read(s, lines[3]))
        }) == edges_cycled(s, face),
{
    reveal(edge_source);
    lemma_border_shape(face);
    let lines = border(face);
    let a = line_written(s, lines[1], line_read(s, lines[0]));
    let b = line_written(a, lines[2], line_read(s, lines[1]));
    let c = line_written(b, lines[3], line_read(s, lines[2]));
    let d = line_written(c, lines[0], line_read(s, lines[3]));
    assert forall|k: int| 0 <= k < 54 implies d[k] == edges_cycled(s, face)[k] by {
        let cell = Cell::at(k);
        lemma_cell_at(k);
        lemma_slot_of(cell);
        lemma_line_holds(lines[0], cell);
        lemma_line_holds(lines[1], cell);
        lemma_line_holds(lines[2], cell);
        lemma_line_holds(lines[3], cell);
        if lines[0].holds(cell) {
            assert(d[k] == line_read(s, lines[3])[lines[0].step_of(cell)]);
        } else if lines[3].holds(cell) {
            assert(d[k] == c[k]);
            assert(c[k] == line_read(s, lines[2])[lines[3].step_of(cell)]);
        } else if lines[2].holds(cell) {
            assert(d[k] == c[k] && c[k] == b[k]);
            assert(b[k] == line_read(s, lines[1])[lines[2].step_of(cell)]);
        } else if lines[1].holds(cell) {
            assert(d[k] == c[k] && c[k] == b[k] && b[k] == a[k]);
            assert(a[k] == line_read(s, lines[0])[lines[1].step_of(cell)]);
        } else {
            assert(d[k] == c[k] && c[k] == b[k] && b[k] == a[k] && a[k] == s[k]);
        }
    }
    assert(d =~= edges_cycled(s, face));
}

} // verus!
