//! What holds of every twist, proved from the definitions.

use vstd::prelude::*;
use crate::face::{Direction, Face};
use crate::layout::{
    border, edge_source, face_source, lemma_border_shape, lemma_cell_at,
    lemma_edge_source_on_line, lemma_line_holds, lemma_line_walk, lemma_slot_of, line_before,
    twist_source, Cell,
};
use crate::rearrange::lemma_rearranged_multiset;
use crate::twist::{
    edges_cycled, face_rotated, turned, turned_along, twisted, twisted_along, twisted_times,
};

verus! {

/// The border line of a face that a cell lies on, counted from 0, or 4 where
/// it lies on none.
pub open spec fn border_line_of(face: Face, cell: Cell) -> int {
    let lines = border(face);
    if lines[0].holds(cell) {
        0
    } else if lines[1].holds(cell) {
        1
    } else if lines[2].holds(cell) {
        2
    } else if lines[3].holds(cell) {
        3
    } else {
        4
    }
}

/// The source of a cell under a clockwise twist lies on the grid. A cell of
/// the twisted face has its source on that face; a cell of a border line has
/// it as many steps along the line before; any other cell is its own source.
pub proof fn lemma_twist_source(face: Face, cell: Cell)
    requires
        cell.valid(),
    ensures
        twist_source(face, cell).valid(),
        cell.face == face ==> twist_source(face, cell) == (Cell {
            face,
            row: 2 - cell.col,
            col: cell.row,
        }),
        cell.face != face && border_line_of(face, cell) < 4 ==> twist_source(face, cell) == border(
            face,
        )[line_before(border_line_of(face, cell))].cell(
            border(face)[border_line_of(face, cell)].step_of(cell),
        ),
        cell.face != face && border_line_of(face, cell) == 4 ==> twist_source(face, cell) == cell,
{
    reveal(edge_source);
    lemma_border_shape(face);
    let i = border_line_of(face, cell);
    if cell.face != face && i < 4 {
        let line = border(face)[i];
        let before = border(face)[line_before(i)];
        lemma_line_holds(line, cell);
        lemma_line_walk(before, line.step_of(cell));
    }
}

/// Going back four times from a cell to its source under the same twist ends
/// at the cell itself.
pub proof fn lemma_source_order_four(face: Face, cell: Cell)
    requires
        cell.valid(),
    ensures
        twist_source(face, cell).valid(),
        twist_source(face, twist_source(face, cell)).valid(),
        twist_source(face, twist_source(face, twist_source(face, cell))).valid(),
        twist_source(
            face,
            twist_source(face, twist_source(face, twist_source(face, cell))),
        ) == cell,
{
    let i = border_line_of(face, cell);
    if cell.face == face {
        lemma_order_four_on_face(face, cell);
    } else if i < 4 {
        lemma_border_shape(face);
        lemma_line_holds(border(face)[i], cell);
        lemma_order_four_on_border(face, i, border(face)[i].step_of(cell));
    } else {
        assert(edge_source(face, cell) == cell) by {
            reveal(edge_source);
        }
    }
}

/// On the twisted face the fourth source of a cell is the cell itself: four
/// quarter turns of a grid are a full turn.
proof fn lemma_order_four_on_face(face: Face, cell: Cell)
    requires
        cell.valid(),
        cell.face == face,
    ensures
        twist_source(face, cell).valid(),
        twist_source(face, twist_source(face, cell)).valid(),
        twist_source(face, twist_source(face, twist_source(face, cell))).valid(),
        twist_source(
            face,
            twist_source(face, twist_source(face, twist_source(face, cell))),
        ) == cell,
{
    let one = Cell { face, row: 2 - cell.col, col: cell.row };
    let two = Cell { face, row: 2 - one.col, col: one.row };
    let three = Cell { face, row: 2 - two.col, col: two.row };
    assert(twist_source(face, cell) == one);
    assert(twist_source(face, one) == two);
    assert(twist_source(face, two) == three);
    assert(twist_source(face, three) == cell);
}

/// On a border line the fourth source of a cell is the cell itself: the
/// sources go once round the four lines.
proof fn lemma_order_four_on_border(face: Face, i: int, step: int)
    requires
        0 <= i < 4,
        0 <= step < 3,
    ensures
        ({
            let cell = border(face)[i].cell(step);
            &&& twist_source(face, cell).valid()
            &&& twist_source(face, twist_source(face, cell)).valid()
            &&& twist_source(face, twist_source(face, twist_source(face, cell))).valid()
            &&& twist_source(
                face,
                twist_source(face, twist_source(face, twist_source(face, cell))),
            ) == cell
        }),
{
    let lines = border(face);
    let a = line_before(i);
    let b = line_before(a);
    let c = line_before(b);
    assert(line_before(c) == i);
    lemma_source_from_line(face, i, step);
    lemma_source_from_line(face, a, step);
    lemma_source_from_line(face, b, step);
    lemma_source_from_line(face, c, step);
    assert(twist_source(face, lines[i].cell(step)) == lines[a].cell(step));
    assert(twist_source(face, lines[a].cell(step)) == lines[b].cell(step));
    assert(twist_source(face, lines[b].cell(step)) == lines[c].cell(step));
    assert(twist_source(face, lines[c].cell(step)) == lines[i].cell(step));
}

/// The source of a cell reached by walking a border line is the cell reached
/// by walking the line before it as far.
proof fn lemma_source_from_line(face: Face, i: int, step: int)
    requires
        0 <= i < 4,
        0 <= step < 3,
    ensures
        border(face)[i].cell(step).valid(),
        twist_source(face, border(face)[i].cell(step)) == border(face)[line_before(i)].cell(step),
{
    lemma_on_line(face, i, step);
    lemma_edge_source_on_line(face, i, step);
}

/// A cell reached by walking a border line lies on that line and on no other,
/// and not on the twisted face.
proof fn lemma_on_line(face: Face, i: int, step: int)
    requires
        0 <= i < 4,
        0 <= step < 3,
    ensures
        border(face)[i].cell(step).valid(),
        border(face)[i].cell(step).face != face,
        border_line_of(face, border(face)[i].cell(step)) == i,
        border(face)[i].step_of(border(face)[i].cell(step)) == step,
{
    lemma_border_shape(face);
    let lines = border(face);
    let cell = lines[i].cell(step);
    lemma_line_walk(lines[i], step);
    assert(lines[0].face != lines[1].face && lines[0].face != lines[2].face && lines[0].face
        != lines[3].face && lines[1].face != lines[2].face && lines[1].face != lines[3].face
        && lines[2].face != lines[3].face);
}

/// A clockwise twist brings to every cell the facelet that stood at the
/// cell's source.
pub proof fn lemma_twisted_cell(s: Seq<i32>, face: Face, cell: Cell)
    requires
        s.len() == 54,
        cell.valid(),
    ensures
        twist_source(face, cell).valid(),
        twisted(s, face)[cell.slot()] == s[twist_source(face, cell).slot()],
{
    lemma_border_shape(face);
    lemma_twist_source(face, cell);
    lemma_slot_of(cell);
    let rotated = face_rotated(s, face);
    let mid = edge_source(face, cell);
    if cell.face == face {
        assert(mid == cell) by {
            reveal(edge_source);
        }
    } else {
        assert(mid == twist_source(face, cell));
        assert(mid.face != face) by {
            let i = border_line_of(face, cell);
            if i < 4 {
                lemma_line_holds(border(face)[i], cell);
                lemma_on_line(face, line_before(i), border(face)[i].step_of(cell));
            }
        }
    }
    lemma_slot_of(mid);
    assert(twisted(s, face)[cell.slot()] == rotated[mid.slot()]);
    assert(rotated[mid.slot()] == s[face_source(face, mid).slot()]);
}

/// Order four: four clockwise twists of the same face bring every facelet
/// back to where it stood.
pub proof fn lemma_four_twists_restore(s: Seq<i32>, face: Face)
    requires
        s.len() == 54,
    ensures
        twisted_times(s, face, 4) == s,
{
    reveal_with_fuel(twisted_times, 5);
    let one = twisted(s, face);
    let two = twisted(one, face);
    let three = twisted(two, face);
    let four = twisted(three, face);
    assert(twisted_times(s, face, 4) == four);
    assert forall|k: int| 0 <= k < 54 implies four[k] == s[k] by {
        let cell = Cell::at(k);
        lemma_cell_at(k);
        lemma_slot_of(cell);
        lemma_source_order_four(face, cell);
        let a = twist_source(face, cell);
        let b = twist_source(face, a);
        let c = twist_source(face, b);
        lemma_twisted_cell(three, face, cell);
        lemma_twisted_cell(two, face, a);
        lemma_twisted_cell(one, face, b);
        lemma_twisted_cell(s, face, c);
    }
    assert(four =~= s);
}

/// Inverse: a clockwise twist followed by a counter-clockwise twist of the
/// same face leaves every facelet where it stood, and so does a
/// counter-clockwise twist followed by a clockwise one.
pub proof fn lemma_opposite_turns_cancel(s: Seq<i32>, face: Face)
    requires
        s.len() == 54,
    ensures
        turned(turned(s, face, Direction::Clockwise), face, Direction::CounterClockwise) == s,
        turned(turned(s, face, Direction::CounterClockwise), face, Direction::Clockwise) == s,
{
    reveal_with_fuel(twisted_times, 5);
    lemma_four_twists_restore(s, face);
}

/// Face isolation: a twist of a face, in either direction, changes no facelet
/// of the face opposite to it.
pub proof fn lemma_opposite_face_kept(s: Seq<i32>, face: Face, direction: Direction, cell: Cell)
    requires
        s.len() == 54,
        cell.valid(),
        cell.face == face.opposite(),
    ensures
        twisted(s, face)[cell.slot()] == s[cell.slot()],
        turned(s, face, direction)[cell.slot()] == s[cell.slot()],
{
    reveal_with_fuel(twisted_times, 4);
    lemma_border_shape(face);
    lemma_twist_source(face, cell);
    let one = twisted(s, face);
    let two = twisted(one, face);
    lemma_twisted_cell(s, face, cell);
    lemma_twisted_cell(one, face, cell);
    lemma_twisted_cell(two, face, cell);
}

/// A cell that a twist of a face can reach: one of the face itself, or one
/// of the four border lines around it.
pub open spec fn in_reach(face: Face, cell: Cell) -> bool {
    cell.face == face || border_line_of(face, cell) < 4
}

/// Interior invariance: a twist of a face, in either direction, changes no
/// facelet but those of the face itself and of the four border lines around
/// it.
pub proof fn lemma_out_of_reach_kept(s: Seq<i32>, face: Face, direction: Direction, cell: Cell)
    requires
        s.len() == 54,
        cell.valid(),
        !in_reach(face, cell),
    ensures
        face_rotated(s, face)[cell.slot()] == s[cell.slot()],
        edges_cycled(s, face)[cell.slot()] == s[cell.slot()],
        twisted(s, face)[cell.slot()] == s[cell.slot()],
        turned(s, face, direction)[cell.slot()] == s[cell.slot()],
{
    reveal_with_fuel(twisted_times, 4);
    lemma_twist_source(face, cell);
    lemma_slot_of(cell);
    assert(edge_source(face, cell) == cell) by {
        reveal(edge_source);
    }
    let one = twisted(s, face);
    let two = twisted(one, face);
    lemma_twisted_cell(s, face, cell);
    lemma_twisted_cell(one, face, cell);
    lemma_twisted_cell(two, face, cell);
}

/// The two halves of a twist keep to their own cells: turning the face's own
/// grid changes nothing off that face, and cycling the border lines changes
/// nothing on it.
pub proof fn lemma_halves_apart(s: Seq<i32>, face: Face, cell: Cell)
    requires
        s.len() == 54,
        cell.valid(),
    ensures
        cell.face != face ==> face_rotated(s, face)[cell.slot()] == s[cell.slot()],
        cell.face == face ==> edges_cycled(s, face)[cell.slot()] == s[cell.slot()],
{
    lemma_slot_of(cell);
    lemma_border_shape(face);
    if cell.face == face {
        assert(edge_source(face, cell) == cell) by {
            reveal(edge_source);
        }
    }
}

/// Under one twist no two cells have the same source.
proof fn lemma_sources_differ(face: Face, a: Cell, b: Cell)
    requires
        a.valid(),
        b.valid(),
        twist_source(face, a) == twist_source(face, b),
    ensures
        a == b,
{
    lemma_source_order_four(face, a);
    lemma_source_order_four(face, b);
}

/// Facelet conservation: a clockwise twist only moves facelets. Every colour
/// is on the cube as often after the twist as before.
pub proof fn lemma_twist_conserves(s: Seq<i32>, face: Face)
    requires
        s.len() == 54,
    ensures
        twisted(s, face).to_multiset() == s.to_multiset(),
{
    let t = twisted(s, face);
    let source = |k: int| twist_source(face, Cell::at(k)).slot();
    assert forall|k: int| 0 <= k < 54 implies 0 <= #[trigger] source(k) < 54 && t[k] == s[source(
        k,
    )] by {
        let cell = Cell::at(k);
        lemma_cell_at(k);
        lemma_slot_of(cell);
        lemma_twisted_cell(s, face, cell);
        lemma_slot_of(twist_source(face, cell));
    }
    assert forall|a: int, b: int| 0 <= a < b < 54 implies #[trigger] source(a) != #[trigger] source(
        b,
    ) by {
        let from_a = twist_source(face, Cell::at(a));
        let from_b = twist_source(face, Cell::at(b));
        lemma_cell_at(a);
        lemma_cell_at(b);
        lemma_twist_source(face, Cell::at(a));
        lemma_twist_source(face, Cell::at(b));
        lemma_slot_of(from_a);
        lemma_slot_of(from_b);
        if source(a) == source(b) {
            assert(from_a == from_b);
            lemma_sources_differ(face, Cell::at(a), Cell::at(b));
        }
    }
    lemma_rearranged_multiset(s, t, source);
}

/// Facelet conservation for the first half of a twist: turning the grid of
/// a face only moves facelets.
pub proof fn lemma_face_rotation_conserves(s: Seq<i32>, face: Face)
    requires
        s.len() == 54,
    ensures
        face_rotated(s, face).to_multiset() == s.to_multiset(),
{
    let t = face_rotated(s, face);
    let source = |k: int| face_source(face, Cell::at(k)).slot();
    assert forall|k: int| 0 <= k < 54 implies 0 <= #[trigger] source(k) < 54 && t[k] == s[source(
        k,
    )] by {
        lemma_cell_at(k);
        lemma_slot_of(face_source(face, Cell::at(k)));
    }
    assert forall|a: int, b: int| 0 <= a < b < 54 implies #[trigger] source(a) != #[trigger] source(
        b,
    ) by {
        lemma_cell_at(a);
        lemma_cell_at(b);
        lemma_slot_of(face_source(face, Cell::at(a)));
        lemma_slot_of(face_source(face, Cell::at(b)));
    }
    lemma_rearranged_multiset(s, t, source);
}

/// Facelet conservation for the second half of a twist: cycling the border
/// lines around a face only moves facelets.
pub proof fn lemma_edge_cycle_conserves(s: Seq<i32>, face: Face)
    requires
        s.len() == 54,
    ensures
        edges_cycled(s, face).to_multiset() == s.to_multiset(),
{
    let t = edges_cycled(s, face);
    let source = |k: int| edge_source(face, Cell::at(k)).slot();
    assert forall|k: int| 0 <= k < 54 implies 0 <= #[trigger] source(k) < 54 && t[k] == s[source(
        k,
    )] by {
        lemma_cell_at(k);
        lemma_edge_source(face, Cell::at(k));
        lemma_slot_of(edge_source(face, Cell::at(k)));
    }
    assert forall|a: int, b: int| 0 <= a < b < 54 implies #[trigger] source(a) != #[trigger] source(
        b,
    ) by {
        let from_a = edge_source(face, Cell::at(a));
        let from_b = edge_source(face, Cell::at(b));
        lemma_cell_at(a);
        lemma_cell_at(b);
        lemma_edge_source(face, Cell::at(a));
        lemma_edge_source(face, Cell::at(b));
        lemma_slot_of(from_a);
        lemma_slot_of(from_b);
        if source(a) == source(b) {
            assert(from_a == from_b);
            if Cell::at(a).face != face && Cell::at(b).face != face {
                lemma_sources_differ(face, Cell::at(a), Cell::at(b));
            }
        }
    }
    lemma_rearranged_multiset(s, t, source);
}

/// The cycle of the border lines leaves the cells of the twisted face alone
/// and gives every other cell a source off that face, where the whole twist
/// has it.
proof fn lemma_edge_source(face: Face, cell: Cell)
    requires
        cell.valid(),
    ensures
        edge_source(face, cell).valid(),
        cell.face == face ==> edge_source(face, cell) == cell,
        cell.face != face ==> edge_source(face, cell) == twist_source(face, cell) && edge_source(
            face,
            cell,
        ).face != face,
{
    lemma_border_shape(face);
    lemma_twist_source(face, cell);
    if cell.face == face {
        assert(edge_source(face, cell) == cell) by {
            reveal(edge_source);
        }
    } else {
        let i = border_line_of(face, cell);
        if i < 4 {
            lemma_line_holds(border(face)[i], cell);
            lemma_on_line(face, line_before(i), border(face)[i].step_of(cell));
        }
    }
}

/// Facelet conservation over repeated twists of one face.
pub proof fn lemma_twists_conserve(s: Seq<i32>, face: Face, n: nat)
    requires
        s.len() == 54,
    ensures
        twisted_times(s, face, n).len() == 54,
        twisted_times(s, face, n).to_multiset() == s.to_multiset(),
    decreases n,
{
    if n > 0 {
        lemma_twists_conserve(s, face, (n - 1) as nat);
        lemma_twist_conserves(twisted_times(s, face, (n - 1) as nat), face);
    }
}

/// Facelet conservation for a twist in either direction.
pub proof fn lemma_turn_conserves(s: Seq<i32>, face: Face, direction: Direction)
    requires
        s.len() == 54,
    ensures
        turned(s, face, direction).len() == 54,
        turned(s, face, direction).to_multiset() == s.to_multiset(),
{
    lemma_twists_conserve(s, face, direction.quarter_turns_spec());
}

/// Facelet conservation over any sequence of twists: however many faces are
/// twisted, in whatever order and direction, every colour is on the cube as
/// often afterwards as before.
pub proof fn lemma_any_twists_conserve(s: Seq<i32>, twists: Seq<(Face, Direction)>)
    requires
        s.len() == 54,
    ensures
        turned_along(s, twists).len() == 54,
        turned_along(s, twists).to_multiset() == s.to_multiset(),
    decreases twists.len(),
{
    if twists.len() > 0 {
        lemma_any_twists_conserve(s, twists.drop_last());
        lemma_turn_conserves(
            turned_along(s, twists.drop_last()),
            twists.last().0,
            twists.last().1,
        );
    }
}

/// Facelet conservation over any sequence of clockwise twists.
pub proof fn lemma_sequence_conserves(s: Seq<i32>, faces: Seq<Face>)
    requires
        s.len() == 54,
    ensures
        twisted_along(s, faces).len() == 54,
        twisted_along(s, faces).to_multiset() == s.to_multiset(),
    decreases faces.len(),
{
    if faces.len() > 0 {
        lemma_sequence_conserves(s, faces.drop_last());
        lemma_twist_conserves(twisted_along(s, faces.drop_last()), faces.last());
    }
}

} // verus!
