use rubiks_cube::cube::Cube;
use rubiks_cube::face::{Direction, Face};
use rubiks_cube::layout::border_lines;

const EVERY_FACE: [Face; 6] =
    [Face::Up, Face::Down, Face::Front, Face::Back, Face::Left, Face::Right];

fn opposite(face: Face) -> Face {
    match face {
        Face::Up => Face::Down,
        Face::Down => Face::Up,
        Face::Front => Face::Back,
        Face::Back => Face::Front,
        Face::Left => Face::Right,
        Face::Right => Face::Left,
    }
}

fn sorted(mut values: Vec<i32>) -> Vec<i32> {
    values.sort();
    values
}

fn scrambled() -> Cube {
    let mut cube = Cube::numbered();
    cube.rotate_face_clockwise(Face::Left);
    cube.rotate_face_clockwise(Face::Up);
    cube.rotate_face(Face::Back, Direction::CounterClockwise);
    cube.rotate_face_clockwise(Face::Right);
    cube.rotate_face_clockwise(Face::Down);
    cube.rotate_face(Face::Front, Direction::CounterClockwise);
    cube
}

#[test]
fn four_clockwise_twists_restore_the_solved_cube() {
    for face in EVERY_FACE {
        let mut cube = Cube::new();
        for _ in 0..4 {
            cube.rotate_face_clockwise(face);
        }
        assert_eq!(cube, Cube::new());
        assert_eq!(cube.facelets(), Cube::new().facelets());
    }
}

#[test]
fn four_clockwise_twists_restore_any_cube() {
    for face in EVERY_FACE {
        let mut cube = Cube::numbered();
        for _ in 0..4 {
            cube.rotate_face_clockwise(face);
        }
        assert_eq!(cube, Cube::numbered());
        let mut mixed = scrambled();
        for _ in 0..4 {
            mixed.rotate_face(face, Direction::Clockwise);
        }
        assert_eq!(mixed, scrambled());
    }
}

#[test]
fn fewer_than_four_twists_do_not_restore() {
    for face in EVERY_FACE {
        let mut cube = Cube::numbered();
        for _ in 0..3 {
            cube.rotate_face_clockwise(face);
            assert_ne!(cube, Cube::numbered());
        }
    }
}

#[test]
fn counter_clockwise_undoes_clockwise() {
    for face in EVERY_FACE {
        let mut cube = Cube::numbered();
        cube.rotate_face(face, Direction::Clockwise);
        cube.rotate_face(face, Direction::CounterClockwise);
        assert_eq!(cube, Cube::numbered());
        let mut mixed = scrambled();
        mixed.rotate_face(face, Direction::Clockwise);
        mixed.rotate_face(face, Direction::CounterClockwise);
        assert_eq!(mixed, scrambled());
    }
}

#[test]
fn clockwise_undoes_counter_clockwise() {
    for face in EVERY_FACE {
        let mut cube = scrambled();
        cube.rotate_face(face, Direction::CounterClockwise);
        cube.rotate_face(face, Direction::Clockwise);
        assert_eq!(cube, scrambled());
    }
}

#[test]
fn opposite_face_is_never_touched() {
    for face in EVERY_FACE {
        for direction in [Direction::Clockwise, Direction::CounterClockwise] {
            let before = scrambled();
            let mut cube = scrambled();
            cube.rotate_face(face, direction);
            assert_eq!(cube.face(opposite(face)), before.face(opposite(face)));
        }
    }
}

#[test]
fn front_twist_leaves_back_alone() {
    let mut cube = Cube::numbered();
    cube.rotate_face_clockwise(Face::Front);
    assert_eq!(*cube.face(Face::Back), [[36, 37, 38], [39, 40, 41], [42, 43, 44]]);
}

#[test]
fn only_the_face_and_its_border_change() {
    for face in EVERY_FACE {
        let lines = border_lines(face);
        for direction in [Direction::Clockwise, Direction::CounterClockwise] {
            let before = scrambled();
            let mut cube = scrambled();
            cube.rotate_face(face, direction);
            for other in EVERY_FACE {
                for row in 0..3 {
                    for col in 0..3 {
                        let on_border = lines.iter().any(|line| {
                            line.face == other
                                && if line.is_row { line.index == row } else { line.index == col }
                        });
                        if other != face && !on_border {
                            assert_eq!(
                                cube.facelet(other, row, col),
                                before.facelet(other, row, col)
                            );
                        }
                    }
                }
            }
        }
    }
}

#[test]
fn centers_never_move() {
    let before = scrambled();
    for face in EVERY_FACE {
        let mut cube = scrambled();
        cube.rotate_face_clockwise(face);
        for other in EVERY_FACE {
            assert_eq!(cube.facelet(other, 1, 1), before.facelet(other, 1, 1));
        }
    }
}

#[test]
fn twenty_cells_move_under_each_twist() {
    for face in EVERY_FACE {
        let mut cube = Cube::numbered();
        cube.rotate_face_clockwise(face);
        let moved = cube
            .facelets()
            .iter()
            .enumerate()
            .filter(|(place, value)| **value != *place as i32)
            .count();
        assert_eq!(moved, 20);
    }
}

#[test]
fn turning_a_grid_keeps_the_rest() {
    let before = Cube::numbered();
    let mut cube = Cube::numbered();
    cube.rotate_left_face();
    for other in [Face::Up, Face::Down, Face::Front, Face::Back, Face::Right] {
        assert_eq!(cube.face(other), before.face(other));
    }
    assert_eq!(*cube.face(Face::Left), [[15, 12, 9], [16, 13, 10], [17, 14, 11]]);
}

#[test]
fn cycling_the_border_keeps_the_face_itself() {
    for face in EVERY_FACE {
        let before = Cube::numbered();
        let mut cube = Cube::numbered();
        cube.rotate_adjacent_edges(face);
        assert_eq!(cube.face(face), before.face(face));
        assert_eq!(cube.face(opposite(face)), before.face(opposite(face)));
        assert_eq!(sorted(cube.facelets()), sorted(before.facelets()));
    }
}

#[test]
fn halves_of_a_twist_can_be_swapped() {
    let mut one = scrambled();
    one.rotate_right_face();
    one.rotate_adjacent_edges(Face::Right);
    let mut other = scrambled();
    other.rotate_adjacent_edges(Face::Right);
    other.rotate_right_face();
    assert_eq!(one, other);
    let mut whole = scrambled();
    whole.rotate_face_clockwise(Face::Right);
    assert_eq!(one, whole);
}

#[test]
fn twists_keep_every_facelet() {
    let mut cube = Cube::numbered();
    let mut solved = Cube::new();
    for round in 0..5 {
        for face in EVERY_FACE {
            let direction = if round % 2 == 0 {
                Direction::Clockwise
            } else {
                Direction::CounterClockwise
            };
            cube.rotate_face(face, direction);
            solved.rotate_face(face, direction);
            assert_eq!(sorted(cube.facelets()), (0..54).collect::<Vec<i32>>());
            assert_eq!(sorted(solved.facelets()), sorted(Cube::new().facelets()));
        }
    }
    let colors = solved.facelets();
    for color in 1..=6 {
        assert_eq!(colors.iter().filter(|value| **value == color).count(), 9);
    }
}

#[test]
fn border_lines_lie_on_the_four_neighbours() {
    for face in EVERY_FACE {
        let lines = border_lines(face);
        for (i, line) in lines.iter().enumerate() {
            assert!(line.index == 0 || line.index == 2);
            assert_ne!(line.face, face);
            assert_ne!(line.face, opposite(face));
            for later in lines.iter().skip(i + 1) {
                assert_ne!(line.face, later.face);
            }
        }
    }
}
