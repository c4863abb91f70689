use rubiks_cube::cube::Cube;
use rubiks_cube::face::{Direction, Face};

const ALL_FACES: [Face; 6] =
    [Face::Up, Face::Down, Face::Front, Face::Back, Face::Left, Face::Right];

fn from_zero() -> Vec<i32> {
    (0..54).collect()
}

#[test]
fn new_cube_is_solved() {
    let cube = Cube::new();
    let mut expected = Vec::new();
    for color in 1..=6 {
        for _ in 0..9 {
            expected.push(color);
        }
    }
    assert_eq!(cube.facelets(), expected);
    assert_eq!(*cube.face(Face::Up), [[1, 1, 1], [1, 1, 1], [1, 1, 1]]);
    assert_eq!(*cube.face(Face::Left), [[2, 2, 2], [2, 2, 2], [2, 2, 2]]);
    assert_eq!(*cube.face(Face::Front), [[3, 3, 3], [3, 3, 3], [3, 3, 3]]);
    assert_eq!(*cube.face(Face::Right), [[4, 4, 4], [4, 4, 4], [4, 4, 4]]);
    assert_eq!(*cube.face(Face::Back), [[5, 5, 5], [5, 5, 5], [5, 5, 5]]);
    assert_eq!(*cube.face(Face::Down), [[6, 6, 6], [6, 6, 6], [6, 6, 6]]);
}

#[test]
fn solved_faces_carry_their_own_color() {
    let cube = Cube::new();
    for face in ALL_FACES {
        for row in 0..3 {
            for col in 0..3 {
                assert_eq!(cube.facelet(face, row, col), face.color());
            }
        }
    }
    assert_eq!(Face::Up.color(), 1);
    assert_eq!(Face::Left.color(), 2);
    assert_eq!(Face::Front.color(), 3);
    assert_eq!(Face::Right.color(), 4);
    assert_eq!(Face::Back.color(), 5);
    assert_eq!(Face::Down.color(), 6);
}

#[test]
fn numbered_cube_counts_its_cells() {
    let cube = Cube::numbered();
    assert_eq!(cube.facelets(), from_zero());
    assert_eq!(cube.facelet(Face::Up, 0, 0), 0);
    assert_eq!(cube.facelet(Face::Left, 1, 2), 14);
    assert_eq!(cube.facelet(Face::Front, 2, 0), 24);
    assert_eq!(cube.facelet(Face::Right, 0, 1), 28);
    assert_eq!(cube.facelet(Face::Back, 1, 1), 40);
    assert_eq!(cube.facelet(Face::Down, 2, 2), 53);
    assert_eq!(*cube.face(Face::Back), [[36, 37, 38], [39, 40, 41], [42, 43, 44]]);
}

#[test]
fn face_and_facelet_agree() {
    let mut cube = Cube::numbered();
    cube.rotate_face_clockwise(Face::Left);
    cube.rotate_face_clockwise(Face::Up);
    for face in ALL_FACES {
        let grid = *cube.face(face);
        for row in 0..3 {
            for col in 0..3 {
                assert_eq!(grid[row][col], cube.facelet(face, row, col));
            }
        }
    }
}

#[test]
fn rotate_up_face_turns_only_its_grid() {
    let mut cube = Cube::numbered();
    cube.rotate_up_face();
    assert_eq!(
        cube.facelets(),
        vec![
            6, 3, 0, 7, 4, 1, 8, 5, 2, 9, 10, 11, 12, 13, 14, 15, 16, 17, 18, 19, 20, 21,
            22, 23, 24, 25, 26, 27, 28, 29, 30, 31, 32, 33, 34, 35, 36, 37, 38, 39, 40, 41,
            42, 43, 44, 45, 46, 47, 48, 49, 50, 51, 52, 53
        ]
    );
    assert_eq!(*cube.face(Face::Up), [[6, 3, 0], [7, 4, 1], [8, 5, 2]]);
}

#[test]
fn rotate_left_face_turns_only_its_grid() {
    let mut cube = Cube::numbered();
    cube.rotate_left_face();
    assert_eq!(
        cube.facelets(),
        vec![
            0, 1, 2, 3, 4, 5, 6, 7, 8, 15, 12, 9, 16, 13, 10, 17, 14, 11, 18, 19, 20, 21,
            22, 23, 24, 25, 26, 27, 28, 29, 30, 31, 32, 33, 34, 35, 36, 37, 38, 39, 40, 41,
            42, 43, 44, 45, 46, 47, 48, 49, 50, 51, 52, 53
        ]
    );
    assert_eq!(*cube.face(Face::Left), [[15, 12, 9], [16, 13, 10], [17, 14, 11]]);
}

#[test]
fn rotate_front_face_turns_only_its_grid() {
    let mut cube = Cube::numbered();
    cube.rotate_front_face();
    assert_eq!(
        cube.facelets(),
        vec![
            0, 1, 2, 3, 4, 5, 6, 7, 8, 9, 10, 11, 12, 13, 14, 15, 16, 17, 24, 21, 18, 25,
            22, 19, 26, 23, 20, 27, 28, 29, 30, 31, 32, 33, 34, 35, 36, 37, 38, 39, 40, 41,
            42, 43, 44, 45, 46, 47, 48, 49, 50, 51, 52, 53
        ]
    );
    assert_eq!(*cube.face(Face::Front), [[24, 21, 18], [25, 22, 19], [26, 23, 20]]);
}

#[test]
fn rotate_right_face_turns_only_its_grid() {
    let mut cube = Cube::numbered();
    cube.rotate_right_face();
    assert_eq!(
        cube.facelets(),
        vec![
            0, 1, 2, 3, 4, 5, 6, 7, 8, 9, 10, 11, 12, 13, 14, 15, 16, 17, 18, 19, 20, 21,
            22, 23, 24, 25, 26, 33, 30, 27, 34, 31, 28, 35, 32, 29, 36, 37, 38, 39, 40, 41,
            42, 43, 44, 45, 46, 47, 48, 49, 50, 51, 52, 53
        ]
    );
    assert_eq!(*cube.face(Face::Right), [[33, 30, 27], [34, 31, 28], [35, 32, 29]]);
}

#[test]
fn rotate_back_face_turns_only_its_grid() {
    let mut cube = Cube::numbered();
    cube.rotate_back_face();
    assert_eq!(
        cube.facelets(),
        vec![
            0, 1, 2, 3, 4, 5, 6, 7, 8, 9, 10, 11, 12, 13, 14, 15, 16, 17, 18, 19, 20, 21,
            22, 23, 24, 25, 26, 27, 28, 29, 30, 31, 32, 33, 34, 35, 42, 39, 36, 43, 40, 37,
            44, 41, 38, 45, 46, 47, 48, 49, 50, 51, 52, 53
        ]
    );
    assert_eq!(*cube.face(Face::Back), [[42, 39, 36], [43, 40, 37], [44, 41, 38]]);
}

#[test]
fn rotate_down_face_turns_only_its_grid() {
    let mut cube = Cube::numbered();
    cube.rotate_down_face();
    assert_eq!(
        cube.facelets(),
        vec![
            0, 1, 2, 3, 4, 5, 6, 7, 8, 9, 10, 11, 12, 13, 14, 15, 16, 17, 18, 19, 20, 21,
            22, 23, 24, 25, 26, 27, 28, 29, 30, 31, 32, 33, 34, 35, 36, 37, 38, 39, 40, 41,
            42, 43, 44, 51, 48, 45, 52, 49, 46, 53, 50, 47
        ]
    );
    assert_eq!(*cube.face(Face::Down), [[51, 48, 45], [52, 49, 46], [53, 50, 47]]);
}

#[test]
fn rotate_adjacent_edges_around_front() {
    let mut cube = Cube::numbered();
    cube.rotate_adjacent_edges(Face::Front);
    assert_eq!(
        cube.facelets(),
        vec![
            0, 1, 2, 3, 4, 5, 17, 14, 11, 9, 10, 45, 12, 13, 46, 15, 16, 47, 18, 19, 20, 21,
            22, 23, 24, 25, 26, 8, 28, 29, 7, 31, 32, 6, 34, 35, 36, 37, 38, 39, 40, 41, 42,
            43, 44, 27, 30, 33, 48, 49, 50, 51, 52, 53
        ]
    );
}

#[test]
fn rotate_adjacent_edges_around_back() {
    let mut cube = Cube::numbered();
    cube.rotate_adjacent_edges(Face::Back);
    assert_eq!(
        cube.facelets(),
        vec![
            35, 32, 29, 3, 4, 5, 6, 7, 8, 0, 10, 11, 1, 13, 14, 2, 16, 17, 18, 19, 20, 21,
            22, 23, 24, 25, 26, 27, 28, 53, 30, 31, 52, 33, 34, 51, 36, 37, 38, 39, 40, 41,
            42, 43, 44, 45, 46, 47, 48, 49, 50, 9, 12, 15
        ]
    );
}

#[test]
fn rotate_adjacent_edges_around_left() {
    let mut cube = Cube::numbered();
    cube.rotate_adjacent_edges(Face::Left);
    assert_eq!(
        cube.facelets(),
        vec![
            44, 1, 2, 41, 4, 5, 38, 7, 8, 9, 10, 11, 12, 13, 14, 15, 16, 17, 0, 19, 20, 3,
            22, 23, 6, 25, 26, 27, 28, 29, 30, 31, 32, 33, 34, 35, 36, 37, 51, 39, 40, 48,
            42, 43, 45, 18, 46, 47, 21, 49, 50, 24, 52, 53
        ]
    );
}

#[test]
fn rotate_adjacent_edges_around_right() {
    let mut cube = Cube::numbered();
    cube.rotate_adjacent_edges(Face::Right);
    assert_eq!(
        cube.facelets(),
        vec![
            0, 1, 20, 3, 4, 23, 6, 7, 26, 9, 10, 11, 12, 13, 14, 15, 16, 17, 18, 19, 47, 21,
            22, 50, 24, 25, 53, 27, 28, 29, 30, 31, 32, 33, 34, 35, 8, 37, 38, 5, 40, 41, 2,
            43, 44, 45, 46, 42, 48, 49, 39, 51, 52, 36
        ]
    );
}

#[test]
fn rotate_adjacent_edges_around_up() {
    let mut cube = Cube::numbered();
    cube.rotate_adjacent_edges(Face::Up);
    assert_eq!(
        cube.facelets(),
        vec![
            0, 1, 2, 3, 4, 5, 6, 7, 8, 18, 19, 20, 12, 13, 14, 15, 16, 17, 27, 28, 29, 21,
            22, 23, 24, 25, 26, 36, 37, 38, 30, 31, 32, 33, 34, 35, 9, 10, 11, 39, 40, 41,
            42, 43, 44, 45, 46, 47, 48, 49, 50, 51, 52, 53
        ]
    );
}

#[test]
fn rotate_adjacent_edges_around_down() {
    let mut cube = Cube::numbered();
    cube.rotate_adjacent_edges(Face::Down);
    assert_eq!(
        cube.facelets(),
        vec![
            0, 1, 2, 3, 4, 5, 6, 7, 8, 9, 10, 11, 12, 13, 14, 24, 25, 26, 18, 19, 20, 21,
            22, 23, 33, 34, 35, 27, 28, 29, 30, 31, 32, 42, 43, 44, 36, 37, 38, 39, 40, 41,
            15, 16, 17, 45, 46, 47, 48, 49, 50, 51, 52, 53
        ]
    );
}

#[test]
fn clockwise_twist_of_front_moves_each_facelet() {
    let mut cube = Cube::numbered();
    cube.rotate_face_clockwise(Face::Front);
    assert_eq!(
        cube.facelets(),
        vec![
            0, 1, 2, 3, 4, 5, 17, 14, 11, 9, 10, 45, 12, 13, 46, 15, 16, 47, 24, 21, 18, 25,
            22, 19, 26, 23, 20, 8, 28, 29, 7, 31, 32, 6, 34, 35, 36, 37, 38, 39, 40, 41, 42,
            43, 44, 27, 30, 33, 48, 49, 50, 51, 52, 53
        ]
    );
    let mut other = Cube::numbered();
    other.rotate_face(Face::Front, Direction::Clockwise);
    assert_eq!(other, cube);
}

#[test]
fn clockwise_twist_of_back_moves_each_facelet() {
    let mut cube = Cube::numbered();
    cube.rotate_face_clockwise(Face::Back);
    assert_eq!(
        cube.facelets(),
        vec![
            35, 32, 29, 3, 4, 5, 6, 7, 8, 0, 10, 11, 1, 13, 14, 2, 16, 17, 18, 19, 20, 21,
            22, 23, 24, 25, 26, 27, 28, 53, 30, 31, 52, 33, 34, 51, 42, 39, 36, 43, 40, 37,
            44, 41, 38, 45, 46, 47, 48, 49, 50, 9, 12, 15
        ]
    );
    let mut other = Cube::numbered();
    other.rotate_face(Face::Back, Direction::Clockwise);
    assert_eq!(other, cube);
}

#[test]
fn clockwise_twist_of_left_moves_each_facelet() {
    let mut cube = Cube::numbered();
    cube.rotate_face_clockwise(Face::Left);
    assert_eq!(
        cube.facelets(),
        vec![
            44, 1, 2, 41, 4, 5, 38, 7, 8, 15, 12, 9, 16, 13, 10, 17, 14, 11, 0, 19, 20, 3,
            22, 23, 6, 25, 26, 27, 28, 29, 30, 31, 32, 33, 34, 35, 36, 37, 51, 39, 40, 48,
            42, 43, 45, 18, 46, 47, 21, 49, 50, 24, 52, 53
        ]
    );
    let mut other = Cube::numbered();
    other.rotate_face(Face::Left, Direction::Clockwise);
    assert_eq!(other, cube);
}

#[test]
fn clockwise_twist_of_right_moves_each_facelet() {
    let mut cube = Cube::numbered();
    cube.rotate_face_clockwise(Face::Right);
    assert_eq!(
        cube.facelets(),
        vec![
            0, 1, 20, 3, 4, 23, 6, 7, 26, 9, 10, 11, 12, 13, 14, 15, 16, 17, 18, 19, 47, 21,
            22, 50, 24, 25, 53, 33, 30, 27, 34, 31, 28, 35, 32, 29, 8, 37, 38, 5, 40, 41, 2,
            43, 44, 45, 46, 42, 48, 49, 39, 51, 52, 36
        ]
    );
    let mut other = Cube::numbered();
    other.rotate_face(Face::Right, Direction::Clockwise);
    assert_eq!(other, cube);
}

#[test]
fn clockwise_twist_of_up_moves_each_facelet() {
    let mut cube = Cube::numbered();
    cube.rotate_face_clockwise(Face::Up);
    assert_eq!(
        cube.facelets(),
        vec![
            6, 3, 0, 7, 4, 1, 8, 5, 2, 18, 19, 20, 12, 13, 14, 15, 16, 17, 27, 28, 29, 21,
            22, 23, 24, 25, 26, 36, 37, 38, 30, 31, 32, 33, 34, 35, 9, 10, 11, 39, 40, 41,
            42, 43, 44, 45, 46, 47, 48, 49, 50, 51, 52, 53
        ]
    );
    let mut other = Cube::numbered();
    other.rotate_face(Face::Up, Direction::Clockwise);
    assert_eq!(other, cube);
}

#[test]
fn clockwise_twist_of_down_moves_each_facelet() {
    let mut cube = Cube::numbered();
    cube.rotate_face_clockwise(Face::Down);
    assert_eq!(
        cube.facelets(),
        vec![
            0, 1, 2, 3, 4, 5, 6, 7, 8, 9, 10, 11, 12, 13, 14, 24, 25, 26, 18, 19, 20, 21,
            22, 23, 33, 34, 35, 27, 28, 29, 30, 31, 32, 42, 43, 44, 36, 37, 38, 39, 40, 41,
            15, 16, 17, 51, 48, 45, 52, 49, 46, 53, 50, 47
        ]
    );
    let mut other = Cube::numbered();
    other.rotate_face(Face::Down, Direction::Clockwise);
    assert_eq!(other, cube);
}

#[test]
fn counter_clockwise_twist_of_front_moves_each_facelet() {
    let mut cube = Cube::numbered();
    cube.rotate_face(Face::Front, Direction::CounterClockwise);
    assert_eq!(
        cube.facelets(),
        vec![
            0, 1, 2, 3, 4, 5, 33, 30, 27, 9, 10, 8, 12, 13, 7, 15, 16, 6, 20, 23, 26, 19,
            22, 25, 18, 21, 24, 45, 28, 29, 46, 31, 32, 47, 34, 35, 36, 37, 38, 39, 40, 41,
            42, 43, 44, 11, 14, 17, 48, 49, 50, 51, 52, 53
        ]
    );
    let mut thrice = Cube::numbered();
    for _ in 0..3 {
        thrice.rotate_face_clockwise(Face::Front);
    }
    assert_eq!(thrice, cube);
}

#[test]
fn counter_clockwise_twist_of_back_moves_each_facelet() {
    let mut cube = Cube::numbered();
    cube.rotate_face(Face::Back, Direction::CounterClockwise);
    assert_eq!(
        cube.facelets(),
        vec![
            9, 12, 15, 3, 4, 5, 6, 7, 8, 51, 10, 11, 52, 13, 14, 53, 16, 17, 18, 19, 20, 21,
            22, 23, 24, 25, 26, 27, 28, 2, 30, 31, 1, 33, 34, 0, 38, 41, 44, 37, 40, 43, 36,
            39, 42, 45, 46, 47, 48, 49, 50, 35, 32, 29
        ]
    );
    let mut thrice = Cube::numbered();
    for _ in 0..3 {
        thrice.rotate_face_clockwise(Face::Back);
    }
    assert_eq!(thrice, cube);
}

#[test]
fn counter_clockwise_twist_of_left_moves_each_facelet() {
    let mut cube = Cube::numbered();
    cube.rotate_face(Face::Left, Direction::CounterClockwise);
    assert_eq!(
        cube.facelets(),
        vec![
            18, 1, 2, 21, 4, 5, 24, 7, 8, 11, 14, 17, 10, 13, 16, 9, 12, 15, 45, 19, 20, 48,
            22, 23, 51, 25, 26, 27, 28, 29, 30, 31, 32, 33, 34, 35, 36, 37, 6, 39, 40, 3,
            42, 43, 0, 44, 46, 47, 41, 49, 50, 38, 52, 53
        ]
    );
    let mut thrice = Cube::numbered();
    for _ in 0..3 {
        thrice.rotate_face_clockwise(Face::Left);
    }
    assert_eq!(thrice, cube);
}

#[test]
fn counter_clockwise_twist_of_right_moves_each_facelet() {
    let mut cube = Cube::numbered();
    cube.rotate_face(Face::Right, Direction::CounterClockwise);
    assert_eq!(
        cube.facelets(),
        vec![
            0, 1, 42, 3, 4, 39, 6, 7, 36, 9, 10, 11, 12, 13, 14, 15, 16, 17, 18, 19, 2, 21,
            22, 5, 24, 25, 8, 29, 32, 35, 28, 31, 34, 27, 30, 33, 53, 37, 38, 50, 40, 41,
            47, 43, 44, 45, 46, 20, 48, 49, 23, 51, 52, 26
        ]
    );
    let mut thrice = Cube::numbered();
    for _ in 0..3 {
        thrice.rotate_face_clockwise(Face::Right);
    }
    assert_eq!(thrice, cube);
}

#[test]
fn counter_clockwise_twist_of_up_moves_each_facelet() {
    let mut cube = Cube::numbered();
    cube.rotate_face(Face::Up, Direction::CounterClockwise);
    assert_eq!(
        cube.facelets(),
        vec![
            2, 5, 8, 1, 4, 7, 0, 3, 6, 36, 37, 38, 12, 13, 14, 15, 16, 17, 9, 10, 11, 21,
            22, 23, 24, 25, 26, 18, 19, 20, 30, 31, 32, 33, 34, 35, 27, 28, 29, 39, 40, 41,
            42, 43, 44, 45, 46, 47, 48, 49, 50, 51, 52, 53
        ]
    );
    let mut thrice = Cube::numbered();
    for _ in 0..3 {
        thrice.rotate_face_clockwise(Face::Up);
    }
    assert_eq!(thrice, cube);
}

#[test]
fn counter_clockwise_twist_of_down_moves_each_facelet() {
    let mut cube = Cube::numbered();
    cube.rotate_face(Face::Down, Direction::CounterClockwise);
    assert_eq!(
        cube.facelets(),
        vec![
            0, 1, 2, 3, 4, 5, 6, 7, 8, 9, 10, 11, 12, 13, 14, 42, 43, 44, 18, 19, 20, 21,
            22, 23, 15, 16, 17, 27, 28, 29, 30, 31, 32, 24, 25, 26, 36, 37, 38, 39, 40, 41,
            33, 34, 35, 47, 50, 53, 46, 49, 52, 45, 48, 51
        ]
    );
    let mut thrice = Cube::numbered();
    for _ in 0..3 {
        thrice.rotate_face_clockwise(Face::Down);
    }
    assert_eq!(thrice, cube);
}

#[test]
fn front_twist_of_the_solved_cube() {
    let before = Cube::new();
    let mut cube = Cube::new();
    cube.rotate_face(Face::Front, Direction::Clockwise);
    assert_eq!(
        cube.facelets(),
        vec![
            1, 1, 1, 1, 1, 1, 2, 2, 2, 2, 2, 6, 2, 2, 6, 2, 2, 6, 3, 3, 3, 3, 3, 3, 3, 3, 3,
            1, 4, 4, 1, 4, 4, 1, 4, 4, 5, 5, 5, 5, 5, 5, 5, 5, 5, 4, 4, 4, 6, 6, 6, 6, 6, 6
        ]
    );
    assert_eq!(*cube.face(Face::Front), [[3, 3, 3], [3, 3, 3], [3, 3, 3]]);
    for i in 0..3 {
        assert_eq!(cube.facelet(Face::Up, 2, i), before.facelet(Face::Left, 2 - i, 2));
        assert_eq!(cube.facelet(Face::Down, 0, i), before.facelet(Face::Right, i, 0));
        assert_eq!(cube.facelet(Face::Left, i, 2), before.facelet(Face::Down, 0, i));
        assert_eq!(cube.facelet(Face::Right, i, 0), before.facelet(Face::Up, 2, 2 - i));
    }
    assert_eq!(*cube.face(Face::Up), [[1, 1, 1], [1, 1, 1], [2, 2, 2]]);
    assert_eq!(*cube.face(Face::Down), [[4, 4, 4], [6, 6, 6], [6, 6, 6]]);
    assert_eq!(*cube.face(Face::Left), [[2, 2, 6], [2, 2, 6], [2, 2, 6]]);
    assert_eq!(*cube.face(Face::Right), [[1, 4, 4], [1, 4, 4], [1, 4, 4]]);
    assert_eq!(*cube.face(Face::Back), [[5, 5, 5], [5, 5, 5], [5, 5, 5]]);
}

#[test]
fn front_twist_of_the_numbered_cube_line_by_line() {
    let before = Cube::numbered();
    let mut cube = Cube::numbered();
    cube.rotate_face(Face::Front, Direction::Clockwise);
    for i in 0..3 {
        for j in 0..3 {
            assert_eq!(cube.facelet(Face::Front, j, 2 - i), before.facelet(Face::Front, i, j));
        }
        assert_eq!(cube.facelet(Face::Up, 2, i), before.facelet(Face::Left, 2 - i, 2));
        assert_eq!(cube.facelet(Face::Down, 0, i), before.facelet(Face::Right, i, 0));
        assert_eq!(cube.facelet(Face::Left, i, 2), before.facelet(Face::Down, 0, i));
        assert_eq!(cube.facelet(Face::Right, i, 0), before.facelet(Face::Up, 2, 2 - i));
    }
}
