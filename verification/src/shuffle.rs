//! Scrambling a cube with random clockwise twists.

use vstd::prelude::*;
use rand::Rng;
use crate::cube::Cube;
use crate::face::Face;
use crate::laws::lemma_twist_conserves;
use crate::twist::twisted_along;

verus! {

/// The random number generator of the `rand` crate that belongs to the
/// running thread. Nothing is known of what is inside.
#[verifier::external_type_specification]
#[verifier::external_body]
pub struct ExThreadRng(rand::rngs::ThreadRng);

/// `rand::thread_rng` hands out the generator of the running thread. Nothing
/// is claimed of it. (It gives up only where the operating system cannot seed
/// it.)
pub assume_specification[ rand::thread_rng ]() -> (rng: rand::rngs::ThreadRng)
;

/// `Rng::gen_range` on an inclusive range of `i32`: some number of the range.
/// Which one is left open. An empty range, on which `gen_range` gives up, is
/// kept out.
#[verifier::external_body]
fn random_in_range(rng: &mut rand::rngs::ThreadRng, low: i32, high: i32) -> (number: i32)
    requires
        low <= high,
    ensures
        low <= number <= high,
{
    rng.gen_range(low..=high)
}

/// The face that a number of a scramble stands for: 0 Up, 1 Down, 2 Front,
/// 3 Back, 4 Left, 5 Right. Other numbers stand for none.
pub open spec fn face_of_index(index: int) -> Option<Face> {
    if index == 0 {
        Some(Face::Up)
    } else if index == 1 {
        Some(Face::Down)
    } else if index == 2 {
        Some(Face::Front)
    } else if index == 3 {
        Some(Face::Back)
    } else if index == 4 {
        Some(Face::Left)
    } else if index == 5 {
        Some(Face::Right)
    } else {
        None
    }
}

/// The face that a number of a scramble stands for, if any.
pub fn face_from_index(index: i32) -> (face: Option<Face>)
    ensures
        face == face_of_index(index as int),
{
    match index {
        0 => Some(Face::Up),
        1 => Some(Face::Down),
        2 => Some(Face::Front),
        3 => Some(Face::Back),
        4 => Some(Face::Left),
        5 => Some(Face::Right),
        _ => None,
    }
}

/// The faces that a sequence of numbers stands for, in order; numbers that
/// stand for no face are passed over.
pub open spec fn shuffle_faces(actions: Seq<i32>) -> Seq<Face>
    decreases actions.len(),
{
    if actions.len() == 0 {
        Seq::empty()
    } else {
        let before = shuffle_faces(actions.drop_last());
        match face_of_index(actions.last() as int) {
            Some(face) => before.push(face),
            None => before,
        }
    }
}

/// Twenty random numbers from 0 to 5, each standing for a face to twist.
pub fn generate_random_array() -> (array: [i32; 20])
    ensures
        forall|i: int| 0 <= i < 20 ==> 0 <= #[trigger] array[i] <= 5,
{
    let mut rng = rand::thread_rng();
    let mut array: [i32; 20] = [0;20];
    let mut i: usize = 0;
    while i < array.len()
        invariant
            i <= 20,
            forall|k: int| 0 <= k < i ==> 0 <= #[trigger] array[k] <= 5,
        decreases 20 - i,
    {
        array[i] = random_in_range(&mut rng, 0, 5);
        i += 1;
    }
    array
}

impl Cube {
    /// Twists clockwise, one after another, the faces that the numbers stand
    /// for. Numbers that stand for no face are passed over.
    pub fn apply_shuffle(&mut self, actions: &[i32])
        ensures
            final(self)@ == twisted_along(old(self)@, shuffle_faces(actions@)),
            final(self)@.to_multiset() == old(self)@.to_multiset(),
    {
        let mut i: usize = 0;
        proof {
            self.lemma_facelet_count();
            assert(actions@.take(0) =~= Seq::<i32>::empty());
        }
        while i < actions.len()
            invariant
                i <= actions.len(),
                self@.len() == 54,
                self@ == twisted_along(old(self)@, shuffle_faces(actions@.take(i as int))),
                self@.to_multiset() == old(self)@.to_multiset(),
            decreases actions.len() - i,
        {
            let ghost before = self@;
            proof {
                assert(actions@.take(i + 1).drop_last() =~= actions@.take(i as int));
                assert(actions@.take(i + 1).last() == actions@[i as int]);
            }
            match face_from_index(actions[i]) {
                Some(face) => {
                    self.rotate_face_clockwise(face);
                    proof {
                        let faces = shuffle_faces(actions@.take(i as int));
                        assert(faces.push(face).drop_last() =~= faces);
                        lemma_twist_conserves(before, face);
                    }
                },
                None => {},
            }
            i += 1;
        }
        proof {
            assert(actions@.take(actions@.len() as int) =~= actions@);
        }
    }

    /// Scrambles the cube with twenty random clockwise twists, and tells
    /// which numbers were drawn for them.
    pub fn shuffle(&mut self) -> (actions: [i32; 20])
        ensures
            forall|i: int| 0 <= i < 20 ==> 0 <= #[trigger] actions[i] <= 5,
            final(self)@ == twisted_along(old(self)@, shuffle_faces(actions@)),
            final(self)@.to_multiset() == old(self)@.to_multiset(),
    {
        let actions = generate_random_array();
        self.apply_shuffle(&actions);
        actions
    }
}

} // verus!
