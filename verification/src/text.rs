//! Face and direction names, as a person types them.

use vstd::prelude::*;
use vstd::string::StrSliceExecFns;
use crate::face::{Direction, Face};

verus! {

/// Two texts hold the same characters.
pub fn same_text(a: &str, b: &str) -> (same: bool)
    ensures
        same == (a@ == b@),
{
    let length = a.unicode_len();
    if length != b.unicode_len() {
        return false;
    }
    let mut i: usize = 0;
    while i < length
        invariant
            i <= length,
            length == a@.len(),
            length == b@.len(),
            forall|k: int| 0 <= k < i ==> a@[k] == b@[k],
        decreases length - i,
    {
        if a.get_char(i) != b.get_char(i) {
            return false;
        }
        i += 1;
    }
    assert(a@ =~= b@);
    true
}

/// The lower-case form of a text, as `str::to_lowercase` of the standard
/// library gives it.
pub uninterp spec fn lowercase_of(text: Seq<char>) -> Seq<char>;

/// `str::to_lowercase`: the lower-case form of the text. What that form is,
/// character by character, is left to the standard library; the result has
/// the name `lowercase_of`.
#[verifier::external_body]
fn to_lowercase(text: &str) -> (lowered: String)
    ensures
        lowered@ == lowercase_of(text@),
{
    text.to_lowercase()
}

/// The face that a lower-case name stands for: `up`, `left`, `front`,
/// `right`, `back` or `down`. Any other text stands for none.
pub open spec fn face_of_name(name: Seq<char>) -> Option<Face> {
    if name == "up"@ {
        Some(Face::Up)
    } else if name == "left"@ {
        Some(Face::Left)
    } else if name == "front"@ {
        Some(Face::Front)
    } else if name == "right"@ {
        Some(Face::Right)
    } else if name == "back"@ {
        Some(Face::Back)
    } else if name == "down"@ {
        Some(Face::Down)
    } else {
        None
    }
}

/// The face that a lower-case name stands for, if any.
pub fn face_from_name(name: &str) -> (face: Option<Face>)
    ensures
        face == face_of_name(name@),
{
    if same_text(name, "up") {
        Some(Face::Up)
    } else if same_text(name, "left") {
        Some(Face::Left)
    } else if same_text(name, "front") {
        Some(Face::Front)
    } else if same_text(name, "right") {
        Some(Face::Right)
    } else if same_text(name, "back") {
        Some(Face::Back)
    } else if same_text(name, "down") {
        Some(Face::Down)
    } else {
        None
    }
}

/// The face that a name stands for, whatever the case of its letters.
pub fn match_face(input: &str) -> (face: Option<Face>)
    ensures
        face == face_of_name(lowercase_of(input@)),
{
    let lowered = to_lowercase(input);
    face_from_name(lowered.as_str())
}

/// The direction that a letter stands for: `r` clockwise, `l`
/// counter-clockwise. Any other character stands for none.
pub open spec fn direction_of_letter(letter: char) -> Option<Direction> {
    if letter == 'r' {
        Some(Direction::Clockwise)
    } else if letter == 'l' {
        Some(Direction::CounterClockwise)
    } else {
        None
    }
}

/// The direction that a letter stands for, if any.
pub fn match_direction(letter: char) -> (direction: Option<Direction>)
    ensures
        direction == direction_of_letter(letter),
{
    if letter == 'r' {
        Some(Direction::Clockwise)
    } else if letter == 'l' {
        Some(Direction::CounterClockwise)
    } else {
        None
    }
}

} // verus!
