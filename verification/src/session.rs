//! A dialogue that twists a cube: one line names a face, the next a direction.
//!
//! Reading the lines and printing the answers is left to the caller. What a
//! line means, and what is to happen next, is decided here.

use vstd::prelude::*;
use vstd::string::StrSliceExecFns;
use crate::cube::Cube;
use crate::face::{Direction, Face};
use crate::text::{direction_of_letter, face_of_name, lowercase_of, match_direction, match_face};
use crate::twist::turned;

verus! {

/// What the dialogue waits for.
#[derive(Clone, Copy, Debug, PartialEq, Eq, Structural)]
pub enum Prompt {
    /// The name of a face, or the word to leave.
    Face,
    /// The direction in which to twist the face that was named.
    Direction(Face),
}

/// What a line led to.
#[derive(Clone, Copy, Debug, PartialEq, Eq, Structural)]
pub enum Reply {
    /// The dialogue is over.
    Quit,
    /// A face was named; its direction is asked for next.
    AskDirection(Face),
    /// The line names no face.
    UnknownFace,
    /// The face was twisted in the direction.
    Turned(Face, Direction),
    /// The line names no direction; the cube is as it was.
    UnknownDirection,
}

/// A text without the white space at its two ends, as `str::trim` of the
/// standard library gives it.
pub uninterp spec fn trimmed(text: Seq<char>) -> Seq<char>;

/// `str::trim`: the text without leading and trailing white space. Which
/// characters count as white space is left to the standard library; the
/// result has the name `trimmed`.
#[verifier::external_body]
fn trim(text: &str) -> (inner: &str)
    ensures
        inner@ == trimmed(text@),
{
    text.trim()
}

/// The word that ends the dialogue: the letter `q`, small or capital.
pub open spec fn is_quit_word(token: Seq<char>) -> bool {
    token.len() == 1 && (token[0] == 'q' || token[0] == 'Q')
}

/// The first character of a text, or a blank where the text is empty.
pub open spec fn first_letter(token: Seq<char>) -> char {
    if token.len() > 0 {
        token[0]
    } else {
        ' '
    }
}

/// The text is the word that ends the dialogue.
pub fn is_quit(token: &str) -> (quit: bool)
    ensures
        quit == is_quit_word(token@),
{
    if token.unicode_len() != 1 {
        return false;
    }
    let letter = token.get_char(0);
    letter == 'q' || letter == 'Q'
}

/// The direction that a text asks for: its first character decides.
pub fn direction_from_token(token: &str) -> (direction: Option<Direction>)
    ensures
        direction == direction_of_letter(first_letter(token@)),
{
    let letter = if token.unicode_len() > 0 {
        token.get_char(0)
    } else {
        ' '
    };
    match_direction(letter)
}

/// What follows from a text where a face is awaited, given the face that the
/// text was found to name.
pub open spec fn face_step(token: Seq<char>, named: Option<Face>) -> (Prompt, Reply) {
    if is_quit_word(token) {
        (Prompt::Face, Reply::Quit)
    } else {
        match named {
            Some(face) => (Prompt::Direction(face), Reply::AskDirection(face)),
            None => (Prompt::Face, Reply::UnknownFace),
        }
    }
}

/// What follows from a text where the direction for a face is awaited.
pub open spec fn direction_step(face: Face, token: Seq<char>) -> (Prompt, Reply) {
    match direction_of_letter(first_letter(token)) {
        Some(direction) => (Prompt::Face, Reply::Turned(face, direction)),
        None => (Prompt::Face, Reply::UnknownDirection),
    }
}

/// The facelets after a reply has been acted on: a twist where it says so,
/// and no change otherwise.
pub open spec fn after_reply(s: Seq<i32>, reply: Reply) -> Seq<i32> {
    match reply {
        Reply::Turned(face, direction) => turned(s, face, direction),
        _ => s,
    }
}

/// Decides on a text where a face is awaited. `named` is the face that the
/// text names, if any. The word to leave comes first: it ends the dialogue
/// whatever `named` holds.
pub fn on_face_token(token: &str, named: Option<Face>) -> (next: (Prompt, Reply))
    ensures
        next == face_step(token@, named),
{
    if is_quit(token) {
        (Prompt::Face, Reply::Quit)
    } else {
        match named {
            Some(face) => (Prompt::Direction(face), Reply::AskDirection(face)),
            None => (Prompt::Face, Reply::UnknownFace),
        }
    }
}

/// Decides on a text where the direction for a face is awaited, and twists
/// the face where the text names a direction. A face is awaited next in
/// either case.
pub fn on_direction_token(cube: &mut Cube, face: Face, token: &str) -> (next: (Prompt, Reply))
    ensures
        next == direction_step(face, token@),
        final(cube)@ == after_reply(old(cube)@, next.1),
        final(cube)@.to_multiset() == old(cube)@.to_multiset(),
{
    match direction_from_token(token) {
        Some(direction) => {
            cube.rotate_face(face, direction);
            (Prompt::Face, Reply::Turned(face, direction))
        },
        None => (Prompt::Face, Reply::UnknownDirection),
    }
}

/// Takes one line of the dialogue: strips the white space around it, decides
/// what it asks for, twists the cube where a direction was given, and says
/// what to wait for next.
pub fn respond(cube: &mut Cube, prompt: Prompt, line: &str) -> (next: (Prompt, Reply))
    ensures
        next == match prompt {
            Prompt::Face => face_step(
                trimmed(line@),
                face_of_name(lowercase_of(trimmed(line@))),
            ),
            Prompt::Direction(face) => direction_step(face, trimmed(line@)),
        },
        final(cube)@ == after_reply(old(cube)@, next.1),
        final(cube)@.to_multiset() == old(cube)@.to_multiset(),
{
    let token = trim(line);
    match prompt {
        Prompt::Face => {
            let named = match_face(token);
            on_face_token(token, named)
        },
        Prompt::Direction(face) => on_direction_token(cube, face, token),
    }
}

} // verus!
