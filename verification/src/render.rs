//! The cube as coloured text for a terminal.

use vstd::prelude::*;
use vstd::string::StringExecFns;
use crate::cube::Cube;
use crate::face::Face;
use crate::layout::Cell;

verus! {

/// The escape sequence that sets the background for a colour: 1 white,
/// 2 yellow (standing in for orange), 3 green, 4 red, 5 blue, 6 bright
/// yellow. Any other number resets the colours.
pub open spec fn color_code_of(number: int) -> Seq<char> {
    if number == 1 {
        "\x1b[47m"@
    } else if number == 2 {
        "\x1b[43m"@
    } else if number == 3 {
        "\x1b[42m"@
    } else if number == 4 {
        "\x1b[41m"@
    } else if number == 5 {
        "\x1b[44m"@
    } else if number == 6 {
        "\x1b[103m"@
    } else {
        "\x1b[0m"@
    }
}

/// The escape sequence that sets the background for a colour.
pub fn color_code(number: i32) -> (code: &'static str)
    ensures
        code@ == color_code_of(number as int),
{
    match number {
        1 => "\x1b[47m",
        2 => "\x1b[43m",
        3 => "\x1b[42m",
        4 => "\x1b[41m",
        5 => "\x1b[44m",
        6 => "\x1b[103m",
        _ => "\x1b[0m",
    }
}

/// One decimal digit as text. Numbers past 9 are written as 9.
pub open spec fn digit_of(digit: int) -> Seq<char> {
    if digit <= 0 {
        "0"@
    } else if digit == 1 {
        "1"@
    } else if digit == 2 {
        "2"@
    } else if digit == 3 {
        "3"@
    } else if digit == 4 {
        "4"@
    } else if digit == 5 {
        "5"@
    } else if digit == 6 {
        "6"@
    } else if digit == 7 {
        "7"@
    } else if digit == 8 {
        "8"@
    } else {
        "9"@
    }
}

/// A natural number written in decimal digits, without leading zeros.
pub open spec fn digits_of(number: nat) -> Seq<char>
    decreases number,
{
    if number < 10 {
        digit_of(number as int)
    } else {
        digits_of(number / 10) + digit_of((number % 10) as int)
    }
}

/// A number written in decimal digits, with a minus sign in front where it
/// is negative.
pub open spec fn decimal_of(number: int) -> Seq<char> {
    if number < 0 {
        "-"@ + digits_of((-number) as nat)
    } else {
        digits_of(number as nat)
    }
}

/// One decimal digit as text.
fn digit(value: u32) -> (text: &'static str)
    requires
        value < 10,
    ensures
        text@ == digit_of(value as int),
{
    match value {
        0 => "0",
        1 => "1",
        2 => "2",
        3 => "3",
        4 => "4",
        5 => "5",
        6 => "6",
        7 => "7",
        8 => "8",
        _ => "9",
    }
}

/// Adds the decimal digits of a natural number to a text.
fn add_digits(text: &mut String, number: u32)
    ensures
        final(text)@ == old(text)@ + digits_of(number as nat),
    decreases number,
{
    if number < 10 {
        text.append(digit(number));
    } else {
        add_digits(text, number / 10);
        text.append(digit(number % 10));
        assert(text@ =~= old(text)@ + digits_of(number as nat));
    }
}

/// A number written in decimal digits.
pub fn decimal(number: i32) -> (text: String)
    ensures
        text@ == decimal_of(number as int),
{
    let mut text = String::new();
    if number < 0 {
        text.append("-");
        add_digits(&mut text, (-(number as i64)) as u32);
        assert(text@ =~= "-"@ + digits_of((-number) as nat));
    } else {
        add_digits(&mut text, number as u32);
        assert(text@ =~= digits_of(number as nat));
    }
    text
}

/// One facelet as text: its background, two blanks, its number, and the
/// reset of the colours.
pub open spec fn colored(number: i32) -> Seq<char> {
    color_code_of(number as int) + "  "@ + decimal_of(number as int) + "\x1b[0m"@
}

/// Three facelets of one row of a face as text, from the first column to the
/// last, or from the last to the first.
pub open spec fn row_text(s: Seq<i32>, face: Face, row: int, backwards: bool) -> Seq<char> {
    if backwards {
        colored(s[(Cell { face, row, col: 2 }).slot()]) + colored(
            s[(Cell { face, row, col: 1 }).slot()],
        ) + colored(s[(Cell { face, row, col: 0 }).slot()])
    } else {
        colored(s[(Cell { face, row, col: 0 }).slot()]) + colored(
            s[(Cell { face, row, col: 1 }).slot()],
        ) + colored(s[(Cell { face, row, col: 2 }).slot()])
    }
}

/// A face that stands alone in the picture, above or below the band: three
/// lines, each indented to stand over the front face.
pub open spec fn lone_face_text(s: Seq<i32>, face: Face) -> Seq<char> {
    "          "@ + row_text(s, face, 0, false) + "\n"@ + "          "@ + row_text(
        s,
        face,
        1,
        false,
    ) + "\n"@ + "          "@ + row_text(s, face, 2, false) + "\n"@
}

/// One line of the band: a row of the left, front and right faces, then the
/// same row of the back face, last column first, two blanks between faces.
pub open spec fn band_text(s: Seq<i32>, row: int) -> Seq<char> {
    row_text(s, Face::Left, row, false) + "  "@ + row_text(s, Face::Front, row, false) + "  "@
        + row_text(s, Face::Right, row, false) + "  "@ + row_text(s, Face::Back, row, true)
        + "\n"@
}

/// The whole picture of the unfolded cube: the up face, the band of the
/// left, front, right and back faces, and the down face, each under its
/// heading and followed by an empty line.
pub open spec fn picture(s: Seq<i32>) -> Seq<char> {
    "          Up:\n"@ + lone_face_text(s, Face::Up) + "\n"@
        + "Left:       Front:      Right:      Back:\n"@ + band_text(s, 0) + band_text(s, 1)
        + band_text(s, 2) + "\n"@ + "          Down:\n"@ + lone_face_text(s, Face::Down) + "\n"@
}

/// One facelet as text.
pub fn colored_number(number: i32) -> (text: String)
    ensures
        text@ == colored(number),
{
    let mut text = String::from_str(color_code(number));
    text.append("  ");
    text.append(decimal(number).as_str());
    text.append("\x1b[0m");
    text
}

impl Cube {
    /// Three facelets of one row of a face as text.
    fn row_as_text(&self, face: Face, row: usize, backwards: bool) -> (text: String)
        requires
            row < 3,
        ensures
            text@ == row_text(self@, face, row as int, backwards),
    {
        let (first, last): (usize, usize) = if backwards {
            (2, 0)
        } else {
            (0, 2)
        };
        let mut text = colored_number(self.facelet(face, row, first));
        text.append(colored_number(self.facelet(face, row, 1)).as_str());
        text.append(colored_number(self.facelet(face, row, last)).as_str());
        text
    }

    /// A face that stands alone in the picture, as text.
    fn lone_face_as_text(&self, face: Face) -> (text: String)
        ensures
            text@ == lone_face_text(self@, face),
    {
        let mut text = String::from_str("          ");
        text.append(self.row_as_text(face, 0, false).as_str());
        text.append("\n");
        text.append("          ");
        text.append(self.row_as_text(face, 1, false).as_str());
        text.append("\n");
        text.append("          ");
        text.append(self.row_as_text(face, 2, false).as_str());
        text.append("\n");
        text
    }

    /// One line of the band, as text.
    fn band_row_as_text(&self, row: usize) -> (text: String)
        requires
            row < 3,
        ensures
            text@ == band_text(self@, row as int),
    {
        let mut text = self.row_as_text(Face::Left, row, false);
        text.append("  ");
        text.append(self.row_as_text(Face::Front, row, false).as_str());
        text.append("  ");
        text.append(self.row_as_text(Face::Right, row, false).as_str());
        text.append("  ");
        text.append(self.row_as_text(Face::Back, row, true).as_str());
        text.append("\n");
        text
    }

    /// The picture of the unfolded cube, as coloured text.
    pub fn render(&self) -> (text: String)
        ensures
            text@ == picture(self@),
    {
        let mut text = String::from_str("          Up:\n");
        text.append(self.lone_face_as_text(Face::Up).as_str());
        text.append("\n");
        text.append("Left:       Front:      Right:      Back:\n");
        text.append(self.band_row_as_text(0).as_str());
        text.append(self.band_row_as_text(1).as_str());
        text.append(self.band_row_as_text(2).as_str());
        text.append("\n");
        text.append("          Down:\n");
        text.append(self.lone_face_as_text(Face::Down).as_str());
        text.append("\n");
        text
    }
}

} // verus!
