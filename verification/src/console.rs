//! Console escape sequences: cursor placement and text styling for the
//! fixed character-grid display.
//!
//! Text written to the console may embed control sequences of the form
//! `ESC [ <params> <final-letter>`: `H` places the cursor at a row and
//! column, `A`/`B`/`C`/`D` move it up, down, right or left, and `m` selects
//! a colour or attribute. Sequences are produced here as plain byte
//! strings; writing them to the display happens elsewhere.

use vstd::prelude::*;

verus! {

/// The decimal digits of `n`, most significant first.
pub open spec fn spec_dec_digits(n: nat) -> Seq<u8>
    decreases n,
{
    if n < 10 {
        seq![(48 + n) as u8]
    } else {
        spec_dec_digits(n / 10).push((48 + n % 10) as u8)
    }
}

/// Formats a number as its decimal digits, most significant first.
pub fn fmt_u32(n: u32) -> (r: Vec<u8>)
    ensures
        r@ == spec_dec_digits(n as nat),
    decreases n,
{
    if n < 10 {
        let mut r: Vec<u8> = Vec::new();
        r.push(48 + n as u8);
        r
    } else {
        let mut r = fmt_u32(n / 10);
        r.push(48 + (n % 10) as u8);
        r
    }
}

/// An escape sequence: the escape byte, an opening bracket, then the code.
pub open spec fn spec_esc(code: Seq<u8>) -> Seq<u8> {
    seq![27u8, 91u8] + code
}

/// Prefixes a control code with the escape introducer `ESC [`.
pub fn esc(code: &Vec<u8>) -> (r: Vec<u8>)
    ensures
        r@ == spec_esc(code@),
{
    let mut r: Vec<u8> = Vec::new();
    r.push(27);
    r.push(91);
    let mut i: usize = 0;
    while i < code.len()
        invariant
            i <= code@.len(),
            r@ == seq![27u8, 91u8] + code@.subrange(0, i as int),
        decreases code@.len() - i,
    {
        let b = code[i];
        r.push(b);
        i += 1;
        proof {
            assert(code@.subrange(0, i as int) =~= code@.subrange(0, i - 1).push(code@[i - 1]));
        }
    }
    proof {
        assert(code@.subrange(0, code@.len() as int) =~= code@);
    }
    r
}

/// The sequence selecting a foreground colour in its bold variant:
/// `ESC [ <code> ; 1 m`.
pub open spec fn spec_esc_color(code: u8) -> Seq<u8> {
    spec_esc(spec_dec_digits(code as nat) + seq![59u8, 49u8, 109u8])
}

/// Builds the styling sequence that selects a foreground colour (codes 30
/// to 37) together with the bold attribute.
pub fn esc_color(code: u8) -> (r: Vec<u8>)
    ensures
        r@ == spec_esc_color(code),
{
    let mut body = fmt_u32(code as u32);
    body.push(59);
    body.push(49);
    body.push(109);
    let r = esc(&body);
    proof {
        assert(body@ =~= spec_dec_digits(code as nat) + seq![59u8, 49u8, 109u8]);
    }
    r
}

/// The sequence placing the cursor at an absolute row and column:
/// `ESC [ <row> ; <col> H`.
pub open spec fn spec_cursor_to(row: u32, col: u32) -> Seq<u8> {
    spec_esc(
        spec_dec_digits(row as nat) + seq![59u8] + spec_dec_digits(col as nat) + seq![72u8],
    )
}

/// Builds the sequence that moves the cursor to the given row and column.
pub fn cursor_to(row: u32, col: u32) -> (r: Vec<u8>)
    ensures
        r@ == spec_cursor_to(row, col),
{
    let mut body = fmt_u32(row);
    body.push(59);
    let mut col_digits = fmt_u32(col);
    body.append(&mut col_digits);
    body.push(72);
    let r = esc(&body);
    proof {
        assert(body@ =~= spec_dec_digits(row as nat) + seq![59u8] + spec_dec_digits(col as nat)
            + seq![72u8]);
    }
    r
}

/// A relative cursor movement direction, with its final letter.
#[derive(Clone, Copy, Debug, PartialEq, Eq, Structural)]
pub enum CursorMove {
    Up,
    Down,
    Right,
    Left,
}

/// The final letter of a relative cursor movement: `A` up, `B` down, `C`
/// right, `D` left.
pub open spec fn spec_move_letter(dir: CursorMove) -> u8 {
    match dir {
        CursorMove::Up => 65u8,
        CursorMove::Down => 66u8,
        CursorMove::Right => 67u8,
        CursorMove::Left => 68u8,
    }
}

/// The sequence moving the cursor by a signed offset in one direction:
/// `ESC [ <n> <letter>`.
pub open spec fn spec_cursor_move(n: u32, dir: CursorMove) -> Seq<u8> {
    spec_esc(spec_dec_digits(n as nat) + seq![spec_move_letter(dir)])
}

/// Builds the sequence that moves the cursor `n` cells in one direction.
pub fn cursor_move(n: u32, dir: CursorMove) -> (r: Vec<u8>)
    ensures
        r@ == spec_cursor_move(n, dir),
{
    let mut body = fmt_u32(n);
    let letter: u8 = match dir {
        CursorMove::Up => 65,
        CursorMove::Down => 66,
        CursorMove::Right => 67,
        CursorMove::Left => 68,
    };
    body.push(letter);
    let r = esc(&body);
    proof {
        assert(body@ =~= spec_dec_digits(n as nat) + seq![spec_move_letter(dir)]);
    }
    r
}

/// A text attribute, independently toggled and combined by concatenating
/// one styling sequence per attribute.
#[derive(Clone, Copy, Debug, PartialEq, Eq, Structural)]
pub enum TextStyle {
    Reset,
    Bold,
    Faint,
    Underline,
    Reverse,
    Strikethrough,
}

/// The numeric code of a text attribute: 0 reset, 1 bold, 2 faint,
/// 4 underline, 7 reverse, 9 strikethrough.
pub open spec fn spec_style_code(style: TextStyle) -> u8 {
    match style {
        TextStyle::Reset => 0u8,
        TextStyle::Bold => 1u8,
        TextStyle::Faint => 2u8,
        TextStyle::Underline => 4u8,
        TextStyle::Reverse => 7u8,
        TextStyle::Strikethrough => 9u8,
    }
}

/// The sequence toggling one text attribute: `ESC [ <code> m`.
pub open spec fn spec_text_style(style: TextStyle) -> Seq<u8> {
    spec_esc(spec_dec_digits(spec_style_code(style) as nat) + seq![109u8])
}

/// Builds the styling sequence for one text attribute.
pub fn text_style(style: TextStyle) -> (r: Vec<u8>)
    ensures
        r@ == spec_text_style(style),
{
    let code: u8 = match style {
        TextStyle::Reset => 0,
        TextStyle::Bold => 1,
        TextStyle::Faint => 2,
        TextStyle::Underline => 4,
        TextStyle::Reverse => 7,
        TextStyle::Strikethrough => 9,
    };
    let mut body = fmt_u32(code as u32);
    body.push(109);
    let r = esc(&body);
    proof {
        assert(body@ =~= spec_dec_digits(spec_style_code(style) as nat) + seq![109u8]);
    }
    r
}

/// The sequence clearing the whole screen: `ESC [ 2 J`.
pub open spec fn spec_clear_screen() -> Seq<u8> {
    spec_esc(seq![50u8, 74u8])
}

/// Builds the sequence that clears the whole screen.
pub fn clear_screen() -> (r: Vec<u8>)
    ensures
        r@ == spec_clear_screen(),
{
    let mut body: Vec<u8> = Vec::new();
    body.push(50);
    body.push(74);
    let r = esc(&body);
    proof {
        assert(body@ =~= seq![50u8, 74u8]);
    }
    r
}

} // verus!
