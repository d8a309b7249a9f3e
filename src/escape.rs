//! ANSI escape sequences, produced through termion.

use vstd::prelude::*;

verus! {

/// The decimal digit for `d < 10`.
pub open spec fn digit_char(d: nat) -> char {
    if d == 0 { '0' }
    else if d == 1 { '1' }
    else if d == 2 { '2' }
    else if d == 3 { '3' }
    else if d == 4 { '4' }
    else if d == 5 { '5' }
    else if d == 6 { '6' }
    else if d == 7 { '7' }
    else if d == 8 { '8' }
    else { '9' }
}

/// The decimal numeral of `n`, without leading zeros.
pub open spec fn decimal(n: nat) -> Seq<char>
    decreases n,
{
    if n < 10 {
        seq![digit_char(n)]
    } else {
        decimal(n / 10) + seq![digit_char(n % 10)]
    }
}

/// The control sequence introducer, `ESC [`.
pub open spec fn csi() -> Seq<char> {
    seq!['\u{1b}', '[']
}

/// Truecolor foreground: `ESC [ 38;2;r;g;b m`.
pub open spec fn fg_seq(r: u8, g: u8, b: u8) -> Seq<char> {
    csi() + seq!['3', '8', ';', '2', ';'] + decimal(r as nat) + seq![';'] + decimal(g as nat)
        + seq![';'] + decimal(b as nat) + seq!['m']
}

/// Truecolor background: `ESC [ 48;2;r;g;b m`.
pub open spec fn bg_seq(r: u8, g: u8, b: u8) -> Seq<char> {
    csi() + seq!['4', '8', ';', '2', ';'] + decimal(r as nat) + seq![';'] + decimal(g as nat)
        + seq![';'] + decimal(b as nat) + seq!['m']
}

/// Reset of all graphic rendition: `ESC [ m`.
pub open spec fn reset_seq() -> Seq<char> {
    csi() + seq!['m']
}

/// Cursor to the one-based cell (`col`, `row`): `ESC [ row ; col H`.
pub open spec fn goto_seq(col: u16, row: u16) -> Seq<char> {
    csi() + decimal(row as nat) + seq![';'] + decimal(col as nat) + seq!['H']
}

/// Make the cursor visible: `ESC [ ?25h`.
pub open spec fn show_cursor_seq() -> Seq<char> {
    csi() + seq!['?', '2', '5', 'h']
}

/// Leave the alternate screen: `ESC [ ?1049l`.
pub open spec fn main_screen_seq() -> Seq<char> {
    csi() + seq!['?', '1', '0', '4', '9', 'l']
}

/// The sequence that hands the terminal back in a usable state: plain
/// styling, a visible cursor and the main screen.
pub open spec fn restore_seq() -> Seq<char> {
    reset_seq() + show_cursor_seq() + main_screen_seq()
}

/// Relies on termion's `Rgb::fg_string`: `ESC [ 38;2;r;g;b m`, decimals
/// written by numtoa.
#[verifier::external_body]
pub(crate) fn fg_rgb(r: u8, g: u8, b: u8) -> (s: String)
    ensures
        s@ == fg_seq(r, g, b),
{
    termion::color::Rgb(r, g, b).fg_string()
}

/// Relies on termion's `Rgb::bg_string`: `ESC [ 48;2;r;g;b m`.
#[verifier::external_body]
pub(crate) fn bg_rgb(r: u8, g: u8, b: u8) -> (s: String)
    ensures
        s@ == bg_seq(r, g, b),
{
    termion::color::Rgb(r, g, b).bg_string()
}

/// Relies on termion's `style::Reset` as a string: `ESC [ m`.
#[verifier::external_body]
pub(crate) fn style_reset() -> (s: String)
    ensures
        s@ == reset_seq(),
{
    let t: &str = termion::style::Reset.as_ref();
    t.to_string()
}

/// Relies on termion's `From<Goto> for String`: `ESC [ row ; col H`.
#[verifier::external_body]
pub(crate) fn goto(col: u16, row: u16) -> (s: String)
    ensures
        s@ == goto_seq(col, row),
{
    String::from(termion::cursor::Goto(col, row))
}

/// Relies on termion's `cursor::Show` as a string: `ESC [ ?25h`.
#[verifier::external_body]
pub(crate) fn show_cursor() -> (s: String)
    ensures
        s@ == show_cursor_seq(),
{
    let t: &str = termion::cursor::Show.as_ref();
    t.to_string()
}

/// Relies on termion's `screen::ToMainScreen`, whose `Display` writes
/// `ESC [ ?1049l`.
#[verifier::external_body]
pub(crate) fn main_screen() -> (s: String)
    ensures
        s@ == main_screen_seq(),
{
    format!("{}", termion::screen::ToMainScreen)
}

/// The bytes to write to the terminal before the program leaves it, or
/// when it crashes: styling reset, cursor shown, main screen restored.
pub fn reset_screen() -> (s: String)
    ensures
        s@ == restore_seq(),
{
    let mut s = style_reset();
    let c = show_cursor();
    s.append(c.as_str());
    let m = main_screen();
    s.append(m.as_str());
    s
}

} // verus!
