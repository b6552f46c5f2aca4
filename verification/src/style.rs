//! The terminal escape sequences that dress the messages, taken from
//! `termion`.

use vstd::prelude::*;

verus! {

/// Red foreground.
pub open spec fn red() -> Seq<char> {
    "\x1b[38;5;1m"@
}

/// Green foreground.
pub open spec fn green() -> Seq<char> {
    "\x1b[38;5;2m"@
}

/// Yellow foreground.
pub open spec fn yellow() -> Seq<char> {
    "\x1b[38;5;3m"@
}

/// Cyan foreground.
pub open spec fn cyan() -> Seq<char> {
    "\x1b[38;5;6m"@
}

/// White foreground.
pub open spec fn white() -> Seq<char> {
    "\x1b[38;5;7m"@
}

/// All attributes off.
pub open spec fn reset() -> Seq<char> {
    "\x1b[m"@
}

/// Bold text.
pub open spec fn bold() -> Seq<char> {
    "\x1b[1m"@
}

/// Italic text.
pub open spec fn italic() -> Seq<char> {
    "\x1b[3m"@
}

/// Calls `termion::color::Red::fg_str`: the sequence that selects colour 1
/// of the 256-colour palette as foreground.
#[verifier::external_body]
pub(crate) fn red_code() -> (code: &'static str)
    ensures
        code@ == red(),
{
    termion::color::Red.fg_str()
}

/// Calls `termion::color::Green::fg_str`: the sequence that selects colour
/// 2 of the 256-colour palette as foreground.
#[verifier::external_body]
pub(crate) fn green_code() -> (code: &'static str)
    ensures
        code@ == green(),
{
    termion::color::Green.fg_str()
}

/// Calls `termion::color::Yellow::fg_str`: the sequence that selects colour
/// 3 of the 256-colour palette as foreground.
#[verifier::external_body]
pub(crate) fn yellow_code() -> (code: &'static str)
    ensures
        code@ == yellow(),
{
    termion::color::Yellow.fg_str()
}

/// Calls `termion::color::Cyan::fg_str`: the sequence that selects colour 6
/// of the 256-colour palette as foreground.
#[verifier::external_body]
pub(crate) fn cyan_code() -> (code: &'static str)
    ensures
        code@ == cyan(),
{
    termion::color::Cyan.fg_str()
}

/// Calls `termion::color::White::fg_str`: the sequence that selects colour
/// 7 of the 256-colour palette as foreground.
#[verifier::external_body]
pub(crate) fn white_code() -> (code: &'static str)
    ensures
        code@ == white(),
{
    termion::color::White.fg_str()
}

/// Reads `termion::style::Reset` as a string: the sequence that turns all
/// attributes off.
#[verifier::external_body]
pub(crate) fn reset_code() -> (code: &'static str)
    ensures
        code@ == reset(),
{
    AsRef::<str>::as_ref(&termion::style::Reset)
}

/// Reads `termion::style::Bold` as a string: the sequence that turns bold
/// on.
#[verifier::external_body]
pub(crate) fn bold_code() -> (code: &'static str)
    ensures
        code@ == bold(),
{
    AsRef::<str>::as_ref(&termion::style::Bold)
}

/// Reads `termion::style::Italic` as a string: the sequence that turns
/// italic on.
#[verifier::external_body]
pub(crate) fn italic_code() -> (code: &'static str)
    ensures
        code@ == italic(),
{
    AsRef::<str>::as_ref(&termion::style::Italic)
}

} // verus!
