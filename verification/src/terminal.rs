//! An in-memory terminal sink. Tabs draw into a [`Frame`] with coordinates
//! relative to their own region; the frame places them on the screen and
//! queues the escape sequences, which the caller later flushes to the
//! terminal.

use crate::tab::{Pos, Size};
use crossterm::Command;
use vstd::prelude::*;

verus! {

/// The character for one decimal digit.
pub open spec fn digit(d: nat) -> char
    recommends
        d < 10,
{
    seq!['0', '1', '2', '3', '4', '5', '6', '7', '8', '9'][d as int]
}

/// The decimal numeral of `n`, without padding.
pub open spec fn decimal(n: nat) -> Seq<char>
    decreases n,
{
    if n < 10 {
        seq![digit(n)]
    } else {
        decimal(n / 10).push(digit(n % 10))
    }
}

/// The escape sequence that moves the cursor to column `x`, row `y`, both
/// counted from zero: `ESC [ row ; column H`, where the terminal counts from
/// one.
pub open spec fn move_to_sequence(x: nat, y: nat) -> Seq<char> {
    seq!['\u{1b}', '['] + decimal(y + 1) + seq![';'] + decimal(x + 1) + seq!['H']
}

/// The escape sequence that hides the cursor: `ESC [ ? 2 5 l`.
pub open spec fn hide_sequence() -> Seq<char> {
    seq!['\u{1b}', '[', '?', '2', '5', 'l']
}

/// The escape sequence that shows the cursor: `ESC [ ? 2 5 h`.
pub open spec fn show_sequence() -> Seq<char> {
    seq!['\u{1b}', '[', '?', '2', '5', 'h']
}

/// Appends the ANSI form of `crossterm::cursor::MoveTo(x, y)` to `buffer`,
/// through the command's `write_ansi`.
///
/// Trusted, not proved: crossterm writes `ESC [ {y + 1} ; {x + 1} H`, the two
/// numbers in decimal, and writing into a `String` does not fail. It adds the
/// ones in `u16`, so the largest value of either coordinate is left out.
#[verifier::external_body]
fn queue_move_to(buffer: &mut String, x: u16, y: u16)
    requires
        x < u16::MAX,
        y < u16::MAX,
    ensures
        final(buffer)@ == old(buffer)@ + move_to_sequence(x as nat, y as nat),
{
    let _ = crossterm::cursor::MoveTo(x, y).write_ansi(buffer);
}

/// Appends the ANSI form of `crossterm::style::Print(text)` to `buffer`,
/// through the command's `write_ansi`.
///
/// Trusted, not proved: crossterm writes the text as it is, with nothing
/// before or after it.
#[verifier::external_body]
fn queue_print(buffer: &mut String, text: &str)
    ensures
        final(buffer)@ == old(buffer)@ + text@,
{
    let _ = crossterm::style::Print(text).write_ansi(buffer);
}

/// Appends the ANSI form of `crossterm::cursor::Hide` to `buffer`, through
/// the command's `write_ansi`.
///
/// Trusted, not proved: crossterm writes `ESC [ ? 2 5 l`.
#[verifier::external_body]
fn queue_hide(buffer: &mut String)
    ensures
        final(buffer)@ == old(buffer)@ + hide_sequence(),
{
    let _ = crossterm::cursor::Hide.write_ansi(buffer);
}

/// Appends the ANSI form of `crossterm::cursor::Show` to `buffer`, through
/// the command's `write_ansi`.
///
/// Trusted, not proved: crossterm writes `ESC [ ? 2 5 h`.
#[verifier::external_body]
fn queue_show(buffer: &mut String)
    ensures
        final(buffer)@ == old(buffer)@ + show_sequence(),
{
    let _ = crossterm::cursor::Show.write_ansi(buffer);
}

/// Whether the cell at `(x, y)`, relative to `origin`, lies on a screen of
/// dimensions `bounds`.
pub open spec fn on_screen(origin: Pos, bounds: Size, x: u16, y: u16) -> bool {
    origin.x + x < bounds.width && origin.y + y < bounds.height
}

/// What printing `text` at `(x, y)` relative to `origin` queues: the move to
/// the absolute cell and the text, or nothing where the cell is off screen.
pub open spec fn placed(origin: Pos, bounds: Size, x: u16, y: u16, text: Seq<char>) -> Seq<char> {
    if on_screen(origin, bounds, x, y) {
        move_to_sequence((origin.x + x) as nat, (origin.y + y) as nat) + text
    } else {
        Seq::empty()
    }
}

/// What showing the cursor at `(x, y)` relative to `origin` queues: the move
/// to the absolute cell and the command that shows the cursor, or the command
/// that hides it where the cell is off screen.
pub open spec fn cursor_shown(origin: Pos, bounds: Size, x: u16, y: u16) -> Seq<char> {
    if on_screen(origin, bounds, x, y) {
        move_to_sequence((origin.x + x) as nat, (origin.y + y) as nat) + show_sequence()
    } else {
        hide_sequence()
    }
}

/// The sink that tabs render into.
///
/// A tab addresses cells relative to its own region. The frame adds `origin`
/// to get the absolute cell, drops what falls outside `bounds`, and appends
/// the escape sequences to `output` in the order of the calls. Nothing reaches
/// the terminal until the caller writes `output` to it.
#[derive(Debug)]
pub struct Frame {
    /// The absolute cell that relative `(0, 0)` stands for.
    pub origin: Pos,
    /// The dimensions of the terminal.
    pub bounds: Size,
    /// What has been queued so far.
    pub output: String,
}

impl Frame {
    /// An empty frame for a terminal of the given dimensions, with its origin
    /// at the top left cell.
    pub fn new(bounds: Size) -> (frame: Frame)
        ensures
            frame.origin == (Pos { x: 0, y: 0 }),
            frame.bounds == bounds,
            frame.output@ == Seq::<char>::empty(),
    {
        Frame { origin: Pos { x: 0, y: 0 }, bounds, output: String::new() }
    }

    /// Whether the relative cell `(x, y)` lies on the screen.
    pub fn shows(&self, x: u16, y: u16) -> (visible: bool)
        ensures
            visible == on_screen(self.origin, self.bounds, x, y),
    {
        x < self.bounds.width && self.origin.x < self.bounds.width - x && y < self.bounds.height
            && self.origin.y < self.bounds.height - y
    }

    /// Prints `text` starting at the relative cell `(x, y)`. Nothing is queued
    /// where that cell is off screen.
    pub fn print_at(&mut self, x: u16, y: u16, text: &str)
        ensures
            final(self).origin == old(self).origin,
            final(self).bounds == old(self).bounds,
            final(self).output@ == old(self).output@ + placed(
                old(self).origin,
                old(self).bounds,
                x,
                y,
                text@,
            ),
    {
        if self.shows(x, y) {
            queue_move_to(&mut self.output, self.origin.x + x, self.origin.y + y);
            queue_print(&mut self.output, text);
            assert(self.output@ =~= old(self).output@ + placed(
                old(self).origin,
                old(self).bounds,
                x,
                y,
                text@,
            ));
        } else {
            assert(self.output@ =~= old(self).output@ + Seq::<char>::empty());
        }
    }

    /// Shows the terminal's cursor at the relative cell `(x, y)`, or hides it
    /// where that cell is off screen.
    pub fn show_cursor(&mut self, x: u16, y: u16)
        ensures
            final(self).origin == old(self).origin,
            final(self).bounds == old(self).bounds,
            final(self).output@ == old(self).output@ + cursor_shown(
                old(self).origin,
                old(self).bounds,
                x,
                y,
            ),
    {
        if self.shows(x, y) {
            queue_move_to(&mut self.output, self.origin.x + x, self.origin.y + y);
            queue_show(&mut self.output);
            assert(self.output@ =~= old(self).output@ + cursor_shown(
                old(self).origin,
                old(self).bounds,
                x,
                y,
            ));
        } else {
            queue_hide(&mut self.output);
        }
    }

    /// Hides the terminal's cursor.
    pub fn hide_cursor(&mut self)
        ensures
            final(self).origin == old(self).origin,
            final(self).bounds == old(self).bounds,
            final(self).output@ == old(self).output@ + hide_sequence(),
    {
        queue_hide(&mut self.output);
    }
}

} // verus!
