//! The terminal emulator of the `vt100` crate, and what the library relies on
//! it for.
//!
//! An emulator holds rows of cells: the rows that have scrolled off the top
//! (the history, oldest first, at most as many as the emulator was made for)
//! and below them the rows of the screen. A viewport as tall as the screen
//! shows the rows that end `offset` rows above the last one. Programs may switch to
//! another screen and back, which has rows of its own and no history.

use vstd::prelude::*;

use crate::text::ascii_bytes;

verus! {

/// The state of one terminal: what `vt100` keeps of everything it was fed.
#[verifier::external_body]
pub struct Emulator {
    parser: vt100::Parser,
}

/// The readable part of a terminal, `vt100::Screen`.
#[verifier::external_type_specification]
#[verifier::external_body]
pub struct ExScreen(vt100::Screen);

/// One character cell, `vt100::Cell`.
#[verifier::external_type_specification]
#[verifier::external_body]
pub struct ExCell(vt100::Cell);

/// A color of a cell or of a part of the interface.
#[derive(Debug, Clone, Copy, PartialEq, Eq, Structural)]
pub enum Color {
    /// The terminal's own default.
    Reset,
    /// An entry of the 256-color palette.
    Indexed(u8),
    /// Red, green and blue.
    Rgb(u8, u8, u8),
    Black,
    Green,
    Yellow,
    Blue,
    Cyan,
    DarkGray,
    White,
}

/// The screen of an emulator: what `vt100::Parser::screen` returns.
pub uninterp spec fn emulator_screen(e: Emulator) -> vt100::Screen;

/// How many rows of history an emulator keeps at most: the length that
/// `vt100::Parser::new` was given.
pub uninterp spec fn emulator_capacity(e: Emulator) -> nat;

/// The emulator that `vt100::Parser::new` makes.
pub uninterp spec fn emulator_new(rows: u16, cols: u16, capacity: usize) -> Emulator;

/// The emulator after `vt100::Parser::process` on some bytes.
pub uninterp spec fn emulator_fed(e: Emulator, bytes: Seq<u8>) -> Emulator;

/// The emulator after `vt100::Screen::set_scrollback`.
pub uninterp spec fn emulator_scrolled(e: Emulator, offset: usize) -> Emulator;

/// The emulator after `vt100::Screen::set_size`.
pub uninterp spec fn emulator_resized(e: Emulator, rows: u16, cols: u16) -> Emulator;

/// Whether `vt100::Parser::process` returns, rather than panics, on some bytes.
pub uninterp spec fn emulator_accepts(e: Emulator, bytes: Seq<u8>) -> bool;

/// Whether every wide character on the screens of an emulator, one of two columns or
/// three, still has its second cell. Only `vt100::Screen::set_size` to a narrower width
/// cuts one.
pub uninterp spec fn emulator_unclipped(e: Emulator) -> bool;

/// Whether an emulator never held a wide character.
pub uninterp spec fn emulator_narrow(e: Emulator) -> bool;

/// All rows of the screen in use, history first, oldest first: the contents
/// that `vt100::Screen::cell` reads.
pub uninterp spec fn screen_lines(s: vt100::Screen) -> Seq<Seq<vt100::Cell>>;

/// The rows and columns that `vt100::Screen::size` returns.
pub uninterp spec fn screen_size(s: vt100::Screen) -> (u16, u16);

/// How many rows the viewport is scrolled up: what `vt100::Screen::scrollback`
/// returns.
pub uninterp spec fn screen_offset(s: vt100::Screen) -> nat;

/// Where the cursor is, as (row, column): what `vt100::Screen::cursor_position`
/// returns.
pub uninterp spec fn screen_cursor(s: vt100::Screen) -> (u16, u16);

/// Whether the cursor is hidden: what `vt100::Screen::hide_cursor` returns.
pub uninterp spec fn screen_cursor_hidden(s: vt100::Screen) -> bool;

/// Whether the screen in use is the other one, which has no history: what
/// `vt100::Screen::alternate_screen` returns.
pub uninterp spec fn screen_alternate(s: vt100::Screen) -> bool;

/// What `vt100::Cell::contents` returns.
pub uninterp spec fn cell_text(c: vt100::Cell) -> Seq<char>;

/// What `vt100::Cell::fgcolor` returns.
pub uninterp spec fn cell_fg(c: vt100::Cell) -> Color;

/// What `vt100::Cell::bgcolor` returns.
pub uninterp spec fn cell_bg(c: vt100::Cell) -> Color;

/// What `vt100::Cell::bold` returns.
pub uninterp spec fn cell_bold(c: vt100::Cell) -> bool;

/// What `vt100::Cell::dim` returns.
pub uninterp spec fn cell_dim(c: vt100::Cell) -> bool;

/// What `vt100::Cell::italic` returns.
pub uninterp spec fn cell_italic(c: vt100::Cell) -> bool;

/// What `vt100::Cell::underline` returns.
pub uninterp spec fn cell_underline(c: vt100::Cell) -> bool;

/// What `vt100::Cell::inverse` returns.
pub uninterp spec fn cell_inverse(c: vt100::Cell) -> bool;

/// How many rows have scrolled off the top.
pub open spec fn screen_history(s: vt100::Screen) -> int {
    screen_lines(s).len() - screen_size(s).0
}

/// The row of the history that is the `k`-th from its end.
pub open spec fn history_row(s: vt100::Screen, k: int) -> Seq<vt100::Cell> {
    screen_lines(s)[screen_history(s) - k]
}

/// The row of all lines that is shown in row `row` of the viewport.
pub open spec fn shown_line(s: vt100::Screen, row: int) -> int {
    screen_history(s) - screen_offset(s) + row
}

/// The cell that the viewport shows at a position, if there is one.
pub open spec fn shown_cell(s: vt100::Screen, row: int, col: int) -> Option<vt100::Cell> {
    if 0 <= row < screen_size(s).0 && 0 <= col < screen_lines(s)[shown_line(s, row)].len() {
        Some(screen_lines(s)[shown_line(s, row)][col])
    } else {
        None
    }
}

/// A screen has a row, the viewport does not leave the rows that there are, the
/// history is no longer than it may be, the other screen has none, and moving the
/// viewport to where it is changes nothing.
pub open spec fn emulator_consistent(e: Emulator) -> bool {
    let s = emulator_screen(e);
    &&& 1 <= screen_size(s).0 <= screen_lines(s).len()
    &&& screen_offset(s) <= screen_history(s) <= emulator_capacity(e)
    &&& screen_alternate(s) ==> screen_history(s) == 0
    &&& forall|n: usize|
        clamped(n as int, screen_history(s)) == screen_offset(s) ==> emulator_scrolled(e, n) == e
}

/// An offset clamped to the history.
pub open spec fn clamped(offset: int, history: int) -> int {
    if offset <= history {
        offset
    } else {
        history
    }
}

/// Sizes on which the emulator takes any bytes as long as it is unclipped: two
/// rows, so that a line can wrap into another; three columns, since the widest
/// character is that wide; and few enough columns for the next tab stop to be a `u16`.
pub open spec fn roomy(rows: u16, cols: u16) -> bool {
    2 <= rows && 3 <= cols <= 65527
}

/// The sequences `ESC [ 2 J`, `ESC [ H` and `ESC [ 3 J`: erase the screen, put the
/// cursor at home, erase what was scrolled off (which `vt100` ignores).
pub open spec fn clear_sequence() -> Seq<u8> {
    seq![27, 91, 50, 74, 27, 91, 72, 27, 91, 51, 74]
}

/// The emulator after some bytes, one at a time, each with the viewport one row above
/// the bottom.
pub open spec fn emulator_fed_each(e: Emulator, bytes: Seq<u8>) -> Emulator
    decreases bytes.len(),
{
    if bytes.len() == 0 {
        e
    } else {
        let before = emulator_fed_each(e, bytes.drop_last());
        emulator_fed(emulator_scrolled(before, 1), seq![bytes.last()])
    }
}

/// Whether an emulator takes some bytes one at a time.
pub open spec fn emulator_accepts_each(e: Emulator, bytes: Seq<u8>) -> bool
    decreases bytes.len(),
{
    bytes.len() > 0 ==> emulator_accepts_each(e, bytes.drop_last()) && emulator_accepts(
        emulator_fed_each(e, bytes.drop_last()),
        seq![bytes.last()],
    )
}

/// An emulator of a roomy size takes any bytes, at once and one at a time, if it is
/// unclipped or has nothing that could be cut. One of any size can be cleared, if it has a column.
pub open spec fn emulator_robust(e: Emulator) -> bool {
    let s = emulator_screen(e);
    &&& (emulator_unclipped(e) || emulator_narrow(e)) && roomy(screen_size(s).0, screen_size(s).1)
        ==> forall|d: Seq<u8>| emulator_accepts(e, d) && emulator_accepts_each(e, d)
    &&& screen_size(s).1 >= 1 ==> emulator_accepts(e, clear_sequence())
}

/// Whether an emulator with some history has stayed on the main screen and was not
/// reset by a byte, which puts the viewport at the bottom.
pub open spec fn stays(before: Emulator, after: Emulator) -> bool {
    let s = emulator_screen(before);
    let t = emulator_screen(after);
    &&& !screen_alternate(s) && screen_history(s) >= 1
    &&& !screen_alternate(t) && screen_offset(t) >= 1
}

/// What happens to the history when `n` rows scroll off while the viewport is one row
/// above the bottom: they come in at its end, the oldest rows go where there are more
/// than are kept, and the viewport moves up with the row that it shows first.
pub open spec fn rows_came(before: Emulator, after: Emulator, n: nat) -> bool {
    let s = emulator_screen(before);
    let t = emulator_screen(after);
    &&& emulator_capacity(after) == emulator_capacity(before)
    &&& screen_history(t) == clamped(
        screen_history(s) + n,
        emulator_capacity(before) as int,
    )
    &&& screen_offset(t) == clamped(n + 1int, screen_history(t))
    &&& forall|k: int|
        n < k <= screen_history(t) ==> #[trigger] history_row(t, k) == history_row(s, k - n)
}

/// Each byte that comes while an emulator stays on the main screen adds some number of
/// rows to the history.
pub open spec fn emulator_scrolls(e: Emulator) -> bool {
    forall|d: Seq<u8>|
        d.len() > 0 && #[trigger] emulator_accepts_each(e, d) && stays(
            emulator_fed_each(e, d.drop_last()),
            emulator_fed_each(e, d),
        ) ==> exists|n: nat|
            rows_came(emulator_fed_each(e, d.drop_last()), emulator_fed_each(e, d), n)
}

/// What erasing the screen does: its rows are blank, and the history, the viewport's
/// offset, the cursor's visibility and which of the two screens is in use stay.
pub open spec fn emulator_cleared(a: Emulator, b: Emulator) -> bool {
    let s = emulator_screen(a);
    let t = emulator_screen(b);
    &&& screen_size(s) == screen_size(t)
    &&& screen_history(s) == screen_history(t)
    &&& screen_offset(s) == screen_offset(t)
    &&& screen_alternate(s) == screen_alternate(t)
    &&& screen_cursor_hidden(s) == screen_cursor_hidden(t)
    &&& forall|i: int|
        0 <= i < screen_history(s) ==> #[trigger] screen_lines(t)[i] == screen_lines(s)[i]
    &&& forall|i: int|
        screen_history(t) <= i < screen_lines(t).len() ==> (#[trigger] screen_lines(t)[i]).len()
            == screen_size(t).1
    &&& forall|i: int, j: int|
        screen_history(t) <= i < screen_lines(t).len() && 0 <= j < screen_size(t).1 ==> cell_text(
            #[trigger] screen_lines(t)[i][j],
        ) == Seq::<char>::empty()
}

/// What a change of the viewport alone leaves as it was.
pub open spec fn same_but_viewport(a: Emulator, b: Emulator) -> bool {
    let s = emulator_screen(a);
    let t = emulator_screen(b);
    &&& screen_lines(s) == screen_lines(t)
    &&& screen_size(s) == screen_size(t)
    &&& screen_cursor(s) == screen_cursor(t)
    &&& screen_cursor_hidden(s) == screen_cursor_hidden(t)
    &&& screen_alternate(s) == screen_alternate(t)
    &&& emulator_capacity(a) == emulator_capacity(b)
    &&& emulator_unclipped(a) == emulator_unclipped(b)
    &&& emulator_narrow(a) == emulator_narrow(b)
    &&& forall|d: Seq<u8>| emulator_accepts(a, d) == emulator_accepts(b, d)
    &&& forall|n: usize| emulator_scrolled(a, n) == emulator_scrolled(b, n)
    &&& forall|d: Seq<u8>, n: usize|
        #![trigger emulator_scrolled(emulator_fed(a, d), n)]
        emulator_scrolled(emulator_fed(a, d), n) == emulator_scrolled(emulator_fed(b, d), n)
}

impl Emulator {
    /// Calls `vt100::Parser::new`. The new terminal is on its main screen, has blank
    /// rows of the given size, no history, and keeps at most `capacity` rows of it. With no rows
    /// `vt100` subtracts below zero, so there is at least one.
    #[verifier::external_body]
    pub(crate) fn new(rows: u16, cols: u16, capacity: usize) -> (e: Emulator)
        requires
            rows >= 1,
        ensures
            e == emulator_new(rows, cols, capacity),
            emulator_consistent(e),
            emulator_robust(e),
            emulator_scrolls(e),
            emulator_unclipped(e),
            emulator_narrow(e),
            roomy(rows, cols) ==> forall|d: Seq<u8>| emulator_accepts(e, d),
            emulator_capacity(e) == capacity,
            screen_size(emulator_screen(e)) == (rows, cols),
            screen_offset(emulator_screen(e)) == 0,
            screen_history(emulator_screen(e)) == 0,
            !screen_cursor_hidden(emulator_screen(e)),
            !screen_alternate(emulator_screen(e)),
            forall|i: int|
                0 <= i < rows ==> (#[trigger] screen_lines(emulator_screen(e))[i]).len() == cols,
            forall|i: int, j: int|
                0 <= i < rows && 0 <= j < cols ==> cell_text(
                    #[trigger] screen_lines(emulator_screen(e))[i][j],
                ) == Seq::<char>::empty(),
    {
        Emulator { parser: vt100::Parser::new(rows, cols, capacity) }
    }

    /// Calls `vt100::Parser::process`. Whatever the bytes do to the screen, its
    /// size, the length of history that it keeps and its being unclipped stay. ASCII
    /// brings no wide character. The sequence that erases the screen does what is
    /// documented of it. Rows that scroll off the main screen go into the history, and
    /// a viewport that is scrolled up moves with the rows that it shows.
    #[verifier::external_body]
    pub(crate) fn process(&mut self, data: &[u8])
        requires
            emulator_accepts(*old(self), data@),
        ensures
            *final(self) == emulator_fed(*old(self), data@),
            emulator_consistent(*final(self)),
            emulator_robust(*final(self)),
            emulator_scrolls(*final(self)),
            emulator_unclipped(*old(self)) ==> emulator_unclipped(*final(self)),
            emulator_narrow(*old(self)) && ascii_bytes(data@) ==> emulator_narrow(*final(self)),
            data@ == clear_sequence() ==> emulator_cleared(*old(self), *final(self)),
            emulator_capacity(*final(self)) == emulator_capacity(*old(self)),
            screen_size(emulator_screen(*final(self))) == screen_size(
                emulator_screen(*old(self)),
            ),
    {
        self.parser.process(data)
    }

    /// Calls `vt100::Screen::set_scrollback` on the emulator's screen. It moves
    /// the viewport, clamped to the history, and touches nothing else: not the
    /// rows, and not what later bytes do to them.
    #[verifier::external_body]
    pub(crate) fn set_scrollback(&mut self, offset: usize)
        ensures
            *final(self) == emulator_scrolled(*old(self), offset),
            same_but_viewport(*old(self), *final(self)),
            emulator_consistent(*old(self)) ==> emulator_consistent(*final(self)),
            emulator_robust(*old(self)) ==> emulator_robust(*final(self)),
            emulator_scrolls(*final(self)),
            screen_offset(emulator_screen(*final(self))) == clamped(
                offset as int,
                screen_history(emulator_screen(*old(self))),
            ),
    {
        self.parser.screen_mut().set_scrollback(offset)
    }

    /// Calls `vt100::Screen::set_size` on the emulator's screen. The history, the
    /// viewport's offset and which of the two screens is in use stay. With no rows or no columns `vt100` subtracts
    /// below zero, so there is at least one of each.
    #[verifier::external_body]
    pub(crate) fn set_size(&mut self, rows: u16, cols: u16)
        requires
            rows >= 1,
            cols >= 1,
        ensures
            *final(self) == emulator_resized(*old(self), rows, cols),
            emulator_consistent(*old(self)) ==> emulator_consistent(*final(self)),
            emulator_robust(*final(self)),
            emulator_scrolls(*final(self)),
            screen_alternate(emulator_screen(*final(self))) == screen_alternate(
                emulator_screen(*old(self)),
            ),
            emulator_unclipped(*old(self)) && cols >= screen_size(emulator_screen(*old(self))).1
                ==> emulator_unclipped(*final(self)),
            emulator_narrow(*old(self)) ==> emulator_narrow(*final(self)),
            emulator_capacity(*final(self)) == emulator_capacity(*old(self)),
            screen_size(emulator_screen(*final(self))) == (rows, cols),
            screen_offset(emulator_screen(*final(self))) == screen_offset(
                emulator_screen(*old(self)),
            ),
            screen_history(emulator_screen(*final(self))) == screen_history(
                emulator_screen(*old(self)),
            ),
            forall|i: int|
                0 <= i < screen_history(emulator_screen(*old(self))) ==> screen_lines(
                    emulator_screen(*final(self)),
                )[i] == #[trigger] screen_lines(emulator_screen(*old(self)))[i],
    {
        self.parser.screen_mut().set_size(rows, cols)
    }

    /// Calls `vt100::Parser::screen`.
    #[verifier::external_body]
    pub(crate) fn screen(&self) -> (s: &vt100::Screen)
        ensures
            *s == emulator_screen(*self),
    {
        self.parser.screen()
    }
}

/// `vt100::Screen::size` returns the rows and columns.
pub assume_specification[ vt100::Screen::size ](s: &vt100::Screen) -> (r: (u16, u16))
    ensures
        r == screen_size(*s),
;

/// `vt100::Screen::scrollback` returns how far the viewport is scrolled up.
pub assume_specification[ vt100::Screen::scrollback ](s: &vt100::Screen) -> (r: usize)
    ensures
        r == screen_offset(*s),
;

/// `vt100::Screen::cell` returns the cell that the viewport shows.
pub assume_specification[ vt100::Screen::cell ](s: &vt100::Screen, row: u16, col: u16) -> (r:
    Option<&vt100::Cell>)
    ensures
        r is Some <==> shown_cell(*s, row as int, col as int) is Some,
        r matches Some(c) ==> *c == shown_cell(*s, row as int, col as int)->0,
;

/// `vt100::Screen::cursor_position` returns the cursor's row and column.
pub assume_specification[ vt100::Screen::cursor_position ](s: &vt100::Screen) -> (r: (u16, u16))
    ensures
        r == screen_cursor(*s),
;

/// `vt100::Screen::hide_cursor` returns whether the cursor is hidden.
pub assume_specification[ vt100::Screen::hide_cursor ](s: &vt100::Screen) -> (r: bool)
    ensures
        r == screen_cursor_hidden(*s),
;

/// `vt100::Screen::alternate_screen` returns whether the other screen is in use.
pub assume_specification[ vt100::Screen::alternate_screen ](s: &vt100::Screen) -> (r: bool)
    ensures
        r == screen_alternate(*s),
;

/// `vt100::Cell::contents` returns the text of the cell.
pub assume_specification[ vt100::Cell::contents ](c: &vt100::Cell) -> (r: &str)
    ensures
        r@ == cell_text(*c),
;

/// `vt100::Cell::bold` returns whether the cell is bold.
pub assume_specification[ vt100::Cell::bold ](c: &vt100::Cell) -> (r: bool)
    ensures
        r == cell_bold(*c),
;

/// `vt100::Cell::dim` returns whether the cell is dim.
pub assume_specification[ vt100::Cell::dim ](c: &vt100::Cell) -> (r: bool)
    ensures
        r == cell_dim(*c),
;

/// `vt100::Cell::italic` returns whether the cell is italic.
pub assume_specification[ vt100::Cell::italic ](c: &vt100::Cell) -> (r: bool)
    ensures
        r == cell_italic(*c),
;

/// `vt100::Cell::underline` returns whether the cell is underlined.
pub assume_specification[ vt100::Cell::underline ](c: &vt100::Cell) -> (r: bool)
    ensures
        r == cell_underline(*c),
;

/// `vt100::Cell::inverse` returns whether the cell's colors are swapped.
pub assume_specification[ vt100::Cell::inverse ](c: &vt100::Cell) -> (r: bool)
    ensures
        r == cell_inverse(*c),
;

/// Calls `vt100::Cell::fgcolor`: the foreground color of the cell.
#[verifier::external_body]
pub(crate) fn cell_fgcolor(c: &vt100::Cell) -> (r: Color)
    ensures
        r == cell_fg(*c),
{
    match c.fgcolor() {
        vt100::Color::Default => Color::Reset,
        vt100::Color::Idx(i) => Color::Indexed(i),
        vt100::Color::Rgb(r, g, b) => Color::Rgb(r, g, b),
    }
}

/// Calls `vt100::Cell::bgcolor`: the background color of the cell.
#[verifier::external_body]
pub(crate) fn cell_bgcolor(c: &vt100::Cell) -> (r: Color)
    ensures
        r == cell_bg(*c),
{
    match c.bgcolor() {
        vt100::Color::Default => Color::Reset,
        vt100::Color::Idx(i) => Color::Indexed(i),
        vt100::Color::Rgb(r, g, b) => Color::Rgb(r, g, b),
    }
}

} // verus!
