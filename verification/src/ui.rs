//! What the interface shows: the areas of the screen, the styled text of the two
//! panes and the status bar.

use vstd::prelude::*;
use vstd::string::*;

use crate::app::{App, Focus, Layout, Mode};
use crate::area::{or_zero, Constraint, Direction, Rect};
use crate::emulator::{
    cell_bg, cell_bgcolor, cell_bold, cell_dim, cell_fg, cell_fgcolor, cell_inverse, cell_italic,
    cell_text, cell_underline, screen_cursor, screen_cursor_hidden, screen_lines, screen_size,
    shown_cell, shown_line, Color,
};
use crate::terminal::{row_text, Terminal};
use crate::text::{decimal, decimal_string, join, law_decimal_reads_back, read_decimal};

verus! {

/// How a piece of text looks. Without a color it keeps that of what it is drawn on.
#[derive(Debug, Clone, Copy, PartialEq, Eq, Structural)]
pub struct Style {
    pub fg: Option<Color>,
    pub bg: Option<Color>,
    pub bold: bool,
    pub dim: bool,
    pub italic: bool,
    pub underlined: bool,
    pub reversed: bool,
}

/// No color and no modifier.
pub open spec fn plain() -> Style {
    Style {
        fg: None,
        bg: None,
        bold: false,
        dim: false,
        italic: false,
        underlined: false,
        reversed: false,
    }
}

impl Default for Style {
    fn default() -> (s: Self)
        ensures
            s == plain(),
    {
        Style {
            fg: None,
            bg: None,
            bold: false,
            dim: false,
            italic: false,
            underlined: false,
            reversed: false,
        }
    }
}

/// A piece of text in one style.
#[derive(Debug, Clone)]
pub struct Span {
    pub text: String,
    pub style: Style,
}

/// Whether spans hold some texts in some styles.
pub open spec fn spans_are(spans: Seq<Span>, runs: Seq<(Seq<char>, Style)>) -> bool {
    &&& spans.len() == runs.len()
    &&& forall|i: int|
        0 <= i < spans.len() ==> (#[trigger] spans[i]).text@ == runs[i].0 && spans[i].style
            == runs[i].1
}

/// The areas of the interface.
#[derive(Debug, Clone, Copy, PartialEq, Eq, Structural)]
pub struct UiLayout {
    pub kernel: Rect,
    pub app: Rect,
    pub keybinds: Rect,
}

/// The axis along which a layout puts the panes.
pub open spec fn pane_direction(layout: Layout) -> Direction {
    match layout {
        Layout::Vertical => Direction::Horizontal,
        Layout::Horizontal => Direction::Vertical,
    }
}

/// The areas on a screen: the keybinds bar in the last row, above it at least three
/// rows, where there are that many, and those halved between the panes.
pub open spec fn ui_layout(size: Rect, layout: Layout) -> UiLayout {
    let (content, keybinds) = size.divided(
        Direction::Vertical,
        0,
        Constraint::Min(3),
        Constraint::Length(1),
    );
    let (kernel, app) = content.divided(
        pane_direction(layout),
        0,
        Constraint::Percentage(50),
        Constraint::Percentage(50),
    );
    UiLayout { kernel, app, keybinds }
}

impl UiLayout {
    /// Divides the screen.
    pub fn compute(size: Rect, layout: Layout) -> (l: UiLayout)
        ensures
            l == ui_layout(size, layout),
    {
        // Split into main content area and keybinds bar at bottom
        let (content, keybinds) = size.split(
            Direction::Vertical,
            0,
            Constraint::Min(3),
            Constraint::Length(1),
        );
        // Split content area based on current layout
        let direction = match layout {
            Layout::Vertical => Direction::Horizontal,
            Layout::Horizontal => Direction::Vertical,
        };
        let (kernel, app) = content.split(
            direction,
            0,
            Constraint::Percentage(50),
            Constraint::Percentage(50),
        );
        UiLayout { kernel, app, keybinds }
    }

    /// The panes, as (kernel area, app area).
    pub fn pane_areas(&self) -> (r: (Rect, Rect))
        ensures
            r == (self.kernel, self.app),
    {
        (self.kernel, self.app)
    }
}

/// The rows and columns that are left in a pane for a terminal.
pub open spec fn inner_size(frame_size: Rect, layout: Layout) -> (u16, u16) {
    let content = or_zero(frame_size.height - 1);
    match layout {
        Layout::Vertical => (
            or_zero(content - 2) as u16,
            or_zero(frame_size.width as int / 2 - 4) as u16,
        ),
        Layout::Horizontal => (
            or_zero(content / 2 - 2) as u16,
            or_zero(frame_size.width - 4) as u16,
        ),
    }
}

/// Calculate the inner pane size after accounting for borders and padding.
/// Returns (rows, cols) for terminal emulators.
pub fn pane_inner_size(frame_size: Rect, layout: Layout) -> (r: (u16, u16))
    ensures
        r == inner_size(frame_size, layout),
{
    // Account for keybinds bar (1 row)
    let content_height: u16 = frame_size.height.saturating_sub(1);
    let (pane_height, pane_width) = match layout {
        Layout::Vertical => (content_height, frame_size.width / 2),
        Layout::Horizontal => (content_height / 2, frame_size.width),
    };
    // Account for border (2) and horizontal padding (2)
    let inner_rows: u16 = pane_height.saturating_sub(2);
    let inner_cols: u16 = pane_width.saturating_sub(4);
    (inner_rows, inner_cols)
}

/// The panes and the bar are on the screen, and every cell of it is in one of them
/// and in no other.
pub proof fn law_areas_are_apart(size: Rect, layout: Layout, column: int, row: int)
    requires
        size.fits(),
    ensures
        ({
            let l = ui_layout(size, layout);
            &&& l.kernel.has(column, row) ==> size.has(column, row) && !l.app.has(column, row)
                && !l.keybinds.has(column, row)
            &&& l.app.has(column, row) ==> size.has(column, row) && !l.keybinds.has(column, row)
            &&& l.keybinds.has(column, row) ==> size.has(column, row)
            &&& size.has(column, row) ==> l.kernel.has(column, row) || l.app.has(column, row)
                || l.keybinds.has(column, row)
        }),
{
}

/// A terminal of the calculated size has room in either pane.
pub proof fn law_terminal_has_room(size: Rect, layout: Layout)
    requires
        size.fits(),
    ensures
        ({
            let l = ui_layout(size, layout);
            let (rows, cols) = inner_size(size, layout);
            &&& rows <= l.kernel.inside_border(1).height && cols <= l.kernel.inside_border(1).width
            &&& rows <= l.app.inside_border(1).height && cols <= l.app.inside_border(1).width
        }),
{
}

/// The style of a cell.
pub open spec fn cell_style(c: vt100::Cell) -> Style {
    Style {
        fg: Some(cell_fg(c)),
        bg: Some(cell_bg(c)),
        bold: cell_bold(c),
        dim: cell_dim(c),
        italic: cell_italic(c),
        underlined: cell_underline(c),
        reversed: cell_inverse(c),
    }
}

/// Convert a vt100 cell to a style.
fn cell_to_style(cell: &vt100::Cell) -> (s: Style)
    ensures
        s == cell_style(*cell),
{
    Style {
        fg: Some(cell_fgcolor(cell)),
        bg: Some(cell_bgcolor(cell)),
        bold: cell.bold(),
        dim: cell.dim(),
        italic: cell.italic(),
        underlined: cell.underline(),
        reversed: cell.inverse(),
    }
}

/// The first `cols` cells of a row in runs of equal style: the text and the style of
/// each.
pub open spec fn cell_runs(line: Seq<vt100::Cell>, cols: int) -> Seq<(Seq<char>, Style)>
    decreases cols,
{
    if cols <= 0 {
        seq![]
    } else {
        let runs = cell_runs(line, cols - 1);
        if cols > line.len() {
            runs
        } else if runs.len() > 0 && runs.last().1 == cell_style(line[cols - 1]) {
            runs.drop_last().push((runs.last().0 + cell_text(line[cols - 1]), runs.last().1))
        } else {
            runs.push((cell_text(line[cols - 1]), cell_style(line[cols - 1])))
        }
    }
}

/// The runs that have text.
pub open spec fn with_text(runs: Seq<(Seq<char>, Style)>) -> Seq<(Seq<char>, Style)>
    decreases runs.len(),
{
    if runs.len() == 0 {
        seq![]
    } else if runs.last().0.len() == 0 {
        with_text(runs.drop_last())
    } else {
        with_text(runs.drop_last()).push(runs.last())
    }
}

/// The texts of some runs, one behind the other.
pub open spec fn runs_text(runs: Seq<(Seq<char>, Style)>) -> Seq<char>
    decreases runs.len(),
{
    if runs.len() == 0 {
        seq![]
    } else {
        runs_text(runs.drop_last()) + runs.last().0
    }
}

/// Nothing of a row is left out, and nothing empty is shown: the texts of the spans
/// that show it make up its text, and none is empty.
pub proof fn law_spans_hold_the_row(line: Seq<vt100::Cell>, cols: int)
    ensures
        runs_text(with_text(cell_runs(line, cols))) == row_text(line, cols),
        forall|i: int|
            0 <= i < with_text(cell_runs(line, cols)).len() ==> (#[trigger] with_text(
                cell_runs(line, cols),
            )[i]).0.len() > 0,
{
    lemma_runs_hold_the_row(line, cols);
    lemma_with_text(cell_runs(line, cols));
}

proof fn lemma_runs_hold_the_row(line: Seq<vt100::Cell>, cols: int)
    ensures
        runs_text(cell_runs(line, cols)) == row_text(line, cols),
    decreases cols,
{
    if cols > 0 {
        lemma_runs_hold_the_row(line, cols - 1);
        let before = cell_runs(line, cols - 1);
        let runs = cell_runs(line, cols);
        if cols <= line.len() {
            let text = cell_text(line[cols - 1]);
            if before.len() > 0 && before.last().1 == cell_style(line[cols - 1]) {
                assert(runs.drop_last() =~= before.drop_last());
                assert(runs_text(before.drop_last()) + (before.last().0 + text) =~= (runs_text(
                    before.drop_last(),
                ) + before.last().0) + text);
            } else {
                assert(runs.drop_last() =~= before);
            }
        }
    }
}

proof fn lemma_with_text(runs: Seq<(Seq<char>, Style)>)
    ensures
        runs_text(with_text(runs)) == runs_text(runs),
        forall|i: int|
            0 <= i < with_text(runs).len() ==> (#[trigger] with_text(runs)[i]).0.len() > 0,
    decreases runs.len(),
{
    if runs.len() > 0 {
        let fewer = runs.drop_last();
        lemma_with_text(fewer);
        if runs.last().0.len() == 0 {
            assert(runs_text(fewer) + runs.last().0 =~= runs_text(fewer));
        } else {
            assert(with_text(runs).drop_last() =~= with_text(fewer));
            assert forall|i: int| 0 <= i < with_text(runs).len() implies (#[trigger] with_text(
                runs,
            )[i]).0.len() > 0 by {
                if i < with_text(fewer).len() {
                    assert(with_text(runs)[i] == with_text(fewer)[i]);
                }
            }
        }
    }
}

/// The first `cols` cells of a row of the viewport as spans.
fn row_spans(screen: &vt100::Screen, row: u16, cols: u16) -> (spans: Vec<Span>)
    requires
        row < screen_size(*screen).0,
    ensures
        spans_are(
            spans@,
            with_text(
                cell_runs(screen_lines(*screen)[shown_line(*screen, row as int)], cols as int),
            ),
        ),
{
    let ghost line = screen_lines(*screen)[shown_line(*screen, row as int)];
    let mut spans: Vec<Span> = Vec::new();
    let mut current_text = String::new();
    let mut current_style = Style::default();
    let mut col: u16 = 0;
    while col < cols
        invariant
            col <= cols,
            row < screen_size(*screen).0,
            line == screen_lines(*screen)[shown_line(*screen, row as int)],
            ({
                let runs = cell_runs(line, col as int);
                if runs.len() == 0 {
                    spans@.len() == 0 && current_text@.len() == 0 && current_style == plain()
                } else {
                    &&& spans_are(spans@, with_text(runs.drop_last()))
                    &&& current_text@ == runs.last().0
                    &&& current_style == runs.last().1
                }
            }),
        decreases cols - col,
    {
        if let Some(cell) = screen.cell(row, col) {
            let cell_style = cell_to_style(cell);
            let ghost runs = cell_runs(line, col as int);
            let ghost next = cell_runs(line, col + 1);
            if cell_style != current_style {
                if !current_text.as_str().is_empty() {
                    spans.push(Span { text: current_text, style: current_style });
                    current_text = String::new();
                }
                current_style = cell_style;
                assert(next.drop_last() =~= runs);
            } else {
                assert(next.drop_last() =~= runs.drop_last());
            }
            current_text.append(cell.contents());
            assert(current_text@ =~= next.last().0);
        }
        col = col + 1;
    }
    if !current_text.as_str().is_empty() {
        spans.push(Span { text: current_text, style: current_style });
    }
    spans
}

/// What a pane shows.
pub struct PaneView {
    /// The pane with its border.
    pub area: Rect,
    /// The part inside border and padding.
    pub inner: Rect,
    /// The title in the border.
    pub title: String,
    /// The color of the border.
    pub border: Color,
    /// The rows of the terminal, from the top of the inner part.
    pub lines: Vec<Vec<Span>>,
    /// Where to show the cursor, as (column, row) of the screen.
    pub cursor: Option<(u16, u16)>,
}

/// The title of a pane: its name, how far it is scrolled up (`-` for not at all) and
/// how far it could be.
pub open spec fn pane_title(name: Seq<char>, scroll_offset: usize, scrollback_len: usize) -> Seq<
    char,
> {
    let position = if scroll_offset == 0 {
        "-"@
    } else {
        decimal(scroll_offset as nat)
    };
    " "@ + name + " ("@ + position + "/"@ + decimal(scrollback_len as nat) + ") "@
}

/// The lesser of two sizes.
pub open spec fn lesser(a: u16, b: u16) -> u16 {
    if a <= b {
        a
    } else {
        b
    }
}

/// The cell of an area that shows a terminal's cursor, moved into the area.
pub open spec fn cursor_in(inner: Rect, cursor: (u16, u16)) -> (u16, u16) {
    (
        (inner.x + lesser(cursor.1, or_zero(inner.width - 1) as u16)) as u16,
        (inner.y + lesser(cursor.0, or_zero(inner.height - 1) as u16)) as u16,
    )
}

/// What a pane shows of a screen: a white border if it is focused, else a gray one;
/// the title; as many rows and columns as there is room for; and the cursor in the
/// focused pane unless the terminal hides it. With no room inside there are neither
/// rows nor a cursor.
pub open spec fn pane_shows(
    view: PaneView,
    area: Rect,
    name: Seq<char>,
    screen: vt100::Screen,
    scroll_offset: usize,
    scrollback_len: usize,
    focused: bool,
) -> bool {
    let inner = area.inside_border(1);
    let rows = lesser(screen_size(screen).0, inner.height);
    let cols = lesser(screen_size(screen).1, inner.width);
    &&& view.area == area
    &&& view.inner == inner
    &&& view.title@ == pane_title(name, scroll_offset, scrollback_len)
    &&& view.border == (if focused {
        Color::White
    } else {
        Color::DarkGray
    })
    &&& if inner.height == 0 || inner.width == 0 {
        view.lines@.len() == 0 && view.cursor is None
    } else {
        &&& view.lines@.len() == rows
        &&& forall|i: int|
            0 <= i < rows ==> spans_are(
                (#[trigger] view.lines@[i])@,
                with_text(cell_runs(screen_lines(screen)[shown_line(screen, i)], cols as int)),
            )
        &&& view.cursor == (if focused && !screen_cursor_hidden(screen) {
            Some(cursor_in(inner, screen_cursor(screen)))
        } else {
            None
        })
    }
}

/// The cursor of a pane is inside it.
pub proof fn law_cursor_is_inside(area: Rect, cursor: (u16, u16))
    requires
        area.fits(),
        area.inside_border(1).width > 0,
        area.inside_border(1).height > 0,
    ensures
        ({
            let inner = area.inside_border(1);
            let (column, row) = cursor_in(inner, cursor);
            inner.has(column as int, row as int) && area.has(column as int, row as int)
        }),
{
}

/// The title of a pane.
fn render_title(name: &str, scroll_offset: usize, scrollback_len: usize) -> (title: String)
    ensures
        title@ == pane_title(name@, scroll_offset, scrollback_len),
{
    let mut title = join(" ", name);
    title.append(" (");
    if scroll_offset == 0 {
        title.append("-");
    } else {
        title.append(decimal_string(scroll_offset).as_str());
    }
    title.append("/");
    title.append(decimal_string(scrollback_len).as_str());
    title.append(") ");
    title
}

/// Render a vt100 terminal pane.
fn render_terminal_pane(
    area: Rect,
    title: &str,
    screen: &vt100::Screen,
    scroll_offset: usize,
    scrollback_len: usize,
    focused: bool,
) -> (view: PaneView)
    requires
        area.fits(),
    ensures
        pane_shows(view, area, title@, *screen, scroll_offset, scrollback_len, focused),
{
    let border = if focused {
        Color::White
    } else {
        Color::DarkGray
    };
    let title = render_title(title, scroll_offset, scrollback_len);
    let inner = area.inner(1);
    let mut lines: Vec<Vec<Span>> = Vec::new();
    if inner.height == 0 || inner.width == 0 {
        return PaneView { area, inner, title, border, lines, cursor: None };
    }
    // Build lines from the vt100 screen
    let (rows, cols) = screen.size();
    let shown_rows: u16 = min(rows, inner.height);
    let shown_cols: u16 = min(cols, inner.width);
    let mut row: u16 = 0;
    while row < shown_rows
        invariant
            row <= shown_rows <= screen_size(*screen).0,
            lines@.len() == row,
            forall|i: int|
                0 <= i < row ==> spans_are(
                    (#[trigger] lines@[i])@,
                    with_text(
                        cell_runs(screen_lines(*screen)[shown_line(*screen, i)], shown_cols as int),
                    ),
                ),
        decreases shown_rows - row,
    {
        lines.push(row_spans(screen, row, shown_cols));
        row = row + 1;
    }
    // Show cursor if focused
    let cursor = if focused && !screen.hide_cursor() {
        let (cursor_row, cursor_col) = screen.cursor_position();
        let cursor_x: u16 = inner.x + min(cursor_col, inner.width.saturating_sub(1));
        let cursor_y: u16 = inner.y + min(cursor_row, inner.height.saturating_sub(1));
        Some((cursor_x, cursor_y))
    } else {
        None
    };
    PaneView { area, inner, title, border, lines, cursor }
}

/// The lesser of two sizes.
fn min(a: u16, b: u16) -> (r: u16)
    ensures
        r == lesser(a, b),
{
    if a <= b {
        a
    } else {
        b
    }
}

/// The bottom line: on the left the mode and its keys, on the right, aligned to the
/// right, the terminal's size.
pub struct StatusBar {
    pub left_area: Rect,
    pub right_area: Rect,
    pub left: Vec<Span>,
    pub right: Span,
}

/// The style of a key's name.
pub open spec fn key_style() -> Style {
    Style { fg: Some(Color::Cyan), bold: true, ..plain() }
}

/// The style of a mode's name: black on a color.
pub open spec fn mode_style(color: Color) -> Style {
    Style { fg: Some(Color::Black), bg: Some(color), ..plain() }
}

/// The mode and its keys.
pub open spec fn status_runs(mode: Mode) -> Seq<(Seq<char>, Style)> {
    match mode {
        Mode::Insert => seq![
            (" INSERT "@, mode_style(Color::Green)),
            (" "@, plain()),
            ("Esc"@, key_style()),
            (": Normal Mode"@, plain()),
        ],
        Mode::Normal => seq![
            (" NORMAL "@, mode_style(Color::Blue)),
            (" "@, plain()),
            ("i"@, key_style()),
            (": Insert Mode  "@, plain()),
            ("q"@, key_style()),
            (": Quit  "@, plain()),
            ("s"@, key_style()),
            (": Layout  "@, plain()),
            ("r"@, key_style()),
            (": Resize  "@, plain()),
            ("w"@, key_style()),
            (": Switch pane  "@, plain()),
            ("j/k"@, key_style()),
            (": Scroll  "@, plain()),
            ("c"@, key_style()),
            (": Clear"@, plain()),
        ],
        Mode::Search => seq![
            (" SEARCH "@, mode_style(Color::Yellow)),
            (" "@, plain()),
            ("Enter"@, key_style()),
            (": Keep matches  "@, plain()),
            ("Esc"@, key_style()),
            (": Cancel"@, plain()),
        ],
    }
}

/// A terminal's size as columns by rows.
pub open spec fn size_text(size: (u16, u16)) -> Seq<char> {
    decimal(size.1 as nat) + "x"@ + decimal(size.0 as nat)
}

/// What the status bar shows.
pub open spec fn status_shows(bar: StatusBar, area: Rect, mode: Mode, size: (u16, u16)) -> bool {
    &&& (bar.left_area, bar.right_area) == area.divided(
        Direction::Horizontal,
        1,
        Constraint::Min(0),
        Constraint::Percentage(30),
    )
    &&& spans_are(bar.left@, status_runs(mode))
    &&& bar.right.text@ == size_text(size)
    &&& bar.right.style == (Style { fg: Some(Color::Yellow), ..plain() })
}

/// Adds a span.
fn add_span(spans: &mut Vec<Span>, text: &str, style: Style)
    ensures
        final(spans)@.len() == old(spans)@.len() + 1,
        forall|i: int| 0 <= i < old(spans)@.len() ==> final(spans)@[i] == old(spans)@[i],
        final(spans)@.last().text@ == text@,
        final(spans)@.last().style == style,
{
    spans.push(Span { text: text.to_owned(), style });
}

/// Adds the name of a key and what it does.
fn add_keybind(spans: &mut Vec<Span>, key: &str, text: &str)
    ensures
        final(spans)@.len() == old(spans)@.len() + 2,
        forall|i: int| 0 <= i < old(spans)@.len() ==> final(spans)@[i] == old(spans)@[i],
        final(spans)@[old(spans)@.len() as int].text@ == key@,
        final(spans)@[old(spans)@.len() as int].style == key_style(),
        final(spans)@.last().text@ == text@,
        final(spans)@.last().style == plain(),
{
    let style = Style { fg: Some(Color::Cyan), bold: true, ..Style::default() };
    add_span(spans, key, style);
    add_span(spans, text, Style::default());
}

/// Render the status bar.
fn render_keybinds(area: Rect, app: &App) -> (bar: StatusBar)
    ensures
        status_shows(bar, area, app.mode, app.app_terminal.dimensions()),
{
    let (rows, cols) = app.app_terminal.size();
    let (left_area, right_area) = area.split(
        Direction::Horizontal,
        1,
        Constraint::Min(0),
        Constraint::Percentage(30),
    );
    // Left side: mode indicator and keybinds
    let mut left: Vec<Span> = Vec::new();
    let (name, color) = match app.mode {
        Mode::Insert => (" INSERT ", Color::Green),
        Mode::Normal => (" NORMAL ", Color::Blue),
        Mode::Search => (" SEARCH ", Color::Yellow),
    };
    let style = Style { fg: Some(Color::Black), bg: Some(color), ..Style::default() };
    add_span(&mut left, name, style);
    add_span(&mut left, " ", Style::default());
    match app.mode {
        Mode::Insert => {
            add_keybind(&mut left, "Esc", ": Normal Mode");
        },
        Mode::Normal => {
            add_keybind(&mut left, "i", ": Insert Mode  ");
            add_keybind(&mut left, "q", ": Quit  ");
            add_keybind(&mut left, "s", ": Layout  ");
            add_keybind(&mut left, "r", ": Resize  ");
            add_keybind(&mut left, "w", ": Switch pane  ");
            add_keybind(&mut left, "j/k", ": Scroll  ");
            add_keybind(&mut left, "c", ": Clear");
        },
        Mode::Search => {
            add_keybind(&mut left, "Enter", ": Keep matches  ");
            add_keybind(&mut left, "Esc", ": Cancel");
        },
    }
    // Right side: terminal size
    let mut text = decimal_string(cols as usize);
    text.append("x");
    text.append(decimal_string(rows as usize).as_str());
    let right = Span { text, style: Style { fg: Some(Color::Yellow), ..Style::default() } };
    StatusBar { left_area, right_area, left, right }
}

/// What the interface shows.
pub struct Picture {
    pub kernel: PaneView,
    pub app: PaneView,
    pub status: StatusBar,
}

/// What a pane shows of a terminal.
pub open spec fn pane_of(
    view: PaneView,
    area: Rect,
    name: Seq<char>,
    t: Terminal,
    focused: bool,
) -> bool {
    pane_shows(view, area, name, t.shown(), t.scroll_offset, t.scrollback_len, focused)
}

/// What the interface shows of an application on a screen of some size.
pub open spec fn picture_of(view: Picture, size: Rect, app: App) -> bool {
    let l = ui_layout(size, app.layout);
    &&& pane_of(
        view.kernel,
        l.kernel,
        "Kernel"@,
        app.kernel_terminal,
        app.focus == Focus::Kernel,
    )
    &&& pane_of(view.app, l.app, "App"@, app.app_terminal, app.focus == Focus::App)
    &&& status_shows(view.status, l.keybinds, app.mode, app.app_terminal.dimensions())
}

/// Render the application UI.
pub fn render(size: Rect, app: &App) -> (view: Picture)
    requires
        size.fits(),
    ensures
        picture_of(view, size, *app),
{
    let layout = UiLayout::compute(size, app.layout);
    // Render kernel pane
    let kernel = render_terminal_pane(
        layout.kernel,
        "Kernel",
        app.kernel_terminal.screen(),
        app.kernel_terminal.scroll_offset(),
        app.kernel_terminal.scrollback_len(),
        app.focus == Focus::Kernel,
    );
    // Render app pane
    let app_pane = render_terminal_pane(
        layout.app,
        "App",
        app.app_terminal.screen(),
        app.app_terminal.scroll_offset(),
        app.app_terminal.scrollback_len(),
        app.focus == Focus::App,
    );
    // Render keybinds bar
    let status = render_keybinds(layout.keybinds, app);
    Picture { kernel, app: app_pane, status }
}

/// The run of a row that shows some character of one of its cells.
proof fn lemma_run_of_cell(line: Seq<vt100::Cell>, cols: int, k: int, q: int) -> (r: (int, int))
    requires
        0 <= k < cols,
        k < line.len(),
        0 <= q < cell_text(line[k]).len(),
    ensures
        ({
            let runs = cell_runs(line, cols);
            let (s, t) = r;
            &&& 0 <= s < runs.len() && 0 <= t < runs[s].0.len()
            &&& runs[s].0[t] == cell_text(line[k])[q]
            &&& runs[s].1 == cell_style(line[k])
            &&& runs_text(runs.take(s)).len() + t == row_text(line, k).len() + q
        }),
    decreases cols,
{
    let runs = cell_runs(line, cols);
    let before = cell_runs(line, cols - 1);
    if k < cols - 1 {
        let (s, t) = lemma_run_of_cell(line, cols - 1, k, q);
        assert(runs.take(s) =~= before.take(s));
        (s, t)
    } else {
        lemma_runs_hold_the_row(line, cols - 1);
        let s = runs.len() - 1;
        assert(before.take(before.len() as int) =~= before);
        if before.len() > 0 && before.last().1 == cell_style(line[k]) {
            assert(runs.take(s) =~= before.drop_last());
            (s, before.last().0.len() + q)
        } else {
            assert(runs.take(s) =~= before);
            (s, q)
        }
    }
}

/// The runs with text of the first runs are the first of those with text.
proof fn lemma_with_text_takes(runs: Seq<(Seq<char>, Style)>, s: int)
    requires
        0 <= s < runs.len(),
        runs[s].0.len() > 0,
    ensures
        ({
            let i = with_text(runs.take(s)).len() as int;
            &&& 0 <= i < with_text(runs).len()
            &&& with_text(runs)[i] == runs[s]
            &&& with_text(runs).take(i) == with_text(runs.take(s))
        }),
    decreases runs.len(),
{
    let fewer = runs.drop_last();
    let i = with_text(runs.take(s)).len() as int;
    if s == runs.len() - 1 {
        assert(runs.take(s) =~= fewer);
        assert(with_text(runs).take(i) =~= with_text(fewer));
    } else {
        lemma_with_text_takes(fewer, s);
        assert(fewer.take(s) =~= runs.take(s));
        assert(with_text(runs).take(i) =~= with_text(fewer).take(i));
    }
}

/// The texts of spans are those of the runs that they hold.
proof fn lemma_spans_text(spans: Seq<Span>, runs: Seq<(Seq<char>, Style)>)
    requires
        spans_are(spans, runs),
    ensures
        spans.map_values(|p: Span| p.text@).flatten() == runs_text(runs),
    decreases spans.len(),
{
    let texts = spans.map_values(|p: Span| p.text@);
    texts.lemma_flatten_and_flatten_alt_are_equivalent();
    if spans.len() > 0 {
        lemma_spans_text(spans.drop_last(), runs.drop_last());
        let fewer = spans.drop_last().map_values(|p: Span| p.text@);
        fewer.lemma_flatten_and_flatten_alt_are_equivalent();
        assert(texts.drop_last() =~= fewer);
    }
}

/// A pane shows every character of every cell that there is room for, in its place and
/// looking as the emulator has it: in the cell's colors, and bold, dim, italic,
/// underlined or reversed exactly if the cell is.
pub proof fn law_cells_keep_their_look(
    view: PaneView,
    area: Rect,
    name: Seq<char>,
    t: Terminal,
    focused: bool,
    row: int,
    col: int,
    q: int,
)
    requires
        pane_of(view, area, name, t, focused),
        0 <= row < t.dimensions().0 && row < view.inner.height,
        0 <= col < t.dimensions().1 && col < view.inner.width,
        shown_cell(t.shown(), row, col) matches Some(c) && 0 <= q < cell_text(c).len(),
    ensures
        row < view.lines@.len(),
        exists|s: int, k: int|
            #![trigger view.lines@[row]@[s].text@[k]]
            {
                let spans = view.lines@[row]@;
                let line = screen_lines(t.shown())[shown_line(t.shown(), row)];
                let c = shown_cell(t.shown(), row, col)->0;
                &&& 0 <= s < spans.len() && 0 <= k < spans[s].text@.len()
                &&& spans[s].text@[k] == cell_text(c)[q]
                &&& spans.take(s).map_values(|p: Span| p.text@).flatten().len() + k == row_text(
                    line,
                    col,
                ).len() + q
                &&& spans[s].style.italic <==> cell_italic(c)
                &&& spans[s].style.underlined <==> cell_underline(c)
                &&& spans[s].style.bold <==> cell_bold(c)
                &&& spans[s].style.dim <==> cell_dim(c)
                &&& spans[s].style.reversed <==> cell_inverse(c)
                &&& spans[s].style.fg == Some(cell_fg(c))
                &&& spans[s].style.bg == Some(cell_bg(c))
            },
{
    let spans = view.lines@[row]@;
    let line = screen_lines(t.shown())[shown_line(t.shown(), row)];
    let cols = lesser(t.dimensions().1, area.inside_border(1).width) as int;
    let runs = cell_runs(line, cols);
    let (i, k) = lemma_run_of_cell(line, cols, col, q);
    lemma_with_text_takes(runs, i);
    lemma_with_text(runs.take(i));
    let s = with_text(runs.take(i)).len() as int;
    lemma_spans_text(spans.take(s), with_text(runs).take(s));
    assert(spans[s].text@[k] == cell_text(line[col])[q]);
}

/// A pane shows nothing else: the text of a row of it is that of the cells that there is
/// room for, and there are as many rows as there are on the screen and is room for.
pub proof fn law_panes_show_the_screen(
    view: PaneView,
    area: Rect,
    name: Seq<char>,
    t: Terminal,
    focused: bool,
    row: int,
)
    requires
        pane_of(view, area, name, t, focused),
        view.inner.height > 0 && view.inner.width > 0,
        0 <= row < view.lines@.len(),
    ensures
        t.dimensions().0 <= view.inner.height ==> view.lines@.len() == t.dimensions().0,
        t.dimensions().0 >= view.inner.height ==> view.lines@.len() == view.inner.height,
        ({
            let line = screen_lines(t.shown())[shown_line(t.shown(), row)];
            let text = view.lines@[row]@.map_values(|p: Span| p.text@).flatten();
            &&& t.dimensions().1 <= view.inner.width ==> text == row_text(
                line,
                t.dimensions().1 as int,
            )
            &&& t.dimensions().1 >= view.inner.width ==> text == row_text(
                line,
                view.inner.width as int,
            )
        }),
{
    let line = screen_lines(t.shown())[shown_line(t.shown(), row)];
    let cols = lesser(t.dimensions().1, area.inside_border(1).width) as int;
    law_spans_hold_the_row(line, cols);
    lemma_spans_text(view.lines@[row]@, with_text(cell_runs(line, cols)));
}

/// The frame of a pane: a border of one cell and a column of padding on either side; a
/// white border if the pane is focused and a gray one if it is not; and in it the name of
/// the pane, the scroll offset, or `-` at the bottom, and the length of the scrollback.
pub proof fn law_the_frame_of_a_pane(
    view: PaneView,
    area: Rect,
    name: Seq<char>,
    t: Terminal,
    focused: bool,
)
    requires
        area.fits(),
        pane_of(view, area, name, t, focused),
    ensures
        view.area == area,
        area.width >= 4 && area.height >= 2 ==> view.inner == (Rect {
            x: (area.x + 2) as u16,
            y: (area.y + 1) as u16,
            width: (area.width - 4) as u16,
            height: (area.height - 2) as u16,
        }),
        area.width <= 4 || area.height <= 2 ==> view.lines@.len() == 0 && view.cursor is None,
        focused ==> view.border == Color::White,
        !focused ==> view.border == Color::DarkGray,
        t.scroll_offset == 0 ==> view.title@ == " "@ + name + " ("@ + "-"@ + "/"@ + decimal(
            t.scrollback_len as nat,
        ) + ") "@,
        t.scroll_offset > 0 ==> view.title@ == " "@ + name + " ("@ + decimal(
            t.scroll_offset as nat,
        ) + "/"@ + decimal(t.scrollback_len as nat) + ") "@,
{
}

/// The cursor is shown in the focused pane unless the emulator hides it, where the
/// emulator has it; one that there is no room for is shown at the nearest edge.
pub proof fn law_the_cursor_of_a_pane(
    view: PaneView,
    area: Rect,
    name: Seq<char>,
    t: Terminal,
    focused: bool,
)
    requires
        area.fits(),
        area.width > 4 && area.height > 2,
        pane_of(view, area, name, t, focused),
    ensures
        view.cursor is Some <==> focused && !screen_cursor_hidden(t.shown()),
        view.cursor matches Some(at) ==> ({
            let (row, col) = screen_cursor(t.shown());
            &&& col < area.width - 4 ==> at.0 == area.x + 2 + col
            &&& col >= area.width - 4 ==> at.0 == area.x + area.width - 3
            &&& row < area.height - 2 ==> at.1 == area.y + 1 + row
            &&& row >= area.height - 2 ==> at.1 == area.y + area.height - 2
        }),
{
}

/// The areas in numbers: the bar is the last row of a screen of four rows or more, and
/// the panes share the rows above it, or all rows of a smaller screen.
/// One above the other, or side by side with a vertical split, the kernel's comes first
/// and is at most one row or column the larger.
pub proof fn law_panes_are_halves(size: Rect, layout: Layout)
    requires
        size.fits(),
    ensures
        ({
            let l = ui_layout(size, layout);
            let bar = if size.height >= 4 {
                1int
            } else {
                0
            };
            let rows = size.height - bar;
            &&& l.keybinds == (Rect { y: (size.y + rows) as u16, height: bar as u16, ..size })
            &&& l.kernel.x == size.x && l.kernel.y == size.y
            &&& layout == Layout::Horizontal ==> {
                &&& l.kernel.width == size.width && l.app.width == size.width
                &&& l.kernel.height == (rows + 1) / 2 && l.app.height == rows / 2
                &&& l.app.x == size.x && l.app.y == size.y + l.kernel.height
            }
            &&& layout == Layout::Vertical ==> {
                &&& l.kernel.height == rows && l.app.height == rows
                &&& l.kernel.width == (size.width + 1) / 2 && l.app.width == size.width as int / 2
                &&& l.app.y == size.y && l.app.x == size.x + l.kernel.width
            }
        }),
{
}

/// A terminal is as large as the application's pane has room for, and has no rows on a
/// screen that is too small for the bar.
pub proof fn law_terminals_fill_their_pane(size: Rect, layout: Layout)
    requires
        size.fits(),
    ensures
        ({
            let l = ui_layout(size, layout);
            let (rows, cols) = inner_size(size, layout);
            &&& size.height >= 4 && l.app.height >= 2 ==> rows == l.app.height - 2
            &&& size.height < 4 || l.app.height <= 2 ==> rows == 0
            &&& l.app.width >= 4 ==> cols == l.app.width - 4
            &&& l.app.width <= 4 ==> cols == 0
        }),
{
}

/// The kernel's pane shows the kernel's terminal and the application's pane its own, each
/// in its area, under its name, and framed as focused exactly if it has the focus.
pub proof fn law_each_pane_shows_its_terminal(view: Picture, size: Rect, app: App)
    requires
        size.fits(),
        picture_of(view, size, app),
    ensures
        view.kernel.area == ui_layout(size, app.layout).kernel,
        view.app.area == ui_layout(size, app.layout).app,
        pane_of(
            view.kernel,
            view.kernel.area,
            "Kernel"@,
            app.kernel_terminal,
            app.focus == Focus::Kernel,
        ),
        pane_of(view.app, view.app.area, "App"@, app.app_terminal, app.focus == Focus::App),
        app.focus == Focus::Kernel <==> view.kernel.border == Color::White,
        app.focus == Focus::App <==> view.app.border == Color::White,
        !(view.kernel.cursor is Some && view.app.cursor is Some),
        status_shows(
            view.status,
            ui_layout(size, app.layout).keybinds,
            app.mode,
            app.app_terminal.dimensions(),
        ),
{
}

/// The bar names the mode, black on a color of its own, and then the keys, bold and cyan,
/// each followed by what it does.
pub proof fn law_the_bar_names_the_mode(bar: StatusBar, area: Rect, mode: Mode, size: (u16, u16))
    requires
        status_shows(bar, area, mode, size),
    ensures
        bar.left@.len() >= 4,
        bar.left@[0].text@ == (match mode {
            Mode::Insert => " INSERT "@,
            Mode::Normal => " NORMAL "@,
            Mode::Search => " SEARCH "@,
        }),
        bar.left@[0].style.fg == Some(Color::Black),
        bar.left@[0].style.bg == Some(
            match mode {
                Mode::Insert => Color::Green,
                Mode::Normal => Color::Blue,
                Mode::Search => Color::Yellow,
            },
        ),
        bar.left@[1].text@ == " "@,
        bar.left@.len() % 2 == 0,
        forall|i: int|
            2 <= i < bar.left@.len() && i % 2 == 0 ==> (#[trigger] bar.left@[i]).style.bold
                && bar.left@[i].style.fg == Some(Color::Cyan) && bar.left@[i].style.bg is None,
        forall|i: int|
            1 <= i < bar.left@.len() && i % 2 == 1 ==> (#[trigger] bar.left@[i]).style == (Style {
                fg: None,
                bg: None,
                bold: false,
                dim: false,
                italic: false,
                underlined: false,
                reversed: false,
            }),
        forall|i: int|
            0 <= i < bar.left@.len() ==> !(#[trigger] bar.left@[i]).style.dim
                && !bar.left@[i].style.italic && !bar.left@[i].style.underlined
                && !bar.left@[i].style.reversed,
{
    let runs = status_runs(mode);
    assert(bar.left@.len() == runs.len());
    assert forall|i: int| 0 <= i < bar.left@.len() implies (#[trigger] bar.left@[i]).style
        == runs[i].1 by {}
}

/// The keys that the bar names: Esc in Insert mode; those for Insert mode, quitting, the
/// layout, the resize command, the other pane, scrolling and clearing in Normal mode;
/// Enter and Esc in Search mode.
pub proof fn law_the_bar_names_the_keys(bar: StatusBar, area: Rect, mode: Mode, size: (u16, u16))
    requires
        status_shows(bar, area, mode, size),
    ensures
        mode == Mode::Insert ==> bar.left@.len() == 4 && bar.left@[2].text@ == "Esc"@
            && bar.left@[3].text@ == ": Normal Mode"@,
        mode == Mode::Search ==> bar.left@.len() == 6 && bar.left@[2].text@ == "Enter"@
            && bar.left@[3].text@ == ": Keep matches  "@ && bar.left@[4].text@ == "Esc"@
            && bar.left@[5].text@ == ": Cancel"@,
        mode == Mode::Normal ==> {
            &&& bar.left@.len() == 16
            &&& bar.left@[2].text@ == "i"@ && bar.left@[3].text@ == ": Insert Mode  "@
            &&& bar.left@[4].text@ == "q"@ && bar.left@[5].text@ == ": Quit  "@
            &&& bar.left@[6].text@ == "s"@ && bar.left@[7].text@ == ": Layout  "@
            &&& bar.left@[8].text@ == "r"@ && bar.left@[9].text@ == ": Resize  "@
            &&& bar.left@[10].text@ == "w"@ && bar.left@[11].text@ == ": Switch pane  "@
            &&& bar.left@[12].text@ == "j/k"@ && bar.left@[13].text@ == ": Scroll  "@
            &&& bar.left@[14].text@ == "c"@ && bar.left@[15].text@ == ": Clear"@
        },
{
}

/// On the right the bar tells the terminal's columns and rows, in yellow, as two decimal
/// numbers with an `x` between them.
pub proof fn law_the_bar_tells_the_size(bar: StatusBar, area: Rect, mode: Mode, size: (u16, u16))
    requires
        status_shows(bar, area, mode, size),
    ensures
        exists|cols: Seq<char>, rows: Seq<char>|
            bar.right.text@ == #[trigger] (cols + "x"@ + rows) && read_decimal(cols) == size.1
                && read_decimal(rows) == size.0 && (forall|i: int|
                0 <= i < cols.len() ==> '0' <= #[trigger] cols[i] <= '9') && (forall|i: int|
                0 <= i < rows.len() ==> '0' <= #[trigger] rows[i] <= '9') && (cols[0] != '0'
                || cols == seq!['0']) && (rows[0] != '0' || rows == seq!['0']),
        bar.right.style == (Style {
            fg: Some(Color::Yellow),
            bg: None,
            bold: false,
            dim: false,
            italic: false,
            underlined: false,
            reversed: false,
        }),
{
    let cols = decimal(size.1 as nat);
    let rows = decimal(size.0 as nat);
    law_decimal_reads_back(size.1 as nat);
    law_decimal_reads_back(size.0 as nat);
    assert(bar.right.text@ == cols + "x"@ + rows);
}

/// The bar leaves a column free at either end; of the rest the size has three tenths on
/// the right, to the nearest column, and the keys what is left of it.
pub proof fn law_the_parts_of_the_bar(bar: StatusBar, area: Rect, mode: Mode, size: (u16, u16))
    requires
        area.fits(),
        status_shows(bar, area, mode, size),
    ensures
        area.width < 2 ==> bar.left_area.width == 0 && bar.right_area.width == 0,
        area.width >= 2 ==> ({
            let (left, right) = (bar.left_area, bar.right_area);
            &&& left.y == area.y && right.y == area.y
            &&& left.height == area.height && right.height == area.height
            &&& left.x == area.x + 1 && right.x == left.x + left.width
            &&& left.width + right.width == area.width - 2
            &&& -50 <= 100 * right.width - 30 * (area.width - 2) < 50
        }),
{
}

} // verus!
