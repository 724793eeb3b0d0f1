//! A scrollable, searchable terminal pane.

use vstd::prelude::*;
use vstd::slice::slice_subrange;
use vstd::string::*;
use vstd::utf8::encode_utf8;

use crate::area::or_zero;
use crate::emulator::{
    cell_text, clamped, clear_sequence, emulator_accepts, emulator_capacity, emulator_consistent,
    emulator_accepts_each, emulator_fed, emulator_fed_each, emulator_narrow, emulator_new, emulator_resized, emulator_robust,
    emulator_screen, emulator_scrolled, emulator_scrolls, emulator_unclipped, history_row, roomy, rows_came, stays,
    same_but_viewport, screen_alternate, screen_cursor_hidden, screen_history, screen_lines,
    screen_offset, screen_size, shown_cell, shown_line, Emulator,
};
use crate::pattern::{
    build_insensitive, find_spans, insensitive_regex, regex_spans, spans_in_order,
};
use crate::text::{ascii_bytes, lemma_encoding_joins};

verus! {

/// The longest history whose rows can be counted past the screen in an `isize`.
pub open spec fn countable() -> int {
    isize::MAX - 65536
}

/// Search direction (vim-style).
#[derive(Debug, Clone, Copy, PartialEq, Eq, Structural)]
pub enum SearchDirection {
    /// `/` search - forward (toward bottom/newer)
    Forward,
    /// `?` search - backward (toward top/older)
    Backward,
}

impl Default for SearchDirection {
    fn default() -> (d: Self)
        ensures
            d == SearchDirection::Forward,
    {
        SearchDirection::Forward
    }
}

/// A single search match location.
#[derive(Debug, Clone, Copy)]
pub struct SearchMatch {
    /// Scroll offset when this row is at position `view_row`.
    pub scroll_offset: usize,
    /// Row index within the visible screen (0 = top of visible area).
    pub view_row: usize,
    /// Start column (0-based).
    pub start_col: usize,
    /// End column (exclusive).
    pub end_col: usize,
}

/// State for incremental search within a terminal.
#[derive(Debug, Clone)]
pub struct SearchState {
    /// Current search pattern being typed.
    pub pattern: String,
    /// Compiled regex (None if pattern is empty or invalid).
    pub regex: Option<regex::Regex>,
    /// Whether the pattern is invalid.
    pub error: bool,
    /// Matches found, oldest row first.
    pub matches: Vec<SearchMatch>,
    /// Current match index (for n/N navigation).
    pub current_match: usize,
    /// Search direction (/ = forward, ? = backward).
    pub direction: SearchDirection,
}

/// The expression that a pattern searches for; none for the empty pattern.
pub open spec fn compiled(pattern: Seq<char>) -> Option<regex::Regex> {
    if pattern.len() == 0 {
        None
    } else {
        insensitive_regex(pattern)
    }
}

/// The index after `i` in a round of `len`.
pub open spec fn index_after(i: int, len: int) -> int {
    (i + 1) % len
}

/// The index before `i` in a round of `len`.
pub open spec fn index_before(i: int, len: int) -> int {
    if i == 0 {
        len - 1
    } else {
        i - 1
    }
}

impl SearchState {
    /// The expression is that of the pattern, and an error is shown exactly for a
    /// pattern that has none.
    pub open spec fn in_step(&self) -> bool {
        &&& self.regex == compiled(self.pattern@)
        &&& self.error == (self.pattern@.len() > 0 && self.regex is None)
    }

    /// What every operation keeps: the expression is that of the pattern, matches are
    /// those of an expression, and the current one is among them, if there are any.
    pub open spec fn wf(&self) -> bool {
        &&& self.in_step()
        &&& self.regex is None ==> self.matches@.len() == 0
        &&& if self.matches@.len() == 0 {
            self.current_match == 0
        } else {
            self.current_match < self.matches@.len()
        }
    }

    /// The state after its pattern has become `pattern`: compiled anew, with no
    /// matches.
    pub open spec fn has_pattern(&self, pattern: Seq<char>, direction: SearchDirection) -> bool {
        &&& self.pattern@ == pattern
        &&& self.in_step()
        &&& self.matches@ == Seq::<SearchMatch>::empty()
        &&& self.current_match == 0
        &&& self.direction == direction
    }

    /// The match that index `i` names, if there is one.
    pub open spec fn match_at(&self, i: int) -> Option<SearchMatch> {
        if 0 <= i < self.matches@.len() {
            Some(self.matches@[i])
        } else {
            None
        }
    }

    /// Whether a move goes toward newer content.
    pub open spec fn goes_forward(&self, along: bool) -> bool {
        (self.direction == SearchDirection::Forward) == along
    }

    /// Where a move along the search direction, or against it, leads.
    pub open spec fn index_moved(&self, along: bool) -> int {
        if self.goes_forward(along) {
            index_after(self.current_match as int, self.matches@.len() as int)
        } else {
            index_before(self.current_match as int, self.matches@.len() as int)
        }
    }

    /// What a move does to the state: nothing without matches, else the index
    /// becomes the one moved to.
    pub open spec fn moved(&self, after: &SearchState, along: bool) -> bool {
        if self.matches@.len() == 0 {
            *after == *self
        } else {
            *after == (SearchState { current_match: self.index_moved(along) as usize, ..*self })
        }
    }

    /// Update the search pattern and recompile regex.
    pub fn set_pattern(&mut self, pattern: String)
        ensures
            final(self).has_pattern(pattern@, old(self).direction),
    {
        self.pattern = pattern;
        self.compile_regex();
    }

    /// Add a character to the pattern.
    pub fn push_char(&mut self, c: char)
        ensures
            final(self).has_pattern(old(self).pattern@.push(c), old(self).direction),
    {
        self.pattern.push(c);
        self.compile_regex();
    }

    /// Remove the last character from the pattern.
    pub fn pop_char(&mut self)
        ensures
            final(self).has_pattern(
                if old(self).pattern@.len() == 0 {
                    old(self).pattern@
                } else {
                    old(self).pattern@.drop_last()
                },
                old(self).direction,
            ),
    {
        let _ = self.pattern.pop();
        self.compile_regex();
    }

    /// Compile the regex from the current pattern.
    fn compile_regex(&mut self)
        ensures
            final(self).has_pattern(old(self).pattern@, old(self).direction),
    {
        if self.pattern.as_str().is_empty() {
            self.regex = None;
            self.error = false;
        } else {
            match build_insensitive(self.pattern.as_str()) {
                Ok(re) => {
                    self.regex = Some(re);
                    self.error = false;
                },
                Err(_) => {
                    self.regex = None;
                    self.error = true;
                },
            }
        }
        // Reset matches when pattern changes (repopulated by a search)
        self.matches.clear();
        self.current_match = 0;
    }

    /// Clear the search state entirely, but for the direction, so that repeated
    /// searches use the same one.
    pub fn clear(&mut self)
        ensures
            final(self).has_pattern(Seq::empty(), old(self).direction),
    {
        self.pattern.clear();
        self.regex = None;
        self.error = false;
        self.matches.clear();
        self.current_match = 0;
    }

    /// Move forward in matches (toward higher indices = newer content).
    fn move_forward(&mut self) -> (r: Option<SearchMatch>)
        requires
            old(self).matches@.len() > 0 ==> old(self).current_match < usize::MAX,
        ensures
            old(self).matches@.len() == 0 ==> r is None && *final(self) == *old(self),
            old(self).matches@.len() > 0 ==> {
                let i = index_after(old(self).current_match as int, old(self).matches@.len() as int);
                &&& *final(self) == (SearchState { current_match: i as usize, ..*old(self) })
                &&& r == old(self).match_at(i)
            },
    {
        if self.matches.len() == 0 {
            return None;
        }
        self.current_match = (self.current_match + 1) % self.matches.len();
        Some(self.matches[self.current_match])
    }

    /// Move backward in matches (toward lower indices = older content).
    fn move_backward(&mut self) -> (r: Option<SearchMatch>)
        ensures
            old(self).matches@.len() == 0 ==> r is None && *final(self) == *old(self),
            old(self).matches@.len() > 0 ==> {
                let i = index_before(
                    old(self).current_match as int,
                    old(self).matches@.len() as int,
                );
                &&& *final(self) == (SearchState { current_match: i as usize, ..*old(self) })
                &&& r == old(self).match_at(i)
            },
    {
        if self.matches.len() == 0 {
            return None;
        }
        self.current_match = match self.current_match.checked_sub(1) {
            Some(i) => i,
            None => self.matches.len() - 1,
        };
        self.current()
    }

    /// `n` key - move in the search direction.
    /// Forward search (`/`): n goes down (newer), N goes up (older)
    /// Backward search (`?`): n goes up (older), N goes down (newer)
    pub fn next_match(&mut self) -> (r: Option<SearchMatch>)
        requires
            old(self).matches@.len() > 0 ==> old(self).current_match < usize::MAX,
        ensures
            old(self).moved(final(self), true),
            r == (if old(self).matches@.len() == 0 {
                None
            } else {
                old(self).match_at(old(self).index_moved(true))
            }),
    {
        match self.direction {
            SearchDirection::Forward => self.move_forward(),
            SearchDirection::Backward => self.move_backward(),
        }
    }

    /// `N` key - move opposite to search direction.
    pub fn prev_match(&mut self) -> (r: Option<SearchMatch>)
        requires
            old(self).matches@.len() > 0 ==> old(self).current_match < usize::MAX,
        ensures
            old(self).moved(final(self), false),
            r == (if old(self).matches@.len() == 0 {
                None
            } else {
                old(self).match_at(old(self).index_moved(false))
            }),
    {
        match self.direction {
            SearchDirection::Forward => self.move_backward(),
            SearchDirection::Backward => self.move_forward(),
        }
    }

    /// Get current match.
    pub fn current(&self) -> (r: Option<SearchMatch>)
        ensures
            r == self.match_at(self.current_match as int),
    {
        if self.current_match < self.matches.len() {
            Some(self.matches[self.current_match])
        } else {
            None
        }
    }
}

impl Default for SearchState {
    fn default() -> (s: Self)
        ensures
            s.has_pattern(Seq::empty(), SearchDirection::Forward),
    {
        SearchState {
            pattern: String::new(),
            regex: None,
            error: false,
            matches: Vec::new(),
            current_match: 0,
            direction: SearchDirection::default(),
        }
    }
}

/// A move leads from one match to another.
pub proof fn law_moves_stay_among_matches(start: SearchState, next: SearchState, along: bool)
    requires
        start.wf(),
        start.moved(&next, along),
    ensures
        next.wf(),
        start.matches@.len() > 0 ==> next.match_at(next.current_match as int) == Some(
            start.matches@[start.index_moved(along)],
        ),
{
    let len = start.matches@.len() as int;
    assert(len == start.matches.len());
    if len > 0 {
        let i = start.current_match as int;
        vstd::arithmetic::div_mod::lemma_mod_bound(i + 1, len);
    }
}

/// Moving along the search direction and back, or back and along it, comes to
/// the match that it started from.
pub proof fn law_moves_undo_each_other(
    start: SearchState,
    next: SearchState,
    end: SearchState,
    along: bool,
)
    requires
        start.current_match < start.matches@.len(),
        start.moved(&next, along),
        next.moved(&end, !along),
    ensures
        end == start,
{
    let len = start.matches@.len() as int;
    assert(len == start.matches.len());
    let i = start.current_match as int;
    if i + 1 < len {
        vstd::arithmetic::div_mod::lemma_small_mod((i + 1) as nat, len as nat);
    } else {
        vstd::arithmetic::div_mod::lemma_mod_self_0(len);
    }
    if i == 0 {
        vstd::arithmetic::div_mod::lemma_mod_self_0(len);
    } else {
        vstd::arithmetic::div_mod::lemma_small_mod(i as nat, len as nat);
    }
}

/// A scrollable terminal backed by a terminal emulator.
pub struct Terminal {
    /// The emulator, with its viewport at the scroll offset
    pub parser: Emulator,
    /// How many lines of scrollback are kept
    pub capacity: usize,
    /// How many of the oldest rows in the emulator's history were cleared away: they
    /// are out of reach, and leave the history when newer ones need their place
    pub hidden: usize,
    /// Scrollback offset (0 = at bottom, showing live output)
    pub scroll_offset: usize,
    /// Cached total scrollback length
    pub scrollback_len: usize,
    /// Search state for this terminal
    pub search: SearchState,
}

/// A size read as a signed number of the same width.
pub open spec fn signed(n: usize) -> int {
    (n as isize) as int
}

/// Whether a number is in the range of `isize`.
pub open spec fn fits_isize(n: int) -> bool {
    isize::MIN <= n <= isize::MAX
}

/// A match whose offset and row are far from the end of `isize`.
pub open spec fn tame(m: SearchMatch) -> bool {
    m.scroll_offset <= countable() && m.view_row <= 65535
}

/// The row of the viewport in which a match is, when the viewport is at
/// `offset`: scrolling down by one row moves the content up by one.
pub open spec fn row_at_offset(m: SearchMatch, offset: usize) -> int {
    signed(m.view_row) - (signed(m.scroll_offset) - signed(offset))
}

/// Whether a match covers a position of a viewport at `offset`.
pub open spec fn match_covers(m: SearchMatch, offset: usize, view_row: usize, col: usize) -> bool {
    row_at_offset(m, offset) == signed(view_row) && m.start_col <= col < m.end_col
}

/// The offset that puts a match's row in the middle of a viewport of `rows`.
pub open spec fn centring_offset(m: SearchMatch, rows: u16) -> int {
    signed(m.scroll_offset) - (signed(m.view_row) - rows as int / 2)
}

/// The offset to scroll to for a match: the centring one, or the nearest there is
/// with `len` rows of history.
pub open spec fn offset_for_match(m: SearchMatch, rows: u16, len: usize) -> usize {
    let x = if centring_offset(m, rows) < 0 {
        0
    } else {
        centring_offset(m, rows)
    };
    (if x > signed(len) {
        signed(len)
    } else {
        x
    }) as isize as usize
}

/// The index of the first match at or below the top of a viewport at `offset`:
/// the first that was found at a scroll offset no greater. With none, the first.
pub open spec fn first_at_or_after(matches: Seq<SearchMatch>, offset: usize, i: int) -> bool {
    ||| {
        &&& 0 <= i < matches.len()
        &&& matches[i].scroll_offset <= offset
        &&& forall|j: int| 0 <= j < i ==> (#[trigger] matches[j]).scroll_offset > offset
    }
    ||| {
        &&& i == 0
        &&& forall|j: int|
            0 <= j < matches.len() ==> (#[trigger] matches[j]).scroll_offset > offset
    }
}

/// The index of the last match at or above a viewport at `offset`: the last that
/// was found at a scroll offset no smaller. With none, the last.
pub open spec fn last_at_or_before(matches: Seq<SearchMatch>, offset: usize, i: int) -> bool {
    ||| {
        &&& 0 <= i < matches.len()
        &&& matches[i].scroll_offset >= offset
        &&& forall|j: int|
            i < j < matches.len() ==> (#[trigger] matches[j]).scroll_offset < offset
    }
    ||| {
        &&& i == (if matches.len() == 0 {
            0
        } else {
            matches.len() - 1
        })
        &&& forall|j: int|
            0 <= j < matches.len() ==> (#[trigger] matches[j]).scroll_offset < offset
    }
}

/// The text of the first `cols` cells of a row.
pub open spec fn row_text(line: Seq<vt100::Cell>, cols: int) -> Seq<char>
    decreases cols,
{
    if cols <= 0 {
        seq![]
    } else if cols <= line.len() {
        row_text(line, cols - 1) + cell_text(line[cols - 1])
    } else {
        row_text(line, cols - 1)
    }
}

/// For each byte of that text, the column of the cell that it comes from.
pub open spec fn row_columns(line: Seq<vt100::Cell>, cols: int) -> Seq<usize>
    decreases cols,
{
    if cols <= 0 {
        seq![]
    } else if cols <= line.len() {
        row_columns(line, cols - 1) + Seq::new(
            encode_utf8(cell_text(line[cols - 1])).len(),
            |k: int| (cols - 1) as usize,
        )
    } else {
        row_columns(line, cols - 1)
    }
}

/// The match for bytes `span.0` to `span.1` of a row's text, by the columns of
/// the first and the last of them.
pub open spec fn match_of_span(
    line: Seq<vt100::Cell>,
    cols: u16,
    offset: usize,
    view_row: usize,
    span: (usize, usize),
) -> SearchMatch {
    let columns = row_columns(line, cols as int);
    let last = if span.1 == 0 {
        0
    } else {
        span.1 - 1
    };
    SearchMatch {
        scroll_offset: offset,
        view_row,
        start_col: if span.0 < columns.len() {
            columns[span.0 as int]
        } else {
            0
        },
        end_col: if last < columns.len() {
            (columns[last] + 1) as usize
        } else {
            cols as usize
        },
    }
}

/// The matches in one row, left to right.
pub open spec fn matches_in_row(
    re: regex::Regex,
    line: Seq<vt100::Cell>,
    cols: u16,
    offset: usize,
    view_row: usize,
) -> Seq<SearchMatch> {
    let spans = regex_spans(re, row_text(line, cols as int));
    Seq::new(spans.len(), |k: int| match_of_span(line, cols, offset, view_row, spans[k]))
}

/// The scroll offset at which a search meets row `n` of all rows: the first
/// screenful with the viewport at the top, every later row as the viewport's
/// last one.
pub open spec fn found_offset(n: int, rows: int, history: int) -> usize {
    (if n < rows {
        history
    } else {
        history + rows - 1 - n
    }) as usize
}

/// The row of the viewport in which a search meets row `n` of all rows.
pub open spec fn found_row(n: int, rows: int) -> usize {
    (if n < rows {
        n
    } else {
        rows - 1
    }) as usize
}

/// The rows that the viewport can show, oldest first: those of the history that can be
/// scrolled to, and below them the rows of the screen.
pub struct Content {
    pub lines: Seq<Seq<vt100::Cell>>,
    pub rows: u16,
    pub cols: u16,
}

impl Content {
    /// How many rows of history there are.
    pub open spec fn history(&self) -> int {
        self.lines.len() - self.rows
    }
}

/// The matches in the first `n` of all rows, oldest row first.
pub open spec fn matches_above(re: regex::Regex, c: Content, n: int) -> Seq<SearchMatch>
    decreases n,
{
    if n <= 0 {
        seq![]
    } else {
        let rows = c.rows as int;
        matches_above(re, c, n - 1) + matches_in_row(
            re,
            c.lines[n - 1],
            c.cols,
            found_offset(n - 1, rows, c.history()),
            found_row(n - 1, rows),
        )
    }
}

/// The spans of an expression in row `n` of all rows.
pub open spec fn row_spans_of(re: regex::Regex, c: Content, n: int) -> Seq<(usize, usize)> {
    regex_spans(re, row_text(c.lines[n], c.cols as int))
}

/// In every row the spans lie in its text, one behind the other.
pub open spec fn rows_in_order(re: regex::Regex, c: Content) -> bool {
    forall|n: int|
        0 <= n < c.lines.len() ==> spans_in_order(
            #[trigger] row_spans_of(re, c, n),
            row_text(c.lines[n], c.cols as int),
        )
}

/// All matches on a screen and in its history, each row searched once.
pub open spec fn all_matches(re: regex::Regex, c: Content) -> Seq<SearchMatch> {
    matches_above(re, c, c.lines.len() as int)
}

/// How many rows of history the emulator keeps for some lines of scrollback: one
/// more, since of the rows that scroll off at once all but one of those kept can be
/// counted.
pub open spec fn kept_rows(scrollback_lines: usize) -> usize {
    if scrollback_lines < usize::MAX {
        (scrollback_lines + 1) as usize
    } else {
        scrollback_lines
    }
}

/// How many lines can be scrolled back: the rows of the history that are not hidden,
/// as far as they are kept.
pub open spec fn lines_in_reach(s: vt100::Screen, hidden: usize, capacity: usize) -> int {
    clamped(or_zero(screen_history(s) - hidden), capacity as int)
}

/// How many of the oldest rows of history are hidden when an emulator with `hidden`
/// of them has taken one more byte. The emulator moves a viewport that is scrolled up
/// along with its content, so one that was a row above the bottom tells how many rows
/// have come into the history: these are in reach, and so are those that were before.
/// The other screen leaves the history alone; a reset empties it and puts the viewport
/// at the bottom.
pub open spec fn still_hidden(e: Emulator, hidden: int, byte: Seq<u8>) -> int {
    let s = emulator_screen(e);
    let t = emulator_screen(emulator_fed(emulator_scrolled(e, 1), byte));
    if hidden == 0 || screen_alternate(t) {
        hidden
    } else if screen_alternate(s) {
        clamped(hidden, screen_history(t))
    } else if screen_offset(t) == 0 {
        0
    } else {
        let came = screen_offset(t) - 1;
        or_zero(screen_history(t) - (screen_history(s) - hidden + came))
    }
}

/// How many of the oldest rows of history are hidden when an emulator with `hidden`
/// of them has taken some bytes one at a time.
pub open spec fn hidden_after(e: Emulator, hidden: int, data: Seq<u8>) -> int
    decreases data.len(),
{
    if data.len() == 0 {
        hidden
    } else {
        let before = data.drop_last();
        still_hidden(emulator_fed_each(e, before), hidden_after(e, hidden, before), seq![data.last()])
    }
}

impl Terminal {
    /// The emulator's screen.
    pub open spec fn shown(&self) -> vt100::Screen {
        emulator_screen(self.parser)
    }

    /// The rows and columns of the screen.
    pub open spec fn dimensions(&self) -> (u16, u16) {
        screen_size(self.shown())
    }

    /// The rows of the scrollback and of the screen.
    pub open spec fn content(&self) -> Content {
        Content {
            lines: screen_lines(self.shown()).skip(
                screen_history(self.shown()) - self.scrollback_len,
            ),
            rows: self.dimensions().0,
            cols: self.dimensions().1,
        }
    }

    /// The emulator keeps the rows that are needed, and the hidden ones are in its
    /// history.
    pub open spec fn kept(&self) -> bool {
        &&& emulator_consistent(self.parser)
        &&& emulator_robust(self.parser)
        &&& emulator_scrolls(self.parser)
        &&& emulator_capacity(self.parser) == kept_rows(self.capacity)
        &&& !screen_alternate(self.shown()) ==> self.hidden <= screen_history(self.shown())
        &&& self.scroll_offset <= self.capacity
    }

    /// The scrollback length is that of the emulator's history without the hidden
    /// rows, and the viewport is at the scroll offset, as far as the scrollback reaches.
    pub open spec fn wf(&self) -> bool {
        &&& self.kept()
        &&& self.scrollback_len == lines_in_reach(self.shown(), self.hidden, self.capacity)
        &&& screen_offset(self.shown()) == clamped(
            self.scroll_offset as int,
            self.scrollback_len as int,
        )
    }

    /// A terminal whose rows can be counted in `isize`, with matches that can too.
    pub open spec fn searchable(&self) -> bool {
        &&& self.wf()
        &&& self.search.wf()
        &&& self.capacity <= countable()
        &&& forall|i: int|
            0 <= i < self.search.matches@.len() ==> tame(#[trigger] self.search.matches@[i])
    }

    /// Every cell of the viewport is there and empty.
    pub open spec fn blank(&self) -> bool {
        forall|row: int, col: int|
            0 <= row < self.dimensions().0 && 0 <= col < self.dimensions().1 ==> (
            #[trigger] shown_cell(self.shown(), row, col) matches Some(c) && cell_text(c)
                == Seq::<char>::empty())
    }

    /// A blank screen of some size, at the bottom of a scrollback with nothing in it,
    /// and no search.
    pub open spec fn is_new(&self, rows: u16, cols: u16, scrollback_lines: usize) -> bool {
        &&& self.parser == emulator_new(rows, cols, kept_rows(scrollback_lines))
        &&& self.capacity == scrollback_lines
        &&& self.hidden == 0
        &&& emulator_unclipped(self.parser)
        &&& emulator_narrow(self.parser)
        &&& self.dimensions() == (rows, cols)
        &&& self.blank()
        &&& self.scroll_offset == 0
        &&& self.scrollback_len == 0
        &&& self.search.has_pattern(Seq::empty(), SearchDirection::Forward)
    }

    /// Create a new terminal with the given dimensions.
    pub fn new(rows: u16, cols: u16, scrollback_lines: usize) -> (t: Self)
        requires
            rows >= 1,
        ensures
            t.wf(),
            t.is_new(rows, cols, scrollback_lines),
    {
        Terminal {
            parser: Emulator::new(rows, cols, scrollback_lines.saturating_add(1)),
            capacity: scrollback_lines,
            hidden: 0,
            scroll_offset: 0,
            scrollback_len: 0,
            search: SearchState::default(),
        }
    }

    /// The emulator after some bytes. Where rows are hidden it takes them one at a time,
    /// so that those which scroll off can be counted.
    pub open spec fn parser_after(&self, data: Seq<u8>) -> Emulator {
        if self.hidden == 0 {
            emulator_fed(self.parser, data)
        } else {
            emulator_fed_each(self.parser, data)
        }
    }

    /// Whether the emulator takes some bytes, rather than panics.
    pub open spec fn accepts(&self, data: Seq<u8>) -> bool {
        if self.hidden == 0 {
            emulator_accepts(self.parser, data)
        } else {
            emulator_accepts_each(self.parser, data)
        }
    }

    /// The terminal after it has taken some bytes: the size, the scroll offset and
    /// the search stay.
    pub open spec fn fed(&self, after: &Terminal, data: Seq<u8>) -> bool {
        &&& after.parser == emulator_scrolled(
            self.parser_after(data),
            clamped(self.scroll_offset as int, after.scrollback_len as int) as usize,
        )
        &&& same_but_viewport(self.parser_after(data), after.parser)
        &&& after.hidden == hidden_after(self.parser, self.hidden as int, data)
        &&& *after == (Terminal {
            parser: after.parser,
            hidden: after.hidden,
            scrollback_len: after.scrollback_len,
            ..*self
        })
        &&& after.dimensions() == self.dimensions()
        &&& emulator_unclipped(self.parser) ==> emulator_unclipped(after.parser)
        &&& emulator_narrow(self.parser) && ascii_bytes(data) ==> emulator_narrow(after.parser)
    }

    /// Process incoming bytes.
    pub fn process(&mut self, data: &[u8])
        requires
            old(self).wf(),
            old(self).accepts(data@),
        ensures
            final(self).wf(),
            old(self).fed(final(self), data@),
    {
        proof {
            lemma_nothing_hidden(self.parser, data@);
        }
        if self.hidden == 0 {
            self.parser.process(data);
        } else {
            self.process_counting(data);
        }
        self.update_scrollback_len();
    }

    /// Processes incoming bytes one by one, to know at each how many rows it brings into
    /// the history and so which of the hidden rows are still there.
    fn process_counting(&mut self, data: &[u8])
        requires
            old(self).kept(),
            emulator_accepts_each(old(self).parser, data@),
        ensures
            final(self).kept(),
            *final(self) == (Terminal {
                parser: final(self).parser,
                hidden: final(self).hidden,
                ..*old(self)
            }),
            same_but_viewport(
                emulator_fed_each(old(self).parser, data@),
                final(self).parser,
            ),
            final(self).hidden == hidden_after(
                old(self).parser,
                old(self).hidden as int,
                data@,
            ),
            final(self).dimensions() == old(self).dimensions(),
            emulator_unclipped(old(self).parser) ==> emulator_unclipped(final(self).parser),
            emulator_narrow(old(self).parser) && ascii_bytes(data@) ==> emulator_narrow(
                final(self).parser,
            ),
    {
        let ghost start = *self;
        let mut i: usize = 0;
        while i < data.len()
            invariant
                i <= data@.len(),
                emulator_accepts_each(start.parser, data@),
                self.kept(),
                *self == (Terminal { parser: self.parser, hidden: self.hidden, ..start }),
                same_but_viewport(
                    emulator_fed_each(start.parser, data@.take(i as int)),
                    self.parser,
                ),
                self.hidden == hidden_after(
                    start.parser,
                    start.hidden as int,
                    data@.take(i as int),
                ),
                self.dimensions() == start.dimensions(),
                emulator_unclipped(start.parser) ==> emulator_unclipped(self.parser),
                emulator_narrow(start.parser) && ascii_bytes(data@) ==> emulator_narrow(
                    self.parser,
                ),
            decreases data@.len() - i,
        {
            let byte = slice_subrange(data, i, i + 1);
            proof {
                assert(byte@ =~= seq![data@[i as int]]);
                assert(data@.take(i + 1).drop_last() =~= data@.take(i as int));
                lemma_accepts_prefix(start.parser, data@, i + 1);
            }
            self.take_byte(byte);
            i = i + 1;
        }
        assert(data@.take(i as int) =~= data@);
    }

    /// Processes one byte with the viewport a row above the bottom, and finds by where it
    /// is then how many of the hidden rows are left.
    fn take_byte(&mut self, byte: &[u8])
        requires
            old(self).kept(),
            emulator_accepts(old(self).parser, byte@),
        ensures
            final(self).kept(),
            *final(self) == (Terminal {
                parser: final(self).parser,
                hidden: final(self).hidden,
                ..*old(self)
            }),
            final(self).hidden == still_hidden(
                old(self).parser,
                old(self).hidden as int,
                byte@,
            ),
            same_but_viewport(
                emulator_fed(emulator_scrolled(old(self).parser, 1), byte@),
                final(self).parser,
            ),
            final(self).dimensions() == old(self).dimensions(),
            emulator_unclipped(old(self).parser) ==> emulator_unclipped(final(self).parser),
            emulator_narrow(old(self).parser) && ascii_bytes(byte@) ==> emulator_narrow(
                final(self).parser,
            ),
    {
        self.parser.set_scrollback(usize::MAX);
        let history_before: usize = self.parser.screen().scrollback();
        let other_before = self.parser.screen().alternate_screen();
        self.parser.set_scrollback(1);
        self.parser.process(byte);
        let offset: usize = self.parser.screen().scrollback();
        let other_after = self.parser.screen().alternate_screen();
        self.parser.set_scrollback(usize::MAX);
        let history_after: usize = self.parser.screen().scrollback();
        if self.hidden > 0 && !other_after {
            self.hidden = if other_before {
                if self.hidden < history_after {
                    self.hidden
                } else {
                    history_after
                }
            } else if offset == 0 {
                0
            } else {
                let in_reach: usize = history_before - self.hidden;
                history_after.saturating_sub(in_reach.saturating_add(offset - 1))
            };
        }
    }

    /// Update the cached scrollback length by scrolling as far as it goes and back.
    fn update_scrollback_len(&mut self)
        requires
            old(self).kept(),
        ensures
            final(self).wf(),
            *final(self) == (Terminal {
                parser: emulator_scrolled(
                    old(self).parser,
                    clamped(
                        old(self).scroll_offset as int,
                        final(self).scrollback_len as int,
                    ) as usize,
                ),
                scrollback_len: final(self).scrollback_len,
                ..*old(self)
            }),
            same_but_viewport(old(self).parser, final(self).parser),
    {
        self.parser.set_scrollback(usize::MAX);
        let history: usize = self.parser.screen().scrollback();
        let in_reach: usize = history.saturating_sub(self.hidden);
        self.scrollback_len = if in_reach < self.capacity {
            in_reach
        } else {
            self.capacity
        };
        self.show_offset();
    }

    /// Puts the viewport at the scroll offset, as far as the scrollback reaches.
    fn show_offset(&mut self)
        ensures
            *final(self) == (Terminal {
                parser: emulator_scrolled(
                    old(self).parser,
                    clamped(
                        old(self).scroll_offset as int,
                        old(self).scrollback_len as int,
                    ) as usize,
                ),
                ..*old(self)
            }),
            same_but_viewport(old(self).parser, final(self).parser),
            emulator_consistent(old(self).parser) ==> emulator_consistent(final(self).parser),
            emulator_robust(old(self).parser) ==> emulator_robust(final(self).parser),
            emulator_scrolls(final(self).parser),
            screen_offset(final(self).shown()) == clamped(
                clamped(old(self).scroll_offset as int, old(self).scrollback_len as int),
                screen_history(old(self).shown()),
            ),
    {
        let offset: usize = if self.scroll_offset < self.scrollback_len {
            self.scroll_offset
        } else {
            self.scrollback_len
        };
        self.parser.set_scrollback(offset);
    }

    /// Get the underlying screen for rendering.
    pub fn screen(&self) -> (s: &vt100::Screen)
        ensures
            *s == self.shown(),
    {
        self.parser.screen()
    }

    /// The terminal after a change of size, which the history and the viewport's
    /// place in it outlast.
    pub open spec fn resized(&self, after: &Terminal, rows: u16, cols: u16) -> bool {
        &&& *after == (Terminal { parser: emulator_resized(self.parser, rows, cols), ..*self })
        &&& after.dimensions() == (rows, cols)
        &&& emulator_unclipped(self.parser) && cols >= self.dimensions().1 ==> emulator_unclipped(
            after.parser,
        )
        &&& emulator_narrow(self.parser) ==> emulator_narrow(after.parser)
        &&& forall|i: int|
            0 <= i < screen_history(self.shown()) ==> screen_lines(after.shown())[i]
                == #[trigger] screen_lines(self.shown())[i]
    }

    /// Resize the terminal.
    pub fn set_size(&mut self, rows: u16, cols: u16)
        requires
            old(self).wf(),
            rows >= 1,
            cols >= 1,
        ensures
            final(self).wf(),
            old(self).resized(final(self), rows, cols),
    {
        self.parser.set_size(rows, cols);
    }

    /// Get the current size (rows, cols).
    pub fn size(&self) -> (r: (u16, u16))
        ensures
            r == self.dimensions(),
    {
        self.parser.screen().size()
    }

    /// The terminal after its viewport has moved to a scroll offset, which leaves
    /// all else as it was.
    pub open spec fn scrolled_to(&self, after: &Terminal, offset: usize) -> bool {
        &&& *after == (Terminal {
            parser: emulator_scrolled(
                self.parser,
                clamped(offset as int, self.scrollback_len as int) as usize,
            ),
            scroll_offset: offset,
            ..*self
        })
        &&& same_but_viewport(self.parser, after.parser)
    }

    /// The scroll offset some lines further up, as far as there is history.
    pub open spec fn offset_above(&self, n: usize) -> usize {
        clamped(self.scroll_offset + n, self.scrollback_len as int) as usize
    }

    /// The scroll offset some lines further down, at most at the bottom.
    pub open spec fn offset_below(&self, n: usize) -> usize {
        (if self.scroll_offset < n {
            0
        } else {
            self.scroll_offset - n
        }) as usize
    }

    /// What a move to the next match along the search direction, or against it,
    /// leaves: that match is the current one and in view. Without matches nothing
    /// happens.
    pub open spec fn went_to_match(&self, after: &Terminal, along: bool) -> bool {
        let moved = Terminal { search: after.search, ..*self };
        &&& self.search.moved(&after.search, along)
        &&& match after.search.match_at(after.search.current_match as int) {
            None => *after == moved,
            Some(m) => moved.scrolled_to(
                after,
                offset_for_match(m, self.dimensions().0, self.scrollback_len),
            ),
        }
    }

    /// Scroll up by n lines (clamped to scrollback bounds).
    pub fn scroll_up(&mut self, n: usize)
        requires
            old(self).wf(),
        ensures
            final(self).wf(),
            old(self).scrolled_to(final(self), old(self).offset_above(n)),
    {
        let new_offset: usize = self.scroll_offset.saturating_add(n);
        self.scroll_viewport(new_offset);
    }

    /// Moves the viewport, clamped to the scrollback.
    fn scroll_viewport(&mut self, offset: usize)
        requires
            old(self).wf(),
        ensures
            final(self).wf(),
            old(self).scrolled_to(
                final(self),
                clamped(offset as int, old(self).scrollback_len as int) as usize,
            ),
    {
        self.scroll_offset = if offset < self.scrollback_len {
            offset
        } else {
            self.scrollback_len
        };
        self.show_offset();
    }

    /// Scroll down by n lines (clamped to 0).
    pub fn scroll_down(&mut self, n: usize)
        requires
            old(self).wf(),
        ensures
            final(self).wf(),
            old(self).scrolled_to(final(self), old(self).offset_below(n)),
    {
        self.scroll_offset = self.scroll_offset.saturating_sub(n);
        self.show_offset();
    }

    /// Scroll to top of scrollback.
    pub fn scroll_to_top(&mut self)
        requires
            old(self).wf(),
        ensures
            final(self).wf(),
            old(self).scrolled_to(final(self), old(self).scrollback_len),
    {
        self.scroll_viewport(usize::MAX);
    }

    /// Scroll to bottom (live view).
    pub fn scroll_to_bottom(&mut self)
        requires
            old(self).wf(),
        ensures
            final(self).wf(),
            old(self).scrolled_to(final(self), 0),
    {
        self.scroll_offset = 0;
        self.show_offset();
    }

    /// Check if at the bottom (live view).
    pub fn is_at_bottom(&self) -> (r: bool)
        ensures
            r == (self.scroll_offset == 0),
    {
        self.scroll_offset == 0
    }

    /// Get current scroll offset.
    pub fn scroll_offset(&self) -> (r: usize)
        ensures
            r == self.scroll_offset,
    {
        self.scroll_offset
    }

    /// Get total scrollback length (lines available to scroll back).
    pub fn scrollback_len(&self) -> (r: usize)
        ensures
            r == self.scrollback_len,
    {
        self.scrollback_len
    }

    /// The terminal after it was cleared: blank, at the bottom of an empty scrollback.
    /// All else in the emulator stays, as the bytes that clear the screen leave it.
    pub open spec fn cleared(&self, after: &Terminal) -> bool {
        let erased = if self.dimensions().1 >= 1 {
            emulator_fed(self.parser, clear_sequence())
        } else {
            self.parser
        };
        &&& *after == (Terminal {
            parser: emulator_scrolled(erased, 0),
            hidden: if screen_alternate(self.shown()) {
                self.hidden
            } else {
                screen_history(self.shown()) as usize
            },
            scroll_offset: 0,
            scrollback_len: 0,
            ..*self
        })
        &&& after.dimensions() == self.dimensions()
        &&& after.blank()
        &&& screen_alternate(after.shown()) == screen_alternate(self.shown())
        &&& screen_cursor_hidden(after.shown()) == screen_cursor_hidden(self.shown())
        &&& emulator_unclipped(self.parser) ==> emulator_unclipped(after.parser)
        &&& emulator_narrow(self.parser) ==> emulator_narrow(after.parser)
    }

    /// Clear the screen and scrollback, reset to bottom. The emulator has no command
    /// that drops the scrollback, so its rows are hidden; where the other screen is in
    /// use, which has none, the scrollback of the main screen is left alone. Attributes
    /// and modes, a saved cursor, a scroll region and the screen not in use stay; a
    /// sequence or character received only in part is ended.
    pub fn clear(&mut self)
        requires
            old(self).wf(),
        ensures
            final(self).wf(),
            old(self).cleared(final(self)),
    {
        let (_, cols) = self.size();
        if cols >= 1 {
            // Erase the screen, cursor to home position, erase the scrollback
            let sequence: Vec<u8> = vec![27, 91, 50, 74, 27, 91, 72, 27, 91, 51, 74];
            assert(sequence@ =~= clear_sequence());
            self.parser.process(sequence.as_slice());
        }
        if !self.parser.screen().alternate_screen() {
            self.parser.set_scrollback(usize::MAX);
            self.hidden = self.parser.screen().scrollback();
        }
        self.scroll_offset = 0;
        self.scrollback_len = 0;
        self.show_offset();
    }

    /// Adds the matches in one row of the viewport to those found so far.
    fn search_row(
        screen: &vt100::Screen,
        re: &regex::Regex,
        offset: usize,
        view_row: u16,
        found: &mut Vec<SearchMatch>,
    )
        requires
            view_row < screen_size(*screen).0,
        ensures
            final(found)@ == old(found)@ + matches_in_row(
                *re,
                screen_lines(*screen)[shown_line(*screen, view_row as int)],
                screen_size(*screen).1,
                offset,
                view_row as usize,
            ),
            ({
                let text = row_text(
                    screen_lines(*screen)[shown_line(*screen, view_row as int)],
                    screen_size(*screen).1 as int,
                );
                spans_in_order(regex_spans(*re, text), text)
            }),
    {
        let (_, cols) = screen.size();
        let ghost line = screen_lines(*screen)[shown_line(*screen, view_row as int)];
        // Row text, and for each byte of it the column that it comes from
        let mut text = String::new();
        let mut columns: Vec<usize> = Vec::new();
        let mut col: u16 = 0;
        while col < cols
            invariant
                col <= cols,
                cols == screen_size(*screen).1,
                view_row < screen_size(*screen).0,
                line == screen_lines(*screen)[shown_line(*screen, view_row as int)],
                text@ == row_text(line, col as int),
                columns@ == row_columns(line, col as int),
            decreases cols - col,
        {
            if let Some(cell) = screen.cell(view_row, col) {
                let contents = cell.contents();
                let n: usize = contents.as_bytes().len();
                let mut k: usize = 0;
                let ghost before = columns@;
                while k < n
                    invariant
                        k <= n,
                        columns@ == before + Seq::new(k as nat, |j: int| col as usize),
                    decreases n - k,
                {
                    columns.push(col as usize);
                    assert(columns@ =~= before + Seq::new((k + 1) as nat, |j: int| col as usize));
                    k = k + 1;
                }
                text.append(contents);
            }
            col = col + 1;
        }
        let spans = find_spans(re, text.as_str());
        let mut i: usize = 0;
        let ghost before = found@;
        let ghost all = matches_in_row(*re, line, cols, offset, view_row as usize);
        while i < spans.len()
            invariant
                i <= spans@.len(),
                spans@ == regex_spans(*re, row_text(line, cols as int)),
                columns@ == row_columns(line, cols as int),
                all == matches_in_row(*re, line, cols, offset, view_row as usize),
                found@ == before + all.take(i as int),
            decreases spans@.len() - i,
        {
            let (start, end) = spans[i];
            let start_col: usize = if start < columns.len() {
                columns[start]
            } else {
                0
            };
            let last: usize = end.saturating_sub(1);
            let end_col: usize = if last < columns.len() {
                proof {
                    lemma_columns_below(line, cols as int, last as int);
                }
                columns[last] + 1
            } else {
                cols as usize
            };
            found.push(
                SearchMatch { scroll_offset: offset, view_row: view_row as usize, start_col, end_col },
            );
            assert(all.take(i + 1) =~= all.take(i as int).push(all[i as int]));
            i = i + 1;
        }
        assert(all.take(i as int) =~= all);
    }

    /// The current match after a search, by the search direction.
    pub open spec fn starts_at(&self, matches: Seq<SearchMatch>, i: int) -> bool {
        match self.search.direction {
            SearchDirection::Forward => first_at_or_after(matches, self.scroll_offset, i),
            SearchDirection::Backward => last_at_or_before(matches, self.scroll_offset, i),
        }
    }

    /// What a search leaves: with no expression no matches; with one all its
    /// matches, and the viewport at the first of them in the search direction.
    pub open spec fn searched(&self, after: &Terminal) -> bool {
        match self.search.regex {
            None => {
                &&& after.search.matches@ == Seq::<SearchMatch>::empty()
                &&& *after == (Terminal {
                    search: SearchState { matches: after.search.matches, ..self.search },
                    ..*self
                })
            },
            Some(re) => {
                let matches = all_matches(re, self.content());
                let i = after.search.current_match;
                &&& same_but_viewport(self.parser, after.parser)
                &&& rows_in_order(re, self.content())
                &&& after.search.matches@ == matches
                &&& after.search == (SearchState {
                    matches: after.search.matches,
                    current_match: i,
                    ..self.search
                })
                &&& matches.len() == 0 ==> i == 0 && *after == (Terminal {
                    search: after.search,
                    ..*self
                })
                &&& matches.len() > 0 ==> {
                    &&& i < matches.len()
                    &&& self.starts_at(matches, i as int)
                    &&& *after == (Terminal {
                        parser: emulator_scrolled(
                            self.parser,
                            offset_for_match(
                                matches[i as int],
                                self.dimensions().0,
                                self.scrollback_len,
                            ),
                        ),
                        scroll_offset: offset_for_match(
                            matches[i as int],
                            self.dimensions().0,
                            self.scrollback_len,
                        ),
                        search: after.search,
                        ..*self
                    })
                }
            },
        }
    }

    /// Search for regex matches in the entire terminal (visible + scrollback).
    /// Updates self.search.matches with results.
    pub fn update_search_matches(&mut self)
        requires
            old(self).wf(),
            old(self).scrollback_len <= countable(),
        ensures
            final(self).wf(),
            old(self).search.wf() ==> final(self).search.wf(),
            old(self).searched(final(self)),
            forall|i: int|
                0 <= i < final(self).search.matches@.len() ==> tame(
                    #[trigger] final(self).search.matches@[i],
                ),
    {
        self.search.matches.clear();
        if self.search.regex.is_none() {
            return;
        }
        let ghost before = *old(self);
        let ghost re = before.search.regex->0;
        let found = self.find_matches();
        proof {
            lemma_matches_tame(re, before.content(), before.content().lines.len() as int);
        }
        self.search.matches = found;
        if self.search.matches.len() > 0 {
            self.search.current_match = match self.search.direction {
                SearchDirection::Forward => self.find_first_match_at_or_after_view(),
                SearchDirection::Backward => self.find_last_match_at_or_before_view(),
            };
            if let Some(m) = self.search.current() {
                assert(tame(m));
                self.scroll_to_match(m);
            }
        } else {
            self.search.current_match = 0;
        }
    }

    /// Finds all matches by scrolling through the content, from the highest offset
    /// (oldest content) to 0 (newest content), and scrolls back.
    fn find_matches(&mut self) -> (found: Vec<SearchMatch>)
        requires
            old(self).wf(),
            old(self).scrollback_len <= countable(),
            old(self).search.regex is Some,
        ensures
            *final(self) == *old(self),
            found@ == all_matches(old(self).search.regex->0, old(self).content()),
            rows_in_order(old(self).search.regex->0, old(self).content()),
    {
        let mut found: Vec<SearchMatch> = Vec::new();
        let ghost start = *self;
        let ghost shown = self.shown();
        let ghost content = self.content();
        let ghost above = screen_history(shown) - self.scrollback_len;
        let ghost re = self.search.regex->0;
        if let Some(regex) = &self.search.regex {
            let (visible_rows, _) = self.parser.screen().size();
            let max_offset: usize = self.scrollback_len;
            let mut i: usize = 0;
            while i <= max_offset
                invariant
                    start.wf(),
                    shown == emulator_screen(start.parser),
                    *regex == re,
                    visible_rows == screen_size(shown).0,
                    content == start.content(),
                    above == screen_history(shown) - max_offset,
                    max_offset == start.scrollback_len,
                    max_offset <= countable(),
                    i <= max_offset + 1,
                    *self == (Terminal { parser: self.parser, ..start }),
                    emulator_consistent(self.parser),
                    screen_lines(emulator_screen(self.parser)) == screen_lines(shown),
                    screen_size(emulator_screen(self.parser)) == screen_size(shown),
                    forall|n: usize|
                        emulator_scrolled(self.parser, n) == emulator_scrolled(start.parser, n),
                    found@ == matches_above(
                        re,
                        content,
                        if i == 0 {
                            0
                        } else {
                            visible_rows + i - 1
                        },
                    ),
                    forall|n: int|
                        0 <= n < (if i == 0 {
                            0
                        } else {
                            visible_rows + i - 1
                        }) ==> spans_in_order(
                            #[trigger] row_spans_of(re, content, n),
                            row_text(content.lines[n], content.cols as int),
                        ),
                decreases max_offset + 1 - i,
            {
                let offset: usize = max_offset - i;
                self.parser.set_scrollback(offset);
                // At the highest offset every row is new, at the others only the
                // bottom row
                let mut view_row: u16 = if i == 0 {
                    0
                } else {
                    visible_rows - 1
                };
                while view_row < visible_rows
                    invariant
                        *regex == re,
                        visible_rows == screen_size(shown).0,
                        content.lines == screen_lines(shown).skip(above),
                        content.rows == visible_rows,
                        content.cols == screen_size(shown).1,
                        0 <= above == screen_history(shown) - max_offset,
                        i <= max_offset,
                        offset == max_offset - i,
                        i > 0 ==> view_row >= visible_rows - 1,
                        view_row <= visible_rows,
                        screen_lines(emulator_screen(self.parser)) == screen_lines(shown),
                        screen_size(emulator_screen(self.parser)) == screen_size(shown),
                        screen_offset(emulator_screen(self.parser)) == offset,
                        found@ == matches_above(re, content, i + view_row),
                        forall|n: int|
                            0 <= n < i + view_row ==> spans_in_order(
                                #[trigger] row_spans_of(re, content, n),
                                row_text(content.lines[n], content.cols as int),
                            ),
                    decreases visible_rows - view_row,
                {
                    assert(content.lines.len() == max_offset + visible_rows);
                    assert(content.lines[i + view_row] == screen_lines(shown)[shown_line(
                        emulator_screen(self.parser),
                        view_row as int,
                    )]);
                    Self::search_row(self.parser.screen(), regex, offset, view_row, &mut found);
                    view_row = view_row + 1;
                }
                i = i + 1;
            }
        }
        let ghost offset = clamped(start.scroll_offset as int, start.scrollback_len as int) as usize;
        assert(emulator_scrolled(start.parser, offset) == start.parser);
        self.show_offset();
        found
    }

    /// Scroll to make the given match visible, near the middle of the screen.
    pub fn scroll_to_match(&mut self, m: SearchMatch)
        requires
            old(self).wf(),
            fits_isize(signed(m.view_row) - old(self).dimensions().0 as int / 2),
            fits_isize(centring_offset(m, old(self).dimensions().0)),
        ensures
            final(self).wf(),
            old(self).scrolled_to(
                final(self),
                clamped(
                    offset_for_match(
                        m,
                        old(self).dimensions().0,
                        old(self).scrollback_len,
                    ) as int,
                    old(self).scrollback_len as int,
                ) as usize,
            ),
    {
        let (visible_rows, _) = self.parser.screen().size();
        let half_screen: usize = visible_rows as usize / 2;
        let adjustment: isize = m.view_row as isize - half_screen as isize;
        let wanted: isize = m.scroll_offset as isize - adjustment;
        let at_least: isize = if wanted < 0 {
            0
        } else {
            wanted
        };
        let len: isize = self.scrollback_len as isize;
        let new_offset: usize = if at_least > len {
            len as usize
        } else {
            at_least as usize
        };
        self.scroll_viewport(new_offset);
    }

    /// Find the index of the first match at or after the current view (for `/` forward search).
    /// If no match exists after current position, wraps to the first match.
    fn find_first_match_at_or_after_view(&self) -> (r: usize)
        ensures
            first_at_or_after(self.search.matches@, self.scroll_offset, r as int),
    {
        let mut i: usize = 0;
        while i < self.search.matches.len()
            invariant
                i <= self.search.matches@.len(),
                forall|j: int|
                    0 <= j < i ==> (#[trigger] self.search.matches@[j]).scroll_offset
                        > self.scroll_offset,
            decreases self.search.matches@.len() - i,
        {
            if self.search.matches[i].scroll_offset <= self.scroll_offset {
                return i;
            }
            i = i + 1;
        }
        0
    }

    /// Find the index of the last match at or before the current view (for `?` backward search).
    /// If no match exists before current position, wraps to the last match.
    fn find_last_match_at_or_before_view(&self) -> (r: usize)
        ensures
            last_at_or_before(self.search.matches@, self.scroll_offset, r as int),
    {
        let mut i: usize = self.search.matches.len();
        while i > 0
            invariant
                i <= self.search.matches@.len(),
                forall|j: int|
                    i <= j < self.search.matches@.len() ==> (
                    #[trigger] self.search.matches@[j]).scroll_offset < self.scroll_offset,
            decreases i,
        {
            i = i - 1;
            if self.search.matches[i].scroll_offset >= self.scroll_offset {
                return i;
            }
        }
        self.search.matches.len().saturating_sub(1)
    }

    /// Whether a match's row can be found in signed arithmetic.
    pub open spec fn can_place(&self, m: SearchMatch) -> bool {
        &&& fits_isize(signed(m.scroll_offset) - signed(self.scroll_offset))
        &&& fits_isize(row_at_offset(m, self.scroll_offset))
    }

    /// Whether the current match covers a position of the viewport.
    pub open spec fn marks_current(&self, view_row: usize, col: usize) -> bool {
        match self.search.match_at(self.search.current_match as int) {
            Some(m) => match_covers(m, self.scroll_offset, view_row, col),
            None => false,
        }
    }

    /// Whether any match covers a position of the viewport.
    pub open spec fn marks_any(&self, view_row: usize, col: usize) -> bool {
        exists|i: int|
            0 <= i < self.search.matches@.len() && match_covers(
                #[trigger] self.search.matches@[i],
                self.scroll_offset,
                view_row,
                col,
            )
    }

    /// Check if a view row/col at the current scroll position is the current search match.
    pub fn is_current_match(&self, view_row: usize, col: usize) -> (r: bool)
        requires
            self.search.match_at(self.search.current_match as int) matches Some(m)
                ==> self.can_place(m),
        ensures
            r == self.marks_current(view_row, col),
    {
        match self.search.current() {
            Some(m) => self.match_is_visible(&m, view_row, col),
            None => false,
        }
    }

    /// Check if a view row/col at the current scroll position is any search match.
    pub fn is_any_match(&self, view_row: usize, col: usize) -> (r: bool)
        requires
            forall|i: int|
                0 <= i < self.search.matches@.len() ==> self.can_place(
                    #[trigger] self.search.matches@[i],
                ),
        ensures
            r == self.marks_any(view_row, col),
    {
        let mut i: usize = 0;
        while i < self.search.matches.len()
            invariant
                i <= self.search.matches@.len(),
                forall|j: int|
                    0 <= j < self.search.matches@.len() ==> self.can_place(
                        #[trigger] self.search.matches@[j],
                    ),
                forall|j: int|
                    0 <= j < i ==> !match_covers(
                        #[trigger] self.search.matches@[j],
                        self.scroll_offset,
                        view_row,
                        col,
                    ),
            decreases self.search.matches@.len() - i,
        {
            if self.match_is_visible(&self.search.matches[i], view_row, col) {
                return true;
            }
            i = i + 1;
        }
        false
    }

    /// Check if a match is visible at the given view_row and col.
    fn match_is_visible(&self, m: &SearchMatch, view_row: usize, col: usize) -> (r: bool)
        requires
            self.can_place(*m),
        ensures
            r == match_covers(*m, self.scroll_offset, view_row, col),
    {
        // A match at (scroll_offset=S, view_row=V) is visible at current scroll_offset=C
        // When we scroll down (decrease offset), content moves up on screen.
        let offset_diff: isize = m.scroll_offset as isize - self.scroll_offset as isize;
        let visible_view_row: isize = m.view_row as isize - offset_diff;
        visible_view_row == view_row as isize && col >= m.start_col && col < m.end_col
    }
}

/// Where no row is hidden, bytes hide none.
proof fn lemma_nothing_hidden(e: Emulator, data: Seq<u8>)
    ensures
        hidden_after(e, 0, data) == 0,
    decreases data.len(),
{
    if data.len() > 0 {
        lemma_nothing_hidden(e, data.drop_last());
    }
}

/// An emulator that takes some bytes one at a time takes the first of them.
proof fn lemma_accepts_prefix(e: Emulator, data: Seq<u8>, n: int)
    requires
        emulator_accepts_each(e, data),
        0 <= n <= data.len(),
    ensures
        emulator_accepts_each(e, data.take(n)),
    decreases data.len(),
{
    if n < data.len() {
        assert(data.drop_last().take(n) =~= data.take(n));
        lemma_accepts_prefix(e, data.drop_last(), n);
    } else {
        assert(data.take(n) =~= data);
    }
}

/// Every byte of a row's text comes from one of the columns taken.
proof fn lemma_columns_below(line: Seq<vt100::Cell>, cols: int, k: int)
    requires
        cols <= 65535,
        0 <= k < row_columns(line, cols).len(),
    ensures
        row_columns(line, cols)[k] < cols,
    decreases cols,
{
    if cols > 0 && k < row_columns(line, cols - 1).len() {
        lemma_columns_below(line, cols - 1, k);
    }
}

/// Where a search meets a row is where the viewport, put at that offset, shows it.
pub proof fn law_found_rows_are_shown(c: Content, n: int)
    requires
        1 <= c.rows <= c.lines.len() <= usize::MAX,
        0 <= n < c.lines.len(),
    ensures
        ({
            let rows = c.rows as int;
            let offset = found_offset(n, rows, c.history());
            let row = found_row(n, rows);
            &&& offset <= c.history()
            &&& row < rows
            &&& c.history() - offset + row == n
        }),
{
}

/// Matches come in the order of their rows, oldest first: a later one is never
/// found at a greater scroll offset, nor in a row further up.
pub proof fn law_matches_in_order(re: regex::Regex, c: Content, i: int, j: int)
    requires
        1 <= c.rows <= c.lines.len() <= usize::MAX,
        0 <= i < j < all_matches(re, c).len(),
    ensures
        ({
            let a = all_matches(re, c)[i];
            let b = all_matches(re, c)[j];
            &&& b.scroll_offset <= a.scroll_offset
            &&& a.view_row - a.scroll_offset <= b.view_row - b.scroll_offset
        }),
{
    lemma_matches_in_order(re, c, c.lines.len() as int, i, j);
}

proof fn lemma_matches_in_order(re: regex::Regex, c: Content, n: int, i: int, j: int)
    requires
        1 <= c.rows <= c.lines.len() <= usize::MAX,
        0 <= n <= c.lines.len(),
        0 <= i <= j < matches_above(re, c, n).len(),
    ensures
        ({
            let rows = c.rows as int;
            let a = matches_above(re, c, n)[i];
            let b = matches_above(re, c, n)[j];
            &&& b.scroll_offset <= a.scroll_offset
            &&& a.view_row - a.scroll_offset <= b.view_row - b.scroll_offset
            &&& b.scroll_offset >= found_offset(n - 1, rows, c.history())
            &&& b.view_row - b.scroll_offset <= n - 1 - c.history()
        }),
    decreases n,
{
    if n > 0 {
        let fewer = matches_above(re, c, n - 1);
        if j < fewer.len() {
            lemma_matches_in_order(re, c, n - 1, i, j);
        } else if i < fewer.len() {
            lemma_matches_in_order(re, c, n - 1, i, i);
        }
    }
}

/// A match of row `n`, by its number in the row.
pub open spec fn match_in_row(re: regex::Regex, c: Content, n: int, k: int) -> SearchMatch {
    let rows = c.rows as int;
    matches_in_row(
        re,
        c.lines[n],
        c.cols,
        found_offset(n, rows, c.history()),
        found_row(n, rows),
    )[k]
}

/// How many matches row `n` has.
pub open spec fn row_match_count(re: regex::Regex, c: Content, n: int) -> int {
    row_spans_of(re, c, n).len() as int
}

/// All rows are searched, on the screen and in the history: every match of a row is
/// among the matches found.
pub proof fn law_every_match_is_found(re: regex::Regex, c: Content, n: int, k: int)
    requires
        0 <= n < c.lines.len(),
        0 <= k < row_match_count(re, c, n),
    ensures
        all_matches(re, c).contains(match_in_row(re, c, n, k)),
{
    lemma_match_is_found(re, c, n, k, c.lines.len() as int);
}

proof fn lemma_match_is_found(re: regex::Regex, c: Content, n: int, k: int, end: int)
    requires
        0 <= n < end,
        0 <= k < row_match_count(re, c, n),
    ensures
        matches_above(re, c, end).contains(match_in_row(re, c, n, k)),
    decreases end,
{
    let fewer = matches_above(re, c, end - 1);
    let found = matches_above(re, c, end);
    if n == end - 1 {
        assert(found[fewer.len() + k] == match_in_row(re, c, n, k));
    } else {
        lemma_match_is_found(re, c, n, k, end - 1);
        let i = choose|i: int| 0 <= i < fewer.len() && fewer[i] == match_in_row(re, c, n, k);
        assert(found[i] == match_in_row(re, c, n, k));
    }
}

/// Nothing else is found: every match found is a match of some row.
pub proof fn law_every_match_is_of_a_row(re: regex::Regex, c: Content, i: int)
    requires
        0 <= i < all_matches(re, c).len(),
    ensures
        exists|n: int, k: int|
            0 <= n < c.lines.len() && 0 <= k < row_match_count(re, c, n) && all_matches(
                re,
                c,
            )[i] == #[trigger] match_in_row(re, c, n, k),
{
    lemma_match_is_of_a_row(re, c, i, c.lines.len() as int);
}

proof fn lemma_match_is_of_a_row(re: regex::Regex, c: Content, i: int, end: int)
    requires
        0 <= i < matches_above(re, c, end).len(),
    ensures
        exists|n: int, k: int|
            0 <= n < end && 0 <= k < row_match_count(re, c, n) && matches_above(re, c, end)[i]
                == #[trigger] match_in_row(re, c, n, k),
    decreases end,
{
    let fewer = matches_above(re, c, end - 1);
    if i < fewer.len() {
        lemma_match_is_of_a_row(re, c, i, end - 1);
    } else {
        assert(matches_above(re, c, end)[i] == match_in_row(re, c, end - 1, i - fewer.len()));
    }
}

/// The columns of a match are on the screen.
pub proof fn law_matches_in_columns(re: regex::Regex, c: Content, i: int)
    requires
        0 <= i < all_matches(re, c).len(),
    ensures
        all_matches(re, c)[i].start_col <= c.cols,
        all_matches(re, c)[i].end_col <= c.cols,
{
    lemma_matches_in_columns(re, c, c.lines.len() as int, i);
}

proof fn lemma_matches_in_columns(re: regex::Regex, c: Content, n: int, i: int)
    requires
        0 <= i < matches_above(re, c, n).len(),
    ensures
        matches_above(re, c, n)[i].start_col <= c.cols,
        matches_above(re, c, n)[i].end_col <= c.cols,
    decreases n,
{
    if n > 0 {
        let fewer = matches_above(re, c, n - 1);
        if i < fewer.len() {
            lemma_matches_in_columns(re, c, n - 1, i);
        } else {
            let line = c.lines[n - 1];
            let cols = c.cols;
            let span = regex_spans(re, row_text(line, cols as int))[i - fewer.len()];
            let columns = row_columns(line, cols as int);
            if span.0 < columns.len() {
                lemma_columns_below(line, cols as int, span.0 as int);
            }
            let last = if span.1 == 0 {
                0
            } else {
                span.1 - 1
            };
            if last < columns.len() {
                lemma_columns_below(line, cols as int, last);
            }
        }
    }
}

/// There is a column for each byte of a row's text.
proof fn lemma_columns_for_bytes(line: Seq<vt100::Cell>, cols: int)
    ensures
        row_columns(line, cols).len() == encode_utf8(row_text(line, cols)).len(),
    decreases cols,
{
    if cols > 0 {
        lemma_columns_for_bytes(line, cols - 1);
        if cols <= line.len() {
            lemma_encoding_joins(row_text(line, cols - 1), cell_text(line[cols - 1]));
        }
    }
}

/// Bytes further on in a row's text come from no earlier columns.
proof fn lemma_columns_ascend(line: Seq<vt100::Cell>, cols: int, a: int, b: int)
    requires
        cols <= 65535,
        0 <= a <= b < row_columns(line, cols).len(),
    ensures
        row_columns(line, cols)[a] <= row_columns(line, cols)[b],
    decreases cols,
{
    if cols > 0 {
        let fewer = row_columns(line, cols - 1);
        if b < fewer.len() {
            lemma_columns_ascend(line, cols - 1, a, b);
        } else if a < fewer.len() {
            lemma_columns_below(line, cols - 1, a);
        }
    }
}

/// Whether an expression matches some text, and not nothing, wherever it matches on a
/// screen or in its history.
pub open spec fn matches_text(re: regex::Regex, c: Content) -> bool {
    forall|n: int, k: int|
        0 <= n < c.lines.len() && 0 <= k < row_spans_of(re, c, n).len() ==> (
        #[trigger] row_spans_of(re, c, n)[k]).0 < row_spans_of(re, c, n)[k].1
}

/// A match of some text covers a column of the screen or more.
pub proof fn law_matches_cover_columns(re: regex::Regex, c: Content, n: int, k: int)
    requires
        rows_in_order(re, c),
        0 <= n < c.lines.len(),
        0 <= k < row_match_count(re, c, n),
        row_spans_of(re, c, n)[k].0 < row_spans_of(re, c, n)[k].1,
    ensures
        ({
            let m = match_in_row(re, c, n, k);
            m.start_col < m.end_col <= c.cols
        }),
{
    let line = c.lines[n];
    let cols = c.cols as int;
    let span = row_spans_of(re, c, n)[k];
    lemma_columns_for_bytes(line, cols);
    lemma_columns_ascend(line, cols, span.0 as int, span.1 - 1);
    lemma_columns_below(line, cols, span.1 - 1);
}

/// The matches of some text in one row come left to right.
pub proof fn law_matches_left_to_right(re: regex::Regex, c: Content, n: int, k: int, l: int)
    requires
        rows_in_order(re, c),
        0 <= n < c.lines.len(),
        0 <= k < l < row_match_count(re, c, n),
        row_spans_of(re, c, n)[k].0 < row_spans_of(re, c, n)[k].1,
        row_spans_of(re, c, n)[l].0 < row_spans_of(re, c, n)[l].1,
    ensures
        ({
            let a = match_in_row(re, c, n, k);
            let b = match_in_row(re, c, n, l);
            a.start_col <= b.start_col && a.end_col <= b.end_col && a.end_col <= b.start_col + 1
        }),
{
    let line = c.lines[n];
    let cols = c.cols as int;
    let a = row_spans_of(re, c, n)[k];
    let b = row_spans_of(re, c, n)[l];
    lemma_columns_for_bytes(line, cols);
    lemma_columns_ascend(line, cols, a.0 as int, b.0 as int);
    lemma_columns_ascend(line, cols, a.1 - 1, b.0 as int);
    lemma_columns_ascend(line, cols, a.1 - 1, b.1 - 1);
    lemma_columns_below(line, cols, b.1 - 1);
    lemma_columns_below(line, cols, a.1 - 1);
}

/// All the matches that a search for some text finds are in the order of reading: a
/// later one is in a row further down, or in the same row and no further left.
pub proof fn law_matches_in_reading_order(re: regex::Regex, c: Content, i: int, j: int)
    requires
        1 <= c.rows <= c.lines.len() <= usize::MAX,
        rows_in_order(re, c),
        matches_text(re, c),
        0 <= i < j < all_matches(re, c).len(),
    ensures
        ({
            let a = all_matches(re, c)[i];
            let b = all_matches(re, c)[j];
            ||| a.view_row - a.scroll_offset < b.view_row - b.scroll_offset
            ||| {
                &&& a.scroll_offset == b.scroll_offset && a.view_row == b.view_row
                &&& a.start_col <= b.start_col && a.end_col <= b.end_col
            }
        }),
{
    lemma_matches_in_reading_order(re, c, c.lines.len() as int, i, j);
}

proof fn lemma_matches_in_reading_order(
    re: regex::Regex,
    c: Content,
    end: int,
    i: int,
    j: int,
)
    requires
        1 <= c.rows <= c.lines.len() <= usize::MAX,
        rows_in_order(re, c),
        matches_text(re, c),
        0 <= end <= c.lines.len(),
        0 <= i < j < matches_above(re, c, end).len(),
    ensures
        ({
            let a = matches_above(re, c, end)[i];
            let b = matches_above(re, c, end)[j];
            ||| a.view_row - a.scroll_offset < b.view_row - b.scroll_offset
            ||| {
                &&& a.scroll_offset == b.scroll_offset && a.view_row == b.view_row
                &&& a.start_col <= b.start_col && a.end_col <= b.end_col
            }
        }),
    decreases end,
{
    if end > 0 {
        let n = end - 1;
        let fewer = matches_above(re, c, n);
        if j < fewer.len() {
            lemma_matches_in_reading_order(re, c, n, i, j);
        } else {
            let l = j - fewer.len();
            assert(matches_above(re, c, end)[j] == match_in_row(re, c, n, l));
            if i < fewer.len() {
                lemma_matches_in_order(re, c, n, i, i);
            } else {
                let k = i - fewer.len();
                assert(matches_above(re, c, end)[i] == match_in_row(re, c, n, k));
                assert(row_spans_of(re, c, n)[k].0 < row_spans_of(re, c, n)[k].1);
                assert(row_spans_of(re, c, n)[l].0 < row_spans_of(re, c, n)[l].1);
                law_matches_left_to_right(re, c, n, k, l);
            }
        }
    }
}

/// Scrolling to a match that is on the screen or in the history makes it visible,
/// in the middle row unless the history ends before.
pub proof fn law_scrolling_shows_the_match(
    before: Terminal,
    after: Terminal,
    m: SearchMatch,
    col: usize,
)
    requires
        before.searchable(),
        m.scroll_offset <= before.scrollback_len,
        m.view_row < before.dimensions().0,
        m.start_col <= col < m.end_col,
        before.scrolled_to(
            &after,
            offset_for_match(m, before.dimensions().0, before.scrollback_len),
        ),
    ensures
        ({
            let row = row_at_offset(m, after.scroll_offset);
            &&& 0 <= row < before.dimensions().0
            &&& match_covers(m, after.scroll_offset, row as usize, col)
            &&& after.scroll_offset == 0 || after.scroll_offset == before.scrollback_len || row
                == before.dimensions().0 as int / 2
        }),
{
}

/// After a search that found anything, the current match is in view.
pub proof fn law_search_shows_a_match(before: Terminal, after: Terminal)
    requires
        before.searchable(),
        before.searched(&after),
        after.search.matches@.len() > 0,
    ensures
        ({
            let m = after.search.matches@[after.search.current_match as int];
            &&& after.search.current_match < after.search.matches@.len()
            &&& 0 <= row_at_offset(m, after.scroll_offset) < after.dimensions().0
        }),
{
    let re = before.search.regex->0;
    let c = before.content();
    lemma_matches_tame(re, c, c.lines.len() as int);
    let m = after.search.matches@[after.search.current_match as int];
    assert(m == all_matches(re, c)[after.search.current_match as int]);
}

/// A terminal of a roomy size that never held a wide character, or none of whose wide
/// characters was cut by a change of size, takes any output.
pub proof fn law_roomy_terminals_take_anything(t: Terminal, data: Seq<u8>)
    requires
        t.wf(),
        roomy(t.dimensions().0, t.dimensions().1),
        emulator_unclipped(t.parser) || emulator_narrow(t.parser),
    ensures
        t.accepts(data),
{
}

/// Scrolling up and down again by as much, where there is that much history,
/// changes nothing.
pub proof fn law_scroll_down_undoes_up(
    start: Terminal,
    up: Terminal,
    end: Terminal,
    n: usize,
)
    requires
        start.wf(),
        start.scroll_offset + n <= start.scrollback_len,
        start.scrolled_to(&up, start.offset_above(n)),
        up.scrolled_to(&end, up.offset_below(n)),
    ensures
        end == start,
{
    assert(emulator_scrolled(start.parser, start.scroll_offset) == start.parser);
}

/// Output has the same effect wherever the viewport is: scrolled alike in the
/// end, a terminal that was scrolled before the output and one that was not are
/// the same.
pub proof fn law_scrolling_leaves_output_alone(
    t: Terminal,
    scrolled: Terminal,
    offset: usize,
    data: Seq<u8>,
    end: usize,
)
    requires
        t.scrolled_to(&scrolled, offset),
    ensures
        scrolled.accepts(data) == t.accepts(data),
        emulator_scrolled(scrolled.parser_after(data), end) == emulator_scrolled(
            t.parser_after(data),
            end,
        ),
        hidden_after(scrolled.parser, scrolled.hidden as int, data) == hidden_after(
            t.parser,
            t.hidden as int,
            data,
        ),
{
    lemma_each_wherever_the_viewport_is(t.parser, scrolled.parser, t.hidden as int, data);
}

/// Bytes that come one at a time have the same effect wherever the viewport is.
proof fn lemma_each_wherever_the_viewport_is(a: Emulator, b: Emulator, hidden: int, data: Seq<u8>)
    requires
        same_but_viewport(a, b),
    ensures
        emulator_accepts_each(a, data) == emulator_accepts_each(b, data),
        hidden_after(a, hidden, data) == hidden_after(b, hidden, data),
        data.len() > 0 ==> emulator_fed_each(a, data) == emulator_fed_each(b, data),
        forall|n: usize|
            emulator_scrolled(emulator_fed_each(a, data), n) == emulator_scrolled(
                emulator_fed_each(b, data),
                n,
            ),
    decreases data.len(),
{
    if data.len() > 0 {
        lemma_each_wherever_the_viewport_is(a, b, hidden, data.drop_last());
    }
}

/// Whether an emulator stays on the main screen and is not reset while it takes some
/// bytes one at a time.
pub open spec fn stays_throughout(e: Emulator, data: Seq<u8>) -> bool
    decreases data.len(),
{
    data.len() > 0 ==> stays_throughout(e, data.drop_last()) && stays(
        emulator_fed_each(e, data.drop_last()),
        emulator_fed_each(e, data),
    )
}

/// How the rows in reach grow by `n` rows: these come in at the end, and further up are
/// those that were in reach before, as far as `capacity` rows go.
pub open spec fn reach_grew(
    s: vt100::Screen,
    len_before: int,
    t: vt100::Screen,
    len_after: int,
    capacity: int,
    n: nat,
) -> bool {
    &&& clamped(len_after, capacity) == clamped(len_before + n, capacity)
    &&& forall|k: int|
        n < k <= clamped(len_after, capacity) ==> #[trigger] history_row(t, k) == history_row(
            s,
            k - n,
        )
}

/// Rows that were cleared away never come back: whatever output follows, short of a
/// reset or the other screen, the scrollback holds the rows that scrolled off since and
/// above them those that were in it before, as many as are kept.
pub proof fn law_cleared_rows_stay_away(t: Terminal, after: Terminal, data: Seq<u8>)
    requires
        t.wf(),
        after.wf(),
        t.hidden > 0,
        t.capacity < usize::MAX,
        t.accepts(data),
        t.fed(&after, data),
        !screen_alternate(t.shown()),
        stays_throughout(t.parser, data),
    ensures
        exists|n: nat|
            reach_grew(
                t.shown(),
                t.scrollback_len as int,
                after.shown(),
                after.scrollback_len as int,
                t.capacity as int,
                n,
            ),
{
    let e = emulator_fed_each(t.parser, data);
    let n = lemma_reach_grows(t.parser, t.hidden as int, t.capacity as int, data);
    assert forall|k: int| n < k <= after.scrollback_len implies #[trigger] history_row(
        after.shown(),
        k,
    ) == history_row(t.shown(), k - n) by {
        assert(history_row(after.shown(), k) == history_row(emulator_screen(e), k));
    }
    assert(reach_grew(
        t.shown(),
        t.scrollback_len as int,
        after.shown(),
        after.scrollback_len as int,
        t.capacity as int,
        n,
    ));
}

proof fn lemma_reach_grows(e: Emulator, hidden: int, capacity: int, data: Seq<u8>) -> (n: nat)
    requires
        emulator_scrolls(e),
        emulator_accepts_each(e, data),
        stays_throughout(e, data),
        emulator_capacity(e) == capacity + 1,
        0 <= hidden <= screen_history(emulator_screen(e)) <= emulator_capacity(e),
    ensures
        ({
            let s = emulator_screen(e);
            let after = emulator_fed_each(e, data);
            let t = emulator_screen(after);
            let left = hidden_after(e, hidden, data);
            &&& emulator_capacity(after) == emulator_capacity(e)
            &&& 0 <= left <= screen_history(t) <= emulator_capacity(e)
            &&& reach_grew(s, screen_history(s) - hidden, t, screen_history(t) - left, capacity, n)
        }),
    decreases data.len(),
{
    if data.len() == 0 {
        0
    } else {
        let before = data.drop_last();
        let m = lemma_reach_grows(e, hidden, capacity, before);
        let a = emulator_fed_each(e, before);
        let b = emulator_fed_each(e, data);
        let n = choose|n: nat| rows_came(a, b, n);
        assert(rows_came(a, b, n));
        let s = emulator_screen(a);
        let t = emulator_screen(b);
        let left = hidden_after(e, hidden, data);
        assert forall|k: int|
            n + m < k <= clamped(screen_history(t) - left, capacity) implies #[trigger] history_row(
            t,
            k,
        ) == history_row(emulator_screen(e), k - (n + m)) by {
            assert(history_row(t, k) == history_row(s, k - n));
        }
        n + m
    }
}

/// The matches of a search can be counted in `isize`.
proof fn lemma_matches_tame(re: regex::Regex, c: Content, n: int)
    requires
        0 <= n <= c.lines.len(),
        1 <= c.rows <= c.lines.len(),
        c.history() <= countable(),
    ensures
        forall|i: int|
            0 <= i < matches_above(re, c, n).len() ==> tame(#[trigger] matches_above(re, c, n)[i])
                && matches_above(re, c, n)[i].scroll_offset <= c.history()
                && matches_above(re, c, n)[i].view_row < c.rows,
    decreases n,
{
    if n > 0 {
        lemma_matches_tame(re, c, n - 1);
        let fewer = matches_above(re, c, n - 1);
        let rows = c.rows as int;
        let row = matches_in_row(
            re,
            c.lines[n - 1],
            c.cols,
            found_offset(n - 1, rows, c.history()),
            found_row(n - 1, rows),
        );
        assert forall|i: int| 0 <= i < matches_above(re, c, n).len() implies tame(
            #[trigger] matches_above(re, c, n)[i],
        ) && matches_above(re, c, n)[i].scroll_offset <= c.history() && matches_above(
            re,
            c,
            n,
        )[i].view_row < c.rows by {
            if i < fewer.len() {
                assert(matches_above(re, c, n)[i] == fewer[i]);
            } else {
                assert(matches_above(re, c, n)[i] == row[i - fewer.len()]);
            }
        }
    }
}

/// A backward search starts at the last match that is no newer than the view: every
/// match behind it was found further down. Only where all were, it starts at the very
/// last; so it does from the bottom.
pub proof fn law_backward_search_starts_at_the_view(before: Terminal, after: Terminal)
    requires
        before.searched(&after),
        before.search.direction == SearchDirection::Backward,
        after.search.matches@.len() > 0,
    ensures
        ({
            let found = after.search.matches@;
            let i = after.search.current_match as int;
            &&& 0 <= i < found.len()
            &&& forall|j: int|
                i < j < found.len() ==> (#[trigger] found[j]).scroll_offset < before.scroll_offset
            &&& found[i].scroll_offset < before.scroll_offset ==> i == found.len() - 1
            &&& found[i].scroll_offset < before.scroll_offset ==> forall|j: int|
                0 <= j < found.len() ==> (#[trigger] found[j]).scroll_offset < before.scroll_offset
            &&& before.scroll_offset == 0 ==> i == found.len() - 1
        }),
{
    let found = after.search.matches@;
    if before.scroll_offset == 0 {
        assert(found[found.len() - 1].scroll_offset >= 0);
    }
}

/// A forward search starts at the first match that is no older than the view: every
/// match before it was found further up. Only where all were, it starts at the very
/// first; so it does from the top.
pub proof fn law_forward_search_starts_at_the_view(before: Terminal, after: Terminal)
    requires
        before.searchable(),
        before.searched(&after),
        before.search.direction == SearchDirection::Forward,
        after.search.matches@.len() > 0,
    ensures
        ({
            let found = after.search.matches@;
            let i = after.search.current_match as int;
            &&& 0 <= i < found.len()
            &&& forall|j: int|
                0 <= j < i ==> (#[trigger] found[j]).scroll_offset > before.scroll_offset
            &&& found[i].scroll_offset > before.scroll_offset ==> i == 0
            &&& found[i].scroll_offset > before.scroll_offset ==> forall|j: int|
                0 <= j < found.len() ==> (#[trigger] found[j]).scroll_offset > before.scroll_offset
            &&& before.scroll_offset >= before.scrollback_len ==> i == 0
        }),
{
    let found = after.search.matches@;
    let c = before.content();
    lemma_matches_tame(before.search.regex->0, c, c.lines.len() as int);
    if before.scroll_offset >= before.scrollback_len {
        assert(found[0].scroll_offset <= before.scroll_offset);
    }
}

/// What a search leaves in the pane, in numbers: the row of the current match is in the
/// middle of the view, or as near to it as the scrollback lets it; without an
/// expression, or without matches, the view stays. Nothing else of the pane changes, and
/// neither pattern nor direction of the search.
pub proof fn law_search_moves_the_view(before: Terminal, after: Terminal)
    requires
        before.searchable(),
        before.searched(&after),
    ensures
        before.search.regex is None ==> after.search.matches@.len() == 0,
        after.search.matches@.len() == 0 ==> after.scroll_offset == before.scroll_offset
            && after.parser == before.parser,
        after.search.matches@.len() > 0 ==> ({
            let m = after.search.matches@[after.search.current_match as int];
            let middle = m.scroll_offset - m.view_row + before.dimensions().0 as int / 2;
            &&& middle <= 0 ==> after.scroll_offset == 0
            &&& 0 <= middle <= before.scrollback_len ==> after.scroll_offset == middle
            &&& middle >= before.scrollback_len ==> after.scroll_offset == before.scrollback_len
        }),
        after.content() == before.content(),
        after.scrollback_len == before.scrollback_len,
        after.capacity == before.capacity,
        after.hidden == before.hidden,
        after.search.pattern == before.search.pattern,
        after.search.regex == before.search.regex,
        after.search.error == before.search.error,
        after.search.direction == before.search.direction,
{
    if let Some(re) = before.search.regex {
        let c = before.content();
        lemma_matches_tame(re, c, c.lines.len() as int);
        if after.search.matches@.len() > 0 {
            let m = after.search.matches@[after.search.current_match as int];
            assert(tame(m));
        }
    }
}

/// What is searched is what can be seen: all rows of the scrollback and of the screen,
/// oldest first. Scrolled up by `offset`, the viewport shows the rows that end `offset`
/// rows above the last.
pub proof fn law_content_is_what_can_be_seen(t: Terminal, seen: Terminal, offset: usize, row: int)
    requires
        t.wf(),
        seen.wf(),
        offset <= t.scrollback_len,
        t.scrolled_to(&seen, offset),
        0 <= row < t.dimensions().0,
    ensures
        seen.scroll_offset == offset,
        seen.scrollback_len == t.scrollback_len,
        seen.search == t.search,
        t.content().lines.len() == t.scrollback_len + t.dimensions().0,
        (t.content().rows, t.content().cols) == t.dimensions(),
        seen.content() == t.content(),
        forall|col: int|
            {
                let line = t.content().lines[t.scrollback_len - offset + row];
                #[trigger] shown_cell(seen.shown(), row, col) == (if 0 <= col < line.len() {
                    Some(line[col])
                } else {
                    None
                })
            },
{
}

/// Scrolling up by some lines moves the view by as many, or to the oldest line if there
/// are fewer; scrolling down by some moves it by as many, or to the bottom.
pub proof fn law_scrolling_in_lines(t: Terminal, up: Terminal, down: Terminal, n: usize)
    requires
        t.scrolled_to(&up, t.offset_above(n)),
        t.scrolled_to(&down, t.offset_below(n)),
    ensures
        t.scroll_offset + n <= t.scrollback_len ==> up.scroll_offset == t.scroll_offset + n,
        t.scroll_offset + n >= t.scrollback_len ==> up.scroll_offset == t.scrollback_len,
        t.scroll_offset >= n ==> down.scroll_offset == t.scroll_offset - n,
        t.scroll_offset <= n ==> down.scroll_offset == 0,
{
}

/// The text of a row is that of its cells, left to right.
pub proof fn law_row_text_is_its_cells(line: Seq<vt100::Cell>, cols: int)
    requires
        0 <= cols,
    ensures
        cols <= line.len() ==> row_text(line, cols) == line.take(cols).map_values(
            |c: vt100::Cell| cell_text(c),
        ).flatten(),
        cols >= line.len() ==> row_text(line, cols) == line.map_values(
            |c: vt100::Cell| cell_text(c),
        ).flatten(),
    decreases cols,
{
    let text = |c: vt100::Cell| cell_text(c);
    let end = if cols <= line.len() {
        cols
    } else {
        line.len() as int
    };
    let cells = line.take(end).map_values(text);
    cells.lemma_flatten_and_flatten_alt_are_equivalent();
    assert(line.take(line.len() as int) =~= line);
    if cols > 0 {
        law_row_text_is_its_cells(line, cols - 1);
        if cols <= line.len() {
            let fewer = line.take(cols - 1).map_values(text);
            fewer.lemma_flatten_and_flatten_alt_are_equivalent();
            assert(cells.drop_last() =~= fewer);
        }
    }
}

/// A byte of a row's text comes from the cell whose text it is in.
proof fn lemma_column_of_byte(line: Seq<vt100::Cell>, cols: int, k: int)
    requires
        cols <= 65535,
        0 <= k < row_columns(line, cols).len(),
    ensures
        ({
            let col = row_columns(line, cols)[k] as int;
            &&& 0 <= col < cols && col < line.len()
            &&& encode_utf8(row_text(line, col)).len() <= k < encode_utf8(
                row_text(line, col + 1),
            ).len()
        }),
    decreases cols,
{
    if cols > 0 {
        let fewer = row_columns(line, cols - 1);
        lemma_columns_for_bytes(line, cols - 1);
        lemma_columns_for_bytes(line, cols);
        if k < fewer.len() {
            lemma_column_of_byte(line, cols - 1, k);
        }
    }
}

/// The text of fewer cells is no longer.
proof fn lemma_text_grows(line: Seq<vt100::Cell>, a: int, b: int)
    requires
        a <= b,
    ensures
        encode_utf8(row_text(line, a)).len() <= encode_utf8(row_text(line, b)).len(),
    decreases b,
{
    if a < b && b > 0 {
        lemma_text_grows(line, a, b - 1);
        if b <= line.len() {
            lemma_encoding_joins(row_text(line, b - 1), cell_text(line[b - 1]));
        }
    }
}

/// A match of some text covers the columns whose cells hold any of it: those that end
/// behind the start of the match and begin before its end.
pub proof fn law_a_match_covers_its_text(
    re: regex::Regex,
    c: Content,
    n: int,
    k: int,
    col: int,
)
    requires
        rows_in_order(re, c),
        0 <= n < c.lines.len(),
        0 <= k < regex_spans(re, row_text(c.lines[n], c.cols as int)).len(),
        0 <= col < c.cols,
    ensures
        ({
            let line = c.lines[n];
            let span = regex_spans(re, row_text(line, c.cols as int))[k];
            let m = match_in_row(re, c, n, k);
            span.0 < span.1 ==> (m.start_col <= col < m.end_col <==> {
                &&& encode_utf8(row_text(line, col + 1)).len() > span.0
                &&& encode_utf8(row_text(line, col)).len() < span.1
            })
        }),
{
    let line = c.lines[n];
    let cols = c.cols as int;
    assert(row_spans_of(re, c, n) == regex_spans(re, row_text(line, cols)));
    let span = row_spans_of(re, c, n)[k];
    lemma_columns_for_bytes(line, cols);
    if span.0 < span.1 {
        lemma_column_of_byte(line, cols, span.0 as int);
        lemma_column_of_byte(line, cols, span.1 - 1);
        let first = row_columns(line, cols)[span.0 as int] as int;
        let last = row_columns(line, cols)[span.1 - 1] as int;
        if col < first {
            lemma_text_grows(line, col + 1, first);
        } else {
            lemma_text_grows(line, first + 1, col + 1);
        }
        if col > last {
            lemma_text_grows(line, last + 1, col);
        } else {
            lemma_text_grows(line, col, last);
        }
    }
}

/// Where a search meets the rows: those of the oldest screenful with the viewport at the
/// top, each in its place, and every later one in the last row of the viewport.
pub proof fn law_where_rows_are_met(re: regex::Regex, c: Content, n: int, k: int)
    requires
        1 <= c.rows <= c.lines.len() <= usize::MAX,
        0 <= n < c.lines.len(),
        0 <= k < regex_spans(re, row_text(c.lines[n], c.cols as int)).len(),
    ensures
        ({
            let m = match_in_row(re, c, n, k);
            &&& n < c.rows ==> m.scroll_offset == c.lines.len() - c.rows && m.view_row == n
            &&& n >= c.rows ==> m.scroll_offset == c.lines.len() - 1 - n && m.view_row == c.rows - 1
        }),
{
}

/// A match is shown in the row in which the text that it matches is: at any scroll
/// offset it covers a position of the viewport exactly if that shows the match's row and
/// one of its columns.
pub proof fn law_matches_are_shown_on_their_row(
    re: regex::Regex,
    c: Content,
    n: int,
    k: int,
    offset: usize,
    row: usize,
    col: usize,
)
    requires
        1 <= c.rows <= c.lines.len(),
        c.lines.len() - c.rows <= countable(),
        0 <= n < c.lines.len(),
        0 <= k < regex_spans(re, row_text(c.lines[n], c.cols as int)).len(),
        offset <= c.lines.len() - c.rows,
        row < c.rows,
    ensures
        ({
            let m = match_in_row(re, c, n, k);
            match_covers(m, offset, row, col) <==> {
                &&& c.lines.len() - c.rows - offset + row == n
                &&& m.start_col <= col < m.end_col
            }
        }),
{
}

/// A move to the next match goes down in a forward search and up in a backward one, by
/// one match, and from the last in that direction to the other end. A move to the
/// previous one goes the other way. Nothing but the current match changes.
pub proof fn law_moves_go_by_one(start: SearchState, end: SearchState, along: bool)
    requires
        start.wf(),
        start.moved(&end, along),
    ensures
        ({
            let len = start.matches@.len() as int;
            let i = start.current_match as int;
            let j = end.current_match as int;
            let down = if along {
                start.direction == SearchDirection::Forward
            } else {
                start.direction == SearchDirection::Backward
            };
            &&& len == 0 ==> j == i
            &&& len > 0 && down && i < len - 1 ==> j == i + 1
            &&& len > 0 && down && i == len - 1 ==> j == 0
            &&& len > 0 && !down && i > 0 ==> j == i - 1
            &&& len > 0 && !down && i == 0 ==> j == len - 1
        }),
        end.matches == start.matches,
        end.pattern == start.pattern,
        end.regex == start.regex,
        end.error == start.error,
        end.direction == start.direction,
{
    let len = start.matches@.len() as int;
    assert(len == start.matches.len());
    let i = start.current_match as int;
    if 0 < len && i + 1 < len {
        vstd::arithmetic::div_mod::lemma_small_mod((i + 1) as nat, len as nat);
    } else if 0 < len {
        vstd::arithmetic::div_mod::lemma_mod_self_0(len);
    }
}

/// The match that a move leads to is in view: its row is in the middle, or as near to it
/// as the scrollback lets it.
pub proof fn law_moves_show_the_match(before: Terminal, after: Terminal, along: bool)
    requires
        before.searchable(),
        before.went_to_match(&after, along),
    ensures
        before.search.moved(&after.search, along),
        before.search.matches@.len() == 0 ==> after == before,
        before.search.matches@.len() > 0 ==> ({
            let m = after.search.matches@[after.search.current_match as int];
            let middle = m.scroll_offset - m.view_row + before.dimensions().0 as int / 2;
            &&& middle <= 0 ==> after.scroll_offset == 0
            &&& 0 <= middle <= before.scrollback_len ==> after.scroll_offset == middle
            &&& middle >= before.scrollback_len ==> after.scroll_offset == before.scrollback_len
        }),
{
    law_moves_stay_among_matches(before.search, after.search, along);
}

/// A pattern that has changed is compiled with case ignored, unless it is empty; one
/// that does not compile is an error and searches for nothing. No matches of an earlier
/// pattern are left.
pub proof fn law_patterns_are_compiled(s: SearchState, pattern: Seq<char>, d: SearchDirection)
    requires
        s.has_pattern(pattern, d),
    ensures
        s.pattern@ == pattern,
        s.direction == d,
        pattern.len() == 0 ==> s.regex is None && !s.error,
        pattern.len() > 0 ==> s.regex == insensitive_regex(pattern),
        pattern.len() > 0 ==> s.error == (insensitive_regex(pattern) is None),
        s.matches@.len() == 0,
        s.current_match == 0,
{
}

/// Output goes to the emulator as it is, and the view stays at its scroll offset. Where
/// rows were cleared away the emulator takes it byte by byte. Where none were, the
/// scrollback is as long as the emulator's history, up to what is kept.
pub proof fn law_output_reaches_the_emulator(before: Terminal, after: Terminal, data: Seq<u8>)
    requires
        before.wf(),
        after.wf(),
        before.fed(&after, data),
    ensures
        before.hidden == 0 ==> same_but_viewport(emulator_fed(before.parser, data), after.parser),
        before.hidden > 0 ==> same_but_viewport(
            emulator_fed_each(before.parser, data),
            after.parser,
        ),
        before.hidden == 0 ==> after.hidden == 0,
        after.scroll_offset == before.scroll_offset,
        after.search == before.search,
        after.capacity == before.capacity,
        after.dimensions() == before.dimensions(),
        before.hidden == 0 && screen_history(after.shown()) <= after.capacity
            ==> after.scrollback_len == screen_history(after.shown()),
        before.hidden == 0 && screen_history(after.shown()) > after.capacity
            ==> after.scrollback_len == after.capacity,
        before.scroll_offset <= after.scrollback_len ==> screen_offset(after.shown())
            == before.scroll_offset,
{
    lemma_nothing_hidden(before.parser, data);
}

/// Clearing sends `ESC [ 2 J`, `ESC [ H` and `ESC [ 3 J` to the emulator, which leave the
/// screen blank, and puts all of the scrollback out of reach. The view is at the bottom;
/// the size and the search stay. While the other screen is in use, the scrollback of the
/// main one is left alone.
pub proof fn law_clearing(before: Terminal, after: Terminal)
    requires
        before.wf(),
        after.wf(),
        before.cleared(&after),
    ensures
        before.dimensions().1 >= 1 ==> after.parser == emulator_scrolled(
            emulator_fed(
                before.parser,
                seq![27u8, 91, 50, 74, 27, 91, 72, 27, 91, 51, 74],
            ),
            0,
        ),
        before.dimensions().1 == 0 ==> after.parser == emulator_scrolled(before.parser, 0),
        screen_alternate(before.shown()) ==> after.hidden == before.hidden,
        after.scrollback_len == 0,
        after.scroll_offset == 0,
        screen_offset(after.shown()) == 0,
        after.content().lines.len() == after.dimensions().0,
        after.dimensions() == before.dimensions(),
        after.capacity == before.capacity,
        after.search == before.search,
        forall|row: int, col: int|
            0 <= row < before.dimensions().0 && 0 <= col < before.dimensions().1 ==> (
            #[trigger] shown_cell(after.shown(), row, col) matches Some(c) && cell_text(c).len()
                == 0),
{
}

/// A change of size gives the emulator that size, and leaves the scrollback, its rows,
/// the place of the view in it and the search as they were.
pub proof fn law_resizing(before: Terminal, after: Terminal, rows: u16, cols: u16)
    requires
        before.wf(),
        after.wf(),
        before.resized(&after, rows, cols),
    ensures
        after.dimensions() == (rows, cols),
        after.parser == emulator_resized(before.parser, rows, cols),
        after.scrollback_len == before.scrollback_len,
        after.scroll_offset == before.scroll_offset,
        after.search == before.search,
        after.capacity == before.capacity,
        screen_history(after.shown()) == screen_history(before.shown()) ==> forall|i: int|
            0 <= i < before.scrollback_len ==> #[trigger] after.content().lines[i]
                == before.content().lines[i],
{
}

/// A new pane is blank, of the given size, at the bottom of an empty scrollback that
/// keeps as many lines as it is told to, and searches for nothing.
pub proof fn law_new_panes(t: Terminal, rows: u16, cols: u16, lines: usize)
    requires
        t.wf(),
        t.is_new(rows, cols, lines),
        lines < usize::MAX,
    ensures
        t.parser == emulator_new(rows, cols, (lines + 1) as usize),
        t.dimensions() == (rows, cols),
        t.capacity == lines,
        t.scroll_offset == 0 && t.scrollback_len == 0 && t.hidden == 0,
        t.search.pattern@.len() == 0 && t.search.regex is None && !t.search.error,
        t.search.matches@.len() == 0,
        t.search.direction == SearchDirection::Forward,
        forall|row: int, col: int|
            0 <= row < rows && 0 <= col < cols ==> (#[trigger] shown_cell(
                t.shown(),
                row,
                col,
            ) matches Some(c) && cell_text(c).len() == 0),
{
}

/// A search marks what matches, all of it and nothing else: at any scroll offset a
/// position of the viewport is covered by one of the matches found exactly if its cell
/// holds any of the text of a match in the row shown there.
pub proof fn law_search_marks_what_matches(
    before: Terminal,
    after: Terminal,
    re: regex::Regex,
    offset: usize,
    row: usize,
    col: usize,
)
    requires
        before.searchable(),
        before.search.regex == Some(re),
        before.searched(&after),
        matches_text(re, before.content()),
        offset <= before.scrollback_len,
        row < before.dimensions().0,
        col < before.dimensions().1,
    ensures
        ({
            let line = before.content().lines[before.scrollback_len - offset + row];
            let spans = regex_spans(re, row_text(line, before.dimensions().1 as int));
            (exists|i: int|
                0 <= i < after.search.matches@.len() && match_covers(
                    #[trigger] after.search.matches@[i],
                    offset,
                    row,
                    col,
                )) <==> (exists|k: int|
                0 <= k < spans.len() && encode_utf8(row_text(line, col + 1)).len() > (
                #[trigger] spans[k]).0 && encode_utf8(row_text(line, col as int)).len()
                    < spans[k].1)
        }),
{
    let c = before.content();
    let n = before.scrollback_len - offset + row;
    let line = c.lines[n];
    let spans = regex_spans(re, row_text(line, c.cols as int));
    let found = after.search.matches@;
    assert(row_spans_of(re, c, n) == spans);
    if exists|i: int|
        0 <= i < found.len() && match_covers(#[trigger] found[i], offset, row, col) {
        let i = choose|i: int|
            0 <= i < found.len() && match_covers(#[trigger] found[i], offset, row, col);
        law_every_match_is_of_a_row(re, c, i);
        let (p, k) = choose|p: int, k: int|
            0 <= p < c.lines.len() && 0 <= k < row_match_count(re, c, p) && all_matches(re, c)[i]
                == #[trigger] match_in_row(re, c, p, k);
        law_matches_are_shown_on_their_row(re, c, p, k, offset, row, col);
        assert(row_spans_of(re, c, p)[k].0 < row_spans_of(re, c, p)[k].1);
        law_a_match_covers_its_text(re, c, p, k, col as int);
        assert(encode_utf8(row_text(line, col + 1)).len() > spans[k].0);
    }
    if exists|k: int|
        0 <= k < spans.len() && encode_utf8(row_text(line, col + 1)).len() > (
        #[trigger] spans[k]).0 && encode_utf8(row_text(line, col as int)).len() < spans[k].1 {
        let k = choose|k: int|
            0 <= k < spans.len() && encode_utf8(row_text(line, col + 1)).len() > (
            #[trigger] spans[k]).0 && encode_utf8(row_text(line, col as int)).len() < spans[k].1;
        assert(row_spans_of(re, c, n)[k].0 < row_spans_of(re, c, n)[k].1);
        law_every_match_is_found(re, c, n, k);
        law_matches_are_shown_on_their_row(re, c, n, k, offset, row, col);
        law_a_match_covers_its_text(re, c, n, k, col as int);
        let i = choose|i: int| 0 <= i < found.len() && found[i] == match_in_row(re, c, n, k);
        assert(match_covers(found[i], offset, row, col));
    }
}

/// A match begins in the column whose cell holds its first byte and ends with the column
/// whose cell holds its last. One that matches nothing ends with the column before it,
/// or with the first; behind the last byte of the row it begins in the first column, and
/// in a row without text it ends behind the last.
pub proof fn law_where_matches_begin_and_end(re: regex::Regex, c: Content, n: int, k: int)
    requires
        rows_in_order(re, c),
        0 <= n < c.lines.len(),
        0 <= k < regex_spans(re, row_text(c.lines[n], c.cols as int)).len(),
    ensures
        ({
            let line = c.lines[n];
            let total = encode_utf8(row_text(line, c.cols as int)).len();
            let (start, end) = regex_spans(re, row_text(line, c.cols as int))[k];
            let last = if end == 0 {
                0
            } else {
                end - 1
            };
            let m = match_in_row(re, c, n, k);
            &&& start < total ==> encode_utf8(row_text(line, m.start_col as int)).len() <= start
                < encode_utf8(row_text(line, m.start_col + 1)).len()
            &&& start >= total ==> m.start_col == 0
            &&& last < total ==> encode_utf8(row_text(line, m.end_col - 1)).len() <= last
                < encode_utf8(row_text(line, m.end_col as int)).len()
            &&& total == 0 ==> m.end_col == c.cols
        }),
{
    let line = c.lines[n];
    let cols = c.cols as int;
    assert(row_spans_of(re, c, n) == regex_spans(re, row_text(line, cols)));
    let (start, end) = row_spans_of(re, c, n)[k];
    let last = if end == 0 {
        0
    } else {
        end - 1
    };
    lemma_columns_for_bytes(line, cols);
    if start < row_columns(line, cols).len() {
        lemma_column_of_byte(line, cols, start as int);
    }
    if last < row_columns(line, cols).len() {
        lemma_column_of_byte(line, cols, last);
    }
}

/// A visit to the other screen brings no cleared rows back: as many are hidden while it
/// is in use as before, and again behind it, as far as the history has them. A reset,
/// which empties the history, leaves none to hide, and where none are hidden none will be.
pub proof fn law_hidden_rows_outlast_the_other_screen(t: Terminal, after: Terminal, byte: u8)
    requires
        t.wf(),
        after.wf(),
        t.fed(&after, seq![byte]),
    ensures
        t.hidden == 0 ==> after.hidden == 0,
        screen_alternate(after.shown()) ==> after.hidden == t.hidden,
        screen_alternate(t.shown()) && !screen_alternate(after.shown()) && t.hidden
            <= screen_history(after.shown()) ==> after.hidden == t.hidden,
        screen_alternate(t.shown()) && !screen_alternate(after.shown()) && t.hidden
            >= screen_history(after.shown()) ==> after.hidden == screen_history(after.shown()),
        !screen_alternate(t.shown()) && !screen_alternate(after.shown()) && screen_offset(
            emulator_screen(emulator_fed(emulator_scrolled(t.parser, 1), seq![byte])),
        ) == 0 ==> after.hidden == 0,
{
    let data = seq![byte];
    lemma_nothing_hidden(t.parser, data);
    assert(data.drop_last() =~= seq![]);
    assert(hidden_after(t.parser, t.hidden as int, data.drop_last()) == t.hidden);
    assert(emulator_fed_each(t.parser, data.drop_last()) == t.parser);
    assert(hidden_after(t.parser, t.hidden as int, data) == still_hidden(
        t.parser,
        t.hidden as int,
        data,
    ));
    if t.hidden > 0 {
        assert(t.parser_after(data) == emulator_fed(emulator_scrolled(t.parser, 1), data));
    }
}

/// A position of the viewport is marked exactly if there is a match in the row that is
/// shown there, with that column among its own; it is marked as the current match exactly
/// if that is the one.
pub proof fn law_what_is_marked(t: Terminal, row: usize, col: usize)
    requires
        t.searchable(),
        row < t.dimensions().0,
    ensures
        t.marks_any(row, col) <==> exists|i: int|
            0 <= i < t.search.matches@.len() && {
                let m = #[trigger] t.search.matches@[i];
                &&& m.view_row + t.scroll_offset == row + m.scroll_offset
                &&& m.start_col <= col < m.end_col
            },
        t.marks_current(row, col) <==> t.search.matches@.len() > 0 && {
            let m = t.search.matches@[t.search.current_match as int];
            &&& m.view_row + t.scroll_offset == row + m.scroll_offset
            &&& m.start_col <= col < m.end_col
        },
{
    assert forall|i: int| 0 <= i < t.search.matches@.len() implies match_covers(
        #[trigger] t.search.matches@[i],
        t.scroll_offset,
        row,
        col,
    ) == ({
        let m = t.search.matches@[i];
        &&& m.view_row + t.scroll_offset == row + m.scroll_offset
        &&& m.start_col <= col < m.end_col
    }) by {
        assert(tame(t.search.matches@[i]));
    }
}

} // verus!
