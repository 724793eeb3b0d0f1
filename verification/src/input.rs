//! Keys, pasted text and mouse clicks: what they do to the application, and what
//! they ask for.

use vstd::prelude::*;
use vstd::string::*;
use vstd::utf8::encode_utf8;

use crate::app::{App, Focus, Layout, MessageLevel, Mode};
use crate::area::Rect;
use crate::pattern::insensitive_regex;
use crate::serial::SerialKey;
use crate::terminal::{
    law_moves_go_by_one, law_moves_show_the_match, law_moves_stay_among_matches,
    law_moves_undo_each_other, tame, SearchDirection, Terminal,
};
use crate::text::{
    ascii_lowercase, decimal, decimal_string, join, law_decimal_reads_back, read_decimal,
};

verus! {

/// Which key was pressed.
#[derive(Debug, Clone, Copy, PartialEq, Eq, Structural)]
pub enum KeyCode {
    Char(char),
    Enter,
    Backspace,
    Tab,
    Esc,
    Up,
    Down,
    Left,
    Right,
    Home,
    End,
    PageUp,
    PageDown,
    Delete,
    Insert,
    /// A function key, by its number.
    F(u8),
    /// A key without a meaning here.
    Other,
}

/// Whether a key went down, repeated or came up.
#[derive(Debug, Clone, Copy, PartialEq, Eq, Structural)]
pub enum KeyEventKind {
    Press,
    Repeat,
    Release,
}

/// A key, with whether Ctrl was held.
#[derive(Debug, Clone, Copy, PartialEq, Eq, Structural)]
pub struct KeyEvent {
    pub code: KeyCode,
    pub control: bool,
    pub kind: KeyEventKind,
}

/// A mouse button.
#[derive(Debug, Clone, Copy, PartialEq, Eq, Structural)]
pub enum MouseButton {
    Left,
    Right,
    Middle,
}

/// What the mouse did.
#[derive(Debug, Clone, Copy, PartialEq, Eq, Structural)]
pub enum MouseEventKind {
    Down(MouseButton),
    /// A release, a move or a turn of the wheel.
    Other,
}

/// What the mouse did, and over which cell of the screen.
#[derive(Debug, Clone, Copy, PartialEq, Eq, Structural)]
pub struct MouseEvent {
    pub kind: MouseEventKind,
    pub column: u16,
    pub row: u16,
}

/// Result of handling a key event.
#[derive(Debug)]
pub enum KeyAction {
    /// Send bytes to serial.
    Send(SerialKey),
    /// Quit the application.
    Quit,
    /// Layout changed, need to recalculate sizes.
    LayoutChanged,
    /// Reconnect to serial port.
    Reconnect,
    /// Search pattern changed, need to update matches.
    SearchChanged,
    /// No action needed.
    Nothing,
}

impl KeyAction {
    /// Whether the action is to send some bytes.
    pub open spec fn sends(&self, bytes: Seq<u8>) -> bool {
        *self matches KeyAction::Send(key) && key@ == bytes
    }
}

/// The escape character.
pub const ESCAPE: u8 = 27;

/// An escape sequence that ends in a letter: `ESC [ x` for the cursor keys, `ESC O x`
/// for the first function keys.
pub open spec fn short_sequence(introducer: char, last: char) -> Seq<u8> {
    seq![ESCAPE, introducer as u8, last as u8]
}

/// An escape sequence with a number of one digit: `ESC [ n ~`.
pub open spec fn numbered_sequence(digit: char) -> Seq<u8> {
    seq![ESCAPE, '[' as u8, digit as u8, '~' as u8]
}

/// An escape sequence with a number of two digits: `ESC [ n n ~`.
pub open spec fn long_sequence(tens: char, ones: char) -> Seq<u8> {
    seq![ESCAPE, '[' as u8, tens as u8, ones as u8, '~' as u8]
}

/// What a function key sends: nothing past the twelfth.
pub open spec fn function_key_bytes(n: u8) -> Option<Seq<u8>> {
    match n {
        1 => Some(short_sequence('O', 'P')),
        2 => Some(short_sequence('O', 'Q')),
        3 => Some(short_sequence('O', 'R')),
        4 => Some(short_sequence('O', 'S')),
        5 => Some(long_sequence('1', '5')),
        6 => Some(long_sequence('1', '7')),
        7 => Some(long_sequence('1', '8')),
        8 => Some(long_sequence('1', '9')),
        9 => Some(long_sequence('2', '0')),
        10 => Some(long_sequence('2', '1')),
        11 => Some(long_sequence('2', '3')),
        12 => Some(long_sequence('2', '4')),
        _ => None,
    }
}

/// What Ctrl and a character send: one byte, so that the letters give 1 to 26 in
/// either case. Of other characters the lowest eight bits count.
pub open spec fn control_byte(c: char) -> u8 {
    ((ascii_lowercase(c) as int + 160) % 256) as u8
}

/// What a key sends over serial.
pub open spec fn bytes_of_key(key: KeyEvent) -> Option<Seq<u8>> {
    match key.code {
        KeyCode::Char(c) => Some(
            if key.control {
                seq![control_byte(c)]
            } else {
                encode_utf8(seq![c])
            },
        ),
        KeyCode::Enter => Some(seq![13u8]),
        KeyCode::Backspace => Some(seq![127u8]),
        KeyCode::Tab => Some(seq![9u8]),
        KeyCode::Esc => Some(seq![ESCAPE]),
        KeyCode::Up => Some(short_sequence('[', 'A')),
        KeyCode::Down => Some(short_sequence('[', 'B')),
        KeyCode::Right => Some(short_sequence('[', 'C')),
        KeyCode::Left => Some(short_sequence('[', 'D')),
        KeyCode::Home => Some(short_sequence('[', 'H')),
        KeyCode::End => Some(short_sequence('[', 'F')),
        KeyCode::Delete => Some(numbered_sequence('3')),
        KeyCode::Insert => Some(numbered_sequence('2')),
        KeyCode::PageUp => Some(numbered_sequence('5')),
        KeyCode::PageDown => Some(numbered_sequence('6')),
        KeyCode::F(n) => function_key_bytes(n),
        KeyCode::Other => None,
    }
}

/// The bytes of an escape sequence that ends in a letter.
fn short_key(introducer: char, last: char) -> (bytes: Vec<u8>)
    ensures
        bytes@ == short_sequence(introducer, last),
{
    vec![ESCAPE, introducer as u8, last as u8]
}

/// The bytes of an escape sequence with a number of one digit.
fn numbered_key(digit: char) -> (bytes: Vec<u8>)
    ensures
        bytes@ == numbered_sequence(digit),
{
    vec![ESCAPE, '[' as u8, digit as u8, '~' as u8]
}

/// The bytes of an escape sequence with a number of two digits.
fn long_key(tens: char, ones: char) -> (bytes: Vec<u8>)
    ensures
        bytes@ == long_sequence(tens, ones),
{
    vec![ESCAPE, '[' as u8, tens as u8, ones as u8, '~' as u8]
}

/// Convert a key event to bytes to send over serial.
fn key_to_bytes(key: KeyEvent) -> (r: Option<SerialKey>)
    ensures
        match bytes_of_key(key) {
            Some(bytes) => r matches Some(k) && k@ == bytes,
            None => r is None,
        },
{
    let bytes = match key.code {
        KeyCode::Char(c) => {
            if key.control {
                // Ctrl+A = 0x01, Ctrl+B = 0x02, etc.
                let low: u8 = (c.to_ascii_lowercase() as u32 % 256) as u8;
                vec![low.wrapping_sub(96)]
            } else {
                let mut s = String::new();
                s.push(c);
                assert(s@ =~= seq![c]);
                return Some(SerialKey::new(s.as_str().as_bytes()));
            }
        },
        KeyCode::Enter => vec![13],
        KeyCode::Backspace => vec![127],
        KeyCode::Tab => vec![9],
        KeyCode::Esc => vec![ESCAPE],
        KeyCode::Up => short_key('[', 'A'),
        KeyCode::Down => short_key('[', 'B'),
        KeyCode::Right => short_key('[', 'C'),
        KeyCode::Left => short_key('[', 'D'),
        KeyCode::Home => short_key('[', 'H'),
        KeyCode::End => short_key('[', 'F'),
        KeyCode::Delete => numbered_key('3'),
        KeyCode::Insert => numbered_key('2'),
        KeyCode::PageUp => numbered_key('5'),
        KeyCode::PageDown => numbered_key('6'),
        KeyCode::F(n) => match n {
            1 => short_key('O', 'P'),
            2 => short_key('O', 'Q'),
            3 => short_key('O', 'R'),
            4 => short_key('O', 'S'),
            5 => long_key('1', '5'),
            6 => long_key('1', '7'),
            7 => long_key('1', '8'),
            8 => long_key('1', '9'),
            9 => long_key('2', '0'),
            10 => long_key('2', '1'),
            11 => long_key('2', '3'),
            12 => long_key('2', '4'),
            _ => return None,
        },
        KeyCode::Other => return None,
    };
    assert(bytes@ =~= bytes_of_key(key)->0);
    Some(SerialKey::new(bytes.as_slice()))
}

/// What a key does in Insert mode: Esc leaves the mode, any other goes to serial.
pub open spec fn insert_key(before: App, key: KeyEvent, after: App, action: KeyAction) -> bool {
    if key.code == KeyCode::Esc {
        after == (App { mode: Mode::Normal, ..before }) && action is Nothing
    } else {
        &&& after == before
        &&& match bytes_of_key(key) {
            Some(bytes) => action.sends(bytes),
            None => action is Nothing,
        }
    }
}

/// The command that sets a terminal's size on the other side.
pub open spec fn resize_command(size: (u16, u16)) -> Seq<char> {
    "stty rows "@ + decimal(size.0 as nat) + " cols "@ + decimal(size.1 as nat) + "\n"@
}

/// The name of a layout.
pub open spec fn layout_name(layout: Layout) -> Seq<char> {
    match layout {
        Layout::Horizontal => "horizontal"@,
        Layout::Vertical => "vertical"@,
    }
}

/// The name of a pane.
pub open spec fn pane_name(focus: Focus) -> Seq<char> {
    match focus {
        Focus::App => "App"@,
        Focus::Kernel => "Kernel"@,
    }
}

/// The other pane.
pub open spec fn other_pane(focus: Focus) -> Focus {
    match focus {
        Focus::App => Focus::Kernel,
        Focus::Kernel => Focus::App,
    }
}

/// The application with nothing but its message changed, to some text.
pub open spec fn told(before: App, after: App, text: Seq<char>, level: MessageLevel) -> bool {
    after.shows(text, level) && after == (App { message: after.message, ..before })
}

/// The application with nothing but the focused pane changed, by a scroll to some
/// offset.
pub open spec fn scrolled(before: App, after: App, offset: usize) -> bool {
    &&& after == before.with_focused(after.focused())
    &&& before.focused().scrolled_to(&after.focused(), offset)
}

/// The application with nothing but the focused pane changed, by a move to another
/// match.
pub open spec fn visited(before: App, after: App, along: bool) -> bool {
    &&& after == before.with_focused(after.focused())
    &&& before.focused().went_to_match(&after.focused(), along)
}

/// The application with nothing but the search of the focused pane and the mode
/// changed: a new pattern with no matches yet.
pub open spec fn searching(
    before: App,
    after: App,
    mode: Mode,
    pattern: Seq<char>,
    direction: SearchDirection,
) -> bool {
    let search = after.focused().search;
    &&& after == (App { mode, ..before.with_focused(Terminal { search, ..before.focused() }) })
    &&& search.has_pattern(pattern, direction)
}

/// What a key does in Normal mode.
pub open spec fn normal_key(before: App, key: KeyEvent, after: App, action: KeyAction) -> bool {
    let pane = before.focused();
    match key.code {
        KeyCode::Char('i') => {
            &&& action is Nothing
            &&& if before.connection is Connected {
                after == (App { mode: Mode::Insert, focus: Focus::App, ..before })
            } else {
                told(
                    before,
                    after,
                    "Cannot enter Insert mode: not connected"@,
                    MessageLevel::Error,
                )
            }
        },
        KeyCode::Char('q') => {
            action is Quit && after == (App { should_quit: true, ..before })
        },
        KeyCode::Char('s') => {
            let layout = before.layout.toggled();
            &&& action is LayoutChanged
            &&& told(
                App { layout, ..before },
                after,
                "Layout: "@ + layout_name(layout),
                MessageLevel::Info,
            )
        },
        KeyCode::Char('r') => {
            &&& after == before
            &&& if key.control {
                action is Reconnect
            } else {
                action.sends(encode_utf8(resize_command(before.app_terminal.dimensions())))
            }
        },
        KeyCode::Tab | KeyCode::Char('w') => {
            action is Nothing && after == (App { focus: other_pane(before.focus), ..before })
        },
        KeyCode::Char('j') | KeyCode::Down => {
            action is Nothing && scrolled(before, after, pane.offset_below(1))
        },
        KeyCode::Char('k') | KeyCode::Up => {
            action is Nothing && scrolled(before, after, pane.offset_above(1))
        },
        KeyCode::Char('d') => {
            &&& action is Nothing
            &&& if key.control {
                scrolled(before, after, pane.offset_below(10))
            } else {
                after == before
            }
        },
        KeyCode::Char('u') => {
            &&& action is Nothing
            &&& if key.control {
                scrolled(before, after, pane.offset_above(10))
            } else {
                after == before
            }
        },
        KeyCode::Char('g') => {
            action is Nothing && scrolled(before, after, pane.scrollback_len)
        },
        KeyCode::Char('G') => {
            action is Nothing && scrolled(before, after, 0)
        },
        KeyCode::Char('c') => {
            let cleared = after.focused();
            &&& action is Nothing
            &&& pane.cleared(&cleared)
            &&& told(
                before.with_focused(cleared),
                after,
                "Cleared "@ + pane_name(before.focus) + " pane"@,
                MessageLevel::Info,
            )
        },
        KeyCode::Char('/') => {
            &&& action is Nothing
            &&& searching(before, after, Mode::Search, Seq::empty(), SearchDirection::Forward)
        },
        KeyCode::Char('?') => {
            &&& action is Nothing
            &&& searching(before, after, Mode::Search, Seq::empty(), SearchDirection::Backward)
        },
        KeyCode::Char('n') => {
            action is Nothing && visited(before, after, true)
        },
        KeyCode::Char('N') => {
            action is Nothing && visited(before, after, false)
        },
        KeyCode::Esc => {
            &&& action is Nothing
            &&& searching(before, after, before.mode, Seq::empty(), pane.search.direction)
        },
        _ => action is Nothing && after == before,
    }
}

/// What a key does in Search mode.
pub open spec fn search_key(before: App, key: KeyEvent, after: App, action: KeyAction) -> bool {
    let search = before.focused().search;
    match key.code {
        KeyCode::Enter => {
            let normal = App { mode: Mode::Normal, ..before };
            &&& action is Nothing
            &&& if search.matches@.len() == 0 && search.pattern@.len() > 0 {
                told(normal, after, "No matches found"@, MessageLevel::Info)
            } else {
                after == normal
            }
        },
        KeyCode::Esc => {
            &&& action is Nothing
            &&& searching(before, after, Mode::Normal, Seq::empty(), search.direction)
        },
        KeyCode::Backspace => {
            let pattern = if search.pattern@.len() == 0 {
                search.pattern@
            } else {
                search.pattern@.drop_last()
            };
            action is SearchChanged && searching(
                before,
                after,
                before.mode,
                pattern,
                search.direction,
            )
        },
        KeyCode::Char(c) => {
            if key.control && c == 'u' {
                &&& action is SearchChanged
                &&& searching(before, after, before.mode, Seq::empty(), search.direction)
            } else if key.control && c == 'n' {
                action is Nothing && visited(before, after, true)
            } else if key.control && c == 'p' {
                action is Nothing && visited(before, after, false)
            } else {
                &&& action is SearchChanged
                &&& searching(
                    before,
                    after,
                    before.mode,
                    search.pattern@.push(c),
                    search.direction,
                )
            }
        },
        _ => action is Nothing && after == before,
    }
}

/// What a key does, by the mode.
pub open spec fn key_handled(before: App, key: KeyEvent, after: App, action: KeyAction) -> bool {
    match before.mode {
        Mode::Insert => insert_key(before, key, after, action),
        Mode::Normal => normal_key(before, key, after, action),
        Mode::Search => search_key(before, key, after, action),
    }
}

/// Handle a key event, updating app state and returning any action needed.
pub fn handle_key(app: &mut App, key: KeyEvent) -> (action: KeyAction)
    requires
        old(app).wf(),
    ensures
        final(app).wf(),
        key_handled(*old(app), key, *final(app), action),
{
    match app.mode {
        Mode::Insert => handle_insert_mode(app, key),
        Mode::Normal => handle_normal_mode(app, key),
        Mode::Search => handle_search_mode(app, key),
    }
}

/// What pasted text does: in Insert mode it is sent, and else ignored, which is told.
pub open spec fn pasted(before: App, text: Seq<char>, after: App, action: KeyAction) -> bool {
    match before.mode {
        Mode::Insert => after == before && action.sends(encode_utf8(text)),
        _ => action is Nothing && told(
            before,
            after,
            "Paste ignored (not in Insert mode)"@,
            MessageLevel::Info,
        ),
    }
}

/// Handle a paste event. Only sends to serial in Insert mode.
pub fn handle_paste(app: &mut App, text: &str) -> (action: KeyAction)
    ensures
        old(app).wf() ==> final(app).wf(),
        pasted(*old(app), text@, *final(app), action),
{
    match app.mode {
        Mode::Insert => KeyAction::Send(SerialKey::new(text.as_bytes())),
        Mode::Normal | Mode::Search => {
            app.show_info("Paste ignored (not in Insert mode)");
            KeyAction::Nothing
        },
    }
}

/// The pane that a click focuses: the one that it is in, the kernel's first, and
/// else the one that is focused.
pub open spec fn clicked_pane(
    focus: Focus,
    mouse: MouseEvent,
    kernel_area: Rect,
    app_area: Rect,
) -> Focus {
    if mouse.kind != MouseEventKind::Down(MouseButton::Left) {
        focus
    } else if kernel_area.has(mouse.column as int, mouse.row as int) {
        Focus::Kernel
    } else if app_area.has(mouse.column as int, mouse.row as int) {
        Focus::App
    } else {
        focus
    }
}

/// Handle a mouse event. Click to focus a pane.
/// `pane_areas` should be (kernel_area, app_area).
pub fn handle_mouse(app: &mut App, mouse: MouseEvent, pane_areas: (Rect, Rect)) -> (action:
    KeyAction)
    ensures
        old(app).wf() ==> final(app).wf(),
        action is Nothing,
        *final(app) == (App {
            focus: clicked_pane(old(app).focus, mouse, pane_areas.0, pane_areas.1),
            ..*old(app)
        }),
{
    let (kernel_area, app_area) = pane_areas;
    if let MouseEventKind::Down(MouseButton::Left) = mouse.kind {
        let x: u16 = mouse.column;
        let y: u16 = mouse.row;
        if kernel_area.contains(x, y) {
            app.focus = Focus::Kernel;
        } else if app_area.contains(x, y) {
            app.focus = Focus::App;
        }
    }
    KeyAction::Nothing
}

/// Insert mode: all keys go to serial, except Esc.
fn handle_insert_mode(app: &mut App, key: KeyEvent) -> (action: KeyAction)
    requires
        old(app).wf(),
    ensures
        final(app).wf(),
        insert_key(*old(app), key, *final(app), action),
{
    if key.code == KeyCode::Esc {
        app.mode = Mode::Normal;
        return KeyAction::Nothing;
    }
    match key_to_bytes(key) {
        Some(bytes) => KeyAction::Send(bytes),
        None => KeyAction::Nothing,
    }
}

/// Moves the focused pane to another match.
fn visit_match(app: &mut App, along: bool)
    requires
        old(app).wf(),
    ensures
        final(app).wf(),
        visited(*old(app), *final(app), along),
{
    let terminal = app.focused_terminal_mut();
    assert(terminal.search.matches@.len() == terminal.search.matches.len());
    let ghost before = terminal.search;
    let found = if along {
        terminal.search.next_match()
    } else {
        terminal.search.prev_match()
    };
    proof {
        law_moves_stay_among_matches(before, terminal.search, along);
    }
    if let Some(m) = found {
        assert(tame(m));
        terminal.scroll_to_match(m);
    }
}

/// Opens Search mode for the focused pane with an empty pattern.
fn open_search(app: &mut App, direction: SearchDirection)
    requires
        old(app).wf(),
    ensures
        final(app).wf(),
        searching(*old(app), *final(app), Mode::Search, Seq::empty(), direction),
{
    app.mode = Mode::Search;
    let terminal = app.focused_terminal_mut();
    terminal.search.clear();
    terminal.search.direction = direction;
}

/// Normal mode: keys are commands.
fn handle_normal_mode(app: &mut App, key: KeyEvent) -> (action: KeyAction)
    requires
        old(app).wf(),
    ensures
        final(app).wf(),
        normal_key(*old(app), key, *final(app), action),
{
    match key.code {
        // Mode switching - only if connected
        KeyCode::Char('i') => {
            if app.connection.is_connected() {
                app.mode = Mode::Insert;
                app.focus = Focus::App;
            } else {
                app.show_error("Cannot enter Insert mode: not connected");
            }
            KeyAction::Nothing
        },
        // Quit
        KeyCode::Char('q') => {
            app.should_quit = true;
            KeyAction::Quit
        },
        // Layout toggle
        KeyCode::Char('s') => {
            app.layout = app.layout.toggle();
            let name = match app.layout {
                Layout::Horizontal => "horizontal",
                Layout::Vertical => "vertical",
            };
            let text = join("Layout: ", name);
            app.show_info(text.as_str());
            KeyAction::LayoutChanged
        },
        KeyCode::Char('r') => {
            if key.control {
                // Reconnect to serial port (Ctrl+R)
                KeyAction::Reconnect
            } else {
                // Send resize command
                let (rows, cols) = app.app_terminal.size();
                let mut cmd = join("stty rows ", decimal_string(rows as usize).as_str());
                cmd.append(" cols ");
                cmd.append(decimal_string(cols as usize).as_str());
                cmd.append("\n");
                KeyAction::Send(SerialKey::new(cmd.as_str().as_bytes()))
            }
        },
        // Switch focus between panes
        KeyCode::Tab | KeyCode::Char('w') => {
            app.focus = match app.focus {
                Focus::App => Focus::Kernel,
                Focus::Kernel => Focus::App,
            };
            KeyAction::Nothing
        },
        // Scrolling (works on focused pane)
        KeyCode::Char('j') | KeyCode::Down => {
            app.focused_terminal_mut().scroll_down(1);
            KeyAction::Nothing
        },
        KeyCode::Char('k') | KeyCode::Up => {
            app.focused_terminal_mut().scroll_up(1);
            KeyAction::Nothing
        },
        KeyCode::Char('d') => {
            if key.control {
                app.focused_terminal_mut().scroll_down(10);
            }
            KeyAction::Nothing
        },
        KeyCode::Char('u') => {
            if key.control {
                app.focused_terminal_mut().scroll_up(10);
            }
            KeyAction::Nothing
        },
        KeyCode::Char('g') => {
            app.focused_terminal_mut().scroll_to_top();
            KeyAction::Nothing
        },
        KeyCode::Char('G') => {
            app.focused_terminal_mut().scroll_to_bottom();
            KeyAction::Nothing
        },
        // Clear focused pane
        KeyCode::Char('c') => {
            let pane_name = match app.focus {
                Focus::App => "App",
                Focus::Kernel => "Kernel",
            };
            app.focused_terminal_mut().clear();
            let mut text = join("Cleared ", pane_name);
            text.append(" pane");
            app.show_info(text.as_str());
            KeyAction::Nothing
        },
        // Enter forward search mode (/)
        KeyCode::Char('/') => {
            open_search(app, SearchDirection::Forward);
            KeyAction::Nothing
        },
        // Enter backward search mode (?)
        KeyCode::Char('?') => {
            open_search(app, SearchDirection::Backward);
            KeyAction::Nothing
        },
        // Next match (n) - follows search direction
        KeyCode::Char('n') => {
            visit_match(app, true);
            KeyAction::Nothing
        },
        // Previous match (N) - opposite of search direction
        KeyCode::Char('N') => {
            visit_match(app, false);
            KeyAction::Nothing
        },
        // Clear search highlights
        KeyCode::Esc => {
            app.focused_terminal_mut().search.clear();
            KeyAction::Nothing
        },
        // Unknown command - ignore
        _ => KeyAction::Nothing,
    }
}

/// Search mode: typing updates pattern, Enter/Esc exits.
fn handle_search_mode(app: &mut App, key: KeyEvent) -> (action: KeyAction)
    requires
        old(app).wf(),
    ensures
        final(app).wf(),
        search_key(*old(app), key, *final(app), action),
{
    match key.code {
        // Exit search mode, keep matches
        KeyCode::Enter => {
            app.mode = Mode::Normal;
            let search = &app.focused_terminal_mut().search;
            if search.matches.len() == 0 && !search.pattern.as_str().is_empty() {
                app.show_info("No matches found");
            }
            KeyAction::Nothing
        },
        // Cancel search, clear matches
        KeyCode::Esc => {
            app.mode = Mode::Normal;
            app.focused_terminal_mut().search.clear();
            KeyAction::Nothing
        },
        // Delete last character
        KeyCode::Backspace => {
            app.focused_terminal_mut().search.pop_char();
            KeyAction::SearchChanged
        },
        KeyCode::Char(c) => {
            if key.control && c == 'u' {
                // Clear entire pattern
                app.focused_terminal_mut().search.set_pattern(String::new());
                KeyAction::SearchChanged
            } else if key.control && c == 'n' {
                // Next match
                visit_match(app, true);
                KeyAction::Nothing
            } else if key.control && c == 'p' {
                // Previous match
                visit_match(app, false);
                KeyAction::Nothing
            } else {
                // Add character to pattern
                app.focused_terminal_mut().search.push_char(c);
                KeyAction::SearchChanged
            }
        },
        _ => KeyAction::Nothing,
    }
}

/// What a key sends is one to five bytes.
pub proof fn law_keys_are_short(key: KeyEvent)
    ensures
        bytes_of_key(key) matches Some(bytes) ==> 1 <= bytes.len() <= 5,
{
    if let KeyCode::Char(c) = key.code {
        let chars = seq![c];
        vstd::utf8::char_is_scalar(c);
        assert(chars.drop_first() =~= seq![]);
        reveal_with_fuel(encode_utf8, 2);
    }
}

/// Ctrl and a letter, in either case, send the letter's number in the alphabet.
pub proof fn law_control_letters(key: KeyEvent, n: u8)
    requires
        1 <= n <= 26,
        key.control,
        key.code == KeyCode::Char((n + 64) as char) || key.code == KeyCode::Char((n + 96) as char),
    ensures
        bytes_of_key(key) == Some(seq![n]),
{
}

/// Insert mode is for a connected port only: no key enters it without a connection.
pub proof fn law_insert_only_while_connected(
    before: App,
    key: KeyEvent,
    after: App,
    action: KeyAction,
)
    requires
        key_handled(before, key, after, action),
        before.mode == Mode::Insert ==> before.connection is Connected,
    ensures
        after.mode == Mode::Insert ==> after.connection is Connected,
{
}

/// Outside Insert mode no key sends anything, but for the resize command of Normal
/// mode.
pub proof fn law_keys_send_in_insert_mode(
    before: App,
    key: KeyEvent,
    after: App,
    action: KeyAction,
)
    requires
        key_handled(before, key, after, action),
        action is Send,
    ensures
        before.mode == Mode::Insert || before.mode == Mode::Normal && key.code == KeyCode::Char('r')
            && !key.control,
        after == before,
{
}

/// Quitting is asked for by `q` in Normal mode alone.
pub proof fn law_quit_by_q_alone(before: App, key: KeyEvent, after: App, action: KeyAction)
    requires
        key_handled(before, key, after, action),
    ensures
        action is Quit <==> before.mode == Mode::Normal && key.code == KeyCode::Char('q'),
        after.should_quit == (before.should_quit || action is Quit),
{
}

/// A key leaves the pane that is not focused as it was.
pub proof fn law_keys_leave_the_other_pane(
    before: App,
    key: KeyEvent,
    after: App,
    action: KeyAction,
)
    requires
        key_handled(before, key, after, action),
    ensures
        before.focus == Focus::App ==> after.kernel_terminal == before.kernel_terminal,
        before.focus == Focus::Kernel ==> after.app_terminal == before.app_terminal,
{
}

/// Switching panes twice changes nothing.
pub proof fn law_switching_panes_twice(
    start: App,
    middle: App,
    end: App,
    key: KeyEvent,
    first: KeyAction,
    second: KeyAction,
)
    requires
        key.code == KeyCode::Tab || key.code == KeyCode::Char('w'),
        normal_key(start, key, middle, first),
        normal_key(middle, key, end, second),
    ensures
        middle.focus != start.focus,
        end == start,
{
}

/// Going to the next match and back, in either order, comes to the match that it
/// started from.
pub proof fn law_next_and_previous_match(start: App, middle: App, end: App, along: bool)
    requires
        start.wf(),
        visited(start, middle, along),
        visited(middle, end, !along),
    ensures
        end.focused().search == start.focused().search,
{
    let search = start.focused().search;
    if search.matches@.len() > 0 {
        law_moves_undo_each_other(search, middle.focused().search, end.focused().search, along);
    }
}

/// A character typed in Search mode and then deleted leaves the pattern, and what it
/// searches for, as they were.
pub proof fn law_backspace_undoes_typing(
    start: App,
    middle: App,
    end: App,
    typed: KeyEvent,
    c: char,
    deleted: KeyEvent,
    first: KeyAction,
    second: KeyAction,
)
    requires
        start.wf(),
        typed.code == KeyCode::Char(c),
        !typed.control,
        deleted.code == KeyCode::Backspace,
        search_key(start, typed, middle, first),
        search_key(middle, deleted, end, second),
    ensures
        end.focused().search.pattern@ == start.focused().search.pattern@,
        end.focused().search.regex == start.focused().search.regex,
        end.focused().search.error == start.focused().search.error,
        first is SearchChanged && second is SearchChanged,
{
    let pattern = start.focused().search.pattern@;
    assert(pattern.push(c).drop_last() =~= pattern);
}

/// A character typed without Ctrl in Insert mode is sent as it is: what is sent decodes
/// to that character and nothing else.
pub proof fn law_characters_are_sent_as_they_are(
    before: App,
    key: KeyEvent,
    after: App,
    action: KeyAction,
    c: char,
)
    requires
        before.mode == Mode::Insert,
        key_handled(before, key, after, action),
        key.code == KeyCode::Char(c),
        !key.control,
    ensures
        action matches KeyAction::Send(sent) && vstd::utf8::valid_utf8(sent@)
            && vstd::utf8::decode_utf8(sent@) == seq![c] && sent@ == encode_utf8(seq![c]),
        after == before,
{
    vstd::utf8::encode_utf8_valid_utf8(seq![c]);
    vstd::utf8::encode_utf8_decode_utf8(seq![c]);
}

/// Two different characters never send the same bytes.
pub proof fn law_characters_send_different_bytes(
    before: App,
    a: char,
    b: char,
    first: KeyEvent,
    second: KeyEvent,
    after_first: App,
    after_second: App,
    action_first: KeyAction,
    action_second: KeyAction,
)
    requires
        before.mode == Mode::Insert,
        first.code == KeyCode::Char(a) && !first.control,
        second.code == KeyCode::Char(b) && !second.control,
        key_handled(before, first, after_first, action_first),
        key_handled(before, second, after_second, action_second),
        action_first->Send_0@ == action_second->Send_0@,
    ensures
        a == b,
{
    law_characters_are_sent_as_they_are(before, first, after_first, action_first, a);
    law_characters_are_sent_as_they_are(before, second, after_second, action_second, b);
    assert(seq![a][0] == seq![b][0]);
}

/// Ctrl and a character send one byte, 96 below the character's code in lower case, of
/// which the lowest eight bits count.
pub proof fn law_control_characters(
    before: App,
    key: KeyEvent,
    after: App,
    action: KeyAction,
    c: char,
)
    requires
        before.mode == Mode::Insert,
        key_handled(before, key, after, action),
        key.code == KeyCode::Char(c),
        key.control,
    ensures
        action matches KeyAction::Send(sent) && sent@.len() == 1 && ('A' <= c <= 'Z' ==> sent@[0]
            == c as int - 64) && (!('A' <= c <= 'Z') ==> (sent@[0] + 96) % 256 == c as int % 256),
        after == before,
{
}

/// What the keys without a character send in Insert mode: carriage return, delete and
/// tab; `ESC [` and a letter for the cursor keys; `ESC [`, a number and `~` for the keys
/// around them and the function keys from the fifth on; `ESC O` and a letter for the
/// first four.
pub proof fn law_named_keys_send_their_sequences(
    before: App,
    key: KeyEvent,
    after: App,
    action: KeyAction,
)
    requires
        before.mode == Mode::Insert,
        key_handled(before, key, after, action),
        !(key.code is Char),
        key.code != KeyCode::Esc,
    ensures
        after == before,
        key.code == KeyCode::Enter ==> action.sends(seq![13]),
        key.code == KeyCode::Backspace ==> action.sends(seq![127]),
        key.code == KeyCode::Tab ==> action.sends(seq![9]),
        key.code == KeyCode::Up ==> action.sends(seq![27, 91, 65]),
        key.code == KeyCode::Down ==> action.sends(seq![27, 91, 66]),
        key.code == KeyCode::Right ==> action.sends(seq![27, 91, 67]),
        key.code == KeyCode::Left ==> action.sends(seq![27, 91, 68]),
        key.code == KeyCode::Home ==> action.sends(seq![27, 91, 72]),
        key.code == KeyCode::End ==> action.sends(seq![27, 91, 70]),
        key.code == KeyCode::Insert ==> action.sends(seq![27, 91, 50, 126]),
        key.code == KeyCode::Delete ==> action.sends(seq![27, 91, 51, 126]),
        key.code == KeyCode::PageUp ==> action.sends(seq![27, 91, 53, 126]),
        key.code == KeyCode::PageDown ==> action.sends(seq![27, 91, 54, 126]),
        key.code is F && 1 <= key.code->F_0 <= 4 ==> action.sends(
            seq![27, 79, (79 + key.code->F_0) as u8],
        ),
        key.code == KeyCode::F(5) ==> action.sends(seq![27, 91, 49, 53, 126]),
        key.code is F && 6 <= key.code->F_0 <= 8 ==> action.sends(
            seq![27, 91, 49, (49 + key.code->F_0) as u8, 126],
        ),
        key.code is F && 9 <= key.code->F_0 <= 10 ==> action.sends(
            seq![27, 91, 50, (39 + key.code->F_0) as u8, 126],
        ),
        key.code is F && 11 <= key.code->F_0 <= 12 ==> action.sends(
            seq![27, 91, 50, (40 + key.code->F_0) as u8, 126],
        ),
        key.code is F && (key.code->F_0 == 0 || key.code->F_0 > 12) ==> action is Nothing,
        key.code == KeyCode::Other ==> action is Nothing,
{
}

/// Esc leaves Insert mode for Normal mode, sends nothing and changes nothing else.
pub proof fn law_escape_leaves_insert_mode(
    before: App,
    key: KeyEvent,
    after: App,
    action: KeyAction,
)
    requires
        before.mode == Mode::Insert,
        key_handled(before, key, after, action),
    ensures
        after.mode == (if key.code == KeyCode::Esc {
            Mode::Normal
        } else {
            Mode::Insert
        }),
        key.code == KeyCode::Esc ==> action is Nothing,
        after == (App { mode: after.mode, ..before }),
{
}

/// The scrolling keys of Normal mode, in lines: `k` and Up one line up, `j` and Down one
/// down, Ctrl+U ten up, Ctrl+D ten down, as far as there are lines; `g` to the oldest
/// line and `G` to the bottom. They change the view of the focused pane and nothing else.
pub proof fn law_scrolling_keys(before: App, key: KeyEvent, after: App, action: KeyAction)
    requires
        before.wf(),
        before.mode == Mode::Normal,
        key_handled(before, key, after, action),
        key.code == KeyCode::Char('k') || key.code == KeyCode::Up || key.code == KeyCode::Char('j')
            || key.code == KeyCode::Down || key.code == KeyCode::Char('g') || key.code
            == KeyCode::Char('G') || key.control && (key.code == KeyCode::Char('u') || key.code
            == KeyCode::Char('d')),
    ensures
        ({
            let old = before.focused().scroll_offset as int;
            let new = after.focused().scroll_offset as int;
            let top = before.focused().scrollback_len as int;
            let up = if key.code == KeyCode::Char('u') {
                10int
            } else {
                1
            };
            let down = if key.code == KeyCode::Char('d') {
                10int
            } else {
                1
            };
            &&& key.code == KeyCode::Char('k') || key.code == KeyCode::Up || key.code
                == KeyCode::Char('u') ==> new == (if old + up <= top {
                old + up
            } else {
                top
            })
            &&& key.code == KeyCode::Char('j') || key.code == KeyCode::Down || key.code
                == KeyCode::Char('d') ==> new == (if old - down >= 0 {
                old - down
            } else {
                0
            })
            &&& key.code == KeyCode::Char('g') ==> new == top
            &&& key.code == KeyCode::Char('G') ==> new == 0
        }),
        action is Nothing,
        after == before.with_focused(after.focused()),
        after.focused().content() == before.focused().content(),
        after.focused().search == before.focused().search,
        after.focused().scrollback_len == before.focused().scrollback_len,
{
}

/// Ctrl+U and then Ctrl+D come back to the same view, where there are ten lines above it;
/// so do Ctrl+D and Ctrl+U where there are ten below.
pub proof fn law_pages_up_and_down(
    start: App,
    middle: App,
    end: App,
    first: KeyEvent,
    second: KeyEvent,
    action_first: KeyAction,
    action_second: KeyAction,
)
    requires
        start.wf() && middle.wf(),
        start.mode == Mode::Normal,
        key_handled(start, first, middle, action_first),
        key_handled(middle, second, end, action_second),
        first.control && second.control,
        ({
            ||| {
                &&& first.code == KeyCode::Char('u') && second.code == KeyCode::Char('d')
                &&& start.focused().scroll_offset + 10 <= start.focused().scrollback_len
            }
            ||| {
                &&& first.code == KeyCode::Char('d') && second.code == KeyCode::Char('u')
                &&& 10 <= start.focused().scroll_offset <= start.focused().scrollback_len
            }
        }),
    ensures
        first.code == KeyCode::Char('u') ==> middle.focused().scroll_offset
            == start.focused().scroll_offset + 10,
        first.code == KeyCode::Char('d') ==> middle.focused().scroll_offset
            == start.focused().scroll_offset - 10,
        end == start,
{
    let t = start.focused();
    assert(crate::emulator::emulator_scrolled(t.parser, t.scroll_offset) == t.parser);
}

/// `i` enters Insert mode in the application's pane while connected; else it tells that
/// it cannot and changes nothing.
pub proof fn law_insert_key(before: App, key: KeyEvent, after: App, action: KeyAction)
    requires
        before.mode == Mode::Normal,
        key_handled(before, key, after, action),
        key.code == KeyCode::Char('i'),
    ensures
        action is Nothing,
        before.connection is Connected ==> after.mode == Mode::Insert && after.focus == Focus::App
            && after.message == before.message,
        before.connection is Disconnected ==> after.mode == Mode::Normal && after.focus
            == before.focus && (after.message matches Some(m) && m.level == MessageLevel::Error
            && m.text@ == "Cannot enter Insert mode: not connected"@),
        after == (App {
            mode: after.mode,
            focus: after.focus,
            message: after.message,
            ..before
        }),
{
}

/// `s` changes between the panes one above the other and side by side, tells which it
/// is, and asks for the sizes to follow.
pub proof fn law_layout_key(before: App, key: KeyEvent, after: App, action: KeyAction)
    requires
        before.mode == Mode::Normal,
        key_handled(before, key, after, action),
        key.code == KeyCode::Char('s'),
    ensures
        action is LayoutChanged,
        after.layout != before.layout,
        after.message matches Some(m) && m.level == MessageLevel::Info && (after.layout
            == Layout::Horizontal ==> m.text@ == "Layout: "@ + "horizontal"@) && (after.layout
            == Layout::Vertical ==> m.text@ == "Layout: "@ + "vertical"@),
        after == (App { layout: after.layout, message: after.message, ..before }),
{
}

/// Ctrl+R asks to reconnect. `r` alone sends a command that names the rows and the
/// columns of the application's pane, in decimal.
pub proof fn law_resize_key(before: App, key: KeyEvent, after: App, action: KeyAction)
    requires
        before.mode == Mode::Normal,
        key_handled(before, key, after, action),
        key.code == KeyCode::Char('r'),
    ensures
        after == before,
        key.control ==> action is Reconnect,
        !key.control ==> exists|rows: Seq<char>, cols: Seq<char>|
            action.sends(
                encode_utf8(#[trigger] ("stty rows "@ + rows + " cols "@ + cols + "\n"@)),
            ) && read_decimal(rows) == before.app_terminal.dimensions().0 && read_decimal(cols)
                == before.app_terminal.dimensions().1 && (rows[0] != '0' || rows == seq!['0']) && (
            cols[0] != '0' || cols == seq!['0']) && (forall|i: int|
                0 <= i < rows.len() ==> '0' <= #[trigger] rows[i] <= '9') && (forall|i: int|
                0 <= i < cols.len() ==> '0' <= #[trigger] cols[i] <= '9'),
{
    if !key.control {
        let (r, c) = before.app_terminal.dimensions();
        let rows = decimal(r as nat);
        let cols = decimal(c as nat);
        law_decimal_reads_back(r as nat);
        law_decimal_reads_back(c as nat);
        assert(action.sends(
            encode_utf8("stty rows "@ + rows + " cols "@ + cols + "\n"@),
        ));
    }
}

/// Tab and `w` give the focus to the other pane and change nothing else.
pub proof fn law_focus_keys(before: App, key: KeyEvent, after: App, action: KeyAction)
    requires
        before.mode == Mode::Normal,
        key_handled(before, key, after, action),
        key.code == KeyCode::Tab || key.code == KeyCode::Char('w'),
    ensures
        action is Nothing,
        before.focus == Focus::App ==> after.focus == Focus::Kernel,
        before.focus == Focus::Kernel ==> after.focus == Focus::App,
        after == (App { focus: after.focus, ..before }),
{
}

/// `c` clears the focused pane and tells which one it was.
pub proof fn law_clear_key(before: App, key: KeyEvent, after: App, action: KeyAction)
    requires
        before.wf(),
        before.mode == Mode::Normal,
        key_handled(before, key, after, action),
        key.code == KeyCode::Char('c'),
    ensures
        action is Nothing,
        before.focused().cleared(&after.focused()),
        after.focused().scrollback_len == 0 && after.focused().scroll_offset == 0,
        after.focused().search == before.focused().search,
        after.message matches Some(m) && m.level == MessageLevel::Info && (before.focus
            == Focus::App ==> m.text@ == "Cleared "@ + "App"@ + " pane"@) && (before.focus
            == Focus::Kernel ==> m.text@ == "Cleared "@ + "Kernel"@ + " pane"@),
        after == (App { message: after.message, ..before.with_focused(after.focused()) }),
{
}

/// `/` begins a forward search of the focused pane and `?` a backward one, with an empty
/// pattern and no matches; the view stays until something is typed.
pub proof fn law_search_keys(before: App, key: KeyEvent, after: App, action: KeyAction)
    requires
        before.mode == Mode::Normal,
        key_handled(before, key, after, action),
        key.code == KeyCode::Char('/') || key.code == KeyCode::Char('?'),
    ensures
        action is Nothing,
        after.mode == Mode::Search,
        key.code == KeyCode::Char('/') ==> after.focused().search.direction
            == SearchDirection::Forward,
        key.code == KeyCode::Char('?') ==> after.focused().search.direction
            == SearchDirection::Backward,
        after.focused().search.pattern@.len() == 0,
        after.focused().search.regex is None && !after.focused().search.error,
        after.focused().search.matches@.len() == 0,
        after.focused() == (Terminal { search: after.focused().search, ..before.focused() }),
        after == (App { mode: after.mode, ..before.with_focused(after.focused()) }),
{
}

/// `n` goes to the next match in the search's direction and `N` to the one before it;
/// in Search mode Ctrl+N and Ctrl+P do the same. Nothing but the focused pane changes.
pub proof fn law_match_keys(before: App, key: KeyEvent, after: App, action: KeyAction)
    requires
        before.wf(),
        key_handled(before, key, after, action),
        ({
            ||| before.mode == Mode::Normal && (key.code == KeyCode::Char('n') || key.code
                == KeyCode::Char('N'))
            ||| before.mode == Mode::Search && key.control && (key.code == KeyCode::Char('n')
                || key.code == KeyCode::Char('p'))
        }),
    ensures
        action is Nothing,
        ({
            let s = before.focused().search;
            let len = s.matches@.len() as int;
            let i = s.current_match as int;
            let j = after.focused().search.current_match as int;
            let newer = (key.code == KeyCode::Char('n')) == (s.direction
                == SearchDirection::Forward);
            &&& len == 0 ==> after == before
            &&& len > 0 && newer ==> j == (if i + 1 < len {
                i + 1
            } else {
                0
            })
            &&& len > 0 && !newer ==> j == (if i > 0 {
                i - 1
            } else {
                len - 1
            })
            &&& after.focused().search.matches == s.matches
            &&& after.focused().search.pattern == s.pattern
            &&& after.focused().search.direction == s.direction
        }),
        after == before.with_focused(after.focused()),
{
    let along = key.code == KeyCode::Char('n');
    law_moves_go_by_one(before.focused().search, after.focused().search, along);
    law_moves_show_the_match(before.focused(), after.focused(), along);
}

/// Esc in Normal mode ends the search of the focused pane and leaves its view; in Search
/// mode it leaves that mode too. The direction stays for the next search.
pub proof fn law_escape_ends_the_search(before: App, key: KeyEvent, after: App, action: KeyAction)
    requires
        before.mode != Mode::Insert,
        key_handled(before, key, after, action),
        key.code == KeyCode::Esc,
    ensures
        action is Nothing,
        after.mode == Mode::Normal,
        after.focused().search.pattern@.len() == 0,
        after.focused().search.regex is None && !after.focused().search.error,
        after.focused().search.matches@.len() == 0,
        after.focused().search.direction == before.focused().search.direction,
        after.focused() == (Terminal { search: after.focused().search, ..before.focused() }),
        after == (App { mode: Mode::Normal, ..before.with_focused(after.focused()) }),
{
}

/// A key without a meaning in Normal mode does nothing, and neither do `u` and `d`
/// without Ctrl.
pub proof fn law_other_keys_do_nothing(before: App, key: KeyEvent, after: App, action: KeyAction)
    requires
        before.mode == Mode::Normal,
        key_handled(before, key, after, action),
        key.code != KeyCode::Tab && key.code != KeyCode::Up && key.code != KeyCode::Down,
        key.code != KeyCode::Esc,
        key.code matches KeyCode::Char(c) ==> !"iqsrwjkgGc/?nN"@.contains(c) && (c == 'u' || c
            == 'd' ==> !key.control),
    ensures
        action is Nothing,
        after == before,
{
    reveal_strlit("iqsrwjkgGc/?nN");
    let names = "iqsrwjkgGc/?nN"@;
    assert(names[0] == 'i' && names[1] == 'q' && names[2] == 's' && names[3] == 'r');
    assert(names[4] == 'w' && names[5] == 'j' && names[6] == 'k' && names[7] == 'g');
    assert(names[8] == 'G' && names[9] == 'c' && names[10] == '/' && names[11] == '?');
    assert(names[12] == 'n' && names[13] == 'N');
}

/// What is typed in Search mode makes up the pattern: a character is added at its end,
/// Backspace takes the last one away and Ctrl+U all of them. Each asks for a new search,
/// of the pattern as it then is; mode, direction and view stay.
pub proof fn law_typing_a_pattern(before: App, key: KeyEvent, after: App, action: KeyAction)
    requires
        before.mode == Mode::Search,
        key_handled(before, key, after, action),
        key.code == KeyCode::Backspace || key.code is Char && !(key.control && (key.code
            == KeyCode::Char('n') || key.code == KeyCode::Char('p'))),
    ensures
        action is SearchChanged,
        ({
            let old = before.focused().search.pattern@;
            let search = after.focused().search;
            let new = search.pattern@;
            &&& key.code == KeyCode::Backspace && old.len() > 0 ==> exists|c: char|
                old == #[trigger] new.push(c)
            &&& key.code == KeyCode::Backspace && old.len() == 0 ==> new.len() == 0
            &&& key.code == KeyCode::Char('u') && key.control ==> new.len() == 0
            &&& key.code is Char && !(key.code == KeyCode::Char('u') && key.control) ==> new == old
                + seq![key.code->Char_0]
            &&& new.len() == 0 ==> search.regex is None && !search.error
            &&& new.len() > 0 ==> search.regex == insensitive_regex(new) && search.error == (
            insensitive_regex(new) is None)
            &&& search.direction == before.focused().search.direction
            &&& search.matches@.len() == 0
        }),
        after.focused() == (Terminal { search: after.focused().search, ..before.focused() }),
        after == before.with_focused(after.focused()),
{
    let old = before.focused().search.pattern@;
    let new = after.focused().search.pattern@;
    if key.code == KeyCode::Backspace && old.len() > 0 {
        assert(old =~= new.push(old.last()));
    }
    if let KeyCode::Char(c) = key.code {
        assert(old.push(c) =~= old + seq![c]);
    }
}

/// Enter keeps the matches and goes back to Normal mode; it tells if a pattern was typed
/// and found nowhere.
pub proof fn law_enter_keeps_the_matches(before: App, key: KeyEvent, after: App, action: KeyAction)
    requires
        before.mode == Mode::Search,
        key_handled(before, key, after, action),
        key.code == KeyCode::Enter,
    ensures
        action is Nothing,
        after == (App { mode: Mode::Normal, message: after.message, ..before }),
        ({
            let s = before.focused().search;
            if s.pattern@.len() > 0 && s.matches@.len() == 0 {
                after.message matches Some(m) && m.text@ == "No matches found"@ && m.level
                    == MessageLevel::Info
            } else {
                after.message == before.message
            }
        }),
{
}

/// Any other key in Search mode does nothing.
pub proof fn law_other_keys_leave_the_search(
    before: App,
    key: KeyEvent,
    after: App,
    action: KeyAction,
)
    requires
        before.mode == Mode::Search,
        key_handled(before, key, after, action),
        !(key.code is Char) && key.code != KeyCode::Backspace && key.code != KeyCode::Enter
            && key.code != KeyCode::Esc,
    ensures
        action is Nothing,
        after == before,
{
}

/// A press of the left button focuses the pane whose rows and columns it is in, and one
/// elsewhere, or anything else that the mouse does, focuses none.
pub proof fn law_clicks_focus_their_pane(
    focus: Focus,
    mouse: MouseEvent,
    kernel_area: Rect,
    app_area: Rect,
)
    requires
        kernel_area.fits() && app_area.fits(),
    ensures
        ({
            let (x, y) = (mouse.column as int, mouse.row as int);
            let k = kernel_area;
            let a = app_area;
            let in_kernel = k.x <= x < k.x + k.width && k.y <= y < k.y + k.height;
            let in_app = a.x <= x < a.x + a.width && a.y <= y < a.y + a.height;
            let left = mouse.kind == MouseEventKind::Down(MouseButton::Left);
            let new = clicked_pane(focus, mouse, kernel_area, app_area);
            &&& left && in_kernel ==> new == Focus::Kernel
            &&& left && in_app && !in_kernel ==> new == Focus::App
            &&& !left || !in_kernel && !in_app ==> new == focus
        }),
{
}

/// Pasted text is sent as it is in Insert mode: what is sent decodes to that text. In
/// another mode nothing is sent, and nothing but the message changes.
pub proof fn law_pasted_text_is_sent_as_it_is(
    before: App,
    text: Seq<char>,
    after: App,
    action: KeyAction,
)
    requires
        pasted(before, text, after, action),
    ensures
        before.mode == Mode::Insert ==> after == before && (action matches KeyAction::Send(sent)
            && vstd::utf8::decode_utf8(sent@) == text && sent@ == encode_utf8(text)),
        before.mode != Mode::Insert ==> action is Nothing && (after.message matches Some(m)
            && m.text@ == "Paste ignored (not in Insert mode)"@ && m.level == MessageLevel::Info),
        after == (App { message: after.message, ..before }),
{
    vstd::utf8::encode_utf8_decode_utf8(text);
}

} // verus!
