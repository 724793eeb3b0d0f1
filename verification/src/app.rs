//! Application state.

use vstd::prelude::*;
use vstd::string::*;

use crate::terminal::Terminal;
use crate::text::join;

verus! {

/// Default scrollback lines for terminals.
pub const SCROLLBACK_LINES: usize = 10_000;

/// Input mode (vim-style).
#[derive(Debug, Clone, Copy, PartialEq, Eq, Structural)]
pub enum Mode {
    /// Keys go to serial (except Esc).
    Insert,
    /// Keys are commands (navigation, quit, etc.).
    Normal,
    /// Keys edit the search pattern of the focused pane.
    Search,
}

impl Default for Mode {
    fn default() -> (m: Self)
        ensures
            m == Mode::Normal,
    {
        Mode::Normal
    }
}

/// Serial connection state.
#[derive(Debug, Clone, PartialEq, Eq)]
pub enum ConnectionState {
    Connected,
    Disconnected { error: String },
}

impl Default for ConnectionState {
    fn default() -> (c: Self)
        ensures
            c is Connected,
    {
        ConnectionState::Connected
    }
}

impl ConnectionState {
    /// Whether the serial port is connected.
    pub fn is_connected(&self) -> (r: bool)
        ensures
            r == (self is Connected),
    {
        matches!(self, ConnectionState::Connected)
    }
}

/// Which pane currently has focus.
#[derive(Debug, Clone, Copy, PartialEq, Eq, Structural)]
pub enum Focus {
    /// App output pane (input goes here)
    App,
    /// Kernel message pane (for scrolling)
    Kernel,
}

impl Default for Focus {
    fn default() -> (f: Self)
        ensures
            f == Focus::App,
    {
        Focus::App
    }
}

/// Layout direction for the two panes.
#[derive(Debug, Clone, Copy, PartialEq, Eq, Structural)]
pub enum Layout {
    /// Top-bottom
    Horizontal,
    /// Side-by-side
    Vertical,
}

impl Default for Layout {
    fn default() -> (l: Self)
        ensures
            l == Layout::Horizontal,
    {
        Layout::Horizontal
    }
}

impl Layout {
    /// The other layout.
    pub open spec fn toggled(self) -> Layout {
        match self {
            Layout::Vertical => Layout::Horizontal,
            Layout::Horizontal => Layout::Vertical,
        }
    }

    /// Switch to the other layout.
    pub fn toggle(self) -> (l: Self)
        ensures
            l == self.toggled(),
    {
        match self {
            Layout::Vertical => Layout::Horizontal,
            Layout::Horizontal => Layout::Vertical,
        }
    }
}

/// Toggling changes the layout, and toggling again restores it.
pub proof fn law_toggle_twice(l: Layout)
    ensures
        l.toggled() != l,
        l.toggled().toggled() == l,
{
}

/// Application state.
pub struct App {
    /// Terminal emulator for app pane (kernel messages filtered out).
    pub app_terminal: Terminal,
    /// Terminal for kernel messages only.
    pub kernel_terminal: Terminal,
    /// Current input mode.
    pub mode: Mode,
    /// Which pane has focus.
    pub focus: Focus,
    /// Current layout (vertical or horizontal split).
    pub layout: Layout,
    /// Whether the app should quit.
    pub should_quit: bool,
    /// Serial connection state.
    pub connection: ConnectionState,
    /// Transient message to display in the message bar.
    pub message: Option<Message>,
}

/// A transient message to display in the UI.
#[derive(Debug, Clone)]
pub struct Message {
    pub text: String,
    pub level: MessageLevel,
}

/// Message severity level.
#[derive(Debug, Clone, Copy, PartialEq, Eq, Structural)]
pub enum MessageLevel {
    Info,
    Error,
}

impl App {
    /// Both panes are searchable terminals.
    pub open spec fn wf(&self) -> bool {
        self.app_terminal.searchable() && self.kernel_terminal.searchable()
    }

    /// The focused pane's terminal.
    pub open spec fn focused(&self) -> Terminal {
        match self.focus {
            Focus::App => self.app_terminal,
            Focus::Kernel => self.kernel_terminal,
        }
    }

    /// The state with another terminal in the focused pane.
    pub open spec fn with_focused(self, t: Terminal) -> App {
        match self.focus {
            Focus::App => App { app_terminal: t, ..self },
            Focus::Kernel => App { kernel_terminal: t, ..self },
        }
    }

    /// Whether a message of some text and level is shown.
    pub open spec fn shows(&self, text: Seq<char>, level: MessageLevel) -> bool {
        self.message matches Some(m) && m.text@ == text && m.level == level
    }

    /// New state: Normal mode, connected, the app pane focused, one pane above the
    /// other, blank terminals.
    pub fn new(rows: u16, cols: u16) -> (app: Self)
        requires
            rows >= 1,
        ensures
            app.wf(),
            app.app_terminal.is_new(rows, cols, SCROLLBACK_LINES),
            app.kernel_terminal.is_new(rows, cols, SCROLLBACK_LINES),
            app.mode == Mode::Normal,
            app.focus == Focus::App,
            app.layout == Layout::Horizontal,
            !app.should_quit,
            app.connection is Connected,
            app.message is None,
    {
        App {
            app_terminal: Terminal::new(rows, cols, SCROLLBACK_LINES),
            kernel_terminal: Terminal::new(rows, cols, SCROLLBACK_LINES),
            mode: Mode::default(),
            focus: Focus::App,
            layout: Layout::default(),
            should_quit: false,
            connection: ConnectionState::default(),
            message: None,
        }
    }

    /// The state after the connection has broken: the error is kept and shown, and
    /// the mode is Normal.
    pub open spec fn disconnected(&self, after: &App, error: Seq<char>) -> bool {
        &&& after.shows("Serial disconnected: "@ + error, MessageLevel::Error)
        &&& after.connection matches ConnectionState::Disconnected { error: e } && e@ == error
        &&& *after == (App {
            message: after.message,
            connection: after.connection,
            mode: Mode::Normal,
            ..*self
        })
    }

    /// Mark connection as disconnected with an error message.
    pub fn set_disconnected(&mut self, error: &str)
        ensures
            old(self).disconnected(final(self), error@),
    {
        let text = join("Serial disconnected: ", error);
        self.show_error(text.as_str());
        self.connection = ConnectionState::Disconnected { error: error.to_owned() };
        // Switch to Normal mode so user can press Ctrl+R to reconnect
        self.mode = Mode::Normal;
    }

    /// Mark connection as connected.
    pub fn set_connected(&mut self)
        ensures
            final(self).shows("Serial reconnected"@, MessageLevel::Info),
            *final(self) == (App {
                message: final(self).message,
                connection: ConnectionState::Connected,
                ..*old(self)
            }),
    {
        self.connection = ConnectionState::Connected;
        self.show_info("Serial reconnected");
    }

    /// Show an info message.
    pub fn show_info(&mut self, text: &str)
        ensures
            final(self).shows(text@, MessageLevel::Info),
            *final(self) == (App { message: final(self).message, ..*old(self) }),
    {
        self.message = Some(Message { text: text.to_owned(), level: MessageLevel::Info });
    }

    /// Show an error message.
    pub fn show_error(&mut self, text: &str)
        ensures
            final(self).shows(text@, MessageLevel::Error),
            *final(self) == (App { message: final(self).message, ..*old(self) }),
    {
        self.message = Some(Message { text: text.to_owned(), level: MessageLevel::Error });
    }

    /// Clear the current message.
    pub fn clear_message(&mut self)
        ensures
            *final(self) == (App { message: None, ..*old(self) }),
    {
        self.message = None;
    }

    /// The state after both panes have changed their size.
    pub open spec fn resized(&self, after: &App, rows: u16, cols: u16) -> bool {
        &&& self.app_terminal.resized(&after.app_terminal, rows, cols)
        &&& self.kernel_terminal.resized(&after.kernel_terminal, rows, cols)
        &&& *after == (App {
            app_terminal: after.app_terminal,
            kernel_terminal: after.kernel_terminal,
            ..*self
        })
    }

    /// Resize both terminal panes.
    pub fn resize(&mut self, rows: u16, cols: u16)
        requires
            old(self).wf(),
            rows >= 1,
            cols >= 1,
        ensures
            final(self).wf(),
            old(self).resized(final(self), rows, cols),
    {
        self.app_terminal.set_size(rows, cols);
        self.kernel_terminal.set_size(rows, cols);
    }

    /// Get mutable reference to the focused terminal.
    pub fn focused_terminal_mut(&mut self) -> (t: &mut Terminal)
        ensures
            *t == old(self).focused(),
            *final(self) == old(self).with_focused(*final(t)),
    {
        match self.focus {
            Focus::App => &mut self.app_terminal,
            Focus::Kernel => &mut self.kernel_terminal,
        }
    }
}

impl Default for App {
    fn default() -> (app: Self)
        ensures
            app.wf(),
            app.app_terminal.is_new(24, 80, SCROLLBACK_LINES),
            app.kernel_terminal.is_new(24, 80, SCROLLBACK_LINES),
            app.mode == Mode::Normal,
            app.focus == Focus::App,
            app.layout == Layout::Horizontal,
            !app.should_quit,
            app.connection is Connected,
            app.message is None,
    {
        Self::new(24, 80)
    }
}

/// A pane keeps ten thousand lines of scrollback.
pub proof fn law_panes_keep_ten_thousand_lines(app: App, rows: u16, cols: u16)
    requires
        app.app_terminal.is_new(rows, cols, SCROLLBACK_LINES),
        app.kernel_terminal.is_new(rows, cols, SCROLLBACK_LINES),
    ensures
        app.app_terminal.capacity == 10000 && app.kernel_terminal.capacity == 10000,
        app.app_terminal.dimensions() == (rows, cols),
        app.kernel_terminal.dimensions() == (rows, cols),
{
}

/// The focused pane is the one that has the focus, and putting a terminal into it leaves
/// the other as it was.
pub proof fn law_the_focused_pane(app: App, t: Terminal)
    ensures
        app.focus == Focus::App ==> app.focused() == app.app_terminal,
        app.focus == Focus::Kernel ==> app.focused() == app.kernel_terminal,
        app.with_focused(t).focused() == t,
        app.focus == Focus::App ==> app.with_focused(t) == (App { app_terminal: t, ..app }),
        app.focus == Focus::Kernel ==> app.with_focused(t) == (App { kernel_terminal: t, ..app }),
{
}

/// Both panes get a new size, and nothing else changes.
pub proof fn law_both_panes_are_resized(before: App, after: App, rows: u16, cols: u16)
    requires
        before.resized(&after, rows, cols),
    ensures
        after.app_terminal.dimensions() == (rows, cols),
        after.kernel_terminal.dimensions() == (rows, cols),
        after.app_terminal.search == before.app_terminal.search,
        after.kernel_terminal.search == before.kernel_terminal.search,
        after == (App {
            app_terminal: after.app_terminal,
            kernel_terminal: after.kernel_terminal,
            ..before
        }),
{
}

/// A lost connection is told with its error, and leaves Normal mode, in which it can be
/// asked for again; the panes stay.
pub proof fn law_disconnecting(before: App, after: App, error: Seq<char>)
    requires
        before.disconnected(&after, error),
    ensures
        after.mode == Mode::Normal,
        after.connection matches ConnectionState::Disconnected { error: kept } && kept@ == error,
        after.message matches Some(m) && m.text@ == "Serial disconnected: "@ + error && m.level
            == MessageLevel::Error,
        after.app_terminal == before.app_terminal,
        after.kernel_terminal == before.kernel_terminal,
        after.focus == before.focus && after.layout == before.layout,
        after.should_quit == before.should_quit,
{
}

} // verus!
