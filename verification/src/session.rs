//! One connection from start to end: what each event does to the application, and
//! what is to be done about it.

use vstd::prelude::*;
use vstd::string::*;
use vstd::utf8::encode_utf8;

use crate::app::{App, ConnectionState, Focus, Layout, MessageLevel, Mode};
use crate::area::Rect;
use crate::emulator::{emulator_fed, same_but_viewport};
use crate::input::{
    bytes_of_key, clicked_pane, handle_key, handle_mouse, handle_paste, key_handled, told,
    KeyAction, KeyCode, KeyEvent, MouseButton, MouseEvent, MouseEventKind,
};
use crate::pattern::insensitive_regex;
use crate::serial::SerialKey;
use crate::terminal::all_matches;
use crate::text::join;
use crate::tui::{Event, TerminalEvent};
use crate::ui::{inner_size, pane_inner_size, ui_layout, UiLayout};

verus! {

/// What is to be done after an event.
#[derive(Debug)]
pub enum SessionAction {
    /// Draw the interface.
    Draw,
    /// Cancel the "no response" deadline, since something came, and draw.
    Received,
    /// Send the key to the port. If that fails, report it with `disconnect`, else set
    /// the "no response" deadline. Then draw.
    Send(SerialKey),
    /// Connect again and report with `reconnected` or `reconnect_failed`. Then draw.
    Reconnect,
    /// End the session.
    Quit,
    /// End the session with an error of this kind.
    Fail(std::io::ErrorKind),
}

/// The state of a session.
pub struct Session {
    pub app: App,
    /// The size of the screen, for layout changes.
    pub frame_size: Rect,
    /// Whether there is a port to write to.
    pub has_writer: bool,
}

/// The text of an error, as `std::io::Error` displays it. Nothing is claimed of it:
/// the system words it.
#[verifier::external_body]
fn error_text(e: &std::io::Error) -> (text: String) {
    format!("{}", e)
}

/// A screen of some size.
pub open spec fn screen(width: u16, height: u16) -> Rect {
    Rect { x: 0, y: 0, width, height }
}

/// Whether a layout leaves room for a terminal on a screen.
pub open spec fn room(size: Rect, layout: Layout) -> bool {
    inner_size(size, layout).0 >= 1 && inner_size(size, layout).1 >= 1
}

/// Whether a layout leaves room for a terminal on a screen.
pub fn has_room(width: u16, height: u16, layout: Layout) -> (r: bool)
    ensures
        r == room(screen(width, height), layout),
{
    let (rows, cols) = pane_inner_size(Rect { x: 0, y: 0, width, height }, layout);
    rows >= 1 && cols >= 1
}

impl Session {
    /// The panes are sound, there is a port to write to exactly while connected, and
    /// Insert mode is for a connected port only.
    pub open spec fn wf(&self) -> bool {
        &&& self.app.wf()
        &&& self.has_writer == (self.app.connection is Connected)
        &&& self.app.mode == Mode::Insert ==> self.app.connection is Connected
        &&& self.frame_size.x == 0 && self.frame_size.y == 0
    }

    /// Whether there is room for the panes after an event.
    pub open spec fn room_after(&self, event: Event) -> bool {
        match event {
            Event::Terminal(TerminalEvent::Resize(width, height)) => room(
                screen(width, height),
                self.app.layout,
            ),
            Event::Terminal(TerminalEvent::Key(key)) => self.app.mode == Mode::Normal && key.code
                == KeyCode::Char('s') ==> room(self.frame_size, self.app.layout.toggled()),
            _ => true,
        }
    }

    /// Whether the terminal that an event is for takes its data.
    pub open spec fn takes_data(&self, event: Event) -> bool {
        match event {
            Event::AppData(data) => self.app.app_terminal.accepts(data@),
            Event::KernelData(data) => self.app.kernel_terminal.accepts(data@),
            _ => true,
        }
    }

    /// What follows from the action that a key asked for, when it has left the
    /// application as `mid`: bytes are sent if there is a port, a new layout gives the
    /// panes new sizes, a new pattern is searched for.
    pub open spec fn followed_up(
        &self,
        mid: App,
        asked: KeyAction,
        after: Session,
        action: SessionAction,
    ) -> bool {
        let unchanged = after == (Session { app: mid, ..*self });
        match asked {
            KeyAction::Send(key) => {
                &&& unchanged
                &&& action == (if self.has_writer {
                    SessionAction::Send(key)
                } else {
                    SessionAction::Draw
                })
            },
            KeyAction::Quit => unchanged && action is Quit,
            KeyAction::Reconnect => unchanged && action is Reconnect,
            KeyAction::Nothing => unchanged && action is Draw,
            KeyAction::LayoutChanged => {
                let (rows, cols) = inner_size(self.frame_size, mid.layout);
                &&& action is Draw
                &&& after == (Session { app: after.app, ..*self })
                &&& mid.resized(&after.app, rows, cols)
            },
            KeyAction::SearchChanged => {
                &&& action is Draw
                &&& after == (Session { app: after.app, ..*self })
                &&& after.app == mid.with_focused(after.app.focused())
                &&& mid.focused().searched(&after.app.focused())
            },
        }
    }

    /// What an event does.
    pub open spec fn handled(&self, event: Event, after: Session, action: SessionAction) -> bool {
        let before = self.app;
        match event {
            Event::Init | Event::NoResponseTimeout => after == *self && action is Draw,
            Event::AppData(data) => {
                &&& action is Received
                &&& before.app_terminal.fed(&after.app.app_terminal, data@)
                &&& after == (Session {
                    app: App { app_terminal: after.app.app_terminal, ..before },
                    ..*self
                })
            },
            Event::KernelData(data) => {
                &&& action is Received
                &&& before.kernel_terminal.fed(&after.app.kernel_terminal, data@)
                &&& after == (Session {
                    app: App { kernel_terminal: after.app.kernel_terminal, ..before },
                    ..*self
                })
            },
            Event::SerialError(_) => {
                &&& action is Draw
                &&& after.app.connection matches ConnectionState::Disconnected { error }
                &&& before.disconnected(&after.app, error@)
                &&& after == (Session { app: after.app, has_writer: false, ..*self })
            },
            Event::Terminal(TerminalEvent::Key(key)) => exists|mid: App, asked: KeyAction|
                #[trigger] key_handled(App { message: None, ..before }, key, mid, asked)
                    && self.followed_up(mid, asked, after, action),
            Event::Terminal(TerminalEvent::Resize(width, height)) => {
                let (rows, cols) = inner_size(screen(width, height), before.layout);
                &&& action is Draw
                &&& before.resized(&after.app, rows, cols)
                &&& after == (Session {
                    app: after.app,
                    frame_size: screen(width, height),
                    ..*self
                })
            },
            Event::Terminal(TerminalEvent::Paste(text)) => {
                if before.mode == Mode::Insert {
                    &&& after == *self
                    &&& if self.has_writer {
                        action matches SessionAction::Send(key) && key@ == encode_utf8(text@)
                    } else {
                        action is Draw
                    }
                } else {
                    &&& action is Draw
                    &&& told(
                        before,
                        after.app,
                        "Paste ignored (not in Insert mode)"@,
                        MessageLevel::Info,
                    )
                    &&& after == (Session { app: after.app, ..*self })
                }
            },
            Event::Terminal(TerminalEvent::Mouse(mouse)) => {
                let l = ui_layout(self.frame_size, before.layout);
                let focus = clicked_pane(before.focus, mouse, l.kernel, l.app);
                action is Draw && after == (Session { app: App { focus, ..before }, ..*self })
            },
            Event::Terminal(TerminalEvent::FocusGained) | Event::Terminal(
                TerminalEvent::FocusLost,
            ) => after == *self && action is Draw,
            Event::Terminal(TerminalEvent::Error(kind)) => after == *self && action
                == SessionAction::Fail(kind),
        }
    }

    /// A session on a screen of some size, with a port that is open.
    pub fn new(width: u16, height: u16) -> (s: Self)
        requires
            inner_size(screen(width, height), Layout::Horizontal).0 >= 1,
        ensures
            s.wf(),
            s.frame_size == screen(width, height),
            s.app.mode == Mode::Normal,
            s.app.focus == Focus::App,
            s.app.layout == Layout::Horizontal,
            !s.app.should_quit,
            s.app.connection is Connected,
            s.app.message is None,
            ({
                let (rows, cols) = inner_size(screen(width, height), Layout::Horizontal);
                &&& s.app.app_terminal.is_new(rows, cols, crate::app::SCROLLBACK_LINES)
                &&& s.app.kernel_terminal.is_new(rows, cols, crate::app::SCROLLBACK_LINES)
            }),
    {
        let frame_size = Rect { x: 0, y: 0, width, height };
        // Initialize app with terminal size (accounting for UI chrome)
        let (rows, cols) = pane_inner_size(frame_size, Layout::default());
        Session { app: App::new(rows, cols), frame_size, has_writer: true }
    }

    /// Whether there is room for the panes after an event.
    pub fn has_room_after(&self, event: &Event) -> (r: bool)
        requires
            self.wf(),
        ensures
            r == self.room_after(*event),
    {
        match event {
            Event::Terminal(TerminalEvent::Resize(width, height)) => has_room(
                *width,
                *height,
                self.app.layout,
            ),
            Event::Terminal(TerminalEvent::Key(key)) => {
                if self.app.mode == Mode::Normal && key.code == KeyCode::Char('s') {
                    has_room(
                        self.frame_size.width,
                        self.frame_size.height,
                        self.app.layout.toggle(),
                    )
                } else {
                    true
                }
            },
            _ => true,
        }
    }

    /// Handles an event.
    pub fn handle_event(&mut self, event: Event) -> (action: SessionAction)
        requires
            old(self).wf(),
            old(self).room_after(event),
            old(self).takes_data(event),
        ensures
            final(self).wf(),
            old(self).handled(event, *final(self), action),
    {
        match event {
            Event::Init | Event::NoResponseTimeout => SessionAction::Draw,
            Event::AppData(data) => {
                self.app.app_terminal.process(data.as_slice());
                SessionAction::Received
            },
            Event::KernelData(data) => {
                self.app.kernel_terminal.process(data.as_slice());
                SessionAction::Received
            },
            Event::SerialError(e) => {
                let text = error_text(&e);
                self.disconnect(text.as_str());
                SessionAction::Draw
            },
            Event::Terminal(term_event) => match term_event {
                TerminalEvent::Key(key) => self.handle_key_event(key),
                TerminalEvent::Resize(width, height) => {
                    self.frame_size = Rect { x: 0, y: 0, width, height };
                    let (rows, cols) = pane_inner_size(self.frame_size, self.app.layout);
                    self.app.resize(rows, cols);
                    SessionAction::Draw
                },
                TerminalEvent::Paste(text) => {
                    match handle_paste(&mut self.app, text.as_str()) {
                        KeyAction::Send(bytes) => self.send(bytes),
                        _ => SessionAction::Draw,
                    }
                },
                TerminalEvent::Mouse(mouse) => {
                    let layout = UiLayout::compute(self.frame_size, self.app.layout);
                    let _ = handle_mouse(&mut self.app, mouse, layout.pane_areas());
                    SessionAction::Draw
                },
                TerminalEvent::FocusGained | TerminalEvent::FocusLost => SessionAction::Draw,
                TerminalEvent::Error(kind) => SessionAction::Fail(kind),
            },
        }
    }

    /// Handles a key.
    fn handle_key_event(&mut self, key: KeyEvent) -> (action: SessionAction)
        requires
            old(self).wf(),
            old(self).room_after(Event::Terminal(TerminalEvent::Key(key))),
        ensures
            final(self).wf(),
            old(self).handled(Event::Terminal(TerminalEvent::Key(key)), *final(self), action),
    {
        // Clear any transient message on key press
        self.app.clear_message();
        let ghost before = self.app;
        let asked = handle_key(&mut self.app, key);
        let ghost mid = self.app;
        assert(key_handled(before, key, mid, asked));
        match asked {
            KeyAction::Send(bytes) => self.send(bytes),
            KeyAction::Quit => SessionAction::Quit,
            KeyAction::LayoutChanged => {
                let (rows, cols) = pane_inner_size(self.frame_size, self.app.layout);
                self.app.resize(rows, cols);
                SessionAction::Draw
            },
            KeyAction::Reconnect => SessionAction::Reconnect,
            KeyAction::SearchChanged => {
                self.app.focused_terminal_mut().update_search_matches();
                SessionAction::Draw
            },
            KeyAction::Nothing => SessionAction::Draw,
        }
    }

    /// Sends bytes if there is a port to write to.
    fn send(&self, bytes: SerialKey) -> (action: SessionAction)
        ensures
            action == (if self.has_writer {
                SessionAction::Send(bytes)
            } else {
                SessionAction::Draw
            }),
    {
        if self.has_writer {
            SessionAction::Send(bytes)
        } else {
            SessionAction::Draw
        }
    }

    /// The port has failed.
    pub fn disconnect(&mut self, error: &str)
        requires
            old(self).wf(),
        ensures
            final(self).wf(),
            old(self).app.disconnected(&final(self).app, error@),
            *final(self) == (Session { app: final(self).app, has_writer: false, ..*old(self) }),
    {
        self.app.set_disconnected(error);
        self.has_writer = false;
    }

    /// The session after its port was opened again.
    pub open spec fn restored(&self, after: &Session) -> bool {
        &&& told(
            App { connection: ConnectionState::Connected, ..self.app },
            after.app,
            "Serial reconnected"@,
            MessageLevel::Info,
        )
        &&& *after == (Session { app: after.app, has_writer: true, ..*self })
    }

    /// The session after its port could not be opened again.
    pub open spec fn still_lost(&self, after: &Session, error: Seq<char>) -> bool {
        &&& told(self.app, after.app, "Reconnect failed: "@ + error, MessageLevel::Error)
        &&& *after == (Session { app: after.app, ..*self })
    }

    /// The port is open again.
    pub fn reconnected(&mut self)
        requires
            old(self).wf(),
        ensures
            final(self).wf(),
            old(self).restored(final(self)),
    {
        self.has_writer = true;
        self.app.set_connected();
    }

    /// The port could not be opened again.
    pub fn reconnect_failed(&mut self, error: &str)
        requires
            old(self).wf(),
        ensures
            final(self).wf(),
            old(self).still_lost(final(self), error@),
    {
        let text = join("Reconnect failed: ", error);
        self.app.show_error(text.as_str());
    }
}

/// Without a connection nothing is sent.
pub proof fn law_nothing_is_sent_while_disconnected(
    before: Session,
    event: Event,
    after: Session,
    action: SessionAction,
)
    requires
        before.wf(),
        before.handled(event, after, action),
        action is Send,
    ensures
        before.app.connection is Connected,
{
}

/// What is typed in Insert mode is sent: any key but Esc that has bytes.
pub proof fn law_typed_keys_are_sent(
    before: Session,
    key: KeyEvent,
    after: Session,
    action: SessionAction,
)
    requires
        before.wf(),
        before.app.mode == Mode::Insert,
        key.code != KeyCode::Esc,
        bytes_of_key(key) is Some,
        before.handled(Event::Terminal(TerminalEvent::Key(key)), after, action),
    ensures
        action matches SessionAction::Send(sent) && sent@ == bytes_of_key(key)->0,
        after == (Session { app: App { message: None, ..before.app }, ..before }),
{
}

/// Output of either side goes to its own pane and changes nothing else.
pub proof fn law_output_stays_in_its_pane(
    before: Session,
    event: Event,
    after: Session,
    action: SessionAction,
)
    requires
        before.handled(event, after, action),
    ensures
        event is AppData ==> after.app.kernel_terminal == before.app.kernel_terminal,
        event is KernelData ==> after.app.app_terminal == before.app.app_terminal,
        event is AppData || event is KernelData ==> after.app.mode == before.app.mode
            && after.app.focus == before.app.focus && after.app.message == before.app.message,
{
}

/// A lost connection can be asked for again: after a failure of the port the mode is
/// Normal, and in Normal mode Ctrl+R asks to reconnect.
pub proof fn law_reconnecting(
    lost: Session,
    key: KeyEvent,
    asked: Session,
    action: SessionAction,
)
    requires
        lost.wf(),
        lost.app.connection is Disconnected,
        lost.app.mode == Mode::Normal,
        key.code == KeyCode::Char('r'),
        key.control,
        lost.handled(Event::Terminal(TerminalEvent::Key(key)), asked, action),
    ensures
        action is Reconnect,
        asked == (Session { app: App { message: None, ..lost.app }, ..lost }),
{
}

/// Output goes to the emulator of its pane, byte for byte, and nothing but that pane
/// changes.
pub proof fn law_output_reaches_its_pane(
    before: Session,
    data: Vec<u8>,
    after: Session,
    action: SessionAction,
    kernel: bool,
)
    requires
        before.handled(
            if kernel {
                Event::KernelData(data)
            } else {
                Event::AppData(data)
            },
            after,
            action,
        ),
    ensures
        action is Received,
        kernel ==> before.app.kernel_terminal.fed(&after.app.kernel_terminal, data@),
        !kernel ==> before.app.app_terminal.fed(&after.app.app_terminal, data@),
        kernel && before.app.kernel_terminal.hidden == 0 ==> same_but_viewport(
            emulator_fed(before.app.kernel_terminal.parser, data@),
            after.app.kernel_terminal.parser,
        ),
        !kernel && before.app.app_terminal.hidden == 0 ==> same_but_viewport(
            emulator_fed(before.app.app_terminal.parser, data@),
            after.app.app_terminal.parser,
        ),
        after.app == (App {
            app_terminal: after.app.app_terminal,
            kernel_terminal: after.app.kernel_terminal,
            ..before.app
        }),
        kernel ==> after.app.app_terminal == before.app.app_terminal,
        !kernel ==> after.app.kernel_terminal == before.app.kernel_terminal,
        after.frame_size == before.frame_size && after.has_writer == before.has_writer,
{
}

/// A character typed in Insert mode goes out over serial as it is: what is sent decodes
/// to that character alone.
pub proof fn law_typed_characters_go_out(
    before: Session,
    key: KeyEvent,
    after: Session,
    action: SessionAction,
    c: char,
)
    requires
        before.wf(),
        before.app.mode == Mode::Insert,
        key.code == KeyCode::Char(c),
        !key.control,
        before.handled(Event::Terminal(TerminalEvent::Key(key)), after, action),
    ensures
        action matches SessionAction::Send(sent) && vstd::utf8::decode_utf8(sent@) == seq![c]
            && sent@ == encode_utf8(seq![c]),
        after == (Session { app: App { message: None, ..before.app }, ..before }),
{
    vstd::utf8::encode_utf8_decode_utf8(seq![c]);
}

/// Pasted text goes out as it is in Insert mode while connected. Outside Insert mode it
/// is not sent, and that is told.
pub proof fn law_pasted_text_goes_out(
    before: Session,
    text: String,
    after: Session,
    action: SessionAction,
)
    requires
        before.wf(),
        before.handled(Event::Terminal(TerminalEvent::Paste(text)), after, action),
    ensures
        before.app.mode == Mode::Insert ==> (action matches SessionAction::Send(sent)
            && vstd::utf8::decode_utf8(sent@) == text@ && sent@ == encode_utf8(text@)),
        before.app.mode == Mode::Insert ==> after == before,
        before.app.mode != Mode::Insert ==> action is Draw && (after.app.message matches Some(m)
            && m.text@ == "Paste ignored (not in Insert mode)"@ && m.level == MessageLevel::Info),
        after.app == (App { message: after.app.message, ..before.app }),
        after == (Session { app: after.app, ..before }),
{
    vstd::utf8::encode_utf8_decode_utf8(text@);
}

/// A key takes the message of an earlier one away before it does what it does in its
/// mode: what it asks to send is sent while there is a port, and what it asks for else is
/// passed on.
pub proof fn law_keys_are_followed_up(
    before: Session,
    key: KeyEvent,
    after: Session,
    action: SessionAction,
)
    requires
        before.wf(),
        before.handled(Event::Terminal(TerminalEvent::Key(key)), after, action),
    ensures
        exists|mid: App, asked: KeyAction| #[trigger]
            key_handled(App { message: None, ..before.app }, key, mid, asked) && {
                &&& asked is Quit <==> action is Quit
                &&& asked is Reconnect <==> action is Reconnect
                &&& asked is Send && before.app.connection is Connected
                    ==> action == SessionAction::Send(asked->Send_0)
                &&& action is Send ==> asked is Send && before.app.connection is Connected
                &&& asked is LayoutChanged ==> mid.resized(
                    &after.app,
                    inner_size(before.frame_size, mid.layout).0,
                    inner_size(before.frame_size, mid.layout).1,
                )
                &&& asked is SearchChanged ==> mid.focused().searched(&after.app.focused())
                    && after.app == mid.with_focused(after.app.focused())
                &&& !(asked is LayoutChanged) && !(asked is SearchChanged) ==> after.app == mid
                &&& !(action is Fail) && !(action is Received)
            },
        after.frame_size == before.frame_size && after.has_writer == before.has_writer,
{
    let (mid, asked) = choose|mid: App, asked: KeyAction| #[trigger]
        key_handled(App { message: None, ..before.app }, key, mid, asked) && before.followed_up(
            mid,
            asked,
            after,
            action,
        );
    assert(key_handled(App { message: None, ..before.app }, key, mid, asked));
}

/// `q` in Normal mode ends the session, and no other key does.
pub proof fn law_q_ends_the_session(
    before: Session,
    key: KeyEvent,
    after: Session,
    action: SessionAction,
)
    requires
        before.handled(Event::Terminal(TerminalEvent::Key(key)), after, action),
    ensures
        action is Quit <==> before.app.mode == Mode::Normal && key.code == KeyCode::Char('q'),
{
}

/// Typing in Search mode searches at once: the matches found are those of the pattern as
/// it then is, on the whole screen and in the scrollback of the focused pane.
pub proof fn law_typing_searches(
    before: Session,
    key: KeyEvent,
    after: Session,
    action: SessionAction,
    c: char,
)
    requires
        before.wf(),
        before.app.mode == Mode::Search,
        key.code == KeyCode::Char(c),
        !key.control,
        before.handled(Event::Terminal(TerminalEvent::Key(key)), after, action),
    ensures
        ({
            let pane = before.app.focused();
            let found = after.app.focused();
            let pattern = pane.search.pattern@ + seq![c];
            &&& action is Draw
            &&& after.app.mode == Mode::Search
            &&& found.search.pattern@ == pattern
            &&& found.search.direction == pane.search.direction
            &&& found.search.regex == insensitive_regex(pattern)
            &&& insensitive_regex(pattern) matches Some(re) ==> found.search.matches@
                == all_matches(re, pane.content())
            &&& insensitive_regex(pattern) is None ==> found.search.matches@.len() == 0
                && found.search.error && found.scroll_offset == pane.scroll_offset
        }),
{
    let old = before.app.focused().search.pattern@;
    assert(old.push(c) =~= old + seq![c]);
    let (mid, asked) = choose|mid: App, asked: KeyAction| #[trigger]
        key_handled(App { message: None, ..before.app }, key, mid, asked) && before.followed_up(
            mid,
            asked,
            after,
            action,
        );
    assert(mid.focused().content() == before.app.focused().content());
}

/// A new size of the screen is kept, and both terminals get the size that their panes
/// have room for on it.
pub proof fn law_screens_are_resized(
    before: Session,
    width: u16,
    height: u16,
    after: Session,
    action: SessionAction,
)
    requires
        before.wf(),
        height >= 4,
        width <= 65535 && height <= 65535,
        before.handled(Event::Terminal(TerminalEvent::Resize(width, height)), after, action),
    ensures
        action is Draw,
        (after.frame_size.width, after.frame_size.height) == (width, height),
        after.frame_size.x == 0 && after.frame_size.y == 0,
        after.app.app_terminal.dimensions() == after.app.kernel_terminal.dimensions(),
        ({
            let (rows, cols) = after.app.app_terminal.dimensions();
            let pane_height = if before.app.layout == Layout::Horizontal {
                (height - 1) / 2
            } else {
                height - 1
            };
            let pane_width = if before.app.layout == Layout::Horizontal {
                width as int
            } else {
                width as int / 2
            };
            &&& pane_height >= 2 ==> rows == pane_height - 2
            &&& pane_width >= 4 ==> cols == pane_width - 4
        }),
        after.app == (App {
            app_terminal: after.app.app_terminal,
            kernel_terminal: after.app.kernel_terminal,
            ..before.app
        }),
        after.app.app_terminal.search == before.app.app_terminal.search,
        after.app.kernel_terminal.search == before.app.kernel_terminal.search,
        after.has_writer == before.has_writer,
{
}

/// `s` gives both terminals the size that their panes have in the other layout.
pub proof fn law_layouts_resize_the_terminals(
    before: Session,
    key: KeyEvent,
    after: Session,
    action: SessionAction,
)
    requires
        before.wf(),
        before.app.mode == Mode::Normal,
        key.code == KeyCode::Char('s'),
        before.handled(Event::Terminal(TerminalEvent::Key(key)), after, action),
    ensures
        action is Draw,
        after.app.layout != before.app.layout,
        after.app.app_terminal.dimensions() == inner_size(before.frame_size, after.app.layout),
        after.app.kernel_terminal.dimensions() == inner_size(before.frame_size, after.app.layout),
        after.frame_size == before.frame_size,
{
}

/// A failure of the port ends the connection: nothing can be written, the mode is Normal,
/// and the error is kept and told. The panes stay.
pub proof fn law_failures_disconnect(
    before: Session,
    event: Event,
    after: Session,
    action: SessionAction,
)
    requires
        event is SerialError,
        before.handled(event, after, action),
    ensures
        action is Draw,
        !after.has_writer,
        after.app.mode == Mode::Normal,
        after.app.connection is Disconnected,
        after.app.message matches Some(m) && m.level == MessageLevel::Error && m.text@
            == "Serial disconnected: "@ + after.app.connection->error@,
        after.app == (App {
            mode: Mode::Normal,
            connection: after.app.connection,
            message: after.app.message,
            ..before.app
        }),
        after.frame_size == before.frame_size,
{
}

/// A click focuses the pane that it is in, as the panes lie on the screen, and changes
/// nothing else.
pub proof fn law_clicks_on_the_screen(
    before: Session,
    mouse: MouseEvent,
    after: Session,
    action: SessionAction,
)
    requires
        before.wf(),
        before.frame_size.height >= 4,
        mouse.kind == MouseEventKind::Down(MouseButton::Left),
        before.handled(Event::Terminal(TerminalEvent::Mouse(mouse)), after, action),
    ensures
        action is Draw,
        after == (Session { app: App { focus: after.app.focus, ..before.app }, ..before }),
        ({
            let rows = before.frame_size.height - 1;
            let cols = before.frame_size.width as int;
            let on_panes = mouse.row < rows && mouse.column < cols;
            let first = if before.app.layout == Layout::Horizontal {
                mouse.row < (rows + 1) / 2
            } else {
                mouse.column < (cols + 1) / 2
            };
            &&& on_panes && first ==> after.app.focus == Focus::Kernel
            &&& on_panes && !first ==> after.app.focus == Focus::App
            &&& !on_panes ==> after.app.focus == before.app.focus
        }),
{
}

/// The other events: an error of the terminal ends the session with its kind; the rest
/// changes nothing and has the interface drawn.
pub proof fn law_other_events_draw(
    before: Session,
    event: Event,
    after: Session,
    action: SessionAction,
)
    requires
        before.handled(event, after, action),
        ({
            ||| event is Init
            ||| event is NoResponseTimeout
            ||| event == Event::Terminal(TerminalEvent::FocusGained)
            ||| event == Event::Terminal(TerminalEvent::FocusLost)
            ||| (event matches Event::Terminal(TerminalEvent::Error(_)))
            ||| (event matches Event::Terminal(TerminalEvent::Mouse(m)) && m.kind
                != MouseEventKind::Down(MouseButton::Left))
        }),
    ensures
        after == before,
        event matches Event::Terminal(TerminalEvent::Error(kind)) ==> action
            == SessionAction::Fail(kind),
        !(event matches Event::Terminal(TerminalEvent::Error(_))) ==> action is Draw,
{
}

/// The panes have room on a screen of at least seven rows and five columns, or, side by
/// side, of four rows and ten columns. Only a new size or a new layout can take it away.
pub proof fn law_when_there_is_room(s: Session, event: Event, width: u16, height: u16)
    requires
        s.wf(),
    ensures
        room(screen(width, height), Layout::Horizontal) <==> height >= 7 && width >= 5,
        room(screen(width, height), Layout::Vertical) <==> height >= 4 && width >= 10,
        event == Event::Terminal(TerminalEvent::Resize(width, height)) ==> s.room_after(event)
            == room(screen(width, height), s.app.layout),
        !(event matches Event::Terminal(TerminalEvent::Resize(_, _))) && !(event matches
            Event::Terminal(TerminalEvent::Key(key)) && key.code == KeyCode::Char('s'))
            ==> s.room_after(event),
{
}

/// A port that is open again can be written to, which is told; one that could not be
/// opened leaves the connection as it was, and the error is told. Mode, focus, layout and
/// panes stay either way.
pub proof fn law_after_reconnecting(lost: Session, after: Session, error: Seq<char>, opened: bool)
    requires
        if opened {
            lost.restored(&after)
        } else {
            lost.still_lost(&after, error)
        },
    ensures
        opened ==> after.has_writer && after.app.connection is Connected,
        opened ==> (after.app.message matches Some(m) && m.text@ == "Serial reconnected"@
            && m.level == MessageLevel::Info),
        !opened ==> after.has_writer == lost.has_writer && after.app.connection
            == lost.app.connection,
        !opened ==> (after.app.message matches Some(m) && m.text@ == "Reconnect failed: "@ + error
            && m.level == MessageLevel::Error),
        after.app == (App {
            message: after.app.message,
            connection: after.app.connection,
            ..lost.app
        }),
        after.frame_size == lost.frame_size,
{
}

} // verus!
