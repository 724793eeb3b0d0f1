use srsly::app::{App, ConnectionState, Focus, Layout, MessageLevel, Mode};
use srsly::area::Rect;
use srsly::input::{
    KeyCode, KeyEvent, KeyEventKind, MouseButton, MouseEvent, MouseEventKind,
};
use srsly::serial::SerialEvent;
use srsly::session::{has_room, Session, SessionAction};
use srsly::tui::{
    stop_step, Event, EventLoop, InputEvent, LoopInput, LoopStep, StopStep, TerminalCommand,
    TerminalEvent, TuiConfig,
};
use std::io::ErrorKind;
use std::time::Duration;

fn key_of(code: KeyCode, control: bool) -> KeyEvent {
    KeyEvent { code, control, kind: KeyEventKind::Press }
}

fn key(c: char) -> Event {
    Event::from(TerminalEvent::Key(key_of(KeyCode::Char(c), false)))
}

fn special(code: KeyCode) -> Event {
    Event::from(TerminalEvent::Key(key_of(code, false)))
}

fn names(step: &LoopStep) -> Vec<String> {
    step.events.iter().map(|e| format!("{:?}", e)).collect()
}

fn message(app: &App) -> (String, MessageLevel) {
    let m = app.message.as_ref().unwrap();
    (m.text.clone(), m.level)
}

#[test]
fn the_loop_begins_with_an_event() {
    let (l, first) = EventLoop::start();
    assert!(matches!(first, Event::Init));
    assert!(l.no_response_deadline.is_none());
    assert!(l.filter.next_deadline().is_none());
}

#[test]
fn serial_data_is_split_between_the_panes() {
    let (mut l, _) = EventLoop::start();
    let mut data = |l: &mut EventLoop, d: &[u8]| {
        l.step(LoopInput::Serial(Some(SerialEvent::Data(d.to_vec()))))
    };
    let step = data(&mut l, b"a\n[1.5] k\nb\n");
    assert_eq!(
        names(&step),
        vec![
            format!("{:?}", Event::AppData(b"a\nb\n".to_vec())),
            format!("{:?}", Event::KernelData(b"[1.5] k\n".to_vec())),
        ]
    );
    assert!(!step.stop);
    assert_eq!(data(&mut l, b"[2.5] m\n").events.len(), 1);
    assert!(data(&mut l, b"[3").events.is_empty());
    assert!(data(&mut l, b"").events.is_empty());
    assert!(l.filter.next_deadline().is_some());
    let step = l.step(LoopInput::FlushTimeout);
    assert_eq!(names(&step), vec![format!("{:?}", Event::AppData(b"[3".to_vec()))]);
    assert!(l.step(LoopInput::FlushTimeout).events.is_empty());
}

#[test]
fn serial_errors_are_passed_on() {
    let (mut l, _) = EventLoop::start();
    let e = std::io::Error::new(ErrorKind::TimedOut, "late");
    let step = l.step(LoopInput::Serial(Some(SerialEvent::Error(e))));
    match &step.events[..] {
        [Event::SerialError(e)] => assert_eq!(e.kind(), ErrorKind::TimedOut),
        _ => panic!("no error"),
    }
    assert!(!step.stop);
}

#[test]
fn ended_streams_are_ignored() {
    let (mut l, _) = EventLoop::start();
    for input in [LoopInput::Serial(None), LoopInput::Terminal(None), LoopInput::DeadlineUpdate(None)]
    {
        let step = l.step(input);
        assert!(step.events.is_empty() && !step.stop);
    }
}

#[test]
fn only_pressed_keys_are_reported() {
    let (mut l, _) = EventLoop::start();
    for (kind, n) in
        [(KeyEventKind::Press, 1), (KeyEventKind::Repeat, 0), (KeyEventKind::Release, 0)]
    {
        let k = KeyEvent { code: KeyCode::Enter, control: false, kind };
        let step = l.step(LoopInput::Terminal(Some(Ok(InputEvent::Key(k)))));
        assert_eq!(step.events.len(), n);
    }
}

#[test]
fn terminal_events_are_reported() {
    let (mut l, _) = EventLoop::start();
    let mouse = MouseEvent { kind: MouseEventKind::Other, column: 1, row: 2 };
    let cases = vec![
        (InputEvent::FocusGained, TerminalEvent::FocusGained),
        (InputEvent::FocusLost, TerminalEvent::FocusLost),
        (InputEvent::Paste("p".to_string()), TerminalEvent::Paste("p".to_string())),
        (InputEvent::Mouse(mouse), TerminalEvent::Mouse(mouse)),
        (InputEvent::Resize(3, 4), TerminalEvent::Resize(3, 4)),
    ];
    for (input, event) in cases {
        let step = l.step(LoopInput::Terminal(Some(Ok(input))));
        assert_eq!(names(&step), vec![format!("{:?}", Event::Terminal(event))]);
    }
    let step = l.step(LoopInput::Terminal(Some(Err(ErrorKind::Other))));
    assert_eq!(
        names(&step),
        vec![format!("{:?}", Event::Terminal(TerminalEvent::Error(ErrorKind::Other)))]
    );
}

#[test]
fn the_no_response_deadline_comes_and_goes() {
    let (mut l, _) = EventLoop::start();
    let at = tokio::time::Instant::now() + Duration::from_secs(1);
    assert!(l.step(LoopInput::DeadlineUpdate(Some(Some(at)))).events.is_empty());
    assert_eq!(l.no_response_deadline, Some(at));
    l.step(LoopInput::DeadlineUpdate(None));
    assert_eq!(l.no_response_deadline, Some(at));
    let step = l.step(LoopInput::NoResponseTimeout);
    assert!(matches!(step.events[..], [Event::NoResponseTimeout]));
    assert_eq!(l.no_response_deadline, None);
    l.step(LoopInput::DeadlineUpdate(Some(Some(at))));
    l.step(LoopInput::DeadlineUpdate(Some(None)));
    assert_eq!(l.no_response_deadline, None);
}

#[test]
fn cancellation_stops_the_loop() {
    let (mut l, _) = EventLoop::start();
    let step = l.step(LoopInput::Cancelled);
    assert!(step.stop && step.events.is_empty());
}

#[test]
fn what_is_entered_is_left() {
    let all = TuiConfig::default();
    assert_eq!(
        all.enter(),
        vec![
            TerminalCommand::EnableRawMode,
            TerminalCommand::EnterAlternateScreen,
            TerminalCommand::HideCursor,
            TerminalCommand::EnableMouseCapture,
            TerminalCommand::EnableBracketedPaste,
        ]
    );
    assert_eq!(
        all.exit(true),
        vec![
            TerminalCommand::Flush,
            TerminalCommand::DisableBracketedPaste,
            TerminalCommand::DisableMouseCapture,
            TerminalCommand::LeaveAlternateScreen,
            TerminalCommand::ShowCursor,
            TerminalCommand::DisableRawMode,
        ]
    );
    assert!(all.exit(false).is_empty());
    let bare = TuiConfig { enable_mouse: false, enable_paste: false };
    assert_eq!(bare.enter().len(), 3);
    assert_eq!(bare.exit(true).len(), 4);
    let mouse = TuiConfig { enable_mouse: true, enable_paste: false };
    assert!(mouse.enter().contains(&TerminalCommand::EnableMouseCapture));
    assert!(mouse.exit(true).contains(&TerminalCommand::DisableMouseCapture));
    assert!(!mouse.exit(true).contains(&TerminalCommand::DisableBracketedPaste));
}

#[test]
fn stopping_a_task() {
    assert_eq!(stop_step(false, true), StopStep::Done);
    assert_eq!(stop_step(false, false), StopStep::Abort);
    assert_eq!(stop_step(true, true), StopStep::Done);
    assert_eq!(stop_step(true, false), StopStep::Fail);
}

#[test]
fn a_session_sizes_its_panes() {
    let s = Session::new(80, 24);
    assert_eq!(s.app.app_terminal.size(), (9, 76));
    assert_eq!(s.frame_size, Rect { x: 0, y: 0, width: 80, height: 24 });
    assert!(s.has_writer);
    assert_eq!(s.app.focus, Focus::App);
    assert!(has_room(80, 24, Layout::Horizontal));
    assert!(has_room(5, 7, Layout::Horizontal));
    assert!(!has_room(5, 6, Layout::Horizontal));
    assert!(!has_room(4, 7, Layout::Horizontal));
    assert!(has_room(10, 4, Layout::Vertical));
    assert!(!has_room(9, 4, Layout::Vertical));
}

#[test]
fn output_goes_to_its_pane() {
    let mut s = Session::new(80, 24);
    let action = s.handle_event(Event::AppData(b"app".to_vec()));
    assert!(matches!(action, SessionAction::Received));
    let action = s.handle_event(Event::KernelData(b"kernel".to_vec()));
    assert!(matches!(action, SessionAction::Received));
    assert_eq!(s.app.app_terminal.screen().contents(), "app");
    assert_eq!(s.app.kernel_terminal.screen().contents(), "kernel");
}

#[test]
fn typed_keys_are_sent() {
    let mut s = Session::new(80, 24);
    assert!(matches!(s.handle_event(key('i')), SessionAction::Draw));
    match s.handle_event(key('x')) {
        SessionAction::Send(k) => assert_eq!(k.bytes(), b"x"),
        _ => panic!("not sent"),
    }
    match s.handle_event(Event::from(TerminalEvent::Paste("pq".to_string()))) {
        SessionAction::Send(k) => assert_eq!(k.bytes(), b"pq"),
        _ => panic!("not sent"),
    }
    s.handle_event(special(KeyCode::Esc));
    let action = s.handle_event(Event::from(TerminalEvent::Paste("pq".to_string())));
    assert!(matches!(action, SessionAction::Draw));
    assert_eq!(message(&s.app).0, "Paste ignored (not in Insert mode)");
}

#[test]
fn a_key_clears_the_message() {
    let mut s = Session::new(80, 24);
    s.app.show_info("old");
    s.handle_event(Event::Init);
    s.handle_event(Event::NoResponseTimeout);
    assert_eq!(message(&s.app).0, "old");
    s.handle_event(key('x'));
    assert!(s.app.message.is_none());
}

#[test]
fn a_lost_port_is_not_written_to() {
    let mut s = Session::new(80, 24);
    s.handle_event(key('i'));
    let e = std::io::Error::new(ErrorKind::BrokenPipe, "cable out");
    assert!(matches!(s.handle_event(Event::SerialError(e)), SessionAction::Draw));
    assert_eq!(s.app.mode, Mode::Normal);
    assert!(!s.has_writer);
    assert_eq!(
        s.app.connection,
        ConnectionState::Disconnected { error: "cable out".to_string() }
    );
    assert_eq!(
        message(&s.app),
        ("Serial disconnected: cable out".to_string(), MessageLevel::Error)
    );
    // Normal mode's resize command has nowhere to go
    assert!(matches!(s.handle_event(key('r')), SessionAction::Draw));
    assert!(matches!(s.handle_event(key('i')), SessionAction::Draw));
    assert_eq!(s.app.mode, Mode::Normal);
    // Ctrl+R asks to connect again
    let ctrl_r = Event::from(TerminalEvent::Key(key_of(KeyCode::Char('r'), true)));
    assert!(matches!(s.handle_event(ctrl_r), SessionAction::Reconnect));
    s.reconnect_failed("no such device");
    assert_eq!(
        message(&s.app),
        ("Reconnect failed: no such device".to_string(), MessageLevel::Error)
    );
    assert!(!s.has_writer);
    s.reconnected();
    assert!(s.has_writer && s.app.connection.is_connected());
    assert_eq!(message(&s.app), ("Serial reconnected".to_string(), MessageLevel::Info));
    assert!(matches!(s.handle_event(key('r')), SessionAction::Send(_)));
}

#[test]
fn a_failed_send_disconnects() {
    let mut s = Session::new(80, 24);
    s.disconnect("channel closed");
    assert!(!s.has_writer);
    assert_eq!(message(&s.app).0, "Serial disconnected: channel closed");
}

#[test]
fn layout_and_screen_changes_resize_the_panes() {
    let mut s = Session::new(80, 24);
    assert!(s.has_room_after(&key('s')));
    assert!(matches!(s.handle_event(key('s')), SessionAction::Draw));
    assert_eq!(s.app.layout, Layout::Vertical);
    assert_eq!(s.app.app_terminal.size(), (21, 36));
    assert_eq!(s.app.kernel_terminal.size(), (21, 36));
    let resize = || Event::from(TerminalEvent::Resize(100, 40));
    assert!(s.has_room_after(&resize()));
    assert!(matches!(s.handle_event(resize()), SessionAction::Draw));
    assert_eq!(s.app.app_terminal.size(), (37, 46));
    assert_eq!(s.frame_size, Rect { x: 0, y: 0, width: 100, height: 40 });
    assert!(!s.has_room_after(&Event::from(TerminalEvent::Resize(9, 40))));
    assert!(s.has_room_after(&Event::Init));
    let mut low = Session::new(8, 8);
    assert!(!low.has_room_after(&key('s')));
    assert!(low.has_room_after(&key('x')));
    low.handle_event(key('/'));
    assert!(low.has_room_after(&key('s')));
}

#[test]
fn clicks_follow_the_layout() {
    let mut s = Session::new(80, 24);
    let click = |column, row| {
        Event::from(TerminalEvent::Mouse(MouseEvent {
            kind: MouseEventKind::Down(MouseButton::Left),
            column,
            row,
        }))
    };
    s.handle_event(click(70, 2));
    assert_eq!(s.app.focus, Focus::Kernel);
    s.handle_event(key('s'));
    s.handle_event(click(70, 2));
    assert_eq!(s.app.focus, Focus::App);
    s.handle_event(click(70, 23));
    assert_eq!(s.app.focus, Focus::App);
}

#[test]
fn patterns_are_searched_as_they_are_typed() {
    let mut s = Session::new(80, 24);
    s.handle_event(Event::AppData(b"one\r\ntwo\r\none".to_vec()));
    s.handle_event(key('/'));
    for c in "one".chars() {
        assert!(matches!(s.handle_event(key(c)), SessionAction::Draw));
    }
    assert_eq!(s.app.app_terminal.search.matches.len(), 2);
    s.handle_event(special(KeyCode::Backspace));
    s.handle_event(special(KeyCode::Backspace));
    assert_eq!(s.app.app_terminal.search.matches.len(), 3);
}

#[test]
fn sessions_end() {
    let mut s = Session::new(80, 24);
    let failed = s.handle_event(Event::from(TerminalEvent::Error(ErrorKind::Interrupted)));
    assert!(matches!(failed, SessionAction::Fail(ErrorKind::Interrupted)));
    for e in [TerminalEvent::FocusGained, TerminalEvent::FocusLost] {
        assert!(matches!(s.handle_event(Event::from(e)), SessionAction::Draw));
    }
    assert!(matches!(s.handle_event(key('q')), SessionAction::Quit));
    assert!(s.app.should_quit);
}
