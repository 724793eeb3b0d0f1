use srsly::app::{App, Focus, Layout, MessageLevel, Mode};
use srsly::area::Rect;
use srsly::input::{
    handle_key, handle_mouse, handle_paste, KeyAction, KeyCode, KeyEvent, KeyEventKind,
    MouseButton, MouseEvent, MouseEventKind,
};
use srsly::terminal::SearchDirection;

fn key(code: KeyCode) -> KeyEvent {
    KeyEvent { code, control: false, kind: KeyEventKind::Press }
}

fn ctrl(c: char) -> KeyEvent {
    KeyEvent { code: KeyCode::Char(c), control: true, kind: KeyEventKind::Press }
}

fn ch(c: char) -> KeyEvent {
    key(KeyCode::Char(c))
}

fn press(app: &mut App, k: KeyEvent) -> KeyAction {
    handle_key(app, k)
}

fn quiet(app: &mut App, k: KeyEvent) {
    assert!(matches!(press(app, k), KeyAction::Nothing));
}

fn sent(app: &mut App, k: KeyEvent) -> Option<Vec<u8>> {
    match press(app, k) {
        KeyAction::Send(bytes) => Some(bytes.bytes().to_vec()),
        KeyAction::Nothing => None,
        other => panic!("unexpected {:?}", other),
    }
}

fn message(app: &App) -> (String, MessageLevel) {
    let m = app.message.as_ref().unwrap();
    (m.text.clone(), m.level)
}

fn inserting() -> App {
    let mut app = App::default();
    app.mode = Mode::Insert;
    app
}

/// An application whose focused pane has ten numbered lines in three rows.
fn numbered() -> App {
    let mut app = App::new(3, 20);
    for i in 0..10 {
        let end = if i < 9 { "\r\n" } else { "" };
        app.app_terminal.process(format!("line {}{}", i, end).as_bytes());
    }
    app
}

#[test]
fn keys_are_sent_in_insert_mode() {
    let mut app = inserting();
    let cases: Vec<(KeyCode, &[u8])> = vec![
        (KeyCode::Char('a'), b"a"),
        (KeyCode::Char('\u{e9}'), b"\xc3\xa9"),
        (KeyCode::Char('\u{20ac}'), b"\xe2\x82\xac"),
        (KeyCode::Char('\u{1f600}'), b"\xf0\x9f\x98\x80"),
        (KeyCode::Enter, b"\r"),
        (KeyCode::Backspace, b"\x7f"),
        (KeyCode::Tab, b"\t"),
        (KeyCode::Up, b"\x1b[A"),
        (KeyCode::Down, b"\x1b[B"),
        (KeyCode::Right, b"\x1b[C"),
        (KeyCode::Left, b"\x1b[D"),
        (KeyCode::Home, b"\x1b[H"),
        (KeyCode::End, b"\x1b[F"),
        (KeyCode::Delete, b"\x1b[3~"),
        (KeyCode::Insert, b"\x1b[2~"),
        (KeyCode::PageUp, b"\x1b[5~"),
        (KeyCode::PageDown, b"\x1b[6~"),
        (KeyCode::F(1), b"\x1bOP"),
        (KeyCode::F(2), b"\x1bOQ"),
        (KeyCode::F(3), b"\x1bOR"),
        (KeyCode::F(4), b"\x1bOS"),
        (KeyCode::F(5), b"\x1b[15~"),
        (KeyCode::F(6), b"\x1b[17~"),
        (KeyCode::F(7), b"\x1b[18~"),
        (KeyCode::F(8), b"\x1b[19~"),
        (KeyCode::F(9), b"\x1b[20~"),
        (KeyCode::F(10), b"\x1b[21~"),
        (KeyCode::F(11), b"\x1b[23~"),
        (KeyCode::F(12), b"\x1b[24~"),
    ];
    for (code, bytes) in cases {
        let got = sent(&mut app, key(code)).unwrap();
        assert_eq!(got, bytes.to_vec());
        assert!(1 <= got.len() && got.len() <= 5);
    }
    assert_eq!(sent(&mut app, key(KeyCode::F(13))), None);
    assert_eq!(sent(&mut app, key(KeyCode::F(0))), None);
    assert_eq!(sent(&mut app, key(KeyCode::Other)), None);
    assert_eq!(app.mode, Mode::Insert);
}

#[test]
fn control_keys_send_one_byte() {
    let mut app = inserting();
    for n in 1..=26u8 {
        assert_eq!(sent(&mut app, ctrl((n + 64) as char)), Some(vec![n]));
        assert_eq!(sent(&mut app, ctrl((n + 96) as char)), Some(vec![n]));
    }
    assert_eq!(sent(&mut app, ctrl('[')), Some(vec![b'['.wrapping_sub(96)]));
    assert_eq!(sent(&mut app, ctrl('\u{4e2d}')), Some(vec![0x2du8.wrapping_sub(96)]));
    assert_eq!(sent(&mut app, ctrl(' ')), Some(vec![192]));
}

#[test]
fn escape_leaves_insert_mode() {
    let mut app = inserting();
    quiet(&mut app, key(KeyCode::Esc));
    assert_eq!(app.mode, Mode::Normal);
}

#[test]
fn insert_mode_needs_a_connection() {
    let mut app = App::default();
    app.focus = Focus::Kernel;
    quiet(&mut app, ch('i'));
    assert_eq!((app.mode, app.focus), (Mode::Insert, Focus::App));
    app.set_disconnected("x");
    quiet(&mut app, ch('i'));
    assert_eq!(app.mode, Mode::Normal);
    assert_eq!(
        message(&app),
        ("Cannot enter Insert mode: not connected".to_string(), MessageLevel::Error)
    );
}

#[test]
fn q_quits() {
    let mut app = App::default();
    assert!(matches!(press(&mut app, ch('q')), KeyAction::Quit));
    assert!(app.should_quit);
    let mut app = inserting();
    assert_eq!(sent(&mut app, ch('q')), Some(vec![b'q']));
    assert!(!app.should_quit);
}

#[test]
fn s_changes_the_layout() {
    let mut app = App::default();
    assert!(matches!(press(&mut app, ch('s')), KeyAction::LayoutChanged));
    assert_eq!(app.layout, Layout::Vertical);
    assert_eq!(message(&app), ("Layout: vertical".to_string(), MessageLevel::Info));
    assert!(matches!(press(&mut app, ch('s')), KeyAction::LayoutChanged));
    assert_eq!(app.layout, Layout::Horizontal);
    assert_eq!(message(&app), ("Layout: horizontal".to_string(), MessageLevel::Info));
}

#[test]
fn r_reconnects_or_tells_the_size() {
    let mut app = App::new(9, 76);
    assert!(matches!(press(&mut app, ctrl('r')), KeyAction::Reconnect));
    assert_eq!(sent(&mut app, ch('r')), Some(b"stty rows 9 cols 76\n".to_vec()));
}

#[test]
fn tab_and_w_switch_panes() {
    for k in [key(KeyCode::Tab), ch('w')] {
        let mut app = App::default();
        quiet(&mut app, k);
        assert_eq!(app.focus, Focus::Kernel);
        quiet(&mut app, k);
        assert_eq!(app.focus, Focus::App);
    }
}

#[test]
fn scrolling_keys() {
    let mut app = numbered();
    quiet(&mut app, ch('k'));
    quiet(&mut app, key(KeyCode::Up));
    assert_eq!(app.app_terminal.scroll_offset(), 2);
    quiet(&mut app, ch('j'));
    assert_eq!(app.app_terminal.scroll_offset(), 1);
    quiet(&mut app, key(KeyCode::Down));
    assert_eq!(app.app_terminal.scroll_offset(), 0);
    quiet(&mut app, ctrl('u'));
    assert_eq!(app.app_terminal.scroll_offset(), 7);
    quiet(&mut app, ctrl('d'));
    assert_eq!(app.app_terminal.scroll_offset(), 0);
    quiet(&mut app, ch('g'));
    assert_eq!(app.app_terminal.scroll_offset(), 7);
    quiet(&mut app, ch('d'));
    assert_eq!(app.app_terminal.scroll_offset(), 7);
    quiet(&mut app, ch('G'));
    assert_eq!(app.app_terminal.scroll_offset(), 0);
    quiet(&mut app, ch('u'));
    assert_eq!(app.app_terminal.scroll_offset(), 0);
    // The other pane is not scrolled
    assert_eq!(app.kernel_terminal.scroll_offset(), 0);
    app.focus = Focus::Kernel;
    quiet(&mut app, ch('g'));
    assert_eq!(app.app_terminal.scroll_offset(), 0);
}

#[test]
fn c_clears_the_focused_pane() {
    let mut app = numbered();
    app.kernel_terminal.process(b"kernel");
    quiet(&mut app, ch('c'));
    assert_eq!(app.app_terminal.screen().contents(), "");
    assert_eq!(app.app_terminal.scrollback_len(), 0);
    assert_eq!(app.kernel_terminal.screen().contents(), "kernel");
    assert_eq!(message(&app), ("Cleared App pane".to_string(), MessageLevel::Info));
    app.focus = Focus::Kernel;
    quiet(&mut app, ch('c'));
    assert_eq!(app.kernel_terminal.screen().contents(), "");
    assert_eq!(message(&app), ("Cleared Kernel pane".to_string(), MessageLevel::Info));
}

#[test]
fn unknown_commands_are_ignored() {
    let mut app = App::default();
    for k in [ch('x'), ch('Q'), key(KeyCode::Enter), key(KeyCode::F(1)), key(KeyCode::Other)] {
        quiet(&mut app, k);
    }
    assert_eq!(app.mode, Mode::Normal);
    assert!(app.message.is_none());
}

#[test]
fn searching_by_keys() {
    let mut app = numbered();
    quiet(&mut app, ch('/'));
    assert_eq!(app.mode, Mode::Search);
    assert_eq!(app.app_terminal.search.direction, SearchDirection::Forward);
    for c in "line".chars() {
        assert!(matches!(press(&mut app, ch(c)), KeyAction::SearchChanged));
        app.focused_terminal_mut().update_search_matches();
    }
    assert_eq!(app.app_terminal.search.pattern, "line");
    assert_eq!(app.app_terminal.search.matches.len(), 10);
    let first = app.app_terminal.search.current_match;
    quiet(&mut app, ctrl('n'));
    assert_eq!(app.app_terminal.search.current_match, (first + 1) % 10);
    quiet(&mut app, ctrl('p'));
    assert_eq!(app.app_terminal.search.current_match, first);
    quiet(&mut app, key(KeyCode::Enter));
    assert_eq!(app.mode, Mode::Normal);
    assert!(app.message.is_none());
    assert_eq!(app.app_terminal.search.matches.len(), 10);
    // n and N in Normal mode
    quiet(&mut app, ch('n'));
    let m = app.app_terminal.search.current().unwrap();
    assert_eq!(app.app_terminal.search.current_match, (first + 1) % 10);
    let rows: Vec<usize> =
        (0..3).filter(|r| app.app_terminal.is_current_match(*r, m.start_col)).collect();
    assert_eq!(rows.len(), 1);
    quiet(&mut app, ch('N'));
    assert_eq!(app.app_terminal.search.current_match, first);
    // Esc drops the matches
    quiet(&mut app, key(KeyCode::Esc));
    assert!(app.app_terminal.search.matches.is_empty());
    assert_eq!(app.app_terminal.search.pattern, "");
}

#[test]
fn backward_search_by_keys() {
    let mut app = numbered();
    quiet(&mut app, ch('?'));
    assert_eq!(app.mode, Mode::Search);
    assert_eq!(app.app_terminal.search.direction, SearchDirection::Backward);
}

#[test]
fn editing_the_pattern() {
    let mut app = numbered();
    quiet(&mut app, ch('/'));
    press(&mut app, ch('a'));
    press(&mut app, ch('b'));
    press(&mut app, ch('\u{e9}'));
    assert!(matches!(press(&mut app, key(KeyCode::Backspace)), KeyAction::SearchChanged));
    assert_eq!(app.app_terminal.search.pattern, "ab");
    assert!(matches!(press(&mut app, ctrl('u')), KeyAction::SearchChanged));
    assert_eq!(app.app_terminal.search.pattern, "");
    // A letter with Ctrl that has no other meaning is typed
    assert!(matches!(press(&mut app, ctrl('x')), KeyAction::SearchChanged));
    assert_eq!(app.app_terminal.search.pattern, "x");
    quiet(&mut app, key(KeyCode::Up));
    quiet(&mut app, key(KeyCode::Esc));
    assert_eq!(app.mode, Mode::Normal);
    assert_eq!(app.app_terminal.search.pattern, "");
}

#[test]
fn a_search_without_matches_is_reported() {
    let mut app = numbered();
    quiet(&mut app, ch('/'));
    press(&mut app, ch('z'));
    app.focused_terminal_mut().update_search_matches();
    quiet(&mut app, key(KeyCode::Enter));
    assert_eq!(message(&app), ("No matches found".to_string(), MessageLevel::Info));
    // An empty pattern is not
    app.clear_message();
    quiet(&mut app, ch('/'));
    quiet(&mut app, key(KeyCode::Enter));
    assert!(app.message.is_none());
}

#[test]
fn pasting() {
    let mut app = inserting();
    match handle_paste(&mut app, "ls -l\n\u{e9}") {
        KeyAction::Send(bytes) => assert_eq!(bytes.bytes(), "ls -l\n\u{e9}".as_bytes()),
        _ => panic!("not sent"),
    }
    assert!(app.message.is_none());
    for mode in [Mode::Normal, Mode::Search] {
        app.mode = mode;
        app.message = None;
        assert!(matches!(handle_paste(&mut app, "x"), KeyAction::Nothing));
        assert_eq!(
            message(&app),
            ("Paste ignored (not in Insert mode)".to_string(), MessageLevel::Info)
        );
    }
}

#[test]
fn clicking_focuses_a_pane() {
    let kernel = Rect { x: 0, y: 0, width: 10, height: 5 };
    let app_area = Rect { x: 0, y: 5, width: 10, height: 5 };
    let click = |column, row| MouseEvent {
        kind: MouseEventKind::Down(MouseButton::Left),
        column,
        row,
    };
    let mut app = App::default();
    handle_mouse(&mut app, click(3, 4), (kernel, app_area));
    assert_eq!(app.focus, Focus::Kernel);
    handle_mouse(&mut app, click(3, 5), (kernel, app_area));
    assert_eq!(app.focus, Focus::App);
    handle_mouse(&mut app, click(10, 4), (kernel, app_area));
    assert_eq!(app.focus, Focus::App);
    for kind in [
        MouseEventKind::Down(MouseButton::Right),
        MouseEventKind::Down(MouseButton::Middle),
        MouseEventKind::Other,
    ] {
        let mouse = MouseEvent { kind, column: 3, row: 4 };
        assert!(matches!(
            handle_mouse(&mut app, mouse, (kernel, app_area)),
            KeyAction::Nothing
        ));
        assert_eq!(app.focus, Focus::App);
    }
}
