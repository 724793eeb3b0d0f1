use srsly::app::{App, ConnectionState, Focus, Layout, MessageLevel, Mode};
use srsly::serial::{read_step, ReadStep, SerialConfig, SerialEvent, SerialKey};
use srsly::text::{decimal_string, hex4_string, join};

#[test]
fn a_new_application_waits_for_commands() {
    for (app, size) in [(App::new(10, 20), (10, 20)), (App::default(), (24, 80))] {
        assert_eq!(app.mode, Mode::Normal);
        assert_eq!(app.focus, Focus::App);
        assert_eq!(app.layout, Layout::Horizontal);
        assert!(!app.should_quit);
        assert!(app.connection.is_connected());
        assert!(app.message.is_none());
        assert_eq!(app.app_terminal.size(), size);
        assert_eq!(app.kernel_terminal.size(), size);
        assert_eq!(app.app_terminal.screen().contents(), "");
    }
    assert_eq!(Mode::default(), Mode::Normal);
    assert_eq!(Focus::default(), Focus::App);
    assert_eq!(Layout::default(), Layout::Horizontal);
    assert_eq!(ConnectionState::default(), ConnectionState::Connected);
}

#[test]
fn toggling_twice_restores_the_layout() {
    for layout in [Layout::Vertical, Layout::Horizontal] {
        assert_ne!(layout.toggle(), layout);
        assert_eq!(layout.toggle().toggle(), layout);
    }
}

#[test]
fn a_broken_connection_is_shown() {
    let mut app = App::default();
    app.mode = Mode::Insert;
    app.set_disconnected("device gone");
    assert_eq!(
        app.connection,
        ConnectionState::Disconnected { error: "device gone".to_string() }
    );
    assert!(!app.connection.is_connected());
    assert_eq!(app.mode, Mode::Normal);
    let m = app.message.as_ref().unwrap();
    assert_eq!(m.text, "Serial disconnected: device gone");
    assert_eq!(m.level, MessageLevel::Error);
    app.set_connected();
    assert!(app.connection.is_connected());
    let m = app.message.as_ref().unwrap();
    assert_eq!(m.text, "Serial reconnected");
    assert_eq!(m.level, MessageLevel::Info);
    app.clear_message();
    assert!(app.message.is_none());
}

#[test]
fn messages_replace_each_other() {
    let mut app = App::default();
    app.show_info("one");
    app.show_error("two");
    let m = app.message.unwrap();
    assert_eq!((m.text.as_str(), m.level), ("two", MessageLevel::Error));
}

#[test]
fn both_panes_are_resized() {
    let mut app = App::new(10, 20);
    app.resize(5, 30);
    assert_eq!(app.app_terminal.size(), (5, 30));
    assert_eq!(app.kernel_terminal.size(), (5, 30));
}

#[test]
fn the_focused_terminal_is_the_one_changed() {
    let mut app = App::new(5, 20);
    app.focus = Focus::Kernel;
    app.focused_terminal_mut().process(b"k");
    app.focus = Focus::App;
    app.focused_terminal_mut().process(b"a");
    assert_eq!(app.kernel_terminal.screen().contents(), "k");
    assert_eq!(app.app_terminal.screen().contents(), "a");
}

#[test]
fn panes_keep_ten_thousand_lines() {
    let mut app = App::new(2, 4);
    app.app_terminal.process("\n".repeat(10_500).as_bytes());
    assert_eq!(app.app_terminal.scrollback_len(), 10_000);
}

#[test]
fn serial_configuration() {
    let c = SerialConfig::new("/dev/ttyACM1", 9600);
    assert_eq!((c.port.as_str(), c.baud_rate), ("/dev/ttyACM1", 9600));
    let c = SerialConfig::default();
    assert_eq!((c.port.as_str(), c.baud_rate), ("/dev/ttyUSB0", 115200));
}

#[test]
fn keys_hold_their_bytes() {
    for n in [0usize, 1, 5, 6, 300] {
        let bytes: Vec<u8> = (0..n).map(|i| (i * 7) as u8).collect();
        assert_eq!(SerialKey::new(&bytes).bytes(), &bytes[..]);
    }
}

#[test]
fn reads_become_events() {
    let buf = [1u8, 2, 3, 4];
    assert!(matches!(read_step(&buf, Ok(0)), ReadStep::Stop));
    match read_step(&buf, Ok(3)) {
        ReadStep::Deliver(SerialEvent::Data(data)) => assert_eq!(data, vec![1, 2, 3]),
        _ => panic!("no data"),
    }
    match read_step(&buf, Ok(4)) {
        ReadStep::Deliver(SerialEvent::Data(data)) => assert_eq!(data, vec![1, 2, 3, 4]),
        _ => panic!("no data"),
    }
    let error = std::io::Error::new(std::io::ErrorKind::BrokenPipe, "gone");
    match read_step(&buf, Err(error)) {
        ReadStep::DeliverAndStop(SerialEvent::Error(e)) => {
            assert_eq!(e.kind(), std::io::ErrorKind::BrokenPipe)
        }
        _ => panic!("no error"),
    }
}

#[test]
fn numbers_are_written_out() {
    for n in [0usize, 7, 10, 99, 100, 65535, usize::MAX] {
        assert_eq!(decimal_string(n), n.to_string());
    }
    for n in [0u16, 1, 0x0403, 0xabcd, 0xffff] {
        assert_eq!(hex4_string(n), format!("{:04x}", n));
    }
    assert_eq!(join("a", "b\u{e9}"), "ab\u{e9}");
}
