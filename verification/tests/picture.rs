use srsly::app::{App, Focus, Layout, Mode};
use srsly::area::Rect;
use srsly::emulator::Color;
use srsly::ui::{render, Span, Style};

fn screen(width: u16, height: u16) -> Rect {
    Rect { x: 0, y: 0, width, height }
}

fn texts(spans: &[Span]) -> Vec<String> {
    spans.iter().map(|s| s.text.clone()).collect()
}

fn cell(fg: Color, bg: Color) -> Style {
    Style { fg: Some(fg), bg: Some(bg), ..Style::default() }
}

#[test]
fn panes_have_titles_borders_and_cursor() {
    let mut app = App::new(9, 76);
    app.kernel_terminal.process(b"k");
    app.app_terminal.process(b"ab");
    let p = render(screen(80, 24), &app);
    assert_eq!(p.kernel.title, " Kernel (-/0) ");
    assert_eq!(p.app.title, " App (-/0) ");
    assert_eq!(p.kernel.border, Color::DarkGray);
    assert_eq!(p.app.border, Color::White);
    assert_eq!(p.kernel.area, Rect { x: 0, y: 0, width: 80, height: 12 });
    assert_eq!(p.app.inner, Rect { x: 2, y: 13, width: 76, height: 9 });
    assert_eq!(p.kernel.cursor, None);
    assert_eq!(p.app.cursor, Some((4, 13)));
    assert_eq!(p.app.lines.len(), 9);
    assert_eq!(texts(&p.app.lines[0]), vec!["ab"]);
    assert!(p.app.lines[1].is_empty());
    assert_eq!(texts(&p.kernel.lines[0]), vec!["k"]);
}

#[test]
fn the_title_tells_the_place_in_the_history() {
    let mut app = App::new(2, 20);
    for i in 0..12 {
        app.app_terminal.process(format!("{}\r\n", i).as_bytes());
    }
    let p = render(screen(80, 24), &app);
    assert_eq!(p.app.title, " App (-/11) ");
    app.app_terminal.scroll_up(10);
    let p = render(screen(80, 24), &app);
    assert_eq!(p.app.title, " App (10/11) ");
    assert_eq!(texts(&p.app.lines[0]), vec!["1"]);
}

#[test]
fn the_focused_pane_has_the_cursor() {
    let mut app = App::new(9, 76);
    app.focus = Focus::Kernel;
    let p = render(screen(80, 24), &app);
    assert_eq!(p.kernel.cursor, Some((2, 1)));
    assert_eq!(p.app.cursor, None);
    app.kernel_terminal.process(b"\x1b[?25l");
    assert_eq!(render(screen(80, 24), &app).kernel.cursor, None);
    app.kernel_terminal.process(b"\x1b[?25h");
    assert_eq!(render(screen(80, 24), &app).kernel.cursor, Some((2, 1)));
}

#[test]
fn the_cursor_stays_inside_the_pane() {
    let mut app = App::new(30, 100);
    app.app_terminal.process(b"\x1b[25;90H");
    let p = render(screen(40, 14), &app);
    let inner = p.app.inner;
    assert_eq!(p.app.cursor, Some((inner.x + inner.width - 1, inner.y + inner.height - 1)));
    assert_eq!(p.app.lines.len(), inner.height as usize);
}

#[test]
fn styles_cut_a_row_into_spans() {
    let mut app = App::new(3, 40);
    app.app_terminal.process(b"a\x1b[1mb\x1b[0;31;44mcd\x1b[0;38;2;1;2;3me\x1b[0;2;3;4;7mf\x1b[0mg");
    let line = &render(screen(80, 24), &app).app.lines[0];
    assert_eq!(texts(line), vec!["a", "b", "cd", "e", "f", "g"]);
    let plain = cell(Color::Reset, Color::Reset);
    assert_eq!(line[0].style, plain);
    assert_eq!(line[1].style, Style { bold: true, ..plain });
    assert_eq!(line[2].style, cell(Color::Indexed(1), Color::Indexed(4)));
    assert_eq!(line[3].style, cell(Color::Rgb(1, 2, 3), Color::Reset));
    assert_eq!(
        line[4].style,
        Style { dim: true, italic: true, underlined: true, reversed: true, ..plain }
    );
    assert_eq!(line[5].style, plain);
}

#[test]
fn spans_hold_the_text_of_their_row() {
    let mut app = App::new(3, 40);
    app.app_terminal.process("x\x1b[31my\x1b[0m\u{4e2d}\x1b[10Gz".as_bytes());
    let line = &render(screen(80, 24), &app).app.lines[0];
    let all: String = texts(line).concat();
    assert_eq!(all, "xy\u{4e2d}z");
    assert!(line.iter().all(|s| !s.text.is_empty()));
}

#[test]
fn rows_are_cut_to_the_pane() {
    let mut app = App::new(9, 76);
    app.app_terminal.process(&[b'x'; 76]);
    let p = render(screen(30, 24), &app);
    assert_eq!(texts(&p.app.lines[0]), vec!["x".repeat(26)]);
}

#[test]
fn panes_without_room_show_nothing_inside() {
    let app = App::new(9, 76);
    for size in [screen(4, 24), screen(80, 4), screen(0, 0)] {
        let p = render(size, &app);
        assert!(p.app.lines.is_empty() && p.kernel.lines.is_empty());
        assert_eq!((p.app.cursor, p.kernel.cursor), (None, None));
    }
}

#[test]
fn panes_side_by_side() {
    let mut app = App::new(21, 36);
    app.layout = Layout::Vertical;
    let p = render(screen(80, 24), &app);
    assert_eq!(p.kernel.area, Rect { x: 0, y: 0, width: 40, height: 23 });
    assert_eq!(p.app.area, Rect { x: 40, y: 0, width: 40, height: 23 });
}

#[test]
fn the_status_bar_tells_mode_and_keys() {
    let mut app = App::new(9, 76);
    let left = |app: &App| texts(&render(screen(80, 24), app).status.left).concat();
    assert_eq!(
        left(&app),
        " NORMAL  i: Insert Mode  q: Quit  s: Layout  r: Resize  w: Switch pane  j/k: Scroll  c: Clear"
    );
    app.mode = Mode::Insert;
    assert_eq!(left(&app), " INSERT  Esc: Normal Mode");
    app.mode = Mode::Search;
    assert_eq!(left(&app), " SEARCH  Enter: Keep matches  Esc: Cancel");
}

#[test]
fn the_status_bar_is_colored() {
    let mut app = App::new(9, 76);
    for (mode, color) in [
        (Mode::Insert, Color::Green),
        (Mode::Normal, Color::Blue),
        (Mode::Search, Color::Yellow),
    ] {
        app.mode = mode;
        let left = render(screen(80, 24), &app).status.left;
        assert_eq!(left[0].style, cell(Color::Black, color));
        assert_eq!(left[1].style, Style::default());
        assert_eq!(
            left[2].style,
            Style { fg: Some(Color::Cyan), bold: true, ..Style::default() }
        );
        assert_eq!(left[3].style, Style::default());
    }
}

#[test]
fn the_status_bar_tells_the_size() {
    let app = App::new(9, 76);
    let bar = render(screen(80, 24), &app).status;
    assert_eq!(bar.right.text, "76x9");
    assert_eq!(bar.right.style, Style { fg: Some(Color::Yellow), ..Style::default() });
    assert_eq!(bar.left_area, Rect { x: 1, y: 23, width: 55, height: 1 });
    assert_eq!(bar.right_area, Rect { x: 56, y: 23, width: 23, height: 1 });
}
