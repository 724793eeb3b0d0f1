use srsly::app::Layout;
use srsly::area::{Constraint, Direction, Rect};
use srsly::ui::{pane_inner_size, UiLayout};

fn rect(x: u16, y: u16, width: u16, height: u16) -> Rect {
    Rect { x, y, width, height }
}

#[test]
fn screen_is_divided_into_panes_and_bar() {
    let l = UiLayout::compute(rect(0, 0, 80, 24), Layout::Horizontal);
    assert_eq!(l.kernel, rect(0, 0, 80, 12));
    assert_eq!(l.app, rect(0, 12, 80, 11));
    assert_eq!(l.keybinds, rect(0, 23, 80, 1));
    assert_eq!(l.pane_areas(), (l.kernel, l.app));

    let l = UiLayout::compute(rect(0, 0, 81, 24), Layout::Vertical);
    assert_eq!(l.kernel, rect(0, 0, 41, 23));
    assert_eq!(l.app, rect(41, 0, 40, 23));
    assert_eq!(l.keybinds, rect(0, 23, 81, 1));
}

#[test]
fn low_screens_have_no_bar() {
    let l = UiLayout::compute(rect(0, 0, 10, 3), Layout::Horizontal);
    assert_eq!(l.kernel, rect(0, 0, 10, 2));
    assert_eq!(l.app, rect(0, 2, 10, 1));
    assert_eq!(l.keybinds, rect(0, 3, 10, 0));

    let l = UiLayout::compute(rect(0, 0, 0, 0), Layout::Vertical);
    assert_eq!(l.kernel, rect(0, 0, 0, 0));
    assert_eq!(l.app, rect(0, 0, 0, 0));
}

#[test]
fn bar_and_panes_for_every_size() {
    for n in (0u16..400).chain([1000, 4095, 4096, 32767, 32768, 65534, 65535]) {
        for x in [0u16, 1, 7, 100] {
            if n > 65535 - x {
                continue;
            }
            let area = rect(x, 2, n, 9);
            let (a, b) = area.split(
                Direction::Horizontal,
                0,
                Constraint::Percentage(50),
                Constraint::Percentage(50),
            );
            let first = (n as u32 + 1) / 2;
            assert_eq!(a, rect(x, 2, first as u16, 9));
            assert_eq!(b, rect(x + first as u16, 2, n - first as u16, 9));

            let area = rect(3, x, 5, n);
            let (a, b) =
                area.split(Direction::Vertical, 0, Constraint::Min(3), Constraint::Length(1));
            let last = if n >= 4 { 1 } else { 0 };
            assert_eq!(a, rect(3, x, 5, n - last));
            assert_eq!(b, rect(3, x + n - last, 5, last));
        }
    }
}

#[test]
fn status_bar_for_every_width() {
    for n in (2u16..400).chain([1000, 4095, 4096, 32767, 32768, 65534, 65535]) {
        let (a, b) = rect(0, 5, n, 1).split(
            Direction::Horizontal,
            1,
            Constraint::Min(0),
            Constraint::Percentage(30),
        );
        let size = (n - 2) as u32;
        let cut = (100 * (size + 1) - 30 * size + 50) / 100;
        assert_eq!(a, rect(1, 5, (cut - 1) as u16, 1));
        assert_eq!(b, rect(cut as u16, 5, (size + 1 - cut) as u16, 1));
    }
    let (a, b) = rect(4, 5, 1, 1).split(
        Direction::Horizontal,
        1,
        Constraint::Min(0),
        Constraint::Percentage(30),
    );
    assert_eq!((a, b), (rect(0, 0, 0, 0), rect(0, 0, 0, 0)));
}

#[test]
fn fixed_sizes_give_way_to_the_least_size() {
    let split = |height: u16| {
        let (a, b) = rect(0, 10, 4, height).split(
            Direction::Vertical,
            0,
            Constraint::Min(20),
            Constraint::Length(30),
        );
        assert_eq!(a.y, 10);
        assert_eq!(b.y, 10 + a.height);
        (a.height, b.height)
    };
    assert_eq!(split(60), (30, 30));
    assert_eq!(split(50), (20, 30));
    assert_eq!(split(49), (20, 29));
    assert_eq!(split(20), (20, 0));
    assert_eq!(split(7), (7, 0));
}

#[test]
fn areas_past_the_last_coordinate_are_cut_there() {
    let (a, b) = rect(65530, 0, 100, 1).split(
        Direction::Horizontal,
        0,
        Constraint::Percentage(50),
        Constraint::Percentage(50),
    );
    assert_eq!(a, rect(65530, 0, 3, 1));
    assert_eq!(b, rect(65533, 0, 2, 1));
}

#[test]
fn inner_part_is_inside_border_and_padding() {
    assert_eq!(rect(3, 4, 20, 10).inner(1), rect(5, 5, 16, 8));
    assert_eq!(rect(3, 4, 20, 10).inner(0), rect(4, 5, 18, 8));
    assert_eq!(rect(3, 4, 4, 2).inner(1), rect(5, 5, 0, 0));
    assert_eq!(rect(3, 4, 0, 0).inner(1), rect(4, 4, 0, 0));
    assert_eq!(rect(65535, 65535, 9, 9).inner(1), rect(65535, 65535, 5, 7));
}

#[test]
fn containment_excludes_the_far_edges() {
    let r = rect(2, 3, 4, 5);
    assert!(r.contains(2, 3));
    assert!(r.contains(5, 7));
    assert!(!r.contains(6, 7));
    assert!(!r.contains(5, 8));
    assert!(!r.contains(1, 3));
    assert!(!r.contains(2, 2));
    assert!(!rect(65535, 0, 5, 5).contains(65535, 0));
}

#[test]
fn terminal_sizes() {
    assert_eq!(pane_inner_size(rect(0, 0, 80, 24), Layout::Horizontal), (9, 76));
    assert_eq!(pane_inner_size(rect(0, 0, 80, 24), Layout::Vertical), (21, 36));
    assert_eq!(pane_inner_size(rect(0, 0, 0, 0), Layout::Horizontal), (0, 0));
    assert_eq!(pane_inner_size(rect(0, 0, 0, 0), Layout::Vertical), (0, 0));
    assert_eq!(pane_inner_size(rect(0, 0, 5, 7), Layout::Horizontal), (1, 1));
}

#[test]
fn terminals_have_room_and_areas_are_apart() {
    for layout in [Layout::Horizontal, Layout::Vertical] {
        for width in 0..30 {
            for height in 0..30 {
                let size = rect(0, 0, width, height);
                let l = UiLayout::compute(size, layout);
                let (rows, cols) = pane_inner_size(size, layout);
                for pane in [l.kernel, l.app] {
                    let inner = pane.inner(1);
                    assert!(rows <= inner.height && cols <= inner.width);
                }
                for x in 0..31 {
                    for y in 0..31 {
                        let n = [l.kernel, l.app, l.keybinds]
                            .iter()
                            .filter(|a| a.contains(x, y))
                            .count();
                        assert_eq!(n, if size.contains(x, y) { 1 } else { 0 });
                    }
                }
            }
        }
    }
}
