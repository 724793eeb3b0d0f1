use srsly::terminal::{SearchDirection, SearchMatch, SearchState, Terminal};

fn places(t: &Terminal) -> Vec<(usize, usize, usize, usize)> {
    t.search
        .matches
        .iter()
        .map(|m| (m.scroll_offset, m.view_row, m.start_col, m.end_col))
        .collect()
}

fn line_of(t: &Terminal, row: u16) -> String {
    let (_, cols) = t.size();
    t.screen().rows(0, cols).nth(row as usize).unwrap()
}

/// Ten numbered lines in a terminal of three rows.
fn numbered() -> Terminal {
    let mut t = Terminal::new(3, 20, 100);
    for i in 0..10 {
        let end = if i < 9 { "\r\n" } else { "" };
        t.process(format!("line {}{}", i, end).as_bytes());
    }
    t
}

fn search(t: &mut Terminal, pattern: &str) {
    t.search.set_pattern(pattern.to_string());
    t.update_search_matches();
}

#[test]
fn patterns_are_compiled_as_they_change() {
    let mut s = SearchState::default();
    assert!(s.regex.is_none() && !s.error);
    assert_eq!(s.direction, SearchDirection::Forward);
    s.push_char('a');
    assert!(s.regex.is_some() && !s.error);
    s.push_char('(');
    assert_eq!(s.pattern, "a(");
    assert!(s.regex.is_none() && s.error);
    s.pop_char();
    assert_eq!(s.pattern, "a");
    assert!(s.regex.is_some() && !s.error);
    assert_eq!(s.regex.as_ref().unwrap().as_str(), "a");
    s.pop_char();
    s.pop_char();
    assert_eq!(s.pattern, "");
    assert!(s.regex.is_none() && !s.error);
}

#[test]
fn clearing_keeps_the_direction() {
    let mut s = SearchState::default();
    s.direction = SearchDirection::Backward;
    s.set_pattern("x".to_string());
    s.clear();
    assert_eq!(s.pattern, "");
    assert!(s.regex.is_none() && s.matches.is_empty() && s.current_match == 0);
    assert_eq!(s.direction, SearchDirection::Backward);
}

#[test]
fn scrollback_is_counted() {
    let t = numbered();
    assert_eq!(t.scrollback_len(), 7);
    assert_eq!(t.scroll_offset(), 0);
    assert!(t.is_at_bottom());
    assert_eq!(line_of(&t, 0), "line 7");
    assert_eq!(line_of(&t, 2), "line 9");
}

#[test]
fn scrolling_is_clamped() {
    let mut t = numbered();
    t.scroll_up(2);
    assert_eq!(t.scroll_offset(), 2);
    assert_eq!(line_of(&t, 0), "line 5");
    t.scroll_down(1);
    assert_eq!(line_of(&t, 0), "line 6");
    t.scroll_up(usize::MAX);
    assert_eq!(t.scroll_offset(), 7);
    assert_eq!(line_of(&t, 0), "line 0");
    t.scroll_down(100);
    assert!(t.is_at_bottom());
    t.scroll_to_top();
    assert_eq!(t.scroll_offset(), 7);
    assert!(!t.is_at_bottom());
    t.scroll_to_bottom();
    assert_eq!(t.scroll_offset(), 0);
    assert_eq!(line_of(&t, 2), "line 9");
}

#[test]
fn scrolling_down_undoes_scrolling_up() {
    let mut t = numbered();
    t.scroll_up(1);
    let shown = line_of(&t, 1);
    t.scroll_up(4);
    t.scroll_down(4);
    assert_eq!(t.scroll_offset(), 1);
    assert_eq!(line_of(&t, 1), shown);
}

#[test]
fn output_is_the_same_wherever_the_view_is() {
    let mut a = numbered();
    let mut b = numbered();
    b.scroll_up(3);
    for t in [&mut a, &mut b] {
        t.process(b"\r\nmore\r\n\x1b[?1049halt\x1b[?1049lback");
        t.scroll_to_bottom();
    }
    assert_eq!(a.screen().contents(), b.screen().contents());
    assert_eq!(a.scrollback_len(), b.scrollback_len());
}

#[test]
fn the_offset_stays_while_output_comes() {
    let mut t = numbered();
    t.scroll_up(2);
    t.process(b"\r\nnew");
    assert_eq!(t.scroll_offset(), 2);
    assert_eq!(t.scrollback_len(), 8);
    assert_eq!(line_of(&t, 2), "line 8");
}

#[test]
fn every_row_is_searched_once() {
    let mut t = numbered();
    search(&mut t, "LINE");
    let found: Vec<_> = places(&t);
    assert_eq!(
        found,
        vec![
            (7, 0, 0, 4),
            (7, 1, 0, 4),
            (7, 2, 0, 4),
            (6, 2, 0, 4),
            (5, 2, 0, 4),
            (4, 2, 0, 4),
            (3, 2, 0, 4),
            (2, 2, 0, 4),
            (1, 2, 0, 4),
            (0, 2, 0, 4),
        ]
    );
}

#[test]
fn matches_are_where_the_view_shows_them() {
    let mut t = numbered();
    search(&mut t, r"line \d");
    let (_, cols) = t.size();
    for (i, m) in t.search.matches.clone().into_iter().enumerate() {
        t.scroll_to_bottom();
        t.scroll_up(m.scroll_offset);
        assert_eq!(line_of(&t, m.view_row as u16), format!("line {}", i));
        assert!(m.start_col <= cols as usize && m.end_col <= cols as usize);
    }
}

#[test]
fn several_matches_in_a_row_come_left_to_right() {
    let mut t = Terminal::new(3, 20, 10);
    t.process(b"aXbXc");
    search(&mut t, "x");
    assert_eq!(places(&t), vec![(0, 0, 1, 2), (0, 0, 3, 4)]);
}

#[test]
fn columns_are_those_of_the_cells() {
    let mut t = Terminal::new(2, 20, 10);
    t.process("\u{e9}\u{4e2d}ab".as_bytes());
    // One column for the letter, two for the wide character
    search(&mut t, "ab");
    assert_eq!(places(&t), vec![(0, 0, 3, 5)]);
    search(&mut t, "\u{4e2d}");
    assert_eq!(places(&t), vec![(0, 0, 1, 2)]);
    search(&mut t, "\u{e9}.");
    assert_eq!(places(&t), vec![(0, 0, 0, 2)]);
}

#[test]
fn empty_matches_have_columns_too() {
    let mut t = Terminal::new(1, 4, 10);
    t.process(b"ab");
    search(&mut t, "x*");
    assert_eq!(places(&t), vec![(0, 0, 0, 1), (0, 0, 1, 1), (0, 0, 0, 2)]);
}

#[test]
fn forward_search_starts_at_or_below_the_view() {
    let mut t = numbered();
    t.scroll_up(4);
    search(&mut t, "line [2-9]");
    assert_eq!(t.search.matches[t.search.current_match].scroll_offset, 4);
    // Nothing below: the first one
    let mut t = numbered();
    search(&mut t, "line [012]");
    assert_eq!(t.search.current_match, 0);
}

#[test]
fn backward_search_starts_at_or_above_the_view() {
    let mut t = numbered();
    t.search.direction = SearchDirection::Backward;
    t.scroll_up(3);
    search(&mut t, "line");
    assert_eq!(t.search.matches[t.search.current_match].scroll_offset, 3);
    // Nothing above: the last one
    let mut t = numbered();
    t.search.direction = SearchDirection::Backward;
    t.scroll_to_top();
    search(&mut t, "line [89]");
    assert_eq!(t.search.current_match, 1);
}

#[test]
fn a_search_shows_its_match() {
    for direction in [SearchDirection::Forward, SearchDirection::Backward] {
        for start in 0..8 {
            for n in 0..10 {
                let mut t = numbered();
                t.search.direction = direction;
                t.scroll_up(start);
                search(&mut t, &format!("line {}", n));
                assert_eq!(t.search.matches.len(), 1);
                let row = (0..3).find(|r| t.is_current_match(*r, 0)).unwrap();
                assert_eq!(line_of(&t, row as u16), format!("line {}", n));
                assert!(t.is_any_match(row, 5) && !t.is_any_match(row, 6));
                if t.scroll_offset() != 0 && t.scroll_offset() != 7 {
                    assert_eq!(row, 1);
                }
            }
        }
    }
}

#[test]
fn a_search_without_matches_leaves_the_view() {
    let mut t = numbered();
    t.scroll_up(3);
    search(&mut t, "nothing like it");
    assert!(t.search.matches.is_empty());
    assert_eq!(t.search.current_match, 0);
    assert_eq!(t.scroll_offset(), 3);
    assert!(!t.is_current_match(0, 0) && !t.is_any_match(0, 0));
    search(&mut t, "(");
    assert!(t.search.error && t.search.matches.is_empty());
    assert_eq!(t.scroll_offset(), 3);
}

#[test]
fn moves_go_round_and_undo_each_other() {
    let mut t = numbered();
    search(&mut t, "line");
    let n = t.search.matches.len();
    t.search.current_match = 0;
    assert_eq!(t.search.prev_match().unwrap().scroll_offset, 0);
    assert_eq!(t.search.current_match, n - 1);
    assert_eq!(t.search.next_match().unwrap().scroll_offset, 7);
    assert_eq!(t.search.current_match, 0);
    for i in 0..n {
        t.search.current_match = i;
        t.search.next_match();
        t.search.prev_match();
        assert_eq!(t.search.current_match, i);
        t.search.prev_match();
        t.search.next_match();
        assert_eq!(t.search.current_match, i);
    }
}

#[test]
fn backward_searches_move_the_other_way() {
    let mut t = numbered();
    search(&mut t, "line");
    t.search.direction = SearchDirection::Backward;
    t.search.current_match = 4;
    t.search.next_match();
    assert_eq!(t.search.current_match, 3);
    t.search.prev_match();
    assert_eq!(t.search.current_match, 4);
}

#[test]
fn moves_without_matches_do_nothing() {
    let mut s = SearchState::default();
    assert!(s.next_match().is_none());
    assert!(s.prev_match().is_none());
    assert!(s.current().is_none());
    assert_eq!(s.current_match, 0);
}

#[test]
fn scrolling_to_a_match_centers_it() {
    let mut t = Terminal::new(10, 20, 100);
    for i in 0..50 {
        t.process(format!("{}\r\n", i).as_bytes());
    }
    let m = SearchMatch { scroll_offset: 20, view_row: 9, start_col: 0, end_col: 1 };
    t.scroll_to_match(m);
    assert_eq!(t.scroll_offset(), 16);
    let m = SearchMatch { scroll_offset: 0, view_row: 9, start_col: 0, end_col: 1 };
    t.scroll_to_match(m);
    assert_eq!(t.scroll_offset(), 0);
    let m = SearchMatch { scroll_offset: 41, view_row: 0, start_col: 0, end_col: 1 };
    t.scroll_to_match(m);
    assert_eq!(t.scroll_offset(), t.scrollback_len());
}

#[test]
fn clearing_drops_screen_and_scrollback() {
    let mut t = numbered();
    search(&mut t, "line 3");
    t.clear();
    assert_eq!(t.size(), (3, 20));
    assert_eq!(t.scrollback_len(), 0);
    assert!(t.is_at_bottom());
    assert_eq!(t.screen().contents(), "");
    t.scroll_up(5);
    assert_eq!(t.scroll_offset(), 0);
    assert_eq!(t.search.pattern, "line 3");
    // The capacity stays
    for i in 0..200 {
        t.process(format!("{}\r\n", i).as_bytes());
    }
    assert_eq!(t.scrollback_len(), 100);
}

#[test]
fn clearing_keeps_what_comes_next() {
    for lines in [0, 10] {
        let mut t = Terminal::new(3, 20, 100);
        t.process("line\r\n".repeat(lines).as_bytes());
        t.process(b"\x1b[1;31;48;5;200m\x1b[?25l\x1b[?2004h\x1b[?1002h\x1b[?1006h\x1b=\x1b[?1");
        let attributes = t.screen().attributes_formatted();
        let modes = t.screen().input_mode_formatted();
        t.clear();
        assert_eq!(t.screen().contents(), "");
        assert_eq!(t.scrollback_len(), 0);
        assert_eq!(t.screen().attributes_formatted(), attributes);
        assert_eq!(t.screen().input_mode_formatted(), modes);
        assert!(t.screen().hide_cursor());
        assert_eq!(t.screen().cursor_position(), (0, 0));
        t.process(b"x");
        let cell = t.screen().cell(0, 0).unwrap();
        assert_eq!(cell.contents(), "x");
        assert!(cell.bold());
        assert_eq!(cell.fgcolor(), vt100::Color::Idx(1));
        assert_eq!(cell.bgcolor(), vt100::Color::Idx(200));
        // The rest of the screen was erased in the color in force
        assert_eq!(t.screen().cell(2, 5).unwrap().bgcolor(), vt100::Color::Idx(200));
    }
}

#[test]
fn clearing_keeps_what_was_set_before() {
    // A saved cursor
    let mut t = numbered();
    t.process(b"\x1b[2;4H\x1b7");
    t.clear();
    assert_eq!(t.screen().cursor_position(), (0, 0));
    t.process(b"\x1b8");
    assert_eq!(t.screen().cursor_position(), (1, 3));

    // A scroll region and origin mode
    let mut t = numbered();
    t.process(b"\x1b[2;3r\x1b[?6h");
    t.clear();
    assert_eq!(t.screen().cursor_position(), (1, 0));
    t.process(b"a\r\nb\r\nc");
    assert_eq!(t.screen().contents(), "\nb\nc");
    assert_eq!(t.scrollback_len(), 0);

    // The other screen
    let mut t = numbered();
    t.process(b"\x1b[?47hother\x1b[?47l");
    t.clear();
    t.process(b"\x1b[?47h");
    assert_eq!(t.screen().contents(), "other");
}

#[test]
fn clearing_ends_what_was_cut_short() {
    for cut in ["\x1b", "\x1b[3", "\x1b]0;title"] {
        let mut t = numbered();
        t.process(cut.as_bytes());
        t.clear();
        t.process(b"1m");
        assert_eq!(t.screen().contents(), "1m");
    }
    let mut t = numbered();
    t.process(&[0xe4, 0xb8]);
    t.clear();
    t.process(&[0xad, b'x']);
    assert_eq!(t.screen().contents(), "x");
}

#[test]
fn rows_after_clearing_can_be_scrolled_to() {
    let mut t = Terminal::new(3, 20, 5);
    for i in 0..10 {
        t.process(format!("old {}\r\n", i).as_bytes());
    }
    t.clear();
    t.process(b"a\r\nb\r\nc\r\nd\r\ne");
    assert_eq!(t.scrollback_len(), 2);
    t.scroll_up(usize::MAX);
    assert_eq!(t.scroll_offset(), 2);
    assert_eq!(line_of(&t, 0), "a");
    search(&mut t, "old|a");
    assert_eq!(places(&t), vec![(2, 0, 0, 1)]);
    // Through the other screen and back
    t.process(b"\x1b[?1049h1\r\n2\r\n3\r\n4\x1b[?1049l\r\nf");
    assert_eq!(t.scrollback_len(), 3);
    t.process(b"\r\ng\r\nh\r\ni\r\nj");
    assert_eq!(t.scrollback_len(), 5);
    t.scroll_to_top();
    assert_eq!(line_of(&t, 0), "c");
    // A reset empties the history
    t.process(b"\x1bc");
    assert_eq!(t.scrollback_len(), 0);
    t.process(b"k\r\nl\r\nm\r\nn");
    assert_eq!(t.scrollback_len(), 1);
}

#[test]
fn clearing_stays_on_the_other_screen() {
    let mut t = numbered();
    t.process(b"\x1b[?1049hfull");
    t.clear();
    assert_eq!(t.screen().contents(), "");
    assert!(t.screen().alternate_screen());
    t.process(b"\x1b[?1049l");
    assert_eq!(t.scrollback_len(), 7);
    assert_eq!(line_of(&t, 2), "line 9");
}

#[test]
fn clearing_without_columns_does_nothing_more() {
    let mut t = Terminal::new(3, 0, 10);
    t.clear();
    assert_eq!(t.size(), (3, 0));
    assert_eq!(t.scrollback_len(), 0);
}

#[test]
fn matches_come_in_reading_order() {
    let mut t = Terminal::new(3, 20, 100);
    for _ in 0..6 {
        t.process("ab e\u{301}\u{4e2d}ab ab\r\n".as_bytes());
    }
    for pattern in ["ab", "a|b", "[^ ]+", "\u{301}|\u{4e2d}"] {
        search(&mut t, pattern);
        let place = |m: &SearchMatch| m.view_row as isize - m.scroll_offset as isize;
        assert!(t.search.matches.iter().all(|m| m.start_col < m.end_col && m.end_col <= 20));
        for w in t.search.matches.windows(2) {
            let (a, b) = (&w[0], &w[1]);
            assert!(place(a) <= place(b));
            if place(a) == place(b) {
                assert!(a.start_col <= b.start_col && a.end_col <= b.end_col);
            }
        }
    }
}

#[test]
fn a_new_size_keeps_history_and_place() {
    let mut t = numbered();
    t.scroll_up(2);
    t.set_size(4, 10);
    assert_eq!(t.size(), (4, 10));
    assert_eq!(t.scroll_offset(), 2);
    assert_eq!(t.scrollback_len(), 7);
    assert_eq!(line_of(&t, 0), "line 5");
}

#[test]
fn history_is_bounded() {
    let mut t = Terminal::new(2, 5, 3);
    for _ in 0..50 {
        t.process(b"x\r\n");
    }
    assert_eq!(t.scrollback_len(), 3);
    let mut t = Terminal::new(2, 5, 0);
    t.process(b"a\r\nb\r\nc");
    assert_eq!(t.scrollback_len(), 0);
}

#[test]
fn the_other_screen_has_no_history() {
    let mut t = numbered();
    t.scroll_up(3);
    t.process(b"\x1b[?1049h");
    assert_eq!(t.scrollback_len(), 0);
    assert_eq!(t.screen().scrollback(), 0);
    t.process(b"\x1b[?1049l");
    assert_eq!(t.scrollback_len(), 7);
    assert_eq!(t.screen().scrollback(), 3);
}
