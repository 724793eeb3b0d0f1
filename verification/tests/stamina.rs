use srsly::terminal::Terminal;

/// A small generator, so that every run is the same.
struct Numbers(u64);

impl Numbers {
    fn next(&mut self, below: u64) -> u64 {
        self.0 = self.0.wrapping_mul(6364136223846793005).wrapping_add(1442695040888963407);
        (self.0 >> 33) % below
    }
}

/// A piece of terminal output: text, control characters and escape sequences.
fn piece(n: &mut Numbers, out: &mut Vec<u8>) {
    match n.next(13) {
        0 => out.extend_from_slice("\u{4e2d}".as_bytes()),
        1 => out.extend_from_slice("e\u{301}".as_bytes()),
        2 => out.push(n.next(32) as u8),
        3 => out.push(n.next(256) as u8),
        12 => out.extend_from_slice("\u{17d8}".as_bytes()),
        4 => out.extend_from_slice(b"text"),
        5 => {
            out.push(27);
            out.push(b"78DEHMcZ=>()#"[n.next(13) as usize]);
        }
        _ => {
            out.extend_from_slice(b"\x1b[");
            if n.next(3) == 0 {
                out.push(b'?');
            }
            for i in 0..n.next(4) {
                if i > 0 {
                    out.push(b';');
                }
                let value = match n.next(40) {
                    0 => [100, 1000, 65535][n.next(3) as usize],
                    1..=10 => [1, 6, 25, 47, 1049, 2004, 1000][n.next(7) as usize],
                    _ => n.next(9),
                };
                out.extend_from_slice(value.to_string().as_bytes());
            }
            let last = b"@ABCDEFGHIJKLMPSTXZ`abcdefghlmnqrsu";
            out.push(last[n.next(last.len() as u64) as usize]);
        }
    }
}

#[test]
fn terminals_take_any_output() {
    for seed in 0..15u64 {
        let mut n = Numbers(seed * 977 + 1);
        let (rows, cols) = (2 + n.next(5) as u16, 3 + n.next(9) as u16);
        let mut t = Terminal::new(rows, cols, n.next(20) as usize);
        let (mut rows, mut cols) = (rows, cols);
        for _ in 0..60 {
            let mut data = Vec::new();
            for _ in 0..20 {
                piece(&mut n, &mut data);
            }
            t.process(&data);
            t.scroll_up(n.next(8) as usize);
            assert_eq!(t.size(), (rows, cols));
            assert!(t.scroll_offset() <= t.scrollback_len());
            if n.next(10) == 0 {
                rows = 2 + n.next(6) as u16;
                cols += n.next(2) as u16;
                t.set_size(rows, cols);
            }
        }
    }
}

#[test]
fn the_widest_character_fits_in_three_columns() {
    let mut t = Terminal::new(2, 3, 10);
    for start in ["", "a", "ab", "abc"] {
        t.process(start.as_bytes());
        t.process("\u{17d8}".as_bytes());
        t.process(b"\r\n");
    }
    assert_eq!(t.size(), (2, 3));
}

#[test]
fn clearing_is_always_taken() {
    for seed in 0..40u64 {
        let mut n = Numbers(seed * 71 + 5);
        let mut t = Terminal::new(2 + n.next(4) as u16, 3 + n.next(9) as u16, n.next(9) as usize);
        for _ in 0..20 {
            let mut data = Vec::new();
            for _ in 0..10 {
                piece(&mut n, &mut data);
            }
            // Cut short anywhere
            data.truncate(n.next(data.len() as u64 + 1) as usize);
            t.process(&data);
            let hidden = t.screen().hide_cursor();
            let attributes = t.screen().attributes_formatted();
            let modes = t.screen().input_mode_formatted();
            t.clear();
            assert_eq!(t.screen().contents(), "");
            assert_eq!((t.scroll_offset(), t.scrollback_len()), (0, 0));
            assert_eq!(t.screen().hide_cursor(), hidden);
            assert_eq!(t.screen().attributes_formatted(), attributes);
            assert_eq!(t.screen().input_mode_formatted(), modes);
        }
    }
}

#[test]
fn ascii_output_outlasts_any_size() {
    for seed in 0..15u64 {
        let mut n = Numbers(seed * 53 + 3);
        let mut t = Terminal::new(10, 40, 12);
        for _ in 0..40 {
            let mut data = Vec::new();
            for _ in 0..20 {
                piece(&mut n, &mut data);
            }
            data.retain(|b| *b < 128);
            t.process(&data);
            t.set_size(2 + n.next(12) as u16, 3 + n.next(50) as u16);
        }
    }
}

#[test]
fn scrolling_never_changes_what_output_does() {
    for seed in 0..15u64 {
        let mut n = Numbers(seed * 31 + 7);
        let mut still = Terminal::new(4, 10, 15);
        let mut moved = Terminal::new(4, 10, 15);
        for _ in 0..40 {
            let mut data = Vec::new();
            for _ in 0..10 {
                piece(&mut n, &mut data);
            }
            moved.scroll_up(n.next(20) as usize);
            moved.scroll_down(n.next(5) as usize);
            still.process(&data);
            moved.process(&data);
            assert_eq!(still.scrollback_len(), moved.scrollback_len());
            let place = n.next(20) as usize;
            for t in [&mut still, &mut moved] {
                t.scroll_to_bottom();
                t.scroll_up(place);
            }
            assert_eq!(still.screen().contents_formatted(), moved.screen().contents_formatted());
            assert_eq!(still.screen().cursor_position(), moved.screen().cursor_position());
            still.scroll_to_bottom();
        }
    }
}

/// Some output in which every character is whole.
fn whole_output(n: &mut Numbers) -> Vec<u8> {
    let mut data = Vec::new();
    for _ in 0..10 {
        piece(n, &mut data);
    }
    if std::str::from_utf8(&data).is_err() {
        data.retain(|b| *b < 128);
    }
    data
}

#[test]
fn cleared_rows_never_come_back() {
    for seed in 0..60u64 {
        let mut n = Numbers(seed * 37 + 11);
        let (rows, cols) = (2 + n.next(4) as u16, 3 + n.next(9) as u16);
        let capacity = n.next(12) as usize;
        let mut fresh = Terminal::new(rows, cols, capacity);
        let mut cleared = Terminal::new(rows, cols, capacity);
        for _ in 0..n.next(20) {
            cleared.process(b"old\r\n");
        }
        cleared.clear();
        for _ in 0..12 {
            let mut data = whole_output(&mut n);
            // Rows that scroll off one by one and many at once
            match n.next(4) {
                0 => data.extend_from_slice(b"new\r\nnew\r\nnew\r\n"),
                1 => data.extend_from_slice(b"\x1b[r\x1b[9S"),
                _ => {}
            }
            fresh.process(&data);
            cleared.process(&data);
            assert_eq!(cleared.scrollback_len(), fresh.scrollback_len());
            for place in 0..=fresh.scrollback_len() {
                for t in [&mut fresh, &mut cleared] {
                    t.scroll_to_bottom();
                    t.scroll_up(place);
                }
                assert_eq!(
                    cleared.screen().contents_formatted(),
                    fresh.screen().contents_formatted()
                );
            }
            for t in [&mut fresh, &mut cleared] {
                t.search.set_pattern("[a-z]+".to_string());
                t.update_search_matches();
            }
            assert_eq!(cleared.search.matches.len(), fresh.search.matches.len());
            for (a, b) in cleared.search.matches.iter().zip(&fresh.search.matches) {
                assert_eq!((a.scroll_offset, a.view_row), (b.scroll_offset, b.view_row));
                assert_eq!((a.start_col, a.end_col), (b.start_col, b.end_col));
            }
        }
    }
}

#[test]
fn clearing_changes_no_more_than_the_screen() {
    for seed in 0..60u64 {
        let mut n = Numbers(seed * 13 + 29);
        let (rows, cols) = (2 + n.next(4) as u16, 3 + n.next(9) as u16);
        let mut t = Terminal::new(rows, cols, 10);
        let mut emulator = vt100::Parser::new(rows, cols, 10);
        for _ in 0..15 {
            let data = whole_output(&mut n);
            t.process(&data);
            emulator.process(&data);
            if n.next(3) == 0 {
                t.clear();
                emulator.process(b"\x1b[2J\x1b[H\x1b[3J");
            }
            let shown = t.screen();
            assert_eq!(shown.contents_formatted(), emulator.screen().contents_formatted());
            assert_eq!(shown.attributes_formatted(), emulator.screen().attributes_formatted());
            assert_eq!(shown.input_mode_formatted(), emulator.screen().input_mode_formatted());
            assert_eq!(shown.cursor_position(), emulator.screen().cursor_position());
            assert_eq!(shown.hide_cursor(), emulator.screen().hide_cursor());
            assert_eq!(shown.alternate_screen(), emulator.screen().alternate_screen());
        }
    }
}
