use srsly::filter::KernelFilter;
use std::time::Duration;

fn run(filter: &mut KernelFilter, data: &str) -> (String, String) {
    let (app, kernel) = filter.process(data.as_bytes());
    (String::from_utf8(app).unwrap(), String::from_utf8(kernel).unwrap())
}

fn split(data: &str) -> (String, String) {
    run(&mut KernelFilter::new(), data)
}

fn pair(app: &str, kernel: &str) -> (String, String) {
    (app.to_string(), kernel.to_string())
}

#[test]
fn plain_output_passes_at_once() {
    assert_eq!(split("login: "), pair("login: ", ""));
    assert_eq!(split("a\r\nb\n"), pair("a\r\nb\n", ""));
    assert_eq!(split(""), pair("", ""));
}

#[test]
fn kernel_messages_are_taken_out() {
    let line = "[    0.123456] Booting Linux\r\n";
    assert_eq!(split(line), pair("", line));
    assert_eq!(split("[12.5]\n"), pair("", "[12.5]\n"));
    assert_eq!(split("a\n[1.0] x\nb\n"), pair("a\nb\n", "[1.0] x\n"));
}

#[test]
fn other_bracketed_lines_stay() {
    assert_eq!(split("[ OK ] Started\r\n"), pair("[ OK ] Started\r\n", ""));
    assert_eq!(split("[1]\n"), pair("[1]\n", ""));
    assert_eq!(split("[1.]\n"), pair("[1.]\n", ""));
    assert_eq!(split("[.5]\n"), pair("[.5]\n", ""));
    assert_eq!(split("[1.5 ]\n"), pair("[1.5 ]\n", ""));
    assert_eq!(split("[\n"), pair("[\n", ""));
}

#[test]
fn white_space_before_the_number_may_be_any() {
    assert_eq!(split("[\t\u{b}\u{c} 3.1] t\n"), pair("", "[\t\u{b}\u{c} 3.1] t\n"));
    assert_eq!(split("[1 .5]\n"), pair("[1 .5]\n", ""));
}

#[test]
fn a_bracket_within_a_line_begins_nothing() {
    assert_eq!(split("x[ 1.0] y\n"), pair("x[ 1.0] y\n", ""));
    assert_eq!(split("$ [2.5] usb\n[3.5] k\n"), pair("$ [2.5] usb\n", "[3.5] k\n"));
    assert_eq!(split("a\r[1.5] b\n"), pair("a\r[1.5] b\n", ""));
    assert_eq!(split("x[1"), pair("x[1", ""));
}

#[test]
fn lines_do_not_touch_each_other() {
    for (first, app, kernel) in
        [("plain\n", "plain\n", ""), ("[1.5] k\n", "", "[1.5] k\n"), ("[no]\n", "[no]\n", "")]
    {
        let (a, k) = split(&format!("{}[2.5] m\nx", first));
        assert_eq!(a, format!("{}x", app));
        assert_eq!(k, format!("{}[2.5] m\n", kernel));
    }
}

#[test]
fn other_bytes_may_follow_the_timestamp() {
    let mut f = KernelFilter::new();
    let line = b"[ 12.000001] caf\xc3\xa9 \xff\r\n";
    assert_eq!(f.process(line), (vec![], line.to_vec()));
}

#[test]
fn bytes_that_are_no_text_are_kept() {
    let mut f = KernelFilter::new();
    assert_eq!(f.process(&[0, 255, 254, 10]), (vec![0, 255, 254, 10], vec![]));
    assert_eq!(
        f.process(b"[1.5] \xff\xfe\n"),
        (vec![], b"[1.5] \xff\xfe\n".to_vec())
    );
    assert_eq!(f.process(b"[\xff1.5]\n"), (b"[\xff1.5]\n".to_vec(), vec![]));
}

#[test]
fn chunks_make_no_difference() {
    let data = "a[x]\n[3.25] one\r\nb[4.5] two\n[6.5] three\n[5.5";
    let whole = split(data);
    for cut in 0..=data.len() {
        let mut f = KernelFilter::new();
        let (a, k) = run(&mut f, &data[..cut]);
        let (b, l) = run(&mut f, &data[cut..]);
        assert_eq!((a + &b, k + &l), whole);
        assert_eq!(f.flush_pending(), b"[5.5".to_vec());
    }
}

#[test]
fn bytes_one_by_one_make_no_difference() {
    let data = "[1.5] k\r\n[no]\ny[2.5] m\n[";
    let mut f = KernelFilter::new();
    let (mut app, mut kernel) = (String::new(), String::new());
    for i in 0..data.len() {
        let (a, k) = run(&mut f, &data[i..i + 1]);
        app += &a;
        kernel += &k;
    }
    assert_eq!((app, kernel), split(data));
    assert_eq!(f.flush_pending(), b"[".to_vec());
}

#[test]
fn nothing_is_lost() {
    let data = "x\n[1.5] k\n[no]\ny[2\n[3";
    let mut f = KernelFilter::new();
    let (app, kernel) = run(&mut f, data);
    let rest = f.flush_pending();
    assert_eq!(app.len() + kernel.len() + rest.len(), data.len());
    assert_eq!(app, "x\n[no]\ny[2\n");
    assert_eq!(rest, b"[3".to_vec());
    assert_eq!(kernel, "[1.5] k\n");
}

#[test]
fn partial_lines_wait_for_their_deadline() {
    let mut f = KernelFilter::new();
    assert!(f.next_deadline().is_none());
    let before = tokio::time::Instant::now();
    assert_eq!(run(&mut f, "a\n[1"), pair("a\n", ""));
    let after = tokio::time::Instant::now();
    let deadline = f.next_deadline().unwrap();
    assert!(deadline >= before + Duration::from_millis(100));
    assert!(deadline <= after + Duration::from_millis(100));
    // More of the same line does not move it
    assert_eq!(run(&mut f, ".5"), pair("", ""));
    assert_eq!(f.next_deadline(), Some(deadline));
    assert_eq!(f.flush_pending(), b"[1.5".to_vec());
    assert!(f.next_deadline().is_none());
    assert_eq!(f.flush_pending(), Vec::<u8>::new());
    // The rest of a flushed line is plain, brackets too
    assert_eq!(run(&mut f, "] x[2.5] y\n"), pair("] x[2.5] y\n", ""));
    assert_eq!(run(&mut f, "[2.5] y\n"), pair("", "[2.5] y\n"));
    // A flush of nothing leaves the line start
    assert_eq!(f.flush_pending(), Vec::<u8>::new());
    assert_eq!(run(&mut f, "[3.5] z\n"), pair("", "[3.5] z\n"));
}

#[test]
fn the_deadline_counts_from_a_given_time() {
    let mut f = KernelFilter::new();
    let at = tokio::time::Instant::now();
    f.begin_line(at);
    assert_eq!(f.next_deadline(), Some(at + Duration::from_millis(100)));
    assert_eq!(f.flush_pending(), b"[".to_vec());
}

#[test]
fn a_whole_line_ends_the_wait() {
    let mut f = KernelFilter::new();
    run(&mut f, "[1.5] x");
    assert!(f.next_deadline().is_some());
    assert_eq!(run(&mut f, "\n"), pair("", "[1.5] x\n"));
    assert!(f.next_deadline().is_none());
}
