//! Separating kernel messages from application output in a serial stream.

use vstd::prelude::*;

use crate::clock::{after, instant_after, now};
use crate::pattern::{
    ascii_digit, ascii_space, build_bytes, bytes_match, bytes_regex, kernel_pattern,
    matches_bytes, starts_with_timestamp, timestamp_at,
};
use crate::text::ascii_bytes;

verus! {

/// How long, in milliseconds, a partial line may wait for its end.
pub const FLUSH_TIMEOUT_MS: u64 = 100;

/// The byte `[`.
pub const OPEN_BRACKET: u8 = 91;

/// The byte `\n`.
pub const LINE_FEED: u8 = 10;

/// The byte `\r`.
pub const CARRIAGE_RETURN: u8 = 13;

/// Filters serial data, separating kernel messages from app output.
///
/// Lines starting with `[` are buffered as potential kernel messages. If the
/// line matches the kernel pattern (e.g., `[    0.123456] ...`), it goes to
/// kernel output. Otherwise, it's flushed to app output.
///
/// A timeout ensures partial lines don't get stuck forever.
pub struct KernelFilter {
    kernel_pattern: regex::bytes::Regex,
    /// Buffer for a line that might be a kernel message (starts with `[`).
    pending_line: Vec<u8>,
    /// When the pending line started accumulating.
    pending_since: Option<tokio::time::Instant>,
    /// Whether the next byte is the first of a line.
    at_line_start: bool,
}

/// A line without its line end, `\r\n` or `\n`.
pub open spec fn without_line_end(line: Seq<u8>) -> Seq<u8> {
    if line.len() >= 2 && line[line.len() - 2] == CARRIAGE_RETURN && line.last() == LINE_FEED {
        line.subrange(0, line.len() - 2)
    } else if line.len() >= 1 && line.last() == LINE_FEED {
        line.drop_last()
    } else {
        line
    }
}

/// Whether a line is a kernel message: its content matches the kernel pattern.
pub open spec fn is_kernel_line(line: Seq<u8>) -> bool {
    bytes_match(bytes_regex(kernel_pattern())->0, without_line_end(line))
}

/// What a stretch of serial data came to: the line still pending after it, whether
/// what went out before that line was whole lines, and what went to the application
/// and to the kernel pane.
#[verifier::ext_equal]
pub struct Separated {
    pub pending: Seq<u8>,
    pub fresh: bool,
    pub app: Seq<u8>,
    pub kernel: Seq<u8>,
}

/// Where one more byte goes. At the start of a line `[` begins a pending line; with
/// nothing pending any other byte is the application's, and so is a `[` further on in
/// a line. A pending line takes every byte, and on the line feed goes as a whole to
/// the kernel's side or the application's.
pub open spec fn separate_byte(s: Separated, byte: u8) -> Separated {
    let line = s.pending.push(byte);
    if s.pending.len() == 0 && !(s.fresh && byte == OPEN_BRACKET) {
        Separated { app: s.app.push(byte), fresh: byte == LINE_FEED, ..s }
    } else if s.pending.len() == 0 || byte != LINE_FEED {
        Separated { pending: line, ..s }
    } else if is_kernel_line(line) {
        Separated { pending: seq![], fresh: true, kernel: s.kernel + line, ..s }
    } else {
        Separated { pending: seq![], fresh: true, app: s.app + line, ..s }
    }
}

/// What data comes to when a line is pending before it, or when what went before it
/// ended a line or did not.
pub open spec fn separate(pending: Seq<u8>, fresh: bool, data: Seq<u8>) -> Separated
    decreases data.len(),
{
    if data.len() == 0 {
        Separated { pending, fresh, app: seq![], kernel: seq![] }
    } else {
        separate_byte(separate(pending, fresh, data.drop_last()), data.last())
    }
}

/// What can be pending: nothing, or the start of a line that begins with `[`.
pub open spec fn pending_ok(pending: Seq<u8>) -> bool {
    &&& pending.len() > 0 ==> pending[0] == OPEN_BRACKET
    &&& !pending.contains(LINE_FEED)
}

/// Kernel output is made of whole lines, each a kernel message that begins with
/// `[` and has a line feed at its end alone.
pub open spec fn kernel_lines(out: Seq<u8>) -> bool
    decreases out.len(),
{
    out.len() == 0 || exists|n: int| #[trigger]
        kernel_line_from(out, n) && kernel_lines(out.subrange(0, n))
}

/// Whether the bytes from `n` on are one kernel message.
pub open spec fn kernel_line_from(out: Seq<u8>, n: int) -> bool {
    let line = out.subrange(n, out.len() as int);
    &&& 0 <= n < out.len()
    &&& line.last() == LINE_FEED
    &&& pending_ok(line.drop_last())
    &&& line.len() > 1
    &&& is_kernel_line(line)
}

impl KernelFilter {
    /// The line that is pending.
    pub closed spec fn pending(&self) -> Seq<u8> {
        self.pending_line@
    }

    /// Whether what went out so far ended with a whole line.
    pub closed spec fn fresh(&self) -> bool {
        self.at_line_start
    }

    /// When the pending line was begun.
    pub closed spec fn since(&self) -> Option<tokio::time::Instant> {
        self.pending_since
    }

    /// The deadline of the pending line, if there is one: that long after the time at
    /// which it was begun.
    pub open spec fn deadline(&self) -> Option<tokio::time::Instant> {
        match self.since() {
            Some(started) => instant_after(started, FLUSH_TIMEOUT_MS),
            None => None,
        }
    }

    /// The filter's pattern is the kernel pattern, a line is pending from its start
    /// only, and there is a time exactly while one is.
    pub closed spec fn wf(&self) -> bool {
        &&& bytes_regex(kernel_pattern()) == Some(self.kernel_pattern)
        &&& forall|line: Seq<u8>|
            ascii_bytes(line) ==> bytes_match(self.kernel_pattern, line) == starts_with_timestamp(
                line,
            )
        &&& forall|line: Seq<u8>|
            starts_with_timestamp(line) ==> bytes_match(self.kernel_pattern, line)
        &&& pending_ok(self.pending_line@)
        &&& self.pending_line@.len() > 0 ==> self.at_line_start
        &&& self.pending_since is Some <==> self.pending_line@.len() > 0
    }

    /// A filter with nothing pending.
    pub fn new() -> (f: Self)
        ensures
            f.wf(),
            f.pending() == Seq::<u8>::empty(),
            f.fresh(),
            f.since() is None,
    {
        let kernel_pattern = build_bytes("^\\[\\s*\\d+\\.\\d+\\]").expect("invalid kernel regex");
        KernelFilter { kernel_pattern, pending_line: Vec::new(), pending_since: None, at_line_start: true }
    }

    /// Process incoming data, returning (app_data, kernel_data).
    pub fn process(&mut self, data: &[u8]) -> (r: (Vec<u8>, Vec<u8>))
        requires
            old(self).wf(),
        ensures
            final(self).wf(),
            ({
                let s = separate(old(self).pending(), old(self).fresh(), data@);
                &&& final(self).pending() == s.pending
                &&& final(self).fresh() == s.fresh
                &&& r.0@ == s.app
                &&& r.1@ == s.kernel
            }),
            final(self).since() is Some <==> final(self).pending().len() > 0,
            old(self).pending().len() > 0 && !data@.contains(LINE_FEED) ==> final(self).since()
                == old(self).since(),
    {
        let mut app_data: Vec<u8> = Vec::new();
        let mut kernel_data: Vec<u8> = Vec::new();
        let mut i: usize = 0;
        while i < data.len()
            invariant
                i <= data@.len(),
                self.wf(),
                ({
                    let s = separate(
                        old(self).pending(),
                        old(self).fresh(),
                        data@.take(i as int),
                    );
                    &&& self.pending() == s.pending
                    &&& self.fresh() == s.fresh
                    &&& app_data@ == s.app
                    &&& kernel_data@ == s.kernel
                }),
                !data@.take(i as int).contains(LINE_FEED) && old(self).pending().len() > 0
                    ==> self.since() == old(self).since() && self.pending().len() > 0,
            decreases data@.len() - i,
        {
            let ghost before = data@.take(i as int);
            let ghost after = data@.take(i + 1);
            assert(after.drop_last() =~= before);
            assert(after.last() == data@[i as int]);
            assert(!after.contains(LINE_FEED) ==> !before.contains(LINE_FEED) && data@[i as int]
                != LINE_FEED) by {
                if !after.contains(LINE_FEED) {
                    assert(after[i as int] != LINE_FEED);
                    assert forall|j: int| 0 <= j < i implies before[j] != LINE_FEED by {
                        assert(after[j] != LINE_FEED);
                    }
                }
            }
            self.process_byte(data[i], &mut app_data, &mut kernel_data);
            i = i + 1;
        }
        assert(data@.take(i as int) =~= data@);
        (app_data, kernel_data)
    }

    /// Takes one byte; a line that it begins is pending since now.
    fn process_byte(&mut self, byte: u8, app_data: &mut Vec<u8>, kernel_data: &mut Vec<u8>)
        requires
            old(self).wf(),
        ensures
            final(self).wf(),
            (Separated {
                pending: final(self).pending(),
                fresh: final(self).fresh(),
                app: final(app_data)@,
                kernel: final(kernel_data)@,
            }) == separate_byte(
                Separated {
                    pending: old(self).pending(),
                    fresh: old(self).fresh(),
                    app: old(app_data)@,
                    kernel: old(kernel_data)@,
                },
                byte,
            ),
            old(self).pending().len() > 0 && byte != LINE_FEED ==> final(self).since() == old(
                self,
            ).since(),
    {
        if self.pending_line.len() > 0 {
            let ghost before = self.pending_line@;
            self.pending_line.push(byte);
            assert forall|j: int| 0 <= j < before.len() implies before[j] != LINE_FEED by {
                assert(before.contains(before[j]));
            }
            if byte == LINE_FEED {
                let mut line: Vec<u8> = Vec::new();
                std::mem::swap(&mut line, &mut self.pending_line);
                self.pending_since = None;
                if self.is_kernel_message(&line) {
                    append_bytes(kernel_data, &line);
                } else {
                    append_bytes(app_data, &line);
                }
            }
        } else if byte == OPEN_BRACKET && self.at_line_start {
            let at = now();
            self.begin_line(at);
        } else {
            app_data.push(byte);
            self.at_line_start = byte == LINE_FEED;
        }
    }

    /// Begins a pending line with `[`, pending since the given time.
    pub fn begin_line(&mut self, at: tokio::time::Instant)
        requires
            old(self).wf(),
            old(self).pending().len() == 0,
            old(self).fresh(),
        ensures
            final(self).wf(),
            final(self).pending() == seq![OPEN_BRACKET],
            final(self).fresh(),
            final(self).since() == Some(at),
    {
        self.pending_line.push(OPEN_BRACKET);
        self.pending_since = Some(at);
        assert(self.pending_line@ =~= seq![OPEN_BRACKET]);
    }

    /// Whether a whole line is a kernel message.
    fn is_kernel_message(&self, line: &Vec<u8>) -> (r: bool)
        requires
            bytes_regex(kernel_pattern()) == Some(self.kernel_pattern),
        ensures
            r == is_kernel_line(line@),
    {
        let n: usize = line.len();
        let end: usize = if n >= 2 && line[n - 2] == CARRIAGE_RETURN && line[n - 1] == LINE_FEED {
            n - 2
        } else if n >= 1 && line[n - 1] == LINE_FEED {
            n - 1
        } else {
            n
        };
        let content = vstd::slice::slice_subrange(line.as_slice(), 0, end);
        assert(content@ =~= without_line_end(line@));
        matches_bytes(&self.kernel_pattern, content)
    }

    /// Flush pending data. Called when the timeout fires.
    /// Returns data to send to app terminal. The rest of a flushed line follows it.
    pub fn flush_pending(&mut self) -> (r: Vec<u8>)
        requires
            old(self).wf(),
        ensures
            final(self).wf(),
            r@ == old(self).pending(),
            final(self).pending() == Seq::<u8>::empty(),
            final(self).fresh() == (old(self).fresh() && old(self).pending().len() == 0),
            final(self).since() is None,
    {
        self.pending_since = None;
        if self.pending_line.len() > 0 {
            self.at_line_start = false;
        }
        let mut line: Vec<u8> = Vec::new();
        std::mem::swap(&mut line, &mut self.pending_line);
        line
    }

    /// Returns the deadline for the next flush, if there's a pending line. A
    /// deadline past the end of the clock is none.
    pub fn next_deadline(&self) -> (r: Option<tokio::time::Instant>)
        ensures
            r == self.deadline(),
    {
        match self.pending_since {
            Some(started) => after(started, FLUSH_TIMEOUT_MS),
            None => None,
        }
    }
}

/// Appends bytes to others.
fn append_bytes(to: &mut Vec<u8>, bytes: &Vec<u8>)
    ensures
        final(to)@ == old(to)@ + bytes@,
{
    let mut i: usize = 0;
    while i < bytes.len()
        invariant
            i <= bytes@.len(),
            to@ == old(to)@ + bytes@.take(i as int),
        decreases bytes@.len() - i,
    {
        to.push(bytes[i]);
        assert(bytes@.take(i + 1) =~= bytes@.take(i as int).push(bytes@[i as int]));
        i = i + 1;
    }
    assert(bytes@.take(i as int) =~= bytes@);
}

/// Cutting the data into chunks makes no difference: two chunks one after the
/// other leave the same line pending, and put out together, what both at once
/// would.
pub proof fn law_chunks(pending: Seq<u8>, fresh: bool, first: Seq<u8>, second: Seq<u8>)
    ensures
        ({
            let a = separate(pending, fresh, first);
            let b = separate(a.pending, a.fresh, second);
            separate(pending, fresh, first + second) == (Separated {
                pending: b.pending,
                fresh: b.fresh,
                app: a.app + b.app,
                kernel: a.kernel + b.kernel,
            })
        }),
    decreases second.len(),
{
    if second.len() == 0 {
        assert(first + second =~= first);
        let a = separate(pending, fresh, first);
        assert(a.app + Seq::<u8>::empty() =~= a.app);
        assert(a.kernel + Seq::<u8>::empty() =~= a.kernel);
    } else {
        law_chunks(pending, fresh, first, second.drop_last());
        assert((first + second).drop_last() =~= first + second.drop_last());
        assert((first + second).last() == second.last());
        let a = separate(pending, fresh, first);
        let b = separate(a.pending, a.fresh, second.drop_last());
        let line = b.pending.push(second.last());
        assert((a.app + b.app).push(second.last()) =~= a.app + b.app.push(second.last()));
        assert((a.app + b.app) + line =~= a.app + (b.app + line));
        assert((a.kernel + b.kernel) + line =~= a.kernel + (b.kernel + line));
    }
}

/// Chunks of data, one behind the other.
pub open spec fn joined(chunks: Seq<Seq<u8>>) -> Seq<u8>
    decreases chunks.len(),
{
    if chunks.len() == 0 {
        seq![]
    } else {
        joined(chunks.drop_last()) + chunks.last()
    }
}

/// What chunks come to that are taken one after the other.
pub open spec fn separate_chunks(pending: Seq<u8>, fresh: bool, chunks: Seq<Seq<u8>>) -> Separated
    decreases chunks.len(),
{
    if chunks.len() == 0 {
        Separated { pending, fresh, app: seq![], kernel: seq![] }
    } else {
        let a = separate_chunks(pending, fresh, chunks.drop_last());
        let b = separate(a.pending, a.fresh, chunks.last());
        Separated {
            pending: b.pending,
            fresh: b.fresh,
            app: a.app + b.app,
            kernel: a.kernel + b.kernel,
        }
    }
}

/// However a stream is cut into chunks, it comes to the same.
pub proof fn law_any_chunks(pending: Seq<u8>, fresh: bool, chunks: Seq<Seq<u8>>)
    ensures
        separate_chunks(pending, fresh, chunks) == separate(pending, fresh, joined(chunks)),
    decreases chunks.len(),
{
    if chunks.len() > 0 {
        law_any_chunks(pending, fresh, chunks.drop_last());
        law_chunks(pending, fresh, joined(chunks.drop_last()), chunks.last());
    }
}

/// Whether a stream is made of two others, each with its bytes in order.
pub open spec fn interleaved(whole: Seq<u8>, a: Seq<u8>, b: Seq<u8>) -> bool
    decreases whole.len(),
{
    if whole.len() == 0 {
        a.len() == 0 && b.len() == 0
    } else {
        ||| a.len() > 0 && a.last() == whole.last() && interleaved(
            whole.drop_last(),
            a.drop_last(),
            b,
        )
        ||| b.len() > 0 && b.last() == whole.last() && interleaved(
            whole.drop_last(),
            a,
            b.drop_last(),
        )
    }
}

/// A stream goes on as either of its parts goes on.
proof fn lemma_interleaved_extends(whole: Seq<u8>, a: Seq<u8>, b: Seq<u8>, more: Seq<u8>)
    requires
        interleaved(whole, a, b),
    ensures
        interleaved(whole + more, a + more, b),
        interleaved(whole + more, a, b + more),
    decreases more.len(),
{
    if more.len() == 0 {
        assert(whole + more =~= whole);
        assert(a + more =~= a);
        assert(b + more =~= b);
    } else {
        lemma_interleaved_extends(whole, a, b, more.drop_last());
        assert((whole + more).drop_last() =~= whole + more.drop_last());
        assert((a + more).drop_last() =~= a + more.drop_last());
        assert((b + more).drop_last() =~= b + more.drop_last());
    }
}

/// No byte is lost, made up, changed or overtaken: what was pending and what came
/// in is the two outputs, interleaved, and then what is pending now.
pub proof fn law_nothing_is_lost(pending: Seq<u8>, fresh: bool, data: Seq<u8>)
    ensures
        ({
            let s = separate(pending, fresh, data);
            let whole = pending + data;
            &&& s.pending.len() <= whole.len()
            &&& whole.skip(whole.len() - s.pending.len()) == s.pending
            &&& interleaved(whole.take(whole.len() - s.pending.len()), s.app, s.kernel)
        }),
    decreases data.len(),
{
    let whole = pending + data;
    if data.len() == 0 {
        assert(whole.skip(0) =~= pending);
        assert(whole.take(0) =~= seq![]);
    } else {
        law_nothing_is_lost(pending, fresh, data.drop_last());
        let t = separate(pending, fresh, data.drop_last());
        let s = separate(pending, fresh, data);
        let before = pending + data.drop_last();
        let done = before.take(before.len() - t.pending.len());
        let line = t.pending.push(data.last());
        assert(before =~= done + t.pending);
        assert(whole =~= before.push(data.last()));
        assert(whole =~= done + line);
        lemma_interleaved_extends(done, t.app, t.kernel, line);
        if t.pending.len() == 0 && !(t.fresh && data.last() == OPEN_BRACKET) {
            assert(line =~= seq![data.last()]);
            assert(s.app =~= t.app + line);
            assert(whole.take(whole.len() as int) =~= done + line);
            assert(whole.skip(whole.len() as int) =~= s.pending);
        } else if t.pending.len() == 0 || data.last() != LINE_FEED {
            assert(whole.take(whole.len() - line.len()) =~= done);
            assert(whole.skip(whole.len() - line.len()) =~= line);
        } else {
            assert(whole.take(whole.len() as int) =~= done + line);
            assert(whole.skip(whole.len() as int) =~= s.pending);
        }
    }
}

/// A flush puts out what is pending, so that nothing that came in stays behind:
/// the output of all the data and then the flush is the data, interleaved.
pub proof fn law_flush_completes(data: Seq<u8>)
    ensures
        ({
            let s = separate(seq![], true, data);
            interleaved(data, s.app + s.pending, s.kernel)
        }),
{
    law_nothing_is_lost(seq![], true, data);
    let s = separate(seq![], true, data);
    assert(Seq::<u8>::empty() + data =~= data);
    let done = data.take(data.len() - s.pending.len());
    lemma_interleaved_extends(done, s.app, s.kernel, s.pending);
    assert(data =~= done + s.pending);
}

/// Data without an opening bracket passes straight through to the application
/// when nothing is pending.
pub proof fn law_plain_data_passes(fresh: bool, data: Seq<u8>)
    requires
        !data.contains(OPEN_BRACKET),
    ensures
        separate(seq![], fresh, data) == (Separated {
            pending: seq![],
            fresh: if data.len() == 0 {
                fresh
            } else {
                data.last() == LINE_FEED
            },
            app: data,
            kernel: seq![],
        }),
    decreases data.len(),
{
    if data.len() > 0 {
        assert(data.contains(data.last()));
        assert forall|i: int| 0 <= i < data.len() - 1 implies data.drop_last()[i]
            != OPEN_BRACKET by {
            assert(data.contains(data[i]));
        }
        law_plain_data_passes(fresh, data.drop_last());
        assert(data.drop_last().push(data.last()) =~= data);
    }
}

/// Within a line that has begun to go out, everything passes straight through to the
/// application, brackets too.
pub proof fn law_rest_of_a_line_passes(data: Seq<u8>)
    requires
        !data.contains(LINE_FEED),
    ensures
        separate(seq![], false, data) == (Separated {
            pending: seq![],
            fresh: false,
            app: data,
            kernel: seq![],
        }),
    decreases data.len(),
{
    if data.len() > 0 {
        assert(data.contains(data.last()));
        assert forall|i: int| 0 <= i < data.len() - 1 implies data.drop_last()[i]
            != LINE_FEED by {
            assert(data.contains(data[i]));
        }
        law_rest_of_a_line_passes(data.drop_last());
        assert(data.drop_last().push(data.last()) =~= data);
    }
}

/// One byte keeps what can be pending. Neither output loses or changes anything, at
/// most one of them grows, and the kernel's only by a pending line at its line feed.
pub proof fn law_one_byte(s: Separated, byte: u8)
    requires
        pending_ok(s.pending),
        s.pending.len() > 0 ==> s.fresh,
    ensures
        ({
            let t = separate_byte(s, byte);
            &&& pending_ok(t.pending)
            &&& t.pending.len() > 0 ==> t.fresh
            &&& s.app.is_prefix_of(t.app) && s.kernel.is_prefix_of(t.kernel)
            &&& t.app == s.app || t.kernel == s.kernel
            &&& t.kernel != s.kernel ==> byte == LINE_FEED && s.pending.len() > 0
        }),
{
    let t = separate_byte(s, byte);
    let line = s.pending.push(byte);
    assert(s.app.is_prefix_of(s.app + line));
    assert(s.kernel.is_prefix_of(s.kernel + line));
    assert(s.app.is_prefix_of(s.app.push(byte)));
    assert forall|i: int| 0 <= i < t.pending.len() implies t.pending[i] != LINE_FEED by {
        if i < s.pending.len() {
            assert(s.pending.contains(s.pending[i]));
        }
    }
}

/// What is pending never holds a line end and begins with `[`, and the kernel's
/// side gets whole kernel messages and nothing else.
pub proof fn law_kernel_output_is_kernel_lines(pending: Seq<u8>, fresh: bool, data: Seq<u8>)
    requires
        pending_ok(pending),
    ensures
        pending_ok(separate(pending, fresh, data).pending),
        kernel_lines(separate(pending, fresh, data).kernel),
    decreases data.len(),
{
    if data.len() > 0 {
        law_kernel_output_is_kernel_lines(pending, fresh, data.drop_last());
        let t = separate(pending, fresh, data.drop_last());
        let line = t.pending.push(data.last());
        assert(line.drop_last() =~= t.pending);
        if t.pending.len() > 0 && data.last() == LINE_FEED && is_kernel_line(line) {
            let out = t.kernel + line;
            let n = t.kernel.len() as int;
            assert(out.subrange(n, out.len() as int) =~= line);
            assert(out.subrange(0, n) =~= t.kernel);
            assert(kernel_line_from(out, n));
        } else if data.last() != LINE_FEED {
            assert forall|i: int| 0 <= i < line.len() implies line[i] != LINE_FEED by {
                if i < t.pending.len() {
                    assert(t.pending.contains(t.pending[i]));
                }
            }
        }
    }
}

/// While its line end has not come, a line that begins with `[` is pending.
proof fn lemma_line_start_is_pending(start: Seq<u8>)
    requires
        start.len() > 0,
        pending_ok(start),
    ensures
        separate(seq![], true, start) == (Separated {
            pending: start,
            fresh: true,
            app: seq![],
            kernel: seq![],
        }),
    decreases start.len(),
{
    assert(start.drop_last().push(start.last()) =~= start);
    assert(start.contains(start.last()));
    if start.len() == 1 {
        assert(start.drop_last() =~= seq![]);
        assert(separate(seq![], true, start.drop_last()).pending =~= seq![]);
    } else {
        assert forall|i: int| 0 <= i < start.len() - 1 implies start.drop_last()[i]
            != LINE_FEED by {
            assert(start.contains(start[i]));
        }
        lemma_line_start_is_pending(start.drop_last());
    }
}

/// A whole line goes to one side as it is, and the next byte begins a line again: it
/// is the kernel's if it begins with `[` and is a kernel message, else the
/// application's.
pub proof fn law_lines_stay_whole(start: Seq<u8>)
    requires
        !start.contains(LINE_FEED),
    ensures
        ({
            let line = start.push(LINE_FEED);
            separate(seq![], true, line) == (if line[0] == OPEN_BRACKET && is_kernel_line(line) {
                Separated { pending: seq![], fresh: true, app: seq![], kernel: line }
            } else {
                Separated { pending: seq![], fresh: true, app: line, kernel: seq![] }
            })
        }),
{
    let line = start.push(LINE_FEED);
    assert(line.drop_last() =~= start);
    assert(Seq::<u8>::empty() + line =~= line);
    if start.len() == 0 {
        let a = separate(seq![], true, start);
        assert(a == (Separated { pending: seq![], fresh: true, app: seq![], kernel: seq![] }));
        assert(Seq::<u8>::empty().push(LINE_FEED) =~= line);
    } else if start[0] == OPEN_BRACKET {
        lemma_line_start_is_pending(start);
    } else {
        let head = seq![start[0]];
        let rest = start.skip(1);
        assert(start.contains(start[0]));
        assert forall|i: int| 0 <= i < rest.len() implies rest[i] != LINE_FEED by {
            assert(start.contains(start[i + 1]));
        }
        assert(head.drop_last() =~= seq![]);
        assert(Seq::<u8>::empty().push(start[0]) =~= head);
        assert(separate(seq![], true, head.drop_last()).app =~= seq![]);
        law_rest_of_a_line_passes(rest);
        law_chunks(seq![], true, head, rest);
        assert(head + rest =~= start);
        let a = separate(seq![], true, head);
        assert(a == (Separated { pending: seq![], fresh: false, app: head, kernel: seq![] }));
        let b = separate(seq![], true, start);
        assert(b == (Separated { pending: seq![], fresh: false, app: start, kernel: seq![] }));
        assert(start.push(LINE_FEED) =~= line);
    }
}

/// Lines do not change how what follows them is separated: what comes after a whole
/// line is taken as it would be alone.
pub proof fn law_lines_are_separate(start: Seq<u8>, more: Seq<u8>)
    requires
        !start.contains(LINE_FEED),
    ensures
        ({
            let line = start.push(LINE_FEED);
            let a = separate(seq![], true, line);
            let b = separate(seq![], true, more);
            separate(seq![], true, line + more) == (Separated {
                pending: b.pending,
                fresh: b.fresh,
                app: a.app + b.app,
                kernel: a.kernel + b.kernel,
            })
        }),
{
    law_lines_stay_whole(start);
    law_chunks(seq![], true, start.push(LINE_FEED), more);
}

/// A pending line cannot be forgotten: there is a time from which its deadline counts
/// exactly while there is one.
pub proof fn law_pending_lines_have_a_time(f: KernelFilter)
    requires
        f.wf(),
    ensures
        f.since() is Some <==> f.pending().len() > 0,
        pending_ok(f.pending()),
        f.pending().len() > 0 ==> f.fresh(),
{
}

/// There is a deadline exactly while a flush would put anything out, wherever the
/// clock can hold the deadline.
pub proof fn law_deadline_while_pending(f: KernelFilter)
    requires
        f.wf(),
        f.since() matches Some(started) ==> instant_after(started, FLUSH_TIMEOUT_MS) is Some,
    ensures
        f.deadline() is Some <==> f.pending().len() > 0,
{
}

/// To a filter, a line that begins with a timestamp in brackets is a kernel message,
/// whatever bytes follow.
pub proof fn law_timestamped_lines_are_kernel_messages(f: KernelFilter, line: Seq<u8>)
    requires
        f.wf(),
        starts_with_timestamp(without_line_end(line)),
    ensures
        is_kernel_line(line),
{
}

/// To a filter, an ASCII line is a kernel message exactly if it begins with a
/// timestamp in brackets, such as `[    0.123456]`.
pub proof fn law_ascii_kernel_messages(f: KernelFilter, line: Seq<u8>)
    requires
        f.wf(),
        ascii_bytes(line),
    ensures
        is_kernel_line(line) == starts_with_timestamp(without_line_end(line)),
{
    assert(ascii_bytes(without_line_end(line)));
}

/// Where nothing but the line end stands behind a timestamp, it stands before it.
proof fn lemma_timestamp_before_line_end(start: Seq<u8>)
    requires
        !start.contains(10),
    ensures
        starts_with_timestamp(start.push(10)) <==> starts_with_timestamp(
            without_line_end(start.push(10)),
        ),
{
    let line = start.push(10);
    let content = without_line_end(line);
    if starts_with_timestamp(line) {
        let (a, b, c) = choose|a: int, b: int, c: int| timestamp_at(line, a, b, c);
        assert(timestamp_at(content, a, b, c));
    }
    if starts_with_timestamp(content) {
        let (a, b, c) = choose|a: int, b: int, c: int| timestamp_at(content, a, b, c);
        assert(forall|i: int| 0 <= i < content.len() ==> line[i] == #[trigger] content[i]);
        assert forall|i: int| 1 <= i < a implies ascii_space(line[i]) by {
            assert(ascii_space(content[i]));
        }
        assert forall|i: int| a <= i < b implies ascii_digit(line[i]) by {
            assert(ascii_digit(content[i]));
        }
        assert forall|i: int| b + 1 <= i < c implies ascii_digit(line[i]) by {
            assert(ascii_digit(content[i]));
        }
        assert(timestamp_at(line, a, b, c));
    }
}

/// A line that begins with a timestamp in brackets goes to the kernel's side as a whole,
/// however long it is, whatever else it holds and however it ends.
pub proof fn law_timestamped_lines_go_to_the_kernel(f: KernelFilter, start: Seq<u8>)
    requires
        f.wf(),
        !start.contains(10),
        starts_with_timestamp(start.push(10)),
    ensures
        separate(seq![], true, start.push(10)).kernel == start.push(10),
        separate(seq![], true, start.push(10)).app == Seq::<u8>::empty(),
        separate(seq![], true, start.push(10)).pending == Seq::<u8>::empty(),
{
    lemma_timestamp_before_line_end(start);
    law_timestamped_lines_are_kernel_messages(f, start.push(10));
    law_lines_stay_whole(start);
}

/// What a timestamp in brackets is: after the bracket white space or none, digits, a
/// dot, digits and the closing bracket. A line that begins so goes to the kernel's side,
/// whatever follows.
pub proof fn law_a_timestamp_goes_to_the_kernel(
    f: KernelFilter,
    spaces: Seq<u8>,
    seconds: Seq<u8>,
    fraction: Seq<u8>,
    rest: Seq<u8>,
)
    requires
        f.wf(),
        forall|i: int| 0 <= i < spaces.len() ==> spaces[i] == 32 || spaces[i] == 9,
        seconds.len() > 0,
        forall|i: int| 0 <= i < seconds.len() ==> 48 <= #[trigger] seconds[i] <= 57,
        fraction.len() > 0,
        forall|i: int| 0 <= i < fraction.len() ==> 48 <= #[trigger] fraction[i] <= 57,
        !rest.contains(10),
    ensures
        ({
            let line = seq![91u8] + spaces + seconds + seq![46u8] + fraction + seq![93u8] + rest
                + seq![10u8];
            let s = separate(seq![], true, line);
            s.kernel == line && s.app.len() == 0 && s.pending.len() == 0
        }),
{
    let start = seq![91u8] + spaces + seconds + seq![46u8] + fraction + seq![93u8] + rest;
    let line = start.push(10);
    let a = 1 + spaces.len();
    let b = a + seconds.len();
    let c = b + 1 + fraction.len();
    assert(line =~= seq![91u8] + spaces + seconds + seq![46u8] + fraction + seq![93u8] + rest
        + seq![10u8]);
    assert forall|i: int| 1 <= i < a implies ascii_space(line[i]) by {
        assert(line[i] == spaces[i - 1]);
    }
    assert forall|i: int| a <= i < b implies ascii_digit(line[i]) by {
        assert(line[i] == seconds[i - a]);
    }
    assert forall|i: int| b + 1 <= i < c implies ascii_digit(line[i]) by {
        assert(line[i] == fraction[i - b - 1]);
    }
    assert(timestamp_at(line, a as int, b as int, c as int));
    assert forall|i: int| 0 <= i < start.len() implies start[i] != 10 by {
        assert(line[i] == start[i]);
        if 1 <= i < a {
            assert(line[i] == spaces[i - 1]);
        } else if a <= i < b {
            assert(line[i] == seconds[i - a]);
        } else if b < i < c {
            assert(line[i] == fraction[i - b - 1]);
        } else if i > c {
            assert(start[i] == rest[i - c - 1]);
            assert(rest.contains(rest[i - c - 1]));
        }
    }
    law_timestamped_lines_go_to_the_kernel(f, start);
}

/// An ASCII line that goes to the kernel's side begins with a timestamp in brackets:
/// between `[` and `]` stand white space or none, digits, a dot and digits, and nothing
/// else.
pub proof fn law_only_timestamps_go_to_the_kernel(f: KernelFilter, start: Seq<u8>)
    requires
        f.wf(),
        !start.contains(10),
        forall|i: int| 0 <= i < start.len() ==> start[i] < 128,
        separate(seq![], true, start.push(10)).kernel.len() > 0
            || separate(seq![], true, start.push(10)).app != start.push(10),
    ensures
        exists|a: int, b: int, c: int|
            #![trigger start[a], start[b], start[c]]
            {
                &&& 0 < a < b && b + 1 < c < start.len()
                &&& start[0] == 91 && start[b] == 46 && start[c] == 93
                &&& forall|i: int| 0 < i < a ==> 9 <= #[trigger] start[i] <= 13 || start[i] == 32
                &&& forall|i: int| a <= i < b ==> 48 <= #[trigger] start[i] <= 57
                &&& forall|i: int| b < i < c ==> 48 <= #[trigger] start[i] <= 57
            },
{
    let line = start.push(10);
    law_lines_stay_whole(start);
    law_ascii_kernel_messages(f, line);
    lemma_timestamp_before_line_end(start);
    let (a, b, c) = choose|a: int, b: int, c: int| timestamp_at(line, a, b, c);
    assert(line[a] == start[a] && line[b] == start[b] && line[c] == start[c]);
    assert forall|i: int| 0 < i < a implies 9 <= #[trigger] start[i] <= 13 || start[i] == 32 by {
        assert(ascii_space(line[i]));
    }
    assert forall|i: int| a <= i < b implies 48 <= #[trigger] start[i] <= 57 by {
        assert(ascii_digit(line[i]));
    }
    assert forall|i: int| b < i < c implies 48 <= #[trigger] start[i] <= 57 by {
        assert(ascii_digit(line[i]));
    }
}

/// What decides of any other line that begins with `[` is the kernel pattern, asked of
/// the line without its line end: `\r\n` is one, and so is `\n` alone.
pub proof fn law_the_pattern_decides(start: Seq<u8>)
    requires
        start.len() > 0 && start[0] == 91,
        !start.contains(10),
    ensures
        ({
            let kernel = bytes_match(bytes_regex("^\\[\\s*\\d+\\.\\d+\\]"@)->0, start);
            let plain = separate(seq![], true, start + seq![10u8]);
            let returned = separate(seq![], true, start + seq![13u8, 10u8]);
            &&& start.last() != 13 && kernel ==> plain.kernel == start + seq![10u8]
                && plain.app.len() == 0
            &&& start.last() != 13 && !kernel ==> plain.app == start + seq![10u8]
                && plain.kernel.len() == 0
            &&& kernel ==> returned.kernel == start + seq![13u8, 10u8] && returned.app.len() == 0
            &&& !kernel ==> returned.app == start + seq![13u8, 10u8] && returned.kernel.len() == 0
        }),
{
    let longer = start.push(13);
    assert(start + seq![10u8] =~= start.push(10));
    assert(start + seq![13u8, 10u8] =~= longer.push(10));
    assert forall|i: int| 0 <= i < longer.len() implies longer[i] != 10 by {
        if i < start.len() {
            assert(start.contains(start[i]));
        }
    }
    assert(start.last() != 13 ==> without_line_end(start.push(10)) =~= start);
    assert(without_line_end(longer.push(10)) =~= start);
    law_lines_stay_whole(start);
    law_lines_stay_whole(longer);
}

/// A line that does not begin with `[` is the application's, as a whole and at once.
pub proof fn law_other_lines_are_the_applications(start: Seq<u8>)
    requires
        !start.contains(10),
        start.len() > 0 ==> start[0] != 91,
    ensures
        separate(seq![], true, start).app == start,
        separate(seq![], true, start).pending.len() == 0,
        separate(seq![], true, start.push(10)).app == start.push(10),
        separate(seq![], true, start.push(10)).kernel.len() == 0,
        separate(seq![], true, start.push(10)).pending.len() == 0,
{
    law_lines_stay_whole(start);
    if start.len() > 0 {
        let head = seq![start[0]];
        let rest = start.skip(1);
        assert forall|i: int| 0 <= i < rest.len() implies rest[i] != 10 by {
            assert(start.contains(start[i + 1]));
        }
        assert(head.drop_last() =~= seq![]);
        assert(separate(seq![], true, head.drop_last()).app =~= seq![]);
        assert(Seq::<u8>::empty().push(start[0]) =~= head);
        assert(start.contains(start[0]));
        let a = separate(seq![], true, head);
        assert(a == (Separated { pending: seq![], fresh: false, app: head, kernel: seq![] }));
        law_rest_of_a_line_passes(rest);
        law_chunks(seq![], true, head, rest);
        assert(head + rest =~= start);
    }
}

/// The start of a line that begins with `[` waits for the rest: nothing of it goes to
/// either side before its line feed has come.
pub proof fn law_bracketed_lines_wait(start: Seq<u8>)
    requires
        start.len() > 0 && start[0] == 91,
        !start.contains(10),
    ensures
        separate(seq![], true, start).pending == start,
        separate(seq![], true, start).app.len() == 0,
        separate(seq![], true, start).kernel.len() == 0,
{
    lemma_line_start_is_pending(start);
}

/// A line waits for a tenth of a second, from when its first byte came.
pub proof fn law_lines_wait_a_tenth_of_a_second(f: KernelFilter)
    ensures
        f.since() matches Some(started) ==> f.deadline() == instant_after(started, 100),
        f.since() is None ==> f.deadline() is None,
{
}

/// After a flush in the middle of a line, the rest of that line is the application's up
/// to its line feed, brackets and all, and what follows is taken as from the start of a
/// line.
pub proof fn law_a_flushed_line_ends_at_its_line_feed(rest: Seq<u8>, more: Seq<u8>)
    requires
        !rest.contains(10),
    ensures
        ({
            let a = separate(seq![], false, rest + seq![10u8] + more);
            let b = separate(seq![], true, more);
            &&& a.app == rest + seq![10u8] + b.app
            &&& a.kernel == b.kernel
            &&& a.pending == b.pending
        }),
{
    let line = rest.push(10);
    law_rest_of_a_line_passes(rest);
    assert(line.drop_last() =~= rest);
    assert(rest + seq![10u8] =~= line);
    let a = separate(seq![], false, line);
    assert(a == (Separated { pending: seq![], fresh: true, app: line, kernel: seq![] }));
    law_chunks(seq![], false, line, more);
    assert(Seq::<u8>::empty() + separate(seq![], true, more).kernel =~= separate(
        seq![],
        true,
        more,
    ).kernel);
}

} // verus!
