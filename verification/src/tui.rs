//! The event loop of the interface: what each thing that can happen leads to. The
//! waiting, the channels and the terminal itself are the caller's.

use vstd::prelude::*;

use crate::filter::{
    interleaved, law_lines_stay_whole, law_nothing_is_lost, law_plain_data_passes,
    law_timestamped_lines_go_to_the_kernel, separate, KernelFilter, LINE_FEED,
};
use crate::input::{KeyEvent, KeyEventKind, MouseEvent};
use crate::pattern::starts_with_timestamp;
use crate::serial::SerialEvent;

verus! {

/// What the application is told of.
#[derive(Debug)]
pub enum Event {
    Init,
    Terminal(TerminalEvent),
    /// Filtered data for the app terminal (kernel messages removed).
    AppData(Vec<u8>),
    /// Kernel messages only.
    KernelData(Vec<u8>),
    /// Serial error.
    SerialError(std::io::Error),
    /// "No response" timeout reached - trigger UI refresh.
    NoResponseTimeout,
}

impl From<TerminalEvent> for Event {
    fn from(value: TerminalEvent) -> (e: Self) {
        Event::Terminal(value)
    }
}

impl vstd::std_specs::convert::FromSpecImpl<TerminalEvent> for Event {
    open spec fn obeys_from_spec() -> bool {
        true
    }

    open spec fn from_spec(value: TerminalEvent) -> Event {
        Event::Terminal(value)
    }
}

/// What the terminal reports.
#[derive(Debug)]
pub enum TerminalEvent {
    FocusGained,
    FocusLost,
    Paste(String),
    Key(KeyEvent),
    Mouse(MouseEvent),
    Resize(u16, u16),
    Error(std::io::ErrorKind),
}

/// What the interface asks of the terminal.
pub struct TuiConfig {
    pub enable_mouse: bool,
    pub enable_paste: bool,
}

impl Default for TuiConfig {
    fn default() -> (c: Self)
        ensures
            c.enable_mouse && c.enable_paste,
    {
        TuiConfig { enable_mouse: true, enable_paste: true }
    }
}

/// A change of the terminal's state.
#[derive(Debug, Clone, Copy, PartialEq, Eq, Structural)]
pub enum TerminalCommand {
    EnableRawMode,
    EnterAlternateScreen,
    HideCursor,
    EnableMouseCapture,
    EnableBracketedPaste,
    Flush,
    DisableBracketedPaste,
    DisableMouseCapture,
    LeaveAlternateScreen,
    ShowCursor,
    DisableRawMode,
}

impl TerminalCommand {
    /// The command that undoes this one, if it changes anything.
    pub open spec fn undone_by(self) -> Option<TerminalCommand> {
        match self {
            TerminalCommand::EnableRawMode => Some(TerminalCommand::DisableRawMode),
            TerminalCommand::EnterAlternateScreen => Some(TerminalCommand::LeaveAlternateScreen),
            TerminalCommand::HideCursor => Some(TerminalCommand::ShowCursor),
            TerminalCommand::EnableMouseCapture => Some(TerminalCommand::DisableMouseCapture),
            TerminalCommand::EnableBracketedPaste => Some(TerminalCommand::DisableBracketedPaste),
            _ => None,
        }
    }
}

/// A command, if it is wanted.
pub open spec fn command_if(wanted: bool, command: TerminalCommand) -> Seq<TerminalCommand> {
    if wanted {
        seq![command]
    } else {
        seq![]
    }
}

impl TuiConfig {
    /// The commands with which the interface takes the terminal over.
    pub open spec fn entering(&self) -> Seq<TerminalCommand> {
        seq![
            TerminalCommand::EnableRawMode,
            TerminalCommand::EnterAlternateScreen,
            TerminalCommand::HideCursor,
        ] + command_if(self.enable_mouse, TerminalCommand::EnableMouseCapture) + command_if(
            self.enable_paste,
            TerminalCommand::EnableBracketedPaste,
        )
    }

    /// The commands with which it gives the terminal back.
    pub open spec fn exiting(&self) -> Seq<TerminalCommand> {
        seq![TerminalCommand::Flush] + command_if(
            self.enable_paste,
            TerminalCommand::DisableBracketedPaste,
        ) + command_if(self.enable_mouse, TerminalCommand::DisableMouseCapture) + seq![
            TerminalCommand::LeaveAlternateScreen,
            TerminalCommand::ShowCursor,
            TerminalCommand::DisableRawMode,
        ]
    }

    /// The commands with which the interface takes the terminal over.
    pub fn enter(&self) -> (commands: Vec<TerminalCommand>)
        ensures
            commands@ == self.entering(),
    {
        let mut commands = vec![
            TerminalCommand::EnableRawMode,
            TerminalCommand::EnterAlternateScreen,
            TerminalCommand::HideCursor,
        ];
        if self.enable_mouse {
            commands.push(TerminalCommand::EnableMouseCapture);
        }
        if self.enable_paste {
            commands.push(TerminalCommand::EnableBracketedPaste);
        }
        assert(commands@ =~= self.entering());
        commands
    }

    /// The commands with which the interface gives the terminal back: none if it is
    /// not in raw mode.
    pub fn exit(&self, raw_mode: bool) -> (commands: Vec<TerminalCommand>)
        ensures
            commands@ == (if raw_mode {
                self.exiting()
            } else {
                Seq::empty()
            }),
    {
        let mut commands: Vec<TerminalCommand> = Vec::new();
        if raw_mode {
            commands.push(TerminalCommand::Flush);
            if self.enable_paste {
                commands.push(TerminalCommand::DisableBracketedPaste);
            }
            if self.enable_mouse {
                commands.push(TerminalCommand::DisableMouseCapture);
            }
            commands.push(TerminalCommand::LeaveAlternateScreen);
            commands.push(TerminalCommand::ShowCursor);
            commands.push(TerminalCommand::DisableRawMode);
            assert(commands@ =~= self.exiting());
        }
        commands
    }
}

/// Giving the terminal back undoes all that taking it over did, and nothing else:
/// raw mode, first on, is last off.
pub proof fn law_exit_undoes_enter(config: TuiConfig, command: TerminalCommand)
    ensures
        command.undone_by() matches Some(undo) ==> config.exiting().contains(undo)
            == config.entering().contains(command),
        config.entering().first() == TerminalCommand::EnableRawMode,
        config.exiting().last() == TerminalCommand::DisableRawMode,
{
    let mouse = command_if(config.enable_mouse, TerminalCommand::EnableMouseCapture);
    let paste = command_if(config.enable_paste, TerminalCommand::EnableBracketedPaste);
    let no_mouse = command_if(config.enable_mouse, TerminalCommand::DisableMouseCapture);
    let no_paste = command_if(config.enable_paste, TerminalCommand::DisableBracketedPaste);
    let entering = config.entering();
    let exiting = config.exiting();
    let m = mouse.len() as int;
    let p = paste.len() as int;
    assert(entering[0] == TerminalCommand::EnableRawMode);
    assert(entering[1] == TerminalCommand::EnterAlternateScreen);
    assert(entering[2] == TerminalCommand::HideCursor);
    assert(config.enable_mouse ==> entering[3] == TerminalCommand::EnableMouseCapture);
    assert(config.enable_paste ==> entering[3 + m] == TerminalCommand::EnableBracketedPaste);
    assert(config.enable_paste ==> exiting[1] == TerminalCommand::DisableBracketedPaste);
    assert(config.enable_mouse ==> exiting[1 + p] == TerminalCommand::DisableMouseCapture);
    assert(exiting[1 + p + m] == TerminalCommand::LeaveAlternateScreen);
    assert(exiting[2 + p + m] == TerminalCommand::ShowCursor);
    assert(exiting[3 + p + m] == TerminalCommand::DisableRawMode);
}

/// How long, in milliseconds, to wait for the event loop's task to finish, after it
/// was cancelled and again after it was aborted.
pub const STOP_WAIT_MS: u64 = 50;

/// What to do about a task that was told to stop.
#[derive(Debug, Clone, Copy, PartialEq, Eq, Structural)]
pub enum StopStep {
    /// It has finished.
    Done,
    /// Abort it.
    Abort,
    /// It cannot be stopped.
    Fail,
}

/// What to do about a task after a wait: one that has not finished is aborted, once.
pub open spec fn stop_after(aborted: bool, finished: bool) -> StopStep {
    if finished {
        StopStep::Done
    } else if !aborted {
        StopStep::Abort
    } else {
        StopStep::Fail
    }
}

/// Stopping a task never waits for ever: it is done once the task has finished, and a
/// task that has not is aborted, but not twice.
pub proof fn law_stopping_ends(aborted: bool, finished: bool)
    ensures
        stop_after(aborted, finished) is Done <==> finished,
        stop_after(aborted, finished) is Abort ==> !aborted,
        stop_after(true, finished) is Done || stop_after(true, finished) is Fail,
        stop_after(false, finished) is Done || stop_after(false, finished) is Abort,
{
}

/// What to do about a task after a wait.
pub fn stop_step(aborted: bool, finished: bool) -> (step: StopStep)
    ensures
        step == stop_after(aborted, finished),
{
    if finished {
        StopStep::Done
    } else if !aborted {
        StopStep::Abort
    } else {
        StopStep::Fail
    }
}

/// Something that the terminal sent.
#[derive(Debug)]
pub enum InputEvent {
    FocusGained,
    FocusLost,
    Paste(String),
    Key(KeyEvent),
    Mouse(MouseEvent),
    Resize(u16, u16),
}

/// What the event loop waits for.
#[derive(Debug)]
pub enum LoopInput {
    /// The loop is to stop.
    Cancelled,
    /// A new "no response" deadline, or the end of those.
    DeadlineUpdate(Option<Option<tokio::time::Instant>>),
    /// The "no response" deadline has passed.
    NoResponseTimeout,
    /// Something from the serial port, or the end of that.
    Serial(Option<SerialEvent>),
    /// Something from the terminal, an error of it, or the end of that.
    Terminal(Option<Result<InputEvent, std::io::ErrorKind>>),
    /// The deadline of a partial line has passed.
    FlushTimeout,
}

/// What the loop does next: it passes the events on, in order, and goes on unless
/// nobody receives one of them or it is to stop.
#[derive(Debug)]
pub struct LoopStep {
    pub events: Vec<Event>,
    pub stop: bool,
}

impl LoopStep {
    /// Nothing to pass on.
    pub open spec fn is_quiet(&self) -> bool {
        self.events@.len() == 0 && !self.stop
    }

    /// One event to pass on.
    pub open spec fn is_event(&self, event: Event) -> bool {
        self.events@ == seq![event] && !self.stop
    }

    /// Output to pass on: the application's first, then the kernel's, and nothing for
    /// an empty one.
    pub open spec fn is_data(&self, app: Seq<u8>, kernel: Seq<u8>) -> bool {
        let n: int = if app.len() > 0 {
            1
        } else {
            0
        };
        let k: int = if kernel.len() > 0 {
            1
        } else {
            0
        };
        &&& !self.stop
        &&& self.events@.len() == n + k
        &&& app.len() > 0 ==> (self.events@[0] matches Event::AppData(data) && data@ == app)
        &&& kernel.len() > 0 ==> (self.events@[n] matches Event::KernelData(data) && data@
            == kernel)
    }
}

/// What the loop keeps: the filter and the "no response" deadline.
pub struct EventLoop {
    pub filter: KernelFilter,
    pub no_response_deadline: Option<tokio::time::Instant>,
}

/// What the application is told of something from the terminal: of keys only that
/// they are pressed.
pub open spec fn reported(event: InputEvent) -> Option<TerminalEvent> {
    match event {
        InputEvent::FocusGained => Some(TerminalEvent::FocusGained),
        InputEvent::FocusLost => Some(TerminalEvent::FocusLost),
        InputEvent::Paste(text) => Some(TerminalEvent::Paste(text)),
        InputEvent::Key(key) => if key.kind == KeyEventKind::Press {
            Some(TerminalEvent::Key(key))
        } else {
            None
        },
        InputEvent::Mouse(mouse) => Some(TerminalEvent::Mouse(mouse)),
        InputEvent::Resize(x, y) => Some(TerminalEvent::Resize(x, y)),
    }
}

/// What the application is told of something from the terminal.
fn report(event: InputEvent) -> (r: Option<TerminalEvent>)
    ensures
        r == reported(event),
{
    match event {
        InputEvent::FocusGained => Some(TerminalEvent::FocusGained),
        InputEvent::FocusLost => Some(TerminalEvent::FocusLost),
        InputEvent::Paste(text) => Some(TerminalEvent::Paste(text)),
        InputEvent::Key(key) => {
            if key.kind == KeyEventKind::Press {
                Some(TerminalEvent::Key(key))
            } else {
                None
            }
        },
        InputEvent::Mouse(mouse) => Some(TerminalEvent::Mouse(mouse)),
        InputEvent::Resize(x, y) => Some(TerminalEvent::Resize(x, y)),
    }
}

impl EventLoop {
    /// What one input does.
    pub open spec fn stepped(&self, input: LoopInput, after: EventLoop, step: LoopStep) -> bool {
        match input {
            LoopInput::Cancelled => {
                after == *self && step.events@.len() == 0 && step.stop
            },
            LoopInput::DeadlineUpdate(update) => {
                &&& step.is_quiet()
                &&& after.filter == self.filter
                &&& after.no_response_deadline == (match update {
                    Some(deadline) => deadline,
                    None => self.no_response_deadline,
                })
            },
            LoopInput::NoResponseTimeout => {
                &&& step.is_event(Event::NoResponseTimeout)
                &&& after.filter == self.filter
                &&& after.no_response_deadline is None
            },
            LoopInput::Serial(None) | LoopInput::Terminal(None) => {
                after == *self && step.is_quiet()
            },
            LoopInput::Serial(Some(SerialEvent::Data(data))) => {
                let s = separate(self.filter.pending(), self.filter.fresh(), data@);
                &&& step.is_data(s.app, s.kernel)
                &&& after.filter.pending() == s.pending
                &&& after.filter.fresh() == s.fresh
                &&& self.filter.pending().len() > 0 && !data@.contains(LINE_FEED)
                    ==> after.filter.since() == self.filter.since()
                &&& after.no_response_deadline == self.no_response_deadline
            },
            LoopInput::Serial(Some(SerialEvent::Error(e))) => {
                after == *self && step.is_event(Event::SerialError(e))
            },
            LoopInput::Terminal(Some(Ok(event))) => {
                &&& after == *self
                &&& match reported(event) {
                    Some(t) => step.is_event(Event::Terminal(t)),
                    None => step.is_quiet(),
                }
            },
            LoopInput::Terminal(Some(Err(kind))) => {
                after == *self && step.is_event(Event::Terminal(TerminalEvent::Error(kind)))
            },
            LoopInput::FlushTimeout => {
                &&& step.is_data(self.filter.pending(), seq![])
                &&& after.filter.pending() == Seq::<u8>::empty()
                &&& after.filter.fresh() == (self.filter.fresh() && self.filter.pending().len()
                    == 0)
                &&& after.filter.since() is None
                &&& after.no_response_deadline == self.no_response_deadline
            },
        }
    }

    /// Starts a loop: nothing is pending and no deadline set. The event is the first
    /// to pass on; if nobody receives it, the loop ends there.
    pub fn start() -> (r: (EventLoop, Event))
        ensures
            r.0.filter.wf(),
            r.0.filter.pending() == Seq::<u8>::empty(),
            r.0.filter.fresh(),
            r.0.filter.since() is None,
            r.0.no_response_deadline is None,
            r.1 is Init,
    {
        (EventLoop { filter: KernelFilter::new(), no_response_deadline: None }, Event::Init)
    }

    /// Takes one input.
    pub fn step(&mut self, input: LoopInput) -> (step: LoopStep)
        requires
            old(self).filter.wf(),
        ensures
            final(self).filter.wf(),
            old(self).stepped(input, *final(self), step),
    {
        let mut events: Vec<Event> = Vec::new();
        match input {
            LoopInput::Cancelled => {
                return LoopStep { events, stop: true };
            },
            LoopInput::DeadlineUpdate(update) => {
                // Update the no-response deadline
                if let Some(deadline) = update {
                    self.no_response_deadline = deadline;
                }
            },
            LoopInput::NoResponseTimeout => {
                // "No response" timeout reached
                self.no_response_deadline = None;
                events.push(Event::NoResponseTimeout);
            },
            LoopInput::Serial(event) => {
                if let Some(event) = event {
                    match event {
                        SerialEvent::Data(data) => {
                            let (app_data, kernel_data) = self.filter.process(data.as_slice());
                            if app_data.len() > 0 {
                                events.push(Event::AppData(app_data));
                            }
                            if kernel_data.len() > 0 {
                                events.push(Event::KernelData(kernel_data));
                            }
                        },
                        SerialEvent::Error(e) => {
                            events.push(Event::SerialError(e));
                        },
                    }
                }
            },
            LoopInput::Terminal(event) => {
                if let Some(event) = event {
                    match event {
                        Ok(event) => {
                            if let Some(reported) = report(event) {
                                events.push(Event::from(reported));
                            }
                        },
                        Err(kind) => {
                            events.push(Event::from(TerminalEvent::Error(kind)));
                        },
                    }
                }
            },
            LoopInput::FlushTimeout => {
                // Pending line timed out - flush to app terminal
                let data = self.filter.flush_pending();
                if data.len() > 0 {
                    events.push(Event::AppData(data));
                }
            },
        }
        LoopStep { events, stop: false }
    }
}

/// Nothing but a cancellation stops the loop.
pub proof fn law_only_cancellation_stops(
    before: EventLoop,
    input: LoopInput,
    after: EventLoop,
    step: LoopStep,
)
    requires
        before.stepped(input, after, step),
    ensures
        step.stop <==> input is Cancelled,
{
}

/// Data from the port is passed on as what the filter makes of it, the application's
/// output and the kernel's, neither if it is empty; together with what waits for the end
/// of its line, that is all of it.
pub proof fn law_data_is_passed_on(
    before: EventLoop,
    data: Vec<u8>,
    after: EventLoop,
    step: LoopStep,
)
    requires
        before.stepped(LoopInput::Serial(Some(SerialEvent::Data(data))), after, step),
    ensures
        ({
            let s = separate(before.filter.pending(), before.filter.fresh(), data@);
            let whole = before.filter.pending() + data@;
            let done = whole.take(whole.len() - after.filter.pending().len());
            let events = step.events@;
            &&& whole == done + after.filter.pending()
            &&& interleaved(done, s.app, s.kernel)
            &&& s.app.len() > 0 && s.kernel.len() > 0 ==> events.len() == 2
            &&& s.app.len() > 0 && s.kernel.len() == 0 ==> events.len() == 1
            &&& s.app.len() == 0 && s.kernel.len() > 0 ==> events.len() == 1
            &&& s.app.len() == 0 && s.kernel.len() == 0 ==> events.len() == 0
            &&& s.app.len() > 0 ==> (events[0] matches Event::AppData(d) && d@ == s.app)
            &&& s.kernel.len() > 0 ==> (events.last() matches Event::KernelData(d) && d@
                == s.kernel)
        }),
        !step.stop,
        after.no_response_deadline == before.no_response_deadline,
{
    let s = separate(before.filter.pending(), before.filter.fresh(), data@);
    law_nothing_is_lost(before.filter.pending(), before.filter.fresh(), data@);
    let whole = before.filter.pending() + data@;
    let done = whole.take(whole.len() - after.filter.pending().len());
    assert(whole =~= done + whole.skip(whole.len() - after.filter.pending().len()));
    assert(interleaved(done, s.app, s.kernel));
}

/// A whole line that begins with a timestamp in brackets, at the start of a line, is
/// passed on as the kernel's, and nothing with it.
pub proof fn law_kernel_lines_reach_the_kernel_pane(
    before: EventLoop,
    start: Seq<u8>,
    data: Vec<u8>,
    after: EventLoop,
    step: LoopStep,
)
    requires
        before.filter.wf(),
        before.filter.pending().len() == 0,
        before.filter.fresh(),
        !start.contains(10),
        starts_with_timestamp(start.push(10)),
        data@ == start.push(10),
        before.stepped(LoopInput::Serial(Some(SerialEvent::Data(data))), after, step),
    ensures
        step.events@.len() == 1,
        step.events@[0] matches Event::KernelData(d) && d@ == data@,
        after.filter.pending().len() == 0,
        after.filter.fresh(),
{
    assert(before.filter.pending() =~= seq![]);
    law_timestamped_lines_go_to_the_kernel(before.filter, start);
    law_lines_stay_whole(start);
}

/// A line that does not begin with a bracket is passed on as the application's, whole or
/// not.
pub proof fn law_other_lines_reach_the_app_pane(
    before: EventLoop,
    data: Vec<u8>,
    after: EventLoop,
    step: LoopStep,
)
    requires
        before.filter.pending().len() == 0,
        !data@.contains(91),
        data@.len() > 0,
        before.stepped(LoopInput::Serial(Some(SerialEvent::Data(data))), after, step),
    ensures
        step.events@.len() == 1,
        step.events@[0] matches Event::AppData(d) && d@ == data@,
        after.filter.pending().len() == 0,
{
    assert(before.filter.pending() =~= seq![]);
    law_plain_data_passes(before.filter.fresh(), data@);
}

/// A partial line whose time is up is passed on as the application's, and its rest is no
/// longer held back.
pub proof fn law_partial_lines_are_passed_on(before: EventLoop, after: EventLoop, step: LoopStep)
    requires
        before.filter.wf(),
        before.stepped(LoopInput::FlushTimeout, after, step),
    ensures
        before.filter.pending().len() > 0 ==> step.events@.len() == 1 && (
        step.events@[0] matches Event::AppData(d) && d@ == before.filter.pending())
            && !after.filter.fresh(),
        before.filter.pending().len() == 0 ==> step.events@.len() == 0 && after.filter.fresh()
            == before.filter.fresh(),
        after.filter.pending().len() == 0,
        after.filter.deadline() is None,
        !step.stop,
        after.no_response_deadline == before.no_response_deadline,
{
}

/// What the terminal sends is passed on as it is, but for keys that repeat or come up:
/// those are not.
pub proof fn law_input_is_passed_on(
    before: EventLoop,
    event: InputEvent,
    after: EventLoop,
    step: LoopStep,
)
    requires
        before.stepped(LoopInput::Terminal(Some(Ok(event))), after, step),
    ensures
        after == before,
        !step.stop,
        (event matches InputEvent::Key(key) && key.kind != KeyEventKind::Press)
            <==> step.events@.len() == 0,
        step.events@.len() <= 1,
        step.events@.len() == 1 ==> (step.events@[0] matches Event::Terminal(told) && {
            &&& event is FocusGained <==> told is FocusGained
            &&& event is FocusLost <==> told is FocusLost
            &&& event matches InputEvent::Paste(text) ==> told == TerminalEvent::Paste(text)
            &&& event matches InputEvent::Key(key) ==> told == TerminalEvent::Key(key)
            &&& event matches InputEvent::Mouse(mouse) ==> told == TerminalEvent::Mouse(mouse)
            &&& event matches InputEvent::Resize(width, height) ==> told
                == TerminalEvent::Resize(width, height)
        }),
{
}

/// Failures are passed on, of the port and of the terminal; the end of either is not.
pub proof fn law_failures_are_passed_on(
    before: EventLoop,
    input: LoopInput,
    after: EventLoop,
    step: LoopStep,
)
    requires
        before.stepped(input, after, step),
    ensures
        input matches LoopInput::Serial(Some(SerialEvent::Error(e))) ==> step.events@
            == seq![Event::SerialError(e)] && after == before,
        input matches LoopInput::Terminal(Some(Err(kind))) ==> step.events@
            == seq![Event::Terminal(TerminalEvent::Error(kind))] && after == before,
        input == LoopInput::Serial(None) || input == LoopInput::Terminal(None) || input is Cancelled
            ==> step.events@.len() == 0 && after == before,
{
}

/// The "no response" deadline is the last one that was set. When it has passed, that is
/// told once and there is none until the next is set.
pub proof fn law_no_response_deadlines(
    before: EventLoop,
    input: LoopInput,
    after: EventLoop,
    step: LoopStep,
)
    requires
        before.stepped(input, after, step),
    ensures
        input matches LoopInput::DeadlineUpdate(Some(deadline)) ==> after.no_response_deadline
            == deadline && step.events@.len() == 0,
        input is NoResponseTimeout ==> after.no_response_deadline is None && step.events@
            == seq![Event::NoResponseTimeout],
        !(input is NoResponseTimeout) && !(input matches LoopInput::DeadlineUpdate(Some(_)))
            ==> after.no_response_deadline == before.no_response_deadline,
        input is NoResponseTimeout || input is DeadlineUpdate ==> after.filter == before.filter,
{
}

/// Taking the terminal over uses the mouse and bracketed paste exactly if they are asked
/// for, and always raw mode, the alternate screen and a hidden cursor, each once. Giving
/// it back ends with the cursor shown and raw mode off.
pub proof fn law_what_is_taken_over(config: TuiConfig)
    ensures
        ({
            let e = config.entering();
            let mouse = if config.enable_mouse {
                1int
            } else {
                0
            };
            let paste = if config.enable_paste {
                1int
            } else {
                0
            };
            &&& e.len() == 3 + mouse + paste
            &&& e[0] == TerminalCommand::EnableRawMode
            &&& e[1] == TerminalCommand::EnterAlternateScreen
            &&& e[2] == TerminalCommand::HideCursor
            &&& config.enable_mouse ==> e[3] == TerminalCommand::EnableMouseCapture
            &&& config.enable_paste ==> e.last() == TerminalCommand::EnableBracketedPaste
            &&& config.exiting().len() == 4 + mouse + paste
            &&& config.exiting()[0] == TerminalCommand::Flush
            &&& config.enable_paste ==> config.exiting()[1]
                == TerminalCommand::DisableBracketedPaste
            &&& config.enable_mouse ==> config.exiting()[1 + paste]
                == TerminalCommand::DisableMouseCapture
            &&& config.exiting()[1 + paste + mouse] == TerminalCommand::LeaveAlternateScreen
            &&& config.exiting()[2 + paste + mouse] == TerminalCommand::ShowCursor
            &&& config.exiting()[3 + paste + mouse] == TerminalCommand::DisableRawMode
        }),
{
}

} // verus!
