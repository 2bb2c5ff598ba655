//! The send loop as a state machine.
//!
//! The driver reads no input, keeps no clock and sends nothing. It tells
//! its caller what to do next, as an [`Action`], and is told how that went,
//! as an [`Event`]. One line goes through three phases: it is read, it
//! waits at the rate limiter unless the limiter is bypassed, and it is
//! posted. A post that fails is reported and the loop goes on; the end of
//! input or a failure to read ends it.

use crate::endpoint::Endpoint;
use crate::error::{EXIT_FAILURE, EXIT_SUCCESS};
use crate::limiter::{wait_before_post, Limiter};
use crate::line::without_line_ending;
use crate::message::{delivered, is_delivered, request_for, Message, Request, RequestView};
use crate::report::{
    read_failure, read_failure_message, send_failure, send_failure_message, status_detail,
    status_failure_message,
};
use vstd::prelude::*;

verus! {

/// What the caller reports back to the driver.
#[derive(Debug)]
pub enum Event {
    /// A line was read; `now` is the clock reading taken after the read.
    Line { text: String, now: u64 },
    /// The input has ended.
    Eof,
    /// The input could not be read.
    ReadFailed { detail: String },
    /// The sleep is over; `now` is the clock reading taken after it.
    Woke { now: u64 },
    /// The webhook answered with this status.
    Responded { status: u16 },
    /// The request did not get through.
    SendFailed { detail: String },
}

/// An event as plain values.
pub enum EventView {
    Line { text: Seq<char>, now: u64 },
    Eof,
    ReadFailed { detail: Seq<char> },
    Woke { now: u64 },
    Responded { status: u16 },
    SendFailed { detail: Seq<char> },
}

impl View for Event {
    type V = EventView;

    open spec fn view(&self) -> EventView {
        match self {
            Event::Line { text, now } => EventView::Line { text: text@, now: *now },
            Event::Eof => EventView::Eof,
            Event::ReadFailed { detail } => EventView::ReadFailed { detail: detail@ },
            Event::Woke { now } => EventView::Woke { now: *now },
            Event::Responded { status } => EventView::Responded { status: *status },
            Event::SendFailed { detail } => EventView::SendFailed { detail: detail@ },
        }
    }
}

/// What the driver asks its caller to do.
#[derive(Debug)]
pub enum Action {
    /// Read one line from the input and report `Line`, `Eof` or
    /// `ReadFailed`.
    Read,
    /// Sleep for at least this many nanoseconds and report `Woke`.
    Sleep { nanos: u64 },
    /// Send this request and report `Responded` or `SendFailed`.
    Post { request: Request },
    /// Leave with this exit code.
    Exit { code: i32 },
}

/// An action as plain values.
pub enum ActionView {
    Read,
    Sleep { nanos: u64 },
    Post { request: RequestView },
    Exit { code: i32 },
}

impl View for Action {
    type V = ActionView;

    open spec fn view(&self) -> ActionView {
        match self {
            Action::Read => ActionView::Read,
            Action::Sleep { nanos } => ActionView::Sleep { nanos: *nanos },
            Action::Post { request } => ActionView::Post { request: request@ },
            Action::Exit { code } => ActionView::Exit { code: *code },
        }
    }
}

/// The driver's answer to an event: a line for standard error, if there is
/// something to report, and what to do next.
#[derive(Debug)]
pub struct Step {
    pub diagnostic: Option<String>,
    pub action: Action,
}

/// A step as plain values.
pub struct StepView {
    pub diagnostic: Option<Seq<char>>,
    pub action: ActionView,
}

impl View for Step {
    type V = StepView;

    open spec fn view(&self) -> StepView {
        StepView {
            diagnostic: match self.diagnostic {
                Some(line) => Some(line@),
                None => None,
            },
            action: self.action@,
        }
    }
}

/// Where the driver stands.
pub enum Phase {
    /// A read is under way.
    Reading,
    /// A line was read and its request waits for the limiter.
    Gating { request: RequestView },
    /// A request is under way.
    Sending,
    /// The loop is over.
    Done { code: i32 },
}

/// The driver as plain values.
pub struct DriverView {
    /// The endpoint, in serialized form.
    pub url: Seq<char>,
    /// Whether the rate limiter is bypassed.
    pub bypass: bool,
    /// The clock reading at which the limiter last let a post through.
    pub previous: Option<u64>,
    pub phase: Phase,
}

/// The driver before anything has happened: its first read is under way.
pub open spec fn initial(url: Seq<char>, bypass: bool) -> DriverView {
    DriverView { url, bypass, previous: None, phase: Phase::Reading }
}

/// Whether `event` reports on what the driver is waiting for in `phase`.
pub open spec fn awaited(phase: Phase, event: EventView) -> bool {
    match phase {
        Phase::Reading => event is Line || event is Eof || event is ReadFailed,
        Phase::Gating { .. } => event is Woke,
        Phase::Sending => event is Responded || event is SendFailed,
        Phase::Done { .. } => false,
    }
}

/// The transition: the driver after `event` and its answer to it. An event
/// that the driver is not waiting for changes nothing and gets no answer.
pub open spec fn next(state: DriverView, event: EventView) -> Option<(DriverView, StepView)> {
    match (state.phase, event) {
        (Phase::Reading, EventView::Line { text, now }) => {
            let request = request_for(state.url, without_line_ending(text));
            if state.bypass {
                Some(
                    (
                        DriverView { phase: Phase::Sending, ..state },
                        StepView { diagnostic: None, action: ActionView::Post { request } },
                    ),
                )
            } else {
                Some(
                    (
                        DriverView { phase: Phase::Gating { request }, ..state },
                        StepView {
                            diagnostic: None,
                            action: ActionView::Sleep {
                                nanos: wait_before_post(state.previous, now) as u64,
                            },
                        },
                    ),
                )
            }
        },
        (Phase::Reading, EventView::Eof) => Some(
            (
                DriverView { phase: Phase::Done { code: EXIT_SUCCESS }, ..state },
                StepView { diagnostic: None, action: ActionView::Exit { code: EXIT_SUCCESS } },
            ),
        ),
        (Phase::Reading, EventView::ReadFailed { detail }) => Some(
            (
                DriverView { phase: Phase::Done { code: EXIT_FAILURE }, ..state },
                StepView {
                    diagnostic: Some(read_failure(detail)),
                    action: ActionView::Exit { code: EXIT_FAILURE },
                },
            ),
        ),
        (Phase::Gating { request }, EventView::Woke { now }) => Some(
            (
                DriverView { phase: Phase::Sending, previous: Some(now), ..state },
                StepView { diagnostic: None, action: ActionView::Post { request } },
            ),
        ),
        (Phase::Sending, EventView::Responded { status }) => Some(
            (
                DriverView { phase: Phase::Reading, ..state },
                StepView {
                    diagnostic: if is_delivered(status) {
                        None
                    } else {
                        Some(send_failure(status_detail(status)))
                    },
                    action: ActionView::Read,
                },
            ),
        ),
        (Phase::Sending, EventView::SendFailed { detail }) => Some(
            (
                DriverView { phase: Phase::Reading, ..state },
                StepView { diagnostic: Some(send_failure(detail)), action: ActionView::Read },
            ),
        ),
        _ => None,
    }
}

#[derive(Clone, Copy, Debug)]
enum Stage {
    Reading,
    Sending,
    Done { code: i32 },
}

/// Runs the send loop for one endpoint.
#[derive(Debug)]
pub struct Driver {
    endpoint: Endpoint,
    bypass: bool,
    limiter: Limiter,
    /// The request that waits for the limiter; while there is one, the
    /// stage does not count.
    waiting: Option<Request>,
    stage: Stage,
}

impl View for Driver {
    type V = DriverView;

    closed spec fn view(&self) -> DriverView {
        DriverView {
            url: self.endpoint@,
            bypass: self.bypass,
            previous: self.limiter@,
            phase: match self.waiting {
                Some(request) => Phase::Gating { request: request@ },
                None => match self.stage {
                    Stage::Reading => Phase::Reading,
                    Stage::Sending => Phase::Sending,
                    Stage::Done { code } => Phase::Done { code },
                },
            },
        }
    }
}

impl Driver {
    /// A driver that posts to `endpoint`, along with its first request to
    /// the caller, which is to read a line. With `bypass` the rate limiter
    /// is never consulted.
    pub fn start(endpoint: Endpoint, bypass: bool) -> (begun: (Driver, Action))
        ensures
            begun.0@ == initial(endpoint@, bypass),
            begun.1@ == ActionView::Read,
    {
        let driver = Driver {
            endpoint,
            bypass,
            limiter: Limiter::new(),
            waiting: None,
            stage: Stage::Reading,
        };
        (driver, Action::Read)
    }

    /// The endpoint that the messages are posted to.
    pub fn endpoint(&self) -> (endpoint: &Endpoint)
        ensures
            endpoint@ == self@.url,
    {
        &self.endpoint
    }

    /// Takes in `event` and answers with what to do next. An event that the
    /// driver is not waiting for leaves it as it is and gets no answer.
    pub fn step(&mut self, event: Event) -> (step: Option<Step>)
        ensures
            match next(old(self)@, event@) {
                Some((state, answer)) => final(self)@ == state && (step matches Some(step)
                    && step@ == answer),
                None => final(self)@ == old(self)@ && step is None,
            },
    {
        match self.waiting.take() {
            Some(request) => match event {
                Event::Woke { now } => {
                    self.limiter.mark(now);
                    self.stage = Stage::Sending;
                    Some(Step { diagnostic: None, action: Action::Post { request } })
                },
                _ => {
                    self.waiting = Some(request);
                    None
                },
            },
            None => match (self.stage, event) {
                (Stage::Reading, Event::Line { text, now }) => {
                    let message = Message::from_line(text.as_str());
                    let request = Request::new(&self.endpoint, &message);
                    if self.bypass {
                        self.stage = Stage::Sending;
                        Some(Step { diagnostic: None, action: Action::Post { request } })
                    } else {
                        let nanos = self.limiter.wait(now);
                        self.waiting = Some(request);
                        Some(Step { diagnostic: None, action: Action::Sleep { nanos } })
                    }
                },
                (Stage::Reading, Event::Eof) => {
                    self.stage = Stage::Done { code: EXIT_SUCCESS };
                    Some(Step { diagnostic: None, action: Action::Exit { code: EXIT_SUCCESS } })
                },
                (Stage::Reading, Event::ReadFailed { detail }) => {
                    self.stage = Stage::Done { code: EXIT_FAILURE };
                    Some(
                        Step {
                            diagnostic: Some(read_failure_message(detail.as_str())),
                            action: Action::Exit { code: EXIT_FAILURE },
                        },
                    )
                },
                (Stage::Sending, Event::Responded { status }) => {
                    self.stage = Stage::Reading;
                    let diagnostic = if delivered(status) {
                        None
                    } else {
                        Some(status_failure_message(status))
                    };
                    Some(Step { diagnostic, action: Action::Read })
                },
                (Stage::Sending, Event::SendFailed { detail }) => {
                    self.stage = Stage::Reading;
                    Some(
                        Step {
                            diagnostic: Some(send_failure_message(detail.as_str())),
                            action: Action::Read,
                        },
                    )
                },
                _ => None,
            },
        }
    }
}

} // verus!
