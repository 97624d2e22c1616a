//! The dispatcher: a state machine from events to actions.
//!
//! A driver starts a [`Job`] at [`Stage::Start`] with [`Event::Begin`], performs
//! each [`Action`] it is given, and reports the outcome as the next event, until
//! the action is [`Action::Finish`]. Each job is one attempt: nothing is retried.

use vstd::prelude::*;
use vstd::string::*;
use vstd::utf8::encode_utf8;
use crate::model::{
    outcome_view, texts, DispatchError, DispatchErrorView, EnumerationError, EnumerationErrorView,
    Fault, Mode, PrintRequest, PrintResponse, PrintResponseView, TestRequest, TransportError,
    TransportErrorView, TransportKind, DEFAULT_PORT, NETWORK_TIMEOUT_SECS,
};
use crate::text::{blank, decimal, is_blank, append_decimal};
use crate::message::{success_message, success_response};

verus! {

/// The socket address text `host:port`, with the default port where none is given.
pub open spec fn address_text(host: Seq<char>, port: Option<u16>) -> Seq<char> {
    host + ":"@ + decimal(
        match port {
            Some(p) => p as nat,
            None => DEFAULT_PORT as nat,
        },
    )
}

/// The transport-specific form of a request's target.
pub open spec fn resolved_target(kind: TransportKind, target: Seq<char>, port: Option<u16>) -> Seq<
    char,
> {
    if kind == TransportKind::Network {
        address_text(target, port)
    } else {
        target
    }
}

/// Resolves a request's target: `host:port` for the network, the text itself otherwise.
pub fn resolve_target(kind: TransportKind, target: &str, port: Option<u16>) -> (r: String)
    ensures
        r@ == resolved_target(kind, target@, port),
{
    let mut r = String::from_str(target);
    match kind {
        TransportKind::Network => {
            r.append(":");
            let p: u16 = match port {
                Some(p) => p,
                None => DEFAULT_PORT,
            };
            append_decimal(&mut r, p);
        },
        _ => {},
    }
    r
}

/// One delivery or liveness check, with its target resolved.
#[derive(Clone, Debug, PartialEq, Eq)]
pub struct Job {
    pub kind: TransportKind,
    pub mode: Mode,
    pub target: String,
    pub payload: Vec<u8>,
}

pub struct JobView {
    pub kind: TransportKind,
    pub mode: Mode,
    pub target: Seq<char>,
    pub payload: Seq<u8>,
}

impl View for Job {
    type V = JobView;

    open spec fn view(&self) -> JobView {
        JobView { kind: self.kind, mode: self.mode, target: self.target@, payload: self.payload@ }
    }
}

impl Job {
    /// The job that delivers the request's data as its UTF-8 bytes.
    pub fn print(request: &PrintRequest) -> (job: Job)
        ensures
            job@ == (JobView {
                kind: request.kind,
                mode: Mode::Deliver,
                target: resolved_target(request.kind, request.target@, request.port),
                payload: encode_utf8(request.data@),
            }),
    {
        Job {
            kind: request.kind,
            mode: Mode::Deliver,
            target: resolve_target(request.kind, request.target.as_str(), request.port),
            payload: request.data.as_str().as_bytes_vec(),
        }
    }

    /// The job that checks the request's target and sends nothing.
    pub fn test(request: &TestRequest) -> (job: Job)
        ensures
            job@ == (JobView {
                kind: request.kind,
                mode: Mode::Probe,
                target: resolved_target(request.kind, request.target@, request.port),
                payload: Seq::<u8>::empty(),
            }),
    {
        Job {
            kind: request.kind,
            mode: Mode::Probe,
            target: resolve_target(request.kind, request.target.as_str(), request.port),
            payload: Vec::new(),
        }
    }
}

/// What the driver is waiting for.
#[derive(Clone, Copy, Debug, PartialEq, Eq, Structural)]
pub enum Stage {
    Start,
    Resolving,
    Connecting,
    Configuring,
    Opening,
    Listing,
    Writing,
    Flushing,
    Submitting,
    Finished,
}

/// What the driver reports.
#[derive(Clone, Debug, PartialEq, Eq)]
pub enum Event {
    /// The job begins.
    Begin,
    /// The last action succeeded.
    Completed,
    /// The last action failed; `timed_out` tells whether a deadline ran out.
    Failed { timed_out: bool, cause: String },
    /// The spooler's queues, by name, in the spooler's order.
    Queues { names: Vec<String> },
}

pub enum EventView {
    Begin,
    Completed,
    Failed { timed_out: bool, cause: Seq<char> },
    Queues { names: Seq<Seq<char>> },
}

impl View for Event {
    type V = EventView;

    open spec fn view(&self) -> EventView {
        match self {
            Event::Begin => EventView::Begin,
            Event::Completed => EventView::Completed,
            Event::Failed { timed_out, cause } => EventView::Failed {
                timed_out: *timed_out,
                cause: cause@,
            },
            Event::Queues { names } => EventView::Queues { names: texts(names@) },
        }
    }
}

/// What the driver does next.
#[derive(Debug, PartialEq, Eq)]
pub enum Action {
    /// Parse `address` as a socket address. No I/O.
    Resolve { address: String },
    /// Open a TCP connection to `address` within `timeout_secs`.
    Connect { address: String, timeout_secs: u64 },
    /// Bound each write on the open socket by `secs`.
    SetWriteTimeout { secs: u64 },
    /// Open `path` for writing only; never create it.
    OpenDevice { path: String },
    /// Ask the spooler for its queues.
    ListQueues,
    /// Write all of `bytes` to the open socket or device.
    Write { bytes: Vec<u8> },
    /// Flush the open socket or device.
    Flush,
    /// Submit `bytes` to `queue` as one raw job with default options.
    Submit { queue: String, bytes: Vec<u8> },
    /// Close whatever is open and hand `outcome` to the caller.
    Finish { outcome: Result<PrintResponse, DispatchError> },
}

pub enum ActionView {
    Resolve { address: Seq<char> },
    Connect { address: Seq<char>, timeout_secs: u64 },
    SetWriteTimeout { secs: u64 },
    OpenDevice { path: Seq<char> },
    ListQueues,
    Write { bytes: Seq<u8> },
    Flush,
    Submit { queue: Seq<char>, bytes: Seq<u8> },
    Finish { outcome: Result<PrintResponseView, DispatchErrorView> },
}

impl View for Action {
    type V = ActionView;

    open spec fn view(&self) -> ActionView {
        match self {
            Action::Resolve { address } => ActionView::Resolve { address: address@ },
            Action::Connect { address, timeout_secs } => ActionView::Connect {
                address: address@,
                timeout_secs: *timeout_secs,
            },
            Action::SetWriteTimeout { secs } => ActionView::SetWriteTimeout { secs: *secs },
            Action::OpenDevice { path } => ActionView::OpenDevice { path: path@ },
            Action::ListQueues => ActionView::ListQueues,
            Action::Write { bytes } => ActionView::Write { bytes: bytes@ },
            Action::Flush => ActionView::Flush,
            Action::Submit { queue, bytes } => ActionView::Submit { queue: queue@, bytes: bytes@ },
            Action::Finish { outcome } => ActionView::Finish { outcome: outcome_view(*outcome) },
        }
    }
}

/// The job ends in failure at `fault`.
pub open spec fn failed(job: JobView, fault: Fault, timed_out: bool, cause: Seq<char>) -> (
    Stage,
    ActionView,
) {
    (
        Stage::Finished,
        ActionView::Finish {
            outcome: Err(
                DispatchErrorView::Transport(
                    TransportErrorView {
                        fault,
                        timed_out,
                        kind: job.kind,
                        mode: job.mode,
                        target: job.target,
                        cause,
                    },
                ),
            ),
        },
    )
}

/// The job ends in success.
pub open spec fn succeeded(job: JobView) -> (Stage, ActionView) {
    (
        Stage::Finished,
        ActionView::Finish {
            outcome: Ok(
                PrintResponseView {
                    success: true,
                    message: success_message(job.kind, job.mode, job.target),
                },
            ),
        },
    )
}

/// After the connection or the device is open, or the queue is found: a probe
/// is done, a delivery goes on with `then`.
pub open spec fn opened(job: JobView, then: (Stage, ActionView)) -> (Stage, ActionView) {
    if job.mode == Mode::Probe {
        succeeded(job)
    } else {
        then
    }
}

/// The transition table: the stage and action that follow `event` at `stage`.
pub open spec fn next(job: JobView, stage: Stage, event: EventView) -> (Stage, ActionView) {
    match (stage, event) {
        (Stage::Start, EventView::Begin) => match job.kind {
            TransportKind::Network => (
                Stage::Resolving,
                ActionView::Resolve { address: job.target },
            ),
            TransportKind::Device => if blank(job.target) {
                failed(job, Fault::InvalidTarget, false, Seq::empty())
            } else {
                (Stage::Opening, ActionView::OpenDevice { path: job.target })
            },
            TransportKind::Queue => (Stage::Listing, ActionView::ListQueues),
        },
        (Stage::Resolving, EventView::Completed) => (
            Stage::Connecting,
            ActionView::Connect { address: job.target, timeout_secs: NETWORK_TIMEOUT_SECS },
        ),
        (Stage::Resolving, EventView::Failed { timed_out, cause }) => failed(
            job,
            Fault::AddressParse,
            timed_out,
            cause,
        ),
        (Stage::Connecting, EventView::Completed) => opened(
            job,
            (Stage::Configuring, ActionView::SetWriteTimeout { secs: NETWORK_TIMEOUT_SECS }),
        ),
        (Stage::Connecting, EventView::Failed { timed_out, cause }) => failed(
            job,
            Fault::Connect,
            timed_out,
            cause,
        ),
        (Stage::Configuring, EventView::Completed) => (
            Stage::Writing,
            ActionView::Write { bytes: job.payload },
        ),
        (Stage::Configuring, EventView::Failed { timed_out, cause }) => failed(
            job,
            Fault::Configure,
            timed_out,
            cause,
        ),
        (Stage::Opening, EventView::Completed) => opened(
            job,
            (Stage::Writing, ActionView::Write { bytes: job.payload }),
        ),
        (Stage::Opening, EventView::Failed { timed_out, cause }) => failed(
            job,
            Fault::Open,
            timed_out,
            cause,
        ),
        (Stage::Listing, EventView::Queues { names }) => if names.contains(job.target) {
            opened(
                job,
                (Stage::Submitting, ActionView::Submit { queue: job.target, bytes: job.payload }),
            )
        } else {
            failed(job, Fault::TargetNotFound, false, Seq::empty())
        },
        (Stage::Listing, EventView::Failed { cause, .. }) => (
            Stage::Finished,
            ActionView::Finish {
                outcome: Err(
                    DispatchErrorView::Enumeration(EnumerationErrorView::Spooler { cause }),
                ),
            },
        ),
        (Stage::Writing, EventView::Completed) => (Stage::Flushing, ActionView::Flush),
        (Stage::Writing, EventView::Failed { timed_out, cause }) => failed(
            job,
            Fault::Write,
            timed_out,
            cause,
        ),
        (Stage::Flushing, EventView::Completed) => succeeded(job),
        (Stage::Flushing, EventView::Failed { timed_out, cause }) => failed(
            job,
            Fault::Flush,
            timed_out,
            cause,
        ),
        (Stage::Submitting, EventView::Completed) => succeeded(job),
        (Stage::Submitting, EventView::Failed { timed_out, cause }) => failed(
            job,
            Fault::Submit,
            timed_out,
            cause,
        ),
        (_, EventView::Failed { timed_out, cause }) => failed(
            job,
            Fault::Unclassified,
            timed_out,
            cause,
        ),
        (_, _) => failed(job, Fault::Unclassified, false, "unexpected event"@),
    }
}

/// Tells whether `target` is one of `names`, compared exactly.
pub fn contains_name(names: &Vec<String>, target: &String) -> (r: bool)
    ensures
        r == texts(names@).contains(target@),
{
    let mut i: usize = 0;
    while i < names.len()
        invariant
            i <= names.len(),
            forall|j: int| 0 <= j < i ==> texts(names@)[j] != target@,
        decreases names.len() - i,
    {
        if names[i] == *target {
            assert(texts(names@)[i as int] == target@);
            return true;
        }
        i += 1;
    }
    false
}

fn fail(job: &Job, fault: Fault, timed_out: bool, cause: String) -> (r: (Stage, Action))
    ensures
        r.0 == failed(job@, fault, timed_out, cause@).0,
        r.1@ == failed(job@, fault, timed_out, cause@).1,
{
    (
        Stage::Finished,
        Action::Finish {
            outcome: Err(
                DispatchError::Transport(
                    TransportError {
                        fault,
                        timed_out,
                        kind: job.kind,
                        mode: job.mode,
                        target: job.target.clone(),
                        cause,
                    },
                ),
            ),
        },
    )
}

fn succeed(job: &Job) -> (r: (Stage, Action))
    ensures
        r.0 == succeeded(job@).0,
        r.1@ == succeeded(job@).1,
{
    (
        Stage::Finished,
        Action::Finish { outcome: Ok(success_response(job.kind, job.mode, job.target.as_str())) },
    )
}

fn copy_bytes(bytes: &Vec<u8>) -> (r: Vec<u8>)
    ensures
        r@ == bytes@,
{
    let mut r: Vec<u8> = Vec::with_capacity(bytes.len());
    let mut i: usize = 0;
    while i < bytes.len()
        invariant
            i <= bytes.len(),
            r@ == bytes@.take(i as int),
        decreases bytes.len() - i,
    {
        r.push(bytes[i]);
        assert(r@ =~= bytes@.take(i + 1));
        i += 1;
    }
    assert(r@ =~= bytes@);
    r
}

/// Decides what follows `event` at `stage`: the next stage and the action to perform.
pub fn step(job: &Job, stage: Stage, event: Event) -> (r: (Stage, Action))
    ensures
        r.0 == next(job@, stage, event@).0,
        r.1@ == next(job@, stage, event@).1,
{
    match (stage, event) {
        (Stage::Start, Event::Begin) => match job.kind {
            TransportKind::Network => (
                Stage::Resolving,
                Action::Resolve { address: job.target.clone() },
            ),
            TransportKind::Device => if is_blank(job.target.as_str()) {
                fail(job, Fault::InvalidTarget, false, String::new())
            } else {
                (Stage::Opening, Action::OpenDevice { path: job.target.clone() })
            },
            TransportKind::Queue => (Stage::Listing, Action::ListQueues),
        },
        (Stage::Resolving, Event::Completed) => (
            Stage::Connecting,
            Action::Connect { address: job.target.clone(), timeout_secs: NETWORK_TIMEOUT_SECS },
        ),
        (Stage::Resolving, Event::Failed { timed_out, cause }) => fail(
            job,
            Fault::AddressParse,
            timed_out,
            cause,
        ),
        (Stage::Connecting, Event::Completed) => match job.mode {
            Mode::Probe => succeed(job),
            Mode::Deliver => (
                Stage::Configuring,
                Action::SetWriteTimeout { secs: NETWORK_TIMEOUT_SECS },
            ),
        },
        (Stage::Connecting, Event::Failed { timed_out, cause }) => fail(
            job,
            Fault::Connect,
            timed_out,
            cause,
        ),
        (Stage::Configuring, Event::Completed) => (
            Stage::Writing,
            Action::Write { bytes: copy_bytes(&job.payload) },
        ),
        (Stage::Configuring, Event::Failed { timed_out, cause }) => fail(
            job,
            Fault::Configure,
            timed_out,
            cause,
        ),
        (Stage::Opening, Event::Completed) => match job.mode {
            Mode::Probe => succeed(job),
            Mode::Deliver => (Stage::Writing, Action::Write { bytes: copy_bytes(&job.payload) }),
        },
        (Stage::Opening, Event::Failed { timed_out, cause }) => fail(
            job,
            Fault::Open,
            timed_out,
            cause,
        ),
        (Stage::Listing, Event::Queues { names }) => if contains_name(&names, &job.target) {
            match job.mode {
                Mode::Probe => succeed(job),
                Mode::Deliver => (
                    Stage::Submitting,
                    Action::Submit {
                        queue: job.target.clone(),
                        bytes: copy_bytes(&job.payload),
                    },
                ),
            }
        } else {
            fail(job, Fault::TargetNotFound, false, String::new())
        },
        (Stage::Listing, Event::Failed { cause, .. }) => (
            Stage::Finished,
            Action::Finish {
                outcome: Err(DispatchError::Enumeration(EnumerationError::Spooler { cause })),
            },
        ),
        (Stage::Writing, Event::Completed) => (Stage::Flushing, Action::Flush),
        (Stage::Writing, Event::Failed { timed_out, cause }) => fail(
            job,
            Fault::Write,
            timed_out,
            cause,
        ),
        (Stage::Flushing, Event::Completed) => succeed(job),
        (Stage::Flushing, Event::Failed { timed_out, cause }) => fail(
            job,
            Fault::Flush,
            timed_out,
            cause,
        ),
        (Stage::Submitting, Event::Completed) => succeed(job),
        (Stage::Submitting, Event::Failed { timed_out, cause }) => fail(
            job,
            Fault::Submit,
            timed_out,
            cause,
        ),
        (_, Event::Failed { timed_out, cause }) => fail(job, Fault::Unclassified, timed_out, cause),
        (_, _) => fail(job, Fault::Unclassified, false, String::from_str("unexpected event")),
    }
}

} // verus!
