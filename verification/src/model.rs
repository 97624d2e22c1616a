//! Request, response and error types, each with its mathematical view.

use vstd::prelude::*;

verus! {

/// The port a network printer listens on when a request names none.
pub const DEFAULT_PORT: u16 = 9100;

/// Seconds allowed for connecting to a network printer, and for each write to it.
pub const NETWORK_TIMEOUT_SECS: u64 = 5;

/// The mechanism that carries the bytes to the printer.
#[derive(Clone, Copy, Debug, PartialEq, Eq, Structural)]
pub enum TransportKind {
    /// A raw TCP socket.
    Network,
    /// A serial or USB device node, written to as a file.
    Device,
    /// A queue of the operating system's print spooler.
    Queue,
}

/// Whether an operation transfers a payload or only checks that it could.
#[derive(Clone, Copy, Debug, PartialEq, Eq, Structural)]
pub enum Mode {
    Deliver,
    Probe,
}

/// The family of operating system the driver runs on.
#[derive(Clone, Copy, Debug, PartialEq, Eq, Structural)]
pub enum Platform {
    MacOs,
    Linux,
    Windows,
    Other,
}

/// A request to send `data` to `target`.
#[derive(Clone, Debug, PartialEq, Eq)]
pub struct PrintRequest {
    pub kind: TransportKind,
    /// Host address, device path or queue name, according to `kind`.
    pub target: String,
    /// Network only; `DEFAULT_PORT` when absent.
    pub port: Option<u16>,
    /// The payload, sent as its UTF-8 bytes.
    pub data: String,
}

/// A request to check that `target` can be reached.
#[derive(Clone, Debug, PartialEq, Eq)]
pub struct TestRequest {
    pub kind: TransportKind,
    pub target: String,
    pub port: Option<u16>,
}

/// What a caller is told after a successful operation.
#[derive(Clone, Debug, PartialEq, Eq)]
pub struct PrintResponse {
    pub success: bool,
    pub message: String,
}

pub struct PrintResponseView {
    pub success: bool,
    pub message: Seq<char>,
}

impl View for PrintResponse {
    type V = PrintResponseView;

    open spec fn view(&self) -> PrintResponseView {
        PrintResponseView { success: self.success, message: self.message@ }
    }
}

/// One addressable printing endpoint.
#[derive(Clone, Debug, PartialEq, Eq)]
pub struct DeviceListing {
    pub name: String,
    /// Backend-specific text; never interpreted here.
    pub info: String,
}

pub struct DeviceListingView {
    pub name: Seq<char>,
    pub info: Seq<char>,
}

impl View for DeviceListing {
    type V = DeviceListingView;

    open spec fn view(&self) -> DeviceListingView {
        DeviceListingView { name: self.name@, info: self.info@ }
    }
}

/// The step of a delivery that failed.
#[derive(Clone, Copy, Debug, PartialEq, Eq, Structural)]
pub enum Fault {
    /// The target was empty or blank.
    InvalidTarget,
    /// The text `host:port` is no socket address.
    AddressParse,
    Connect,
    /// The write deadline could not be set on the socket.
    Configure,
    Write,
    Flush,
    /// The device node could not be opened for writing.
    Open,
    /// No spooler queue has the requested name.
    TargetNotFound,
    /// The spooler refused the job.
    Submit,
    /// A failure reported at a moment when none was expected.
    Unclassified,
}

/// A failed delivery: the step, whether it failed by running past a deadline,
/// the transport and mode it happened in, the resolved target, and the
/// operating system's diagnostic text.
#[derive(Clone, Debug, PartialEq, Eq)]
pub struct TransportError {
    pub fault: Fault,
    /// Whether the step was given up because its deadline ran out.
    pub timed_out: bool,
    pub kind: TransportKind,
    pub mode: Mode,
    pub target: String,
    pub cause: String,
}

pub struct TransportErrorView {
    pub fault: Fault,
    pub timed_out: bool,
    pub kind: TransportKind,
    pub mode: Mode,
    pub target: Seq<char>,
    pub cause: Seq<char>,
}

impl View for TransportError {
    type V = TransportErrorView;

    open spec fn view(&self) -> TransportErrorView {
        TransportErrorView {
            fault: self.fault,
            timed_out: self.timed_out,
            kind: self.kind,
            mode: self.mode,
            target: self.target@,
            cause: self.cause@,
        }
    }
}

/// A failed enumeration of endpoints.
#[derive(Clone, Debug, PartialEq, Eq)]
pub enum EnumerationError {
    /// The backend answered with no endpoint at all.
    NoneFound,
    /// The platform has no supported way to enumerate.
    NotImplemented(Platform),
    /// The spooler could not be asked for its queues.
    Spooler { cause: String },
    /// The topology query could not be started.
    Query { cause: String },
    /// The topology query ran and reported failure.
    Exit { status: String, stderr: String },
}

pub enum EnumerationErrorView {
    NoneFound,
    NotImplemented(Platform),
    Spooler { cause: Seq<char> },
    Query { cause: Seq<char> },
    Exit { status: Seq<char>, stderr: Seq<char> },
}

impl View for EnumerationError {
    type V = EnumerationErrorView;

    open spec fn view(&self) -> EnumerationErrorView {
        match self {
            EnumerationError::NoneFound => EnumerationErrorView::NoneFound,
            EnumerationError::NotImplemented(p) => EnumerationErrorView::NotImplemented(*p),
            EnumerationError::Spooler { cause } => EnumerationErrorView::Spooler { cause: cause@ },
            EnumerationError::Query { cause } => EnumerationErrorView::Query { cause: cause@ },
            EnumerationError::Exit { status, stderr } => EnumerationErrorView::Exit {
                status: status@,
                stderr: stderr@,
            },
        }
    }
}

/// Why a dispatch operation did not succeed.
#[derive(Clone, Debug, PartialEq, Eq)]
pub enum DispatchError {
    Transport(TransportError),
    Enumeration(EnumerationError),
}

pub enum DispatchErrorView {
    Transport(TransportErrorView),
    Enumeration(EnumerationErrorView),
}

impl View for DispatchError {
    type V = DispatchErrorView;

    open spec fn view(&self) -> DispatchErrorView {
        match self {
            DispatchError::Transport(e) => DispatchErrorView::Transport(e@),
            DispatchError::Enumeration(e) => DispatchErrorView::Enumeration(e@),
        }
    }
}

/// The view of an operation's outcome.
pub open spec fn outcome_view(outcome: Result<PrintResponse, DispatchError>) -> Result<
    PrintResponseView,
    DispatchErrorView,
> {
    match outcome {
        Ok(r) => Ok(r@),
        Err(e) => Err(e@),
    }
}

/// The views of the texts held by `v`, in order.
pub open spec fn texts(v: Seq<String>) -> Seq<Seq<char>> {
    Seq::new(v.len(), |i: int| v[i]@)
}

} // verus!
