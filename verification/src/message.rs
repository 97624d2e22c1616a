//! The response mapper: one message for every outcome.

use vstd::prelude::*;
use vstd::string::*;
use crate::model::{
    outcome_view, DispatchError, DispatchErrorView, EnumerationError, EnumerationErrorView, Fault,
    Mode, Platform, PrintResponse, PrintResponseView, TransportError, TransportErrorView,
    TransportKind,
};
use crate::text::{has_infix, lemma_infix_at_end, lemma_infix_of_concat};

verus! {

/// The text reported for a failed delivery.
pub open spec fn transport_message(e: TransportErrorView) -> Seq<char> {
    match e.fault {
        Fault::InvalidTarget => "No device path provided"@,
        Fault::AddressParse => "Invalid address: "@ + e.cause,
        Fault::Connect => "Failed to connect to printer at "@ + e.target + ": "@ + e.cause,
        Fault::Configure => "Failed to set timeout: "@ + e.cause,
        Fault::Write => if e.kind == TransportKind::Device {
            "Failed to write to device "@ + e.target + ": "@ + e.cause
        } else {
            "Failed to write to printer: "@ + e.cause
        },
        Fault::Flush => if e.kind == TransportKind::Device {
            "Failed to flush device "@ + e.target + ": "@ + e.cause
        } else {
            "Failed to flush stream: "@ + e.cause
        },
        Fault::Open => if e.mode == Mode::Deliver {
            "Failed to open device "@ + e.target + " for writing: "@ + e.cause
                + ". Ensure the path is correct and you have permission to access the device."@
        } else {
            "Failed to open device "@ + e.target + ": "@ + e.cause
                + ". This likely means the path is invalid or you lack permission."@
        },
        Fault::TargetNotFound => "Printer not found: "@ + e.target,
        Fault::Submit => "Failed to submit job to printer "@ + e.target + ": "@ + e.cause,
        Fault::Unclassified => "Unclassified error: "@ + e.cause,
    }
}

/// The text reported for a failed enumeration.
pub open spec fn enumeration_message(e: EnumerationErrorView) -> Seq<char> {
    match e {
        EnumerationErrorView::NoneFound => "No system printers found"@,
        EnumerationErrorView::NotImplemented(p) => match p {
            Platform::Linux => "USB device listing is not yet implemented for Linux in this build."@,
            Platform::Windows => "USB device listing is not yet implemented for Windows in this build."@,
            _ => "USB device listing is not supported on this platform."@,
        },
        EnumerationErrorView::Spooler { cause } => "Failed to list system printers: "@ + cause,
        EnumerationErrorView::Query { cause } => "Failed to run system_profiler: "@ + cause,
        EnumerationErrorView::Exit { status, stderr } => "system_profiler failed (status: "@
            + status + "). stderr: "@ + stderr,
    }
}

/// The text reported for any failure.
pub open spec fn error_message(e: DispatchErrorView) -> Seq<char> {
    match e {
        DispatchErrorView::Transport(t) => transport_message(t),
        DispatchErrorView::Enumeration(n) => enumeration_message(n),
    }
}

/// The text reported when an operation on `target` succeeds.
pub open spec fn success_message(kind: TransportKind, mode: Mode, target: Seq<char>) -> Seq<char> {
    match (kind, mode) {
        (TransportKind::Network, Mode::Deliver) => "Successfully printed to "@ + target,
        (TransportKind::Network, Mode::Probe) => "Successfully connected to printer at "@ + target,
        (TransportKind::Device, Mode::Deliver) => "Successfully wrote data to USB device at "@
            + target,
        (TransportKind::Device, Mode::Probe) => "Successfully opened USB device at "@ + target,
        (TransportKind::Queue, Mode::Deliver) => "Successfully printed to system printer "@
            + target,
        (TransportKind::Queue, Mode::Probe) => "System printer "@ + target + " is available"@,
    }
}

/// What the boundary hands to its caller: the response, or the failure as text.
pub open spec fn user_result(outcome: Result<PrintResponseView, DispatchErrorView>) -> Result<
    PrintResponseView,
    Seq<char>,
> {
    match outcome {
        Ok(r) => Ok(r),
        Err(e) => Err(error_message(e)),
    }
}

pub fn join2(a: &str, b: &str) -> (r: String)
    ensures
        r@ == a@ + b@,
{
    let mut r = String::from_str(a);
    r.append(b);
    r
}

pub fn join3(a: &str, b: &str, c: &str) -> (r: String)
    ensures
        r@ == a@ + b@ + c@,
{
    let mut r = join2(a, b);
    r.append(c);
    r
}

pub fn join4(a: &str, b: &str, c: &str, d: &str) -> (r: String)
    ensures
        r@ == a@ + b@ + c@ + d@,
{
    let mut r = join3(a, b, c);
    r.append(d);
    r
}

pub fn join5(a: &str, b: &str, c: &str, d: &str, e: &str) -> (r: String)
    ensures
        r@ == a@ + b@ + c@ + d@ + e@,
{
    let mut r = join4(a, b, c, d);
    r.append(e);
    r
}

/// Renders a failed delivery for display.
pub fn transport_error_text(e: &TransportError) -> (r: String)
    ensures
        r@ == transport_message(e@),
{
    let target = e.target.as_str();
    let cause = e.cause.as_str();
    match e.fault {
        Fault::InvalidTarget => String::from_str("No device path provided"),
        Fault::AddressParse => join2("Invalid address: ", cause),
        Fault::Connect => join4("Failed to connect to printer at ", target, ": ", cause),
        Fault::Configure => join2("Failed to set timeout: ", cause),
        Fault::Write => match e.kind {
            TransportKind::Device => join4("Failed to write to device ", target, ": ", cause),
            _ => join2("Failed to write to printer: ", cause),
        },
        Fault::Flush => match e.kind {
            TransportKind::Device => join4("Failed to flush device ", target, ": ", cause),
            _ => join2("Failed to flush stream: ", cause),
        },
        Fault::Open => match e.mode {
            Mode::Deliver => join5(
                "Failed to open device ",
                target,
                " for writing: ",
                cause,
                ". Ensure the path is correct and you have permission to access the device.",
            ),
            Mode::Probe => join5(
                "Failed to open device ",
                target,
                ": ",
                cause,
                ". This likely means the path is invalid or you lack permission.",
            ),
        },
        Fault::TargetNotFound => join2("Printer not found: ", target),
        Fault::Submit => join4("Failed to submit job to printer ", target, ": ", cause),
        Fault::Unclassified => join2("Unclassified error: ", cause),
    }
}

/// Renders a failed enumeration for display.
pub fn enumeration_error_text(e: &EnumerationError) -> (r: String)
    ensures
        r@ == enumeration_message(e@),
{
    match e {
        EnumerationError::NoneFound => String::from_str("No system printers found"),
        EnumerationError::NotImplemented(p) => match p {
            Platform::Linux => String::from_str(
                "USB device listing is not yet implemented for Linux in this build.",
            ),
            Platform::Windows => String::from_str(
                "USB device listing is not yet implemented for Windows in this build.",
            ),
            _ => String::from_str("USB device listing is not supported on this platform."),
        },
        EnumerationError::Spooler { cause } => join2(
            "Failed to list system printers: ",
            cause.as_str(),
        ),
        EnumerationError::Query { cause } => join2(
            "Failed to run system_profiler: ",
            cause.as_str(),
        ),
        EnumerationError::Exit { status, stderr } => join4(
            "system_profiler failed (status: ",
            status.as_str(),
            "). stderr: ",
            stderr.as_str(),
        ),
    }
}

/// Renders any failure for display.
pub fn to_user_message(e: &DispatchError) -> (r: String)
    ensures
        r@ == error_message(e@),
{
    match e {
        DispatchError::Transport(t) => transport_error_text(t),
        DispatchError::Enumeration(n) => enumeration_error_text(n),
    }
}

/// The response for a successful operation on `target`.
pub fn success_response(kind: TransportKind, mode: Mode, target: &str) -> (r: PrintResponse)
    ensures
        r@ == (PrintResponseView { success: true, message: success_message(kind, mode, target@) }),
{
    let message = match (kind, mode) {
        (TransportKind::Network, Mode::Deliver) => join2("Successfully printed to ", target),
        (TransportKind::Network, Mode::Probe) => join2(
            "Successfully connected to printer at ",
            target,
        ),
        (TransportKind::Device, Mode::Deliver) => join2(
            "Successfully wrote data to USB device at ",
            target,
        ),
        (TransportKind::Device, Mode::Probe) => join2("Successfully opened USB device at ", target),
        (TransportKind::Queue, Mode::Deliver) => join2(
            "Successfully printed to system printer ",
            target,
        ),
        (TransportKind::Queue, Mode::Probe) => join3("System printer ", target, " is available"),
    };
    PrintResponse { success: true, message }
}

/// Flattens an outcome for the caller: a success passes through unchanged, a
/// failure becomes its message.
pub fn to_user_result(outcome: Result<PrintResponse, DispatchError>) -> (r: Result<
    PrintResponse,
    String,
>)
    ensures
        match r {
            Ok(resp) => user_result(outcome_view(outcome)) == Ok::<PrintResponseView, Seq<char>>(
                resp@,
            ),
            Err(text) => user_result(outcome_view(outcome)) == Err::<PrintResponseView, Seq<char>>(
                text@,
            ),
        },
{
    match outcome {
        Ok(resp) => Ok(resp),
        Err(e) => Err(to_user_message(&e)),
    }
}

/// Every success message names the target it reached.
pub proof fn law_success_names_target(kind: TransportKind, mode: Mode, target: Seq<char>)
    ensures
        has_infix(success_message(kind, mode, target), target),
{
    match (kind, mode) {
        (TransportKind::Queue, Mode::Probe) => {
            lemma_infix_of_concat("System printer "@, target, " is available"@);
        },
        (TransportKind::Network, Mode::Deliver) => {
            lemma_infix_at_end("Successfully printed to "@, target);
        },
        (TransportKind::Network, Mode::Probe) => {
            lemma_infix_at_end("Successfully connected to printer at "@, target);
        },
        (TransportKind::Device, Mode::Deliver) => {
            lemma_infix_at_end("Successfully wrote data to USB device at "@, target);
        },
        (TransportKind::Device, Mode::Probe) => {
            lemma_infix_at_end("Successfully opened USB device at "@, target);
        },
        (TransportKind::Queue, Mode::Deliver) => {
            lemma_infix_at_end("Successfully printed to system printer "@, target);
        },
    }
}

/// The mapper never changes whether an outcome is a success: a response
/// passes through as it is, and a failure stays a failure.
pub proof fn law_mapping_keeps_outcome(outcome: Result<PrintResponseView, DispatchErrorView>)
    ensures
        user_result(outcome) is Ok <==> outcome is Ok,
        outcome is Ok ==> user_result(outcome)->Ok_0 == outcome->Ok_0,
{
}

/// Whether a failure at `fault` has a diagnostic text from the operating system.
pub open spec fn has_cause(fault: Fault) -> bool {
    fault != Fault::InvalidTarget && fault != Fault::TargetNotFound
}

/// The operating system's diagnostic text stands in the message verbatim.
pub proof fn law_message_holds_cause(e: TransportErrorView)
    requires
        has_cause(e.fault),
    ensures
        has_infix(transport_message(e), e.cause),
{
    let device = e.kind == TransportKind::Device;
    match e.fault {
        Fault::AddressParse => lemma_infix_at_end("Invalid address: "@, e.cause),
        Fault::Connect => lemma_infix_at_end(
            "Failed to connect to printer at "@ + e.target + ": "@,
            e.cause,
        ),
        Fault::Configure => lemma_infix_at_end("Failed to set timeout: "@, e.cause),
        Fault::Write => if device {
            lemma_infix_at_end("Failed to write to device "@ + e.target + ": "@, e.cause)
        } else {
            lemma_infix_at_end("Failed to write to printer: "@, e.cause)
        },
        Fault::Flush => if device {
            lemma_infix_at_end("Failed to flush device "@ + e.target + ": "@, e.cause)
        } else {
            lemma_infix_at_end("Failed to flush stream: "@, e.cause)
        },
        Fault::Open => if e.mode == Mode::Deliver {
            lemma_infix_of_concat(
                "Failed to open device "@ + e.target + " for writing: "@,
                e.cause,
                ". Ensure the path is correct and you have permission to access the device."@,
            )
        } else {
            lemma_infix_of_concat(
                "Failed to open device "@ + e.target + ": "@,
                e.cause,
                ". This likely means the path is invalid or you lack permission."@,
            )
        },
        Fault::Submit => lemma_infix_at_end(
            "Failed to submit job to printer "@ + e.target + ": "@,
            e.cause,
        ),
        _ => lemma_infix_at_end("Unclassified error: "@, e.cause),
    }
}

/// A failure to connect, by refusal or by running out of time, is reported
/// with the resolved target in its message.
pub proof fn law_unreachable_names_target(e: TransportErrorView)
    requires
        e.fault == Fault::Connect,
    ensures
        has_infix(transport_message(e), e.target),
{
    let head = "Failed to connect to printer at "@;
    lemma_infix_of_concat(head, e.target, ": "@ + e.cause);
    assert(transport_message(e) =~= head + e.target + (": "@ + e.cause));
}

/// The message names the failing step and nothing else of the failure's
/// class: whether a deadline ran out does not change the text.
pub proof fn law_message_goes_by_step(e: TransportErrorView, timed_out: bool)
    ensures
        transport_message(TransportErrorView { timed_out, ..e }) == transport_message(e),
{
}

} // verus!
