//! The device enumerator: turns what the host reports into uniform listings.

use vstd::prelude::*;
use vstd::string::*;
use crate::model::{
    texts, DeviceListing, DeviceListingView, EnumerationError, EnumerationErrorView, Platform,
};

verus! {

/// The label every spooler printer is listed with.
pub open spec fn printer_label() -> Seq<char> {
    "System printer"@
}

/// The name of the single entry that carries a raw USB topology dump.
pub open spec fn topology_label() -> Seq<char> {
    "macOS USB device list (raw JSON)"@
}

/// One listing per name, in order, each with the fixed label.
pub open spec fn printer_listings(names: Seq<Seq<char>>) -> Seq<DeviceListingView> {
    Seq::new(names.len(), |i: int| DeviceListingView { name: names[i], info: printer_label() })
}

/// The views of `v`'s listings, in order.
pub open spec fn listing_views(v: Seq<DeviceListing>) -> Seq<DeviceListingView> {
    Seq::new(v.len(), |i: int| v[i]@)
}

/// The view of an enumeration's result.
pub open spec fn listing_result_view(r: Result<Vec<DeviceListing>, EnumerationError>) -> Result<
    Seq<DeviceListingView>,
    EnumerationErrorView,
> {
    match r {
        Ok(v) => Ok(listing_views(v@)),
        Err(e) => Err(e@),
    }
}

/// What the spooler's answer becomes: no printer at all is a failure.
pub open spec fn system_printers(names: Seq<Seq<char>>) -> Result<
    Seq<DeviceListingView>,
    EnumerationErrorView,
> {
    if names.len() == 0 {
        Err(EnumerationErrorView::NoneFound)
    } else {
        Ok(printer_listings(names))
    }
}

/// Lists the spooler's printers from their names, in the spooler's order;
/// names that occur twice are listed twice.
pub fn list_system_printers(names: &Vec<String>) -> (r: Result<
    Vec<DeviceListing>,
    EnumerationError,
>)
    ensures
        listing_result_view(r) == system_printers(texts(names@)),
{
    if names.len() == 0 {
        return Err(EnumerationError::NoneFound);
    }
    let mut out: Vec<DeviceListing> = Vec::with_capacity(names.len());
    let mut i: usize = 0;
    while i < names.len()
        invariant
            i <= names.len(),
            out@.len() == i,
            forall|j: int|
                0 <= j < i ==> (#[trigger] out@[j])@ == (DeviceListingView {
                    name: names@[j]@,
                    info: printer_label(),
                }),
        decreases names.len() - i,
    {
        out.push(
            DeviceListing { name: names[i].clone(), info: String::from_str("System printer") },
        );
        i += 1;
    }
    assert(listing_views(out@) =~= printer_listings(texts(names@)));
    Ok(out)
}

/// A line without the carriage return that ends it, if one does.
pub open spec fn without_cr(line: Seq<char>) -> Seq<char> {
    if line.len() > 0 && line.last() == '\r' {
        line.drop_last()
    } else {
        line
    }
}

/// A line as a list of its own, or nothing where the line is empty.
pub open spec fn kept(line: Seq<char>) -> Seq<Seq<char>> {
    if line.len() == 0 {
        Seq::empty()
    } else {
        seq![line]
    }
}

/// The non-empty lines of `text` from the line that begins at `start`, where
/// that line holds no line feed before `i`.
pub open spec fn lines_from(text: Seq<char>, start: int, i: int) -> Seq<Seq<char>>
    decreases text.len() - i,
{
    if i >= text.len() {
        kept(text.subrange(start, text.len() as int))
    } else if text[i] == '\n' {
        kept(without_cr(text.subrange(start, i))) + lines_from(text, i + 1, i + 1)
    } else {
        lines_from(text, start, i + 1)
    }
}

/// The queue names in the spooler's listing: its lines, each ended by a line
/// feed or by a carriage return and a line feed, the last perhaps by nothing,
/// in order and without the empty ones.
pub open spec fn queue_lines(text: Seq<char>) -> Seq<Seq<char>> {
    lines_from(text, 0, 0)
}

/// Reads the queue names out of the spooler's listing, one name per line.
pub fn queue_names(output: &str) -> (names: Vec<String>)
    ensures
        texts(names@) == queue_lines(output@),
{
    let n: usize = output.unicode_len();
    let mut names: Vec<String> = Vec::new();
    let mut start: usize = 0;
    let mut i: usize = 0;
    assert(texts(names@) + lines_from(output@, 0, 0) =~= lines_from(output@, 0, 0));
    while i < n
        invariant
            n == output@.len(),
            start <= i <= n,
            texts(names@) + lines_from(output@, start as int, i as int) == queue_lines(output@),
        decreases n - i,
    {
        if output.get_char(i) == '\n' {
            let ghost before = texts(names@);
            let ghost line = without_cr(output@.subrange(start as int, i as int));
            let mut end: usize = i;
            if end > start && output.get_char(end - 1) == '\r' {
                end = end - 1;
            }
            assert(output@.subrange(start as int, end as int) =~= line);
            if end > start {
                names.push(String::from_str(output.substring_char(start, end)));
                assert(texts(names@) =~= before + seq![line]);
            }
            assert(texts(names@) =~= before + kept(line));
            assert(texts(names@) + lines_from(output@, i + 1, i + 1) =~= before + (kept(line)
                + lines_from(output@, i + 1, i + 1)));
            start = i + 1;
        }
        i += 1;
    }
    let ghost before = texts(names@);
    let ghost line = output@.subrange(start as int, n as int);
    if start < n {
        names.push(String::from_str(output.substring_char(start, n)));
        assert(texts(names@) =~= before + seq![line]);
    }
    assert(texts(names@) =~= before + kept(line));
    names
}

/// The program that dumps the USB topology, and its arguments.
#[derive(Debug, PartialEq, Eq)]
pub struct TopologyQuery {
    pub program: String,
    pub arguments: Vec<String>,
}

/// What running the topology query gave.
#[derive(Debug, PartialEq, Eq)]
pub enum QueryOutcome {
    /// The program could not be started.
    NotStarted { cause: String },
    /// The program ran and reported failure.
    Failed { status: String, stderr: String },
    /// The program ran and printed `stdout`.
    Output { stdout: String },
}

/// Whether the platform has a supported way to enumerate USB devices.
pub open spec fn can_enumerate_usb(platform: Platform) -> bool {
    platform == Platform::MacOs
}

/// Plans the USB enumeration for `platform`: the query to run, or the failure
/// that names the platform as unsupported.
pub fn usb_topology_query(platform: Platform) -> (r: Result<TopologyQuery, EnumerationError>)
    ensures
        can_enumerate_usb(platform) ==> r is Ok && r->Ok_0.program@ == "system_profiler"@ && texts(
            r->Ok_0.arguments@,
        ) == seq!["SPUSBDataType"@, "-json"@],
        !can_enumerate_usb(platform) ==> r is Err && r->Err_0@
            == EnumerationErrorView::NotImplemented(platform),
{
    match platform {
        Platform::MacOs => {
            let mut arguments: Vec<String> = Vec::new();
            arguments.push(String::from_str("SPUSBDataType"));
            arguments.push(String::from_str("-json"));
            assert(texts(arguments@) =~= seq!["SPUSBDataType"@, "-json"@]);
            Ok(TopologyQuery { program: String::from_str("system_profiler"), arguments })
        },
        _ => Err(EnumerationError::NotImplemented(platform)),
    }
}

/// What the outcome of the topology query becomes: its output, unparsed, as
/// the `info` of a single listing.
pub open spec fn usb_devices(outcome: QueryOutcome) -> Result<
    Seq<DeviceListingView>,
    EnumerationErrorView,
> {
    match outcome {
        QueryOutcome::NotStarted { cause } => Err(EnumerationErrorView::Query { cause: cause@ }),
        QueryOutcome::Failed { status, stderr } => Err(
            EnumerationErrorView::Exit { status: status@, stderr: stderr@ },
        ),
        QueryOutcome::Output { stdout } => Ok(
            seq![DeviceListingView { name: topology_label(), info: stdout@ }],
        ),
    }
}

/// Lists the USB devices from the outcome of the topology query.
pub fn list_usb_devices(outcome: QueryOutcome) -> (r: Result<Vec<DeviceListing>, EnumerationError>)
    ensures
        listing_result_view(r) == usb_devices(outcome),
{
    match outcome {
        QueryOutcome::NotStarted { cause } => Err(EnumerationError::Query { cause }),
        QueryOutcome::Failed { status, stderr } => Err(EnumerationError::Exit { status, stderr }),
        QueryOutcome::Output { stdout } => {
            let mut out: Vec<DeviceListing> = Vec::new();
            out.push(
                DeviceListing {
                    name: String::from_str("macOS USB device list (raw JSON)"),
                    info: stdout,
                },
            );
            assert(listing_views(out@) =~= seq![
                DeviceListingView { name: topology_label(), info: stdout@ },
            ]);
            Ok(out)
        },
    }
}

} // verus!
