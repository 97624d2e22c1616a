//! The operations offered to the host shell, each as the job that a driver runs.
//!
//! Payloads arrive as text and are sent as the text's UTF-8 bytes, unframed.

use vstd::prelude::*;
use vstd::string::*;
use vstd::utf8::encode_utf8;
use crate::model::{Mode, PrintRequest, TestRequest, TransportKind};
use crate::dispatch::{address_text, Job, JobView};

verus! {

/// Sends `data` to the network printer at `printer_ip`, on `printer_port` or the default port.
pub fn print_to_network(data: &str, printer_ip: &str, printer_port: Option<u16>) -> (job: Job)
    ensures
        job@ == (JobView {
            kind: TransportKind::Network,
            mode: Mode::Deliver,
            target: address_text(printer_ip@, printer_port),
            payload: encode_utf8(data@),
        }),
{
    Job::print(
        &PrintRequest {
            kind: TransportKind::Network,
            target: String::from_str(printer_ip),
            port: printer_port,
            data: String::from_str(data),
        },
    )
}

/// Checks that the network printer at `printer_ip` accepts a connection.
pub fn test_printer_connection(printer_ip: &str, printer_port: Option<u16>) -> (job: Job)
    ensures
        job@ == (JobView {
            kind: TransportKind::Network,
            mode: Mode::Probe,
            target: address_text(printer_ip@, printer_port),
            payload: Seq::<u8>::empty(),
        }),
{
    Job::test(
        &TestRequest {
            kind: TransportKind::Network,
            target: String::from_str(printer_ip),
            port: printer_port,
        },
    )
}

/// Sends `data` to the spooler queue named `printer_name`.
pub fn print_to_system_printer(printer_name: &str, data: &str) -> (job: Job)
    ensures
        job@ == (JobView {
            kind: TransportKind::Queue,
            mode: Mode::Deliver,
            target: printer_name@,
            payload: encode_utf8(data@),
        }),
{
    Job::print(
        &PrintRequest {
            kind: TransportKind::Queue,
            target: String::from_str(printer_name),
            port: None,
            data: String::from_str(data),
        },
    )
}

/// Checks that the spooler has a queue named `printer_name`.
pub fn test_system_printer(printer_name: &str) -> (job: Job)
    ensures
        job@ == (JobView {
            kind: TransportKind::Queue,
            mode: Mode::Probe,
            target: printer_name@,
            payload: Seq::<u8>::empty(),
        }),
{
    Job::test(
        &TestRequest {
            kind: TransportKind::Queue,
            target: String::from_str(printer_name),
            port: None,
        },
    )
}

/// Sends `data` to the device node at `device_path`.
pub fn print_to_usb(device_path: &str, data: &str) -> (job: Job)
    ensures
        job@ == (JobView {
            kind: TransportKind::Device,
            mode: Mode::Deliver,
            target: device_path@,
            payload: encode_utf8(data@),
        }),
{
    Job::print(
        &PrintRequest {
            kind: TransportKind::Device,
            target: String::from_str(device_path),
            port: None,
            data: String::from_str(data),
        },
    )
}

/// Checks that the device node at `device_path` opens for writing.
pub fn test_usb_connection(device_path: &str) -> (job: Job)
    ensures
        job@ == (JobView {
            kind: TransportKind::Device,
            mode: Mode::Probe,
            target: device_path@,
            payload: Seq::<u8>::empty(),
        }),
{
    Job::test(
        &TestRequest {
            kind: TransportKind::Device,
            target: String::from_str(device_path),
            port: None,
        },
    )
}

} // verus!
