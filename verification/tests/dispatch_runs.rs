use print_dispatch::boundary::{
    print_to_network, print_to_system_printer, print_to_usb, test_printer_connection,
    test_system_printer, test_usb_connection,
};
use print_dispatch::dispatch::{resolve_target, step, Action, Event, Job, Stage};
use print_dispatch::message::to_user_result;
use print_dispatch::model::{
    DispatchError, EnumerationError, Fault, Mode, PrintRequest, PrintResponse, TestRequest,
    TransportError, TransportKind,
};

/// Runs `job` against a peer on which every step succeeds; returns the actions
/// in order and the bytes the peer received.
fn run_smoothly(job: &Job, queues: &[&str]) -> (Vec<Action>, Vec<u8>) {
    let mut actions = Vec::new();
    let mut received = Vec::new();
    let mut stage = Stage::Start;
    let mut event = Event::Begin;
    for _ in 0..16 {
        let (next_stage, action) = step(job, stage, event);
        stage = next_stage;
        event = match &action {
            Action::ListQueues => Event::Queues {
                names: queues.iter().map(|q| q.to_string()).collect(),
            },
            Action::Write { bytes } => {
                received.extend_from_slice(bytes);
                Event::Completed
            }
            Action::Submit { bytes, .. } => {
                received.extend_from_slice(bytes);
                Event::Completed
            }
            _ => Event::Completed,
        };
        let done = matches!(action, Action::Finish { .. });
        actions.push(action);
        if done {
            return (actions, received);
        }
    }
    panic!("the job did not finish");
}

fn failure(cause: &str) -> Event {
    Event::Failed { timed_out: false, cause: cause.to_string() }
}

fn outcome_of(action: Action) -> Result<PrintResponse, DispatchError> {
    match action {
        Action::Finish { outcome } => outcome,
        other => panic!("not finished: {:?}", other),
    }
}

#[test]
fn network_print_reaches_listening_stub() {
    let job = print_to_network("ESC@", "127.0.0.1", Some(9100));
    let (actions, received) = run_smoothly(&job, &[]);
    assert_eq!(received, vec![b'E', b'S', b'C', b'@']);
    assert_eq!(received.len(), 4);
    assert_eq!(
        actions,
        vec![
            Action::Resolve { address: "127.0.0.1:9100".to_string() },
            Action::Connect { address: "127.0.0.1:9100".to_string(), timeout_secs: 5 },
            Action::SetWriteTimeout { secs: 5 },
            Action::Write { bytes: vec![b'E', b'S', b'C', b'@'] },
            Action::Flush,
            Action::Finish {
                outcome: Ok(PrintResponse {
                    success: true,
                    message: "Successfully printed to 127.0.0.1:9100".to_string(),
                }),
            },
        ]
    );
    let last = actions.into_iter().last().unwrap();
    let response = to_user_result(outcome_of(last)).unwrap();
    assert!(response.success);
    assert!(response.message.contains("127.0.0.1:9100"));
}

#[test]
fn network_print_to_closed_port_fails_within_bound() {
    let job = print_to_network("ESC@", "127.0.0.1", Some(1));
    let (stage, action) = step(&job, Stage::Start, Event::Begin);
    assert_eq!(action, Action::Resolve { address: "127.0.0.1:1".to_string() });
    let (stage, action) = step(&job, stage, Event::Completed);
    assert_eq!(action, Action::Connect { address: "127.0.0.1:1".to_string(), timeout_secs: 5 });
    let (stage, action) = step(&job, stage, failure("Connection refused (os error 111)"));
    assert_eq!(stage, Stage::Finished);
    assert_eq!(
        to_user_result(outcome_of(action)),
        Err("Failed to connect to printer at 127.0.0.1:1: Connection refused (os error 111)"
            .to_string())
    );
}

#[test]
fn network_connect_deadline_is_a_connect_failure() {
    let job = print_to_network("x", "10.255.255.1", None);
    let (stage, _) = step(&job, Stage::Start, Event::Begin);
    let (stage, _) = step(&job, stage, Event::Completed);
    let (stage, action) = step(
        &job,
        stage,
        Event::Failed { timed_out: true, cause: "connection timed out".to_string() },
    );
    assert_eq!(stage, Stage::Finished);
    assert_eq!(
        outcome_of(action),
        Err(DispatchError::Transport(TransportError {
            fault: Fault::Connect,
            timed_out: true,
            kind: TransportKind::Network,
            mode: Mode::Deliver,
            target: "10.255.255.1:9100".to_string(),
            cause: "connection timed out".to_string(),
        }))
    );
    let (_, action) = step(
        &job,
        Stage::Connecting,
        Event::Failed { timed_out: true, cause: "connection timed out".to_string() },
    );
    assert_eq!(
        to_user_result(outcome_of(action)),
        Err("Failed to connect to printer at 10.255.255.1:9100: connection timed out".to_string())
    );
}

#[test]
fn unreachable_test_connection_names_the_address() {
    for timed_out in [false, true] {
        let job = test_printer_connection("192.168.1.50", Some(9101));
        let (stage, _) = step(&job, Stage::Start, Event::Begin);
        let (stage, _) = step(&job, stage, Event::Completed);
        let (_, action) =
            step(&job, stage, Event::Failed { timed_out, cause: "unreachable".to_string() });
        let text = to_user_result(outcome_of(action)).unwrap_err();
        assert_eq!(text, "Failed to connect to printer at 192.168.1.50:9101: unreachable");
        assert!(text.contains("192.168.1.50:9101"));
    }
}

#[test]
fn empty_payload_is_delivered_as_nothing() {
    let job = print_to_network("", "127.0.0.1", None);
    let (actions, received) = run_smoothly(&job, &[]);
    assert!(received.is_empty());
    assert_eq!(actions[3], Action::Write { bytes: vec![] });
    assert_eq!(
        outcome_of(actions.into_iter().last().unwrap()),
        Ok(PrintResponse {
            success: true,
            message: "Successfully printed to 127.0.0.1:9100".to_string(),
        })
    );
}

#[test]
fn payload_is_sent_as_utf8_bytes() {
    let job = print_to_usb("/dev/ttyUSB0", "\u{1b}@é");
    assert_eq!(job.payload, vec![0x1b, 0x40, 0xc3, 0xa9]);
    let (actions, received) = run_smoothly(&job, &[]);
    assert_eq!(received, vec![0x1b, 0x40, 0xc3, 0xa9]);
    assert_eq!(
        actions,
        vec![
            Action::OpenDevice { path: "/dev/ttyUSB0".to_string() },
            Action::Write { bytes: vec![0x1b, 0x40, 0xc3, 0xa9] },
            Action::Flush,
            Action::Finish {
                outcome: Ok(PrintResponse {
                    success: true,
                    message: "Successfully wrote data to USB device at /dev/ttyUSB0".to_string(),
                }),
            },
        ]
    );
}

#[test]
fn test_mode_sends_no_bytes() {
    let jobs = vec![
        test_printer_connection("127.0.0.1", None),
        test_usb_connection("/dev/ttyUSB0"),
        test_system_printer("Front desk"),
    ];
    let messages = [
        "Successfully connected to printer at 127.0.0.1:9100",
        "Successfully opened USB device at /dev/ttyUSB0",
        "System printer Front desk is available",
    ];
    for (job, message) in jobs.iter().zip(messages) {
        assert!(job.payload.is_empty());
        let (actions, received) = run_smoothly(job, &["Front desk"]);
        assert_eq!(received.len(), 0);
        for action in &actions {
            assert!(!matches!(action, Action::Write { .. } | Action::Submit { .. }));
            assert!(!matches!(action, Action::SetWriteTimeout { .. } | Action::Flush));
        }
        assert_eq!(
            outcome_of(actions.into_iter().last().unwrap()),
            Ok(PrintResponse { success: true, message: message.to_string() })
        );
    }
}

#[test]
fn usb_print_with_empty_path_is_invalid_target() {
    for path in ["", "   ", "\t\n", "\u{3000}"] {
        for job in [print_to_usb(path, "data"), test_usb_connection(path)] {
            let (stage, action) = step(&job, Stage::Start, Event::Begin);
            assert_eq!(stage, Stage::Finished);
            let outcome = outcome_of(action);
            match &outcome {
                Err(DispatchError::Transport(e)) => assert_eq!(e.fault, Fault::InvalidTarget),
                other => panic!("unexpected outcome: {:?}", other),
            }
            assert_eq!(to_user_result(outcome), Err("No device path provided".to_string()));
        }
    }
}

#[test]
fn usb_path_with_inner_text_is_opened() {
    let job = print_to_usb(" /dev/cu.usbserial-1 ", "x");
    let (stage, action) = step(&job, Stage::Start, Event::Begin);
    assert_eq!(stage, Stage::Opening);
    assert_eq!(action, Action::OpenDevice { path: " /dev/cu.usbserial-1 ".to_string() });
}

#[test]
fn system_printer_absent_from_enumeration_is_not_found() {
    let job = print_to_system_printer("Kitchen", "order");
    let (stage, action) = step(&job, Stage::Start, Event::Begin);
    assert_eq!(action, Action::ListQueues);
    let names = vec!["Front desk".to_string(), "kitchen".to_string(), "Kitchen ".to_string()];
    let (stage, action) = step(&job, stage, Event::Queues { names });
    assert_eq!(stage, Stage::Finished);
    assert_eq!(
        outcome_of(action),
        Err(DispatchError::Transport(TransportError {
            fault: Fault::TargetNotFound,
            timed_out: false,
            kind: TransportKind::Queue,
            mode: Mode::Deliver,
            target: "Kitchen".to_string(),
            cause: String::new(),
        }))
    );
    let (_, action) = step(&job, Stage::Listing, Event::Queues { names: vec![] });
    assert_eq!(
        to_user_result(outcome_of(action)),
        Err("Printer not found: Kitchen".to_string())
    );
}

#[test]
fn system_printer_present_gets_one_raw_job() {
    let job = print_to_system_printer("Kitchen", "order");
    let (actions, received) = run_smoothly(&job, &["Front desk", "Kitchen"]);
    assert_eq!(received, "order".as_bytes().to_vec());
    assert_eq!(
        actions,
        vec![
            Action::ListQueues,
            Action::Submit { queue: "Kitchen".to_string(), bytes: "order".as_bytes().to_vec() },
            Action::Finish {
                outcome: Ok(PrintResponse {
                    success: true,
                    message: "Successfully printed to system printer Kitchen".to_string(),
                }),
            },
        ]
    );
}

#[test]
fn spooler_failures_end_the_job() {
    let job = print_to_system_printer("Kitchen", "order");
    let (stage, action) = step(&job, Stage::Listing, failure("spooler is down"));
    assert_eq!(stage, Stage::Finished);
    assert_eq!(
        outcome_of(action),
        Err(DispatchError::Enumeration(EnumerationError::Spooler {
            cause: "spooler is down".to_string()
        }))
    );
    let (_, action) = step(&job, Stage::Submitting, failure("rejected"));
    assert_eq!(
        to_user_result(outcome_of(action)),
        Err("Failed to submit job to printer Kitchen: rejected".to_string())
    );
}

#[test]
fn each_network_step_has_its_own_failure() {
    let job = print_to_network("x", "printer.local", Some(9100));
    let cases = [
        (Stage::Resolving, Fault::AddressParse, "Invalid address: boom"),
        (Stage::Connecting, Fault::Connect, "Failed to connect to printer at printer.local:9100: boom"),
        (Stage::Configuring, Fault::Configure, "Failed to set timeout: boom"),
        (Stage::Writing, Fault::Write, "Failed to write to printer: boom"),
        (Stage::Flushing, Fault::Flush, "Failed to flush stream: boom"),
    ];
    for (stage, fault, text) in cases {
        let (next, action) = step(&job, stage, failure("boom"));
        assert_eq!(next, Stage::Finished);
        let outcome = outcome_of(action);
        match &outcome {
            Err(DispatchError::Transport(e)) => {
                assert_eq!(e.fault, fault);
                assert!(!e.timed_out);
                assert_eq!(e.target, "printer.local:9100");
                assert_eq!(e.cause, "boom");
            }
            other => panic!("unexpected outcome: {:?}", other),
        }
        assert_eq!(to_user_result(outcome), Err(text.to_string()));
    }
}

#[test]
fn network_write_deadline_is_reported_under_its_step() {
    let job = print_to_network("x", "10.0.0.9", None);
    let cases = [
        (Stage::Writing, Fault::Write, "Failed to write to printer: slow"),
        (Stage::Flushing, Fault::Flush, "Failed to flush stream: slow"),
    ];
    for (stage, fault, text) in cases {
        let (next, action) =
            step(&job, stage, Event::Failed { timed_out: true, cause: "slow".to_string() });
        assert_eq!(next, Stage::Finished);
        let outcome = outcome_of(action);
        match &outcome {
            Err(DispatchError::Transport(e)) => {
                assert_eq!(e.fault, fault);
                assert!(e.timed_out);
            }
            other => panic!("unexpected outcome: {:?}", other),
        }
        assert_eq!(to_user_result(outcome), Err(text.to_string()));
    }
}

#[test]
fn delivery_and_check_fail_alike_before_any_write() {
    for timed_out in [false, true] {
        for stage in [Stage::Resolving, Stage::Connecting] {
            let deliver = print_to_network("x", "10.0.0.9", Some(9100));
            let check = test_printer_connection("10.0.0.9", Some(9100));
            let event = || Event::Failed { timed_out, cause: "why".to_string() };
            let (_, a) = step(&deliver, stage, event());
            let (_, b) = step(&check, stage, event());
            let a = to_user_result(outcome_of(a)).unwrap_err();
            let b = to_user_result(outcome_of(b)).unwrap_err();
            assert_eq!(a, b);
            assert!(
                a == "Invalid address: why"
                    || a == "Failed to connect to printer at 10.0.0.9:9100: why"
            );
        }
    }
}

#[test]
fn each_device_step_has_its_own_failure() {
    let job = print_to_usb("/dev/lp0", "x");
    let probe = test_usb_connection("/dev/lp0");
    let (_, action) = step(&job, Stage::Opening, failure("Permission denied"));
    assert_eq!(
        to_user_result(outcome_of(action)),
        Err("Failed to open device /dev/lp0 for writing: Permission denied. Ensure the path is correct and you have permission to access the device.".to_string())
    );
    let (_, action) = step(&probe, Stage::Opening, failure("Permission denied"));
    assert_eq!(
        to_user_result(outcome_of(action)),
        Err("Failed to open device /dev/lp0: Permission denied. This likely means the path is invalid or you lack permission.".to_string())
    );
    let (_, action) = step(&job, Stage::Writing, failure("I/O error"));
    assert_eq!(
        to_user_result(outcome_of(action)),
        Err("Failed to write to device /dev/lp0: I/O error".to_string())
    );
    let (_, action) =
        step(&job, Stage::Flushing, Event::Failed { timed_out: true, cause: "late".to_string() });
    assert_eq!(
        to_user_result(outcome_of(action)),
        Err("Failed to flush device /dev/lp0: late".to_string())
    );
}

#[test]
fn events_out_of_turn_are_unclassified() {
    let job = print_to_network("x", "127.0.0.1", None);
    let (stage, action) = step(&job, Stage::Start, failure("early"));
    assert_eq!(stage, Stage::Finished);
    assert_eq!(
        to_user_result(outcome_of(action)),
        Err("Unclassified error: early".to_string())
    );
    let (stage, action) = step(&job, Stage::Finished, Event::Completed);
    assert_eq!(stage, Stage::Finished);
    assert_eq!(
        to_user_result(outcome_of(action)),
        Err("Unclassified error: unexpected event".to_string())
    );
    let (_, action) = step(&job, Stage::Connecting, Event::Queues { names: vec![] });
    match outcome_of(action) {
        Err(DispatchError::Transport(e)) => assert_eq!(e.fault, Fault::Unclassified),
        other => panic!("unexpected outcome: {:?}", other),
    }
}

#[test]
fn target_is_resolved_by_kind() {
    assert_eq!(resolve_target(TransportKind::Network, "10.0.0.2", None), "10.0.0.2:9100");
    assert_eq!(resolve_target(TransportKind::Network, "10.0.0.2", Some(0)), "10.0.0.2:0");
    assert_eq!(resolve_target(TransportKind::Network, "10.0.0.2", Some(9)), "10.0.0.2:9");
    assert_eq!(resolve_target(TransportKind::Network, "10.0.0.2", Some(10)), "10.0.0.2:10");
    assert_eq!(resolve_target(TransportKind::Network, "[::1]", Some(65535)), "[::1]:65535");
    assert_eq!(resolve_target(TransportKind::Network, "", Some(80)), ":80");
    assert_eq!(resolve_target(TransportKind::Device, "/dev/lp0", Some(80)), "/dev/lp0");
    assert_eq!(resolve_target(TransportKind::Queue, "Kitchen", None), "Kitchen");
}

#[test]
fn jobs_are_built_from_requests() {
    let request = PrintRequest {
        kind: TransportKind::Network,
        target: "10.0.0.2".to_string(),
        port: Some(515),
        data: "hi".to_string(),
    };
    assert_eq!(
        Job::print(&request),
        Job {
            kind: TransportKind::Network,
            mode: Mode::Deliver,
            target: "10.0.0.2:515".to_string(),
            payload: vec![b'h', b'i'],
        }
    );
    let request =
        TestRequest { kind: TransportKind::Queue, target: "Kitchen".to_string(), port: None };
    assert_eq!(
        Job::test(&request),
        Job {
            kind: TransportKind::Queue,
            mode: Mode::Probe,
            target: "Kitchen".to_string(),
            payload: vec![],
        }
    );
}

#[test]
fn success_passes_through_the_mapper_unchanged() {
    let response = PrintResponse { success: true, message: "done".to_string() };
    assert_eq!(to_user_result(Ok(response.clone())), Ok(response));
}

#[test]
fn every_run_ends_within_six_actions() {
    let jobs = vec![
        print_to_network("x", "127.0.0.1", None),
        print_to_usb("/dev/lp0", "x"),
        print_to_system_printer("Kitchen", "x"),
        test_printer_connection("127.0.0.1", None),
        test_usb_connection("/dev/lp0"),
        test_system_printer("Kitchen"),
    ];
    let lengths = [6, 4, 3, 3, 2, 2];
    for (job, length) in jobs.iter().zip(lengths) {
        let (actions, _) = run_smoothly(job, &["Kitchen"]);
        assert_eq!(actions.len(), length);
        let (stage, action) = step(job, Stage::Finished, Event::Begin);
        assert_eq!(stage, Stage::Finished);
        assert!(matches!(action, Action::Finish { outcome: Err(_) }));
    }
}

#[test]
fn a_job_uses_only_its_own_transport() {
    let (actions, _) = run_smoothly(&print_to_network("x", "127.0.0.1", None), &["Kitchen"]);
    for action in &actions {
        assert!(!matches!(
            action,
            Action::OpenDevice { .. } | Action::ListQueues | Action::Submit { .. }
        ));
    }
    let (actions, _) = run_smoothly(&print_to_usb("/dev/lp0", "x"), &["Kitchen"]);
    for action in &actions {
        assert!(!matches!(
            action,
            Action::Resolve { .. }
                | Action::Connect { .. }
                | Action::SetWriteTimeout { .. }
                | Action::ListQueues
                | Action::Submit { .. }
        ));
    }
    let (actions, _) = run_smoothly(&print_to_system_printer("Kitchen", "x"), &["Kitchen"]);
    for action in &actions {
        assert!(!matches!(
            action,
            Action::Resolve { .. }
                | Action::Connect { .. }
                | Action::OpenDevice { .. }
                | Action::Write { .. }
                | Action::Flush
        ));
    }
}
