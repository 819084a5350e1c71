use printer_control::error::Error;
use printer_control::executor::{captured_text, execution_result, ProcessOutcome};

#[test]
fn valid_output_is_read_as_it_is() {
    assert_eq!(captured_text(&b"[]".to_vec()), "[]");
    assert_eq!(captured_text(&"Drucker №1\r\n".as_bytes().to_vec()), "Drucker №1\r\n");
}

#[test]
fn empty_output_is_empty_text() {
    assert_eq!(captured_text(&Vec::new()), "");
}

#[test]
fn invalid_bytes_are_replaced() {
    assert_eq!(captured_text(&vec![0x66, 0xff, 0x6f]), "f\u{fffd}o");
    assert_eq!(captured_text(&vec![0xc3]), "\u{fffd}");
}

#[test]
fn started_process_gives_its_output() {
    let outcome = ProcessOutcome::Exited { code: Some(0), stdout: b"{\"Name\":\"HP\"}".to_vec() };
    assert_eq!(execution_result(outcome), Ok("{\"Name\":\"HP\"}".to_string()));
}

#[test]
fn exit_code_does_not_make_a_failure() {
    let failed = ProcessOutcome::Exited { code: Some(1), stdout: b"no such printer".to_vec() };
    assert_eq!(execution_result(failed), Ok("no such printer".to_string()));
    let killed = ProcessOutcome::Exited { code: None, stdout: Vec::new() };
    assert_eq!(execution_result(killed), Ok(String::new()));
}

#[test]
fn process_that_did_not_start_is_a_launch_failure() {
    let outcome = ProcessOutcome::NotStarted("program not found".to_string());
    assert_eq!(
        execution_result(outcome),
        Err(Error::ProcessLaunchFailure("program not found".to_string()))
    );
}
