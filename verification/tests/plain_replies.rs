use printer_control::api::{create_temp_file, remove_temp_file, reply};
use printer_control::commands::{begin, PrinterBackend, Request};
use printer_control::error::Error;

#[test]
fn reply_to_output_is_the_output() {
    assert_eq!(reply(Ok("[]".to_string())), "[]");
}

#[test]
fn reply_on_unsupported_host_is_the_sentinel() {
    let step = begin(&PrinterBackend::Unsupported, &Request::GetPrinters);
    assert_eq!(reply(step.map(|_| String::new())), "Unsupported OS");
    assert_eq!(reply(Err(Error::PlatformUnsupported)), "Unsupported OS");
}

#[test]
fn reply_to_failure_is_its_message() {
    assert_eq!(reply(Err(Error::ProcessLaunchFailure("denied".to_string()))), "denied");
}

#[test]
fn plain_create_returns_path_or_nothing() {
    assert_eq!(create_temp_file("C:\\Temp\\a.pdf".to_string(), Ok(())), "C:\\Temp\\a.pdf");
    assert_eq!(create_temp_file("C:\\Temp\\a.pdf".to_string(), Err("disk full".to_string())), "");
}

#[test]
fn plain_remove_returns_whether_it_went_well() {
    assert!(remove_temp_file(Ok(())));
    assert!(!remove_temp_file(Err("not found".to_string())));
}
