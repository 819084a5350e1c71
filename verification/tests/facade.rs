use printer_control::commands::{
    begin, conclude, create_temp_file, finish, remove_temp_file, temp_file_location,
    PrinterBackend, Request,
};
use printer_control::error::Error;
use printer_control::executor::ProcessOutcome;
use printer_control::helper::StagedHelper;
use printer_control::models::{PingRequest, PingResponse, PrintOptions};
use printer_control::windows::{
    get_jobs, get_jobs_by_id, get_printers, get_printers_by_name, job_control, print_pdf,
    JobControl,
};

fn print_request(id: &str, path: &str, setting: &str, remove: bool) -> Request {
    Request::PrintPdf(PrintOptions {
        id: id.to_string(),
        path: path.to_string(),
        print_setting: setting.to_string(),
        remove_after_print: remove,
    })
}

fn every_request() -> Vec<Request> {
    let mut requests = vec![
        Request::GetPrinters,
        Request::GetPrintersByName { printername: "HP".to_string() },
        print_request("", "a.pdf", "-duplex", true),
        print_request("HP", "a.pdf", "-duplex", false),
        Request::GetJobs { printername: "HP".to_string() },
        Request::GetJobsById { printername: "HP".to_string(), jobid: "3".to_string() },
    ];
    for operation in [JobControl::Resume, JobControl::Restart, JobControl::Pause, JobControl::Remove]
    {
        requests.push(Request::Control {
            operation,
            printername: "HP".to_string(),
            jobid: "3".to_string(),
        });
    }
    requests
}

#[test]
fn backend_is_chosen_by_the_host() {
    assert_eq!(
        PrinterBackend::select(true, "C:\\Temp\\"),
        PrinterBackend::Native(StagedHelper { path: "C:\\Temp\\sm.exe".to_string() })
    );
    assert_eq!(PrinterBackend::select(false, "/tmp/"), PrinterBackend::Unsupported);
}

#[test]
fn unsupported_backend_fails_every_operation_and_builds_nothing() {
    let requests = every_request();
    assert_eq!(requests.len(), 10);
    for request in &requests {
        let step = begin(&PrinterBackend::Unsupported, request);
        assert_eq!(step, Err(Error::PlatformUnsupported));
    }
}

#[test]
fn unsupported_error_shows_the_sentinel() {
    let step = begin(&PrinterBackend::Unsupported, &Request::GetPrinters);
    assert_eq!(step.unwrap_err().message(), "Unsupported OS");
}

#[test]
fn native_backend_builds_the_operation_s_command() {
    let helper = StagedHelper::in_dir("C:\\Temp\\");
    let backend = PrinterBackend::Native(helper.clone());
    assert_eq!(begin(&backend, &Request::GetPrinters), Ok(get_printers()));
    assert_eq!(
        begin(&backend, &Request::GetPrintersByName { printername: "HP".to_string() }),
        Ok(get_printers_by_name("HP".to_string()))
    );
    assert_eq!(
        begin(&backend, &Request::GetJobs { printername: "HP".to_string() }),
        Ok(get_jobs("HP".to_string()))
    );
    assert_eq!(
        begin(
            &backend,
            &Request::GetJobsById { printername: "HP".to_string(), jobid: "3".to_string() }
        ),
        Ok(get_jobs_by_id("HP".to_string(), "3".to_string()))
    );
    assert_eq!(
        begin(
            &backend,
            &Request::Control {
                operation: JobControl::Pause,
                printername: "HP".to_string(),
                jobid: "3".to_string()
            }
        ),
        Ok(job_control(JobControl::Pause, "HP", "3"))
    );
    let options = PrintOptions {
        id: "HP".to_string(),
        path: "a.pdf".to_string(),
        print_setting: "-duplex".to_string(),
        remove_after_print: true,
    };
    assert_eq!(
        begin(&backend, &print_request("HP", "a.pdf", "-duplex", true)),
        Ok(print_pdf(&helper, &options))
    );
}

#[test]
fn native_backend_runs_the_staged_helper() {
    let backend = PrinterBackend::select(true, "D:\\t\\");
    let command = begin(&backend, &print_request("", "C:\\tmp\\a.pdf", "-duplex", true))
        .expect("the native backend builds a command");
    assert_eq!(
        command.args[8],
        "D:\\t\\sm.exe -print-to-default -duplex -silent C:\\tmp\\a.pdf"
    );
}

#[test]
fn print_with_removal_deletes_the_file_once_after_success() {
    let request = print_request("", "C:\\tmp\\a.pdf", "-duplex", true);
    let conclusion = conclude(&request, Ok("printed".to_string()));
    assert_eq!(conclusion.remove, Some("C:\\tmp\\a.pdf".to_string()));
    assert_eq!(conclusion.result, Ok("printed".to_string()));
}

#[test]
fn print_with_removal_deletes_the_file_after_failure_too() {
    let request = print_request("HP", "C:\\tmp\\a.pdf", "-duplex", true);
    let failure = Error::ProcessLaunchFailure("program not found".to_string());
    let conclusion = conclude(&request, Err(failure.clone()));
    assert_eq!(conclusion.remove, Some("C:\\tmp\\a.pdf".to_string()));
    assert_eq!(conclusion.result, Err(failure));
}

#[test]
fn print_without_removal_deletes_nothing() {
    let request = print_request("HP", "C:\\tmp\\a.pdf", "-duplex", false);
    let conclusion = conclude(&request, Ok(String::new()));
    assert_eq!(conclusion.remove, None);
    assert_eq!(conclusion.result, Ok(String::new()));
}

#[test]
fn other_operations_delete_nothing() {
    for request in every_request() {
        if let Request::PrintPdf(_) = request {
            continue;
        }
        let conclusion = conclude(&request, Ok("[]".to_string()));
        assert_eq!(conclusion.remove, None);
        assert_eq!(conclusion.result, Ok("[]".to_string()));
    }
}

#[test]
fn finish_reads_the_output_and_names_the_file() {
    let request = print_request("", "a.pdf", "", true);
    let outcome = ProcessOutcome::Exited { code: Some(3), stdout: vec![0x6f, 0x6b, 0xfe] };
    let conclusion = finish(&request, outcome);
    assert_eq!(conclusion.result, Ok("ok\u{fffd}".to_string()));
    assert_eq!(conclusion.remove, Some("a.pdf".to_string()));
}

#[test]
fn finish_reports_a_launch_failure() {
    let request = Request::GetJobs { printername: "HP".to_string() };
    let conclusion = finish(&request, ProcessOutcome::NotStarted("denied".to_string()));
    assert_eq!(conclusion.result, Err(Error::ProcessLaunchFailure("denied".to_string())));
    assert_eq!(conclusion.remove, None);
}

#[test]
fn temp_file_lies_right_behind_the_directory_text() {
    assert_eq!(temp_file_location("C:\\Temp\\", "a.pdf"), "C:\\Temp\\a.pdf");
    assert_eq!(temp_file_location("/tmp", "a.pdf"), "/tmpa.pdf");
    assert_eq!(temp_file_location("", ""), "");
}

#[test]
fn created_temp_file_returns_its_path() {
    assert_eq!(
        create_temp_file("C:\\Temp\\a.pdf".to_string(), Ok(())),
        Ok("C:\\Temp\\a.pdf".to_string())
    );
}

#[test]
fn temp_file_failures_carry_the_message() {
    assert_eq!(
        create_temp_file("C:\\Temp\\a.pdf".to_string(), Err("disk full".to_string())),
        Err(Error::TempFileFailure("disk full".to_string()))
    );
    assert_eq!(
        remove_temp_file(Err("not found".to_string())),
        Err(Error::TempFileFailure("not found".to_string()))
    );
}

#[test]
fn removed_temp_file_returns_true() {
    assert_eq!(remove_temp_file(Ok(())), Ok(true));
}

#[test]
fn every_error_shows_its_message() {
    assert_eq!(Error::PlatformUnsupported.message(), "Unsupported OS");
    assert_eq!(Error::StageFailure("a".to_string()).message(), "a");
    assert_eq!(Error::ProcessLaunchFailure("b".to_string()).message(), "b");
    assert_eq!(Error::TempFileFailure("c".to_string()).message(), "c");
}

#[test]
fn default_ping_response_is_empty() {
    assert_eq!(PingResponse::default().value, None);
    let request = PingRequest { value: Some("ping".to_string()) };
    let response = PingResponse { value: request.value.clone() };
    assert_eq!(response.clone().value, Some("ping".to_string()));
}
