//! The operations as a caller sees them. Each call is one exchange: `begin`
//! decides what to run, the caller runs it, and `conclude` decides what to
//! clean up and what to return. Nothing is kept between calls.

use vstd::prelude::*;
use vstd::string::*;
use crate::error::Error;
use crate::executor::{execution_result, is_execution_result, ProcessOutcome};
use crate::helper::{helper_path, StagedHelper};
use crate::invocation::CommandInvocation;
use crate::models::PrintOptions;
use crate::windows::{get_jobs, get_jobs_by_id, get_printers, get_printers_by_name, job_control,
    job_control_script, jobs_by_id_script, jobs_script, print_pdf, print_script,
    printers_by_name_script, printers_script, JobControl};

verus! {

/// What the operations run on: the host's spooler scripting shell with the
/// staged print helper, or nothing. One is chosen at start-up.
#[derive(Debug, Clone, PartialEq, Eq)]
pub enum PrinterBackend {
    Native(StagedHelper),
    Unsupported,
}

/// One operation with its arguments.
pub enum Request {
    GetPrinters,
    GetPrintersByName { printername: String },
    PrintPdf(PrintOptions),
    GetJobs { printername: String },
    GetJobsById { printername: String, jobid: String },
    Control { operation: JobControl, printername: String, jobid: String },
}

/// What the caller does after the command has run, and what it returns.
pub struct Conclusion {
    /// The file to delete. The attempt is made once, and its outcome is not
    /// reported.
    pub remove: Option<String>,
    /// What the operation returns.
    pub result: Result<String, Error>,
}

/// The script that a request runs, given the helper's path.
pub open spec fn request_script(helper: Seq<char>, request: Request) -> Seq<char> {
    match request {
        Request::GetPrinters => printers_script(),
        Request::GetPrintersByName { printername } => printers_by_name_script(printername@),
        Request::PrintPdf(options) => print_script(
            helper,
            options.id@,
            options.print_setting@,
            options.path@,
        ),
        Request::GetJobs { printername } => jobs_script(printername@),
        Request::GetJobsById { printername, jobid } => jobs_by_id_script(printername@, jobid@),
        Request::Control { operation, printername, jobid } => job_control_script(
            operation,
            printername@,
            jobid@,
        ),
    }
}

/// The script that a request runs on a backend, if it runs one.
pub open spec fn planned(backend: PrinterBackend, request: Request) -> Option<Seq<char>> {
    match backend {
        PrinterBackend::Native(helper) => Some(request_script(helper.path@, request)),
        PrinterBackend::Unsupported => None,
    }
}

/// The file that is deleted once the request's command has run: the printed
/// file, where a print request asks for that.
pub open spec fn removed_after(request: Request) -> Option<Seq<char>> {
    match request {
        Request::PrintPdf(options) => if options.remove_after_print {
            Some(options.path@)
        } else {
            None
        },
        _ => None,
    }
}

impl PrinterBackend {
    /// The backend for a host: the native one, with the helper's place in the
    /// given temporary directory, where the host has the spooler scripting
    /// shell, and the unsupported one where it has not.
    pub fn select(native: bool, temp_dir: &str) -> (backend: PrinterBackend)
        ensures
            native ==> (backend matches PrinterBackend::Native(helper) && helper.path@
                == helper_path(temp_dir@)),
            !native ==> backend is Unsupported,
    {
        if native {
            PrinterBackend::Native(StagedHelper::in_dir(temp_dir))
        } else {
            PrinterBackend::Unsupported
        }
    }
}

/// The first half of an operation. On the unsupported backend the operation
/// fails at once and no command is built; on the native backend the result is
/// the one command to run.
pub fn begin(
    backend: &PrinterBackend,
    request: &Request,
) -> (step: Result<CommandInvocation, Error>)
    ensures
        match planned(*backend, *request) {
            Some(script) => step matches Ok(command) && command.runs_script(script),
            None => step == Err::<CommandInvocation, Error>(Error::PlatformUnsupported),
        },
{
    match backend {
        PrinterBackend::Unsupported => Err(Error::PlatformUnsupported),
        PrinterBackend::Native(helper) => Ok(
            match request {
                Request::GetPrinters => get_printers(),
                Request::GetPrintersByName { printername } => get_printers_by_name(
                    printername.clone(),
                ),
                Request::PrintPdf(options) => print_pdf(helper, options),
                Request::GetJobs { printername } => get_jobs(printername.clone()),
                Request::GetJobsById { printername, jobid } => get_jobs_by_id(
                    printername.clone(),
                    jobid.clone(),
                ),
                Request::Control { operation, printername, jobid } => job_control(
                    *operation,
                    printername.as_str(),
                    jobid.as_str(),
                ),
            },
        ),
    }
}

/// The second half of an operation, given what the execution came to. The
/// result is handed on as it is. A print request that asks for it has its
/// file deleted, whether the command could be run or not; no other request
/// deletes anything.
pub fn conclude(request: &Request, executed: Result<String, Error>) -> (conclusion: Conclusion)
    ensures
        conclusion.result == executed,
        match removed_after(*request) {
            Some(path) => conclusion.remove matches Some(file) && file@ == path,
            None => conclusion.remove is None,
        },
{
    let remove = match request {
        Request::PrintPdf(options) => if options.remove_after_print {
            Some(options.path.clone())
        } else {
            None
        },
        _ => None,
    };
    Conclusion { remove, result: executed }
}

/// The second half of an operation, given how the process ended: the
/// conclusion of the request on the result of that execution.
pub fn finish(request: &Request, outcome: ProcessOutcome) -> (conclusion: Conclusion)
    ensures
        is_execution_result(outcome, conclusion.result),
        match removed_after(*request) {
            Some(path) => conclusion.remove matches Some(file) && file@ == path,
            None => conclusion.remove is None,
        },
{
    conclude(request, execution_result(outcome))
}

/// No request runs anything on the unsupported backend.
pub proof fn unsupported_runs_nothing(request: Request)
    ensures
        planned(PrinterBackend::Unsupported, request) is None,
{
}

/// Where a temporary file of the given name lies: the directory's text with
/// the name right behind it.
pub open spec fn temp_file_path(temp_dir: Seq<char>, filename: Seq<char>) -> Seq<char> {
    temp_dir + filename
}

/// The path of the temporary file of the given name.
pub fn temp_file_location(temp_dir: &str, filename: &str) -> (location: String)
    ensures
        location@ == temp_file_path(temp_dir@, filename@),
{
    let mut location = String::from_str(temp_dir);
    location.append(filename);
    location
}

/// What creating a temporary file returns, given its path and how writing it
/// went: the path, or the failure.
pub fn create_temp_file(
    location: String,
    written: Result<(), String>,
) -> (created: Result<String, Error>)
    ensures
        match written {
            Ok(_) => created == Ok::<String, Error>(location),
            Err(reason) => created == Err::<String, Error>(Error::TempFileFailure(reason)),
        },
{
    match written {
        Ok(()) => Ok(location),
        Err(reason) => Err(Error::TempFileFailure(reason)),
    }
}

/// What removing a temporary file returns, given how deleting it went: `true`,
/// or the failure.
pub fn remove_temp_file(removed: Result<(), String>) -> (done: Result<bool, Error>)
    ensures
        match removed {
            Ok(_) => done == Ok::<bool, Error>(true),
            Err(reason) => done == Err::<bool, Error>(Error::TempFileFailure(reason)),
        },
{
    match removed {
        Ok(()) => Ok(true),
        Err(reason) => Err(Error::TempFileFailure(reason)),
    }
}

} // verus!
