//! One builder for each operation: the script that the shell is to run, put
//! together from fixed template text and the caller's identifiers.
//!
//! Identifiers are set between double quotes and are not escaped: a caller must
//! not hand over an identifier that holds a double quote.

use vstd::prelude::*;
use vstd::string::*;
use crate::helper::StagedHelper;
use crate::invocation::{configure_powershell_command, CommandInvocation};
use crate::models::PrintOptions;
use crate::text::{contains, ends_with, join, joined, lemma_ends_with_last, lemma_middle_occurs,
    occurs_at, quoted, texts_of};

verus! {

/// The four operations that act on one existing print job.
#[derive(Debug, Clone, Copy, PartialEq, Eq)]
pub enum JobControl {
    Resume,
    Restart,
    Pause,
    Remove,
}

/// The fields that are reported of a printer.
pub open spec fn printer_fields() -> Seq<Seq<char>> {
    seq![
        "Name"@,
        "DriverName"@,
        "JobCount"@,
        "PrintProcessor"@,
        "PortName"@,
        "ShareName"@,
        "ComputerName"@,
        "PrinterStatus"@,
        "Shared"@,
        "Type"@,
        "Priority"@,
    ]
}

/// The fields that are reported of a print job.
pub open spec fn job_fields() -> Seq<Seq<char>> {
    seq![
        "DocumentName"@,
        "Id"@,
        "TotalPages"@,
        "Position"@,
        "Size"@,
        "SubmittedTime"@,
        "UserName"@,
        "PagesPrinted"@,
        "JobTime"@,
        "ComputerName"@,
        "Datatype"@,
        "PrinterName"@,
        "Priority"@,
        "JobStatus"@,
    ]
}

/// The end of a listing script: it keeps the named fields of each object and
/// writes the result as JSON.
pub open spec fn projection(fields: Seq<Seq<char>>, sep: Seq<char>) -> Seq<char> {
    " | Select-Object "@ + joined(fields, sep) + " | ConvertTo-Json"@
}

/// The end of a script that lists printers.
pub open spec fn printer_projection() -> Seq<char> {
    projection(printer_fields(), ", "@)
}

/// The end of a script that lists print jobs.
pub open spec fn job_projection() -> Seq<char> {
    projection(job_fields(), ","@)
}

/// The script that lists all printers.
pub open spec fn printers_script() -> Seq<char> {
    "Get-Printer"@ + printer_projection()
}

/// The script that lists the printer of one name.
pub open spec fn printers_by_name_script(printer: Seq<char>) -> Seq<char> {
    "Get-Printer -Name "@ + quoted(printer) + printer_projection()
}

/// The script that lists the jobs of one printer.
pub open spec fn jobs_script(printer: Seq<char>) -> Seq<char> {
    "Get-PrintJob -PrinterName "@ + quoted(printer) + job_projection()
}

/// The script that lists one job of one printer.
pub open spec fn jobs_by_id_script(printer: Seq<char>, job: Seq<char>) -> Seq<char> {
    "Get-PrintJob -PrinterName "@ + quoted(printer) + " -ID "@ + quoted(job) + job_projection()
}

/// The shell's command for each job-control operation.
pub open spec fn cmdlet(operation: JobControl) -> Seq<char> {
    match operation {
        JobControl::Resume => "Resume-PrintJob"@,
        JobControl::Restart => "Restart-PrintJob"@,
        JobControl::Pause => "Suspend-PrintJob"@,
        JobControl::Remove => "Remove-PrintJob"@,
    }
}

/// The script of a job-control operation on one job of one printer.
pub open spec fn job_control_script(
    operation: JobControl,
    printer: Seq<char>,
    job: Seq<char>,
) -> Seq<char> {
    cmdlet(operation) + " -PrinterName "@ + quoted(printer) + " -ID "@ + quoted(job)
}

/// The helper's flag for printing to the default printer.
pub open spec fn default_target() -> Seq<char> {
    "-print-to-default"@
}

/// The helper's flag for printing to the printer of the given identifier.
pub open spec fn explicit_target(id: Seq<char>) -> Seq<char> {
    "-print-to "@ + id
}

/// The helper's target flag for a request: the default printer where the
/// identifier is empty, the named printer otherwise.
pub open spec fn print_target(id: Seq<char>) -> Seq<char> {
    if id.len() == 0 {
        default_target()
    } else {
        explicit_target(id)
    }
}

/// The script that prints a file: the helper's path, the target flag, the
/// print setting as given, the flag for silent printing, and the file's path.
pub open spec fn print_script(
    helper: Seq<char>,
    id: Seq<char>,
    setting: Seq<char>,
    path: Seq<char>,
) -> Seq<char> {
    helper + " "@ + print_target(id) + " "@ + setting + " -silent "@ + path
}

/// Where the target flag starts in a print script.
pub open spec fn print_target_position(helper: Seq<char>) -> int {
    (helper.len() + 1) as int
}

/// Every job-control script holds the printer's name and the job's
/// identifier verbatim, each between two double quotes.
pub proof fn job_control_quotes_identifiers(
    operation: JobControl,
    printer: Seq<char>,
    job: Seq<char>,
)
    ensures
        contains(job_control_script(operation, printer, job), quoted(printer)),
        contains(job_control_script(operation, printer, job), quoted(job)),
{
    let script = job_control_script(operation, printer, job);
    let head = cmdlet(operation) + " -PrinterName "@;
    let tail = " -ID "@ + quoted(job);
    assert(script =~= head + quoted(printer) + tail);
    lemma_middle_occurs(head, quoted(printer), tail);
    let front = head + quoted(printer) + " -ID "@;
    assert(script =~= front + quoted(job) + Seq::<char>::empty());
    lemma_middle_occurs(front, quoted(job), Seq::<char>::empty());
}

/// Every listing script that names a printer or a job holds each identifier
/// verbatim between two double quotes.
pub proof fn listing_quotes_identifiers(printer: Seq<char>, job: Seq<char>)
    ensures
        contains(printers_by_name_script(printer), quoted(printer)),
        contains(jobs_script(printer), quoted(printer)),
        contains(jobs_by_id_script(printer, job), quoted(printer)),
        contains(jobs_by_id_script(printer, job), quoted(job)),
{
    lemma_middle_occurs("Get-Printer -Name "@, quoted(printer), printer_projection());
    lemma_middle_occurs("Get-PrintJob -PrinterName "@, quoted(printer), job_projection());
    let head = "Get-PrintJob -PrinterName "@;
    let tail = " -ID "@ + quoted(job) + job_projection();
    assert(jobs_by_id_script(printer, job) =~= head + quoted(printer) + tail);
    lemma_middle_occurs(head, quoted(printer), tail);
    let front = head + quoted(printer) + " -ID "@;
    assert(jobs_by_id_script(printer, job) =~= front + quoted(job) + job_projection());
    lemma_middle_occurs(front, quoted(job), job_projection());
}

/// Every listing script ends by writing its result as JSON.
pub proof fn listing_ends_in_json(printer: Seq<char>, job: Seq<char>)
    ensures
        ends_with(printers_script(), " | ConvertTo-Json"@),
        ends_with(printers_by_name_script(printer), " | ConvertTo-Json"@),
        ends_with(jobs_script(printer), " | ConvertTo-Json"@),
        ends_with(jobs_by_id_script(printer, job), " | ConvertTo-Json"@),
{
    let json = " | ConvertTo-Json"@;
    let printers = " | Select-Object "@ + joined(printer_fields(), ", "@);
    let jobs = " | Select-Object "@ + joined(job_fields(), ","@);
    lemma_ends_with_last("Get-Printer"@ + printers, json);
    assert(printers_script() =~= "Get-Printer"@ + printers + json);
    lemma_ends_with_last("Get-Printer -Name "@ + quoted(printer) + printers, json);
    assert(printers_by_name_script(printer) =~= "Get-Printer -Name "@ + quoted(printer) + printers
        + json);
    lemma_ends_with_last("Get-PrintJob -PrinterName "@ + quoted(printer) + jobs, json);
    assert(jobs_script(printer) =~= "Get-PrintJob -PrinterName "@ + quoted(printer) + jobs + json);
    lemma_ends_with_last(
        "Get-PrintJob -PrinterName "@ + quoted(printer) + " -ID "@ + quoted(job) + jobs,
        json,
    );
    assert(jobs_by_id_script(printer, job) =~= "Get-PrintJob -PrinterName "@ + quoted(printer)
        + " -ID "@ + quoted(job) + jobs + json);
}

/// A print script starts with the helper's path and ends with the path of the
/// file to print.
pub proof fn print_runs_helper_on_file(
    helper: Seq<char>,
    id: Seq<char>,
    setting: Seq<char>,
    path: Seq<char>,
)
    ensures
        occurs_at(print_script(helper, id, setting, path), helper, 0),
        ends_with(print_script(helper, id, setting, path), path),
{
    let script = print_script(helper, id, setting, path);
    let rest = " "@ + print_target(id) + " "@ + setting + " -silent "@ + path;
    assert(script =~= Seq::<char>::empty() + helper + rest);
    lemma_middle_occurs(Seq::<char>::empty(), helper, rest);
    lemma_ends_with_last(helper + " "@ + print_target(id) + " "@ + setting + " -silent "@, path);
}

/// The two target flags differ, whatever the identifier.
pub proof fn targets_differ(id: Seq<char>)
    ensures
        default_target() != explicit_target(id),
{
    reveal_strlit("-print-to-default");
    reveal_strlit("-print-to ");
    assert(default_target()[9] == '-');
    assert(explicit_target(id)[9] == ' ');
}

/// A print script selects exactly one target. Right behind the helper's path
/// and one space stands the flag for the default printer if and only if the
/// identifier is empty, and the flag for the named printer if and only if it
/// is not.
pub proof fn print_selects_one_target(
    helper: Seq<char>,
    id: Seq<char>,
    setting: Seq<char>,
    path: Seq<char>,
)
    ensures
        occurs_at(
            print_script(helper, id, setting, path),
            print_target(id),
            print_target_position(helper),
        ),
        occurs_at(
            print_script(helper, id, setting, path),
            default_target(),
            print_target_position(helper),
        ) <==> id.len() == 0,
        occurs_at(
            print_script(helper, id, setting, path),
            explicit_target(id),
            print_target_position(helper),
        ) <==> id.len() > 0,
{
    reveal_strlit(" ");
    reveal_strlit("-print-to-default");
    reveal_strlit("-print-to ");
    let script = print_script(helper, id, setting, path);
    let at = print_target_position(helper);
    let head = helper + " "@;
    let tail = " "@ + setting + " -silent "@ + path;
    assert(script =~= head + print_target(id) + tail);
    lemma_middle_occurs(head, print_target(id), tail);
    assert(print_target(id).len() >= 10);
    assert(script[at + 9] == print_target(id)[9]);
    if id.len() == 0 {
        assert(print_target(id)[9] == '-');
        if occurs_at(script, explicit_target(id), at) {
            assert(script.subrange(at, at + explicit_target(id).len())[9] == script[at + 9]);
            assert(explicit_target(id)[9] == ' ');
        }
    } else {
        assert(print_target(id)[9] == ' ');
        if occurs_at(script, default_target(), at) {
            assert(script.subrange(at, at + default_target().len())[9] == script[at + 9]);
            assert(default_target()[9] == '-');
        }
    }
}

fn append_quoted(script: &mut String, id: &str)
    ensures
        final(script)@ == old(script)@ + quoted(id@),
{
    proof {
        reveal_strlit("\"");
        assert("\""@ =~= seq!['"']);
    }
    script.append("\"");
    script.append(id);
    script.append("\"");
    assert(script@ =~= old(script)@ + quoted(id@));
}

fn append_projection(script: &mut String, fields: &Vec<&str>, sep: &str)
    ensures
        final(script)@ == old(script)@ + projection(texts_of(fields@), sep@),
{
    let names = join(fields, sep);
    script.append(" | Select-Object ");
    script.append(names.as_str());
    script.append(" | ConvertTo-Json");
    assert(script@ =~= old(script)@ + projection(texts_of(fields@), sep@));
}

fn printer_field_names() -> (names: Vec<&'static str>)
    ensures
        texts_of(names@) == printer_fields(),
{
    let names = vec![
        "Name",
        "DriverName",
        "JobCount",
        "PrintProcessor",
        "PortName",
        "ShareName",
        "ComputerName",
        "PrinterStatus",
        "Shared",
        "Type",
        "Priority",
    ];
    assert(texts_of(names@) =~= printer_fields());
    names
}

fn job_field_names() -> (names: Vec<&'static str>)
    ensures
        texts_of(names@) == job_fields(),
{
    let names = vec![
        "DocumentName",
        "Id",
        "TotalPages",
        "Position",
        "Size",
        "SubmittedTime",
        "UserName",
        "PagesPrinted",
        "JobTime",
        "ComputerName",
        "Datatype",
        "PrinterName",
        "Priority",
        "JobStatus",
    ];
    assert(texts_of(names@) =~= job_fields());
    names
}

/// The command that lists all printers as JSON.
pub fn get_printers() -> (command: CommandInvocation)
    ensures
        command.runs_script(printers_script()),
{
    let mut script = String::from_str("Get-Printer");
    append_projection(&mut script, &printer_field_names(), ", ");
    configure_powershell_command(script.as_str())
}

/// The command that lists the printer of the given name as JSON.
pub fn get_printers_by_name(printername: String) -> (command: CommandInvocation)
    ensures
        command.runs_script(printers_by_name_script(printername@)),
{
    let mut script = String::from_str("Get-Printer -Name ");
    append_quoted(&mut script, printername.as_str());
    append_projection(&mut script, &printer_field_names(), ", ");
    configure_powershell_command(script.as_str())
}

/// The command that lists the jobs of the given printer as JSON.
pub fn get_jobs(printername: String) -> (command: CommandInvocation)
    ensures
        command.runs_script(jobs_script(printername@)),
{
    let mut script = String::from_str("Get-PrintJob -PrinterName ");
    append_quoted(&mut script, printername.as_str());
    append_projection(&mut script, &job_field_names(), ",");
    configure_powershell_command(script.as_str())
}

/// The command that lists one job of the given printer as JSON.
pub fn get_jobs_by_id(printername: String, jobid: String) -> (command: CommandInvocation)
    ensures
        command.runs_script(jobs_by_id_script(printername@, jobid@)),
{
    let mut script = String::from_str("Get-PrintJob -PrinterName ");
    append_quoted(&mut script, printername.as_str());
    script.append(" -ID ");
    append_quoted(&mut script, jobid.as_str());
    append_projection(&mut script, &job_field_names(), ",");
    configure_powershell_command(script.as_str())
}

/// The command of a job-control operation on one job of one printer.
pub fn job_control(
    operation: JobControl,
    printername: &str,
    jobid: &str,
) -> (command: CommandInvocation)
    ensures
        command.runs_script(job_control_script(operation, printername@, jobid@)),
{
    let mut script = match operation {
        JobControl::Resume => String::from_str("Resume-PrintJob"),
        JobControl::Restart => String::from_str("Restart-PrintJob"),
        JobControl::Pause => String::from_str("Suspend-PrintJob"),
        JobControl::Remove => String::from_str("Remove-PrintJob"),
    };
    script.append(" -PrinterName ");
    append_quoted(&mut script, printername);
    script.append(" -ID ");
    append_quoted(&mut script, jobid);
    configure_powershell_command(script.as_str())
}

/// The command that resumes a paused job.
pub fn resume_job(printername: String, jobid: String) -> (command: CommandInvocation)
    ensures
        command.runs_script(job_control_script(JobControl::Resume, printername@, jobid@)),
{
    job_control(JobControl::Resume, printername.as_str(), jobid.as_str())
}

/// The command that starts a job again from its beginning.
pub fn restart_job(printername: String, jobid: String) -> (command: CommandInvocation)
    ensures
        command.runs_script(job_control_script(JobControl::Restart, printername@, jobid@)),
{
    job_control(JobControl::Restart, printername.as_str(), jobid.as_str())
}

/// The command that pauses a job.
pub fn pause_job(printername: String, jobid: String) -> (command: CommandInvocation)
    ensures
        command.runs_script(job_control_script(JobControl::Pause, printername@, jobid@)),
{
    job_control(JobControl::Pause, printername.as_str(), jobid.as_str())
}

/// The command that removes a job from its printer's queue.
pub fn remove_job(printername: String, jobid: String) -> (command: CommandInvocation)
    ensures
        command.runs_script(job_control_script(JobControl::Remove, printername@, jobid@)),
{
    job_control(JobControl::Remove, printername.as_str(), jobid.as_str())
}

/// The command that prints a file through the staged helper: to the default
/// printer where the request names none, to the named printer otherwise.
pub fn print_pdf(helper: &StagedHelper, options: &PrintOptions) -> (command: CommandInvocation)
    ensures
        command.runs_script(
            print_script(helper.path@, options.id@, options.print_setting@, options.path@),
        ),
{
    let mut script = helper.path.clone();
    script.append(" ");
    if options.id.as_str().unicode_len() == 0 {
        script.append("-print-to-default");
    } else {
        script.append("-print-to ");
        script.append(options.id.as_str());
    }
    script.append(" ");
    script.append(options.print_setting.as_str());
    script.append(" -silent ");
    script.append(options.path.as_str());
    assert(script@ =~= print_script(
        helper.path@,
        options.id@,
        options.print_setting@,
        options.path@,
    ));
    configure_powershell_command(script.as_str())
}

} // verus!
