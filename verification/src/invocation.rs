//! A command about to be run: the program, its arguments, and the flags the
//! child process is created with.

use vstd::prelude::*;
use vstd::string::*;

verus! {

/// The process creation flag that keeps a console window from showing.
pub const CREATE_NO_WINDOW: u32 = 0x0800_0000;

/// A fully formed command: the program to start and its arguments in order.
/// `creation_flags` is for hosts whose processes are created with such flags.
#[derive(Debug, Clone, PartialEq, Eq)]
pub struct CommandInvocation {
    pub program: String,
    pub args: Vec<String>,
    pub creation_flags: u32,
}

/// The name of the scripting shell that runs every operation.
pub open spec fn shell_program() -> Seq<char> {
    "powershell"@
}

/// The flags that every invocation of the shell starts with: no banner, no
/// profile scripts, no prompts, no window, no restriction on running scripts,
/// and last the flag that announces the script text.
pub open spec fn shell_flags() -> Seq<Seq<char>> {
    seq![
        "-NoLogo"@,
        "-NoProfile"@,
        "-NonInteractive"@,
        "-WindowStyle"@,
        "Hidden"@,
        "-ExecutionPolicy"@,
        "Bypass"@,
        "-Command"@,
    ]
}

impl CommandInvocation {
    /// The arguments as texts.
    pub open spec fn arg_texts(&self) -> Seq<Seq<char>> {
        Seq::new(self.args@.len(), |i: int| self.args@[i]@)
    }

    /// The invocation starts the shell, hidden and with its fixed flags, on
    /// `script` as the single last argument.
    pub open spec fn runs_script(&self, script: Seq<char>) -> bool {
        &&& self.program@ == shell_program()
        &&& self.arg_texts() == shell_flags().push(script)
        &&& self.creation_flags == CREATE_NO_WINDOW
    }
}

/// Sets the flag that keeps the child's console window from showing, and
/// leaves the program and its arguments as they were.
pub fn configure_command_for_windows(command: &mut CommandInvocation)
    ensures
        final(command).creation_flags == CREATE_NO_WINDOW,
        final(command).program == old(command).program,
        final(command).args == old(command).args,
{
    command.creation_flags = CREATE_NO_WINDOW;
}

/// The invocation of the shell on one script.
pub fn configure_powershell_command(shell_command: &str) -> (command: CommandInvocation)
    ensures
        command.runs_script(shell_command@),
{
    let mut args: Vec<String> = Vec::new();
    args.push(String::from_str("-NoLogo"));
    args.push(String::from_str("-NoProfile"));
    args.push(String::from_str("-NonInteractive"));
    args.push(String::from_str("-WindowStyle"));
    args.push(String::from_str("Hidden"));
    args.push(String::from_str("-ExecutionPolicy"));
    args.push(String::from_str("Bypass"));
    args.push(String::from_str("-Command"));
    args.push(String::from_str(shell_command));
    let mut command = CommandInvocation {
        program: String::from_str("powershell"),
        args,
        creation_flags: 0,
    };
    configure_command_for_windows(&mut command);
    assert(command.arg_texts() =~= shell_flags().push(shell_command@));
    command
}

} // verus!
