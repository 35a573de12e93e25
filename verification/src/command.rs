//! Commands for the operating system, and what it answers.

use crate::text::{decimal, decimal_string, is_blank, split_arguments, str_is_blank, tokens};
use vstd::prelude::*;

verus! {

/// The two families of platforms. On `Windows` programs are started and
/// stopped through PowerShell, which can stop a process by its name. On any
/// `Other` platform programs are spawned directly and stopped with `kill`.
#[derive(Debug, Clone, Copy, PartialEq, Eq, Structural)]
pub enum Platform {
    Windows,
    Other,
}

/// A program to run and the arguments to hand it.
#[derive(Debug, PartialEq, Eq)]
pub struct OsCommand {
    pub program: String,
    pub args: Vec<String>,
}

/// An `OsCommand` with its strings as sequences of characters.
pub struct CommandView {
    pub program: Seq<char>,
    pub args: Seq<Seq<char>>,
}

impl View for OsCommand {
    type V = CommandView;

    open spec fn view(&self) -> CommandView {
        CommandView { program: self.program@, args: self.args.deep_view() }
    }
}

/// What a command that ran to its end left behind.
#[derive(Debug, PartialEq, Eq)]
pub struct CommandOutput {
    /// Whether it reported success.
    pub success: bool,
    /// What it wrote to its standard output.
    pub stdout: String,
    /// What it wrote to its standard error.
    pub stderr: String,
}

/// A `CommandOutput` with its strings as sequences of characters.
pub struct OutputView {
    pub success: bool,
    pub stdout: Seq<char>,
    pub stderr: Seq<char>,
}

impl View for CommandOutput {
    type V = OutputView;

    open spec fn view(&self) -> OutputView {
        OutputView { success: self.success, stdout: self.stdout@, stderr: self.stderr@ }
    }
}

/// `s` between single quotes.
pub open spec fn quoted(s: Seq<char>) -> Seq<char> {
    "'"@ + s + "'"@
}

/// The PowerShell text that starts the program at `path`. The arguments are
/// handed over as one quoted string, and left out where they are blank. With
/// `report_pid` the text also prints the identifier of the new process.
pub open spec fn start_process_text(
    path: Seq<char>,
    arguments: Seq<char>,
    report_pid: bool,
) -> Seq<char> {
    let start = "Start-Process -FilePath "@ + quoted(path) + if is_blank(arguments) {
        Seq::<char>::empty()
    } else {
        " -ArgumentList "@ + quoted(arguments)
    };
    if report_pid {
        "$process = "@ + start + " -PassThru"@ + "; Write-Output $process.Id"@
    } else {
        start
    }
}

/// The PowerShell text that ends every process named `name`.
pub open spec fn stop_by_name_text(name: Seq<char>) -> Seq<char> {
    "Stop-Process -Name "@ + quoted(name) + " -Force"@
}

/// The PowerShell text that ends every process named `name` and stays
/// silent where there is none.
pub open spec fn preempt_text(name: Seq<char>) -> Seq<char> {
    stop_by_name_text(name) + " -ErrorAction SilentlyContinue"@
}

/// The PowerShell text that ends the process `pid`.
pub open spec fn stop_by_pid_text(pid: u32) -> Seq<char> {
    "Stop-Process -Id "@ + decimal(pid as nat) + " -Force"@
}

/// The command that has a hidden PowerShell run `text`.
pub open spec fn powershell(text: Seq<char>) -> CommandView {
    CommandView {
        program: "powershell"@,
        args: seq!["-WindowStyle"@, "Hidden"@, "-Command"@, text],
    }
}

/// The command that runs the program at `path` itself, with the words of
/// `arguments` as its arguments.
pub open spec fn direct_command(path: Seq<char>, arguments: Seq<char>) -> CommandView {
    CommandView { program: path, args: tokens(arguments) }
}

/// The command that kills the process `pid`.
pub open spec fn kill_command(pid: u32) -> CommandView {
    CommandView { program: "kill"@, args: seq!["-9"@, decimal(pid as nat)] }
}

/// Puts a string between single quotes.
pub fn quote(s: &str) -> (q: String)
    ensures
        q@ == quoted(s@),
{
    let mut q = "'".to_owned();
    q.append(s);
    q.append("'");
    q
}

/// Builds the PowerShell text that starts a program.
pub fn build_start_process_text(path: &str, arguments: &str, report_pid: bool) -> (text: String)
    ensures
        text@ == start_process_text(path@, arguments@, report_pid),
{
    let mut start = "Start-Process -FilePath ".to_owned();
    start.append(quote(path).as_str());
    if !str_is_blank(arguments) {
        let ghost before = start@;
        start.append(" -ArgumentList ");
        start.append(quote(arguments).as_str());
        assert(start@ =~= before + (" -ArgumentList "@ + quoted(arguments@)));
    } else {
        assert(start@ =~= start@ + Seq::<char>::empty());
    }
    if report_pid {
        let mut text = "$process = ".to_owned();
        text.append(start.as_str());
        text.append(" -PassThru");
        text.append("; Write-Output $process.Id");
        text
    } else {
        start
    }
}

/// Builds the PowerShell text that ends processes by name.
pub fn build_stop_by_name_text(name: &str) -> (text: String)
    ensures
        text@ == stop_by_name_text(name@),
{
    let mut text = "Stop-Process -Name ".to_owned();
    text.append(quote(name).as_str());
    text.append(" -Force");
    text
}

/// Builds the PowerShell text that ends processes by name without
/// complaining where none runs.
pub fn build_preempt_text(name: &str) -> (text: String)
    ensures
        text@ == preempt_text(name@),
{
    let mut text = build_stop_by_name_text(name);
    text.append(" -ErrorAction SilentlyContinue");
    text
}

/// Builds the PowerShell text that ends a process by its identifier.
pub fn build_stop_by_pid_text(pid: u32) -> (text: String)
    ensures
        text@ == stop_by_pid_text(pid),
{
    let mut text = "Stop-Process -Id ".to_owned();
    text.append(decimal_string(pid).as_str());
    text.append(" -Force");
    text
}

impl OsCommand {
    /// The command that has a hidden PowerShell run `text`.
    pub fn powershell(text: String) -> (command: Self)
        ensures
            command@ == powershell(text@),
    {
        let mut args: Vec<String> = Vec::new();
        args.push("-WindowStyle".to_owned());
        args.push("Hidden".to_owned());
        args.push("-Command".to_owned());
        args.push(text);
        let command = OsCommand { program: "powershell".to_owned(), args };
        assert(command@.args =~= powershell(text@).args);
        command
    }

    /// The command that runs the program at `path` itself.
    pub fn direct(path: &str, arguments: &str) -> (command: Self)
        ensures
            command@ == direct_command(path@, arguments@),
            command.args.len() == 0 <==> is_blank(arguments@),
    {
        OsCommand { program: path.to_owned(), args: split_arguments(arguments) }
    }

    /// The command that kills the process `pid`.
    pub fn kill(pid: u32) -> (command: Self)
        ensures
            command@ == kill_command(pid),
    {
        let mut args: Vec<String> = Vec::new();
        args.push("-9".to_owned());
        args.push(decimal_string(pid));
        let command = OsCommand { program: "kill".to_owned(), args };
        assert(command@.args =~= kill_command(pid).args);
        command
    }
}

} // verus!
