//! Starting a program: the command to run, and what to record once the
//! operating system has answered.

use crate::command::{
    build_start_process_text, direct_command, powershell, start_process_text, CommandOutput,
    CommandView, OsCommand, OutputView, Platform,
};
use crate::definition::{lookup, AppView};
use crate::error::{ErrorView, RegistryError};
use crate::registry::{is_running, name_key, tracking_key, tracks_by_name, AppState};
use crate::text::{parse_u32, parsed_u32, trim, trimmed};
use vstd::prelude::*;

verus! {

/// How a program started through the shell is tracked afterwards.
#[derive(Debug, Clone, Copy, PartialEq, Eq, Structural)]
pub enum Tracking {
    /// By its name: the identifier of the new process is not asked for.
    ByName,
    /// By the identifier that the shell prints for the new process.
    ByPid,
}

/// How a command that starts a program is to be run.
#[derive(Debug, Clone, Copy, PartialEq, Eq, Structural)]
pub enum LaunchMode {
    /// Run the command to its end and report what it left behind.
    Shell(Tracking),
    /// Spawn the command and report the identifier of the new process.
    Direct,
}

/// The command that starts a program, and how to run it.
#[derive(Debug, PartialEq, Eq)]
pub struct LaunchPlan {
    pub command: OsCommand,
    pub mode: LaunchMode,
}

/// A `LaunchPlan` with its strings as sequences of characters.
pub struct LaunchPlanView {
    pub command: CommandView,
    pub mode: LaunchMode,
}

impl View for LaunchPlan {
    type V = LaunchPlanView;

    open spec fn view(&self) -> LaunchPlanView {
        LaunchPlanView { command: self.command@, mode: self.mode }
    }
}

/// How to start the program at `path` for the application `app_id`.
///
/// An application with a definition is started through the shell on
/// Windows, tracked by name where its definition forbids a second instance
/// and by process identifier otherwise. Everything else is spawned
/// directly: an id without a definition, and any application on another
/// platform.
pub open spec fn launch_plan(
    apps: Seq<AppView>,
    app_id: Seq<char>,
    path: Seq<char>,
    arguments: Seq<char>,
    platform: Platform,
) -> LaunchPlanView {
    match lookup(apps, app_id) {
        Some(app) if platform == Platform::Windows => {
            if app.prevent_duplicate {
                LaunchPlanView {
                    command: powershell(start_process_text(path, arguments, false)),
                    mode: LaunchMode::Shell(Tracking::ByName),
                }
            } else {
                LaunchPlanView {
                    command: powershell(start_process_text(path, arguments, true)),
                    mode: LaunchMode::Shell(Tracking::ByPid),
                }
            }
        },
        _ => LaunchPlanView {
            command: direct_command(path, arguments),
            mode: LaunchMode::Direct,
        },
    }
}

/// What running a command came to: what it left behind, or why it could
/// not be run.
pub open spec fn run_view(result: Result<CommandOutput, String>) -> Result<OutputView, Seq<char>> {
    match result {
        Ok(output) => Ok(output@),
        Err(why) => Err(why@),
    }
}

/// What spawning a command came to: the identifier of the new process, or
/// why it could not be spawned.
pub open spec fn spawn_view(result: Result<u32, String>) -> Result<u32, Seq<char>> {
    match result {
        Ok(pid) => Ok(pid),
        Err(why) => Err(why@),
    }
}

/// The entry to record after a start through the shell, or the error.
///
/// The start succeeded where the command ran and reported success. An
/// application tracked by name is then recorded under its name key with the
/// identifier 0. One tracked by process identifier is recorded under its id
/// with the number that the command printed, and the start fails where no
/// number can be read from the output.
pub open spec fn shell_launch_entry(
    app_id: Seq<char>,
    tracking: Tracking,
    result: Result<OutputView, Seq<char>>,
) -> Result<(Seq<char>, u32), ErrorView> {
    match result {
        Err(why) => Err(
            ErrorView::Launch(
                match tracking {
                    Tracking::ByName => "Failed to launch application: "@,
                    Tracking::ByPid => "Failed to launch application with Start-Process: "@,
                } + why,
            ),
        ),
        Ok(output) => if !output.success {
            Err(ErrorView::Launch("Start-Process failed: "@ + output.stderr))
        } else {
            match tracking {
                Tracking::ByName => Ok((name_key(app_id), 0u32)),
                Tracking::ByPid => match parsed_u32(trimmed(output.stdout)) {
                    Some(pid) => Ok((app_id, pid)),
                    None => Err(
                        ErrorView::Launch(
                            "Failed to parse process ID: "@ + trimmed(output.stdout),
                        ),
                    ),
                },
            }
        },
    }
}

/// The entry to record after a direct start, or the error.
pub open spec fn direct_launch_entry(app_id: Seq<char>, result: Result<u32, Seq<char>>) -> Result<
    (Seq<char>, u32),
    ErrorView,
> {
    match result {
        Ok(pid) => Ok((app_id, pid)),
        Err(why) => Err(ErrorView::Launch("Failed to launch application: "@ + why)),
    }
}

/// Whether recording a launch went as `entry` says: on success exactly one
/// entry was put into the table, on failure the table stayed as it was and
/// the error is the one given.
pub open spec fn recorded(
    before: Map<Seq<char>, u32>,
    after: Map<Seq<char>, u32>,
    entry: Result<(Seq<char>, u32), ErrorView>,
    outcome: Result<(), RegistryError>,
) -> bool {
    match entry {
        Ok((key, pid)) => outcome is Ok && after == before.insert(key, pid),
        Err(error) => outcome is Err && outcome->Err_0@ == error && after == before,
    }
}

/// On Windows a start of an application that has a definition is recorded
/// under the key by which the application is looked up afterwards: once it
/// is recorded, the application counts as running.
pub proof fn lemma_shell_launch_is_tracked(
    apps: Seq<AppView>,
    processes: Map<Seq<char>, u32>,
    app_id: Seq<char>,
    path: Seq<char>,
    arguments: Seq<char>,
    result: Result<OutputView, Seq<char>>,
)
    requires
        lookup(apps, app_id) is Some,
    ensures
        match launch_plan(apps, app_id, path, arguments, Platform::Windows).mode {
            LaunchMode::Shell(tracking) => match shell_launch_entry(app_id, tracking, result) {
                Ok((key, pid)) => key == tracking_key(apps, app_id) && is_running(
                    apps,
                    processes.insert(key, pid),
                    app_id,
                ),
                Err(_) => true,
            },
            LaunchMode::Direct => false,
        },
{
}

/// A direct start of an application that is not tracked by name is recorded
/// under the key by which the application is looked up afterwards.
pub proof fn lemma_direct_launch_is_tracked(
    apps: Seq<AppView>,
    processes: Map<Seq<char>, u32>,
    app_id: Seq<char>,
    pid: u32,
)
    requires
        !tracks_by_name(apps, app_id),
    ensures
        direct_launch_entry(app_id, Ok(pid)) == Ok::<(Seq<char>, u32), ErrorView>((app_id, pid)),
        is_running(apps, processes.insert(app_id, pid), app_id),
{
}

fn launch_error(prefix: &str, why: &str) -> (error: RegistryError)
    ensures
        error@ == ErrorView::Launch(prefix@ + why@),
{
    let mut text = prefix.to_owned();
    text.append(why);
    RegistryError::Launch(text)
}

impl AppState {
    /// Works out how to start the program at `path` for the application
    /// `app_id`. The registry is not changed.
    pub fn plan_launch(&self, app_id: &str, path: &str, arguments: &str, platform: Platform) -> (plan:
        LaunchPlan)
        ensures
            plan@ == launch_plan(self.apps(), app_id@, path@, arguments@, platform),
    {
        let shell = match platform {
            Platform::Windows => true,
            Platform::Other => false,
        };
        match self.config.find(app_id) {
            Some(i) if shell => {
                if self.config.registered_apps[i].prevent_duplicate {
                    LaunchPlan {
                        command: OsCommand::powershell(
                            build_start_process_text(path, arguments, false),
                        ),
                        mode: LaunchMode::Shell(Tracking::ByName),
                    }
                } else {
                    LaunchPlan {
                        command: OsCommand::powershell(
                            build_start_process_text(path, arguments, true),
                        ),
                        mode: LaunchMode::Shell(Tracking::ByPid),
                    }
                }
            },
            _ => LaunchPlan {
                command: OsCommand::direct(path, arguments),
                mode: LaunchMode::Direct,
            },
        }
    }

    /// Records what a start through the shell came to. `result` is what the
    /// command left behind, or the reason why it could not be run.
    pub fn record_shell_launch(
        &mut self,
        app_id: &str,
        tracking: Tracking,
        result: Result<CommandOutput, String>,
    ) -> (outcome: Result<(), RegistryError>)
        ensures
            recorded(
                old(self).processes(),
                final(self).processes(),
                shell_launch_entry(app_id@, tracking, run_view(result)),
                outcome,
            ),
            final(self).apps() == old(self).apps(),
    {
        match result {
            Err(why) => {
                let prefix = match tracking {
                    Tracking::ByName => "Failed to launch application: ",
                    Tracking::ByPid => "Failed to launch application with Start-Process: ",
                };
                Err(launch_error(prefix, why.as_str()))
            },
            Ok(output) => {
                if !output.success {
                    return Err(launch_error("Start-Process failed: ", output.stderr.as_str()));
                }
                match tracking {
                    Tracking::ByName => {
                        let mut key = app_id.to_owned();
                        key.append(":name");
                        self.running_processes.insert(key, 0);
                        Ok(())
                    },
                    Tracking::ByPid => {
                        let printed = trim(output.stdout.as_str());
                        match parse_u32(printed) {
                            Some(pid) => {
                                self.running_processes.insert(app_id.to_owned(), pid);
                                Ok(())
                            },
                            None => Err(launch_error("Failed to parse process ID: ", printed)),
                        }
                    },
                }
            },
        }
    }

    /// Records what a direct start came to. `result` is the identifier of
    /// the new process, or the reason why none was spawned.
    pub fn record_direct_launch(&mut self, app_id: &str, result: Result<u32, String>) -> (outcome:
        Result<(), RegistryError>)
        ensures
            recorded(
                old(self).processes(),
                final(self).processes(),
                direct_launch_entry(app_id@, spawn_view(result)),
                outcome,
            ),
            final(self).apps() == old(self).apps(),
    {
        match result {
            Ok(pid) => {
                self.running_processes.insert(app_id.to_owned(), pid);
                Ok(())
            },
            Err(why) => Err(launch_error("Failed to launch application: ", why.as_str())),
        }
    }
}

} // verus!
