//! Stopping a program: the entry leaves the table first, then the command
//! that ends the process is run, then what it answered is judged.

use crate::command::{
    build_stop_by_name_text, build_stop_by_pid_text, kill_command, powershell, quote, quoted,
    stop_by_name_text, stop_by_pid_text, CommandOutput, CommandView, OsCommand, OutputView,
    Platform,
};
use crate::definition::{lookup, AppView};
use crate::error::{ErrorView, RegistryError};
use crate::launcher::run_view;
use crate::registry::{is_running, tracking_key, tracks_by_name, AppState};
use crate::text::{decimal, decimal_string};
use vstd::prelude::*;

verus! {

/// What a stop aims at.
#[derive(Debug, PartialEq, Eq)]
pub enum StopTarget {
    /// Every process with this name.
    ByName(String),
    /// The process with this identifier.
    ByPid(u32),
}

/// A `StopTarget` with its name as a sequence of characters.
pub enum StopTargetView {
    ByName(Seq<char>),
    ByPid(u32),
}

impl View for StopTarget {
    type V = StopTargetView;

    open spec fn view(&self) -> StopTargetView {
        match self {
            StopTarget::ByName(name) => StopTargetView::ByName(name@),
            StopTarget::ByPid(pid) => StopTargetView::ByPid(*pid),
        }
    }
}

/// The command that ends a process, and what it aims at.
#[derive(Debug, PartialEq, Eq)]
pub struct StopPlan {
    pub command: OsCommand,
    pub target: StopTarget,
}

/// A `StopPlan` with its strings as sequences of characters.
pub struct StopPlanView {
    pub command: CommandView,
    pub target: StopTargetView,
}

impl View for StopPlan {
    type V = StopPlanView;

    open spec fn view(&self) -> StopPlanView {
        StopPlanView { command: self.command@, target: self.target@ }
    }
}

/// How to stop the application `app_id`, or why it cannot be stopped.
///
/// Without an entry under the key of the application nothing runs that
/// could be stopped. An application tracked by name is stopped by the name
/// in its definition, which only Windows can do. Any other is stopped by
/// the process identifier in its entry.
pub open spec fn stop_plan(
    apps: Seq<AppView>,
    processes: Map<Seq<char>, u32>,
    app_id: Seq<char>,
    platform: Platform,
) -> Result<StopPlanView, ErrorView> {
    let key = tracking_key(apps, app_id);
    if !processes.contains_key(key) {
        Err(ErrorView::NotRunning)
    } else if tracks_by_name(apps, app_id) {
        let name = lookup(apps, app_id)->Some_0.name;
        match platform {
            Platform::Windows => Ok(
                StopPlanView {
                    command: powershell(stop_by_name_text(name)),
                    target: StopTargetView::ByName(name),
                },
            ),
            Platform::Other => Err(ErrorView::Unsupported),
        }
    } else {
        let pid = processes[key];
        Ok(
            StopPlanView {
                command: match platform {
                    Platform::Windows => powershell(stop_by_pid_text(pid)),
                    Platform::Other => kill_command(pid),
                },
                target: StopTargetView::ByPid(pid),
            },
        )
    }
}

/// How the target is written in an error text.
pub open spec fn target_text(target: StopTargetView) -> Seq<char> {
    match target {
        StopTargetView::ByName(name) => quoted(name),
        StopTargetView::ByPid(pid) => decimal(pid as nat),
    }
}

/// What a stop came to, given what the command that ends the process left
/// behind, or why it could not be run: success where it ran and reported
/// success, a `Stop` error otherwise.
pub open spec fn stop_outcome(
    target: StopTargetView,
    platform: Platform,
    result: Result<OutputView, Seq<char>>,
) -> Result<(), ErrorView> {
    match result {
        Err(why) => Err(
            ErrorView::Stop(
                match platform {
                    Platform::Windows => "Failed to stop application with Stop-Process: "@,
                    Platform::Other => "Failed to stop application: "@,
                } + why,
            ),
        ),
        Ok(output) => if output.success {
            Ok(())
        } else {
            Err(
                ErrorView::Stop(
                    "Failed to stop process "@ + target_text(target) + ": "@ + output.stderr,
                ),
            )
        },
    }
}

/// `outcome` as the contracts speak of it.
pub open spec fn plan_view(outcome: Result<StopPlan, RegistryError>) -> Result<
    StopPlanView,
    ErrorView,
> {
    match outcome {
        Ok(plan) => Ok(plan@),
        Err(error) => Err(error@),
    }
}

/// `outcome` as the contracts speak of it.
pub open spec fn unit_view(outcome: Result<(), RegistryError>) -> Result<(), ErrorView> {
    match outcome {
        Ok(_) => Ok(()),
        Err(error) => Err(error@),
    }
}

impl AppState {
    /// Takes the entry of the application out of the table and says how to
    /// end its process. The entry leaves the table whenever there is one:
    /// also where the platform cannot end a process by name, and whatever
    /// the command will come to.
    pub fn begin_stop(&mut self, app_id: &str, platform: Platform) -> (outcome: Result<
        StopPlan,
        RegistryError,
    >)
        ensures
            plan_view(outcome) == stop_plan(
                old(self).apps(),
                old(self).processes(),
                app_id@,
                platform,
            ),
            final(self).processes() == old(self).processes().remove(
                tracking_key(old(self).apps(), app_id@),
            ),
            final(self).apps() == old(self).apps(),
            !is_running(final(self).apps(), final(self).processes(), app_id@),
    {
        let key = self.key_of(app_id);
        let pid = match self.running_processes.get(key.as_str()) {
            Some(pid) => *pid,
            None => {
                assert(self.processes().remove(key@) =~= self.processes());
                return Err(RegistryError::NotRunning);
            },
        };
        self.running_processes.remove(key.as_str());
        match self.config.find(app_id) {
            Some(i) if self.config.registered_apps[i].prevent_duplicate => {
                let name = self.config.registered_apps[i].name.clone();
                match platform {
                    Platform::Windows => Ok(
                        StopPlan {
                            command: OsCommand::powershell(build_stop_by_name_text(name.as_str())),
                            target: StopTarget::ByName(name),
                        },
                    ),
                    Platform::Other => Err(RegistryError::Unsupported),
                }
            },
            _ => Ok(
                StopPlan {
                    command: match platform {
                        Platform::Windows => OsCommand::powershell(build_stop_by_pid_text(pid)),
                        Platform::Other => OsCommand::kill(pid),
                    },
                    target: StopTarget::ByPid(pid),
                },
            ),
        }
    }
}

/// Judges what the command that ends a process came to. `result` is what
/// the command left behind, or the reason why it could not be run.
pub fn finish_stop(
    target: &StopTarget,
    platform: Platform,
    result: Result<CommandOutput, String>,
) -> (outcome: Result<(), RegistryError>)
    ensures
        unit_view(outcome) == stop_outcome(target@, platform, run_view(result)),
{
    match result {
        Err(why) => {
            let mut text = match platform {
                Platform::Windows => "Failed to stop application with Stop-Process: ".to_owned(),
                Platform::Other => "Failed to stop application: ".to_owned(),
            };
            text.append(why.as_str());
            Err(RegistryError::Stop(text))
        },
        Ok(output) => {
            if output.success {
                Ok(())
            } else {
                let mut text = "Failed to stop process ".to_owned();
                match target {
                    StopTarget::ByName(name) => {
                        text.append(quote(name.as_str()).as_str());
                    },
                    StopTarget::ByPid(pid) => {
                        text.append(decimal_string(*pid).as_str());
                    },
                }
                text.append(": ");
                text.append(output.stderr.as_str());
                Err(RegistryError::Stop(text))
            }
        },
    }
}

} // verus!
