use utility_launcher::command::{
    build_preempt_text, build_start_process_text, build_stop_by_name_text,
    build_stop_by_pid_text, quote, CommandOutput, OsCommand, Platform,
};
use utility_launcher::definition::{AppConfig, RegisteredApp};
use utility_launcher::error::RegistryError;
use utility_launcher::launcher::{LaunchMode, LaunchPlan, Tracking};
use utility_launcher::registry::AppState;
use utility_launcher::startup::StartupStep;
use utility_launcher::stopper::{finish_stop, StopPlan, StopTarget};

fn app(id: &str, name: &str, prevent_duplicate: bool) -> RegisteredApp {
    RegisteredApp {
        id: id.to_string(),
        name: name.to_string(),
        path: format!("C:\\Apps\\{}.exe", name),
        arguments: String::new(),
        description: String::new(),
        enabled: true,
        delay: 0,
        prevent_duplicate,
        auto_start: false,
    }
}

fn registry() -> AppState {
    AppState::new(AppConfig {
        registered_apps: vec![app("plain", "notes", false), app("single", "player", true)],
    })
}

fn strings(items: &[&str]) -> Vec<String> {
    items.iter().map(|s| s.to_string()).collect()
}

fn shell(text: &str) -> OsCommand {
    OsCommand {
        program: "powershell".to_string(),
        args: strings(&["-WindowStyle", "Hidden", "-Command", text]),
    }
}

fn output(success: bool, stdout: &str, stderr: &str) -> CommandOutput {
    CommandOutput { success, stdout: stdout.to_string(), stderr: stderr.to_string() }
}

fn entries(state: &AppState) -> usize {
    state.running_processes.len()
}

#[test]
fn quoting_puts_single_quotes_around() {
    assert_eq!(quote(""), "''");
    assert_eq!(quote("C:\\Program Files\\a.exe"), "'C:\\Program Files\\a.exe'");
}

#[test]
fn start_process_text_without_arguments() {
    assert_eq!(
        build_start_process_text("C:\\a.exe", "", false),
        "Start-Process -FilePath 'C:\\a.exe'"
    );
    assert_eq!(
        build_start_process_text("C:\\a.exe", "   ", false),
        "Start-Process -FilePath 'C:\\a.exe'"
    );
    assert_eq!(
        build_start_process_text("C:\\a.exe", "", true),
        "$process = Start-Process -FilePath 'C:\\a.exe' -PassThru; Write-Output $process.Id"
    );
    assert_eq!(
        build_start_process_text("C:\\a.exe", " \t", true),
        "$process = Start-Process -FilePath 'C:\\a.exe' -PassThru; Write-Output $process.Id"
    );
}

#[test]
fn start_process_text_with_arguments() {
    assert_eq!(
        build_start_process_text("C:\\a.exe", "--x 1", false),
        "Start-Process -FilePath 'C:\\a.exe' -ArgumentList '--x 1'"
    );
    assert_eq!(
        build_start_process_text("C:\\a.exe", " --x 1 ", true),
        "$process = Start-Process -FilePath 'C:\\a.exe' -ArgumentList ' --x 1 ' -PassThru; Write-Output $process.Id"
    );
}

#[test]
fn stop_process_texts() {
    assert_eq!(build_stop_by_name_text("player"), "Stop-Process -Name 'player' -Force");
    assert_eq!(
        build_preempt_text("player"),
        "Stop-Process -Name 'player' -Force -ErrorAction SilentlyContinue"
    );
    assert_eq!(build_stop_by_pid_text(4711), "Stop-Process -Id 4711 -Force");
    assert_eq!(build_stop_by_pid_text(0), "Stop-Process -Id 0 -Force");
}

#[test]
fn commands() {
    assert_eq!(OsCommand::powershell("Get-Date".to_string()), shell("Get-Date"));
    assert_eq!(
        OsCommand::direct("/bin/ls", "-l  -a"),
        OsCommand { program: "/bin/ls".to_string(), args: strings(&["-l", "-a"]) }
    );
    assert_eq!(
        OsCommand::kill(321),
        OsCommand { program: "kill".to_string(), args: strings(&["-9", "321"]) }
    );
}

#[test]
fn blank_arguments_hand_no_argument_to_the_program() {
    assert_eq!(OsCommand::direct("/bin/true", "").args.len(), 0);
    assert_eq!(OsCommand::direct("/bin/true", "   ").args.len(), 0);
    let state = registry();
    assert_eq!(state.plan_launch("plain", "/bin/true", "", Platform::Other).command.args.len(), 0);
    assert_eq!(
        state.plan_launch("tool", "/bin/true", "   ", Platform::Windows).command.args.len(),
        0
    );
}

#[test]
fn on_windows_a_plain_application_is_started_through_the_shell_and_reports_its_pid() {
    let plan = registry().plan_launch("plain", "C:\\Apps\\notes.exe", "-r list.txt", Platform::Windows);
    assert_eq!(
        plan,
        LaunchPlan {
            command: shell(
                "$process = Start-Process -FilePath 'C:\\Apps\\notes.exe' -ArgumentList '-r list.txt' -PassThru; Write-Output $process.Id"
            ),
            mode: LaunchMode::Shell(Tracking::ByPid),
        }
    );
}

#[test]
fn on_windows_a_single_instance_application_is_started_without_asking_for_its_pid() {
    let plan = registry().plan_launch("single", "C:\\Apps\\player.exe", "", Platform::Windows);
    assert_eq!(
        plan,
        LaunchPlan {
            command: shell("Start-Process -FilePath 'C:\\Apps\\player.exe'"),
            mode: LaunchMode::Shell(Tracking::ByName),
        }
    );
}

#[test]
fn an_id_without_a_definition_is_spawned_directly() {
    let plan = registry().plan_launch("tool", "C:\\Windows\\notepad.exe", "a.txt b.txt", Platform::Windows);
    assert_eq!(
        plan,
        LaunchPlan {
            command: OsCommand {
                program: "C:\\Windows\\notepad.exe".to_string(),
                args: strings(&["a.txt", "b.txt"]),
            },
            mode: LaunchMode::Direct,
        }
    );
}

#[test]
fn on_another_platform_every_application_is_spawned_directly() {
    let state = registry();
    for id in ["plain", "single", "tool"] {
        let plan = state.plan_launch(id, "/usr/bin/vlc", " --fullscreen  file.mkv ", Platform::Other);
        assert_eq!(
            plan,
            LaunchPlan {
                command: OsCommand {
                    program: "/usr/bin/vlc".to_string(),
                    args: strings(&["--fullscreen", "file.mkv"]),
                },
                mode: LaunchMode::Direct,
            }
        );
    }
}

#[test]
fn planning_reads_the_first_definition_with_the_id() {
    let state = AppState::new(AppConfig {
        registered_apps: vec![app("x", "first", true), app("x", "second", false)],
    });
    assert_eq!(
        state.plan_launch("x", "p", "", Platform::Windows).mode,
        LaunchMode::Shell(Tracking::ByName)
    );
}

#[test]
fn a_start_by_name_is_recorded_under_the_name_key_with_the_identifier_zero() {
    let mut state = registry();
    let outcome = state.record_shell_launch("single", Tracking::ByName, Ok(output(true, "", "")));
    assert_eq!(outcome, Ok(()));
    assert_eq!(entries(&state), 1);
    assert_eq!(state.running_processes.get("single:name"), Some(&0));
    assert_eq!(state.running_processes.get("single"), None);
    assert!(state.is_application_running("single"));
}

#[test]
fn a_start_by_pid_is_recorded_under_the_id_with_the_number_printed() {
    let mut state = registry();
    let outcome =
        state.record_shell_launch("plain", Tracking::ByPid, Ok(output(true, "  4242\r\n", "")));
    assert_eq!(outcome, Ok(()));
    assert_eq!(entries(&state), 1);
    assert_eq!(state.running_processes.get("plain"), Some(&4242));
    assert!(state.is_application_running("plain"));
}

#[test]
fn a_second_start_replaces_the_entry() {
    let mut state = registry();
    assert_eq!(state.record_shell_launch("plain", Tracking::ByPid, Ok(output(true, "1", ""))), Ok(()));
    assert_eq!(state.record_shell_launch("plain", Tracking::ByPid, Ok(output(true, "2", ""))), Ok(()));
    assert_eq!(entries(&state), 1);
    assert_eq!(state.running_processes.get("plain"), Some(&2));
}

#[test]
fn output_that_is_no_number_fails_the_start() {
    let mut state = registry();
    let outcome = state.record_shell_launch(
        "plain",
        Tracking::ByPid,
        Ok(output(true, " not a number \n", "")),
    );
    assert_eq!(
        outcome,
        Err(RegistryError::Launch("Failed to parse process ID: not a number".to_string()))
    );
    assert_eq!(entries(&state), 0);
    let outcome = state.record_shell_launch("plain", Tracking::ByPid, Ok(output(true, "", "")));
    assert_eq!(outcome, Err(RegistryError::Launch("Failed to parse process ID: ".to_string())));
    let outcome =
        state.record_shell_launch("plain", Tracking::ByPid, Ok(output(true, "4294967296", "")));
    assert_eq!(
        outcome,
        Err(RegistryError::Launch("Failed to parse process ID: 4294967296".to_string()))
    );
    assert_eq!(entries(&state), 0);
    assert!(!state.is_application_running("plain"));
}

#[test]
fn a_shell_that_reports_failure_fails_the_start() {
    let mut state = registry();
    for tracking in [Tracking::ByName, Tracking::ByPid] {
        let outcome =
            state.record_shell_launch("plain", tracking, Ok(output(false, "77", "file not found")));
        assert_eq!(
            outcome,
            Err(RegistryError::Launch("Start-Process failed: file not found".to_string()))
        );
    }
    assert_eq!(entries(&state), 0);
}

#[test]
fn a_shell_that_cannot_be_run_fails_the_start() {
    let mut state = registry();
    assert_eq!(
        state.record_shell_launch("single", Tracking::ByName, Err("no powershell".to_string())),
        Err(RegistryError::Launch("Failed to launch application: no powershell".to_string()))
    );
    assert_eq!(
        state.record_shell_launch("plain", Tracking::ByPid, Err("no powershell".to_string())),
        Err(RegistryError::Launch(
            "Failed to launch application with Start-Process: no powershell".to_string()
        ))
    );
    assert_eq!(entries(&state), 0);
}

#[test]
fn a_direct_start_is_recorded_under_the_id() {
    let mut state = registry();
    assert_eq!(state.record_direct_launch("tool", Ok(9001)), Ok(()));
    assert_eq!(entries(&state), 1);
    assert_eq!(state.running_processes.get("tool"), Some(&9001));
    assert!(state.is_application_running("tool"));
}

#[test]
fn a_direct_start_that_failed_records_nothing() {
    let mut state = registry();
    assert_eq!(
        state.record_direct_launch("tool", Err("permission denied".to_string())),
        Err(RegistryError::Launch("Failed to launch application: permission denied".to_string()))
    );
    assert_eq!(entries(&state), 0);
    assert!(!state.is_application_running("tool"));
}

#[test]
fn recording_a_launch_leaves_the_definitions_alone() {
    let mut state = registry();
    let before = state.get_registered_apps();
    let _ = state.record_direct_launch("plain", Ok(1));
    let _ = state.record_shell_launch("single", Tracking::ByName, Ok(output(true, "", "")));
    assert_eq!(state.get_registered_apps(), before);
}

#[test]
fn stopping_what_does_not_run_fails() {
    let mut state = registry();
    for platform in [Platform::Windows, Platform::Other] {
        assert_eq!(state.begin_stop("plain", platform), Err(RegistryError::NotRunning));
        assert_eq!(state.begin_stop("single", platform), Err(RegistryError::NotRunning));
        assert_eq!(state.begin_stop("tool", platform), Err(RegistryError::NotRunning));
    }
    assert_eq!(entries(&state), 0);
}

#[test]
fn an_entry_under_the_other_key_is_not_found() {
    let mut state = registry();
    state.running_processes.insert("single".to_string(), 5);
    state.running_processes.insert("plain:name".to_string(), 0);
    assert_eq!(state.begin_stop("single", Platform::Windows), Err(RegistryError::NotRunning));
    assert_eq!(state.begin_stop("plain", Platform::Windows), Err(RegistryError::NotRunning));
    assert_eq!(entries(&state), 2);
}

#[test]
fn on_windows_a_process_is_stopped_by_its_pid() {
    let mut state = registry();
    assert_eq!(state.record_direct_launch("plain", Ok(4711)), Ok(()));
    let plan = state.begin_stop("plain", Platform::Windows);
    assert_eq!(
        plan,
        Ok(StopPlan {
            command: shell("Stop-Process -Id 4711 -Force"),
            target: StopTarget::ByPid(4711),
        })
    );
    assert_eq!(entries(&state), 0);
    assert!(!state.is_application_running("plain"));
}

#[test]
fn on_another_platform_a_process_is_killed_by_its_pid() {
    let mut state = registry();
    assert_eq!(state.record_direct_launch("tool", Ok(31337)), Ok(()));
    let plan = state.begin_stop("tool", Platform::Other);
    assert_eq!(
        plan,
        Ok(StopPlan {
            command: OsCommand { program: "kill".to_string(), args: strings(&["-9", "31337"]) },
            target: StopTarget::ByPid(31337),
        })
    );
    assert_eq!(entries(&state), 0);
}

#[test]
fn on_windows_a_single_instance_application_is_stopped_by_its_name() {
    let mut state = registry();
    assert_eq!(
        state.record_shell_launch("single", Tracking::ByName, Ok(output(true, "", ""))),
        Ok(())
    );
    let plan = state.begin_stop("single", Platform::Windows);
    assert_eq!(
        plan,
        Ok(StopPlan {
            command: shell("Stop-Process -Name 'player' -Force"),
            target: StopTarget::ByName("player".to_string()),
        })
    );
    assert_eq!(entries(&state), 0);
    assert!(!state.is_application_running("single"));
}

#[test]
fn on_another_platform_stopping_by_name_is_unsupported_and_the_entry_is_gone() {
    let mut state = registry();
    state.running_processes.insert("single:name".to_string(), 0);
    assert!(state.is_application_running("single"));
    assert_eq!(state.begin_stop("single", Platform::Other), Err(RegistryError::Unsupported));
    assert_eq!(entries(&state), 0);
    assert!(!state.is_application_running("single"));
}

#[test]
fn stopping_removes_only_the_entry_of_the_application() {
    let mut state = registry();
    assert_eq!(state.record_direct_launch("plain", Ok(1)), Ok(()));
    assert_eq!(state.record_direct_launch("tool", Ok(2)), Ok(()));
    state.running_processes.insert("single:name".to_string(), 0);
    assert!(state.begin_stop("plain", Platform::Other).is_ok());
    assert_eq!(entries(&state), 2);
    assert!(state.is_application_running("tool"));
    assert!(state.is_application_running("single"));
    assert!(!state.is_application_running("plain"));
}

#[test]
fn after_a_stop_the_application_does_not_run_whatever_the_command_comes_to() {
    let mut state = registry();
    assert_eq!(state.record_direct_launch("plain", Ok(4711)), Ok(()));
    let plan = state.begin_stop("plain", Platform::Windows).unwrap();
    assert!(!state.is_application_running("plain"));
    let outcome = finish_stop(&plan.target, Platform::Windows, Ok(output(false, "", "access denied")));
    assert_eq!(
        outcome,
        Err(RegistryError::Stop("Failed to stop process 4711: access denied".to_string()))
    );
    assert!(!state.is_application_running("plain"));
    assert_eq!(state.begin_stop("plain", Platform::Windows), Err(RegistryError::NotRunning));
}

#[test]
fn a_stop_command_that_succeeds() {
    for platform in [Platform::Windows, Platform::Other] {
        assert_eq!(finish_stop(&StopTarget::ByPid(1), platform, Ok(output(true, "", ""))), Ok(()));
        assert_eq!(
            finish_stop(
                &StopTarget::ByName("player".to_string()),
                platform,
                Ok(output(true, "x", "warning"))
            ),
            Ok(())
        );
    }
}

#[test]
fn a_stop_command_that_reports_failure() {
    assert_eq!(
        finish_stop(
            &StopTarget::ByName("player".to_string()),
            Platform::Windows,
            Ok(output(false, "", "Cannot find a process with the name"))
        ),
        Err(RegistryError::Stop(
            "Failed to stop process 'player': Cannot find a process with the name".to_string()
        ))
    );
    assert_eq!(
        finish_stop(&StopTarget::ByPid(12), Platform::Other, Ok(output(false, "", "No such process"))),
        Err(RegistryError::Stop("Failed to stop process 12: No such process".to_string()))
    );
}

#[test]
fn a_stop_command_that_cannot_be_run() {
    assert_eq!(
        finish_stop(&StopTarget::ByPid(12), Platform::Windows, Err("not found".to_string())),
        Err(RegistryError::Stop(
            "Failed to stop application with Stop-Process: not found".to_string()
        ))
    );
    assert_eq!(
        finish_stop(&StopTarget::ByPid(12), Platform::Other, Err("not found".to_string())),
        Err(RegistryError::Stop("Failed to stop application: not found".to_string()))
    );
}

fn timed(id: &str, enabled: bool, delay: u64, prevent_duplicate: bool) -> RegisteredApp {
    RegisteredApp {
        id: id.to_string(),
        name: format!("name-{}", id),
        path: format!("/opt/{}", id),
        arguments: format!("--for {}", id),
        description: String::new(),
        enabled,
        delay,
        prevent_duplicate,
        auto_start: false,
    }
}

fn launch(id: &str) -> StartupStep {
    StartupStep::Launch {
        app_id: id.to_string(),
        name: format!("name-{}", id),
        path: format!("/opt/{}", id),
        arguments: format!("--for {}", id),
    }
}

#[test]
fn startup_launches_enabled_definitions_in_order_after_their_delays() {
    let state = AppState::new(AppConfig {
        registered_apps: vec![
            timed("A", true, 0, false),
            timed("B", true, 2, false),
            timed("C", false, 0, false),
        ],
    });
    for platform in [Platform::Windows, Platform::Other] {
        assert_eq!(
            state.startup_plan(platform),
            vec![launch("A"), StartupStep::Wait(2), launch("B")]
        );
    }
}

#[test]
fn startup_of_nothing_is_empty() {
    assert_eq!(AppState::new(AppConfig::new()).startup_plan(Platform::Windows), vec![]);
    let state = AppState::new(AppConfig {
        registered_apps: vec![timed("C", false, 9, true), timed("D", false, 0, false)],
    });
    assert_eq!(state.startup_plan(Platform::Windows), vec![]);
    assert_eq!(state.startup_plan(Platform::Other), vec![]);
}

#[test]
fn on_windows_startup_ends_earlier_instances_before_the_wait() {
    let state = AppState::new(AppConfig {
        registered_apps: vec![
            timed("A", true, 3, true),
            timed("B", true, 0, true),
            timed("C", true, 1, false),
        ],
    });
    assert_eq!(
        state.startup_plan(Platform::Windows),
        vec![
            StartupStep::Preempt(shell(
                "Stop-Process -Name 'name-A' -Force -ErrorAction SilentlyContinue"
            )),
            StartupStep::Wait(3),
            launch("A"),
            StartupStep::Preempt(shell(
                "Stop-Process -Name 'name-B' -Force -ErrorAction SilentlyContinue"
            )),
            launch("B"),
            StartupStep::Wait(1),
            launch("C"),
        ]
    );
    assert_eq!(
        state.startup_plan(Platform::Other),
        vec![StartupStep::Wait(3), launch("A"), launch("B"), StartupStep::Wait(1), launch("C")]
    );
}

#[test]
fn startup_waits_for_the_sum_of_the_delays_of_the_enabled_definitions() {
    let state = AppState::new(AppConfig {
        registered_apps: vec![
            timed("A", true, 3, false),
            timed("B", false, 100, false),
            timed("C", true, 4, true),
            timed("D", true, 0, false),
        ],
    });
    let steps = state.startup_plan(Platform::Windows);
    let mut waited: u64 = 0;
    let mut started: Vec<String> = Vec::new();
    for step in steps {
        match step {
            StartupStep::Wait(seconds) => waited += seconds,
            StartupStep::Launch { app_id, .. } => started.push(app_id),
            StartupStep::Preempt(_) => {}
        }
    }
    assert_eq!(waited, 7);
    assert_eq!(started, strings(&["A", "C", "D"]));
}
