use hot_reload::command::{Command, State};
use hot_reload::session::{
    Action, DevSession, Event, Launch, Notice, Phase, Platform, SessionError, Sources,
    EXIT_TIMEOUT_SECS,
};

fn fresh() -> DevSession {
    DevSession::new("/srv/config".to_string())
}

fn built() -> DevSession {
    let mut session = fresh();
    let actions = session.handle_event(Event::Command(Command::Rebuild));
    assert_eq!(actions, vec![Action::Notify(Notice::Building), Action::Rebuild]);
    assert_eq!(session.handle_event(Event::Rebuilt("server.jar".to_string())), vec![]);
    session
}

fn running() -> DevSession {
    let mut session = built();
    let actions = session.handle_event(Event::Command(Command::Start));
    assert_eq!(
        actions,
        vec![Action::Notify(Notice::Starting), Action::Spawn("server.jar".to_string())]
    );
    assert_eq!(session.handle_event(Event::Spawned), vec![]);
    session
}

fn waiting() -> DevSession {
    let mut session = running();
    let actions = session.handle_event(Event::Command(Command::WaitUntilExit));
    assert_eq!(
        actions,
        vec![Action::Notify(Notice::Waiting), Action::AwaitExit(30)]
    );
    session
}

#[test]
fn new_session_holds_nothing() {
    let session = fresh();
    assert!(!session.has_child());
    assert_eq!(session.jar_name(), None);
    assert!(!session.is_stopping());
    assert!(!session.is_finished());
    assert_eq!(session.phase(), Phase::NoProcess);
    assert_eq!(session.state(), None);
}

#[test]
fn rebuild_stores_the_artifact() {
    let mut session = fresh();
    session.handle_event(Event::Command(Command::Rebuild));
    assert_eq!(session.state(), Some(State::Building));
    session.handle_event(Event::Rebuilt("server.jar".to_string()));
    assert_eq!(session.state(), None);
    assert_eq!(session.jar_name(), Some("server.jar".to_string()));
}

#[test]
fn failed_rebuild_is_reported_and_session_goes_on() {
    let mut session = built();
    session.handle_event(Event::Command(Command::Rebuild));
    let actions = session.handle_event(Event::RebuildFailed("no compiler".to_string()));
    assert_eq!(
        actions,
        vec![Action::Notify(Notice::BuildFailed("no compiler".to_string()))]
    );
    assert!(!session.is_finished());
    assert_eq!(session.jar_name(), Some("server.jar".to_string()));
    assert_eq!(session.state(), None);
}

#[test]
fn start_without_artifact_is_a_configuration_error() {
    let mut session = fresh();
    let actions = session.handle_event(Event::Command(Command::Start));
    assert_eq!(
        actions,
        vec![Action::Notify(Notice::Starting), Action::Notify(Notice::MissingArtifact)]
    );
    assert_eq!(session.phase(), Phase::NoProcess);
    assert_eq!(session.state(), None);
}

#[test]
fn start_spawns_once_the_artifact_is_known() {
    let mut session = built();
    let actions = session.handle_event(Event::Command(Command::Start));
    assert_eq!(
        actions,
        vec![Action::Notify(Notice::Starting), Action::Spawn("server.jar".to_string())]
    );
    assert_eq!(session.state(), Some(State::Starting));
    assert_eq!(session.phase(), Phase::NoProcess);
    session.handle_event(Event::Spawned);
    assert_eq!(session.phase(), Phase::Running);
    assert_eq!(session.state(), Some(State::Online));
    assert!(session.has_child());
}

#[test]
fn start_while_running_spawns_no_second_child() {
    let mut session = running();
    for _ in 0..5 {
        let actions = session.handle_event(Event::Command(Command::Start));
        assert_eq!(actions, vec![Action::Notify(Notice::Starting)]);
        assert_eq!(session.phase(), Phase::Running);
    }
}

#[test]
fn start_while_a_launch_is_under_way_spawns_no_second_child() {
    let mut session = built();
    session.handle_event(Event::Command(Command::Start));
    let actions = session.handle_event(Event::Command(Command::Start));
    assert_eq!(actions, vec![Action::Notify(Notice::Starting)]);
    assert_eq!(session.state(), Some(State::Starting));
}

#[test]
fn failed_spawn_leaves_no_process() {
    let mut session = built();
    session.handle_event(Event::Command(Command::Start));
    let actions = session.handle_event(Event::SpawnFailed("java not found".to_string()));
    assert_eq!(
        actions,
        vec![Action::Notify(Notice::SpawnFailed("java not found".to_string()))]
    );
    assert_eq!(session.phase(), Phase::NoProcess);
    assert_eq!(session.state(), None);
    let again = session.handle_event(Event::Command(Command::Start));
    assert_eq!(
        again,
        vec![Action::Notify(Notice::Starting), Action::Spawn("server.jar".to_string())]
    );
}

#[test]
fn unasked_spawn_report_is_ignored() {
    let mut session = running();
    assert_eq!(session.handle_event(Event::Spawned), vec![]);
    assert_eq!(session.phase(), Phase::Running);
    let mut idle = fresh();
    assert_eq!(idle.handle_event(Event::Spawned), vec![]);
    assert_eq!(idle.phase(), Phase::NoProcess);
}

#[test]
fn stop_kills_the_running_process() {
    let mut session = running();
    let actions = session.handle_event(Event::Command(Command::Stop));
    assert_eq!(actions, vec![Action::Notify(Notice::Killing), Action::Kill]);
    assert_eq!(session.phase(), Phase::NoProcess);
}

#[test]
fn stop_twice_kills_once() {
    let mut session = running();
    session.handle_event(Event::Command(Command::Stop));
    let actions = session.handle_event(Event::Command(Command::Stop));
    assert_eq!(actions, vec![Action::Notify(Notice::Killing)]);
    assert_eq!(session.phase(), Phase::NoProcess);
    assert!(!session.is_finished());
}

#[test]
fn send_command_writes_the_text_verbatim() {
    let mut session = running();
    let actions = session.handle_event(Event::Command(Command::SendCommand("stop\nend".to_string())));
    assert_eq!(
        actions,
        vec![
            Action::Notify(Notice::Sending("stop\nend".to_string())),
            Action::Write("stop\nend".to_string()),
        ]
    );
    assert_eq!(session.phase(), Phase::Running);
}

#[test]
fn send_command_without_process_writes_nothing() {
    let mut session = built();
    let actions = session.handle_event(Event::Command(Command::SendCommand("say hi\n".to_string())));
    assert_eq!(actions, vec![Action::Notify(Notice::Sending("say hi\n".to_string()))]);
}

#[test]
fn operator_line_is_trimmed_and_terminated() {
    let mut session = running();
    let actions = session.handle_event(Event::OperatorLine("  list \t".to_string()));
    assert_eq!(
        actions,
        vec![
            Action::Notify(Notice::Sending("list".to_string())),
            Action::Write("list\n".to_string()),
        ]
    );
}

#[test]
fn operator_line_without_process_is_only_reported() {
    let mut session = fresh();
    let actions = session.handle_event(Event::OperatorLine("list".to_string()));
    assert_eq!(actions, vec![Action::Notify(Notice::Sending("list".to_string()))]);
}

#[test]
fn output_line_is_printed_trimmed() {
    let mut session = running();
    let actions = session.handle_event(Event::OutputLine("  [INFO] Done \r".to_string()));
    assert_eq!(actions, vec![Action::Print("[INFO] Done".to_string())]);
    assert_eq!(session.phase(), Phase::Running);
}

#[test]
fn wait_until_exit_enters_awaiting_exit_with_time_limit() {
    let session = waiting();
    assert_eq!(EXIT_TIMEOUT_SECS, 30);
    assert_eq!(session.phase(), Phase::AwaitingExit);
    assert!(session.is_stopping());
    assert_eq!(session.state(), Some(State::Stopping));
}

#[test]
fn wait_until_exit_without_process_ends_at_once() {
    let mut session = built();
    let actions = session.handle_event(Event::Command(Command::WaitUntilExit));
    assert_eq!(
        actions,
        vec![Action::Notify(Notice::Waiting), Action::Notify(Notice::Ended)]
    );
    assert_eq!(session.phase(), Phase::NoProcess);
    assert!(!session.is_stopping());
}

#[test]
fn wait_until_exit_during_a_wait_starts_no_second_wait() {
    let mut session = waiting();
    let actions = session.handle_event(Event::Command(Command::WaitUntilExit));
    assert_eq!(actions, vec![Action::Notify(Notice::Waiting)]);
    assert_eq!(session.phase(), Phase::AwaitingExit);
}

#[test]
fn output_is_drained_during_the_wait() {
    let mut session = waiting();
    let actions = session.handle_event(Event::OutputLine("Saving worlds".to_string()));
    assert_eq!(actions, vec![Action::Print("Saving worlds".to_string())]);
    assert_eq!(session.phase(), Phase::AwaitingExit);
}

#[test]
fn exit_during_the_wait_ends_it_without_a_kill() {
    let mut session = waiting();
    let actions = session.handle_event(Event::ChildExited);
    assert_eq!(actions, vec![Action::Notify(Notice::Ended)]);
    assert_eq!(session.phase(), Phase::NoProcess);
    assert!(!session.is_stopping());
    assert!(!session.is_finished());
}

#[test]
fn timeout_during_the_wait_kills() {
    let mut session = waiting();
    let actions = session.handle_event(Event::ExitTimeout);
    assert_eq!(
        actions,
        vec![
            Action::Notify(Notice::TimedOut),
            Action::Kill,
            Action::Notify(Notice::Ended),
        ]
    );
    assert_eq!(session.phase(), Phase::NoProcess);
    assert!(!session.has_child());
    assert!(!session.is_finished());
}

#[test]
fn stale_timeout_is_ignored() {
    let mut session = running();
    assert_eq!(session.handle_event(Event::ExitTimeout), vec![]);
    assert_eq!(session.phase(), Phase::Running);
}

#[test]
fn interrupt_during_the_wait_kills_and_session_goes_on() {
    let mut session = waiting();
    let actions = session.handle_event(Event::Interrupt);
    assert_eq!(
        actions,
        vec![
            Action::Notify(Notice::Interrupted),
            Action::Kill,
            Action::Notify(Notice::Ended),
        ]
    );
    assert_eq!(session.phase(), Phase::NoProcess);
    assert!(!session.is_finished());
    let next = session.handle_event(Event::Command(Command::Start));
    assert_eq!(
        next,
        vec![Action::Notify(Notice::Starting), Action::Spawn("server.jar".to_string())]
    );
}

#[test]
fn interrupt_while_running_kills_and_ends_the_session() {
    let mut session = running();
    let actions = session.handle_event(Event::Interrupt);
    assert_eq!(
        actions,
        vec![
            Action::Notify(Notice::Stopping),
            Action::Notify(Notice::KillingLeftover),
            Action::Kill,
        ]
    );
    assert!(session.is_finished());
    assert!(!session.has_child());
}

#[test]
fn interrupt_without_process_ends_the_session() {
    let mut session = fresh();
    let actions = session.handle_event(Event::Interrupt);
    assert_eq!(actions, vec![Action::Notify(Notice::Stopping)]);
    assert!(session.is_finished());
}

#[test]
fn finished_session_ignores_everything() {
    let mut session = running();
    session.handle_event(Event::Interrupt);
    assert_eq!(session.handle_event(Event::Command(Command::Start)), vec![]);
    assert_eq!(session.handle_event(Event::Command(Command::Rebuild)), vec![]);
    assert_eq!(session.handle_event(Event::OutputLine("x".to_string())), vec![]);
    assert_eq!(session.handle_event(Event::Interrupt), vec![]);
    assert!(session.is_finished());
    assert_eq!(session.phase(), Phase::NoProcess);
}

#[test]
fn exit_seen_while_running_leaves_no_process() {
    let mut session = running();
    let actions = session.handle_event(Event::ChildExited);
    assert_eq!(actions, vec![Action::Notify(Notice::Ended)]);
    assert_eq!(session.phase(), Phase::NoProcess);
    assert_eq!(session.handle_event(Event::ChildExited), vec![]);
}

#[test]
fn bootstrap_uses_the_path_relative_to_the_config_directory() {
    let mut session = fresh();
    let actions = session.handle_event(Event::Command(Command::Bootstrap(
        "/srv/config/plugins/a.yml".to_string(),
    )));
    assert_eq!(
        actions,
        vec![
            Action::Notify(Notice::Bootstrapping("plugins/a.yml".to_string())),
            Action::Bootstrap("plugins/a.yml".to_string()),
        ]
    );
    assert_eq!(session.phase(), Phase::NoProcess);
}

#[test]
fn bootstrap_outside_the_config_directory_goes_up() {
    let mut session = running();
    let actions = session.handle_event(Event::Command(Command::Bootstrap(
        "/srv/server.toml".to_string(),
    )));
    assert_eq!(
        actions,
        vec![
            Action::Notify(Notice::Bootstrapping("../server.toml".to_string())),
            Action::Bootstrap("../server.toml".to_string()),
        ]
    );
    assert_eq!(session.phase(), Phase::Running);
}

#[test]
fn bootstrap_of_an_unrelated_path_is_reported() {
    let mut session = fresh();
    let actions = session.handle_event(Event::Command(Command::Bootstrap(
        "plugins/a.yml".to_string(),
    )));
    assert_eq!(
        actions,
        vec![Action::Notify(Notice::Unrelated("plugins/a.yml".to_string()))]
    );
}

#[test]
fn bootstrap_actions_for_each_outcome() {
    assert_eq!(
        DevSession::bootstrap_actions(Some("a.yml".to_string()), "/srv/config/a.yml".to_string()),
        vec![
            Action::Notify(Notice::Bootstrapping("a.yml".to_string())),
            Action::Bootstrap("a.yml".to_string()),
        ]
    );
    assert_eq!(
        DevSession::bootstrap_actions(None, "a.yml".to_string()),
        vec![Action::Notify(Notice::Unrelated("a.yml".to_string()))]
    );
}

#[test]
fn failed_bootstrap_is_reported_and_session_goes_on() {
    let mut session = running();
    let actions = session.handle_event(Event::BootstrapFailed {
        path: "plugins/a.yml".to_string(),
        error: "no template".to_string(),
    });
    assert_eq!(
        actions,
        vec![Action::Notify(Notice::BootstrapFailed {
            path: "plugins/a.yml".to_string(),
            error: "no template".to_string(),
        })]
    );
    assert_eq!(session.phase(), Phase::Running);
    assert!(!session.is_finished());
}

#[test]
fn full_cycle_ends_with_a_new_process() {
    let mut session = running();
    session.handle_event(Event::Command(Command::SendCommand("stop\nend".to_string())));
    session.handle_event(Event::Command(Command::WaitUntilExit));
    session.handle_event(Event::ChildExited);
    session.handle_event(Event::Command(Command::Rebuild));
    session.handle_event(Event::Rebuilt("server-2.jar".to_string()));
    let actions = session.handle_event(Event::Command(Command::Start));
    assert_eq!(
        actions,
        vec![Action::Notify(Notice::Starting), Action::Spawn("server-2.jar".to_string())]
    );
    session.handle_event(Event::Spawned);
    assert_eq!(session.phase(), Phase::Running);
}

#[test]
fn spawn_child_needs_an_artifact() {
    let session = fresh();
    assert_eq!(session.spawn_child("unix"), Err(SessionError::MissingArtifact));
}

#[test]
fn spawn_child_plans_the_launch() {
    let session = built();
    assert_eq!(
        session.spawn_child("unix"),
        Ok(Launch {
            program: "java".to_string(),
            artifact: "server.jar".to_string(),
            platform: Platform::Linux,
        })
    );
    assert_eq!(
        session.spawn_child("windows"),
        Ok(Launch {
            program: "java".to_string(),
            artifact: "server.jar".to_string(),
            platform: Platform::Windows,
        })
    );
}

#[test]
fn platform_from_family() {
    assert_eq!(Platform::from_family("windows"), Platform::Windows);
    assert_eq!(Platform::from_family("unix"), Platform::Linux);
    assert_eq!(Platform::from_family("Windows"), Platform::Linux);
    assert_eq!(Platform::from_family(""), Platform::Linux);
    assert_eq!(Platform::Windows.name(), "windows");
    assert_eq!(Platform::Linux.name(), "linux");
}

#[test]
fn sources_follow_the_phase() {
    let idle = fresh();
    assert_eq!(
        idle.sources(),
        Sources {
            commands: true,
            output: false,
            operator: true,
            interrupt: true,
            exit: false,
            timeout: false,
        }
    );
    let running = running();
    assert_eq!(
        running.sources(),
        Sources {
            commands: true,
            output: true,
            operator: true,
            interrupt: true,
            exit: false,
            timeout: false,
        }
    );
    let waiting = waiting();
    assert_eq!(
        waiting.sources(),
        Sources {
            commands: false,
            output: true,
            operator: false,
            interrupt: true,
            exit: true,
            timeout: true,
        }
    );
    let mut over = fresh();
    over.handle_event(Event::Interrupt);
    assert_eq!(
        over.sources(),
        Sources {
            commands: false,
            output: false,
            operator: false,
            interrupt: false,
            exit: false,
            timeout: false,
        }
    );
}
