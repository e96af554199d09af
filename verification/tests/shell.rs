use desktop_shell::capability::Capability;
use desktop_shell::capability::capability_list;
use desktop_shell::commands::command_table;
use desktop_shell::commands::ping;
use desktop_shell::host::BootEvent;
use desktop_shell::host::Host;
use desktop_shell::host::InvokeError;
use desktop_shell::host::Phase;

#[test]
fn ping_returns_pong() {
    assert_eq!(ping(), "pong");
}

#[test]
fn ping_is_idempotent() {
    let first = ping();
    let second = ping();
    assert_eq!(first, "pong");
    assert_eq!(second, "pong");
    assert_eq!(first, second);
}

#[test]
fn invoke_ping_returns_pong() {
    let host = Host::configure();
    assert_eq!(host.invoke("ping"), Ok("pong"));
}

#[test]
fn capability_list_is_exactly_eight() {
    let caps = capability_list();
    assert_eq!(caps.len(), 8);
    assert_eq!(
        caps,
        vec![
            Capability::HttpClient,
            Capability::Store,
            Capability::Dialog,
            Capability::Notification,
            Capability::DeepLink,
            Capability::WindowState,
            Capability::Updater,
            Capability::Stronghold,
        ]
    );
}

#[test]
fn configuration_is_deterministic() {
    let a = Host::configure();
    let b = Host::configure();
    assert_eq!(a.capabilities(), b.capabilities());
    assert_eq!(a.capabilities().len(), 8);
    assert_eq!(a.commands(), b.commands());
    assert_eq!(a.phase(), b.phase());
}

#[test]
fn successful_boot_runs_until_shutdown() {
    let mut host = Host::configure();
    assert_eq!(host.phase(), Phase::NotRunning);
    let booted = host.start(BootEvent::Initialized);
    assert!(booted.is_ok());
    assert_eq!(host.phase(), Phase::Running);
    host.shutdown();
    assert_eq!(host.phase(), Phase::Terminated);
    assert_eq!(host.exit_code(), 0);
}

#[test]
fn boot_failure_terminates_without_running() {
    let mut host = Host::configure();
    let booted = host.start(BootEvent::InitFailed);
    let failure = booted.err().expect("a fatal boot failure");
    assert!(!failure.message.is_empty());
    assert_eq!(failure.message, "error while running tauri application");
    assert_eq!(host.phase(), Phase::Terminated);
    assert_ne!(host.exit_code(), 0);
}

#[test]
fn command_table_has_one_entry() {
    let names = command_table();
    assert_eq!(names.len(), 1);
    assert_eq!(names[0], "ping");
}

#[test]
fn unknown_commands_are_rejected() {
    let host = Host::configure();
    assert_eq!(host.invoke("pong"), Err(InvokeError::UnknownCommand));
    assert_eq!(host.invoke(""), Err(InvokeError::UnknownCommand));
    assert_eq!(host.invoke("PING"), Err(InvokeError::UnknownCommand));
    assert_eq!(host.invoke("ping "), Err(InvokeError::UnknownCommand));
    assert_eq!(host.invoke("echo"), Err(InvokeError::UnknownCommand));
}

#[test]
fn invoke_does_not_change_the_host() {
    let host = Host::configure();
    let _ = host.invoke("ping");
    let _ = host.invoke("nope");
    assert_eq!(host.capabilities().len(), 8);
    assert_eq!(host.commands().len(), 1);
    assert_eq!(host.phase(), Phase::NotRunning);
}
