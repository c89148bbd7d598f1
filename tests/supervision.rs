use openvpn_tui::connection::{Connection, VpnFile};
use openvpn_tui::dashboard::{key_command, App, Command, Key};
use openvpn_tui::supervisor::{
    Action, Event, OpenVpnConnection, Phase, Step, Supervisor, SupervisorError,
};

fn app_of(names: &[&str]) -> App {
    let files: Vec<VpnFile> = names
        .iter()
        .map(|n| VpnFile { path: format!("/etc/vpn/{}", n), title: n.to_string() })
        .collect();
    App::new(files)
}

fn current(app: &App) -> &OpenVpnConnection {
    app.supervisor.current.as_ref().expect("a handle")
}

/// Drives a connect attempt through a successful check and spawn.
fn bring_up(app: &mut App) {
    assert!(matches!(app.on_event(Event::ToolChecked(true)), Step::Perform(Action::Spawn)));
    assert!(matches!(app.on_event(Event::Spawned(Ok(()))), Step::Done(Ok(()))));
    assert_eq!(current(app).phase, Phase::Running);
    assert!(current(app).connected);
}

#[test]
fn handle_lifecycle() {
    let mut h = OpenVpnConnection::new(3, Connection::new(false, "x", "/x"));
    assert_eq!(h.phase, Phase::Idle);
    assert!(!h.connected);
    assert!(matches!(h.connect(), Step::Perform(Action::CheckTool)));
    assert_eq!(h.phase, Phase::Checking);
    assert!(matches!(h.on_event(Event::ToolChecked(true)), Step::Perform(Action::Spawn)));
    assert_eq!(h.phase, Phase::Spawning);
    assert!(matches!(h.on_event(Event::Spawned(Ok(()))), Step::Done(Ok(()))));
    assert_eq!(h.phase, Phase::Running);
    assert!(h.connected);
    assert!(matches!(h.connect(), Step::Done(Ok(()))));
    assert_eq!(h.phase, Phase::Running);
    assert!(matches!(h.stop(), Step::Perform(Action::Kill)));
    assert_eq!(h.phase, Phase::Stopping);
    assert!(matches!(h.on_event(Event::Killed(Ok(()))), Step::Done(Ok(()))));
    assert_eq!(h.phase, Phase::Idle);
    assert!(!h.connected);
    assert_eq!(h.index, 3);
}

#[test]
fn spawn_failure_returns_to_idle() {
    let mut h = OpenVpnConnection::new(0, Connection::new(false, "x", "/x"));
    h.connect();
    h.on_event(Event::ToolChecked(true));
    let st = h.on_event(Event::Spawned(Err(Some(13))));
    assert!(matches!(st, Step::Done(Err(SupervisorError::SpawnFailed { os_code: Some(13) }))));
    assert_eq!(h.phase, Phase::Idle);
    assert!(!h.connected);
}

#[test]
fn kill_failure_still_returns_to_idle() {
    let mut h = OpenVpnConnection::new(0, Connection::new(false, "x", "/x"));
    h.connect();
    h.on_event(Event::ToolChecked(true));
    h.on_event(Event::Spawned(Ok(())));
    h.stop();
    let st = h.on_event(Event::Killed(Err(Some(3))));
    assert!(matches!(st, Step::Done(Err(SupervisorError::StopFailed { os_code: Some(3) }))));
    assert_eq!(h.phase, Phase::Idle);
    assert!(!h.connected);
}

#[test]
fn natural_exit_returns_to_idle() {
    let mut h = OpenVpnConnection::new(0, Connection::new(false, "x", "/x"));
    h.connect();
    h.on_event(Event::ToolChecked(true));
    h.on_event(Event::Spawned(Ok(())));
    assert!(matches!(h.on_event(Event::Exited), Step::Done(Ok(()))));
    assert_eq!(h.phase, Phase::Idle);
    assert!(!h.connected);
}

#[test]
fn unexpected_event_changes_nothing() {
    let mut h = OpenVpnConnection::new(0, Connection::new(false, "x", "/x"));
    assert!(matches!(h.on_event(Event::Spawned(Ok(()))), Step::Done(Ok(()))));
    assert_eq!(h.phase, Phase::Idle);
    assert!(!h.connected);
}

#[test]
fn stop_on_idle_supervisor_is_a_no_op() {
    let mut s = Supervisor::new();
    assert!(matches!(s.stop(), Step::Done(Ok(()))));
    assert!(s.current.is_none());
    let mut h = OpenVpnConnection::new(0, Connection::new(false, "x", "/x"));
    assert!(matches!(h.stop(), Step::Done(Ok(()))));
    assert_eq!(h.phase, Phase::Idle);
}

#[test]
fn move_next_then_confirm_binds_second_entry() {
    let mut app = app_of(&["a.ovpn", "b.ovpn"]);
    assert!(matches!(app.handle_command(Command::Next), Step::Done(Ok(()))));
    let st = app.handle_command(Command::Confirm);
    assert!(matches!(st, Step::Perform(Action::CheckTool)));
    assert_eq!(app.connections.confirmed, Some(1));
    assert!(app.connections.items[1].selected);
    assert!(!app.connections.items[0].selected);
    let h = current(&app);
    assert_eq!(h.index, 1);
    assert_eq!(h.connection.title, "b.ovpn");
    assert_eq!(h.connection.path, "/etc/vpn/b.ovpn");
    assert_eq!(h.phase, Phase::Checking);
}

#[test]
fn missing_client_reports_tool_not_installed() {
    let mut app = app_of(&["a.ovpn"]);
    app.handle_command(Command::Confirm);
    let st = app.on_event(Event::ToolChecked(false));
    assert!(matches!(st, Step::Done(Err(SupervisorError::ToolNotInstalled))));
    assert_eq!(current(&app).phase, Phase::Idle);
    assert!(!current(&app).connected);
    assert_eq!(app.last_error, Some(SupervisorError::ToolNotInstalled));
    assert_eq!(app.output_pane("", ""), "OpenVPN is not installed or not found in PATH");
    // a retry starts over and clears the failure
    assert!(matches!(app.handle_command(Command::Confirm), Step::Perform(Action::CheckTool)));
    assert_eq!(app.last_error, None);
}

#[test]
fn rebinding_stops_the_old_client_first() {
    let mut app = app_of(&["a.ovpn", "b.ovpn"]);
    assert!(matches!(app.handle_command(Command::Confirm), Step::Perform(Action::CheckTool)));
    bring_up(&mut app);
    assert_eq!(current(&app).index, 0);

    app.handle_command(Command::Next);
    let st = app.handle_command(Command::Confirm);
    assert!(matches!(st, Step::Perform(Action::Kill)));
    assert_eq!(current(&app).index, 0);
    assert_eq!(current(&app).phase, Phase::Stopping);
    assert_eq!(app.supervisor.pending.as_ref().map(|p| p.0), Some(1));
    assert_eq!(app.connections.confirmed, Some(1));

    let st = app.on_event(Event::Killed(Ok(())));
    assert!(matches!(st, Step::Perform(Action::CheckTool)));
    assert_eq!(current(&app).index, 1);
    assert_eq!(current(&app).phase, Phase::Checking);
    assert!(!current(&app).connected);
    assert!(app.supervisor.pending.is_none());

    bring_up(&mut app);
    assert_eq!(current(&app).index, 1);
    assert_eq!(current(&app).connection.title, "b.ovpn");
}

#[test]
fn confirming_the_running_entry_again_is_a_no_op() {
    let mut app = app_of(&["a.ovpn", "b.ovpn"]);
    app.handle_command(Command::Confirm);
    bring_up(&mut app);
    assert!(matches!(app.handle_command(Command::Confirm), Step::Done(Ok(()))));
    assert_eq!(current(&app).phase, Phase::Running);
    assert_eq!(current(&app).index, 0);
}

#[test]
fn quit_stops_the_client() {
    let mut app = app_of(&["a.ovpn"]);
    app.handle_command(Command::Confirm);
    bring_up(&mut app);
    assert!(matches!(app.handle_command(Command::Quit), Step::Perform(Action::Kill)));
    assert!(app.should_exit);
    assert!(matches!(app.on_event(Event::Killed(Ok(()))), Step::Done(Ok(()))));
    assert_eq!(current(&app).phase, Phase::Idle);
    assert!(!current(&app).connected);
}

#[test]
fn quit_without_client() {
    let mut app = app_of(&["a.ovpn"]);
    assert!(matches!(app.handle_command(Command::Quit), Step::Done(Ok(()))));
    assert!(app.should_exit);
}

#[test]
fn navigation_never_touches_the_client() {
    let mut app = app_of(&["a", "b", "c"]);
    app.handle_command(Command::Confirm);
    bring_up(&mut app);
    for cmd in [Command::Next, Command::Previous, Command::Last, Command::First, Command::ClearHighlight] {
        assert!(matches!(app.handle_command(cmd), Step::Done(Ok(()))));
        assert_eq!(current(&app).phase, Phase::Running);
        assert_eq!(app.connections.confirmed, Some(0));
    }
    assert_eq!(app.connections.highlighted, None);
}

#[test]
fn output_pane_texts() {
    let mut app = app_of(&["a"]);
    assert_eq!(app.output_pane("x", "y"), "No output");
    app.handle_command(Command::Confirm);
    bring_up(&mut app);
    assert_eq!(app.output_pane("  CONNECTED\n", ""), "CONNECTED\n");
    assert_eq!(app.output_pane("up\n", "warn\n"), "up\n\nERR: warn");
}

#[test]
fn error_messages() {
    assert_eq!(SupervisorError::SpawnFailed { os_code: None }.message(), "Could not start OpenVPN");
    assert_eq!(SupervisorError::StopFailed { os_code: Some(1) }.message(), "Could not stop OpenVPN");
}

#[test]
fn key_bindings() {
    assert_eq!(key_command(Key::Char('q'), true), Some(Command::Quit));
    assert_eq!(key_command(Key::Esc, true), Some(Command::ClearHighlight));
    assert_eq!(key_command(Key::Char('j'), true), Some(Command::Next));
    assert_eq!(key_command(Key::Down, true), Some(Command::Next));
    assert_eq!(key_command(Key::Char('k'), true), Some(Command::Previous));
    assert_eq!(key_command(Key::Up, true), Some(Command::Previous));
    assert_eq!(key_command(Key::Char('g'), true), Some(Command::First));
    assert_eq!(key_command(Key::Home, true), Some(Command::First));
    assert_eq!(key_command(Key::Char('G'), true), Some(Command::Last));
    assert_eq!(key_command(Key::End, true), Some(Command::Last));
    assert_eq!(key_command(Key::Enter, true), Some(Command::Confirm));
    assert_eq!(key_command(Key::Char('x'), true), None);
    assert_eq!(key_command(Key::Other, true), None);
    assert_eq!(key_command(Key::Char('q'), false), None);
}

#[test]
fn settled_between_operations() {
    let mut app = app_of(&["a", "b"]);
    assert!(app.supervisor.is_settled());
    app.handle_command(Command::Confirm);
    assert!(!app.supervisor.is_settled());
    bring_up(&mut app);
    assert!(app.supervisor.is_settled());
    app.handle_command(Command::Next);
    app.handle_command(Command::Confirm);
    assert!(!app.supervisor.is_settled());
    assert!(app.supervisor.pending.is_some());
}
