// Scenario tests for the tunnel's verified core: session lifecycle, relay
// direction ordering, server-side isolation, client relay sequencing, and the
// terminal-mode controller.

use qtty::client::{ClientAction, ClientControl, ClientPhase, ClientRelay};
use qtty::errors::{FailureScope, TunnelError};
use qtty::relay::{classify_read, relay_end_reason, DirAction, DirStatus, Direction, ReadEvent, RelayEnd};
use qtty::server::Server;
use qtty::session::{Session, SessionAction, SessionEvent, SessionPhase};
use qtty::term::{enter_raw_mode, local_mode_mask};

#[test]
fn error_scopes_follow_the_propagation_policy() {
    assert_eq!(TunnelError::Bind.scope(), FailureScope::Server);
    assert_eq!(TunnelError::Transport.scope(), FailureScope::Server);
    assert_eq!(TunnelError::ConnectionClosed.scope(), FailureScope::Connection);
    assert_eq!(TunnelError::PtyAllocation.scope(), FailureScope::Session);
    assert_eq!(TunnelError::Spawn.scope(), FailureScope::Session);
    assert_eq!(TunnelError::Io.scope(), FailureScope::Session);
    assert_eq!(TunnelError::Termios.scope(), FailureScope::Client);
    assert_eq!(TunnelError::StreamOpen.scope(), FailureScope::Client);
}

#[test]
fn session_happy_path_reaps_exactly_once() {
    let mut s = Session::new();
    let mut reaps = 0;
    let mut finishes = 0;
    let events = [
        SessionEvent::PtyAllocated,
        SessionEvent::ShellSpawned,
        SessionEvent::RelayEnded(RelayEnd::Eof),
        SessionEvent::ChildReaped,
    ];
    for ev in events {
        match s.step(ev) {
            SessionAction::ReapChild => reaps += 1,
            SessionAction::Finish(r) => {
                finishes += 1;
                assert_eq!(r, Ok(()));
            },
            _ => {},
        }
    }
    assert_eq!(reaps, 1);
    assert_eq!(finishes, 1);
    assert_eq!(s.phase, SessionPhase::Closed);
}

#[test]
fn session_reaps_once_even_when_the_stream_side_failed() {
    let mut s = Session::new();
    assert_eq!(s.step(SessionEvent::PtyAllocated), SessionAction::SpawnShell);
    assert_eq!(s.step(SessionEvent::ShellSpawned), SessionAction::StartRelay);
    // The stream faulted first; the child must still be reaped.
    assert_eq!(s.step(SessionEvent::RelayEnded(RelayEnd::Fault)), SessionAction::ReapChild);
    assert_eq!(s.step(SessionEvent::ChildReaped), SessionAction::Finish(Err(TunnelError::Io)));
    // A stray second reap notification changes nothing: no double wait.
    assert_eq!(s.step(SessionEvent::ChildReaped), SessionAction::Stay);
    assert_eq!(s.phase, SessionPhase::Closed);
}

#[test]
fn session_failures_before_the_spawn_close_without_a_reap() {
    let mut denied = Session::new();
    assert_eq!(
        denied.step(SessionEvent::PtyDenied),
        SessionAction::Finish(Err(TunnelError::PtyAllocation))
    );
    assert_eq!(denied.phase, SessionPhase::Closed);

    let mut no_shell = Session::new();
    assert_eq!(no_shell.step(SessionEvent::PtyAllocated), SessionAction::SpawnShell);
    assert_eq!(
        no_shell.step(SessionEvent::SpawnDenied),
        SessionAction::Finish(Err(TunnelError::Spawn))
    );
    assert_eq!(no_shell.phase, SessionPhase::Closed);
}

#[test]
fn zero_byte_read_ends_the_relay_gracefully() {
    // A successful read of zero bytes is end of data, never an error.
    assert!(matches!(classify_read(true, Vec::new()), ReadEvent::Eof));
    let mut dir = Direction::new();
    assert_eq!(dir.on_read(ReadEvent::Eof), DirAction::Conclude);
    assert_eq!(dir.status, DirStatus::Done);

    // Both directions ended by end of data: the session finishes successfully.
    let end = relay_end_reason(DirStatus::Done, DirStatus::Done);
    assert_eq!(end, RelayEnd::Eof);
    let mut s = Session::new();
    s.step(SessionEvent::PtyAllocated);
    s.step(SessionEvent::ShellSpawned);
    s.step(SessionEvent::RelayEnded(end));
    assert_eq!(s.step(SessionEvent::ChildReaped), SessionAction::Finish(Ok(())));
}

#[test]
fn failed_reads_are_faults_and_fail_the_relay() {
    assert!(matches!(classify_read(false, vec![1, 2]), ReadEvent::Fault));
    let mut dir = Direction::new();
    assert_eq!(dir.on_read(ReadEvent::Fault), DirAction::Fail);
    assert_eq!(dir.status, DirStatus::Failed);
    assert_eq!(relay_end_reason(DirStatus::Failed, DirStatus::Done), RelayEnd::Fault);
    assert_eq!(relay_end_reason(DirStatus::Done, DirStatus::Failed), RelayEnd::Fault);
}

#[test]
fn direction_forwards_bytes_unmodified_and_in_order() {
    let mut dir = Direction::new();
    let mut seen: Vec<u8> = Vec::new();
    for chunk in [b"ec".to_vec(), b"ho ".to_vec(), b"hi\n".to_vec()] {
        match dir.on_read(classify_read(true, chunk)) {
            DirAction::Forward(out) => seen.extend_from_slice(&out),
            other => panic!("expected a forward, got {:?}", other),
        }
    }
    assert_eq!(seen, b"echo hi\n".to_vec());
    assert_eq!(dir.status, DirStatus::Open);
}

#[test]
fn round_trip_echo_crosses_client_and_server() {
    // Client side: the operator types "echo hi\n"; it goes out on the stream.
    let mut client = ClientRelay::new();
    assert_eq!(client.on_control(ClientControl::StreamOpened), ClientAction::EnterRawMode);
    assert_eq!(client.on_control(ClientControl::RawEntered), ClientAction::StartRelay);
    let sent = client.on_local_bytes(b"echo hi\n".to_vec()).expect("relaying");

    // Server side: the stream-to-PTY direction hands the bytes to the shell.
    let mut to_shell = Direction::new();
    let written_to_pty = match to_shell.on_read(classify_read(true, sent)) {
        DirAction::Forward(out) => out,
        other => panic!("expected a forward, got {:?}", other),
    };
    assert_eq!(written_to_pty, b"echo hi\n".to_vec());

    // The shell answers; the PTY-to-stream direction hands it back.
    let mut to_stream = Direction::new();
    let answered = match to_stream.on_read(classify_read(true, b"hi\n".to_vec())) {
        DirAction::Forward(out) => out,
        other => panic!("expected a forward, got {:?}", other),
    };

    // Client side: the answer is written and flushed to local output.
    let echoed = client.on_remote_bytes(answered).expect("relaying");
    assert_eq!(echoed, b"hi\n".to_vec());
}

#[test]
fn closing_one_connection_leaves_the_other_echoing() {
    let mut server = Server::new();
    let a = server.on_listener_accept(true).expect("connection a");
    let b = server.on_listener_accept(true).expect("connection b");
    let a_stream = server.on_stream_accept(a, true).expect("stream on a");
    let b_stream = server.on_stream_accept(b, true).expect("stream on b");

    // Both sessions come up.
    assert_eq!(server.on_session_event(a, a_stream, SessionEvent::PtyAllocated), SessionAction::SpawnShell);
    assert_eq!(server.on_session_event(b, b_stream, SessionEvent::PtyAllocated), SessionAction::SpawnShell);
    assert_eq!(server.on_session_event(b, b_stream, SessionEvent::ShellSpawned), SessionAction::StartRelay);

    // Connection A goes away: its dispatch loop ends, nothing else changes.
    let before = server.connections[b].sessions[b_stream].phase;
    assert_eq!(server.on_stream_accept(a, false), None);
    assert!(!server.connections[a].open);
    assert!(server.connections[b].open);
    assert_eq!(server.connections[b].sessions[b_stream].phase, before);

    // B's session still relays and still concludes cleanly.
    assert_eq!(
        server.on_session_event(b, b_stream, SessionEvent::RelayEnded(RelayEnd::Eof)),
        SessionAction::ReapChild
    );
    assert_eq!(
        server.on_session_event(b, b_stream, SessionEvent::ChildReaped),
        SessionAction::Finish(Ok(()))
    );

    // A's own session observed end of data through its dying stream and still
    // tears down in order.
    assert_eq!(
        server.on_session_event(a, a_stream, SessionEvent::ShellSpawned),
        SessionAction::StartRelay
    );
    assert_eq!(
        server.on_session_event(a, a_stream, SessionEvent::RelayEnded(RelayEnd::Eof)),
        SessionAction::ReapChild
    );
}

#[test]
fn open_connection_count_tracks_the_lifecycle() {
    let mut server = Server::new();
    assert_eq!(server.open_connections(), 0);
    let a = server.on_listener_accept(true).expect("connection a");
    let b = server.on_listener_accept(true).expect("connection b");
    assert_eq!(server.open_connections(), 2);
    server.on_stream_accept(a, false);
    assert_eq!(server.open_connections(), 1);
    server.on_stream_accept(b, false);
    assert_eq!(server.open_connections(), 0);
}

#[test]
fn listener_fault_stops_the_accept_loop() {
    let mut server = Server::new();
    assert_eq!(server.on_listener_accept(true), Some(0));
    assert_eq!(server.on_listener_accept(false), None);
    assert_eq!(server.connections.len(), 1);
}

#[test]
fn client_restores_the_terminal_exactly_once_on_the_normal_path() {
    let mut client = ClientRelay::new();
    let mut restores = 0;
    let script = [
        ClientControl::StreamOpened,
        ClientControl::RawEntered,
        ClientControl::LocalEnded,
        ClientControl::InboundStopped,
        ClientControl::TerminalRestored,
    ];
    for ev in script {
        if client.on_control(ev) == ClientAction::RestoreTerminal {
            restores += 1;
        }
    }
    assert_eq!(restores, 1);
    assert_eq!(client.phase, ClientPhase::Finished);
    // A stray repeat changes nothing: no second restore.
    assert_eq!(client.on_control(ClientControl::TerminalRestored), ClientAction::Stay);
}

#[test]
fn client_restores_the_terminal_before_reporting_a_relay_fault() {
    let mut client = ClientRelay::new();
    client.on_control(ClientControl::StreamOpened);
    client.on_control(ClientControl::RawEntered);
    assert_eq!(client.on_control(ClientControl::RelayFault), ClientAction::CancelInbound);
    assert_eq!(client.on_control(ClientControl::InboundStopped), ClientAction::RestoreTerminal);
    assert_eq!(
        client.on_control(ClientControl::TerminalRestored),
        ClientAction::Report(Err(TunnelError::Io))
    );
}

#[test]
fn client_failures_before_raw_mode_need_no_restore() {
    let mut refused = ClientRelay::new();
    assert_eq!(
        refused.on_control(ClientControl::StreamRefused),
        ClientAction::Report(Err(TunnelError::StreamOpen))
    );
    assert_eq!(refused.phase, ClientPhase::Finished);
    assert!(!refused.raw_applied);

    let mut no_tty = ClientRelay::new();
    no_tty.on_control(ClientControl::StreamOpened);
    assert_eq!(
        no_tty.on_control(ClientControl::RawDenied),
        ClientAction::Report(Err(TunnelError::Termios))
    );
    assert_eq!(no_tty.phase, ClientPhase::Finished);
}

#[test]
fn remote_output_before_immediate_local_eof_is_written_first() {
    let mut client = ClientRelay::new();
    client.on_control(ClientControl::StreamOpened);
    client.on_control(ClientControl::RawEntered);

    // The banner arrives before the operator sends anything; it must reach
    // local output at once.
    let banner = client.on_remote_bytes(b"login: ".to_vec()).expect("relaying");
    assert_eq!(banner, b"login: ".to_vec());

    // Local input ends immediately afterwards; the relay still concludes in
    // order, with the banner already delivered.
    assert_eq!(client.on_control(ClientControl::LocalEnded), ClientAction::CancelInbound);
    assert_eq!(client.on_control(ClientControl::InboundStopped), ClientAction::RestoreTerminal);
    assert_eq!(client.on_control(ClientControl::TerminalRestored), ClientAction::Report(Ok(())));

    // Once concluded, nothing more is written.
    assert_eq!(client.on_remote_bytes(b"late".to_vec()), None);
}

#[test]
fn remote_end_alone_does_not_conclude_the_client() {
    let mut client = ClientRelay::new();
    client.on_control(ClientControl::StreamOpened);
    client.on_control(ClientControl::RawEntered);
    assert_eq!(client.on_control(ClientControl::RemoteEnded), ClientAction::Stay);
    assert_eq!(client.phase, ClientPhase::Relaying);
    // Local input still flows out.
    assert_eq!(client.on_local_bytes(b"exit\n".to_vec()), Some(b"exit\n".to_vec()));
}

#[test]
fn raw_mode_clears_exactly_canonical_processing_and_echo() {
    // The mask comes from the linked termios crate's own constants.
    assert_eq!(local_mode_mask(), 0o000002 | 0o000010);
}

#[test]
fn raw_mode_on_a_bad_descriptor_is_a_termios_error() {
    assert!(matches!(enter_raw_mode(-1), Err(TunnelError::Termios)));
}
