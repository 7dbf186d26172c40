//! Client Relay: one stream against the local terminal.
//!
//! The client opens exactly one stream on its connection, applies raw mode to
//! the local input descriptor, and relays two directions at once: local input
//! to the stream, and the stream to local output, flushed after every write so
//! interactive echo is immediate.  The relay concludes when local input ends:
//! the outbound direction finishes naturally and the inbound one is cancelled
//! rather than awaited.  On every exit path the terminal is restored before
//! the result is reported.  The driver performs the returned action and feeds
//! the outcome back as the next event.

use vstd::prelude::*;
use crate::errors::TunnelError;

verus! {

/// Lifecycle of one client invocation.
#[derive(Clone, Copy, Debug, PartialEq, Eq, Structural)]
pub enum ClientPhase {
    /// Connected; the one stream is not open yet.
    Connected,
    /// The stream is open; raw mode is not applied yet.
    StreamOpen,
    /// Raw mode holds; both directions are being relayed.
    Relaying,
    /// Local input ended or the relay faulted; the inbound copy is being
    /// cancelled.
    Cancelling,
    /// The inbound copy stopped; the terminal must be restored.
    Restoring,
    /// The terminal is back as it was (if it was ever changed) and the result
    /// is reported.
    Finished,
}

/// A payload-free event the driver observed.
#[derive(Clone, Copy, Debug, PartialEq, Eq, Structural)]
pub enum ClientControl {
    /// The peer accepted the stream.
    StreamOpened,
    /// The peer or the transport rejected the stream.
    StreamRefused,
    /// Raw mode was applied to the local input descriptor.
    RawEntered,
    /// The local descriptor is not a terminal or the attribute change was
    /// rejected.
    RawDenied,
    /// Local input reached end of data: the operator signalled end of input.
    LocalEnded,
    /// The remote side closed its output; local input is still relayed.
    RemoteEnded,
    /// A read or write of either direction failed.
    RelayFault,
    /// The cancelled inbound copy has stopped.
    InboundStopped,
    /// The saved terminal attribute set was put back.
    TerminalRestored,
}

/// What the driver must do next.
#[derive(Clone, Copy, Debug, PartialEq, Eq)]
pub enum ClientAction {
    /// Apply raw mode to the local input descriptor.
    EnterRawMode,
    /// Start both copy directions.
    StartRelay,
    /// Cancel the inbound copy instead of awaiting it.
    CancelInbound,
    /// Restore the saved terminal attribute set.
    RestoreTerminal,
    /// Report this result; the terminal is already restored.
    Report(Result<(), TunnelError>),
    /// Nothing: the event does not apply in the current phase.
    Stay,
}

/// One client invocation at the specification level.
#[verifier::ext_equal]
pub struct ClientModel {
    /// Lifecycle phase.
    pub phase: ClientPhase,
    /// Whether raw mode was ever applied.
    pub raw_applied: bool,
    /// Whether the remote side already closed its output.
    pub inbound_done: bool,
    /// The first fatal failure, if any; decides the reported result.
    pub failure: Option<TunnelError>,
    /// How many times the terminal was restored.
    pub restores: nat,
    /// Every byte received from the stream, in order.
    pub received: Seq<u8>,
    /// Every byte written (and flushed) to local output, in order.
    pub written: Seq<u8>,
    /// Every byte sent to the stream, in order.
    pub sent: Seq<u8>,
}

/// A client that has just connected.
pub open spec fn client_init() -> ClientModel {
    ClientModel {
        phase: ClientPhase::Connected,
        raw_applied: false,
        inbound_done: false,
        failure: None,
        restores: 0,
        received: Seq::empty(),
        written: Seq::empty(),
        sent: Seq::empty(),
    }
}

/// The result a client reports: its first fatal failure, or success.
pub open spec fn client_outcome(m: ClientModel) -> Result<(), TunnelError> {
    match m.failure {
        None => Ok(()),
        Some(e) => Err(e),
    }
}

/// The transition table for payload-free events.  A refused stream or denial
/// of raw mode is fatal to the invocation, and neither needs a restore: the
/// terminal was never changed.  After the relay, cancellation, restoration and
/// the report follow in that order, on the graceful path and the faulty path
/// alike.  Events that do not fit the current phase change nothing.
pub open spec fn client_control_step(m: ClientModel, ev: ClientControl) -> (ClientModel, ClientAction) {
    match (m.phase, ev) {
        (ClientPhase::Connected, ClientControl::StreamOpened) => (
            ClientModel { phase: ClientPhase::StreamOpen, ..m },
            ClientAction::EnterRawMode,
        ),
        (ClientPhase::Connected, ClientControl::StreamRefused) => (
            ClientModel {
                phase: ClientPhase::Finished,
                failure: Some(TunnelError::StreamOpen),
                ..m
            },
            ClientAction::Report(Err(TunnelError::StreamOpen)),
        ),
        (ClientPhase::StreamOpen, ClientControl::RawEntered) => (
            ClientModel { phase: ClientPhase::Relaying, raw_applied: true, ..m },
            ClientAction::StartRelay,
        ),
        (ClientPhase::StreamOpen, ClientControl::RawDenied) => (
            ClientModel { phase: ClientPhase::Finished, failure: Some(TunnelError::Termios), ..m },
            ClientAction::Report(Err(TunnelError::Termios)),
        ),
        (ClientPhase::Relaying, ClientControl::LocalEnded) => (
            ClientModel { phase: ClientPhase::Cancelling, ..m },
            ClientAction::CancelInbound,
        ),
        (ClientPhase::Relaying, ClientControl::RemoteEnded) => (
            ClientModel { inbound_done: true, ..m },
            ClientAction::Stay,
        ),
        (ClientPhase::Relaying, ClientControl::RelayFault) => (
            ClientModel { phase: ClientPhase::Cancelling, failure: Some(TunnelError::Io), ..m },
            ClientAction::CancelInbound,
        ),
        (ClientPhase::Cancelling, ClientControl::InboundStopped) => (
            ClientModel { phase: ClientPhase::Restoring, ..m },
            ClientAction::RestoreTerminal,
        ),
        (ClientPhase::Restoring, ClientControl::TerminalRestored) => (
            ClientModel { phase: ClientPhase::Finished, restores: m.restores + 1, ..m },
            ClientAction::Report(client_outcome(m)),
        ),
        _ => (m, ClientAction::Stay),
    }
}

/// One input to the client, at the specification level.
pub enum ClientInput {
    /// A payload-free event.
    Control(ClientControl),
    /// Bytes read from the stream.
    Remote(Seq<u8>),
    /// Bytes read from local input.
    Local(Seq<u8>),
}

/// What one input does to the client's state.  While relaying, remote bytes
/// are received and at once written and flushed to local output, and local
/// bytes are sent; outside the relay, payloads change nothing.
pub open spec fn client_step(m: ClientModel, input: ClientInput) -> ClientModel {
    match input {
        ClientInput::Control(ev) => client_control_step(m, ev).0,
        ClientInput::Remote(b) => if m.phase == ClientPhase::Relaying {
            ClientModel { received: m.received + b, written: m.written + b, ..m }
        } else {
            m
        },
        ClientInput::Local(b) => if m.phase == ClientPhase::Relaying {
            ClientModel { sent: m.sent + b, ..m }
        } else {
            m
        },
    }
}

/// The client after a whole sequence of inputs.
pub open spec fn client_run(m: ClientModel, inputs: Seq<ClientInput>) -> ClientModel
    decreases inputs.len(),
{
    if inputs.len() == 0 {
        m
    } else {
        client_run(client_step(m, inputs[0]), inputs.drop_first())
    }
}

/// Internal consistency of one client invocation: the terminal is restored at
/// most once and only if raw mode was applied; while the relay or its teardown
/// runs, raw mode holds and the restore is still owed; a finished invocation
/// that applied raw mode has restored exactly once; and every received remote
/// byte already stands in local output.
pub open spec fn client_wf(m: ClientModel) -> bool {
    &&& m.restores <= 1
    &&& (!m.raw_applied ==> m.restores == 0)
    &&& m.written == m.received
    &&& match m.phase {
        ClientPhase::Connected => !m.raw_applied && m.restores == 0,
        ClientPhase::StreamOpen => !m.raw_applied && m.restores == 0,
        ClientPhase::Relaying => m.raw_applied && m.restores == 0,
        ClientPhase::Cancelling => m.raw_applied && m.restores == 0,
        ClientPhase::Restoring => m.raw_applied && m.restores == 0,
        ClientPhase::Finished => m.raw_applied ==> m.restores == 1,
    }
}

/// One input preserves the client's consistency.
pub proof fn lemma_client_step_wf(m: ClientModel, input: ClientInput)
    requires
        client_wf(m),
    ensures
        client_wf(client_step(m, input)),
{
}

/// Any run of inputs preserves the client's consistency.
pub proof fn lemma_client_run_wf(m: ClientModel, inputs: Seq<ClientInput>)
    requires
        client_wf(m),
    ensures
        client_wf(client_run(m, inputs)),
    decreases inputs.len(),
{
    if inputs.len() > 0 {
        lemma_client_step_wf(m, inputs[0]);
        lemma_client_run_wf(client_step(m, inputs[0]), inputs.drop_first());
    }
}

/// Law (restored exactly once, on every exit path): however a fresh client
/// invocation runs — success, error, or cancellation — the terminal is
/// restored at most once; and once the invocation has finished, it was
/// restored exactly once if raw mode was ever applied, and never touched if
/// not.
pub proof fn lemma_terminal_restored_exactly_once(inputs: Seq<ClientInput>)
    ensures
        client_run(client_init(), inputs).restores <= 1,
        client_run(client_init(), inputs).phase == ClientPhase::Finished ==> (client_run(
            client_init(),
            inputs,
        ).raw_applied <==> client_run(client_init(), inputs).restores == 1),
{
    lemma_client_run_wf(client_init(), inputs);
}

/// Law (remote output is never held back): at every point of any run — in
/// particular when local input ends immediately and the inbound copy is then
/// cancelled — every byte received from the stream has already been written
/// and flushed to local output, unmodified and in order.
pub proof fn lemma_remote_output_flushed(inputs: Seq<ClientInput>)
    ensures
        client_run(client_init(), inputs).written == client_run(client_init(), inputs).received,
{
    lemma_client_run_wf(client_init(), inputs);
}

/// Law (the result is reported only after the restore): whenever a step
/// reports the invocation's result, the client is finished, the terminal has
/// been restored exactly once if raw mode was ever applied, and the reported
/// result is the invocation's outcome.
pub proof fn lemma_report_after_restore(m: ClientModel, ev: ClientControl)
    requires
        client_wf(m),
    ensures
        client_control_step(m, ev).1 matches ClientAction::Report(r) ==> ({
            let end = client_control_step(m, ev).0;
            &&& end.phase == ClientPhase::Finished
            &&& (end.raw_applied ==> end.restores == 1)
            &&& r == client_outcome(end)
        }),
{
}

/// One client invocation.  The ghost sequences record the bytes that crossed
/// it, and the ghost counter how often the terminal was restored.
pub struct ClientRelay {
    /// Lifecycle phase.
    pub phase: ClientPhase,
    /// Whether raw mode was ever applied.
    pub raw_applied: bool,
    /// Whether the remote side already closed its output.
    pub inbound_done: bool,
    /// The first fatal failure, if any.
    pub failure: Option<TunnelError>,
    /// How many times the terminal was restored.
    pub restores: Ghost<nat>,
    /// Every byte received from the stream.
    pub received: Ghost<Seq<u8>>,
    /// Every byte written and flushed to local output.
    pub written: Ghost<Seq<u8>>,
    /// Every byte sent to the stream.
    pub sent: Ghost<Seq<u8>>,
}

impl ClientRelay {
    /// The model this invocation stands for.
    pub open spec fn model(&self) -> ClientModel {
        ClientModel {
            phase: self.phase,
            raw_applied: self.raw_applied,
            inbound_done: self.inbound_done,
            failure: self.failure,
            restores: self.restores@,
            received: self.received@,
            written: self.written@,
            sent: self.sent@,
        }
    }

    /// A client that has just connected.
    pub fn new() -> (c: ClientRelay)
        ensures
            c.model() == client_init(),
    {
        let c = ClientRelay {
            phase: ClientPhase::Connected,
            raw_applied: false,
            inbound_done: false,
            failure: None,
            restores: Ghost(0),
            received: Ghost(Seq::empty()),
            written: Ghost(Seq::empty()),
            sent: Ghost(Seq::empty()),
        };
        proof {
            assert(c.model() =~~= client_init());
        }
        c
    }

    /// Feeds one payload-free event and returns the driver's next duty,
    /// exactly as the transition table says.
    pub fn on_control(&mut self, ev: ClientControl) -> (a: ClientAction)
        ensures
            (final(self).model(), a) == client_control_step(old(self).model(), ev),
    {
        match (self.phase, ev) {
            (ClientPhase::Connected, ClientControl::StreamOpened) => {
                self.phase = ClientPhase::StreamOpen;
                ClientAction::EnterRawMode
            },
            (ClientPhase::Connected, ClientControl::StreamRefused) => {
                self.phase = ClientPhase::Finished;
                self.failure = Some(TunnelError::StreamOpen);
                ClientAction::Report(Err(TunnelError::StreamOpen))
            },
            (ClientPhase::StreamOpen, ClientControl::RawEntered) => {
                self.phase = ClientPhase::Relaying;
                self.raw_applied = true;
                ClientAction::StartRelay
            },
            (ClientPhase::StreamOpen, ClientControl::RawDenied) => {
                self.phase = ClientPhase::Finished;
                self.failure = Some(TunnelError::Termios);
                ClientAction::Report(Err(TunnelError::Termios))
            },
            (ClientPhase::Relaying, ClientControl::LocalEnded) => {
                self.phase = ClientPhase::Cancelling;
                ClientAction::CancelInbound
            },
            (ClientPhase::Relaying, ClientControl::RemoteEnded) => {
                self.inbound_done = true;
                ClientAction::Stay
            },
            (ClientPhase::Relaying, ClientControl::RelayFault) => {
                self.phase = ClientPhase::Cancelling;
                self.failure = Some(TunnelError::Io);
                ClientAction::CancelInbound
            },
            (ClientPhase::Cancelling, ClientControl::InboundStopped) => {
                self.phase = ClientPhase::Restoring;
                ClientAction::RestoreTerminal
            },
            (ClientPhase::Restoring, ClientControl::TerminalRestored) => {
                self.phase = ClientPhase::Finished;
                self.restores = Ghost(self.restores@ + 1);
                match self.failure {
                    None => ClientAction::Report(Ok(())),
                    Some(e) => ClientAction::Report(Err(e)),
                }
            },
            _ => ClientAction::Stay,
        }
    }

    /// Hands over bytes read from the stream.  While relaying they are
    /// returned to be written and flushed to local output at once; outside the
    /// relay nothing is to be written.
    pub fn on_remote_bytes(&mut self, b: Vec<u8>) -> (out: Option<Vec<u8>>)
        ensures
            final(self).model() == client_step(old(self).model(), ClientInput::Remote(b@)),
            old(self).phase == ClientPhase::Relaying ==> (out matches Some(o) && o == b),
            old(self).phase != ClientPhase::Relaying ==> out is None,
    {
        if self.phase == ClientPhase::Relaying {
            self.received = Ghost(self.received@ + b@);
            self.written = Ghost(self.written@ + b@);
            Some(b)
        } else {
            None
        }
    }

    /// Hands over bytes read from local input.  While relaying they are
    /// returned to be sent on the stream; outside the relay nothing is to be
    /// sent.
    pub fn on_local_bytes(&mut self, b: Vec<u8>) -> (out: Option<Vec<u8>>)
        ensures
            final(self).model() == client_step(old(self).model(), ClientInput::Local(b@)),
            old(self).phase == ClientPhase::Relaying ==> (out matches Some(o) && o == b),
            old(self).phase != ClientPhase::Relaying ==> out is None,
    {
        if self.phase == ClientPhase::Relaying {
            self.sent = Ghost(self.sent@ + b@);
            Some(b)
        } else {
            None
        }
    }
}

} // verus!
