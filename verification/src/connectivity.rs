//! The wireless-association lifecycle: an unbounded retry loop that keeps
//! the device associated with the configured network. The loop has two
//! delay points — a cooldown after an observed disconnect and a back-off
//! after a failed association attempt — and no terminal state. The radio
//! driver calls and the delays are performed by the driving task; this
//! module holds every decision, as a step function from phase and
//! observed event to next phase and next action.

use vstd::prelude::*;

verus! {

/// Milliseconds of back-off after a failed association attempt.
pub const RETRY_BACKOFF_MS: u64 = 5000;

/// Milliseconds of cooldown after an observed disconnect, so that a
/// flapping access point is not retried in a hot loop.
pub const DISCONNECT_COOLDOWN_MS: u64 = 5000;

/// The association state the radio driver reports.
#[derive(Clone, Copy, PartialEq, Eq, Structural, Debug)]
pub enum LinkState {
    Disconnected,
    Connecting,
    Connected,
    AwaitingDisconnectEvent,
}

/// The immutable pair fixed at build time that the device uses to join
/// its network.
pub struct Credential {
    /// The network identity to associate with.
    pub ssid: String,
    /// The secret presented during association.
    pub password: String,
}

/// Where the connectivity loop stands between two suspension points.
#[derive(Clone, Copy, PartialEq, Eq, Structural, Debug)]
pub enum ConnPhase {
    /// Asking the driver for the current association status.
    CheckStatus,
    /// Associated: blocked until the driver reports a disconnect.
    AwaitDisconnect,
    /// A disconnect was observed; cooling down before the next pass.
    Cooldown,
    /// Asking whether the radio is in its started operational mode.
    CheckStarted,
    /// The radio was not started; applying the client configuration.
    Configuring,
    /// Configuration applied; starting the radio.
    Starting,
    /// Issuing one association attempt.
    Connecting,
    /// The attempt failed; backing off before the next pass.
    Backoff,
}

/// What the driving task observes at each suspension point.
#[derive(Clone, Copy, PartialEq, Eq, Structural, Debug)]
pub enum ConnEvent {
    /// The answer to a status query.
    StatusIs { state: LinkState },
    /// The driver reported that the association was lost.
    DisconnectObserved,
    /// A delay has elapsed.
    DelayElapsed,
    /// The answer to a started query.
    StartedIs { started: bool },
    /// The outcome of applying the configuration.
    ConfigResult { ok: bool },
    /// The outcome of starting the radio.
    StartResult { ok: bool },
    /// The outcome of one association attempt.
    ConnectResult { ok: bool },
}

/// What the driving task is asked to do next.
#[derive(Clone, Copy, PartialEq, Eq, Structural, Debug)]
pub enum ConnAction {
    /// Ask the driver for the current association status.
    QueryStatus,
    /// Suspend until the driver reports a disconnect.
    WaitForDisconnect,
    /// Wait this many milliseconds.
    Delay { ms: u64 },
    /// Ask the driver whether the radio is started.
    QueryStarted,
    /// Apply the client configuration (identity and secret).
    SetConfiguration,
    /// Start the radio.
    StartRadio,
    /// Issue one association attempt.
    Connect,
}

/// The action a phase is waiting on; re-issued if the driving task hands
/// back an event that does not answer it.
pub open spec fn conn_pending_spec(p: ConnPhase) -> ConnAction {
    match p {
        ConnPhase::CheckStatus => ConnAction::QueryStatus,
        ConnPhase::AwaitDisconnect => ConnAction::WaitForDisconnect,
        ConnPhase::Cooldown => ConnAction::Delay { ms: DISCONNECT_COOLDOWN_MS },
        ConnPhase::CheckStarted => ConnAction::QueryStarted,
        ConnPhase::Configuring => ConnAction::SetConfiguration,
        ConnPhase::Starting => ConnAction::StartRadio,
        ConnPhase::Connecting => ConnAction::Connect,
        ConnPhase::Backoff => ConnAction::Delay { ms: RETRY_BACKOFF_MS },
    }
}

/// One step of the connectivity loop. A connected status turns into a
/// wait for the disconnect event; a disconnect is followed by the fixed
/// cooldown; a radio that is not started is configured and started, a
/// failure there being absorbed by the next pass; a failed association
/// attempt is followed by the fixed back-off. No event leads to a
/// terminal phase.
pub open spec fn conn_step_spec(p: ConnPhase, e: ConnEvent) -> (ConnPhase, ConnAction) {
    match (p, e) {
        (ConnPhase::CheckStatus, ConnEvent::StatusIs { state }) => {
            if state is Connected {
                (ConnPhase::AwaitDisconnect, ConnAction::WaitForDisconnect)
            } else {
                (ConnPhase::CheckStarted, ConnAction::QueryStarted)
            }
        },
        (ConnPhase::AwaitDisconnect, ConnEvent::DisconnectObserved) => (
            ConnPhase::Cooldown,
            ConnAction::Delay { ms: DISCONNECT_COOLDOWN_MS },
        ),
        (ConnPhase::Cooldown, ConnEvent::DelayElapsed) => (
            ConnPhase::CheckStarted,
            ConnAction::QueryStarted,
        ),
        (ConnPhase::CheckStarted, ConnEvent::StartedIs { started }) => {
            if started {
                (ConnPhase::Connecting, ConnAction::Connect)
            } else {
                (ConnPhase::Configuring, ConnAction::SetConfiguration)
            }
        },
        (ConnPhase::Configuring, ConnEvent::ConfigResult { ok }) => {
            if ok {
                (ConnPhase::Starting, ConnAction::StartRadio)
            } else {
                (ConnPhase::CheckStatus, ConnAction::QueryStatus)
            }
        },
        (ConnPhase::Starting, ConnEvent::StartResult { ok }) => {
            if ok {
                (ConnPhase::Connecting, ConnAction::Connect)
            } else {
                (ConnPhase::CheckStatus, ConnAction::QueryStatus)
            }
        },
        (ConnPhase::Connecting, ConnEvent::ConnectResult { ok }) => {
            if ok {
                (ConnPhase::CheckStatus, ConnAction::QueryStatus)
            } else {
                (ConnPhase::Backoff, ConnAction::Delay { ms: RETRY_BACKOFF_MS })
            }
        },
        (ConnPhase::Backoff, ConnEvent::DelayElapsed) => (
            ConnPhase::CheckStatus,
            ConnAction::QueryStatus,
        ),
        _ => (p, conn_pending_spec(p)),
    }
}

/// The action a phase is waiting on.
pub fn conn_pending(p: ConnPhase) -> (a: ConnAction)
    ensures
        a == conn_pending_spec(p),
{
    match p {
        ConnPhase::CheckStatus => ConnAction::QueryStatus,
        ConnPhase::AwaitDisconnect => ConnAction::WaitForDisconnect,
        ConnPhase::Cooldown => ConnAction::Delay { ms: DISCONNECT_COOLDOWN_MS },
        ConnPhase::CheckStarted => ConnAction::QueryStarted,
        ConnPhase::Configuring => ConnAction::SetConfiguration,
        ConnPhase::Starting => ConnAction::StartRadio,
        ConnPhase::Connecting => ConnAction::Connect,
        ConnPhase::Backoff => ConnAction::Delay { ms: RETRY_BACKOFF_MS },
    }
}

/// Take one step of the connectivity loop.
pub fn conn_step(p: ConnPhase, e: ConnEvent) -> (r: (ConnPhase, ConnAction))
    ensures
        r == conn_step_spec(p, e),
{
    match (p, e) {
        (ConnPhase::CheckStatus, ConnEvent::StatusIs { state }) => {
            if matches!(state, LinkState::Connected) {
                (ConnPhase::AwaitDisconnect, ConnAction::WaitForDisconnect)
            } else {
                (ConnPhase::CheckStarted, ConnAction::QueryStarted)
            }
        },
        (ConnPhase::AwaitDisconnect, ConnEvent::DisconnectObserved) => (
            ConnPhase::Cooldown,
            ConnAction::Delay { ms: DISCONNECT_COOLDOWN_MS },
        ),
        (ConnPhase::Cooldown, ConnEvent::DelayElapsed) => (
            ConnPhase::CheckStarted,
            ConnAction::QueryStarted,
        ),
        (ConnPhase::CheckStarted, ConnEvent::StartedIs { started }) => {
            if started {
                (ConnPhase::Connecting, ConnAction::Connect)
            } else {
                (ConnPhase::Configuring, ConnAction::SetConfiguration)
            }
        },
        (ConnPhase::Configuring, ConnEvent::ConfigResult { ok }) => {
            if ok {
                (ConnPhase::Starting, ConnAction::StartRadio)
            } else {
                (ConnPhase::CheckStatus, ConnAction::QueryStatus)
            }
        },
        (ConnPhase::Starting, ConnEvent::StartResult { ok }) => {
            if ok {
                (ConnPhase::Connecting, ConnAction::Connect)
            } else {
                (ConnPhase::CheckStatus, ConnAction::QueryStatus)
            }
        },
        (ConnPhase::Connecting, ConnEvent::ConnectResult { ok }) => {
            if ok {
                (ConnPhase::CheckStatus, ConnAction::QueryStatus)
            } else {
                (ConnPhase::Backoff, ConnAction::Delay { ms: RETRY_BACKOFF_MS })
            }
        },
        (ConnPhase::Backoff, ConnEvent::DelayElapsed) => (
            ConnPhase::CheckStatus,
            ConnAction::QueryStatus,
        ),
        (other, _) => {
            let a = conn_pending(other);
            (other, a)
        },
    }
}

/// The connectivity loop: its current phase and the build-time credential
/// it configures the radio with. The credential never changes; the phase
/// changes only through `step`, so the loop can never hold two
/// association attempts in flight.
pub struct ConnectivityManager {
    pub phase: ConnPhase,
    pub credential: Credential,
}

impl ConnectivityManager {
    /// A fresh manager starts by inspecting the association status.
    pub fn new(credential: Credential) -> (m: Self)
        ensures
            m.phase == ConnPhase::CheckStatus,
            m.credential == credential,
    {
        ConnectivityManager { phase: ConnPhase::CheckStatus, credential }
    }

    /// The action the manager is waiting on in its current phase.
    pub fn pending(&self) -> (a: ConnAction)
        ensures
            a == conn_pending_spec(self.phase),
    {
        conn_pending(self.phase)
    }

    /// Take one step: consume the observed event, move to the next phase
    /// and return the next action. The credential is never touched.
    pub fn step(&mut self, e: ConnEvent) -> (a: ConnAction)
        ensures
            final(self).phase == conn_step_spec(old(self).phase, e).0,
            a == conn_step_spec(old(self).phase, e).1,
            final(self).credential == old(self).credential,
    {
        let r = conn_step(self.phase, e);
        self.phase = r.0;
        r.1
    }
}

/// The actions the loop issues over a sequence of observed events.
pub open spec fn conn_run(p: ConnPhase, events: Seq<ConnEvent>) -> Seq<ConnAction>
    decreases events.len(),
{
    if events.len() == 0 {
        Seq::empty()
    } else {
        seq![conn_step_spec(p, events[0]).1] + conn_run(
            conn_step_spec(p, events[0]).0,
            events.drop_first(),
        )
    }
}

/// The phase the loop stands in after a sequence of observed events.
pub open spec fn conn_final(p: ConnPhase, events: Seq<ConnEvent>) -> ConnPhase
    decreases events.len(),
{
    if events.len() == 0 {
        p
    } else {
        conn_final(conn_step_spec(p, events[0]).0, events.drop_first())
    }
}

/// A failed association attempt moves the loop into back-off, asking for
/// the full back-off delay, and once that delay has elapsed the loop is
/// back at its status check — the retry cycle continues.
pub proof fn lemma_failed_connect_backs_off()
    ensures
        conn_step_spec(ConnPhase::Connecting, ConnEvent::ConnectResult { ok: false }) == (
            ConnPhase::Backoff,
            (ConnAction::Delay { ms: RETRY_BACKOFF_MS }),
        ),
        conn_step_spec(ConnPhase::Backoff, ConnEvent::DelayElapsed) == (
            ConnPhase::CheckStatus,
            ConnAction::QueryStatus,
        ),
{
}

/// A disconnect observed while associated moves the loop into its fixed
/// cooldown: a connected status turns into a wait for the disconnect
/// event, and the observed disconnect asks for the full cooldown delay.
pub proof fn lemma_disconnect_enters_cooldown()
    ensures
        conn_step_spec(ConnPhase::CheckStatus, ConnEvent::StatusIs { state: LinkState::Connected })
            == (ConnPhase::AwaitDisconnect, ConnAction::WaitForDisconnect),
        conn_step_spec(ConnPhase::AwaitDisconnect, ConnEvent::DisconnectObserved) == (
            ConnPhase::Cooldown,
            (ConnAction::Delay { ms: DISCONNECT_COOLDOWN_MS }),
        ),
        conn_step_spec(ConnPhase::Cooldown, ConnEvent::DelayElapsed) == (
            ConnPhase::CheckStarted,
            ConnAction::QueryStarted,
        ),
{
}

/// In a delay phase the loop does nothing but ask for its delay: until
/// the delay has elapsed — whatever else is handed to it — the phase does
/// not change and no other action, in particular no association attempt,
/// is issued. This separates consecutive attempts by the full back-off,
/// and separates a disconnect from the next attempt by the full cooldown.
pub proof fn lemma_delay_blocks_until_elapsed(p: ConnPhase, events: Seq<ConnEvent>)
    requires
        p is Cooldown || p is Backoff,
        forall|i: int| 0 <= i < events.len() ==> !(events[i] is DelayElapsed),
    ensures
        conn_final(p, events) == p,
        forall|i: int|
            0 <= i < conn_run(p, events).len() ==> conn_run(p, events)[i] == conn_pending_spec(p),
        conn_run(p, events).len() == events.len(),
    decreases events.len(),
{
    if events.len() > 0 {
        let p2 = conn_step_spec(p, events[0]).0;
        let rest = events.drop_first();
        assert(p2 == p);
        lemma_delay_blocks_until_elapsed(p2, rest);
        assert(conn_run(p, events) == seq![conn_pending_spec(p)] + conn_run(p, rest));
        assert forall|i: int| 0 <= i < conn_run(p, events).len() implies conn_run(p, events)[i]
            == conn_pending_spec(p) by {
            if i > 0 {
                assert(conn_run(p, events)[i] == conn_run(p, rest)[i - 1]);
            }
        }
    }
}

/// The actions issued over one event.
proof fn lemma_conn_run_one(p: ConnPhase, e0: ConnEvent)
    ensures
        conn_run(p, seq![e0]) == seq![conn_step_spec(p, e0).1],
{
    let evs = seq![e0];
    assert(evs.drop_first() =~= Seq::<ConnEvent>::empty());
    assert(conn_run(conn_step_spec(p, e0).0, evs.drop_first()) =~= Seq::<ConnAction>::empty());
    assert(conn_run(p, evs) =~= seq![conn_step_spec(p, e0).1]);
}

/// The actions issued over two events.
proof fn lemma_conn_run_two(p: ConnPhase, e0: ConnEvent, e1: ConnEvent)
    ensures
        conn_run(p, seq![e0, e1]) == seq![
            conn_step_spec(p, e0).1,
            conn_step_spec(conn_step_spec(p, e0).0, e1).1,
        ],
{
    let evs = seq![e0, e1];
    let p1 = conn_step_spec(p, e0).0;
    assert(evs.drop_first() =~= seq![e1]);
    lemma_conn_run_one(p1, e1);
    assert(conn_run(p, evs) =~= seq![conn_step_spec(p, e0).1, conn_step_spec(p1, e1).1]);
}

/// The actions issued over three events.
proof fn lemma_conn_run_three(p: ConnPhase, e0: ConnEvent, e1: ConnEvent, e2: ConnEvent)
    ensures
        conn_run(p, seq![e0, e1, e2]) == seq![
            conn_step_spec(p, e0).1,
            conn_step_spec(conn_step_spec(p, e0).0, e1).1,
            conn_step_spec(conn_step_spec(conn_step_spec(p, e0).0, e1).0, e2).1,
        ],
{
    let evs = seq![e0, e1, e2];
    let p1 = conn_step_spec(p, e0).0;
    let p2 = conn_step_spec(p1, e1).0;
    assert(evs.drop_first() =~= seq![e1, e2]);
    lemma_conn_run_two(p1, e1, e2);
    assert(conn_run(p, evs) =~= seq![
        conn_step_spec(p, e0).1,
        conn_step_spec(p1, e1).1,
        conn_step_spec(p2, e2).1,
    ]);
}

/// No phase is terminal: from every phase some admissible event sequence
/// leads the loop to issue another association attempt. Together with the
/// back-off lemma this is the unbounded retry policy: after any failure
/// the loop can — and, driven forward, will — attempt again.
pub proof fn lemma_connect_always_reachable(p: ConnPhase)
    ensures
        exists|events: Seq<ConnEvent>|
            conn_run(p, events).len() > 0 && conn_run(p, events).last() == ConnAction::Connect,
{
    let not_connected = ConnEvent::StatusIs { state: LinkState::Disconnected };
    let started = ConnEvent::StartedIs { started: true };
    match p {
        ConnPhase::CheckStatus => {
            lemma_conn_run_two(p, not_connected, started);
            assert(conn_run(p, seq![not_connected, started]).last() == ConnAction::Connect);
        },
        ConnPhase::AwaitDisconnect => {
            lemma_conn_run_three(p, ConnEvent::DisconnectObserved, ConnEvent::DelayElapsed, started);
            assert(conn_run(
                p,
                seq![ConnEvent::DisconnectObserved, ConnEvent::DelayElapsed, started],
            ).last() == ConnAction::Connect);
        },
        ConnPhase::Cooldown => {
            lemma_conn_run_two(p, ConnEvent::DelayElapsed, started);
            assert(conn_run(p, seq![ConnEvent::DelayElapsed, started]).last()
                == ConnAction::Connect);
        },
        ConnPhase::CheckStarted => {
            lemma_conn_run_one(p, started);
            assert(conn_run(p, seq![started]).last() == ConnAction::Connect);
        },
        ConnPhase::Configuring => {
            lemma_conn_run_two(
                p,
                ConnEvent::ConfigResult { ok: true },
                ConnEvent::StartResult { ok: true },
            );
            assert(conn_run(
                p,
                seq![
                    (ConnEvent::ConfigResult { ok: true }),
                    (ConnEvent::StartResult { ok: true }),
                ],
            ).last() == ConnAction::Connect);
        },
        ConnPhase::Starting => {
            lemma_conn_run_one(p, ConnEvent::StartResult { ok: true });
            assert(conn_run(p, seq![(ConnEvent::StartResult { ok: true })]).last()
                == ConnAction::Connect);
        },
        ConnPhase::Connecting => {
            lemma_conn_run_three(p, ConnEvent::ConnectResult { ok: true }, not_connected, started);
            assert(conn_run(
                p,
                seq![(ConnEvent::ConnectResult { ok: true }), not_connected, started],
            ).last() == ConnAction::Connect);
        },
        ConnPhase::Backoff => {
            lemma_conn_run_three(p, ConnEvent::DelayElapsed, not_connected, started);
            assert(conn_run(p, seq![ConnEvent::DelayElapsed, not_connected, started]).last()
                == ConnAction::Connect);
        },
    }
}

} // verus!
