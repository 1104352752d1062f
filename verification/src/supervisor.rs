//! The connection supervisor, modeled as an explicit state machine.
//!
//! The supervisor drives the radio from a down link through association and
//! address acquisition into steady-state monitoring, and recovers from every
//! failure with a disconnect and one fixed backoff. The machine itself is
//! pure: it consumes driver-reported events and answers with the next action
//! to perform, so it can be driven by the real radio driver or by a scripted
//! stub.

use vstd::prelude::*;
use crate::config::Config;
use crate::link::WifiState;

verus! {

/// Fixed backoff, in milliseconds, inserted after every failed cycle.
pub const BACKOFF_DELAY_MS: u64 = 1000;

/// Bound, in milliseconds, on the wait for address acquisition.
pub const ACQUIRE_TIMEOUT_MS: u64 = 10000;

/// Phase of the supervision state machine. There is no terminal phase: the
/// machine runs until the process shuts down.
#[derive(Clone, Copy, PartialEq, Eq, Structural, Debug)]
pub enum Phase {
    /// The link is not up; the supervisor is about to start a cycle.
    Down,
    /// A connect command has been issued and its outcome is awaited.
    Connecting,
    /// Association succeeded; the address acquisition wait is running.
    AcquiringIp,
    /// The link is up and addressed; the supervisor monitors for a drop.
    Connected,
}

/// A driver-reported outcome of the action the supervisor last requested.
#[derive(Clone, Copy, Debug)]
pub enum Event {
    /// The down-wait returned: the link is currently not up.
    DownObserved,
    /// The connect command completed successfully.
    ConnectSucceeded,
    /// The connect command failed.
    ConnectFailed,
    /// The bounded up-wait returned: the interface is up. The payload is the
    /// result of reading its IP configuration; `None` is a read glitch, which
    /// leaves the previously published address in place.
    Acquired(Option<[u8; 4]>),
    /// The bounded up-wait timed out or failed.
    AcquireFailed,
    /// The monitor wait returned: the link dropped.
    LinkLost,
}

/// An action the supervisor asks its environment to perform next.
#[derive(Clone, Copy, Debug)]
pub enum Action {
    /// Suspend until the driver reports the link not up; no timeout.
    AwaitDown,
    /// Issue the connect command.
    IssueConnect,
    /// Suspend until the interface reaches the up condition, for at most
    /// `timeout_ms` milliseconds, then read the IP configuration.
    AwaitUp { timeout_ms: u64 },
    /// Issue a disconnect to reset driver-internal state, then sleep once
    /// for `delay_ms` milliseconds before the next cycle.
    DisconnectThenBackoff { delay_ms: u64 },
    /// Suspend until the link drops; no timeout.
    Monitor,
}

/// Fatal errors of supervisor initialization. Each aborts the owning task;
/// the process restarts the device after logging it.
#[derive(Clone, Copy, PartialEq, Eq, Structural, Debug)]
pub enum FatalError {
    /// A required hardware or system resource could not be claimed.
    Initialization,
    /// A credential does not fit the driver's fixed-capacity buffer.
    Configuration,
    /// The radio hardware could not be started.
    DriverStart,
}

impl FatalError {
    /// A short description for the log line written before the restart.
    pub fn describe(&self) -> (r: &'static str)
        ensures
            *self is Initialization ==> r@ == "failed to claim a required resource"@,
            *self is Configuration ==> r@ == "credentials exceed the driver buffer capacity"@,
            *self is DriverStart ==> r@ == "failed to start the radio driver"@,
    {
        match self {
            FatalError::Initialization => "failed to claim a required resource",
            FatalError::Configuration => "credentials exceed the driver buffer capacity",
            FatalError::DriverStart => "failed to start the radio driver",
        }
    }
}

/// The event kinds each phase can receive from the driver.
pub open spec fn event_admissible(phase: Phase, event: Event) -> bool {
    match (phase, event) {
        (Phase::Down, Event::DownObserved) => true,
        (Phase::Connecting, Event::ConnectSucceeded) => true,
        (Phase::Connecting, Event::ConnectFailed) => true,
        (Phase::AcquiringIp, Event::Acquired(_)) => true,
        (Phase::AcquiringIp, Event::AcquireFailed) => true,
        (Phase::Connected, Event::LinkLost) => true,
        _ => false,
    }
}

/// The connection supervisor: the machine's phase together with the link
/// state it publishes.
pub struct WifiConnection {
    pub state: WifiState,
    pub phase: Phase,
}

/// The transition table: for a phase/event pair, the supervisor after the
/// transition and the action it requests next.
pub open spec fn step_spec(pre: WifiConnection, event: Event) -> (WifiConnection, Action) {
    match (pre.phase, event) {
        (Phase::Down, Event::DownObserved) => (
            WifiConnection { phase: Phase::Connecting, ..pre },
            Action::IssueConnect,
        ),
        (Phase::Connecting, Event::ConnectSucceeded) => (
            WifiConnection { phase: Phase::AcquiringIp, ..pre },
            Action::AwaitUp { timeout_ms: ACQUIRE_TIMEOUT_MS },
        ),
        (Phase::Connecting, Event::ConnectFailed) => (
            WifiConnection { phase: Phase::Down, ..pre },
            Action::DisconnectThenBackoff { delay_ms: BACKOFF_DELAY_MS },
        ),
        (Phase::AcquiringIp, Event::Acquired(read)) => (
            WifiConnection {
                phase: Phase::Connected,
                state: WifiState {
                    ip_addr: if read is Some { read } else { pre.state.ip_addr },
                    ..pre.state
                },
            },
            Action::Monitor,
        ),
        (Phase::AcquiringIp, Event::AcquireFailed) => (
            WifiConnection { phase: Phase::Down, ..pre },
            Action::DisconnectThenBackoff { delay_ms: BACKOFF_DELAY_MS },
        ),
        (Phase::Connected, Event::LinkLost) => (
            WifiConnection { phase: Phase::Down, ..pre },
            Action::AwaitDown,
        ),
        _ => (pre, Action::AwaitDown),
    }
}

impl WifiConnection {
    /// Builds the supervisor for a given interface MAC address, rejecting a
    /// configuration whose credentials cannot fit the driver's buffers.
    pub fn new(mac_address: [u8; 6], config: &Config) -> (r: Result<WifiConnection, FatalError>)
        ensures
            r is Ok <==> config.credentials_fit(),
            r matches Ok(c) ==> c.phase == Phase::Down
                && c.state.mac_address == mac_address
                && c.state.ssid@ == config.wifi_ssid@
                && c.state.ip_addr is None,
            r matches Err(e) ==> e == FatalError::Configuration,
    {
        if !config.check_credentials() {
            return Err(FatalError::Configuration);
        }
        Ok(WifiConnection {
            phase: Phase::Down,
            state: WifiState::new(mac_address, config.wifi_ssid.clone()),
        })
    }

    /// Applies one driver event to the machine and returns the next action.
    pub fn step(&mut self, event: Event) -> (action: Action)
        requires
            event_admissible(old(self).phase, event),
        ensures
            *final(self) == step_spec(*old(self), event).0,
            action == step_spec(*old(self), event).1,
    {
        match (self.phase, event) {
            (Phase::Down, Event::DownObserved) => {
                self.phase = Phase::Connecting;
                Action::IssueConnect
            }
            (Phase::Connecting, Event::ConnectSucceeded) => {
                self.phase = Phase::AcquiringIp;
                Action::AwaitUp { timeout_ms: ACQUIRE_TIMEOUT_MS }
            }
            (Phase::Connecting, Event::ConnectFailed) => {
                self.phase = Phase::Down;
                Action::DisconnectThenBackoff { delay_ms: BACKOFF_DELAY_MS }
            }
            (Phase::AcquiringIp, Event::Acquired(read)) => {
                self.phase = Phase::Connected;
                if let Some(ip) = read {
                    self.state.ip_addr = Some(ip);
                }
                Action::Monitor
            }
            (Phase::AcquiringIp, Event::AcquireFailed) => {
                self.phase = Phase::Down;
                Action::DisconnectThenBackoff { delay_ms: BACKOFF_DELAY_MS }
            }
            (Phase::Connected, Event::LinkLost) => {
                self.phase = Phase::Down;
                Action::AwaitDown
            }
            _ => Action::AwaitDown,
        }
    }
}

/// A scripted outcome for one full cycle of the steady-state loop, as a stub
/// driver would report it.
#[derive(Clone, Copy, Debug)]
pub enum CycleOutcome {
    /// The connect command failed.
    ConnectFailed,
    /// Connect succeeded, but the address wait timed out or failed.
    AcquireFailed,
    /// Connect and address wait succeeded, but reading the IP configuration
    /// failed (a read glitch; no address is published).
    ConnectedNoIpInfo,
    /// Connect and address wait succeeded with this address.
    Connected([u8; 4]),
}

/// A cycle with this outcome ends in a disconnect and a backoff.
pub open spec fn cycle_fails(o: CycleOutcome) -> bool {
    o is ConnectFailed || o is AcquireFailed
}

/// The IP field after a cycle with outcome `o`, given the field's previous
/// value: only a successful address read replaces it.
pub open spec fn cycle_ip(ip: Option<[u8; 4]>, o: CycleOutcome) -> Option<[u8; 4]> {
    match o {
        CycleOutcome::Connected(a) => Some(a),
        _ => ip,
    }
}

/// The exact actions one cycle requests from the driver, in order: a monitor
/// wait if the previous cycle left the link connected, then one connect
/// command, then — depending on the outcome — either the single fixed
/// backoff or the bounded address wait followed by monitoring.
pub open spec fn cycle_actions(pre: Phase, o: CycleOutcome) -> Seq<Action> {
    (if pre is Connected {
        seq![Action::AwaitDown]
    } else {
        Seq::<Action>::empty()
    }) + seq![Action::IssueConnect] + match o {
        CycleOutcome::ConnectFailed => seq![
            Action::DisconnectThenBackoff { delay_ms: BACKOFF_DELAY_MS },
        ],
        CycleOutcome::AcquireFailed => seq![
            Action::AwaitUp { timeout_ms: ACQUIRE_TIMEOUT_MS },
            Action::DisconnectThenBackoff { delay_ms: BACKOFF_DELAY_MS },
        ],
        _ => seq![
            Action::AwaitUp { timeout_ms: ACQUIRE_TIMEOUT_MS },
            Action::Monitor,
        ],
    }
}

/// The IP field after a whole script of cycles.
pub open spec fn script_ip(ip: Option<[u8; 4]>, s: Seq<CycleOutcome>) -> Option<[u8; 4]>
    decreases s.len(),
{
    if s.len() == 0 {
        ip
    } else {
        cycle_ip(script_ip(ip, s.drop_last()), s.last())
    }
}

/// The number of failed cycles in a script.
pub open spec fn script_failures(s: Seq<CycleOutcome>) -> nat
    decreases s.len(),
{
    if s.len() == 0 {
        0
    } else {
        script_failures(s.drop_last()) + if cycle_fails(s.last()) {
            1nat
        } else {
            0nat
        }
    }
}

/// Externally visible effort of a scripted run.
pub struct RunTrace {
    /// The number of connect commands issued: exactly one per cycle.
    pub connect_attempts: usize,
    /// The backoff delay of each failed cycle, in order of occurrence.
    pub backoff_delays: Vec<u64>,
}

impl WifiConnection {
    /// Drives the machine through one full cycle of the steady-state loop,
    /// with a stub driver answering every wait as `outcome` dictates, and
    /// returns the exact actions the machine requested.
    pub fn run_cycle(&mut self, outcome: CycleOutcome) -> (actions: Vec<Action>)
        requires
            old(self).phase == Phase::Down || old(self).phase == Phase::Connected,
        ensures
            actions@ == cycle_actions(old(self).phase, outcome),
            final(self).state.mac_address == old(self).state.mac_address,
            final(self).state.ssid == old(self).state.ssid,
            final(self).state.ip_addr == cycle_ip(old(self).state.ip_addr, outcome),
            final(self).phase == if cycle_fails(outcome) {
                Phase::Down
            } else {
                Phase::Connected
            },
    {
        let mut actions: Vec<Action> = Vec::new();
        if self.phase == Phase::Connected {
            let a = self.step(Event::LinkLost);
            actions.push(a);
        }
        let a = self.step(Event::DownObserved);
        actions.push(a);
        match outcome {
            CycleOutcome::ConnectFailed => {
                let a = self.step(Event::ConnectFailed);
                actions.push(a);
            }
            CycleOutcome::AcquireFailed => {
                let a = self.step(Event::ConnectSucceeded);
                actions.push(a);
                let a = self.step(Event::AcquireFailed);
                actions.push(a);
            }
            CycleOutcome::ConnectedNoIpInfo => {
                let a = self.step(Event::ConnectSucceeded);
                actions.push(a);
                let a = self.step(Event::Acquired(None));
                actions.push(a);
            }
            CycleOutcome::Connected(ip) => {
                let a = self.step(Event::ConnectSucceeded);
                actions.push(a);
                let a = self.step(Event::Acquired(Some(ip)));
                actions.push(a);
            }
        }
        proof {
            assert(actions@ =~= cycle_actions(old(self).phase, outcome));
        }
        actions
    }

    /// Drives the machine through a whole script of cycles and reports the
    /// connect attempts and the backoff delays, one fixed delay per failed
    /// cycle — never skipped, never compounded.
    pub fn run_script(&mut self, script: &Vec<CycleOutcome>) -> (t: RunTrace)
        requires
            old(self).phase == Phase::Down || old(self).phase == Phase::Connected,
        ensures
            t.connect_attempts == script@.len(),
            t.backoff_delays@.len() == script_failures(script@),
            forall|j: int|
                0 <= j < t.backoff_delays@.len() ==> t.backoff_delays@[j] == BACKOFF_DELAY_MS,
            final(self).state.mac_address == old(self).state.mac_address,
            final(self).state.ssid == old(self).state.ssid,
            final(self).state.ip_addr == script_ip(old(self).state.ip_addr, script@),
            final(self).phase == Phase::Down || final(self).phase == Phase::Connected,
            script@.len() > 0 ==> final(self).phase == if cycle_fails(script@.last()) {
                Phase::Down
            } else {
                Phase::Connected
            },
            script@.len() == 0 ==> *final(self) == *old(self),
    {
        let mut delays: Vec<u64> = Vec::new();
        let mut i: usize = 0;
        while i < script.len()
            invariant
                i <= script@.len(),
                self.phase == Phase::Down || self.phase == Phase::Connected,
                self.state.mac_address == old(self).state.mac_address,
                self.state.ssid == old(self).state.ssid,
                self.state.ip_addr == script_ip(old(self).state.ip_addr, script@.take(i as int)),
                delays@.len() == script_failures(script@.take(i as int)),
                forall|j: int| 0 <= j < delays@.len() ==> delays@[j] == BACKOFF_DELAY_MS,
                i > 0 ==> self.phase == if cycle_fails(script@[i as int - 1]) {
                    Phase::Down
                } else {
                    Phase::Connected
                },
                i == 0 ==> *self == *old(self),
            decreases script@.len() - i,
        {
            let o = script[i];
            let failed: bool = match o {
                CycleOutcome::ConnectFailed => true,
                CycleOutcome::AcquireFailed => true,
                _ => false,
            };
            let _ = self.run_cycle(o);
            if failed {
                delays.push(BACKOFF_DELAY_MS);
            }
            proof {
                assert(script@.take(i as int + 1).drop_last() =~= script@.take(i as int));
                assert(script@.take(i as int + 1).last() == script@[i as int]);
            }
            i += 1;
        }
        proof {
            assert(script@.take(script@.len() as int) =~= script@);
        }
        RunTrace { connect_attempts: script.len(), backoff_delays: delays }
    }
}

/// Without a cycle that publishes an address, the IP field stays unset — in
/// particular it is still unset before the first successful acquisition.
pub proof fn lemma_no_success_no_ip(s: Seq<CycleOutcome>)
    requires
        forall|i: int| 0 <= i < s.len() ==> !(#[trigger] s[i] is Connected),
    ensures
        script_ip(None, s) is None,
    decreases s.len(),
{
    if s.len() > 0 {
        assert(forall|i: int| 0 <= i < s.drop_last().len() ==> !(#[trigger] s.drop_last()[i] is Connected));
        lemma_no_success_no_ip(s.drop_last());
    }
}

/// A failed cycle appended to any script leaves the IP field exactly as the
/// script left it: the last published address is kept, never cleared.
pub proof fn lemma_failed_cycle_keeps_ip(ip: Option<[u8; 4]>, s: Seq<CycleOutcome>, o: CycleOutcome)
    requires
        cycle_fails(o),
    ensures
        script_ip(ip, s.push(o)) == script_ip(ip, s),
{
    assert(s.push(o).drop_last() =~= s);
    assert(s.push(o).last() == o);
}

/// After a failure while connecting or acquiring an address, the machine is
/// back in the down phase and has requested a disconnect with one fixed
/// backoff — no failure leaves it stuck in an intermediate phase.
pub proof fn lemma_failure_returns_to_down(pre: WifiConnection, event: Event)
    requires
        event_admissible(pre.phase, event),
        event is ConnectFailed || event is AcquireFailed,
    ensures
        step_spec(pre, event).0.phase == Phase::Down,
        step_spec(pre, event).1 == (Action::DisconnectThenBackoff { delay_ms: BACKOFF_DELAY_MS }),
{
}

/// No transition — admissible or not — alters the MAC address or the network
/// name recorded at initialization.
pub proof fn lemma_step_preserves_identity(pre: WifiConnection, event: Event)
    ensures
        step_spec(pre, event).0.state.mac_address == pre.state.mac_address,
        step_spec(pre, event).0.state.ssid == pre.state.ssid,
{
}

} // verus!
