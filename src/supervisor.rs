//! The WiFi link supervisor: a state machine that starts the radio, connects,
//! waits for the link to drop and retries after a fixed delay. The task that
//! runs it performs each command against the radio and hands back what
//! happened, together with a fresh reading of the driver's state.
use vstd::prelude::*;
use vstd::string::StringSliceAdditionalSpecFns;

verus! {

/// Delay before retrying after a failure or a dropped link, in milliseconds.
pub const RETRY_DELAY_MS: u64 = 5000;

/// Longest station SSID that the radio driver stores, in bytes.
pub const MAX_SSID_LEN: usize = 32;

/// Longest station password that the radio driver stores, in bytes.
pub const MAX_PASSWORD_LEN: usize = 64;

#[derive(Clone, Copy, Debug, PartialEq, Eq, Structural)]
pub enum LinkState {
    Disconnected,
    Connecting,
    Connected,
}

#[derive(Clone, Copy, Debug, PartialEq, Eq, Structural)]
pub enum SupervisorPhase {
    Idle,
    Starting,
    AwaitingConnect,
    Connected,
    BackoffAfterFailure,
    BackoffAfterDrop,
}

/// The driver's state, read just before the supervisor decides.
#[derive(Clone, Copy, Debug, PartialEq, Eq, Structural)]
pub struct Observation {
    pub link: LinkState,
    pub started: bool,
}

/// What the radio did since the last command.
#[derive(Clone, Copy, Debug, PartialEq, Eq, Structural)]
pub enum SupervisorEvent {
    /// The supervisor's loop is entered; nothing was asked yet.
    Check,
    /// The start command finished, successfully or not.
    StartFinished(bool),
    /// The connect command finished, successfully or not.
    ConnectFinished(bool),
    /// The radio reported that the station lost its link.
    Disconnected,
    /// The requested sleep is over.
    DelayElapsed,
}

/// What the task running the supervisor must do next.
#[derive(Clone, Copy, Debug, PartialEq, Eq, Structural)]
pub enum SupervisorCommand {
    /// Apply the station credentials, then start the radio.
    ConfigureAndStart,
    /// Ask the radio to connect to the configured station.
    Connect,
    /// Wait until the radio reports a disconnect.
    WaitForDisconnect,
    /// Sleep for the given number of milliseconds.
    Sleep(u64),
    /// Read the driver's state again and report `Check`.
    Observe,
}

/// Credentials that the radio driver cannot take.
#[derive(Clone, Copy, Debug, PartialEq, Eq, Structural)]
pub enum CredentialError {
    EmptySsid,
    SsidTooLong,
    EmptyPassword,
    PasswordTooLong,
}

/// Decision at the top of the loop: wait on a live link, else start the radio
/// if it is not started, else connect.
pub open spec fn evaluate(obs: Observation) -> (SupervisorPhase, SupervisorCommand) {
    if obs.link == LinkState::Connected {
        (SupervisorPhase::Connected, SupervisorCommand::WaitForDisconnect)
    } else if !obs.started {
        (SupervisorPhase::Starting, SupervisorCommand::ConfigureAndStart)
    } else {
        (SupervisorPhase::AwaitingConnect, SupervisorCommand::Connect)
    }
}

/// The transition table. An event that does not belong to the current phase
/// repeats the phase's own command while connected or backing off, so a live
/// link is left only on a disconnect and a backoff always sleeps its full
/// delay; while starting or connecting it sends the supervisor back to `Idle`
/// to look at the driver again.
pub open spec fn supervisor_next(
    phase: SupervisorPhase,
    ev: SupervisorEvent,
    obs: Observation,
) -> (SupervisorPhase, SupervisorCommand) {
    match (phase, ev) {
        (SupervisorPhase::Idle, SupervisorEvent::Check) => evaluate(obs),
        (SupervisorPhase::Starting, SupervisorEvent::StartFinished(true)) => {
            if obs.link == LinkState::Connected {
                (SupervisorPhase::Connected, SupervisorCommand::WaitForDisconnect)
            } else {
                (SupervisorPhase::AwaitingConnect, SupervisorCommand::Connect)
            }
        },
        (SupervisorPhase::Starting, SupervisorEvent::StartFinished(false)) => (
            SupervisorPhase::BackoffAfterFailure,
            SupervisorCommand::Sleep(RETRY_DELAY_MS),
        ),
        (SupervisorPhase::AwaitingConnect, SupervisorEvent::ConnectFinished(true)) => (
            SupervisorPhase::Connected,
            SupervisorCommand::WaitForDisconnect,
        ),
        (SupervisorPhase::AwaitingConnect, SupervisorEvent::ConnectFinished(false)) => (
            SupervisorPhase::BackoffAfterFailure,
            SupervisorCommand::Sleep(RETRY_DELAY_MS),
        ),
        (SupervisorPhase::Connected, SupervisorEvent::Disconnected) => (
            SupervisorPhase::BackoffAfterDrop,
            SupervisorCommand::Sleep(RETRY_DELAY_MS),
        ),
        (SupervisorPhase::BackoffAfterFailure, SupervisorEvent::DelayElapsed) => evaluate(obs),
        (SupervisorPhase::BackoffAfterDrop, SupervisorEvent::DelayElapsed) => evaluate(obs),
        (SupervisorPhase::Connected, _) => (SupervisorPhase::Connected, SupervisorCommand::WaitForDisconnect),
        (SupervisorPhase::BackoffAfterFailure, _) => (
            SupervisorPhase::BackoffAfterFailure,
            SupervisorCommand::Sleep(RETRY_DELAY_MS),
        ),
        (SupervisorPhase::BackoffAfterDrop, _) => (
            SupervisorPhase::BackoffAfterDrop,
            SupervisorCommand::Sleep(RETRY_DELAY_MS),
        ),
        _ => (SupervisorPhase::Idle, SupervisorCommand::Observe),
    }
}

fn decide(obs: Observation) -> (r: (SupervisorPhase, SupervisorCommand))
    ensures
        r == evaluate(obs),
{
    if obs.link == LinkState::Connected {
        (SupervisorPhase::Connected, SupervisorCommand::WaitForDisconnect)
    } else if !obs.started {
        (SupervisorPhase::Starting, SupervisorCommand::ConfigureAndStart)
    } else {
        (SupervisorPhase::AwaitingConnect, SupervisorCommand::Connect)
    }
}

pub struct Supervisor {
    phase: SupervisorPhase,
}

impl Supervisor {
    pub closed spec fn spec_phase(&self) -> SupervisorPhase {
        self.phase
    }

    pub fn new() -> (r: Supervisor)
        ensures
            r.spec_phase() == SupervisorPhase::Idle,
    {
        Supervisor { phase: SupervisorPhase::Idle }
    }

    pub fn phase(&self) -> (r: SupervisorPhase)
        ensures
            r == self.spec_phase(),
    {
        self.phase
    }

    /// Takes one transition on `ev`, with `obs` read from the driver just
    /// before, and returns the command to perform.
    pub fn step(&mut self, ev: SupervisorEvent, obs: Observation) -> (r: SupervisorCommand)
        ensures
            (final(self).spec_phase(), r) == supervisor_next(old(self).spec_phase(), ev, obs),
            r == SupervisorCommand::Connect ==> obs.link != LinkState::Connected,
            r == SupervisorCommand::ConfigureAndStart ==> !obs.started,
            old(self).spec_phase() == SupervisorPhase::Connected && final(self).spec_phase() != SupervisorPhase::Connected
                ==> ev == SupervisorEvent::Disconnected && final(self).spec_phase() == SupervisorPhase::BackoffAfterDrop,
    {
        let next = match (self.phase, ev) {
            (SupervisorPhase::Idle, SupervisorEvent::Check) => decide(obs),
            (SupervisorPhase::Starting, SupervisorEvent::StartFinished(ok)) => {
                if !ok {
                    (SupervisorPhase::BackoffAfterFailure, SupervisorCommand::Sleep(RETRY_DELAY_MS))
                } else if obs.link == LinkState::Connected {
                    (SupervisorPhase::Connected, SupervisorCommand::WaitForDisconnect)
                } else {
                    (SupervisorPhase::AwaitingConnect, SupervisorCommand::Connect)
                }
            },
            (SupervisorPhase::AwaitingConnect, SupervisorEvent::ConnectFinished(ok)) => {
                if ok {
                    (SupervisorPhase::Connected, SupervisorCommand::WaitForDisconnect)
                } else {
                    (SupervisorPhase::BackoffAfterFailure, SupervisorCommand::Sleep(RETRY_DELAY_MS))
                }
            },
            (SupervisorPhase::Connected, SupervisorEvent::Disconnected) => (
                SupervisorPhase::BackoffAfterDrop,
                SupervisorCommand::Sleep(RETRY_DELAY_MS),
            ),
            (SupervisorPhase::BackoffAfterFailure, SupervisorEvent::DelayElapsed) => decide(obs),
            (SupervisorPhase::BackoffAfterDrop, SupervisorEvent::DelayElapsed) => decide(obs),
            (SupervisorPhase::Connected, _) => (SupervisorPhase::Connected, SupervisorCommand::WaitForDisconnect),
            (SupervisorPhase::BackoffAfterFailure, _) => (
                SupervisorPhase::BackoffAfterFailure,
                SupervisorCommand::Sleep(RETRY_DELAY_MS),
            ),
            (SupervisorPhase::BackoffAfterDrop, _) => (
                SupervisorPhase::BackoffAfterDrop,
                SupervisorCommand::Sleep(RETRY_DELAY_MS),
            ),
            _ => (SupervisorPhase::Idle, SupervisorCommand::Observe),
        };
        self.phase = next.0;
        proof {
            lemma_no_connect_while_connected(old(self).spec_phase(), ev, obs);
        }
        next.1
    }
}

/// Over the whole transition table: a connect command is never issued while
/// the link reads as connected, nor from the connected phase; a start command
/// never while the radio reads as started; and the connected phase is left
/// only on a disconnect, into the backoff after a drop.
pub proof fn lemma_no_connect_while_connected(phase: SupervisorPhase, ev: SupervisorEvent, obs: Observation)
    ensures
        supervisor_next(phase, ev, obs).1 == SupervisorCommand::Connect ==> obs.link != LinkState::Connected,
        supervisor_next(phase, ev, obs).1 == SupervisorCommand::Connect ==> phase != SupervisorPhase::Connected,
        supervisor_next(phase, ev, obs).1 == SupervisorCommand::ConfigureAndStart ==> !obs.started,
        phase == SupervisorPhase::Connected && supervisor_next(phase, ev, obs).0 != SupervisorPhase::Connected
            ==> ev == SupervisorEvent::Disconnected && supervisor_next(phase, ev, obs).0 == SupervisorPhase::BackoffAfterDrop,
        (phase == SupervisorPhase::BackoffAfterFailure || phase == SupervisorPhase::BackoffAfterDrop)
            && ev != SupervisorEvent::DelayElapsed ==> supervisor_next(phase, ev, obs) == (phase, SupervisorCommand::Sleep(RETRY_DELAY_MS)),
{
}

/// Checks the station credentials against what the radio driver can store:
/// both non-empty, at most 32 bytes of SSID and 64 bytes of password.
pub fn check_credentials(ssid: &str, password: &str) -> (r: Result<(), CredentialError>)
    ensures
        r == (if ssid.spec_bytes().len() == 0 {
            Err(CredentialError::EmptySsid)
        } else if ssid.spec_bytes().len() > MAX_SSID_LEN {
            Err(CredentialError::SsidTooLong)
        } else if password.spec_bytes().len() == 0 {
            Err(CredentialError::EmptyPassword)
        } else if password.spec_bytes().len() > MAX_PASSWORD_LEN {
            Err(CredentialError::PasswordTooLong)
        } else {
            Ok(())
        }),
{
    let ssid_len = ssid.as_bytes().len();
    let password_len = password.as_bytes().len();
    if ssid_len == 0 {
        Err(CredentialError::EmptySsid)
    } else if ssid_len > MAX_SSID_LEN {
        Err(CredentialError::SsidTooLong)
    } else if password_len == 0 {
        Err(CredentialError::EmptyPassword)
    } else if password_len > MAX_PASSWORD_LEN {
        Err(CredentialError::PasswordTooLong)
    } else {
        Ok(())
    }
}

} // verus!
