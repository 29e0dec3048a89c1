//! Decisions of the Wi-Fi connection task: keep the station connected, reconnecting after a
//! disconnection or a failed attempt.
//!
//! The task itself awaits the Wi-Fi driver; this module decides, after each answer of the
//! driver, what the task does next.
use vstd::prelude::*;
use vstd::string::StringSliceAdditionalSpecFns;

verus! {

/// Pause, in milliseconds, after a disconnection and after a failed connection attempt.
pub const RECONNECT_PAUSE_MS: u64 = 5000;

/// The steps of the connection task; the task is always performing exactly one of them.
#[derive(Debug, Copy, Clone, PartialEq, Eq, Structural)]
pub enum Step {
    /// Asking the driver whether the station is connected.
    QueryState,
    /// Waiting until the station is disconnected.
    WaitForDisconnection,
    /// Pausing after a disconnection.
    PauseAfterDisconnection,
    /// Asking the driver whether it is started.
    QueryStarted,
    /// Configuring the station (network name and password) and starting the driver.
    ConfigureAndStart,
    /// Trying to connect.
    Connect,
    /// Pausing after a failed connection attempt.
    PauseAfterFailure,
}

/// What the task asks of the driver or of the timer to carry out a step.
#[derive(Debug, Copy, Clone, PartialEq, Eq, Structural)]
pub enum Action {
    /// Read the Wi-Fi state.
    QueryState,
    /// Wait for the station-disconnected event.
    WaitForDisconnection,
    /// Sleep for the given number of milliseconds.
    Sleep(u64),
    /// Ask whether the driver is started.
    QueryStarted,
    /// Hand the driver the client configuration (see [`client_config`]) and start it.
    ConfigureAndStart,
    /// Connect to the network.
    Connect,
}

/// The outcome of an action, as the task reports it.
#[derive(Debug, Copy, Clone, PartialEq, Eq, Structural)]
pub enum Event {
    /// The Wi-Fi state was read: whether the station is connected.
    State(bool),
    /// The driver answered whether it is started; an error counts as not started.
    Started(bool),
    /// A connection attempt finished: whether it succeeded.
    Connected(bool),
    /// A wait, a sleep or the start of the driver finished.
    Done,
}

/// The station's client configuration, which the task hands the driver before starting it.
#[derive(Debug, Clone)]
pub struct ClientConfig {
    /// The network name (SSID).
    pub network: String,
    /// The password of the network.
    pub password: String,
}

/// Longest network name the driver's configuration holds, in bytes.
pub const MAX_NETWORK_LEN: usize = 32;

/// Longest password the driver's configuration holds, in bytes.
pub const MAX_PASSWORD_LEN: usize = 64;

/// Error returned when a client configuration does not fit the driver's configuration.
#[derive(Debug, Copy, Clone, PartialEq, Eq, Structural)]
pub enum ConfigError {
    /// The network name is longer than [`MAX_NETWORK_LEN`] bytes.
    NetworkTooLong,
    /// The password is longer than [`MAX_PASSWORD_LEN`] bytes.
    PasswordTooLong,
}

/// Returns the client configuration for the network named `network`, protected by
/// `password`: exactly those two strings, which the driver is handed.
///
/// # Errors
///
/// Returns [`ConfigError::NetworkTooLong`] when the network name is longer than
/// [`MAX_NETWORK_LEN`] bytes, and otherwise [`ConfigError::PasswordTooLong`] when the
/// password is longer than [`MAX_PASSWORD_LEN`] bytes.
pub fn client_config(network: &str, password: &str) -> (r: Result<ClientConfig, ConfigError>)
    ensures
        network.spec_bytes().len() > MAX_NETWORK_LEN ==> r == Err::<ClientConfig, ConfigError>(
            ConfigError::NetworkTooLong,
        ),
        network.spec_bytes().len() <= MAX_NETWORK_LEN && password.spec_bytes().len()
            > MAX_PASSWORD_LEN ==> r == Err::<ClientConfig, ConfigError>(
            ConfigError::PasswordTooLong,
        ),
        network.spec_bytes().len() <= MAX_NETWORK_LEN && password.spec_bytes().len()
            <= MAX_PASSWORD_LEN ==> r is Ok && r->Ok_0.network@ == network@
            && r->Ok_0.password@ == password@,
{
    if network.as_bytes().len() > MAX_NETWORK_LEN {
        return Err(ConfigError::NetworkTooLong);
    }
    if password.as_bytes().len() > MAX_PASSWORD_LEN {
        return Err(ConfigError::PasswordTooLong);
    }
    Ok(ClientConfig { network: network.to_owned(), password: password.to_owned() })
}

/// The step the task starts with.
pub fn first_step() -> (r: Step)
    ensures
        r == Step::QueryState,
{
    Step::QueryState
}

/// The action that carries out a step.
pub open spec fn action_spec(step: Step) -> Action {
    match step {
        Step::QueryState => Action::QueryState,
        Step::WaitForDisconnection => Action::WaitForDisconnection,
        Step::PauseAfterDisconnection => Action::Sleep(RECONNECT_PAUSE_MS),
        Step::QueryStarted => Action::QueryStarted,
        Step::ConfigureAndStart => Action::ConfigureAndStart,
        Step::Connect => Action::Connect,
        Step::PauseAfterFailure => Action::Sleep(RECONNECT_PAUSE_MS),
    }
}

/// Returns the action that carries out a step.
pub fn action(step: Step) -> (r: Action)
    ensures
        r == action_spec(step),
{
    match step {
        Step::QueryState => Action::QueryState,
        Step::WaitForDisconnection => Action::WaitForDisconnection,
        Step::PauseAfterDisconnection => Action::Sleep(RECONNECT_PAUSE_MS),
        Step::QueryStarted => Action::QueryStarted,
        Step::ConfigureAndStart => Action::ConfigureAndStart,
        Step::Connect => Action::Connect,
        Step::PauseAfterFailure => Action::Sleep(RECONNECT_PAUSE_MS),
    }
}

/// Whether `event` is an outcome that the action of `step` can have.
pub open spec fn answers(step: Step, event: Event) -> bool {
    match step {
        Step::QueryState => event is State,
        Step::QueryStarted => event is Started,
        Step::Connect => event is Connected,
        _ => event == Event::Done,
    }
}

/// The step that follows `step` once its action had the outcome `event`.
pub open spec fn next_spec(step: Step, event: Event) -> Step {
    match (step, event) {
        (Step::QueryState, Event::State(true)) => Step::WaitForDisconnection,
        (Step::QueryState, _) => Step::QueryStarted,
        (Step::WaitForDisconnection, _) => Step::PauseAfterDisconnection,
        (Step::PauseAfterDisconnection, _) => Step::QueryStarted,
        (Step::QueryStarted, Event::Started(true)) => Step::Connect,
        (Step::QueryStarted, _) => Step::ConfigureAndStart,
        (Step::ConfigureAndStart, _) => Step::Connect,
        (Step::Connect, Event::Connected(true)) => Step::QueryState,
        (Step::Connect, _) => Step::PauseAfterFailure,
        (Step::PauseAfterFailure, _) => Step::QueryState,
    }
}

/// Decides the step that follows `step` once its action had the outcome `event`:
///
/// - a connected station is left alone until it disconnects, then the task pauses;
/// - a driver that is not started is configured and started before connecting;
/// - after a successful connection the task checks the state again; after a failed one it
///   pauses first.
pub fn next(step: Step, event: Event) -> (r: Step)
    requires
        answers(step, event),
    ensures
        r == next_spec(step, event),
{
    match step {
        Step::QueryState => {
            if event == Event::State(true) {
                Step::WaitForDisconnection
            } else {
                Step::QueryStarted
            }
        },
        Step::WaitForDisconnection => Step::PauseAfterDisconnection,
        Step::PauseAfterDisconnection => Step::QueryStarted,
        Step::QueryStarted => {
            if event == Event::Started(true) {
                Step::Connect
            } else {
                Step::ConfigureAndStart
            }
        },
        Step::ConfigureAndStart => Step::Connect,
        Step::Connect => {
            if event == Event::Connected(true) {
                Step::QueryState
            } else {
                Step::PauseAfterFailure
            }
        },
        Step::PauseAfterFailure => Step::QueryState,
    }
}

/// A connection is only attempted on a started driver: the step before a connection attempt
/// either found the driver started or started it.
pub proof fn lemma_connect_only_when_started(step: Step, event: Event)
    requires
        answers(step, event),
        next_spec(step, event) == Step::Connect,
    ensures
        (step == Step::QueryStarted && event == Event::Started(true)) || step
            == Step::ConfigureAndStart,
{
}

/// Every failed connection attempt is followed by a pause of five seconds, after which the
/// task reads the Wi-Fi state again.
pub proof fn lemma_pause_after_failure()
    ensures
        next_spec(Step::Connect, Event::Connected(false)) == Step::PauseAfterFailure,
        action_spec(Step::PauseAfterFailure) == Action::Sleep(RECONNECT_PAUSE_MS),
        next_spec(Step::PauseAfterFailure, Event::Done) == Step::QueryState,
{
}

/// A connected station is never asked to connect again before it is disconnected: reading a
/// connected state leads to waiting for the disconnection.
pub proof fn lemma_connected_waits_for_disconnection()
    ensures
        next_spec(Step::QueryState, Event::State(true)) == Step::WaitForDisconnection,
        next_spec(Step::WaitForDisconnection, Event::Done) == Step::PauseAfterDisconnection,
        action_spec(Step::PauseAfterDisconnection) == Action::Sleep(RECONNECT_PAUSE_MS),
{
}

} // verus!
