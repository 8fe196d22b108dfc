//! The link to the device, seen from the state machines: what a driver is
//! asked to do next, what it reports back, how failures are named, and the
//! rules by which a connection is probed and taken.
//!
//! One connection exists at a time. The connection keeper alone installs
//! or retires it; every other consumer takes it for one operation under a
//! lock with a bounded wait, and gives it back before it sleeps.

use crate::codec::{reading_views, Reading, RegisterPlan};
use vstd::prelude::*;

verus! {

/// Address of the status register that a liveness probe reads.
pub const STATUS_REGISTER_ADDRESS: u16 = 1;

/// Number of registers that a liveness probe reads.
pub const PROBE_QUANTITY: u16 = 1;

/// Seconds a machine rests in its idle state before the next cycle.
pub const IDLE_BACKOFF_SECS: u64 = 5;

/// Longest wait, in seconds, for the lock of the shared link.
pub const LOCK_TIMEOUT_SECS: u64 = 5;

/// Longest wait, in seconds, for a new connection to be established.
pub const CONNECT_TIMEOUT_SECS: u64 = 5;

/// Seconds between two liveness probes of a connection that is up.
pub const VERIFY_DWELL_SECS: u64 = 10;

/// Seconds the device is given to settle after a round of writes.
pub const SETTLE_DWELL_SECS: u64 = 5;

/// The failures that a cycle can end in. None of them is fatal: each sends
/// the machine back to its idle state, from which it tries again.
#[derive(Clone, Copy, Debug, PartialEq, Eq, Structural)]
pub enum Failure {
    /// A reload of the configuration failed; the previous snapshot stays.
    ConfigUnavailable,
    /// The device did not answer the reachability probe.
    Unreachable,
    /// The transport refused the connection, or the address was unusable.
    ConnectFailed,
    /// The connection was not established within the time allowed.
    ConnectTimeout,
    /// The liveness probe on the current connection failed.
    LinkNotAlive,
    /// The set of registers to read, or to write, is empty.
    NoRegistersConfigured,
    /// A descriptor lies outside the window that was, or can be, read.
    AddressOutOfPlanRange,
    /// The lock of the link was not obtained within the time allowed.
    LockTimeout,
    /// No connection is published.
    LinkUnavailable,
    /// The transport failed to read the planned window.
    ReadFailed,
    /// The transport failed to write a register pair.
    WriteFailed,
    /// A register to write carries no value.
    WriteValueMissing,
    /// The driver reported something that the current state does not wait for.
    OutOfSequence,
}

/// Why a connection could not be set up.
#[derive(Debug)]
pub enum SocketError {
    Timeout,
    ConnectionFailed(String),
    Other(String),
}

impl SocketError {
    /// The text that describes the error.
    pub open spec fn text(&self) -> Seq<char> {
        match self {
            SocketError::Timeout => "Connection attempt timed out"@,
            SocketError::ConnectionFailed(msg) => "Failed to connect: "@ + msg@,
            SocketError::Other(e) => "An error occurred: "@ + e@,
        }
    }

    /// The failure that the error counts as.
    pub open spec fn failure(&self) -> Failure {
        match self {
            SocketError::Timeout => Failure::ConnectTimeout,
            SocketError::ConnectionFailed(_) => Failure::ConnectFailed,
            SocketError::Other(_) => Failure::ConnectFailed,
        }
    }

    /// Renders the error for a log line.
    pub fn message(&self) -> (s: String)
        ensures
            s@ == self.text(),
    {
        match self {
            SocketError::Timeout => String::from_str("Connection attempt timed out"),
            SocketError::ConnectionFailed(msg) => String::from_str("Failed to connect: ").concat(
                msg.as_str(),
            ),
            SocketError::Other(e) => String::from_str("An error occurred: ").concat(e.as_str()),
        }
    }

    /// Names the failure that the error counts as.
    pub fn classify(&self) -> (f: Failure)
        ensures
            f == self.failure(),
    {
        match self {
            SocketError::Timeout => Failure::ConnectTimeout,
            SocketError::ConnectionFailed(_) => Failure::ConnectFailed,
            SocketError::Other(_) => Failure::ConnectFailed,
        }
    }
}

/// How an attempt to open a connection ended, as the driver saw it.
#[derive(Debug)]
pub enum ConnectAttempt<L> {
    /// The transport handed out a connection.
    Connected(L),
    /// The transport reported an error; its text is kept.
    Refused(String),
    /// Nothing came back within `CONNECT_TIMEOUT_SECS`.
    TimedOut,
    /// Host and port did not make a socket address; the reason is kept.
    BadAddress(String),
}

/// Turns the outcome of a connection attempt into the connection or the
/// error to report: a refusal and an unusable address both count as a failed
/// connection, with their own text.
pub fn setup_modbus_context<L>(attempt: ConnectAttempt<L>) -> (result: Result<L, SocketError>)
    ensures
        attempt matches ConnectAttempt::Connected(link) ==> result == Ok::<L, SocketError>(link),
        attempt matches ConnectAttempt::Refused(msg) ==> result == Err::<L, SocketError>(
            SocketError::ConnectionFailed(msg),
        ),
        attempt is TimedOut ==> result == Err::<L, SocketError>(SocketError::Timeout),
        attempt matches ConnectAttempt::BadAddress(msg) ==> result == Err::<L, SocketError>(
            SocketError::ConnectionFailed(msg),
        ),
{
    match attempt {
        ConnectAttempt::Connected(link) => Ok(link),
        ConnectAttempt::Refused(msg) => Err(SocketError::ConnectionFailed(msg)),
        ConnectAttempt::TimedOut => Err(SocketError::Timeout),
        ConnectAttempt::BadAddress(msg) => Err(SocketError::ConnectionFailed(msg)),
    }
}

/// How the network-layer reachability probe ended, as the driver saw it.
#[derive(Clone, Copy, Debug, PartialEq, Eq, Structural)]
pub enum PingReport {
    /// The probe ran; `success` tells whether the device answered.
    Exited { success: bool },
    /// The probe could not be run at all.
    NotStarted,
}

/// Why the device counts as unreachable.
#[derive(Clone, Copy, Debug, PartialEq, Eq, Structural)]
pub enum PingError {
    /// The probe ran and the device did not answer.
    NoAnswer,
    /// The probe could not be run.
    NotExecuted,
}

/// Judges a reachability probe: the device is reachable exactly when the
/// probe ran and reported success.
pub fn ping_meter(report: PingReport) -> (result: Result<(), PingError>)
    ensures
        result is Ok <==> report == (PingReport::Exited { success: true }),
        report == (PingReport::Exited { success: false }) ==> result == Err::<(), PingError>(
            PingError::NoAnswer,
        ),
        report is NotStarted ==> result == Err::<(), PingError>(PingError::NotExecuted),
{
    match report {
        PingReport::Exited { success } => {
            if success {
                Ok(())
            } else {
                Err(PingError::NoAnswer)
            }
        },
        PingReport::NotStarted => Err(PingError::NotExecuted),
    }
}

/// What the transport answered to a register read.
#[derive(Debug)]
pub enum ReadReply {
    Registers(Vec<u16>),
    Failed,
}

/// What the transport answered to a register write.
#[derive(Clone, Copy, Debug, PartialEq, Eq, Structural)]
pub enum WriteReply {
    Acknowledged,
    Failed,
}

/// The read that a liveness probe issues: one register at the status address.
pub fn probe_request() -> (plan: RegisterPlan)
    ensures
        plan.start_address == STATUS_REGISTER_ADDRESS,
        plan.quantity == PROBE_QUANTITY,
{
    RegisterPlan { start_address: STATUS_REGISTER_ADDRESS, quantity: PROBE_QUANTITY }
}

/// A connection is alive exactly when the probe's read succeeded. The
/// answer is computed from the reply at hand and kept nowhere.
pub fn probe_alive(reply: &ReadReply) -> (alive: bool)
    ensures
        alive <==> reply is Registers,
{
    match reply {
        ReadReply::Registers(_) => true,
        ReadReply::Failed => false,
    }
}

/// How a liveness probe ended, as the driver saw it.
#[derive(Debug)]
pub enum Probe {
    /// The link was locked and the status register was read, with this reply.
    Replied(ReadReply),
    /// The lock of the link was not obtained within `LOCK_TIMEOUT_SECS`.
    LockTimedOut,
}

impl Probe {
    /// The probe shows the connection alive: the status register was read.
    pub open spec fn alive(self) -> bool {
        self matches Probe::Replied(reply) && reply is Registers
    }

    /// The probe shows the connection dead: the read was tried and failed.
    pub open spec fn dead(self) -> bool {
        self matches Probe::Replied(reply) && reply is Failed
    }
}

/// How an attempt to take the shared link for one operation ended.
#[derive(Clone, Copy, Debug, PartialEq, Eq, Structural)]
pub enum Acquire {
    /// The lock is held: the caller may drive one operation, then lets go.
    ExclusiveSession,
    /// No connection is published.
    Unavailable,
    /// The lock was not obtained within `LOCK_TIMEOUT_SECS`.
    TimedOut,
}

impl Acquire {
    /// The failure that a refused acquisition counts as.
    pub open spec fn failure(self) -> Option<Failure> {
        match self {
            Acquire::ExclusiveSession => None,
            Acquire::Unavailable => Some(Failure::LinkUnavailable),
            Acquire::TimedOut => Some(Failure::LockTimeout),
        }
    }

    /// Names the failure that a refused acquisition counts as, so that a
    /// caller can tell a missing connection from a busy one.
    pub fn classify(self) -> (f: Option<Failure>)
        ensures
            f == self.failure(),
    {
        match self {
            Acquire::ExclusiveSession => None,
            Acquire::Unavailable => Some(Failure::LinkUnavailable),
            Acquire::TimedOut => Some(Failure::LockTimeout),
        }
    }
}

/// What taking the link comes to: without a published connection there is
/// nothing to take; with one, the outcome is that of the wait for its lock.
pub open spec fn acquired(published: bool, locked: bool) -> Acquire {
    if !published {
        Acquire::Unavailable
    } else if locked {
        Acquire::ExclusiveSession
    } else {
        Acquire::TimedOut
    }
}

/// Judges an attempt to take the shared link for one operation.
/// `published` tells whether the keeper had a connection to hand out,
/// `locked` whether its lock was obtained within `LOCK_TIMEOUT_SECS`.
pub fn acquire(published: bool, locked: bool) -> (outcome: Acquire)
    ensures
        outcome == acquired(published, locked),
{
    if !published {
        Acquire::Unavailable
    } else if locked {
        Acquire::ExclusiveSession
    } else {
        Acquire::TimedOut
    }
}

/// What the driver reports to a state machine.
#[derive(Debug)]
pub enum Event<L> {
    /// The wait that was asked for is over.
    Elapsed,
    /// The reachability probe ended.
    Pinged(PingReport),
    /// The liveness probe ended.
    Probed(Probe),
    /// The attempt to open a connection ended.
    Connected(ConnectAttempt<L>),
    /// The attempt to take the shared link ended.
    Link(Acquire),
    /// The read of the planned window ended.
    Read(ReadReply),
    /// The write of one register pair ended.
    Written(WriteReply),
}

/// What a state machine asks the driver to do next.
#[derive(Clone, Copy, Debug, PartialEq, Eq, Structural)]
pub enum Action {
    /// Sleep, then report `Elapsed`.
    Wait { seconds: u64 },
    /// Probe the device at the network layer, then report `Pinged`.
    Ping,
    /// Lock the current connection, waiting at most `lock_timeout` seconds,
    /// read `quantity` registers at `address`, unlock, then report `Probed`.
    Probe { address: u16, quantity: u16, lock_timeout: u64 },
    /// Open a connection, waiting at most `timeout` seconds, then report `Connected`.
    Connect { timeout: u64 },
    /// Take the published link, waiting at most `timeout` seconds for its
    /// lock, then report `Link`.
    Acquire { timeout: u64 },
    /// Read the window `plan` over the link, then report `Read`.
    Read { plan: RegisterPlan },
    /// Write the registers `high`, `low` at `address`, then report `Written`.
    Write { address: u16, high: u16, low: u16 },
}

impl Action {
    /// The liveness probe: one status register, under the bounded lock.
    pub open spec fn probe() -> Action {
        Action::Probe {
            address: STATUS_REGISTER_ADDRESS,
            quantity: PROBE_QUANTITY,
            lock_timeout: LOCK_TIMEOUT_SECS,
        }
    }

    /// The idle wait: the fixed backoff.
    pub open spec fn backoff() -> Action {
        Action::Wait { seconds: IDLE_BACKOFF_SECS }
    }
}

/// The action that asks for the idle wait.
pub fn idle_wait() -> (action: Action)
    ensures
        action == Action::backoff(),
{
    Action::Wait { seconds: IDLE_BACKOFF_SECS }
}

/// The action that asks for a liveness probe.
pub fn liveness_probe() -> (action: Action)
    ensures
        action == Action::probe(),
{
    let plan = probe_request();
    Action::Probe {
        address: plan.start_address,
        quantity: plan.quantity,
        lock_timeout: LOCK_TIMEOUT_SECS,
    }
}

/// Result of one step of a state machine.
#[derive(Debug)]
pub struct Step {
    /// What the driver does next.
    pub action: Action,
    /// The failure that ended the cycle, if one did.
    pub failure: Option<Failure>,
    /// The values decoded in this step, for the observer; empty otherwise.
    pub readings: Vec<Reading>,
}

/// A step as plain values.
pub struct StepView {
    pub action: Action,
    pub failure: Option<Failure>,
    pub readings: Seq<(Seq<char>, u32)>,
}

impl View for Step {
    type V = StepView;

    open spec fn view(&self) -> StepView {
        StepView {
            action: self.action,
            failure: self.failure,
            readings: reading_views(self.readings@),
        }
    }
}

impl StepView {
    /// A step that asks for `action` and reports nothing.
    pub open spec fn go(action: Action) -> StepView {
        StepView { action, failure: None, readings: Seq::empty() }
    }

    /// A step back to the idle wait, which reports `failure`.
    pub open spec fn fail(failure: Failure) -> StepView {
        StepView { action: Action::backoff(), failure: Some(failure), readings: Seq::empty() }
    }
}

impl Step {
    /// A step that asks for `action` and reports nothing.
    pub fn go(action: Action) -> (step: Step)
        ensures
            step@ == StepView::go(action),
    {
        let step = Step { action, failure: None, readings: Vec::new() };
        assert(step@.readings =~= Seq::empty());
        step
    }

    /// A step back to the idle wait, which reports `failure`.
    pub fn fail(failure: Failure) -> (step: Step)
        ensures
            step@ == StepView::fail(failure),
    {
        let step = Step { action: idle_wait(), failure: Some(failure), readings: Vec::new() };
        assert(step@.readings =~= Seq::empty());
        step
    }
}

} // verus!
