//! The stand-alone gateway machine: one machine that keeps its own
//! connection and drives the read / write / verify cycle over it. It is the
//! write-verify sequencer with the two recovery states of the connection
//! keeper in front: `Idle -> Ping -> Modbus -> Read -> Write -> Verify ->
//! Idle`, where `Ping` and `Modbus` are passed only on the first cycle and
//! after the connection was lost.

use crate::config::Snapshot;
use crate::link::{
    liveness_probe, ping_meter, probe_alive, setup_modbus_context, Action, ConnectAttempt, Event,
    Failure, PingReport, Probe, Step, StepView, WriteReply, CONNECT_TIMEOUT_SECS,
};
use crate::sequencer;
use vstd::prelude::*;

verus! {

/// The machine's lifecycle states.
#[derive(Clone, Copy, Debug, PartialEq, Eq, Structural)]
pub enum State {
    Idle,
    Ping,
    Modbus,
    Read,
    Write,
    Verify,
}

/// The machine: its state, the flag that sends the next idle period
/// through the reachability probe, and the sequencer that holds the
/// connection and runs the cycle.
#[derive(Debug)]
pub struct StateMachine<L> {
    pub state: State,
    pub first_idle: bool,
    pub cycle: sequencer::StateMachine<L>,
}

/// The state of the whole machine while the sequencer is in `state`.
pub open spec fn lifted(state: sequencer::State) -> State {
    match state {
        sequencer::State::Idle => State::Idle,
        sequencer::State::Read => State::Read,
        sequencer::State::Write => State::Write,
        sequencer::State::Verify => State::Verify,
    }
}

impl<L> StateMachine<L> {
    /// The sequencer is well-formed, and it rests while the machine is
    /// busy with the connection; otherwise the two are in the same state.
    pub open spec fn wf(self) -> bool {
        &&& self.cycle.wf()
        &&& if self.state is Ping || self.state is Modbus {
            self.cycle.state is Idle
        } else {
            self.state == lifted(self.cycle.state)
        }
    }

    /// The machine after the sequencer has made a step: it is in the
    /// sequencer's state, and where the connection is gone the flag is set,
    /// so that recovery pings and reconnects.
    pub open spec fn follow(self, inner: (sequencer::StateMachine<L>, StepView)) -> (
        Self,
        StepView,
    ) {
        (
            StateMachine {
                state: lifted(inner.0.state),
                first_idle: self.first_idle || inner.0.modbus_context is None,
                cycle: inner.0,
            },
            inner.1,
        )
    }

    /// The machine back in `Idle` because of `failure`; the connection stays.
    pub open spec fn fall_back(self, failure: Failure) -> (Self, StepView) {
        self.follow(self.cycle.fall_back(failure))
    }

    /// The machine back in `Idle` because of `failure`; the connection is
    /// dropped and the flag set.
    pub open spec fn drop_link(self, failure: Failure) -> (Self, StepView) {
        self.follow(self.cycle.drop_link(failure))
    }

    /// Idle: when the backoff is over, the first cycle goes to `Ping` and
    /// spends the flag; every later cycle starts reading.
    pub open spec fn after_idle(self, event: Event<L>, config: Snapshot) -> (Self, StepView) {
        match event {
            Event::Elapsed => if self.first_idle {
                (
                    StateMachine { state: State::Ping, first_idle: false, ..self },
                    StepView::go(Action::Ping),
                )
            } else {
                self.follow(self.cycle.start_read(config))
            },
            _ => self.fall_back(Failure::OutOfSequence),
        }
    }

    /// Ping: a device that answers leads to `Modbus`, where the connection
    /// at hand is probed or a new one is opened; otherwise back to `Idle`,
    /// with the flag set so that the retry pings again.
    pub open spec fn after_ping(self, event: Event<L>) -> (Self, StepView) {
        match event {
            Event::Pinged(report) => if report == (PingReport::Exited { success: true }) {
                (
                    StateMachine { state: State::Modbus, ..self },
                    StepView::go(
                        if self.cycle.modbus_context is Some {
                            Action::probe()
                        } else {
                            Action::Connect { timeout: CONNECT_TIMEOUT_SECS }
                        },
                    ),
                )
            } else {
                StateMachine { first_idle: true, ..self }.fall_back(Failure::Unreachable)
            },
            _ => self.fall_back(Failure::OutOfSequence),
        }
    }

    /// Modbus: a connection at hand that is alive, or a new connection,
    /// starts the read. A dead connection is dropped; a failed attempt
    /// leaves none. Either way recovery goes through `Ping` again.
    pub open spec fn after_modbus(self, event: Event<L>, config: Snapshot) -> (Self, StepView) {
        match event {
            Event::Probed(probe) => match probe {
                Probe::Replied(reply) => if reply is Registers {
                    self.follow(self.cycle.start_read(config))
                } else {
                    self.drop_link(Failure::LinkNotAlive)
                },
                Probe::LockTimedOut => self.fall_back(Failure::LockTimeout),
            },
            Event::Connected(attempt) => match attempt {
                ConnectAttempt::Connected(link) => self.follow(
                    sequencer::StateMachine { modbus_context: Some(link), ..self.cycle }.start_read(
                        config,
                    ),
                ),
                ConnectAttempt::TimedOut => self.drop_link(Failure::ConnectTimeout),
                _ => self.drop_link(Failure::ConnectFailed),
            },
            _ => self.fall_back(Failure::OutOfSequence),
        }
    }

    /// The transition function: the handler of the current state decides.
    /// In `Read`, `Write` and `Verify` that is the sequencer's.
    pub open spec fn next(self, event: Event<L>, config: Snapshot) -> (Self, StepView) {
        match self.state {
            State::Idle => self.after_idle(event, config),
            State::Ping => self.after_ping(event),
            State::Modbus => self.after_modbus(event, config),
            State::Read => self.follow(self.cycle.after_read(event, config)),
            State::Write => self.follow(self.cycle.after_write(event, config)),
            State::Verify => self.follow(self.cycle.after_verify(event)),
        }
    }

    /// A machine at rest: idle, without a connection, its first cycle ahead.
    pub fn new() -> (machine: Self)
        ensures
            machine.state == State::Idle,
            machine.first_idle,
            machine.cycle.state == sequencer::State::Idle,
            machine.cycle.modbus_context is None,
            machine.wf(),
    {
        StateMachine { state: State::Idle, first_idle: true, cycle: sequencer::StateMachine::new() }
    }

    /// One step: hands the event to the handler of the current state.
    pub fn step(&mut self, event: Event<L>, config: &Snapshot) -> (step: Step)
        ensures
            (*final(self), step@) == old(self).next(event, *config),
    {
        match self.state {
            State::Idle => handle_idle(self, event, config),
            State::Ping => handle_ping(self, event),
            State::Modbus => handle_modbus(self, event, config),
            State::Read => handle_read(self, event, config),
            State::Write => handle_write(self, event, config),
            State::Verify => handle_verify(self, event),
        }
    }
}

fn lift(state: sequencer::State) -> (lifted_state: State)
    ensures
        lifted_state == lifted(state),
{
    match state {
        sequencer::State::Idle => State::Idle,
        sequencer::State::Read => State::Read,
        sequencer::State::Write => State::Write,
        sequencer::State::Verify => State::Verify,
    }
}

fn follow<L>(state_machine: &mut StateMachine<L>, step: Step) -> (out: Step)
    ensures
        (*final(state_machine), out@) == old(state_machine).follow(
            (old(state_machine).cycle, step@),
        ),
{
    state_machine.state = lift(state_machine.cycle.state);
    if state_machine.cycle.modbus_context.is_none() {
        state_machine.first_idle = true;
    }
    step
}

fn fall_back<L>(state_machine: &mut StateMachine<L>, failure: Failure) -> (step: Step)
    ensures
        (*final(state_machine), step@) == old(state_machine).fall_back(failure),
{
    let step = sequencer::fall_back(&mut state_machine.cycle, failure);
    follow(state_machine, step)
}

fn drop_link<L>(state_machine: &mut StateMachine<L>, failure: Failure) -> (step: Step)
    ensures
        (*final(state_machine), step@) == old(state_machine).drop_link(failure),
{
    let step = sequencer::drop_link(&mut state_machine.cycle, failure);
    follow(state_machine, step)
}

fn start_read<L>(state_machine: &mut StateMachine<L>, config: &Snapshot) -> (step: Step)
    ensures
        (*final(state_machine), step@) == old(state_machine).follow(
            old(state_machine).cycle.start_read(*config),
        ),
{
    let step = sequencer::start_read(&mut state_machine.cycle, config);
    follow(state_machine, step)
}

/// Idle. Called when the driver has waited out the backoff: the first
/// cycle moves on to the reachability probe, later cycles start reading.
pub fn handle_idle<L>(
    state_machine: &mut StateMachine<L>,
    event: Event<L>,
    config: &Snapshot,
) -> (step: Step)
    ensures
        (*final(state_machine), step@) == old(state_machine).after_idle(event, *config),
{
    match event {
        Event::Elapsed => {
            if state_machine.first_idle {
                state_machine.state = State::Ping;
                state_machine.first_idle = false;
                Step::go(Action::Ping)
            } else {
                start_read(state_machine, config)
            }
        },
        _ => fall_back(state_machine, Failure::OutOfSequence),
    }
}

/// Ping. Called with the outcome of the reachability probe.
pub fn handle_ping<L>(state_machine: &mut StateMachine<L>, event: Event<L>) -> (step: Step)
    ensures
        (*final(state_machine), step@) == old(state_machine).after_ping(event),
{
    match event {
        Event::Pinged(report) => {
            match ping_meter(report) {
                Ok(_) => {
                    state_machine.state = State::Modbus;
                    if state_machine.cycle.modbus_context.is_some() {
                        Step::go(liveness_probe())
                    } else {
                        Step::go(Action::Connect { timeout: CONNECT_TIMEOUT_SECS })
                    }
                },
                Err(_) => {
                    state_machine.first_idle = true;
                    fall_back(state_machine, Failure::Unreachable)
                },
            }
        },
        _ => fall_back(state_machine, Failure::OutOfSequence),
    }
}

/// Modbus. Called with the outcome of the probe of the connection at hand,
/// or of the attempt to open a new one.
pub fn handle_modbus<L>(
    state_machine: &mut StateMachine<L>,
    event: Event<L>,
    config: &Snapshot,
) -> (step: Step)
    ensures
        (*final(state_machine), step@) == old(state_machine).after_modbus(event, *config),
{
    match event {
        Event::Probed(outcome) => match outcome {
            Probe::Replied(reply) => {
                if probe_alive(&reply) {
                    start_read(state_machine, config)
                } else {
                    drop_link(state_machine, Failure::LinkNotAlive)
                }
            },
            Probe::LockTimedOut => fall_back(state_machine, Failure::LockTimeout),
        },
        Event::Connected(attempt) => match setup_modbus_context(attempt) {
            Ok(link) => {
                state_machine.cycle.modbus_context = Some(link);
                start_read(state_machine, config)
            },
            Err(error) => drop_link(state_machine, error.classify()),
        },
        _ => fall_back(state_machine, Failure::OutOfSequence),
    }
}

/// Read. Called with the transport's reply to the read.
pub fn handle_read<L>(
    state_machine: &mut StateMachine<L>,
    event: Event<L>,
    config: &Snapshot,
) -> (step: Step)
    ensures
        (*final(state_machine), step@) == old(state_machine).follow(
            old(state_machine).cycle.after_read(event, *config),
        ),
{
    let step = sequencer::handle_read(&mut state_machine.cycle, event, config);
    follow(state_machine, step)
}

/// Write. Called with the transport's reply to the write of one register.
pub fn handle_write<L>(
    state_machine: &mut StateMachine<L>,
    event: Event<L>,
    config: &Snapshot,
) -> (step: Step)
    ensures
        (*final(state_machine), step@) == old(state_machine).follow(
            old(state_machine).cycle.after_write(event, *config),
        ),
{
    let step = sequencer::handle_write(&mut state_machine.cycle, event, config);
    follow(state_machine, step)
}

/// Verify. Called when the driver has waited out the settle time.
pub fn handle_verify<L>(state_machine: &mut StateMachine<L>, event: Event<L>) -> (step: Step)
    ensures
        (*final(state_machine), step@) == old(state_machine).follow(
            old(state_machine).cycle.after_verify(event),
        ),
{
    let step = sequencer::handle_verify(&mut state_machine.cycle, event);
    follow(state_machine, step)
}

/// Invariant: after any step the sequencer is well-formed and in step with
/// the machine.
pub proof fn lemma_step_keeps_wf<L>(machine: StateMachine<L>, event: Event<L>, config: Snapshot)
    requires
        machine.wf(),
    ensures
        machine.next(event, config).0.wf(),
{
    sequencer::lemma_step_keeps_wf(machine.cycle, event, config);
}

/// Every failure, in every state, leads to `Idle` and to the fixed backoff.
pub proof fn lemma_failure_leads_to_idle<L>(
    machine: StateMachine<L>,
    event: Event<L>,
    config: Snapshot,
)
    requires
        machine.next(event, config).1.failure is Some,
    ensures
        machine.next(event, config).0.state is Idle,
        machine.next(event, config).1.action == Action::backoff(),
{
}

/// The machine heals itself: whenever a step leaves it without a
/// connection, the flag is set, so that the next idle period leads to
/// `Ping` and from there to a new connection.
pub proof fn lemma_lost_connection_is_recovered<L>(
    machine: StateMachine<L>,
    event: Event<L>,
    config: Snapshot,
)
    ensures
        ({
            let after = machine.next(event, config).0;
            after.state is Idle && after.cycle.modbus_context is None ==> after.first_idle
                && after.next(Event::Elapsed, config).0.state is Ping
        }),
{
}

/// A write that fails ends the round: the machine is in `Idle`, not in
/// `Verify`, and no further write is asked for.
pub proof fn lemma_write_failure_aborts<L>(machine: StateMachine<L>, config: Snapshot)
    requires
        machine.state is Write,
    ensures
        machine.next(Event::Written(WriteReply::Failed), config)
            == machine.drop_link(Failure::WriteFailed),
        machine.next(Event::Written(WriteReply::Failed), config).0.state is Idle,
        machine.next(Event::Written(WriteReply::Failed), config).1.action
            == Action::backoff(),
{
}

} // verus!
