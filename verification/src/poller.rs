//! The read poller: a consumer of the connection that the keeper publishes.
//! Each cycle it takes the link, reads the one window that covers the
//! configured registers, decodes it, and lets the link go: `Idle -> Read ->
//! Idle`. It never installs or retires a connection, and it holds the link
//! only while it is in `Read`.

use crate::codec::{
    decoded, lemma_plan_covers, lemma_plan_exists, plan_of, window_fits, RegisterPlan,
};
use crate::config::Snapshot;
use crate::cycle::{begin_read, finish_read, read_request, read_result};
use crate::link::{
    idle_wait, Acquire, Action, Event, Failure, ReadReply, Step, StepView, LOCK_TIMEOUT_SECS,
};
use vstd::prelude::*;

verus! {

/// The poller's lifecycle states.
#[derive(Clone, Copy, Debug, PartialEq, Eq, Structural)]
pub enum State {
    Idle,
    Read,
}

/// The poller: its state, whether it holds the link's exclusive session,
/// and the window whose registers it is waiting for.
#[derive(Clone, Copy, Debug, PartialEq, Eq, Structural)]
pub struct StateMachine {
    pub state: State,
    pub first_idle: bool,
    pub session_held: bool,
    pub pending: Option<RegisterPlan>,
}

impl StateMachine {
    /// The link is held only in `Read`, and a read is pending only while
    /// the link is held.
    pub open spec fn wf(self) -> bool {
        &&& self.session_held ==> self.state is Read
        &&& self.pending is Some ==> self.session_held
    }

    /// What a state asks of the driver when it is entered.
    pub open spec fn entry_action(self) -> Action {
        match self.state {
            State::Idle => Action::backoff(),
            State::Read => Action::Acquire { timeout: LOCK_TIMEOUT_SECS },
        }
    }

    /// The machine in `Idle`, the link released and nothing pending.
    pub open spec fn released(self) -> Self {
        StateMachine { state: State::Idle, session_held: false, pending: None, ..self }
    }

    /// The cycle ends in `failure`: back to `Idle`, the link released.
    pub open spec fn fall_back(self, failure: Failure) -> (Self, StepView) {
        (self.released(), StepView::fail(failure))
    }

    /// Idle: when the backoff is over, a read cycle starts by taking the link.
    pub open spec fn after_idle<L>(self, event: Event<L>) -> (Self, StepView) {
        match event {
            Event::Elapsed => {
                let next = StateMachine { state: State::Read, first_idle: false, ..self };
                (next, StepView::go(next.entry_action()))
            },
            _ => self.fall_back(Failure::OutOfSequence),
        }
    }

    /// Read: with the link taken, the window over the configured registers
    /// is read; with the registers back, they are decoded and handed out.
    /// Whatever else happens ends the cycle. Every way out releases the link.
    pub open spec fn after_read<L>(self, event: Event<L>, config: Snapshot) -> (Self, StepView) {
        match event {
            Event::Link(acquire) => match acquire {
                Acquire::ExclusiveSession => match read_request(config.read_registers@) {
                    Ok(plan) => (
                        StateMachine {
                            state: State::Read,
                            session_held: true,
                            pending: Some(plan),
                            ..self
                        },
                        StepView::go(Action::Read { plan }),
                    ),
                    Err(failure) => self.fall_back(failure),
                },
                Acquire::Unavailable => self.fall_back(Failure::LinkUnavailable),
                Acquire::TimedOut => self.fall_back(Failure::LockTimeout),
            },
            Event::Read(reply) => match self.pending {
                Some(plan) => match read_result(plan, reply, config.read_registers@) {
                    Ok(readings) => (
                        self.released(),
                        StepView { action: Action::backoff(), failure: None, readings },
                    ),
                    Err(failure) => self.fall_back(failure),
                },
                None => self.fall_back(Failure::OutOfSequence),
            },
            _ => self.fall_back(Failure::OutOfSequence),
        }
    }

    /// The transition function: the handler of the current state decides.
    pub open spec fn next<L>(self, event: Event<L>, config: Snapshot) -> (Self, StepView) {
        match self.state {
            State::Idle => self.after_idle(event),
            State::Read => self.after_read(event, config),
        }
    }

    /// A poller at rest: idle, its first cycle ahead, the link not held.
    pub fn new() -> (machine: Self)
        ensures
            machine == (StateMachine {
                state: State::Idle,
                first_idle: true,
                session_held: false,
                pending: None,
            }),
            machine.wf(),
    {
        StateMachine { state: State::Idle, first_idle: true, session_held: false, pending: None }
    }

    /// What the driver does first: whatever the current state asks on entry.
    pub fn start(&self) -> (action: Action)
        ensures
            action == self.entry_action(),
    {
        match self.state {
            State::Idle => idle_wait(),
            State::Read => Action::Acquire { timeout: LOCK_TIMEOUT_SECS },
        }
    }

    /// One step: hands the event to the handler of the current state.
    pub fn step<L>(&mut self, event: Event<L>, config: &Snapshot) -> (step: Step)
        ensures
            (*final(self), step@) == old(self).next(event, *config),
    {
        match self.state {
            State::Idle => handle_idle(self, event),
            State::Read => handle_read(self, event, config),
        }
    }
}

fn fall_back(state_machine: &mut StateMachine, failure: Failure) -> (step: Step)
    ensures
        (*final(state_machine), step@) == old(state_machine).fall_back(failure),
{
    state_machine.state = State::Idle;
    state_machine.session_held = false;
    state_machine.pending = None;
    Step::fail(failure)
}

/// Idle. Called when the driver has waited out the backoff.
pub fn handle_idle<L>(state_machine: &mut StateMachine, event: Event<L>) -> (step: Step)
    ensures
        (*final(state_machine), step@) == old(state_machine).after_idle(event),
{
    match event {
        Event::Elapsed => {
            state_machine.state = State::Read;
            state_machine.first_idle = false;
            Step::go(state_machine.start())
        },
        _ => fall_back(state_machine, Failure::OutOfSequence),
    }
}

/// Read. Called with the outcome of taking the link, and then with the
/// transport's reply to the read.
pub fn handle_read<L>(
    state_machine: &mut StateMachine,
    event: Event<L>,
    config: &Snapshot,
) -> (step: Step)
    ensures
        (*final(state_machine), step@) == old(state_machine).after_read(event, *config),
{
    match event {
        Event::Link(acquire) => match acquire.classify() {
            None => match begin_read(&config.read_registers) {
                Ok(plan) => {
                    state_machine.state = State::Read;
                    state_machine.session_held = true;
                    state_machine.pending = Some(plan);
                    Step::go(Action::Read { plan })
                },
                Err(failure) => fall_back(state_machine, failure),
            },
            Some(failure) => fall_back(state_machine, failure),
        },
        Event::Read(reply) => match state_machine.pending {
            Some(plan) => match finish_read(&plan, reply, &config.read_registers) {
                Ok(readings) => {
                    state_machine.state = State::Idle;
                    state_machine.session_held = false;
                    state_machine.pending = None;
                    Step { action: idle_wait(), failure: None, readings }
                },
                Err(failure) => fall_back(state_machine, failure),
            },
            None => fall_back(state_machine, Failure::OutOfSequence),
        },
        _ => fall_back(state_machine, Failure::OutOfSequence),
    }
}

/// Invariant: after any step the link is held only in `Read`, and a read
/// is pending only while the link is held.
pub proof fn lemma_step_keeps_wf<L>(machine: StateMachine, event: Event<L>, config: Snapshot)
    requires
        machine.wf(),
    ensures
        machine.next(event, config).0.wf(),
{
}

/// The session is scoped: whichever way a step leaves `Read`, by success,
/// by failure or by an event out of turn, the link is released; and the
/// driver is never asked to wait while the link is held.
pub proof fn lemma_release_on_every_exit<L>(
    machine: StateMachine,
    event: Event<L>,
    config: Snapshot,
)
    ensures
        ({
            let after = machine.next(event, config);
            &&& after.0.state is Idle ==> !after.0.session_held
            &&& after.1.action is Wait ==> !after.0.session_held
            &&& after.1.failure is Some ==> after.0 == machine.released()
        }),
{
}

/// A cycle that meets no failure yields every value. From any state of
/// rest: the backoff ends, the link is taken, the window planned over the
/// configured registers is read in full; then the poller is back in `Idle`
/// with the link released, and hands out name and value of every register,
/// decoded from the registers received.
pub proof fn lemma_cycle_yields_every_value<L>(
    machine: StateMachine,
    config: Snapshot,
    values: Vec<u16>,
)
    requires
        machine.state is Idle,
        config.read_registers@.len() > 0,
        window_fits(config.read_registers@),
        values@.len() == plan_of(config.read_registers@).quantity,
    ensures
        ({
            let plan = plan_of(config.read_registers@);
            let polling = machine.next(Event::<L>::Elapsed, config);
            let taken = polling.0.next(Event::<L>::Link(Acquire::ExclusiveSession), config);
            let done = taken.0.next(Event::<L>::Read(ReadReply::Registers(values)), config);
            &&& polling.0.state is Read
            &&& polling.1 == StepView::go(Action::Acquire { timeout: LOCK_TIMEOUT_SECS })
            &&& taken.0.state is Read && taken.0.session_held
            &&& taken.1 == StepView::go(Action::Read { plan })
            &&& done.0.state is Idle && !done.0.session_held
            &&& done.1 == (StepView {
                action: Action::backoff(),
                failure: None,
                readings: decoded(plan.start_address, values@, config.read_registers@),
            })
        }),
{
    lemma_plan_exists(config.read_registers@);
    lemma_plan_covers(plan_of(config.read_registers@), config.read_registers@);
}

/// A poller never keeps what a cycle read: the readings of a step come
/// from the reply at hand, decoded against the window that was asked for.
pub proof fn lemma_readings_come_from_reply<L>(
    machine: StateMachine,
    event: Event<L>,
    config: Snapshot,
)
    requires
        machine.next(event, config).1.readings.len() > 0,
    ensures
        machine.state is Read,
        event matches Event::Read(reply) && machine.pending matches Some(plan) && read_result(
            plan,
            reply,
            config.read_registers@,
        ) == Ok::<Seq<(Seq<char>, u32)>, Failure>(machine.next(event, config).1.readings),
{
}

} // verus!
