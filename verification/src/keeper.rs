//! The connection keeper: the state machine that owns the connection to the
//! device. It waits, checks that the device is reachable, connects, and then
//! keeps probing the connection; whatever fails sends it back to the idle
//! wait, from which it recovers by the same path, for as long as it runs.
//!
//! | state   | waits for            | on success            | on failure              |
//! |---------|----------------------|-----------------------|-------------------------|
//! | Idle    | the backoff          | Ping (first cycle) or Connect | -               |
//! | Ping    | the reachability probe | Connect             | Idle, first cycle again |
//! | Connect | a liveness probe of the connection at hand, or a new connection | Verify | Idle |
//! | Verify  | a liveness probe, then the dwell | Verify      | Idle                    |

use crate::link::{
    idle_wait, liveness_probe, ping_meter, probe_alive, setup_modbus_context, Action,
    ConnectAttempt, Event, Failure, PingReport, Probe, Step, StepView, CONNECT_TIMEOUT_SECS,
    VERIFY_DWELL_SECS,
};
use vstd::prelude::*;

verus! {

/// The keeper's lifecycle states.
#[derive(Clone, Copy, Debug, PartialEq, Eq, Structural)]
pub enum State {
    Idle,
    Ping,
    Connect,
    Verify,
}

/// The keeper: its state, the connection it has installed, and the flag
/// that sends the next idle period through the reachability probe.
#[derive(Debug)]
pub struct StateMachine<L> {
    pub state: State,
    pub modbus_context: Option<L>,
    pub first_idle: bool,
}

/// Why a consumer was not handed the connection.
#[derive(Clone, Copy, Debug, PartialEq, Eq, Structural)]
pub enum AccessError {
    /// The keeper has not confirmed a connection: it is not in `Verify`.
    NotVerified,
    /// The keeper holds no connection.
    Unavailable,
}

impl<L> StateMachine<L> {
    /// A keeper in `Verify` holds a connection.
    pub open spec fn wf(self) -> bool {
        self.state is Verify ==> self.modbus_context is Some
    }

    /// The connection that other consumers may take: the one installed,
    /// while the keeper is in `Verify`, and none otherwise.
    pub open spec fn published(self) -> Option<L> {
        if self.state is Verify {
            self.modbus_context
        } else {
            None
        }
    }

    /// What a state asks of the driver when it is entered.
    pub open spec fn entry_action(self) -> Action {
        match self.state {
            State::Idle => Action::backoff(),
            State::Ping => Action::Ping,
            State::Connect => if self.modbus_context is Some {
                Action::probe()
            } else {
                Action::Connect { timeout: CONNECT_TIMEOUT_SECS }
            },
            State::Verify => Action::probe(),
        }
    }

    /// The machine moved to `state`, with the step that enters it.
    pub open spec fn enter(self, state: State) -> (Self, StepView) {
        let next = StateMachine { state, ..self };
        (next, StepView::go(next.entry_action()))
    }

    /// The machine back in `Idle` because of `failure`; the connection stays.
    pub open spec fn fall_back(self, failure: Failure) -> (Self, StepView) {
        (StateMachine { state: State::Idle, ..self }, StepView::fail(failure))
    }

    /// The machine back in `Idle` because of `failure`; the connection is retired.
    pub open spec fn retire(self, failure: Failure) -> (Self, StepView) {
        (StateMachine { state: State::Idle, modbus_context: None, ..self }, StepView::fail(failure))
    }

    /// Idle: when the backoff is over, the first cycle goes to `Ping` and
    /// spends the flag, every later cycle goes to `Connect`.
    pub open spec fn after_idle(self, event: Event<L>) -> (Self, StepView) {
        match event {
            Event::Elapsed => if self.first_idle {
                StateMachine { first_idle: false, ..self }.enter(State::Ping)
            } else {
                self.enter(State::Connect)
            },
            _ => self.fall_back(Failure::OutOfSequence),
        }
    }

    /// Ping: a device that answers leads to `Connect`; otherwise back to
    /// `Idle`, with the flag set so that the retry pings again.
    pub open spec fn after_ping(self, event: Event<L>) -> (Self, StepView) {
        match event {
            Event::Pinged(report) => if report == (PingReport::Exited { success: true }) {
                self.enter(State::Connect)
            } else {
                StateMachine { first_idle: true, ..self }.fall_back(Failure::Unreachable)
            },
            _ => self.fall_back(Failure::OutOfSequence),
        }
    }

    /// What a liveness probe leads to: `on_alive` when the connection at
    /// hand answered; `Idle` otherwise, with the connection retired when
    /// the probe reached it and failed.
    pub open spec fn after_probe(self, probe: Probe, on_alive: Action) -> (Self, StepView) {
        match probe {
            Probe::Replied(reply) => if reply is Registers {
                if self.modbus_context is Some {
                    (StateMachine { state: State::Verify, ..self }, StepView::go(on_alive))
                } else {
                    self.fall_back(Failure::LinkUnavailable)
                }
            } else {
                self.retire(Failure::LinkNotAlive)
            },
            Probe::LockTimedOut => self.fall_back(Failure::LockTimeout),
        }
    }

    /// Connect: a connection at hand that is alive, or a new connection,
    /// leads to `Verify`. A failed attempt retires whatever was installed
    /// and sets the flag, so that recovery pings before it reconnects.
    pub open spec fn after_connect(self, event: Event<L>) -> (Self, StepView) {
        match event {
            Event::Probed(probe) => self.after_probe(probe, Action::probe()),
            Event::Connected(attempt) => match attempt {
                ConnectAttempt::Connected(link) => StateMachine {
                    modbus_context: Some(link),
                    ..self
                }.enter(State::Verify),
                ConnectAttempt::TimedOut => StateMachine { first_idle: true, ..self }.retire(
                    Failure::ConnectTimeout,
                ),
                _ => StateMachine { first_idle: true, ..self }.retire(Failure::ConnectFailed),
            },
            _ => self.fall_back(Failure::OutOfSequence),
        }
    }

    /// Verify: a live connection is probed again after the dwell; a probe
    /// that fails retires it.
    pub open spec fn after_verify(self, event: Event<L>) -> (Self, StepView) {
        match event {
            Event::Probed(probe) => self.after_probe(
                probe,
                Action::Wait { seconds: VERIFY_DWELL_SECS },
            ),
            Event::Elapsed => if self.modbus_context is Some {
                self.enter(State::Verify)
            } else {
                self.fall_back(Failure::LinkUnavailable)
            },
            _ => self.fall_back(Failure::OutOfSequence),
        }
    }

    /// The transition function: the handler of the current state decides.
    pub open spec fn next(self, event: Event<L>) -> (Self, StepView) {
        match self.state {
            State::Idle => self.after_idle(event),
            State::Ping => self.after_ping(event),
            State::Connect => self.after_connect(event),
            State::Verify => self.after_verify(event),
        }
    }

    /// Idle, without a connection, the reachability probe ahead: the state
    /// in which the keeper starts and to which failed recovery returns.
    pub open spec fn at_rest(self) -> bool {
        self.state is Idle && self.first_idle && self.modbus_context is None
    }

    /// The machine after a run of events, each handled in turn.
    pub open spec fn replay(self, events: Seq<Event<L>>) -> Self
        decreases events.len(),
    {
        if events.len() == 0 {
            self
        } else {
            self.next(events[0]).0.replay(events.skip(1))
        }
    }

    /// The machine after a run of cycles, each a run of events.
    pub open spec fn replay_cycles(self, cycles: Seq<Seq<Event<L>>>) -> Self
        decreases cycles.len(),
    {
        if cycles.len() == 0 {
            self
        } else {
            self.replay(cycles[0]).replay_cycles(cycles.skip(1))
        }
    }

    /// A keeper at rest: idle, without a connection, its first cycle ahead.
    pub fn new() -> (machine: Self)
        ensures
            machine.state == State::Idle,
            machine.modbus_context is None,
            machine.first_idle,
            machine.wf(),
    {
        StateMachine { state: State::Idle, modbus_context: None, first_idle: true }
    }

    /// What the driver does first: whatever the current state asks on entry.
    pub fn start(&self) -> (action: Action)
        ensures
            action == self.entry_action(),
    {
        match self.state {
            State::Idle => idle_wait(),
            State::Ping => Action::Ping,
            State::Connect => {
                if self.modbus_context.is_some() {
                    liveness_probe()
                } else {
                    Action::Connect { timeout: CONNECT_TIMEOUT_SECS }
                }
            },
            State::Verify => liveness_probe(),
        }
    }

    /// One step: hands the event to the handler of the current state.
    pub fn step(&mut self, event: Event<L>) -> (step: Step)
        ensures
            (*final(self), step@) == old(self).next(event),
    {
        match self.state {
            State::Idle => handle_idle(self, event),
            State::Ping => handle_ping(self, event),
            State::Connect => handle_connect(self, event),
            State::Verify => handle_verify(self, event),
        }
    }

    /// Hands the published connection to a consumer, who locks it for one
    /// operation. There is one to hand out only while the keeper is in
    /// `Verify`.
    pub fn access_modbus_context(&self) -> (result: Result<&L, AccessError>)
        ensures
            self.state != State::Verify ==> result == Err::<&L, AccessError>(
                AccessError::NotVerified,
            ),
            self.state == State::Verify && self.modbus_context is None ==> result == Err::<
                &L,
                AccessError,
            >(AccessError::Unavailable),
            result matches Ok(link) ==> self.published() == Some(*link),
            result is Ok <==> self.published() is Some,
    {
        match self.state {
            State::Verify => match &self.modbus_context {
                Some(link) => Ok(link),
                None => Err(AccessError::Unavailable),
            },
            _ => Err(AccessError::NotVerified),
        }
    }
}

fn enter<L>(state_machine: &mut StateMachine<L>, state: State) -> (step: Step)
    ensures
        (*final(state_machine), step@) == old(state_machine).enter(state),
{
    state_machine.state = state;
    Step::go(state_machine.start())
}

fn fall_back<L>(state_machine: &mut StateMachine<L>, failure: Failure) -> (step: Step)
    ensures
        (*final(state_machine), step@) == old(state_machine).fall_back(failure),
{
    state_machine.state = State::Idle;
    Step::fail(failure)
}

fn retire<L>(state_machine: &mut StateMachine<L>, failure: Failure) -> (step: Step)
    ensures
        (*final(state_machine), step@) == old(state_machine).retire(failure),
{
    state_machine.state = State::Idle;
    state_machine.modbus_context = None;
    Step::fail(failure)
}

fn after_probe<L>(
    state_machine: &mut StateMachine<L>,
    probe: Probe,
    on_alive: Action,
) -> (step: Step)
    ensures
        (*final(state_machine), step@) == old(state_machine).after_probe(probe, on_alive),
{
    match probe {
        Probe::Replied(reply) => {
            if probe_alive(&reply) {
                if state_machine.modbus_context.is_some() {
                    state_machine.state = State::Verify;
                    Step::go(on_alive)
                } else {
                    fall_back(state_machine, Failure::LinkUnavailable)
                }
            } else {
                retire(state_machine, Failure::LinkNotAlive)
            }
        },
        Probe::LockTimedOut => fall_back(state_machine, Failure::LockTimeout),
    }
}

/// Idle. Called when the driver has waited out the backoff: the first
/// cycle moves on to the reachability probe, later cycles to `Connect`.
pub fn handle_idle<L>(state_machine: &mut StateMachine<L>, event: Event<L>) -> (step: Step)
    ensures
        (*final(state_machine), step@) == old(state_machine).after_idle(event),
{
    match event {
        Event::Elapsed => {
            if state_machine.first_idle {
                state_machine.first_idle = false;
                enter(state_machine, State::Ping)
            } else {
                enter(state_machine, State::Connect)
            }
        },
        _ => fall_back(state_machine, Failure::OutOfSequence),
    }
}

/// Ping. Called with the outcome of the reachability probe.
pub fn handle_ping<L>(state_machine: &mut StateMachine<L>, event: Event<L>) -> (step: Step)
    ensures
        (*final(state_machine), step@) == old(state_machine).after_ping(event),
{
    match event {
        Event::Pinged(report) => {
            match ping_meter(report) {
                Ok(_) => enter(state_machine, State::Connect),
                Err(_) => {
                    state_machine.first_idle = true;
                    fall_back(state_machine, Failure::Unreachable)
                },
            }
        },
        _ => fall_back(state_machine, Failure::OutOfSequence),
    }
}

/// Connect. Called with the outcome of the probe of the connection at
/// hand, or of the attempt to open a new one.
pub fn handle_connect<L>(state_machine: &mut StateMachine<L>, event: Event<L>) -> (step: Step)
    ensures
        (*final(state_machine), step@) == old(state_machine).after_connect(event),
{
    match event {
        Event::Probed(outcome) => after_probe(state_machine, outcome, liveness_probe()),
        Event::Connected(attempt) => {
            match setup_modbus_context(attempt) {
                Ok(link) => {
                    state_machine.modbus_context = Some(link);
                    enter(state_machine, State::Verify)
                },
                Err(error) => {
                    state_machine.first_idle = true;
                    retire(state_machine, error.classify())
                },
            }
        },
        _ => fall_back(state_machine, Failure::OutOfSequence),
    }
}

/// Verify. Called with the outcome of a liveness probe, or when the dwell
/// after a good probe is over.
pub fn handle_verify<L>(state_machine: &mut StateMachine<L>, event: Event<L>) -> (step: Step)
    ensures
        (*final(state_machine), step@) == old(state_machine).after_verify(event),
{
    match event {
        Event::Probed(outcome) => after_probe(
            state_machine,
            outcome,
            Action::Wait { seconds: VERIFY_DWELL_SECS },
        ),
        Event::Elapsed => {
            if state_machine.modbus_context.is_some() {
                enter(state_machine, State::Verify)
            } else {
                fall_back(state_machine, Failure::LinkUnavailable)
            }
        },
        _ => fall_back(state_machine, Failure::OutOfSequence),
    }
}

/// One recovery cycle that fails: the backoff ends and the device does not
/// answer the reachability probe; or it answers, and the connection that
/// is then attempted is not established.
pub open spec fn failed_cycle<L>(events: Seq<Event<L>>) -> bool {
    ||| {
        &&& events.len() == 2
        &&& events[0] is Elapsed
        &&& events[1] matches Event::Pinged(report)
        &&& report != (PingReport::Exited { success: true })
    }
    ||| {
        &&& events.len() == 3
        &&& events[0] is Elapsed
        &&& events[1] matches Event::Pinged(report)
        &&& report == (PingReport::Exited { success: true })
        &&& events[2] matches Event::Connected(attempt)
        &&& !(attempt is Connected)
    }
}

/// Invariant: a keeper that holds a connection whenever it is in `Verify`
/// still does after any step.
pub proof fn lemma_step_keeps_wf<L>(machine: StateMachine<L>, event: Event<L>)
    requires
        machine.wf(),
    ensures
        machine.next(event).0.wf(),
{
}

/// Every failure, in every state, leads to `Idle` and to the fixed backoff,
/// and leaves no connection published.
pub proof fn lemma_failure_leads_to_idle<L>(machine: StateMachine<L>, event: Event<L>)
    requires
        machine.next(event).1.failure is Some,
    ensures
        machine.next(event).0.state is Idle,
        machine.next(event).1.action == Action::backoff(),
        machine.next(event).0.published() is None,
{
}

/// A transport failure (a dead connection, a refused or timed-out
/// connection attempt) retires the connection.
pub proof fn lemma_transport_failure_retires<L>(machine: StateMachine<L>, event: Event<L>)
    requires
        ({
            let failure = machine.next(event).1.failure;
            ||| failure == Some(Failure::LinkNotAlive)
            ||| failure == Some(Failure::ConnectFailed)
            ||| failure == Some(Failure::ConnectTimeout)
        }),
    ensures
        machine.next(event).0.modbus_context is None,
{
}

/// Only `Connect` installs a connection: after a step, the connection is
/// either the one that was there, or none, or the one that an attempt made
/// in `Connect` has just handed in.
pub proof fn lemma_only_connect_installs<L>(machine: StateMachine<L>, event: Event<L>)
    ensures
        ({
            let after = machine.next(event).0.modbus_context;
            ||| after == machine.modbus_context
            ||| after is None
            ||| machine.state is Connect && event == Event::Connected(
                ConnectAttempt::Connected(after->0),
            )
        }),
{
}

/// Liveness is never answered from memory. A keeper in `Verify` whose
/// probe succeeds stays in `Verify` with its connection published; when the
/// next probe, after the dwell, fails, the keeper is in `Idle` at once and
/// the connection is retired, whatever the earlier probe said.
pub proof fn lemma_probe_is_never_stale<L>(machine: StateMachine<L>, first: Probe, second: Probe)
    requires
        machine.state is Verify,
        machine.modbus_context is Some,
        first.alive(),
        second.dead(),
    ensures
        ({
            let confirmed = machine.next(Event::Probed(first));
            let dwelt = confirmed.0.next(Event::Elapsed);
            let failed = dwelt.0.next(Event::Probed(second));
            &&& confirmed.0.state is Verify
            &&& confirmed.0.published() == machine.modbus_context
            &&& confirmed.1 == StepView::go(Action::Wait { seconds: VERIFY_DWELL_SECS })
            &&& dwelt.0 == confirmed.0
            &&& dwelt.1 == StepView::go(Action::probe())
            &&& failed.0.state is Idle
            &&& failed.0.modbus_context is None
            &&& failed.1 == StepView::fail(Failure::LinkNotAlive)
        }),
{
}

/// Recovery succeeds as soon as the device lets it: from rest, when the
/// device answers the reachability probe and the connection is
/// established, the keeper is in `Verify` and publishes that connection.
pub proof fn lemma_recovery_reaches_verify<L>(machine: StateMachine<L>, link: L)
    requires
        machine.at_rest(),
    ensures
        ({
            let pinging = machine.next(Event::Elapsed);
            let connecting = pinging.0.next(Event::Pinged(PingReport::Exited { success: true }));
            let verifying = connecting.0.next(Event::Connected(ConnectAttempt::Connected(link)));
            &&& pinging.0.state is Ping
            &&& pinging.1 == StepView::go(Action::Ping)
            &&& connecting.0.state is Connect
            &&& connecting.1 == StepView::go(Action::Connect { timeout: CONNECT_TIMEOUT_SECS })
            &&& verifying.0.state is Verify
            &&& verifying.0.published() == Some(link)
            &&& verifying.1 == StepView::go(Action::probe())
        }),
{
}

/// A failed recovery cycle leaves a keeper at rest exactly as it found it.
pub proof fn lemma_failed_cycle_returns_to_rest<L>(machine: StateMachine<L>, events: Seq<Event<L>>)
    requires
        machine.at_rest(),
        failed_cycle(events),
    ensures
        machine.replay(events) == machine,
{
    reveal_with_fuel(StateMachine::replay, 4);
    let pinging = machine.next(events[0]).0;
    assert(events.skip(1)[0] == events[1]);
    if events.len() == 2 {
        assert(events.skip(1).skip(1).len() == 0);
        assert(pinging.next(events[1]).0 == machine);
    } else {
        assert(events.skip(1).skip(1)[0] == events[2]);
        assert(events.skip(1).skip(1).skip(1).len() == 0);
        let connecting = pinging.next(events[1]).0;
        assert(connecting.state is Connect && connecting.modbus_context is None);
        assert(connecting.next(events[2]).0 == machine);
    }
}

/// Recovery is idempotent: however many recovery cycles fail in a row, the
/// keeper is afterwards at rest in `Idle`, exactly as before the first.
pub proof fn lemma_recovery_is_idempotent<L>(
    machine: StateMachine<L>,
    cycles: Seq<Seq<Event<L>>>,
)
    requires
        machine.at_rest(),
        forall|i: int| 0 <= i < cycles.len() ==> failed_cycle(#[trigger] cycles[i]),
    ensures
        machine.replay_cycles(cycles) == machine,
    decreases cycles.len(),
{
    if cycles.len() > 0 {
        lemma_failed_cycle_returns_to_rest(machine, cycles[0]);
        assert forall|i: int| 0 <= i < cycles.skip(1).len() implies failed_cycle(
            #[trigger] cycles.skip(1)[i],
        ) by {
            assert(cycles.skip(1)[i] == cycles[i + 1]);
        }
        lemma_recovery_is_idempotent(machine, cycles.skip(1));
    }
}

} // verus!
