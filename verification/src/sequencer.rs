//! The write-verify sequencer: a machine with a connection of its own that
//! reads the configured registers, then writes the configured values one by
//! one, then gives the device time to settle: `Idle -> Read -> Write ->
//! Verify -> Idle`. Where nothing is configured for writing, a cycle ends
//! after the read.

use crate::codec::{reading_views, Reading, RegisterPlan};
use crate::config::Snapshot;
use crate::cycle::{
    begin_read, finish_read, perform_write_operations, read_request, read_result, write_of,
    write_request, WriteStep,
};
use crate::link::{idle_wait, Action, Event, Failure, Step, StepView, WriteReply, SETTLE_DWELL_SECS};
use vstd::prelude::*;

verus! {

/// The sequencer's lifecycle states.
#[derive(Clone, Copy, Debug, PartialEq, Eq, Structural)]
pub enum State {
    Idle,
    Read,
    Write,
    Verify,
}

/// The sequencer: its state, its connection, the window whose registers it
/// is waiting for, and the number of registers written in this round.
#[derive(Debug)]
pub struct StateMachine<L> {
    pub state: State,
    pub modbus_context: Option<L>,
    pub pending: Option<RegisterPlan>,
    pub write_cursor: usize,
}

/// The position after one more register has been written.
pub open spec fn advanced(cursor: usize) -> usize {
    if cursor < usize::MAX {
        (cursor + 1) as usize
    } else {
        cursor
    }
}

impl<L> StateMachine<L> {
    /// A window is pending exactly in `Read`, registers count as written
    /// only in `Write`, and outside `Idle` there is a connection.
    pub open spec fn wf(self) -> bool {
        &&& self.pending is Some <==> self.state is Read
        &&& self.write_cursor != 0 ==> self.state is Write
        &&& !(self.state is Idle) ==> self.modbus_context is Some
    }

    /// The machine in `Idle`, with nothing pending; the connection stays.
    pub open spec fn rested(self) -> Self {
        StateMachine { state: State::Idle, pending: None, write_cursor: 0, ..self }
    }

    /// The cycle ends in `failure`: back to `Idle`; the connection stays.
    pub open spec fn fall_back(self, failure: Failure) -> (Self, StepView) {
        (self.rested(), StepView::fail(failure))
    }

    /// The cycle ends in a transport failure: back to `Idle`, and the
    /// connection, whose life ends with its first transport error, is dropped.
    pub open spec fn drop_link(self, failure: Failure) -> (Self, StepView) {
        (StateMachine { modbus_context: None, ..self.rested() }, StepView::fail(failure))
    }

    /// A read cycle starts: with a connection and a window to read, the
    /// machine is in `Read` and asks for the window.
    pub open spec fn start_read(self, config: Snapshot) -> (Self, StepView) {
        if self.modbus_context is None {
            self.fall_back(Failure::LinkUnavailable)
        } else {
            match read_request(config.read_registers@) {
                Ok(plan) => (
                    StateMachine {
                        state: State::Read,
                        pending: Some(plan),
                        write_cursor: 0,
                        ..self
                    },
                    StepView::go(Action::Read { plan }),
                ),
                Err(failure) => self.fall_back(failure),
            }
        }
    }

    /// The write round at its current position: the next register is
    /// written; or, all being written, the machine settles in `Verify`; or
    /// the round cannot go on and the cycle ends. `readings` is what the
    /// step hands to the observer, whichever of these happens.
    pub open spec fn write_at(self, config: Snapshot, readings: Seq<(Seq<char>, u32)>) -> (
        Self,
        StepView,
    ) {
        match write_request(config.write_registers@, self.write_cursor) {
            WriteStep::Send { address, high, low } => (
                StateMachine { state: State::Write, pending: None, ..self },
                StepView { action: Action::Write { address, high, low }, failure: None, readings },
            ),
            WriteStep::Finished => (
                StateMachine { state: State::Verify, pending: None, write_cursor: 0, ..self },
                StepView {
                    action: Action::Wait { seconds: SETTLE_DWELL_SECS },
                    failure: None,
                    readings,
                },
            ),
            WriteStep::Rejected(failure) => (
                self.rested(),
                StepView { action: Action::backoff(), failure: Some(failure), readings },
            ),
        }
    }

    /// Idle: when the backoff is over, a read cycle starts.
    pub open spec fn after_idle(self, event: Event<L>, config: Snapshot) -> (Self, StepView) {
        match event {
            Event::Elapsed => self.start_read(config),
            _ => self.fall_back(Failure::OutOfSequence),
        }
    }

    /// Read: the registers that came back are decoded and handed out; a
    /// write round follows where registers are configured for writing.
    pub open spec fn after_read(self, event: Event<L>, config: Snapshot) -> (Self, StepView) {
        match event {
            Event::Read(reply) => match self.pending {
                Some(plan) => match read_result(plan, reply, config.read_registers@) {
                    Ok(readings) => if config.write_registers@.len() > 0 {
                        StateMachine { write_cursor: 0, ..self }.write_at(config, readings)
                    } else {
                        (
                            self.rested(),
                            StepView { action: Action::backoff(), failure: None, readings },
                        )
                    },
                    Err(failure) => if failure == Failure::ReadFailed {
                        self.drop_link(failure)
                    } else {
                        self.fall_back(failure)
                    },
                },
                None => self.fall_back(Failure::OutOfSequence),
            },
            _ => self.fall_back(Failure::OutOfSequence),
        }
    }

    /// Write: an acknowledged write is followed by the next one; a write
    /// that failed ends the round at once, the registers that remain staying
    /// unwritten.
    pub open spec fn after_write(self, event: Event<L>, config: Snapshot) -> (Self, StepView) {
        match event {
            Event::Written(reply) => match reply {
                WriteReply::Acknowledged => StateMachine {
                    write_cursor: advanced(self.write_cursor),
                    ..self
                }.write_at(config, Seq::empty()),
                WriteReply::Failed => self.drop_link(Failure::WriteFailed),
            },
            _ => self.fall_back(Failure::OutOfSequence),
        }
    }

    /// Verify: when the settle time is over the cycle is complete. Nothing
    /// is read back.
    pub open spec fn after_verify(self, event: Event<L>) -> (Self, StepView) {
        match event {
            Event::Elapsed => (self.rested(), StepView::go(Action::backoff())),
            _ => self.fall_back(Failure::OutOfSequence),
        }
    }

    /// The transition function: the handler of the current state decides.
    pub open spec fn next(self, event: Event<L>, config: Snapshot) -> (Self, StepView) {
        match self.state {
            State::Idle => self.after_idle(event, config),
            State::Read => self.after_read(event, config),
            State::Write => self.after_write(event, config),
            State::Verify => self.after_verify(event),
        }
    }

    /// The machine after `count` writes in a row were acknowledged.
    pub open spec fn after_acknowledged(self, config: Snapshot, count: nat) -> Self
        decreases count,
    {
        if count == 0 {
            self
        } else {
            self.after_acknowledged(config, (count - 1) as nat).next(
                Event::Written(WriteReply::Acknowledged),
                config,
            ).0
        }
    }

    /// A sequencer at rest: idle, with nothing pending and no connection yet.
    pub fn new() -> (machine: Self)
        ensures
            machine.state == State::Idle,
            machine.modbus_context is None,
            machine.pending is None,
            machine.write_cursor == 0,
            machine.wf(),
    {
        StateMachine { state: State::Idle, modbus_context: None, pending: None, write_cursor: 0 }
    }

    /// One step: hands the event to the handler of the current state.
    pub fn step(&mut self, event: Event<L>, config: &Snapshot) -> (step: Step)
        ensures
            (*final(self), step@) == old(self).next(event, *config),
    {
        match self.state {
            State::Idle => handle_idle(self, event, config),
            State::Read => handle_read(self, event, config),
            State::Write => handle_write(self, event, config),
            State::Verify => handle_verify(self, event),
        }
    }
}

fn rest<L>(state_machine: &mut StateMachine<L>)
    ensures
        *final(state_machine) == old(state_machine).rested(),
{
    state_machine.state = State::Idle;
    state_machine.pending = None;
    state_machine.write_cursor = 0;
}

/// Ends the cycle in `failure`: back to `Idle`; the connection stays.
pub fn fall_back<L>(state_machine: &mut StateMachine<L>, failure: Failure) -> (step: Step)
    ensures
        (*final(state_machine), step@) == old(state_machine).fall_back(failure),
{
    rest(state_machine);
    Step::fail(failure)
}

/// Ends the cycle in a transport failure: back to `Idle`, the connection dropped.
pub fn drop_link<L>(state_machine: &mut StateMachine<L>, failure: Failure) -> (step: Step)
    ensures
        (*final(state_machine), step@) == old(state_machine).drop_link(failure),
{
    rest(state_machine);
    state_machine.modbus_context = None;
    Step::fail(failure)
}

/// Starts a read cycle, from whatever state: plans the window and asks for it.
pub fn start_read<L>(state_machine: &mut StateMachine<L>, config: &Snapshot) -> (step: Step)
    ensures
        (*final(state_machine), step@) == old(state_machine).start_read(*config),
{
    if state_machine.modbus_context.is_none() {
        fall_back(state_machine, Failure::LinkUnavailable)
    } else {
        match begin_read(&config.read_registers) {
            Ok(plan) => {
                state_machine.state = State::Read;
                state_machine.pending = Some(plan);
                state_machine.write_cursor = 0;
                Step::go(Action::Read { plan })
            },
            Err(failure) => fall_back(state_machine, failure),
        }
    }
}

fn write_at<L>(
    state_machine: &mut StateMachine<L>,
    config: &Snapshot,
    readings: Vec<Reading>,
) -> (step: Step)
    ensures
        (*final(state_machine), step@) == old(state_machine).write_at(
            *config,
            reading_views(readings@),
        ),
{
    match perform_write_operations(&config.write_registers, state_machine.write_cursor) {
        WriteStep::Send { address, high, low } => {
            state_machine.state = State::Write;
            state_machine.pending = None;
            Step { action: Action::Write { address, high, low }, failure: None, readings }
        },
        WriteStep::Finished => {
            settle(state_machine, readings)
        },
        WriteStep::Rejected(failure) => {
            rest(state_machine);
            Step { action: idle_wait(), failure: Some(failure), readings }
        },
    }
}

/// Enters `Verify` after a write round. The confirmation is a delay: the
/// driver waits out the settle time, and nothing is read back or compared.
pub fn settle<L>(state_machine: &mut StateMachine<L>, readings: Vec<Reading>) -> (step: Step)
    ensures
        *final(state_machine) == (StateMachine {
            state: State::Verify,
            pending: None,
            write_cursor: 0,
            ..*old(state_machine)
        }),
        step@ == (StepView {
            action: Action::Wait { seconds: SETTLE_DWELL_SECS },
            failure: None,
            readings: reading_views(readings@),
        }),
{
    state_machine.state = State::Verify;
    state_machine.pending = None;
    state_machine.write_cursor = 0;
    Step { action: Action::Wait { seconds: SETTLE_DWELL_SECS }, failure: None, readings }
}

/// Idle. Called when the driver has waited out the backoff.
pub fn handle_idle<L>(
    state_machine: &mut StateMachine<L>,
    event: Event<L>,
    config: &Snapshot,
) -> (step: Step)
    ensures
        (*final(state_machine), step@) == old(state_machine).after_idle(event, *config),
{
    match event {
        Event::Elapsed => start_read(state_machine, config),
        _ => fall_back(state_machine, Failure::OutOfSequence),
    }
}

/// Read. Called with the transport's reply to the read.
pub fn handle_read<L>(
    state_machine: &mut StateMachine<L>,
    event: Event<L>,
    config: &Snapshot,
) -> (step: Step)
    ensures
        (*final(state_machine), step@) == old(state_machine).after_read(event, *config),
{
    match event {
        Event::Read(reply) => match state_machine.pending {
            Some(plan) => match finish_read(&plan, reply, &config.read_registers) {
                Ok(readings) => {
                    if config.has_write_registers() {
                        state_machine.write_cursor = 0;
                        write_at(state_machine, config, readings)
                    } else {
                        rest(state_machine);
                        Step { action: idle_wait(), failure: None, readings }
                    }
                },
                Err(failure) => match failure {
                    Failure::ReadFailed => drop_link(state_machine, failure),
                    _ => fall_back(state_machine, failure),
                },
            },
            None => fall_back(state_machine, Failure::OutOfSequence),
        },
        _ => fall_back(state_machine, Failure::OutOfSequence),
    }
}

/// Write. Called with the transport's reply to the write of one register.
pub fn handle_write<L>(
    state_machine: &mut StateMachine<L>,
    event: Event<L>,
    config: &Snapshot,
) -> (step: Step)
    ensures
        (*final(state_machine), step@) == old(state_machine).after_write(event, *config),
{
    match event {
        Event::Written(reply) => match reply {
            WriteReply::Acknowledged => {
                if state_machine.write_cursor < usize::MAX {
                    state_machine.write_cursor = state_machine.write_cursor + 1;
                }
                let nothing: Vec<Reading> = Vec::new();
                assert(reading_views(nothing@) =~= Seq::empty());
                write_at(state_machine, config, nothing)
            },
            WriteReply::Failed => drop_link(state_machine, Failure::WriteFailed),
        },
        _ => fall_back(state_machine, Failure::OutOfSequence),
    }
}

/// Verify. Called when the driver has waited out the settle time.
pub fn handle_verify<L>(state_machine: &mut StateMachine<L>, event: Event<L>) -> (step: Step)
    ensures
        (*final(state_machine), step@) == old(state_machine).after_verify(event),
{
    match event {
        Event::Elapsed => {
            rest(state_machine);
            Step::go(idle_wait())
        },
        _ => fall_back(state_machine, Failure::OutOfSequence),
    }
}

/// Invariant: a step keeps a window pending exactly in `Read`, registers
/// counted as written only in `Write`, and a connection outside `Idle`.
pub proof fn lemma_step_keeps_wf<L>(machine: StateMachine<L>, event: Event<L>, config: Snapshot)
    requires
        machine.wf(),
    ensures
        machine.next(event, config).0.wf(),
{
}

/// Every failure, in every state, leads to `Idle` and to the fixed backoff.
pub proof fn lemma_failure_leads_to_idle<L>(
    machine: StateMachine<L>,
    event: Event<L>,
    config: Snapshot,
)
    requires
        machine.next(event, config).1.failure is Some,
    ensures
        machine.next(event, config).0.state is Idle,
        machine.next(event, config).1.action == Action::backoff(),
{
}

/// A write that fails ends the round: the machine is in `Idle`, not in
/// `Verify`, no further write is asked for, and the connection is dropped.
pub proof fn lemma_write_failure_aborts<L>(machine: StateMachine<L>, config: Snapshot)
    requires
        machine.state is Write,
    ensures
        machine.next(Event::Written(WriteReply::Failed), config) == machine.drop_link(
            Failure::WriteFailed,
        ),
        machine.next(Event::Written(WriteReply::Failed), config).0.state is Idle,
        machine.next(Event::Written(WriteReply::Failed), config).1.action == Action::backoff(),
{
}

/// The registers are written in the order configured: once a write is
/// acknowledged, the next write is that of the next register, encoded.
pub proof fn lemma_writes_in_order<L>(machine: StateMachine<L>, config: Snapshot)
    requires
        machine.state is Write,
        machine.write_cursor + 1 < config.write_registers.len(),
        config.write_registers@[machine.write_cursor + 1].value is Some,
    ensures
        ({
            let after = machine.next(Event::Written(WriteReply::Acknowledged), config);
            &&& after.0.state is Write
            &&& after.0.write_cursor == machine.write_cursor + 1
            &&& Some(after.1.action) == write_of(config.write_registers@[machine.write_cursor + 1])
            &&& after.1.failure is None
        }),
{
}

/// When the last write is acknowledged, the machine settles in `Verify`.
pub proof fn lemma_round_ends_in_verify<L>(machine: StateMachine<L>, config: Snapshot)
    requires
        machine.state is Write,
        machine.write_cursor + 1 == config.write_registers.len(),
    ensures
        ({
            let after = machine.next(Event::Written(WriteReply::Acknowledged), config);
            &&& after.0.state is Verify
            &&& after.1 == StepView::go(Action::Wait { seconds: SETTLE_DWELL_SECS })
        }),
{
}

/// Every register to write carries a value.
pub open spec fn all_have_values(config: Snapshot) -> bool {
    forall|i: int|
        0 <= i < config.write_registers@.len() ==> (
        #[trigger] config.write_registers@[i]).value is Some
}

/// A round that is acknowledged throughout writes every register once, in
/// the order configured: while fewer writes than registers have been
/// acknowledged the machine is in `Write`, having counted them, and the
/// next acknowledgement is answered by the write of the next register, or,
/// after the last, by the settle time in `Verify`.
pub proof fn lemma_acknowledged_round<L>(machine: StateMachine<L>, config: Snapshot, count: nat)
    requires
        machine.state is Write,
        machine.write_cursor == 0,
        all_have_values(config),
        count < config.write_registers.len(),
    ensures
        ({
            let before = machine.after_acknowledged(config, count);
            let after = before.next(Event::Written(WriteReply::Acknowledged), config);
            &&& before.state is Write
            &&& before.write_cursor == count
            &&& before.modbus_context == machine.modbus_context
            &&& after.1.failure is None
            &&& if count + 1 < config.write_registers.len() {
                &&& after.0.state is Write
                &&& Some(after.1.action) == write_of(config.write_registers@[count as int + 1])
            } else {
                &&& after.0.state is Verify
                &&& after.1.action == (Action::Wait { seconds: SETTLE_DWELL_SECS })
            }
        }),
    decreases count,
{
    if count > 0 {
        lemma_acknowledged_round(machine, config, (count - 1) as nat);
    }
    let before = machine.after_acknowledged(config, count);
    assert(before.state is Write && before.write_cursor == count);
    if count + 1 < config.write_registers.len() {
        assert(config.write_registers@[count as int + 1].value is Some);
    }
}

/// `Verify` only delays: when the settle time is over the machine is in
/// `Idle`, whatever was written, and reports no failure.
pub proof fn lemma_verify_only_delays<L>(machine: StateMachine<L>, config: Snapshot)
    requires
        machine.state is Verify,
    ensures
        machine.next(Event::Elapsed, config) == (machine.rested(), StepView::go(Action::backoff())),
{
}

} // verus!
