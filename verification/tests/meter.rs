use mgw_generic::codec::{RegisterDescriptor, RegisterKind, RegisterPlan};
use mgw_generic::config::Snapshot;
use mgw_generic::link::{
    Action, ConnectAttempt, Event, Failure, PingReport, Probe, ReadReply, WriteReply,
};
use mgw_generic::meter::{
    handle_idle, handle_modbus, handle_ping, handle_read, handle_verify, handle_write, State,
    StateMachine,
};
use mgw_generic::sequencer;

const BACKOFF: Action = Action::Wait { seconds: 5 };
const SETTLE: Action = Action::Wait { seconds: 5 };
const PROBE: Action = Action::Probe { address: 1, quantity: 1, lock_timeout: 5 };
const CONNECT: Action = Action::Connect { timeout: 5 };

fn meter_read(name: &str, address: u16) -> RegisterDescriptor {
    RegisterDescriptor { name: name.to_string(), address, kind: RegisterKind::Read, value: None }
}

fn meter_write(name: &str, address: u16, value: f32) -> RegisterDescriptor {
    RegisterDescriptor {
        name: name.to_string(),
        address,
        kind: RegisterKind::Write,
        value: Some(value.to_bits()),
    }
}

fn cfg() -> Snapshot {
    Snapshot {
        read_registers: vec![meter_read("A", 10), meter_read("B", 12)],
        write_registers: vec![meter_write("C", 20, 1.5)],
    }
}

fn window_read() -> Event<u32> {
    Event::Read(ReadReply::Registers(vec![0x3F80, 0x0000, 0x4000, 0x0000]))
}

fn pinged() -> Event<u32> {
    Event::Pinged(PingReport::Exited { success: true })
}

#[test]
fn meter_starts_idle_without_a_connection() {
    let meter: StateMachine<u32> = StateMachine::new();
    assert_eq!(meter.state, State::Idle);
    assert!(meter.first_idle);
    assert_eq!(meter.cycle.state, sequencer::State::Idle);
    assert_eq!(meter.cycle.modbus_context, None);
}

#[test]
fn meter_first_cycle_connects_then_reads_writes_and_settles() {
    let cfg = cfg();
    let window = RegisterPlan { start_address: 10, quantity: 4 };
    let mut meter: StateMachine<u32> = StateMachine::new();

    let step = meter.step(Event::Elapsed, &cfg);
    assert_eq!((meter.state, step.action), (State::Ping, Action::Ping));
    assert!(!meter.first_idle);

    let step = meter.step(pinged(), &cfg);
    assert_eq!((meter.state, step.action), (State::Modbus, CONNECT));

    let step = meter.step(Event::Connected(ConnectAttempt::Connected(8)), &cfg);
    assert_eq!((meter.state, step.action), (State::Read, Action::Read { plan: window }));
    assert_eq!(meter.cycle.modbus_context, Some(8));

    let step = meter.step(window_read(), &cfg);
    assert_eq!(meter.state, State::Write);
    assert_eq!(step.action, Action::Write { address: 20, high: 0x3FC0, low: 0 });
    assert_eq!(step.readings.len(), 2);

    let step = meter.step(Event::Written(WriteReply::Acknowledged), &cfg);
    assert_eq!((meter.state, step.action), (State::Verify, SETTLE));

    let step = meter.step(Event::Elapsed, &cfg);
    assert_eq!((meter.state, step.action, step.failure), (State::Idle, BACKOFF, None));
    assert!(!meter.first_idle);

    let step = meter.step(Event::Elapsed, &cfg);
    assert_eq!((meter.state, step.action), (State::Read, Action::Read { plan: window }));
}

#[test]
fn meter_unreachable_device_is_pinged_again() {
    let cfg = cfg();
    let mut meter: StateMachine<u32> = StateMachine::new();
    for _ in 0..50 {
        let step = meter.step(Event::Elapsed, &cfg);
        assert_eq!((meter.state, step.action), (State::Ping, Action::Ping));
        let step = meter.step(Event::Pinged(PingReport::Exited { success: false }), &cfg);
        assert_eq!(meter.state, State::Idle);
        assert_eq!((step.action, step.failure), (BACKOFF, Some(Failure::Unreachable)));
        assert!(meter.first_idle);
    }
}

#[test]
fn meter_connect_failure_goes_back_through_ping() {
    let cfg = cfg();
    let mut meter: StateMachine<u32> = StateMachine::new();
    meter.step(Event::Elapsed, &cfg);
    meter.step(pinged(), &cfg);
    let step = meter.step(Event::Connected(ConnectAttempt::TimedOut), &cfg);
    assert_eq!(meter.state, State::Idle);
    assert_eq!((step.action, step.failure), (BACKOFF, Some(Failure::ConnectTimeout)));
    assert!(meter.first_idle);
    assert_eq!(meter.cycle.modbus_context, None);

    meter.step(Event::Elapsed, &cfg);
    meter.step(pinged(), &cfg);
    let step =
        meter.step(Event::Connected(ConnectAttempt::Refused("no route".to_string())), &cfg);
    assert_eq!((meter.state, step.failure), (State::Idle, Some(Failure::ConnectFailed)));
    assert!(meter.first_idle);
}

#[test]
fn meter_write_error_aborts_and_recovers_through_ping() {
    let cfg = cfg();
    let mut meter: StateMachine<u32> = StateMachine::new();
    meter.step(Event::Elapsed, &cfg);
    meter.step(pinged(), &cfg);
    meter.step(Event::Connected(ConnectAttempt::Connected(8)), &cfg);
    meter.step(window_read(), &cfg);
    assert_eq!(meter.state, State::Write);

    let step = meter.step(Event::Written(WriteReply::Failed), &cfg);
    assert_eq!(meter.state, State::Idle);
    assert_eq!((step.action, step.failure), (BACKOFF, Some(Failure::WriteFailed)));
    assert_eq!(meter.cycle.modbus_context, None);
    assert!(meter.first_idle);

    let step = meter.step(Event::Elapsed, &cfg);
    assert_eq!((meter.state, step.action), (State::Ping, Action::Ping));
}

#[test]
fn meter_probes_a_connection_it_still_has() {
    let cfg = cfg();
    let mut meter: StateMachine<u32> = StateMachine::new();
    meter.cycle.modbus_context = Some(8);
    meter.step(Event::Elapsed, &cfg);
    let step = meter.step(pinged(), &cfg);
    assert_eq!((meter.state, step.action), (State::Modbus, PROBE));

    let step = meter.step(Event::Probed(Probe::Replied(ReadReply::Registers(vec![0]))), &cfg);
    assert_eq!(meter.state, State::Read);
    assert!(matches!(step.action, Action::Read { .. }));
}

#[test]
fn meter_drops_a_connection_that_is_dead() {
    let cfg = cfg();
    let mut meter: StateMachine<u32> = StateMachine::new();
    meter.cycle.modbus_context = Some(8);
    meter.step(Event::Elapsed, &cfg);
    meter.step(pinged(), &cfg);
    let step = meter.step(Event::Probed(Probe::Replied(ReadReply::Failed)), &cfg);
    assert_eq!(meter.state, State::Idle);
    assert_eq!((step.action, step.failure), (BACKOFF, Some(Failure::LinkNotAlive)));
    assert_eq!(meter.cycle.modbus_context, None);
    assert!(meter.first_idle);
}

#[test]
fn meter_lock_timeout_keeps_the_connection() {
    let cfg = cfg();
    let mut meter: StateMachine<u32> = StateMachine::new();
    meter.cycle.modbus_context = Some(8);
    meter.step(Event::Elapsed, &cfg);
    meter.step(pinged(), &cfg);
    let step = meter.step(Event::Probed(Probe::LockTimedOut), &cfg);
    assert_eq!((meter.state, step.failure), (State::Idle, Some(Failure::LockTimeout)));
    assert_eq!(meter.cycle.modbus_context, Some(8));
    assert!(!meter.first_idle);
}

#[test]
fn meter_events_out_of_turn_lead_to_idle() {
    let cfg = cfg();
    let mut meter: StateMachine<u32> = StateMachine::new();
    meter.step(Event::Elapsed, &cfg);
    let step = meter.step(window_read(), &cfg);
    assert_eq!(meter.state, State::Idle);
    assert_eq!((step.action, step.failure), (BACKOFF, Some(Failure::OutOfSequence)));
}

#[test]
fn meter_handlers_can_be_called_directly() {
    let cfg = cfg();
    let mut meter: StateMachine<u32> = StateMachine::new();
    let step = handle_idle(&mut meter, Event::Elapsed, &cfg);
    assert_eq!((meter.state, step.action), (State::Ping, Action::Ping));
    let step = handle_ping(&mut meter, pinged());
    assert_eq!((meter.state, step.action), (State::Modbus, CONNECT));
    let step = handle_modbus(&mut meter, Event::Connected(ConnectAttempt::Connected(2)), &cfg);
    assert_eq!(meter.state, State::Read);
    assert!(matches!(step.action, Action::Read { .. }));
    let step = handle_read(&mut meter, window_read(), &cfg);
    assert_eq!(meter.state, State::Write);
    assert!(matches!(step.action, Action::Write { address: 20, .. }));
    let step = handle_write(&mut meter, Event::Written(WriteReply::Acknowledged), &cfg);
    assert_eq!((meter.state, step.action), (State::Verify, SETTLE));
    let step = handle_verify(&mut meter, Event::Elapsed);
    assert_eq!((meter.state, step.action), (State::Idle, BACKOFF));
}
