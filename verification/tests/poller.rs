use mgw_generic::codec::{RegisterDescriptor, RegisterKind, RegisterPlan};
use mgw_generic::config::Snapshot;
use mgw_generic::link::{
    Acquire, Action, ConnectAttempt, Event, Failure, PingReport, ReadReply, WriteReply,
};
use mgw_generic::poller::{handle_idle, handle_read, State, StateMachine};

const BACKOFF: Action = Action::Wait { seconds: 5 };

fn register(name: &str, address: u16) -> RegisterDescriptor {
    RegisterDescriptor { name: name.to_string(), address, kind: RegisterKind::Read, value: None }
}

fn config(read_registers: Vec<RegisterDescriptor>) -> Snapshot {
    Snapshot { read_registers, write_registers: Vec::new() }
}

fn a_and_b() -> Snapshot {
    config(vec![register("A", 10), register("B", 12)])
}

fn poller_holding_link(cfg: &Snapshot) -> StateMachine {
    let mut poller = StateMachine::new();
    poller.step::<u32>(Event::Elapsed, cfg);
    poller.step::<u32>(Event::Link(Acquire::ExclusiveSession), cfg);
    poller
}

#[test]
fn poller_starts_idle_and_free() {
    let poller = StateMachine::new();
    assert_eq!(
        poller,
        StateMachine { state: State::Idle, first_idle: true, session_held: false, pending: None }
    );
    assert_eq!(poller.start(), BACKOFF);
}

#[test]
fn poller_reads_and_decodes_a_and_b() {
    let cfg = a_and_b();
    let mut poller = StateMachine::new();

    let step = poller.step::<u32>(Event::Elapsed, &cfg);
    assert_eq!(poller.state, State::Read);
    assert!(!poller.first_idle);
    assert_eq!((step.action, step.failure), (Action::Acquire { timeout: 5 }, None));

    let step = poller.step::<u32>(Event::Link(Acquire::ExclusiveSession), &cfg);
    let window = RegisterPlan { start_address: 10, quantity: 4 };
    assert_eq!(poller.state, State::Read);
    assert!(poller.session_held);
    assert_eq!(poller.pending, Some(window));
    assert_eq!((step.action, step.failure), (Action::Read { plan: window }, None));

    let reply = ReadReply::Registers(vec![0x3F80, 0x0000, 0x4000, 0x0000]);
    let step = poller.step::<u32>(Event::Read(reply), &cfg);
    assert_eq!(poller.state, State::Idle);
    assert!(!poller.session_held);
    assert_eq!(poller.pending, None);
    assert_eq!((step.action, step.failure), (BACKOFF, None));
    assert_eq!(step.readings.len(), 2);
    assert_eq!(step.readings[0].name, "A");
    assert_eq!(f32::from_bits(step.readings[0].bits), 1.0);
    assert_eq!(step.readings[1].name, "B");
    assert_eq!(f32::from_bits(step.readings[1].bits), 2.0);
}

#[test]
fn poller_tells_unavailable_from_timed_out() {
    let cfg = a_and_b();
    let mut poller = StateMachine::new();
    poller.step::<u32>(Event::Elapsed, &cfg);
    let step = poller.step::<u32>(Event::Link(Acquire::Unavailable), &cfg);
    assert_eq!(poller.state, State::Idle);
    assert_eq!((step.action, step.failure), (BACKOFF, Some(Failure::LinkUnavailable)));
    assert!(!poller.session_held);

    poller.step::<u32>(Event::Elapsed, &cfg);
    let step = poller.step::<u32>(Event::Link(Acquire::TimedOut), &cfg);
    assert_eq!(poller.state, State::Idle);
    assert_eq!((step.action, step.failure), (BACKOFF, Some(Failure::LockTimeout)));
    assert!(!poller.session_held);
}

#[test]
fn poller_without_registers_gives_the_link_back() {
    let cfg = config(Vec::new());
    let mut poller = StateMachine::new();
    poller.step::<u32>(Event::Elapsed, &cfg);
    let step = poller.step::<u32>(Event::Link(Acquire::ExclusiveSession), &cfg);
    assert_eq!(poller.state, State::Idle);
    assert_eq!((step.action, step.failure), (BACKOFF, Some(Failure::NoRegistersConfigured)));
    assert!(!poller.session_held);
    assert_eq!(poller.pending, None);
}

#[test]
fn poller_refuses_a_window_that_is_too_wide() {
    let cfg = config(vec![register("lo", 0), register("hi", 65_535)]);
    let mut poller = StateMachine::new();
    poller.step::<u32>(Event::Elapsed, &cfg);
    let step = poller.step::<u32>(Event::Link(Acquire::ExclusiveSession), &cfg);
    assert_eq!(poller.state, State::Idle);
    assert_eq!(step.failure, Some(Failure::AddressOutOfPlanRange));
    assert!(!poller.session_held);
}

#[test]
fn poller_failed_read_ends_the_cycle() {
    let cfg = a_and_b();
    let mut poller = poller_holding_link(&cfg);
    let step = poller.step::<u32>(Event::Read(ReadReply::Failed), &cfg);
    assert_eq!(poller.state, State::Idle);
    assert_eq!((step.action, step.failure), (BACKOFF, Some(Failure::ReadFailed)));
    assert!(step.readings.is_empty());
    assert!(!poller.session_held);
    assert_eq!(poller.pending, None);
}

#[test]
fn poller_short_reply_is_out_of_plan_range() {
    let cfg = a_and_b();
    let mut poller = poller_holding_link(&cfg);
    let step = poller.step::<u32>(Event::Read(ReadReply::Registers(vec![0x3F80, 0])), &cfg);
    assert_eq!(poller.state, State::Idle);
    assert_eq!(step.failure, Some(Failure::AddressOutOfPlanRange));
    assert!(step.readings.is_empty());
    assert!(!poller.session_held);
}

#[test]
fn poller_decodes_against_the_window_it_asked_for() {
    let asked = a_and_b();
    let mut poller = poller_holding_link(&asked);
    let reloaded = config(vec![register("A", 10), register("moved", 40)]);
    let reply = ReadReply::Registers(vec![0x3F80, 0x0000, 0x4000, 0x0000]);
    let step = poller.step::<u32>(Event::Read(reply), &reloaded);
    assert_eq!(poller.state, State::Idle);
    assert_eq!(step.failure, Some(Failure::AddressOutOfPlanRange));
    assert!(step.readings.is_empty());
}

#[test]
fn poller_reply_without_a_pending_read_is_out_of_turn() {
    let cfg = a_and_b();
    let mut poller = StateMachine::new();
    poller.step::<u32>(Event::Elapsed, &cfg);
    let step = poller.step::<u32>(Event::Read(ReadReply::Registers(vec![1, 2, 3, 4])), &cfg);
    assert_eq!(poller.state, State::Idle);
    assert_eq!(step.failure, Some(Failure::OutOfSequence));
    assert!(step.readings.is_empty());
}

#[test]
fn poller_events_out_of_turn_release_the_link() {
    let cfg = a_and_b();
    let events: Vec<Event<u32>> = vec![
        Event::Elapsed,
        Event::Pinged(PingReport::Exited { success: true }),
        Event::Connected(ConnectAttempt::Connected(1)),
        Event::Written(WriteReply::Acknowledged),
    ];
    for event in events {
        let mut poller = poller_holding_link(&cfg);
        assert!(poller.session_held);
        let step = poller.step(event, &cfg);
        assert_eq!(poller.state, State::Idle);
        assert_eq!((step.action, step.failure), (BACKOFF, Some(Failure::OutOfSequence)));
        assert!(!poller.session_held);
        assert_eq!(poller.pending, None);
    }
}

#[test]
fn poller_never_waits_while_it_holds_the_link() {
    let cfg = a_and_b();
    let script: Vec<Event<u32>> = vec![
        Event::Elapsed,
        Event::Link(Acquire::ExclusiveSession),
        Event::Read(ReadReply::Failed),
        Event::Elapsed,
        Event::Link(Acquire::TimedOut),
        Event::Elapsed,
        Event::Link(Acquire::ExclusiveSession),
        Event::Read(ReadReply::Registers(vec![1, 2, 3, 4])),
        Event::Read(ReadReply::Registers(vec![1, 2, 3, 4])),
        Event::Elapsed,
        Event::Elapsed,
    ];
    let mut poller = StateMachine::new();
    for event in script {
        let step = poller.step(event, &cfg);
        if matches!(step.action, Action::Wait { .. }) {
            assert!(!poller.session_held);
        }
        if poller.state == State::Idle {
            assert!(!poller.session_held);
            assert_eq!(poller.pending, None);
        }
    }
}

#[test]
fn poller_handlers_can_be_called_directly() {
    let cfg = a_and_b();
    let mut poller = StateMachine::new();
    let step = handle_idle::<u32>(&mut poller, Event::Elapsed);
    assert_eq!((poller.state, step.action), (State::Read, Action::Acquire { timeout: 5 }));
    let step = handle_read::<u32>(&mut poller, Event::Link(Acquire::ExclusiveSession), &cfg);
    assert_eq!(step.action, Action::Read { plan: RegisterPlan { start_address: 10, quantity: 4 } });
    let step = handle_idle::<u32>(&mut poller, Event::Read(ReadReply::Failed));
    assert_eq!((poller.state, step.failure), (State::Idle, Some(Failure::OutOfSequence)));
    assert!(!poller.session_held);
}
