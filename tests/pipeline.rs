use basepure::channel::{Broadcast, Recv, SendError};
use basepure::engine::{Component, Supervisor, EngineError, Phase, Task};
use basepure::tasks::{
    adapt_event, route_action, SubmitHandle, CollectorTask, ExecutorTask, Next, StrategyTask,
};

#[derive(Clone, Debug, PartialEq)]
enum Event {
    E1,
    E2,
}

#[derive(Clone, Debug, PartialEq)]
enum Action {
    A1,
    A2(u64),
}

fn task(component: Component, index: usize) -> Task {
    Task { component, index }
}

fn only_a1(a: &Action) -> Option<&'static str> {
    match a {
        Action::A1 => Some("a1"),
        _ => None,
    }
}

#[test]
fn one_collector_one_strategy_one_executor() {
    let mut engine = Supervisor::new();
    assert_eq!(engine.add_collector(), Ok(0));
    assert_eq!(engine.add_strategy(), Ok(0));
    assert_eq!(engine.add_executor(), Ok(0));
    let step = engine.start().unwrap();
    assert!(!step.close_events && !step.close_actions && !step.stopped);
    assert_eq!(engine.current_phase(), Phase::Running);

    let mut events: Broadcast<Event> = Broadcast::new(1, 4);
    let mut actions: Broadcast<Action> = Broadcast::new(1, 4);

    let collector = CollectorTask { index: 0 };
    let identity = |e: Event| e;
    assert!(collector.forward(&mut events, &identity, Event::E1).is_ok());
    assert!(collector.forward(&mut events, &identity, Event::E2).is_ok());
    let step = engine.task_ended(task(Component::Collector, 0), None).unwrap();
    assert!(step.close_events && !step.close_actions && !step.stopped);
    assert_eq!(engine.current_phase(), Phase::Draining);
    events.close();

    let strategy = StrategyTask { index: 0 };
    let submitter = SubmitHandle { index: 0 };
    let mut seen = Vec::new();
    loop {
        match strategy.next_event(&mut events) {
            Next::Handle(e) => {
                if e == Event::E1 {
                    assert!(submitter.submit(&mut actions, Action::A1).is_ok());
                }
                seen.push(e);
            }
            Next::Wait => panic!("the event channel is closed"),
            Next::Finish => break,
        }
    }
    assert_eq!(seen, vec![Event::E1, Event::E2]);
    let step = engine.task_ended(task(Component::Strategy, 0), None).unwrap();
    assert!(!step.close_events && step.close_actions && !step.stopped);
    actions.close();

    let executor = ExecutorTask { index: 0 };
    let mut executed = Vec::new();
    loop {
        match executor.next_action(&mut actions, &only_a1) {
            Next::Handle(t) => executed.push(t),
            Next::Wait => panic!("the action channel is closed"),
            Next::Finish => break,
        }
    }
    assert_eq!(executed, vec!["a1"]);
    let step = engine.task_ended(task(Component::Executor, 0), None).unwrap();
    assert!(step.stopped);
    assert_eq!(engine.current_phase(), Phase::Stopped);
    assert!(matches!(engine.outcome(), Some(Ok(()))));
}

#[test]
fn startup_failure_of_one_collector_is_reported_after_the_other_path_completes() {
    let mut engine = Supervisor::new();
    engine.add_collector().unwrap();
    engine.add_collector().unwrap();
    engine.add_strategy().unwrap();
    engine.start().unwrap();
    let mut events: Broadcast<Event> = Broadcast::new(1, 4);

    // the second collector could not establish its source
    let step = engine
        .task_ended(task(Component::Collector, 1), Some("connection refused".to_string()))
        .unwrap();
    assert!(!step.close_events);
    assert!(engine.collecting());

    let first = CollectorTask { index: 0 };
    assert!(first.forward(&mut events, &|e: Event| e, Event::E1).is_ok());
    let step = engine.task_ended(task(Component::Collector, 0), None).unwrap();
    assert!(step.close_events);
    events.close();

    let strategy = StrategyTask { index: 0 };
    assert!(matches!(strategy.next_event(&mut events), Next::Handle(Event::E1)));
    assert!(matches!(strategy.next_event(&mut events), Next::Finish));
    assert!(engine.outcome().is_none());
    let step = engine.task_ended(task(Component::Strategy, 0), None).unwrap();
    assert!(step.close_actions && step.stopped);

    match engine.outcome() {
        Some(Err(f)) => {
            assert_eq!(f.task, task(Component::Collector, 1));
            assert_eq!(f.message, "connection refused");
        }
        _ => panic!("the startup failure must be surfaced"),
    }
}

#[test]
fn registration_after_start_is_rejected() {
    let mut engine = Supervisor::new();
    engine.add_collector().unwrap();
    engine.start().unwrap();
    assert_eq!(engine.add_collector(), Err(EngineError::AlreadyStarted));
    assert_eq!(engine.add_strategy(), Err(EngineError::AlreadyStarted));
    assert_eq!(engine.add_executor(), Err(EngineError::AlreadyStarted));
    assert_eq!(engine.start().unwrap_err(), EngineError::AlreadyStarted);
}

#[test]
fn task_end_errors() {
    let mut engine = Supervisor::new();
    engine.add_collector().unwrap();
    assert_eq!(
        engine.task_ended(task(Component::Collector, 0), None).unwrap_err(),
        EngineError::NotRunning
    );
    engine.add_strategy().unwrap();
    engine.start().unwrap();
    assert_eq!(
        engine.task_ended(task(Component::Executor, 0), None).unwrap_err(),
        EngineError::UnknownTask
    );
    engine.task_ended(task(Component::Strategy, 0), None).unwrap();
    assert_eq!(
        engine.task_ended(task(Component::Strategy, 0), None).unwrap_err(),
        EngineError::AlreadyEnded
    );
}

#[test]
fn only_the_first_failure_is_kept() {
    let mut engine = Supervisor::new();
    engine.add_collector().unwrap();
    engine.add_collector().unwrap();
    engine.start().unwrap();
    engine.task_ended(task(Component::Collector, 1), Some("first".to_string())).unwrap();
    let step = engine.task_ended(task(Component::Collector, 0), Some("second".to_string())).unwrap();
    assert!(step.close_events && step.close_actions && step.stopped);
    match engine.outcome() {
        Some(Err(f)) => assert_eq!(f.message, "first"),
        _ => panic!("expected a failure"),
    }
}

#[test]
fn an_empty_engine_stops_at_once() {
    let mut engine = Supervisor::new();
    let step = engine.start().unwrap();
    assert!(step.close_events && step.close_actions && step.stopped);
    assert!(matches!(engine.outcome(), Some(Ok(()))));
}

#[test]
fn shutdown_stops_collecting() {
    let mut engine = Supervisor::new();
    engine.add_collector().unwrap();
    assert!(!engine.collecting());
    engine.start().unwrap();
    assert!(engine.collecting());
    engine.request_shutdown();
    assert!(!engine.collecting());
    let step = engine.task_ended(task(Component::Collector, 0), None).unwrap();
    assert!(step.stopped);
}

#[test]
fn two_executors_both_receive_every_matching_action() {
    let mut actions: Broadcast<Action> = Broadcast::new(2, 8);
    let submitter = SubmitHandle { index: 0 };
    for a in [Action::A1, Action::A2(7), Action::A1] {
        assert!(submitter.submit(&mut actions, a).is_ok());
    }
    actions.close();
    for index in 0..2 {
        let executor = ExecutorTask { index };
        let mut got = Vec::new();
        while let Next::Handle(t) = executor.next_action(&mut actions, &only_a1) {
            got.push(t);
        }
        assert_eq!(got, vec!["a1", "a1"]);
    }
}

#[test]
fn an_unmatched_action_has_no_effect() {
    let mut actions: Broadcast<Action> = Broadcast::new(1, 8);
    let submitter = SubmitHandle { index: 0 };
    assert!(submitter.submit(&mut actions, Action::A2(1)).is_ok());
    let executor = ExecutorTask { index: 0 };
    assert!(matches!(executor.next_action(&mut actions, &only_a1), Next::Wait));
    actions.close();
    assert!(matches!(executor.next_action(&mut actions, &only_a1), Next::Finish));
}

#[test]
fn a_failing_execution_does_not_stop_the_executor() {
    let mut actions: Broadcast<Action> = Broadcast::new(1, 8);
    let submitter = SubmitHandle { index: 0 };
    for n in [1u64, 2, 3] {
        assert!(submitter.submit(&mut actions, Action::A2(n)).is_ok());
    }
    actions.close();
    let executor = ExecutorTask { index: 0 };
    let numbers = |a: &Action| match a {
        Action::A2(n) => Some(*n),
        _ => None,
    };
    let mut outcomes: Vec<Result<u64, String>> = Vec::new();
    while let Next::Handle(n) = executor.next_action(&mut actions, &numbers) {
        // the first one fails; the task goes on with the next
        outcomes.push(if n == 1 { Err("boom".to_string()) } else { Ok(n) });
    }
    assert_eq!(outcomes, vec![Err("boom".to_string()), Ok(2), Ok(3)]);
}

#[test]
fn adapters_map_and_filter() {
    assert_eq!(adapt_event(&|n: u64| Action::A2(n + 1), 4), Action::A2(5));
    assert_eq!(route_action(&only_a1, &Action::A1), Some("a1"));
    assert_eq!(route_action(&only_a1, &Action::A2(3)), None);
}

#[test]
fn collectors_interleave_but_keep_their_own_order() {
    let mut events: Broadcast<u64> = Broadcast::new(2, 16);
    let (a, b) = (CollectorTask { index: 0 }, CollectorTask { index: 1 });
    let id = |n: u64| n;
    for (c, n) in [(&a, 10u64), (&b, 20), (&a, 11), (&b, 21), (&a, 12)] {
        assert!(c.forward(&mut events, &id, n).is_ok());
    }
    events.close();
    for k in 0..2 {
        let mut got = Vec::new();
        while let Recv::Item(n) = events.recv(k) {
            got.push(n);
        }
        let from_a: Vec<u64> = got.iter().copied().filter(|n| *n < 20).collect();
        let from_b: Vec<u64> = got.iter().copied().filter(|n| *n >= 20).collect();
        assert_eq!(from_a, vec![10, 11, 12]);
        assert_eq!(from_b, vec![20, 21]);
        assert_eq!(got.len(), 5);
    }
}

#[test]
fn a_full_channel_hands_the_item_back() {
    let mut ch: Broadcast<u64> = Broadcast::new(2, 2);
    assert!(ch.send(0, 1).is_ok());
    assert!(ch.send(0, 2).is_ok());
    assert!(matches!(ch.send(0, 3), Err(SendError::Full(3))));
    // one reader catching up is not enough: the other is still two behind
    assert!(matches!(ch.recv(0), Recv::Item(1)));
    assert!(matches!(ch.send(0, 3), Err(SendError::Full(3))));
    assert!(matches!(ch.recv(1), Recv::Item(1)));
    assert!(ch.send(0, 3).is_ok());
    ch.close();
    assert!(matches!(ch.send(0, 4), Err(SendError::Closed(4))));
    assert!(matches!(ch.recv(1), Recv::Item(2)));
    assert!(matches!(ch.recv(1), Recv::Item(3)));
    assert!(matches!(ch.recv(1), Recv::Closed));
    assert!(!ch.caught_up(0));
    assert!(matches!(ch.recv(0), Recv::Item(2)));
    assert!(matches!(ch.recv(0), Recv::Item(3)));
    assert!(ch.caught_up(0));
    assert!(matches!(ch.recv(0), Recv::Closed));
}

#[test]
fn an_open_channel_with_nothing_to_read_is_empty() {
    let mut ch: Broadcast<u64> = Broadcast::new(1, 1);
    assert!(matches!(ch.recv(0), Recv::Empty));
    assert_eq!(ch.subscriber_count(), 1);
    assert!(!ch.closed());
}

#[test]
fn a_channel_without_subscribers_takes_everything() {
    let mut ch: Broadcast<u64> = Broadcast::new(0, 1);
    for n in 0..10u64 {
        assert!(ch.send(0, n).is_ok());
    }
}
