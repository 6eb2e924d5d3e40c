use std::cell::RefCell;

use wam_message_gatling::dispatch::{dispatch, Action, Dispatcher, RecordError};
use wam_message_gatling::generator::generate;
use wam_message_gatling::message::Message;
use wam_message_gatling::outcome::{DeliveryError, DeliveryOutcome};

fn step_names(count: i32, delay: u64, calls: usize) -> Vec<String> {
    let mut engine = Dispatcher::new(generate(count), delay);
    let mut names = Vec::new();
    for _ in 0..calls {
        names.push(match engine.next_action() {
            Action::Dispatch { slot, message } => {
                assert_eq!(message.id, slot as i32);
                format!("dispatch {}", slot)
            }
            Action::Wait { millis } => format!("wait {}", millis),
            Action::Join => "join".to_string(),
        });
    }
    names
}

#[test]
fn test_plan_without_pacing_dispatches_back_to_back() {
    assert_eq!(
        step_names(3, 0, 4),
        vec!["dispatch 0", "dispatch 1", "dispatch 2", "join"]
    );
}

#[test]
fn test_plan_with_pacing_waits_between_dispatches_only() {
    assert_eq!(
        step_names(3, 250, 6),
        vec!["dispatch 0", "wait 250", "dispatch 1", "wait 250", "dispatch 2", "join"]
    );
}

#[test]
fn test_plan_of_one_message_has_no_wait() {
    assert_eq!(step_names(1, 333, 2), vec!["dispatch 0", "join"]);
}

#[test]
fn test_plan_of_an_empty_batch_joins_at_once() {
    assert_eq!(step_names(0, 0, 1), vec!["join"]);
    assert_eq!(step_names(0, 250, 1), vec!["join"]);
}

#[test]
fn test_plan_stays_at_join() {
    assert_eq!(
        step_names(2, 10, 6),
        vec!["dispatch 0", "wait 10", "dispatch 1", "join", "join", "join"]
    );
}

#[test]
fn test_dispatch_hands_out_the_message_of_the_slot() {
    let messages = vec![
        Message { id: 40, text: "a".to_string(), user_id: 1 },
        Message { id: 7, text: "b".to_string(), user_id: 2 },
    ];
    let mut engine = Dispatcher::new(messages.clone(), 0);
    assert_eq!(engine.size(), 2);
    assert_eq!(
        engine.next_action(),
        Action::Dispatch { slot: 0, message: messages[0].clone() }
    );
    assert_eq!(
        engine.next_action(),
        Action::Dispatch { slot: 1, message: messages[1].clone() }
    );
    assert_eq!(engine.next_action(), Action::Join);
}

#[test]
fn test_record_refuses_what_was_not_dispatched() {
    let mut engine = Dispatcher::new(generate(2), 0);
    assert_eq!(
        engine.record(0, DeliveryOutcome::Success),
        Err(RecordError::NotDispatched)
    );
    let _ = engine.next_action();
    assert_eq!(engine.record(0, DeliveryOutcome::Success), Ok(()));
    assert_eq!(
        engine.record(1, DeliveryOutcome::Success),
        Err(RecordError::NotDispatched)
    );
    assert_eq!(
        engine.record(2, DeliveryOutcome::Success),
        Err(RecordError::NotDispatched)
    );
    assert_eq!(
        engine.record(usize::MAX, DeliveryOutcome::Success),
        Err(RecordError::NotDispatched)
    );
}

#[test]
fn test_record_refuses_a_second_outcome() {
    let mut engine = Dispatcher::new(generate(1), 0);
    let _ = engine.next_action();
    assert_eq!(
        engine.record(0, DeliveryOutcome::Failure(DeliveryError::Status(500))),
        Ok(())
    );
    assert_eq!(
        engine.record(0, DeliveryOutcome::Success),
        Err(RecordError::AlreadyRecorded)
    );
    let result = engine.finish().unwrap();
    assert_eq!(
        result.entries[0].outcome,
        DeliveryOutcome::Failure(DeliveryError::Status(500))
    );
}

#[test]
fn test_finish_needs_every_outcome() {
    let mut engine = Dispatcher::new(generate(2), 0);
    assert!(!engine.is_complete());
    let _ = engine.next_action();
    let _ = engine.next_action();
    assert_eq!(engine.record(1, DeliveryOutcome::Success), Ok(()));
    assert!(!engine.is_complete());
    assert_eq!(engine.finish(), None);
}

#[test]
fn test_finish_of_an_empty_batch() {
    let engine = Dispatcher::new(Vec::new(), 250);
    assert!(engine.is_complete());
    let result = engine.finish().unwrap();
    assert!(result.entries.is_empty());
}

#[test]
fn test_outcomes_recorded_out_of_order_come_out_in_dispatch_order() {
    let messages = vec![
        Message { id: 30, text: "x".to_string(), user_id: 1 },
        Message { id: 10, text: "y".to_string(), user_id: 1 },
        Message { id: 20, text: "z".to_string(), user_id: 1 },
    ];
    let mut engine = Dispatcher::new(messages, 5);
    while engine.next_action() != Action::Join {}
    assert_eq!(
        engine.record(2, DeliveryOutcome::Failure(DeliveryError::Transport("down".to_string()))),
        Ok(())
    );
    assert_eq!(engine.record(0, DeliveryOutcome::Success), Ok(()));
    assert_eq!(
        engine.record(1, DeliveryOutcome::Failure(DeliveryError::Status(404))),
        Ok(())
    );
    assert!(engine.is_complete());
    let result = engine.finish().unwrap();
    let ids: Vec<i32> = result.entries.iter().map(|entry| entry.id).collect();
    assert_eq!(ids, vec![30, 10, 20]);
    assert_eq!(result.entries[0].outcome, DeliveryOutcome::Success);
    assert_eq!(
        result.entries[1].outcome,
        DeliveryOutcome::Failure(DeliveryError::Status(404))
    );
    assert_eq!(
        result.entries[2].outcome,
        DeliveryOutcome::Failure(DeliveryError::Transport("down".to_string()))
    );
}

#[test]
fn test_dispatch_calls_sink_and_wait_in_plan_order() {
    let trace: RefCell<Vec<String>> = RefCell::new(Vec::new());
    let sink = |message: &Message| {
        trace.borrow_mut().push(format!("deliver {}", message.id));
        DeliveryOutcome::Success
    };
    let wait = |millis: u64| trace.borrow_mut().push(format!("wait {}", millis));
    let result = dispatch(generate(3), 125, sink, wait);
    assert_eq!(result.len(), 3);
    assert_eq!(
        *trace.borrow(),
        vec!["deliver 0", "wait 125", "deliver 1", "wait 125", "deliver 2"]
    );
}

#[test]
fn test_dispatch_never_waits_without_a_delay() {
    let waits: RefCell<usize> = RefCell::new(0);
    let result = dispatch(
        generate(4),
        0,
        |_message: &Message| DeliveryOutcome::Success,
        |_millis: u64| *waits.borrow_mut() += 1,
    );
    assert_eq!(result.len(), 4);
    assert_eq!(*waits.borrow(), 0);
}

#[test]
fn test_dispatch_keeps_going_after_a_failure() {
    let delivered: RefCell<Vec<i32>> = RefCell::new(Vec::new());
    let sink = |message: &Message| {
        delivered.borrow_mut().push(message.id);
        if message.id == 0 {
            DeliveryOutcome::Failure(DeliveryError::Transport("unreachable".to_string()))
        } else {
            DeliveryOutcome::Success
        }
    };
    let result = dispatch(generate(3), 0, sink, |_millis: u64| {});
    assert_eq!(*delivered.borrow(), vec![0, 1, 2]);
    assert!(result.entries[0].outcome.is_failure());
    assert!(result.entries[1].outcome.is_success());
    assert!(result.entries[2].outcome.is_success());
}
