use llm_stream::access::{AccessSlot, AccessOutcome};
use llm_stream::health;
use llm_stream::queue::{RecvOutcome, SendOutcome, UpdateQueue};
use llm_stream::relay::{Relay, RelayStep};
use llm_stream::update::CompletionUpdate;
use llm_stream::worker::{Feedback, Worker};

/// Runs one request against a simulated engine that produces `tokens` and then
/// fails with `failure`, if given. Returns the number of tokens the engine was
/// allowed to produce before it finished or was halted.
fn run_request(
    slot: &mut AccessSlot,
    q: &mut UpdateQueue,
    tokens: &[&str],
    failure: Option<&str>,
) -> usize {
    let ticket = slot.join().unwrap();
    let mut w = Worker::new(ticket);
    assert!(w.on_access(slot.try_acquire(ticket)).is_none());
    let mut produced = 0;
    let mut halted = false;
    for t in tokens {
        produced += 1;
        let u = w.on_token(t.to_string());
        match w.offer(q, u) {
            Feedback::Continue => {}
            Feedback::Retry(_) => panic!("queue unexpectedly full"),
            Feedback::Halt => {
                halted = true;
                break;
            }
        }
    }
    let result = if halted {
        Err("the user-specified callback returned an error".to_string())
    } else {
        match failure {
            Some(m) => Err(m.to_string()),
            None => Ok(()),
        }
    };
    if let Some(u) = w.on_engine_done(result) {
        let _ = q.try_send(u);
    }
    q.close_sender();
    slot.release(ticket);
    produced
}

/// Drains the queue through a relay, returning the frames as (delta, err).
fn drain(q: &mut UpdateQueue) -> Vec<(String, Option<String>)> {
    let mut relay = Relay::new();
    let mut frames = Vec::new();
    loop {
        match relay.pull(q) {
            RelayStep::Frame(u) => frames.push((u.delta, u.err)),
            RelayStep::Pending => panic!("stream stalled"),
            RelayStep::End => return frames,
        }
    }
}

#[test]
fn hello_scenario_streams_three_deltas_then_closes() {
    let mut slot = AccessSlot::new();
    let mut q = UpdateQueue::new(500);
    run_request(&mut slot, &mut q, &["Hi", " there", "!"], None);
    let frames = drain(&mut q);
    assert_eq!(
        frames,
        vec![
            ("Hi".to_string(), None),
            (" there".to_string(), None),
            ("!".to_string(), None),
        ]
    );
}

#[test]
fn engine_failure_gives_one_terminal_frame_and_gate_stays_usable() {
    let mut slot = AccessSlot::new();
    let mut q = UpdateQueue::new(500);
    run_request(&mut slot, &mut q, &["Hi"], Some("context window is full"));
    let frames = drain(&mut q);
    assert_eq!(
        frames,
        vec![
            ("Hi".to_string(), None),
            (String::new(), Some("context window is full".to_string())),
        ]
    );
    assert!(!slot.is_held());
    assert!(!slot.is_poisoned());
    let mut q2 = UpdateQueue::new(500);
    run_request(&mut slot, &mut q2, &["ok"], None);
    assert_eq!(drain(&mut q2), vec![("ok".to_string(), None)]);
}

#[test]
fn concurrent_requests_are_served_one_after_the_other() {
    let mut slot = AccessSlot::new();
    let a = slot.join().unwrap();
    let b = slot.join().unwrap();
    let mut wa = Worker::new(a);
    let mut wb = Worker::new(b);
    assert!(matches!(slot.try_acquire(b), AccessOutcome::Wait));
    assert!(wb.on_access(AccessOutcome::Wait).is_none());
    assert!(matches!(slot.try_acquire(a), AccessOutcome::Granted));
    assert!(wa.on_access(AccessOutcome::Granted).is_none());
    let mut qa = UpdateQueue::new(500);
    for t in ["a1", "a2", "a3", "a4"] {
        let u = wa.on_token(t.to_string());
        assert!(matches!(wa.offer(&mut qa, u), Feedback::Continue));
        assert!(matches!(slot.try_acquire(b), AccessOutcome::Wait));
    }
    assert!(wa.on_engine_done(Ok(())).is_none());
    qa.close_sender();
    slot.release(a);
    assert!(matches!(slot.try_acquire(b), AccessOutcome::Granted));
    assert!(wb.on_access(AccessOutcome::Granted).is_none());
    let mut qb = UpdateQueue::new(500);
    let u = wb.on_token("b1".to_string());
    assert!(matches!(wb.offer(&mut qb, u), Feedback::Continue));
    assert!(wb.on_engine_done(Ok(())).is_none());
    qb.close_sender();
    slot.release(b);
    let deltas: Vec<String> = drain(&mut qa).into_iter().map(|f| f.0).collect();
    assert_eq!(deltas, vec!["a1", "a2", "a3", "a4"]);
    assert_eq!(drain(&mut qb), vec![("b1".to_string(), None)]);
}

#[test]
fn health_answers_while_access_is_held() {
    let mut slot = AccessSlot::new();
    let t = slot.join().unwrap();
    assert!(matches!(slot.try_acquire(t), AccessOutcome::Granted));
    assert!(slot.is_held());
    assert_eq!(health(), "Service Ready to Accept Traffic!");
}

#[test]
fn joined_deltas_equal_engine_tokens() {
    let tokens = ["The", " quick", " brown", "", " fox", " é"];
    let mut slot = AccessSlot::new();
    let mut q = UpdateQueue::new(500);
    run_request(&mut slot, &mut q, &tokens, None);
    let text: String = drain(&mut q).into_iter().map(|f| f.0).collect();
    assert_eq!(text, tokens.concat());
}

#[test]
fn disconnect_halts_at_next_token_and_releases() {
    let mut slot = AccessSlot::new();
    let mut q = UpdateQueue::new(500);
    q.close_receiver();
    let produced = run_request(&mut slot, &mut q, &["x", "y", "z", "w"], None);
    assert_eq!(produced, 1);
    assert!(!slot.is_held());
    assert_eq!(q.len(), 0);
}

#[test]
fn halted_run_sends_no_error_frame() {
    let mut w = Worker::new(0);
    assert!(w.on_access(AccessOutcome::Granted).is_none());
    let mut q = UpdateQueue::new(4);
    q.close_receiver();
    let u = w.on_token("t".to_string());
    assert!(matches!(w.offer(&mut q, u), Feedback::Halt));
    assert!(w.on_engine_done(Err("callback stopped".to_string())).is_none());
    assert!(w.is_finished());
}

#[test]
fn full_queue_hands_update_back_without_change() {
    let mut q = UpdateQueue::new(2);
    assert!(matches!(q.try_send(CompletionUpdate::token("a".to_string())), SendOutcome::Sent));
    assert!(matches!(q.try_send(CompletionUpdate::token("b".to_string())), SendOutcome::Sent));
    match q.try_send(CompletionUpdate::token("c".to_string())) {
        SendOutcome::Full(u) => assert_eq!(u.delta, "c"),
        _ => panic!("expected a full queue"),
    }
    assert_eq!(q.len(), 2);
    match q.try_recv() {
        RecvOutcome::Item(u) => assert_eq!(u.delta, "a"),
        _ => panic!("expected an item"),
    }
    assert!(matches!(q.try_send(CompletionUpdate::token("c".to_string())), SendOutcome::Sent));
    let deltas: Vec<String> = drain(&mut q_closed(q)).into_iter().map(|f| f.0).collect();
    assert_eq!(deltas, vec!["b", "c"]);
}

fn q_closed(mut q: UpdateQueue) -> UpdateQueue {
    q.close_sender();
    q
}

#[test]
fn worker_retries_on_full_queue() {
    let mut w = Worker::new(3);
    assert!(w.on_access(AccessOutcome::Granted).is_none());
    let mut q = UpdateQueue::new(1);
    let u = w.on_token("one".to_string());
    assert!(matches!(w.offer(&mut q, u), Feedback::Continue));
    let u = w.on_token("two".to_string());
    let back = match w.offer(&mut q, u) {
        Feedback::Retry(u) => u,
        _ => panic!("expected a retry"),
    };
    assert_eq!(back.delta, "two");
    assert!(matches!(q.try_recv(), RecvOutcome::Item(_)));
    assert!(matches!(w.offer(&mut q, back), Feedback::Continue));
    match q.try_recv() {
        RecvOutcome::Item(u) => assert_eq!(u.delta, "two"),
        _ => panic!("expected an item"),
    }
}

#[test]
fn empty_queue_is_empty_then_closed() {
    let mut q = UpdateQueue::new(1);
    assert_eq!(q.capacity(), 1);
    assert!(matches!(q.try_recv(), RecvOutcome::Empty));
    q.close_sender();
    assert!(!q.sender_open());
    assert!(matches!(q.try_recv(), RecvOutcome::Closed));
}

#[test]
fn disconnected_send_returns_update() {
    let mut q = UpdateQueue::new(3);
    q.close_receiver();
    assert!(!q.receiver_open());
    match q.try_send(CompletionUpdate::token("z".to_string())) {
        SendOutcome::Disconnected(u) => assert_eq!(u.delta, "z"),
        _ => panic!("expected a disconnected queue"),
    }
}

#[test]
fn poisoned_gate_fails_fast() {
    let mut slot = AccessSlot::new();
    let a = slot.join().unwrap();
    let b = slot.join().unwrap();
    assert!(matches!(slot.try_acquire(a), AccessOutcome::Granted));
    slot.poison(a);
    assert!(slot.is_poisoned());
    assert!(!slot.is_held());
    let o = slot.try_acquire(b);
    assert!(matches!(o, AccessOutcome::Poisoned));
    let mut w = Worker::new(b);
    let u = w.on_access(o).unwrap();
    assert_eq!(u.delta, "");
    assert_eq!(
        u.err,
        Some("model unavailable: an earlier generation ended abnormally".to_string())
    );
    assert!(w.is_finished());
}

#[test]
fn tickets_are_sequential_and_served_in_order() {
    let mut slot = AccessSlot::new();
    let a = slot.join().unwrap();
    let b = slot.join().unwrap();
    assert_eq!((a, b), (0, 1));
    assert!(matches!(slot.try_acquire(b), AccessOutcome::Wait));
    assert!(matches!(slot.try_acquire(a), AccessOutcome::Granted));
    let w = Worker::new(a);
    assert_eq!(w.ticket(), 0);
}

#[test]
fn relay_ends_after_terminal_frame() {
    let mut relay = Relay::new();
    let step = relay.next(RecvOutcome::Item(CompletionUpdate::failure("boom".to_string())));
    match step {
        RelayStep::Frame(u) => {
            assert!(u.is_terminal());
            assert_eq!(u.err, Some("boom".to_string()));
        }
        _ => panic!("expected a frame"),
    }
    assert!(relay.is_ended());
    let later = relay.next(RecvOutcome::Item(CompletionUpdate::token("late".to_string())));
    assert!(matches!(later, RelayStep::End));
}

#[test]
fn relay_waits_on_empty_queue() {
    let mut relay = Relay::new();
    assert!(matches!(relay.next(RecvOutcome::Empty), RelayStep::Pending));
    assert!(!relay.is_ended());
    assert!(matches!(relay.next(RecvOutcome::Closed), RelayStep::End));
}

#[test]
fn token_update_is_not_terminal() {
    let u = CompletionUpdate::token("abc".to_string());
    assert!(!u.is_terminal());
    assert_eq!(u.delta, "abc");
    assert_eq!(u.err, None);
}

#[test]
fn ended_relay_leaves_queue_alone() {
    let mut q = UpdateQueue::new(4);
    assert!(matches!(q.try_send(CompletionUpdate::failure("stop".to_string())), SendOutcome::Sent));
    assert!(matches!(q.try_send(CompletionUpdate::token("after".to_string())), SendOutcome::Sent));
    let mut relay = Relay::new();
    assert!(matches!(relay.pull(&mut q), RelayStep::Frame(_)));
    assert!(relay.is_ended());
    assert!(matches!(relay.pull(&mut q), RelayStep::End));
    assert_eq!(q.len(), 1);
}
