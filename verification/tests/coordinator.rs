use teleprompt::coordinator::{
    overall_timeout_secs, plan_poll, process_batch, Coordinator, Outcome, Phase, PollPlan,
};
use teleprompt::telegram::{Chat, Message, TelegramError, Update, User};

fn reply_update(update_id: i64, from_id: i64, chat_id: i64, text: &str) -> Update {
    Update {
        update_id,
        message: Some(Message {
            from: Some(User { id: from_id }),
            chat: Chat { id: chat_id },
            text: Some(text.to_string()),
        }),
    }
}

#[test]
fn scenario_first_poll_returns_matching_reply() {
    // Config {token "T", recipient 123, timeout 60}: drain finds nothing,
    // the prompt goes out, and the first poll already holds the reply.
    let mut run = Coordinator::new(123);
    assert!(matches!(run.phase, Phase::Draining { offset: 0 }));

    run.on_drain_batch(&vec![]);
    assert!(matches!(run.phase, Phase::Sending { cursor: 0 }));

    run.on_sent();
    assert!(matches!(run.phase, Phase::Polling { cursor: 0 }));

    let batch = vec![reply_update(5, 123, 123, "hi")];
    run.on_poll_batch(&batch);
    match &run.phase {
        Phase::Done { outcome: Outcome::Replied(text) } => assert_eq!(text, "hi"),
        other => panic!("expected a reply, got {other:?}"),
    }
}

#[test]
fn scenario_wrong_sender_is_ignored_but_cursor_advances() {
    // A message from user 999 is not the awaited reply, yet its sequence
    // number is consumed; the later matching message ends the run.
    let mut run = Coordinator::new(123);
    run.on_drain_batch(&vec![]);
    run.on_sent();

    let wrong = vec![reply_update(7, 999, 123, "not me")];
    run.on_poll_batch(&wrong);
    assert!(matches!(run.phase, Phase::Polling { cursor: 8 }));

    let matching = vec![reply_update(8, 123, 123, "the reply")];
    run.on_poll_batch(&matching);
    match &run.phase {
        Phase::Done { outcome: Outcome::Replied(text) } => assert_eq!(text, "the reply"),
        other => panic!("expected a reply, got {other:?}"),
    }
}

#[test]
fn scenario_zero_timeout_times_out_without_polling() {
    // timeout = 0 minutes: no poll pass is ever planned, the run is
    // immediately a timeout.
    assert_eq!(overall_timeout_secs(0), 0);
    assert!(plan_poll(0).is_none());

    let mut run = Coordinator::new(123);
    run.on_drain_batch(&vec![]);
    run.on_sent();
    run.on_deadline();
    assert!(matches!(run.phase, Phase::Done { outcome: Outcome::TimedOut }));
}

#[test]
fn scenario_send_failure_aborts_the_run() {
    // The remote refuses the send with code 403: the run fails at once.
    let mut run = Coordinator::new(123);
    run.on_drain_batch(&vec![]);
    let error = TelegramError::Protocol { code: 403, description: "bot was blocked".to_string() };
    run.on_error(error);
    match &run.phase {
        Phase::Done { outcome: Outcome::Failed(TelegramError::Protocol { code, description }) } => {
            assert_eq!(*code, 403);
            assert_eq!(description, "bot was blocked");
        }
        other => panic!("expected a failure, got {other:?}"),
    }
}

#[test]
fn draining_advances_past_stale_events_then_sends() {
    let mut run = Coordinator::new(123);
    let stale = vec![reply_update(1, 123, 123, "old"), reply_update(2, 123, 123, "older")];
    run.on_drain_batch(&stale);
    assert!(matches!(run.phase, Phase::Draining { offset: 3 }));
    run.on_drain_batch(&vec![]);
    assert!(matches!(run.phase, Phase::Sending { cursor: 3 }));
}

#[test]
fn process_batch_advances_cursor_to_max_seen_plus_one() {
    let batch = vec![
        Update { update_id: 5, message: None },
        Update { update_id: 7, message: None },
    ];
    let r = process_batch(3, &batch, 123);
    assert_eq!(r.cursor, 8);
    assert!(r.reply.is_none());

    let empty: Vec<Update> = vec![];
    let r = process_batch(3, &empty, 123);
    assert_eq!(r.cursor, 3);
    assert!(r.reply.is_none());
}

#[test]
fn process_batch_stops_at_first_match() {
    let batch = vec![
        reply_update(10, 999, 123, "wrong sender"),
        reply_update(11, 123, 123, "first match"),
        reply_update(12, 123, 123, "second match"),
    ];
    let r = process_batch(0, &batch, 123);
    assert_eq!(r.reply.as_deref(), Some("first match"));
    assert_eq!(r.cursor, 12);
}

#[test]
fn plan_poll_caps_long_poll_and_budget() {
    // Plenty of time left: 30 s of server wait, 35 s of budget.
    assert_eq!(
        plan_poll(3600),
        Some(PollPlan { long_poll_secs: 30, budget_secs: 35, budget_is_deadline: false })
    );
    // Little time left: the remaining time bounds both.
    assert_eq!(
        plan_poll(20),
        Some(PollPlan { long_poll_secs: 20, budget_secs: 20, budget_is_deadline: true })
    );
    // The budget may hit the deadline even with a full long-poll window.
    assert_eq!(
        plan_poll(33),
        Some(PollPlan { long_poll_secs: 30, budget_secs: 33, budget_is_deadline: true })
    );
    assert_eq!(
        plan_poll(36),
        Some(PollPlan { long_poll_secs: 30, budget_secs: 35, budget_is_deadline: false })
    );
}

#[test]
fn budget_expiry_at_deadline_is_timeout_otherwise_failure() {
    let mut run = Coordinator::new(123);
    run.on_drain_batch(&vec![]);
    run.on_sent();
    run.on_poll_budget_exceeded(true);
    assert!(matches!(run.phase, Phase::Done { outcome: Outcome::TimedOut }));

    let mut run = Coordinator::new(123);
    run.on_drain_batch(&vec![]);
    run.on_sent();
    run.on_poll_budget_exceeded(false);
    match &run.phase {
        Phase::Done { outcome: Outcome::Failed(TelegramError::Transport { message }) } => {
            assert_eq!(message, "telegram getUpdates timed out");
        }
        other => panic!("expected a transport failure, got {other:?}"),
    }
}

#[test]
fn overall_timeout_saturates() {
    assert_eq!(overall_timeout_secs(60), 3600);
    assert_eq!(overall_timeout_secs(u64::MAX), u64::MAX);
}
