use session_core::protocol::ContentItem;
use session_core::protocol::InterAgentCommunication;
use session_core::protocol::ResponseItem;
use session_core::protocol::TaskKind;
use session_core::protocol::UserInput;
use session_core::session::input_queue::accept_mailbox_delivery_for_current_turn;
use session_core::session::input_queue::accept_mailbox_delivery_for_turn_state;
use session_core::session::input_queue::defer_mailbox_delivery_to_next_turn;
use session_core::session::input_queue::extend_pending_input_and_accept_mailbox_delivery_for_turn_state;
use session_core::session::input_queue::extend_pending_input_for_turn_state;
use session_core::session::input_queue::take_pending_input_for_turn_state;
use session_core::session::input_queue::turn_state_for_sub_id;
use session_core::session::input_queue::ActiveTask;
use session_core::session::input_queue::ActiveTurn;
use session_core::session::input_queue::DurableWaiter;
use session_core::session::input_queue::InputQueue;
use session_core::session::input_queue::InputQueueActivity;
use session_core::session::input_queue::MailboxDeliveryPhase;
use session_core::session::input_queue::PersistenceFailure;
use session_core::session::input_queue::TurnInput;
use session_core::session::input_queue::TurnState;

fn make_mail(author: &str, recipient: &str, content: &str, trigger_turn: bool) -> InterAgentCommunication {
    InterAgentCommunication {
        author: author.to_string(),
        recipient: recipient.to_string(),
        other_recipients: Vec::new(),
        content: content.to_string(),
        encrypted_content: None,
        trigger_turn,
    }
}

fn user_text(text: &str) -> TurnInput {
    TurnInput::UserInput {
        content: vec![UserInput::Text {
            text: text.to_string(),
        }],
        client_id: None,
    }
}

fn message(id: Option<&str>, text: &str) -> ResponseItem {
    ResponseItem::Message {
        id: id.map(str::to_string),
        turn_id: None,
        role: "user".to_string(),
        content: vec![ContentItem::InputText {
            text: text.to_string(),
        }],
        extra: None,
    }
}

fn active_turn(identity: u64, sub_id: Option<&str>) -> ActiveTurn {
    ActiveTurn {
        task: sub_id.map(|sub_id| ActiveTask {
            kind: TaskKind::Regular,
            sub_id: sub_id.to_string(),
        }),
        turn_state: TurnState::new(identity),
        execution_settings_refresh_requested: false,
    }
}

#[test]
fn input_queue_notifies_mailbox_subscribers() {
    let mut input_queue: InputQueue<u8> = InputQueue::new();
    assert_eq!(input_queue.pending_activity(None), None);

    let first = input_queue.enqueue_mailbox_communication(
        make_mail("/root", "/root/worker", "one", false),
        None,
    );
    let second = input_queue.enqueue_mailbox_communication(
        make_mail("/root", "/root/worker", "two", false),
        None,
    );
    assert_eq!(first, InputQueueActivity::Mailbox);
    assert_eq!(second, InputQueueActivity::Mailbox);
    assert_eq!(
        input_queue.pending_activity(None),
        Some(InputQueueActivity::Mailbox)
    );
}

#[test]
fn input_queue_notifies_steer_subscribers() {
    let input_queue: InputQueue<u8> = InputQueue::new();
    let mut turn_state = TurnState::new(0);
    assert_eq!(input_queue.pending_activity(Some(&turn_state)), None);

    let activity = extend_pending_input_and_accept_mailbox_delivery_for_turn_state(
        &mut turn_state,
        vec![user_text("steer")],
    );
    assert_eq!(activity, InputQueueActivity::Steer);
}

#[test]
fn input_queue_reports_already_pending_steer() {
    let input_queue: InputQueue<u8> = InputQueue::new();
    let mut turn_state = TurnState::new(0);
    extend_pending_input_and_accept_mailbox_delivery_for_turn_state(
        &mut turn_state,
        vec![user_text("already pending")],
    );
    assert_eq!(
        input_queue.pending_activity(Some(&turn_state)),
        Some(InputQueueActivity::Steer)
    );
}

#[test]
fn input_queue_drains_mailbox_in_delivery_order() {
    let mut input_queue: InputQueue<u8> = InputQueue::new();
    let mail_one = make_mail("/root", "/root/worker", "one", false);
    let mail_two = make_mail("/root/worker", "/root", "two", true);
    input_queue.enqueue_mailbox_communication(mail_one.clone(), None);
    input_queue.enqueue_mailbox_communication(mail_two.clone(), None);

    assert_eq!(
        input_queue.drain_mailbox_input_items().0,
        vec![
            TurnInput::InterAgentCommunication(mail_one),
            TurnInput::InterAgentCommunication(mail_two)
        ]
    );
    assert!(!input_queue.has_pending_mailbox_items());
}

#[test]
fn input_queue_requires_one_unambiguous_trigger_parent() {
    for (pending_mails, expected_parent_turn_id) in [
        (Vec::new(), None),
        (vec![(false, Some("q"))], None),
        (vec![(true, Some(""))], None),
        (vec![(true, Some("   "))], None),
        (vec![(true, None)], None),
        (vec![(true, Some("a")), (true, Some("b"))], None),
        (vec![(true, Some("a")), (true, None)], None),
        (vec![(true, Some("a")), (true, Some("a"))], Some("a")),
        (vec![(false, Some("q")), (true, Some("a"))], Some("a")),
    ] {
        let mut input_queue: InputQueue<u8> = InputQueue::new();
        for (trigger_turn, parent_turn_id) in pending_mails {
            input_queue.enqueue_mailbox_communication(
                make_mail("/root", "/root", "task", trigger_turn),
                parent_turn_id.map(str::to_string),
            );
        }
        let (_, parent_turn_id) = input_queue.drain_mailbox_input_items();
        assert_eq!(parent_turn_id.as_deref(), expected_parent_turn_id);
    }
}

#[test]
fn input_queue_tracks_pending_trigger_turn_mail() {
    let mut input_queue: InputQueue<u8> = InputQueue::new();
    input_queue.enqueue_mailbox_communication(
        make_mail("/root", "/root/worker", "queued", false),
        None,
    );
    assert!(!input_queue.has_trigger_turn_mailbox_items());
    input_queue.enqueue_mailbox_communication(
        make_mail("/root", "/root/worker", "wake", true),
        None,
    );
    assert!(input_queue.has_trigger_turn_mailbox_items());
}

#[test]
fn cancelled_mailbox_wait_keeps_durable_items_clearable() {
    let mut input_queue: InputQueue<usize> = InputQueue::new();
    let mut turn = active_turn(0, None);
    let item_ids = ["msg_mailbox-wait-one", "msg_mailbox-wait-two"];
    for (index, item_id) in item_ids.iter().enumerate() {
        input_queue.waiters.push(DurableWaiter {
            item_id: item_id.to_string(),
            sender: index,
        });
        turn.turn_state
            .pending_input
            .items
            .push(TurnInput::ResponseItem(message(
                Some(item_id),
                &format!("completion {index}"),
            )));
    }
    accept_mailbox_delivery_for_turn_state(&mut turn.turn_state);

    // Nothing was drained, so every receipt can still be answered.
    let answers = input_queue.clear_pending(&mut turn);
    assert_eq!(answers.len(), 2);
    for (index, answer) in answers.iter().enumerate() {
        assert_eq!(answer.sender, index);
        assert_eq!(answer.result, Err(PersistenceFailure::TurnCleared));
    }
    assert!(item_ids
        .iter()
        .all(|item_id| !input_queue.has_durable_response_item_waiter(item_id)));
    assert!(turn.turn_state.pending_input.is_empty());
}

#[test]
fn refusals_of_durability_are_worded() {
    assert_eq!(
        PersistenceFailure::TurnCleared.message(),
        "active turn cleared before durable response item persistence"
    );
    assert_eq!(
        PersistenceFailure::TaskEnded.message(),
        "active task ended during durable response item persistence"
    );
    assert_eq!(
        PersistenceFailure::Other("disk full".to_string()).message(),
        "disk full"
    );
}

#[test]
fn clearing_leaves_receipts_of_other_items_open() {
    let mut input_queue: InputQueue<u8> = InputQueue::new();
    let mut turn = active_turn(0, Some("sub"));
    for (id, sender) in [("a", 1u8), ("b", 2), ("c", 3)] {
        input_queue.waiters.push(DurableWaiter {
            item_id: id.to_string(),
            sender,
        });
    }
    turn.turn_state.pending_waiters.push("approval".to_string());
    turn.turn_state.pending_input.items = vec![
        TurnInput::ResponseItem(message(Some("c"), "x")),
        user_text("ignored"),
        TurnInput::ResponseItem(message(None, "no id")),
        TurnInput::ResponseItem(message(Some("a"), "y")),
        TurnInput::ResponseItem(message(Some("a"), "again")),
        TurnInput::ResponseItem(message(Some("unknown"), "z")),
    ];
    let answers = input_queue.clear_pending(&mut turn);
    assert_eq!(
        answers.iter().map(|answer| answer.sender).collect::<Vec<_>>(),
        vec![3, 1]
    );
    assert!(input_queue.has_durable_response_item_waiter("b"));
    assert!(!input_queue.has_durable_response_item_waiter("a"));
    assert!(turn.turn_state.pending_waiters.is_empty());
    assert!(turn.task.is_some());
}

#[test]
fn durable_item_is_queued_only_with_identity_task_and_closed_receipt() {
    let mut queue: InputQueue<u8> = InputQueue::new();
    let mut idle = None;
    let (item, sender) = queue
        .enqueue_durable_response_item_for_active_turn(&mut idle, message(Some("m"), "t"), 7)
        .expect_err("no turn runs");
    assert_eq!((item, sender), (message(Some("m"), "t"), 7));

    let mut reserved = Some(active_turn(0, None));
    assert!(queue
        .enqueue_durable_response_item_for_active_turn(&mut reserved, message(Some("m"), "t"), 7)
        .is_err());

    let mut running = Some(active_turn(0, Some("sub")));
    assert!(queue
        .enqueue_durable_response_item_for_active_turn(&mut running, message(None, "t"), 7)
        .is_err());
    assert_eq!(
        queue.enqueue_durable_response_item_for_active_turn(
            &mut running,
            message(Some("m"), "t"),
            7
        ),
        Ok(InputQueueActivity::Steer)
    );
    assert!(queue.has_durable_response_item_waiter("m"));
    assert!(queue
        .enqueue_durable_response_item_for_active_turn(&mut running, message(Some("m"), "t"), 8)
        .is_err());
    assert_eq!(
        running.as_ref().map(|turn| turn.turn_state.pending_input.items.len()),
        Some(1)
    );
}

#[test]
fn claimed_receipt_is_answered_once() {
    let mut queue: InputQueue<u8> = InputQueue::new();
    queue.waiters.push(DurableWaiter {
        item_id: "m".to_string(),
        sender: 9,
    });
    assert!(queue.durable_response_item_persistence("other".to_string()).is_none());
    let mut claim = queue
        .durable_response_item_persistence("m".to_string())
        .expect("receipt is open");
    let answer = claim.complete(&mut queue, Ok(())).expect("answered");
    assert_eq!((answer.sender, answer.result), (9, Ok(())));
    assert!(claim.release(&mut queue).is_none());

    queue.waiters.push(DurableWaiter {
        item_id: "n".to_string(),
        sender: 3,
    });
    let claim = queue
        .durable_response_item_persistence("n".to_string())
        .expect("receipt is open");
    let answer = claim.release(&mut queue).expect("refused");
    assert_eq!(answer.result, Err(PersistenceFailure::TaskEnded));
    assert!(queue.complete_durable_response_item("n", Ok(())).is_none());
}

#[test]
fn pending_input_comes_from_the_turn_before_the_mailbox() {
    let mut queue: InputQueue<u8> = InputQueue::new();
    let mail = make_mail("/root", "/root/worker", "mail", true);
    queue.enqueue_mailbox_communication(mail.clone(), Some("parent".to_string()));
    let mut active = Some(active_turn(0, Some("sub")));
    if let Some(turn) = active.as_mut() {
        extend_pending_input_for_turn_state(&mut turn.turn_state, vec![user_text("first")]);
    }
    assert!(queue.has_pending_input(&active));
    let (input, parent) = queue.get_pending_input(&mut active);
    assert_eq!(
        input,
        vec![user_text("first"), TurnInput::InterAgentCommunication(mail)]
    );
    assert_eq!(parent.as_deref(), Some("parent"));
    assert!(!queue.has_pending_input(&active));
}

#[test]
fn deferred_mail_waits_for_the_next_turn() {
    let mut queue: InputQueue<u8> = InputQueue::new();
    queue.enqueue_mailbox_communication(make_mail("/root", "/root/a", "mail", false), None);
    let mut active = Some(active_turn(0, Some("sub")));
    defer_mailbox_delivery_to_next_turn(&mut active, "another");
    assert!(queue.has_pending_input(&active));
    defer_mailbox_delivery_to_next_turn(&mut active, "sub");
    assert!(!queue.has_pending_input(&active));
    assert_eq!(queue.get_pending_input(&mut active), (Vec::new(), None));
    assert!(queue.has_pending_mailbox_items());
    accept_mailbox_delivery_for_current_turn(&mut active, "sub");
    assert!(queue.has_pending_input(&active));
    assert!(queue.has_pending_input(&None));
}

#[test]
fn work_of_the_running_turn_keeps_mail_open() {
    let mut active = Some(active_turn(0, Some("sub")));
    if let Some(turn) = active.as_mut() {
        extend_pending_input_for_turn_state(
            &mut turn.turn_state,
            vec![TurnInput::InterAgentCommunication(make_mail("/root", "/root/a", "quiet", false))],
        );
    }
    let mut with_quiet_mail = active.clone();
    defer_mailbox_delivery_to_next_turn(&mut with_quiet_mail, "sub");
    assert_eq!(
        with_quiet_mail.map(|turn| turn.turn_state.mailbox_delivery_phase),
        Some(MailboxDeliveryPhase::NextTurn)
    );
    if let Some(turn) = active.as_mut() {
        extend_pending_input_for_turn_state(&mut turn.turn_state, vec![user_text("steer")]);
    }
    defer_mailbox_delivery_to_next_turn(&mut active, "sub");
    assert_eq!(
        active.as_ref().map(|turn| turn.turn_state.mailbox_delivery_phase),
        Some(MailboxDeliveryPhase::CurrentTurn)
    );
    assert!(turn_state_for_sub_id(&active, "sub").is_some());
    assert!(turn_state_for_sub_id(&active, "other").is_none());
    let taken = active
        .as_mut()
        .map(|turn| take_pending_input_for_turn_state(&mut turn.turn_state).len());
    assert_eq!(taken, Some(2));
}
