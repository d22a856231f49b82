use serde_json::Value;
use session_core::errors::Reason;
use session_core::ids::ThreadId;
use session_core::protocol::ContentItem;
use session_core::protocol::EventMsg;
use session_core::protocol::FunctionCallOutputBody;
use session_core::protocol::ModeKind;
use session_core::protocol::ResponseItem;
use session_core::protocol::RolloutItem;
use session_core::protocol::TurnItem;
use session_core::session::dispatch::ThreadMemoryMode;
use session_core::session::persistence_repair::restore_saved_thread_persistence;
use session_core::session::persistence_repair::resumed_memory_mode;
use session_core::session::persistence_repair::step_repair;
use session_core::session::persistence_repair::Histories;
use session_core::session::persistence_repair::RepairAction;
use session_core::session::persistence_repair::RepairEvent;
use session_core::session::persistence_repair::RepairState;
use session_core::session::persistence_repair::SavedThread;
use session_core::session::persistence_repair::TurnLookup;
use session_core::session::recovery::existing_turns;
use session_core::session::recovery::presentation_items;
use session_core::session::recovery::presented_turn_ids;
use session_core::session::recovery::recover;
use session_core::session::recovery::recovery_batch;
use session_core::session::recovery::recovery_turn_item;
use session_core::session::recovery::restored_batch;
use session_core::session::recovery::LiveItem;
use session_core::session::recovery::Presentation;
use session_core::session::recovery::Presented;
use session_core::session::recovery::Recovery;
use session_core::session::recovery::ThreadHistoryMode;
use session_core::session::recovery::ToolCall;
use session_core::session::session::PersistenceRepairState;
use session_core::session::session::RepairedPersistence;
use session_core::session::session::Session;

fn message(id: Option<&str>, role: &str, content: ContentItem) -> ResponseItem {
    ResponseItem::Message {
        id: id.map(str::to_owned),
        turn_id: None,
        role: role.to_owned(),
        content: vec![content],
        extra: None,
    }
}

/// The JSON text of a message.
fn key(item: &ResponseItem) -> Vec<u8> {
    let ResponseItem::Message { id, role, content, extra, .. } = item else {
        panic!("{item:?} is no message");
    };
    let text = |text: &str| Value::String(text.to_owned());
    let mut object = serde_json::Map::new();
    object.insert("type".to_owned(), text("message"));
    if let Some(id) = id {
        object.insert("id".to_owned(), text(id));
    }
    object.insert("role".to_owned(), text(role));
    let mut pieces = Vec::new();
    for piece in content {
        let (kind, said) = match piece {
            ContentItem::InputText { text } => ("input_text", text),
            ContentItem::OutputText { text } => ("output_text", text),
            ContentItem::Structured { .. } => panic!("{piece:?} is no text"),
        };
        let mut piece = serde_json::Map::new();
        piece.insert("type".to_owned(), text(kind));
        piece.insert("text".to_owned(), text(said));
        pieces.push(Value::Object(piece));
    }
    object.insert("content".to_owned(), Value::Array(pieces));
    if let Some(extra) = extra {
        object.insert("extra".to_owned(), text(extra));
    }
    serde_json::to_vec(&Value::Object(object)).unwrap()
}

fn live(item: ResponseItem, shown_as: Option<TurnItem>) -> LiveItem {
    let key = key(&item);
    LiveItem { item, key, shown_as }
}

#[test]
fn recovery_presentation_preserves_distinct_user_ids_and_assistant_revisions() {
    let user = message(
        None,
        "user",
        ContentItem::InputText {
            text: "same text".to_owned(),
        },
    );
    let as_user = TurnItem::UserMessage {
        id: "parsed".to_owned(),
        content: "same text".to_owned(),
    };
    let first = recovery_turn_item(
        &user,
        Some(as_user.clone()),
        "user-first".to_owned(),
        &Vec::new(),
    )
    .unwrap();
    let second =
        recovery_turn_item(&user, Some(as_user), "user-second".to_owned(), &Vec::new()).unwrap();
    assert_eq!(
        (first.id(), second.id()),
        ("user-first".to_owned(), "user-second".to_owned())
    );

    let mut assistant = message(
        Some("msg_updated"),
        "assistant",
        ContentItem::OutputText {
            text: "old text".to_owned(),
        },
    );
    let saved_key = key(&assistant);
    if let ResponseItem::Message { content, .. } = &mut assistant {
        *content = vec![ContentItem::OutputText {
            text: "new text".to_owned(),
        }];
    }
    assert_ne!(saved_key, key(&assistant));
    let item = recovery_turn_item(
        &assistant,
        Some(TurnItem::AgentMessage {
            id: "parsed".to_owned(),
            content: "[{\"type\":\"Text\",\"text\":\"new text\"}]".to_owned(),
        }),
        "msg_updated".to_owned(),
        &Vec::new(),
    )
    .unwrap();
    assert_eq!(
        item,
        TurnItem::AgentMessage {
            id: "msg_updated".to_owned(),
            content: "[{\"type\":\"Text\",\"text\":\"new text\"}]".to_owned()
        }
    );

    let hook = message(
        None,
        "user",
        ContentItem::InputText {
            text: "Retained hook text".to_owned(),
        },
    );
    let as_hook = TurnItem::HookPrompt {
        id: "hook-1".to_owned(),
        content: "Retained hook text".to_owned(),
    };
    let first = recovery_turn_item(
        &hook,
        Some(as_hook.clone()),
        "recovered-hook".to_owned(),
        &Vec::new(),
    )
    .unwrap();
    let second =
        recovery_turn_item(&hook, Some(as_hook), "recovered-hook".to_owned(), &Vec::new()).unwrap();
    assert_eq!(first.id(), "recovered-hook".to_owned());
    assert_eq!(first, second);
}

#[test]
fn recovery_tool_output_keeps_payload_without_inventing_execution_status() {
    let response = ResponseItem::FunctionCallOutput {
        id: None,
        turn_id: None,
        call_id: Some("call-1".to_owned()),
        name: Some("read_file".to_owned()),
        namespace: None,
        output: FunctionCallOutputBody::Text("retained output".to_owned()),
        extra: None,
    };
    let actual = recovery_turn_item(&response, None, "output-1".to_owned(), &Vec::new()).unwrap();
    assert_eq!(
        actual,
        TurnItem::FunctionCallOutput {
            id: "output-1".to_owned(),
            name: "read_file".to_owned(),
            namespace: None,
            output: FunctionCallOutputBody::Text("retained output".to_owned()),
        }
    );
}

#[test]
fn tool_output_takes_its_name_from_the_latest_call() {
    let calls = vec![
        ToolCall {
            call_id: "c".to_owned(),
            name: "old".to_owned(),
            namespace: None,
        },
        ToolCall {
            call_id: "c".to_owned(),
            name: "new".to_owned(),
            namespace: Some("ns".to_owned()),
        },
    ];
    let output = |call_id: &str| ResponseItem::CustomToolCallOutput {
        id: None,
        turn_id: None,
        call_id: call_id.to_owned(),
        name: None,
        output: FunctionCallOutputBody::Text("x".to_owned()),
        extra: None,
    };
    assert_eq!(
        recovery_turn_item(&output("c"), None, "i".to_owned(), &calls),
        Some(TurnItem::FunctionCallOutput {
            id: "i".to_owned(),
            name: "new".to_owned(),
            namespace: Some("ns".to_owned()),
            output: FunctionCallOutputBody::Text("x".to_owned()),
        })
    );
    assert_eq!(
        recovery_turn_item(&output("d"), None, "i".to_owned(), &calls),
        Some(TurnItem::FunctionCallOutput {
            id: "i".to_owned(),
            name: "Recovered tool output (name unavailable)".to_owned(),
            namespace: None,
            output: FunctionCallOutputBody::Text("x".to_owned()),
        })
    );
    let other = ResponseItem::Other {
        id: None,
        turn_id: None,
        json: "{}".to_owned(),
    };
    assert_eq!(recovery_turn_item(&other, None, "i".to_owned(), &calls), None);
    assert_eq!(
        recovery_turn_item(
            &output("c"),
            Some(TurnItem::Other {
                id: "x".to_owned(),
                json: "{}".to_owned()
            }),
            "i".to_owned(),
            &calls
        ),
        None
    );
}

#[test]
fn recovery_keeps_multiplicity_and_order() {
    let thread = ThreadId { value: 7 };
    let text = |text: &str| {
        message(
            None,
            "user",
            ContentItem::InputText {
                text: text.to_owned(),
            },
        )
    };
    let shown = |text: &str| {
        Some(TurnItem::UserMessage {
            id: String::new(),
            content: text.to_owned(),
        })
    };
    let history = vec![
        live(text("a"), shown("a")),
        live(text("b"), None),
        live(text("a"), shown("a")),
        live(text("a"), shown("a")),
        live(text("c"), shown("c")),
    ];
    let saved = vec![key(&text("a")), key(&text("c"))];
    let recovery = recover(thread, ThreadHistoryMode::Paginated, &saved, history.clone());
    assert_eq!(
        recovery.recovered,
        vec![
            RolloutItem::ResponseItem(text("b")),
            RolloutItem::ResponseItem(text("a")),
            RolloutItem::ResponseItem(text("a")),
        ]
    );
    assert_eq!(recovery.presentations.len(), 2);
    let first = recovery.presentations[0].item.id();
    let second = recovery.presentations[1].item.id();
    assert_ne!(first, second);
    assert!(first.starts_with("recovered-"));
    assert_eq!(first.len(), "recovered-".len() + 36);
    assert_eq!(
        recovery.presentations[0].turn_id,
        "recovered-00000000-0000-0000-0000-000000000007"
    );

    // The second and third of the equal items bear the identities of their occurrence.
    let mut seed = b"00000000-0000-0000-0000-000000000007:1:".to_vec();
    seed.extend_from_slice(&key(&text("a")));
    assert_eq!(
        first,
        format!(
            "recovered-{}",
            uuid::Uuid::new_v5(&uuid::Uuid::NAMESPACE_OID, &seed)
        )
    );

    // What was recovered is not recovered again once it has been saved.
    let mut saved_now = saved.clone();
    for record in &recovery.recovered {
        if let RolloutItem::ResponseItem(item) = record {
            saved_now.push(key(item));
        }
    }
    let further = recover(thread, ThreadHistoryMode::Paginated, &saved_now, history.clone());
    assert!(further.recovered.is_empty());

    let all: Vec<Vec<u8>> = history.iter().map(|item| item.key.clone()).collect();
    let again = recover(thread, ThreadHistoryMode::Paginated, &all, history);
    assert!(again.recovered.is_empty());
    assert!(again.presentations.is_empty());
}

#[test]
fn items_are_shown_in_their_own_turn_unless_the_history_is_legacy() {
    let thread = ThreadId { value: 1 };
    let item = ResponseItem::Message {
        id: Some("m".to_owned()),
        turn_id: Some("turn-9".to_owned()),
        role: "user".to_owned(),
        content: Vec::new(),
        extra: None,
    };
    let shown = Some(TurnItem::Reasoning {
        id: String::new(),
        content: "r".to_owned(),
    });
    let paginated = recover(
        thread,
        ThreadHistoryMode::Paginated,
        &Vec::new(),
        vec![live(item.clone(), shown.clone())],
    );
    assert_eq!(
        paginated.presentations,
        vec![Presentation {
            turn_id: "turn-9".to_owned(),
            item: TurnItem::Reasoning {
                id: "m".to_owned(),
                content: "r".to_owned()
            },
        }]
    );
    let legacy = recover(
        thread,
        ThreadHistoryMode::Legacy,
        &Vec::new(),
        vec![live(item, shown)],
    );
    assert_eq!(
        legacy.presentations[0].turn_id,
        "recovered-00000000-0000-0000-0000-000000000001"
    );
}

#[test]
fn turn_starts_are_recorded_once_and_before_their_items() {
    let thread = ThreadId { value: 2 };
    let item = |id: &str| TurnItem::AgentMessage {
        id: id.to_owned(),
        content: "text".to_owned(),
    };
    let presented = |turn: &str, id: &str| Presented {
        turn_id: turn.to_owned(),
        item: item(id),
        legacy_events: vec![format!("legacy {id}")],
    };
    let completed = |turn: &str, id: &str| {
        RolloutItem::EventMsg(EventMsg::ItemCompleted {
            thread_id: thread,
            turn_id: turn.to_owned(),
            item: item(id),
            started_at_ms: None,
            completed_at_ms: 42,
        })
    };
    let started = |turn: &str| {
        RolloutItem::EventMsg(EventMsg::TurnStarted {
            turn_id: turn.to_owned(),
            root_turn_id: None,
            trace_id: None,
            started_at: None,
            model_context_window: None,
            collaboration_mode_kind: ModeKind::Default,
        })
    };
    let legacy = |id: &str| {
        RolloutItem::EventMsg(EventMsg::Other {
            json: format!("legacy {id}"),
        })
    };
    let saved = vec![started("known"), RolloutItem::Other { json: "x".to_owned() }];
    assert_eq!(existing_turns(&saved), vec!["known".to_owned()]);
    let list = vec![
        presented("known", "1"),
        presented("new", "2"),
        presented("new", "3"),
    ];
    assert_eq!(
        presentation_items(
            thread,
            ThreadHistoryMode::Paginated,
            existing_turns(&saved),
            list.clone(),
            42
        ),
        vec![
            completed("known", "1"),
            started("new"),
            completed("new", "2"),
            completed("new", "3"),
        ]
    );
    assert_eq!(
        presentation_items(
            thread,
            ThreadHistoryMode::Legacy,
            existing_turns(&saved),
            list,
            42
        ),
        vec![
            legacy("1"),
            completed("known", "1"),
            started("new"),
            legacy("2"),
            completed("new", "2"),
            legacy("3"),
            completed("new", "3"),
        ]
    );
    let presentations: Vec<Presentation> = ["b", "a", "b"]
        .iter()
        .map(|turn| Presentation {
            turn_id: turn.to_string(),
            item: item("x"),
        })
        .collect();
    assert_eq!(
        presented_turn_ids(&presentations),
        vec!["b".to_owned(), "a".to_owned()]
    );
}

#[test]
fn batch_shows_items_before_it_holds_them() {
    let record = |json: &str| RolloutItem::Other {
        json: json.to_owned(),
    };
    assert_eq!(
        recovery_batch(
            vec![record("shown")],
            vec![record("raw")],
            vec![record("checkpoint")]
        ),
        vec![record("shown"), record("raw"), record("checkpoint")]
    );
}

fn step(state: RepairState, event: RepairEvent) -> (RepairState, RepairAction) {
    match step_repair(state, event) {
        Ok(next) => next,
        Err((state, event)) => panic!("{event:?} does not answer {state:?}"),
    }
}

const THREAD: ThreadId = ThreadId { value: 4 };

const THREAD_TEXT: &str = "00000000-0000-0000-0000-000000000004";

fn thread(mode: ThreadHistoryMode) -> SavedThread {
    SavedThread {
        thread_id: THREAD,
        mode,
    }
}

fn says(text: &str) -> ResponseItem {
    message(
        Some(text),
        "user",
        ContentItem::InputText {
            text: text.to_owned(),
        },
    )
}

fn shown(text: &str) -> TurnItem {
    TurnItem::UserMessage {
        id: text.to_owned(),
        content: format!("content of {text}"),
    }
}

fn started(turn_id: &str) -> RolloutItem {
    RolloutItem::EventMsg(EventMsg::TurnStarted {
        turn_id: turn_id.to_owned(),
        root_turn_id: None,
        trace_id: None,
        started_at: None,
        model_context_window: None,
        collaboration_mode_kind: ModeKind::Default,
    })
}

fn completed(turn_id: &str, item: TurnItem) -> RolloutItem {
    RolloutItem::EventMsg(EventMsg::ItemCompleted {
        thread_id: THREAD,
        turn_id: turn_id.to_owned(),
        item,
        started_at_ms: None,
        completed_at_ms: 42,
    })
}

fn record(json: &str) -> RolloutItem {
    RolloutItem::Other {
        json: json.to_owned(),
    }
}

fn at_comparison(mode: ThreadHistoryMode, saved: Vec<RolloutItem>) -> RepairState {
    let (state, action) = restore_saved_thread_persistence(thread(mode));
    assert_eq!(action, RepairAction::LookForWriter);
    let (state, action) = step(state, RepairEvent::Writer(false));
    assert_eq!(action, RepairAction::AcquireAdmission);
    let (state, action) = step(state, RepairEvent::Stepped(Ok(())));
    assert_eq!(action, RepairAction::AcquireSettings);
    let (state, action) = step(state, RepairEvent::Stepped(Ok(())));
    assert_eq!(action, RepairAction::LockStateAndRepair);
    let (state, action) = step(
        state,
        RepairEvent::Locked {
            repair_open: true,
            writer: false,
            system_agent: false,
        },
    );
    assert_eq!(action, RepairAction::ReadThread);
    let (state, action) = step(state, RepairEvent::Stored(Ok(mode)));
    assert_eq!(action, RepairAction::ResumeWriter);
    let (state, action) = step(state, RepairEvent::Stepped(Ok(())));
    assert_eq!(
        action,
        RepairAction::LoadSaved {
            latest_context_only: mode == ThreadHistoryMode::Paginated
        }
    );
    let (state, action) = step(state, RepairEvent::Loaded(Ok(saved)));
    assert_eq!(action, RepairAction::CompareHistories);
    state
}

/// The saved history holds the first of three items.
fn histories() -> Histories {
    Histories {
        saved_keys: vec![key(&says("a"))],
        live: vec![
            live(says("a"), Some(shown("x"))),
            live(says("b"), Some(shown("x"))),
            live(says("c"), None),
        ],
    }
}

fn shown_b() -> TurnItem {
    TurnItem::UserMessage {
        id: "b".to_owned(),
        content: "content of x".to_owned(),
    }
}

#[test]
fn restoration_appends_flushes_and_publishes() {
    let mut session: Session<u8> = Session::new(THREAD, true);
    let turn = format!("recovered-{THREAD_TEXT}");
    let state = at_comparison(ThreadHistoryMode::Paginated, vec![started("known")]);
    let (state, action) = step(state, RepairEvent::Compared(Ok(histories())));
    assert_eq!(action, RepairAction::LookUpTurns(vec![turn.clone()]));
    let (state, action) = step(state, RepairEvent::Turns(TurnLookup::Found(Vec::new())));
    assert_eq!(action, RepairAction::Present(vec![shown_b()]));
    // An answer that leaves an item out is none.
    let (state, _) = step_repair(
        state,
        RepairEvent::Presented {
            legacy_events: Vec::new(),
            checkpoint: Vec::new(),
            now_ms: 42,
        },
    )
    .expect_err("an item is left out");
    let (state, action) = step(
        state,
        RepairEvent::Presented {
            legacy_events: vec![vec!["legacy".to_owned()]],
            checkpoint: vec![record("checkpoint")],
            now_ms: 42,
        },
    );
    assert_eq!(
        action,
        RepairAction::Append(vec![
            started(&turn),
            completed(&turn, shown_b()),
            RolloutItem::ResponseItem(says("b")),
            RolloutItem::ResponseItem(says("c")),
            record("checkpoint"),
        ])
    );
    let (state, action) = step(state, RepairEvent::Stepped(Ok(())));
    assert_eq!(action, RepairAction::Flush);
    let (state, action) = step(state, RepairEvent::Stepped(Ok(())));
    assert_eq!(action, RepairAction::ResolveRollout);
    let (state, action) = step(
        state,
        RepairEvent::RolloutPath(Ok(Some("/tmp/r.jsonl".to_owned()))),
    );
    assert_eq!(action, RepairAction::OpenDatabase);
    let (state, action) = step(state, RepairEvent::Stepped(Ok(())));
    let RepairAction::Publish(restored) = action else {
        panic!("{action:?}");
    };
    let published = session.publish_repaired_persistence(restored);
    let (state, action) = step(state, RepairEvent::Published(published));
    assert_eq!(action, RepairAction::CommitAndFinish);
    assert!(step_repair(state, RepairEvent::CleanedUp).is_err());
    assert!(!session.ephemeral);
    assert_eq!(
        session.repaired_rollout_path(),
        Some("/tmp/r.jsonl".to_owned())
    );

    // A second restoration finds the writer, and that is all.
    let (state, _) = restore_saved_thread_persistence(thread(ThreadHistoryMode::Paginated));
    let (_, action) = step(
        state,
        RepairEvent::Writer(session.repaired_persistence.is_some()),
    );
    assert_eq!(action, RepairAction::Finish(Ok(())));
}

#[test]
fn legacy_restoration_looks_no_turns_up() {
    let turn = format!("recovered-{THREAD_TEXT}");
    let state = at_comparison(ThreadHistoryMode::Legacy, vec![started(&turn)]);
    let (state, action) = step(state, RepairEvent::Compared(Ok(histories())));
    assert_eq!(action, RepairAction::Present(vec![shown_b()]));
    let (_, action) = step(
        state,
        RepairEvent::Presented {
            legacy_events: vec![vec!["legacy".to_owned()]],
            checkpoint: Vec::new(),
            now_ms: 42,
        },
    );
    assert_eq!(
        action,
        RepairAction::Append(vec![
            RolloutItem::EventMsg(EventMsg::Other {
                json: "legacy".to_owned()
            }),
            completed(&turn, shown_b()),
            RolloutItem::ResponseItem(says("b")),
            RolloutItem::ResponseItem(says("c")),
        ])
    );

    // Where nothing is shown, nothing is looked up either.
    let state = at_comparison(ThreadHistoryMode::Paginated, Vec::new());
    let (_, action) = step(
        state,
        RepairEvent::Compared(Ok(Histories {
            saved_keys: Vec::new(),
            live: vec![live(says("c"), None)],
        })),
    );
    assert_eq!(action, RepairAction::Present(Vec::new()));
}

#[test]
fn recovered_message_keeps_all_that_it_carries() {
    let phased = ResponseItem::Message {
        id: None,
        turn_id: None,
        role: "assistant".to_owned(),
        content: Vec::new(),
        extra: Some("{\"phase\":\"commentary\"}".to_owned()),
    };
    let recovery = recover(
        THREAD,
        ThreadHistoryMode::Paginated,
        &Vec::new(),
        vec![live(phased.clone(), None)],
    );
    assert_eq!(recovery.recovered, vec![RolloutItem::ResponseItem(phased)]);
}

#[test]
fn looked_up_turns_take_the_place_of_saved_ones() {
    let presented = || {
        vec![Presented {
            turn_id: "t".to_owned(),
            item: shown("i"),
            legacy_events: Vec::new(),
        }]
    };
    let batch = |looked_up| {
        restored_batch(
            THREAD,
            ThreadHistoryMode::Paginated,
            looked_up,
            &vec![started("t")],
            presented(),
            vec![record("raw")],
            vec![record("checkpoint")],
            42,
        )
    };
    assert_eq!(
        batch(None),
        vec![completed("t", shown("i")), record("raw"), record("checkpoint")]
    );
    assert_eq!(
        batch(Some(vec!["other".to_owned()])),
        vec![
            started("t"),
            completed("t", shown("i")),
            record("raw"),
            record("checkpoint")
        ]
    );
}

#[test]
fn restoration_is_refused_in_order() {
    let locks = || RepairState::Locks {
        thread: thread(ThreadHistoryMode::Legacy),
    };
    let locked = |repair_open, writer, system_agent| RepairEvent::Locked {
        repair_open,
        writer,
        system_agent,
    };
    assert_eq!(
        step(locks(), locked(false, true, true)).1,
        RepairAction::Finish(Err(Reason::RepairDuringShutdown))
    );
    assert_eq!(
        step(locks(), locked(true, true, true)).1,
        RepairAction::Finish(Ok(()))
    );
    assert_eq!(
        step(locks(), locked(true, false, true)).1,
        RepairAction::Finish(Err(Reason::RepairSystemAgent))
    );
    assert_eq!(
        step(
            RepairState::Stored {
                thread: thread(ThreadHistoryMode::Legacy)
            },
            RepairEvent::Stored(Ok(ThreadHistoryMode::Paginated))
        )
        .1,
        RepairAction::Finish(Err(Reason::RepairHistoryMode))
    );
    assert_eq!(
        step(RepairState::Publication, RepairEvent::Published(false)).1,
        RepairAction::Finish(Err(Reason::RepairConcurrent))
    );
    let (state, action) = step(
        RepairState::Turns {
            thread: thread(ThreadHistoryMode::Paginated),
            saved: Vec::new(),
            recovery: Recovery {
                presentations: Vec::new(),
                recovered: Vec::new(),
            },
        },
        RepairEvent::Turns(TurnLookup::Unavailable),
    );
    assert_eq!(action, RepairAction::DiscardWriter);
    assert_eq!(
        step(state, RepairEvent::CleanedUp).1,
        RepairAction::Finish(Err(Reason::RepairTurnLookup))
    );
    for (reason, text) in [
        (
            Reason::RepairDuringShutdown,
            "cannot restore saved thread persistence during shutdown",
        ),
        (
            Reason::RepairSystemAgent,
            "temporary system agents cannot be converted to saved tasks",
        ),
        (
            Reason::RepairHistoryMode,
            "saved thread history mode differs from the live session",
        ),
        (
            Reason::RepairTurnLookup,
            "saved history turn lookup is unavailable",
        ),
        (
            Reason::RepairConcurrent,
            "saved thread persistence was attached concurrently",
        ),
    ] {
        assert_eq!(reason.message(), text);
    }
}

#[test]
fn repaired_persistence_is_published_once() {
    let mut session: Session<u8> = Session::new(ThreadId { value: 3 }, true);
    assert_eq!(session.repaired_rollout_path(), None);
    assert!(session.ephemeral);
    assert!(session.publish_repaired_persistence(RepairedPersistence {
        rollout_path: Some("/tmp/a.jsonl".to_owned())
    }));
    assert!(!session.ephemeral);
    assert!(!session.publish_repaired_persistence(RepairedPersistence { rollout_path: None }));
    assert_eq!(
        session.repaired_rollout_path(),
        Some("/tmp/a.jsonl".to_owned())
    );
    session.close_persistence_repair();
    assert_eq!(
        session.persistence_repair,
        PersistenceRepairState::ShuttingDown
    );
    assert_eq!(resumed_memory_mode(true), ThreadMemoryMode::Enabled);
    assert_eq!(resumed_memory_mode(false), ThreadMemoryMode::Disabled);
}
