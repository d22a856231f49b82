use session_core::errors::CodexErr;
use session_core::errors::CodexErrorInfo;
use session_core::errors::Reason;
use session_core::ids::ThreadId;
use session_core::protocol::Event;
use session_core::protocol::EventMsg;
use session_core::protocol::ModeKind;
use session_core::protocol::ResponseItem;
use session_core::protocol::RolloutItem;
use session_core::protocol::TaskKind;
use session_core::protocol::TaskStartOutcome;
use session_core::protocol::UserInput;
use session_core::session::completion::persisted_response_item_with_id;
use session_core::session::completion::raw_response_item_event;
use session_core::session::completion::receipt_outcome;
use session_core::session::completion::response_item_with_id;
use session_core::session::completion::route_completion;
use session_core::session::completion::start_completion;
use session_core::session::completion::step_completion;
use session_core::session::completion::CompletionAction;
use session_core::session::completion::CompletionEvent;
use session_core::session::completion::CompletionRoute;
use session_core::session::completion::CompletionState;
use session_core::session::idle_turn::has_user_input;
use session_core::session::idle_turn::start_idle_turn;
use session_core::session::idle_turn::step_idle_turn;
use session_core::session::idle_turn::IdleTurnAction;
use session_core::session::idle_turn::IdleTurnEvent;
use session_core::session::idle_turn::IdleTurnState;
use session_core::session::idle_turn::TryStartTurnIfIdleError;
use session_core::session::idle_turn::TryStartTurnIfIdleRejectionReason;
use session_core::session::inject::route_injection;
use session_core::session::inject::start_injection;
use session_core::session::inject::step_injection;
use session_core::session::inject::InjectAction;
use session_core::session::inject::InjectEvent;
use session_core::session::inject::InjectRoute;
use session_core::session::inject::InjectState;
use session_core::session::input_queue::ActiveTask;
use session_core::session::input_queue::ActiveTurn;
use session_core::session::input_queue::InputQueue;
use session_core::session::input_queue::InputQueueActivity;
use session_core::session::input_queue::TurnInput;
use session_core::session::input_queue::TurnState;
use session_core::session::rollback::replay_items;
use session_core::session::rollback::step_rollback;
use session_core::session::rollback::thread_rollback;
use session_core::session::rollback::RollbackAction;
use session_core::session::rollback::RollbackEvent;
use session_core::session::rollback::RollbackState;
use session_core::session::session::Session;
use session_core::session::settings::request_execution_settings_refresh;
use session_core::session::settings::step_settings;
use session_core::session::settings::thread_settings_applied_event;
use session_core::session::settings::thread_settings_update;
use session_core::session::settings::update_thread_settings;
use session_core::session::settings::ExecutionSettings;
use session_core::session::settings::SettingsAction;
use session_core::session::settings::SettingsEvent;
use session_core::session::settings::ThreadSettingsOverrides;
use session_core::session::user_turn::step_user_turn;
use session_core::session::user_turn::task_input;
use session_core::session::user_turn::user_input_or_turn;
use session_core::session::user_turn::SteerInputError;
use session_core::session::user_turn::UserMessageAdmission;
use session_core::session::user_turn::UserTurnAction;
use session_core::session::user_turn::UserTurnEvent;
use session_core::session::user_turn::UserTurnRequest;
use session_core::session::user_turn::UserTurnState;
use session_core::tasks::regular::prepares_mcp;
use session_core::tasks::regular::run;
use session_core::tasks::regular::step_regular;
use session_core::tasks::regular::PrewarmResolution;
use session_core::tasks::regular::ProviderStartup;
use session_core::tasks::regular::RegularAction;
use session_core::tasks::regular::RegularEvent;
use session_core::tasks::regular::RegularState;
use session_core::tasks::regular::RegularTask;
use session_core::tasks::regular::TurnContributor;
use session_core::tasks::regular::TurnStartPhase;

const THREAD: ThreadId = ThreadId { value: 77 };

fn item(id: Option<&str>, role: &str) -> ResponseItem {
    ResponseItem::Message {
        id: id.map(str::to_string),
        turn_id: None,
        role: role.to_string(),
        content: Vec::new(),
        extra: None,
    }
}

fn text_input(text: &str) -> Vec<UserInput> {
    vec![UserInput::Text {
        text: text.to_string(),
    }]
}

fn active(kind: Option<TaskKind>) -> ActiveTurn {
    ActiveTurn {
        task: kind.map(|kind| ActiveTask {
            kind,
            sub_id: "sub".to_string(),
        }),
        turn_state: TurnState::new(0),
        execution_settings_refresh_requested: false,
    }
}

fn error(id: &str, reason: Reason, info: CodexErrorInfo) -> Event {
    Event {
        id: id.to_string(),
        msg: EventMsg::Error { reason, info },
    }
}

#[test]
fn items_are_found_by_identity() {
    let items = vec![item(None, "a"), item(Some("x"), "b"), item(Some("x"), "c")];
    assert_eq!(response_item_with_id(&items, "x"), Some(&items[1]));
    assert_eq!(response_item_with_id(&items, "y"), None);
    let records = vec![
        RolloutItem::ResponseItem(item(Some("x"), "old")),
        RolloutItem::Compacted {
            replacement_history: Some(vec![item(Some("x"), "kept"), item(Some("x"), "later")]),
        },
        RolloutItem::Compacted {
            replacement_history: None,
        },
        RolloutItem::Other {
            json: "x".to_string(),
        },
        RolloutItem::ResponseItem(item(Some("y"), "other")),
    ];
    assert_eq!(
        persisted_response_item_with_id(&records, "x"),
        Some(&item(Some("x"), "kept"))
    );
    assert_eq!(
        persisted_response_item_with_id(&records, "y"),
        Some(&item(Some("y"), "other"))
    );
    assert_eq!(persisted_response_item_with_id(&records, "z"), None);
}

#[test]
fn notices_are_queued_with_a_running_turn() {
    let mut queue: InputQueue<u8> = InputQueue::new();
    let mut turn = Some(active(Some(TaskKind::Review)));
    assert_eq!(
        route_completion(&mut queue, &mut turn, item(None, "n"), 1),
        CompletionRoute::Refused(CodexErr::InvalidRequest(Reason::CompletionNeedsStableId))
    );
    assert_eq!(
        route_completion(&mut queue, &mut turn, item(Some("n"), "n"), 1),
        CompletionRoute::Queued(InputQueueActivity::Steer)
    );
    assert_eq!(
        route_completion(&mut queue, &mut turn, item(Some("n"), "n"), 2),
        CompletionRoute::AtBoundary(item(Some("n"), "n"), 2)
    );
    assert_eq!(
        route_completion(&mut queue, &mut None, item(Some("m"), "n"), 3),
        CompletionRoute::AtBoundary(item(Some("m"), "n"), 3)
    );
    assert_eq!(receipt_outcome(Some(Ok(()))), Ok(()));
    assert_eq!(receipt_outcome(None), Err(CodexErr::InternalAgentDied));
    assert_eq!(
        receipt_outcome(Some(Err("E".to_string()))),
        Err(CodexErr::Fatal(Reason::Message("E".to_string())))
    );
    assert_eq!(
        raw_response_item_event("s".to_string(), item(None, "n")),
        Event {
            id: "s".to_string(),
            msg: EventMsg::RawResponseItem {
                item: item(None, "n")
            }
        }
    );
}

fn record(
    state: CompletionState,
    event: CompletionEvent,
) -> (CompletionState, CompletionAction) {
    match step_completion(state, event) {
        Ok(next) => next,
        Err((state, event)) => panic!("{event:?} does not answer {state:?}"),
    }
}

fn until_first_read(recorded: Option<ResponseItem>) -> CompletionState {
    let (state, action) = start_completion(THREAD, item(Some("n"), "raw"));
    assert_eq!(action, CompletionAction::AcquireAdmission);
    let (state, action) = record(state, CompletionEvent::Admitted(true));
    assert_eq!(action, CompletionAction::LockHistory);
    let (state, action) = record(state, CompletionEvent::Locked { restart_required: false });
    assert_eq!(action, CompletionAction::FindWriter);
    let (state, action) = record(state, CompletionEvent::Writer(true));
    assert_eq!(action, CompletionAction::Materialize);
    let (state, action) = record(state, CompletionEvent::Persisted(Ok(())));
    assert_eq!(action, CompletionAction::Flush);
    let (state, action) = record(state, CompletionEvent::Persisted(Ok(())));
    assert_eq!(action, CompletionAction::ResolveRollout);
    let (state, action) = record(state, CompletionEvent::RolloutPath(Ok(())));
    assert_eq!(action, CompletionAction::Prepare(item(Some("n"), "raw")));
    let (state, action) = record(
        state,
        CompletionEvent::Prepared(Some(item(Some("n"), "prepared"))),
    );
    assert_eq!(action, CompletionAction::LockState);
    let (state, action) = record(state, CompletionEvent::Locked { restart_required: false });
    assert_eq!(action, CompletionAction::LookUpRecorded);
    let (state, action) = record(state, CompletionEvent::Recorded(recorded));
    assert_eq!(action, CompletionAction::ReadRollout);
    state
}

#[test]
fn notice_is_appended_until_it_is_read_back() {
    let state = until_first_read(None);
    let (state, action) = record(state, CompletionEvent::Read(Ok(None)));
    assert_eq!(action, CompletionAction::Append);
    let (state, action) = record(state, CompletionEvent::Appended { failed: true });
    assert_eq!(action, CompletionAction::Reflush);
    let (state, action) = record(state, CompletionEvent::Reflushed);
    assert_eq!(action, CompletionAction::ReadRollout);
    // The append failed and had no effect: it is repeated.
    let (state, action) = record(state, CompletionEvent::Read(Ok(None)));
    assert_eq!(action, CompletionAction::Sleep);
    let (state, action) = record(state, CompletionEvent::Slept);
    assert_eq!(action, CompletionAction::Append);
    let (state, _) = record(state, CompletionEvent::Appended { failed: false });
    let (state, _) = record(state, CompletionEvent::Reflushed);
    // Nothing is known of the rollout, so only the flush is repeated.
    let (state, _) = record(state, CompletionEvent::Read(Err("E".to_string())));
    let (state, action) = record(state, CompletionEvent::Slept);
    assert_eq!(action, CompletionAction::Reflush);
    let (state, _) = record(state, CompletionEvent::Reflushed);
    let (state, action) = record(
        state,
        CompletionEvent::Read(Ok(Some(item(Some("n"), "saved")))),
    );
    assert_eq!(
        action,
        CompletionAction::RecordAndAnnounce(item(Some("n"), "saved"))
    );
    let (_, action) = record(state, CompletionEvent::Announced);
    assert_eq!(action, CompletionAction::Finish(Ok(())));
}

#[test]
fn recorded_notice_is_not_recorded_again() {
    let state = until_first_read(Some(item(Some("n"), "live")));
    let (state, action) = record(state, CompletionEvent::Read(Ok(None)));
    assert_eq!(action, CompletionAction::Append);
    assert_eq!(
        state,
        CompletionState::Appended {
            to_persist: item(Some("n"), "live"),
            recorded: true
        }
    );
    let state = until_first_read(Some(item(Some("n"), "live")));
    let (_, action) = record(
        state,
        CompletionEvent::Read(Ok(Some(item(Some("n"), "saved")))),
    );
    assert_eq!(action, CompletionAction::Finish(Ok(())));
}

#[test]
fn second_recording_of_an_identity_changes_nothing() {
    let mut rollout: Vec<RolloutItem> = Vec::new();
    let mut history: Vec<ResponseItem> = Vec::new();
    let mut announced = 0;
    for _ in 0..2 {
        let recorded = response_item_with_id(&history, "n").cloned();
        let mut state = until_first_read(recorded);
        let mut action = CompletionAction::ReadRollout;
        while action != CompletionAction::Finish(Ok(())) {
            let event = match action {
                CompletionAction::ReadRollout => CompletionEvent::Read(Ok(
                    persisted_response_item_with_id(&rollout, "n").cloned(),
                )),
                CompletionAction::Append => {
                    rollout.push(RolloutItem::ResponseItem(item(Some("n"), "prepared")));
                    CompletionEvent::Appended { failed: false }
                }
                CompletionAction::Reflush => CompletionEvent::Reflushed,
                CompletionAction::RecordAndAnnounce(item) => {
                    history.push(item);
                    announced += 1;
                    CompletionEvent::Announced
                }
                other => panic!("{other:?}"),
            };
            (state, action) = record(state, event);
        }
        assert_eq!(state, CompletionState::Done);
        assert_eq!((rollout.len(), history.len(), announced), (1, 1, 1));
    }
    assert_eq!(
        start_completion(THREAD, item(None, "raw")).1,
        CompletionAction::Finish(Err(CodexErr::InvalidRequest(
            Reason::CompletionNeedsStableId
        )))
    );
}

#[test]
fn failures_of_a_notice_are_told_apart() {
    let e = || Err("E".to_string());
    let n = || item(Some("n"), "n");
    let fatal = |reason: Reason| CompletionAction::Finish(Err(CodexErr::Fatal(reason)));
    let s = || "E".to_string();
    assert_eq!(
        start_completion(THREAD, item(None, "n")).1,
        CompletionAction::Finish(Err(CodexErr::InvalidRequest(
            Reason::CompletionNeedsStableId
        )))
    );
    for (state, event, action) in [
        (
            CompletionState::Admission { thread_id: THREAD, item: n() },
            CompletionEvent::Admitted(false),
            CompletionAction::Finish(Err(CodexErr::TurnAborted)),
        ),
        (
            CompletionState::HistoryLock { thread_id: THREAD, item: n() },
            CompletionEvent::Locked { restart_required: true },
            CompletionAction::Finish(Err(CodexErr::TurnAborted)),
        ),
        (
            CompletionState::StateLock { prepared: n() },
            CompletionEvent::Locked { restart_required: true },
            CompletionAction::Finish(Err(CodexErr::TurnAborted)),
        ),
        (
            CompletionState::Writer { thread_id: THREAD, item: n() },
            CompletionEvent::Writer(false),
            fatal(Reason::CompletionNoWriter(THREAD)),
        ),
        (
            CompletionState::Materialized { item: n() },
            CompletionEvent::Persisted(e()),
            fatal(Reason::CompletionMaterialize(s())),
        ),
        (
            CompletionState::Flushed { item: n() },
            CompletionEvent::Persisted(e()),
            fatal(Reason::CompletionReconcile(s())),
        ),
        (
            CompletionState::RolloutPath { item: n() },
            CompletionEvent::RolloutPath(e()),
            fatal(Reason::CompletionResolveRollout(s())),
        ),
        (
            CompletionState::Prepared,
            CompletionEvent::Prepared(None),
            fatal(Reason::CompletionNotPrepared),
        ),
        (
            CompletionState::FirstRead { to_persist: n(), recorded: false },
            CompletionEvent::Read(Err(s())),
            fatal(Reason::CompletionReadRollout(s())),
        ),
    ] {
        assert_eq!(record(state, event), (CompletionState::Done, action));
    }
}

#[test]
fn items_are_injected_into_a_running_regular_turn() {
    let items = || vec![item(None, "a"), item(None, "b")];
    let mut session: Session<u8> = Session::new(THREAD, false);
    assert_eq!(session.inject_if_running(items()), Err(items()));
    session.active_turn = Some(active(Some(TaskKind::Compact)));
    assert_eq!(session.inject_if_running(items()), Err(items()));
    assert_eq!(
        route_injection(&mut session, items(), true),
        InjectRoute::Record { items: items(), new_context: false }
    );
    session.active_turn = Some(active(Some(TaskKind::Regular)));
    assert_eq!(
        session.inject_if_running(items()),
        Ok(InputQueueActivity::Steer)
    );
    assert_eq!(
        route_injection(&mut session, items(), false),
        InjectRoute::Queued(InputQueueActivity::Steer)
    );
    assert_eq!(
        session
            .active_turn
            .as_ref()
            .map(|turn| turn.turn_state.pending_input.items.len()),
        Some(4)
    );
    session.persistence_restart_required = true;
    assert_eq!(session.inject_if_running(items()), Err(items()));
    assert_eq!(
        route_injection(&mut session, items(), false),
        InjectRoute::Refused(CodexErr::TurnAborted)
    );
}

fn inject(state: InjectState, event: InjectEvent) -> (InjectState, InjectAction) {
    match step_injection(state, event) {
        Ok(next) => next,
        Err((state, event)) => panic!("{event:?} does not answer {state:?}"),
    }
}

#[test]
fn injection_while_idle_records_context_first_and_ends_flushed() {
    let items = || vec![item(None, "a")];
    let (state, _) = start_injection(items());
    let (state, action) = inject(state, InjectEvent::Admitted(true));
    assert_eq!(action, InjectAction::LockHistoryAndReadActiveTask);
    let (state, action) = inject(state, InjectEvent::ActiveTask(None));
    assert_eq!(action, InjectAction::NewTurnContext);
    let (state, action) = inject(state, InjectEvent::Stepped(Ok(())));
    assert_eq!(action, InjectAction::ReadReferenceContext);
    let (state, action) = inject(state, InjectEvent::Reference(false));
    assert_eq!(action, InjectAction::CaptureStepContext);
    let (state, action) = inject(state, InjectEvent::Stepped(Ok(())));
    assert_eq!(action, InjectAction::RecordContextUpdates);
    let (state, action) = inject(state, InjectEvent::Stepped(Ok(())));
    assert_eq!(action, InjectAction::InjectWithoutNewTurn(items()));
    let (state, action) = inject(state, InjectEvent::Stepped(Ok(())));
    assert_eq!(action, InjectAction::Flush);
    let (state, action) = inject(state, InjectEvent::Stepped(Ok(())));
    assert_eq!(action, InjectAction::Finish(Ok(())));
    assert!(step_injection(state, InjectEvent::Died).is_err());
}

#[test]
fn injection_falls_back_is_refused_and_fences() {
    let items = || vec![item(None, "a")];
    let admitted = || inject(start_injection(items()).0, InjectEvent::Admitted(true)).0;
    let (state, action) = inject(admitted(), InjectEvent::ActiveTask(Some(Some(TaskKind::Regular))));
    assert_eq!(action, InjectAction::InjectIfRunning(items()));
    let (_, action) = inject(state, InjectEvent::Injected(Err(items())));
    assert_eq!(action, InjectAction::NewTurnContext);
    let (state, _) = inject(admitted(), InjectEvent::ActiveTask(Some(Some(TaskKind::Regular))));
    let (_, action) = inject(state, InjectEvent::Injected(Ok(())));
    assert_eq!(action, InjectAction::Flush);
    for task in [None, Some(TaskKind::Review), Some(TaskKind::Compact)] {
        let (_, action) = inject(admitted(), InjectEvent::ActiveTask(Some(task)));
        assert_eq!(
            action,
            InjectAction::Finish(Err(CodexErr::InvalidRequest(Reason::NonSteerableTurn)))
        );
    }
    let (_, action) = inject(start_injection(items()).0, InjectEvent::Admitted(false));
    assert_eq!(action, InjectAction::Finish(Err(CodexErr::TurnAborted)));
    let (state, action) = inject(admitted(), InjectEvent::Died);
    assert_eq!(action, InjectAction::RequireRestartAndDiscard);
    let (_, action) = inject(state, InjectEvent::Discarded);
    assert_eq!(action, InjectAction::Finish(Err(CodexErr::InternalAgentDied)));
}

fn user_input(text: &str) -> Vec<TurnInput> {
    vec![TurnInput::UserInput {
        content: text_input(text),
        client_id: None,
    }]
}

fn idle(state: IdleTurnState, event: IdleTurnEvent) -> (IdleTurnState, IdleTurnAction) {
    match step_idle_turn(state, event) {
        Ok(next) => next,
        Err(state) => panic!("{event:?} does not answer {state:?}"),
    }
}

fn rejected(
    reason: TryStartTurnIfIdleRejectionReason,
    clear_reservation: bool,
    start_pending_work: bool,
    input: Vec<TurnInput>,
) -> IdleTurnAction {
    IdleTurnAction::Reject {
        clear_reservation,
        start_pending_work,
        error: TryStartTurnIfIdleError { reason, input },
    }
}

#[test]
fn user_input_starts_an_idle_session_and_is_awaited() {
    assert!(has_user_input(&user_input("hi")));
    assert!(!has_user_input(&vec![TurnInput::UserInput {
        content: Vec::new(),
        client_id: None
    }]));
    let (state, action) = start_idle_turn(user_input("hi"));
    assert_eq!(action, IdleTurnAction::AcquireAdmission);
    let (state, action) = idle(state, IdleTurnEvent::Admitted(true));
    assert_eq!(action, IdleTurnAction::ReadPendingWork);
    let (state, action) = idle(state, IdleTurnEvent::PendingWork(false));
    assert_eq!(action, IdleTurnAction::Reserve);
    let (state, action) = idle(state, IdleTurnEvent::Reserved(true));
    assert_eq!(action, IdleTurnAction::ReadPendingWork);
    let (state, action) = idle(state, IdleTurnEvent::PendingWork(false));
    assert_eq!(action, IdleTurnAction::NewTurnContext);
    let (state, action) = idle(state, IdleTurnEvent::Context(Some(ModeKind::Plan)));
    assert_eq!(action, IdleTurnAction::EmitModelWarnings);
    let (state, _) = idle(state, IdleTurnEvent::Warned);
    let (state, action) = idle(state, IdleTurnEvent::PendingWork(false));
    assert_eq!(action, IdleTurnAction::CheckReservation);
    let (state, action) = idle(state, IdleTurnEvent::StillReserved(true));
    assert_eq!(action, IdleTurnAction::StartWithUserInput);
    let (state, action) = idle(state, IdleTurnEvent::Started(TaskStartOutcome::Started));
    assert_eq!(action, IdleTurnAction::AwaitPersistence);
    let (_, action) = idle(state.clone(), IdleTurnEvent::Persisted(Some(Ok(()))));
    assert_eq!(action, IdleTurnAction::Started);
    let (_, action) = idle(state.clone(), IdleTurnEvent::Persisted(None));
    assert_eq!(
        action,
        rejected(
            TryStartTurnIfIdleRejectionReason::TaskEndedBeforePersistence,
            false,
            false,
            user_input("hi")
        )
    );
    let (_, action) = idle(
        state,
        IdleTurnEvent::Persisted(Some(Err(
            TryStartTurnIfIdleRejectionReason::PersistenceFailed,
        ))),
    );
    assert_eq!(
        action,
        rejected(
            TryStartTurnIfIdleRejectionReason::PersistenceFailed,
            false,
            false,
            user_input("hi")
        )
    );
}

#[test]
fn refused_starts_hand_their_input_back() {
    let work = || vec![TurnInput::ResponseItem(item(None, "w"))];
    let at_mode = || {
        let (state, _) = idle(start_idle_turn(work()).0, IdleTurnEvent::Admitted(true));
        let (state, action) = idle(state, IdleTurnEvent::PendingWork(false));
        assert_eq!(action, IdleTurnAction::ReadMode);
        state
    };
    let reserved = || {
        let (state, _) = idle(at_mode(), IdleTurnEvent::Mode(ModeKind::Default));
        idle(state, IdleTurnEvent::Reserved(true)).0
    };
    let (_, action) = idle(start_idle_turn(work()).0, IdleTurnEvent::Admitted(false));
    assert_eq!(
        action,
        rejected(TryStartTurnIfIdleRejectionReason::PersistenceFailed, false, false, work())
    );
    let (_, action) = idle(at_mode(), IdleTurnEvent::Mode(ModeKind::Plan));
    assert_eq!(
        action,
        rejected(TryStartTurnIfIdleRejectionReason::PlanMode, false, false, work())
    );
    let (state, _) = idle(at_mode(), IdleTurnEvent::Mode(ModeKind::Default));
    let (_, action) = idle(state, IdleTurnEvent::Reserved(false));
    assert_eq!(
        action,
        rejected(TryStartTurnIfIdleRejectionReason::Busy, false, false, work())
    );
    let (_, action) = idle(reserved(), IdleTurnEvent::PendingWork(true));
    assert_eq!(
        action,
        rejected(TryStartTurnIfIdleRejectionReason::PendingTriggerTurn, true, true, work())
    );
    let (state, _) = idle(reserved(), IdleTurnEvent::PendingWork(false));
    let (_, action) = idle(state.clone(), IdleTurnEvent::Context(None));
    assert_eq!(
        action,
        rejected(TryStartTurnIfIdleRejectionReason::PersistenceFailed, true, false, work())
    );
    let (_, action) = idle(state.clone(), IdleTurnEvent::Context(Some(ModeKind::Plan)));
    assert_eq!(
        action,
        rejected(TryStartTurnIfIdleRejectionReason::PlanMode, true, true, work())
    );
    let (state, _) = idle(state, IdleTurnEvent::Context(Some(ModeKind::Default)));
    let (state, _) = idle(state, IdleTurnEvent::Warned);
    let (state, _) = idle(state, IdleTurnEvent::PendingWork(false));
    let (_, action) = idle(state.clone(), IdleTurnEvent::StillReserved(false));
    assert_eq!(
        action,
        rejected(TryStartTurnIfIdleRejectionReason::Busy, true, false, work())
    );
    let (state, action) = idle(state, IdleTurnEvent::StillReserved(true));
    assert_eq!(action, IdleTurnAction::QueueInputAndStart);
    let (_, action) = idle(
        state.clone(),
        IdleTurnEvent::Started(TaskStartOutcome::Superseded),
    );
    assert_eq!(
        action,
        rejected(TryStartTurnIfIdleRejectionReason::Busy, true, false, work())
    );
    let (_, action) = idle(
        state.clone(),
        IdleTurnEvent::Started(TaskStartOutcome::RestartRequired),
    );
    assert_eq!(
        action,
        rejected(TryStartTurnIfIdleRejectionReason::PersistenceFailed, true, false, work())
    );
    let (_, action) = idle(state, IdleTurnEvent::Started(TaskStartOutcome::Started));
    assert_eq!(action, IdleTurnAction::Started);
    assert_eq!(start_idle_turn(Vec::new()).1, IdleTurnAction::Started);
}

#[test]
fn given_up_reservation_leaves_another_turn_alone() {
    let mut session: Session<u8> = Session::new(THREAD, false);
    let first = session.reserve_idle_turn().expect("idle");
    assert_eq!(session.reserve_idle_turn(), None);
    let reserved = session.active_turn.as_ref().expect("reserved");
    assert!(!reserved.execution_settings_refresh_requested);
    assert!(reserved.turn_state.pending_waiters.is_empty());
    session.clear_reserved_idle_turn(first);
    assert!(session.active_turn.is_none());
    let second = session.reserve_idle_turn().expect("idle again");
    assert_ne!(first, second);
    session.clear_reserved_idle_turn(first);
    assert!(session.holds_reservation(second));
    if let Some(turn) = session.active_turn.as_mut() {
        turn.task = Some(ActiveTask {
            kind: TaskKind::Regular,
            sub_id: "s".to_string(),
        });
    }
    session.clear_reserved_idle_turn(second);
    assert!(session.active_turn.is_some());
    assert!(!session.holds_reservation(second));
}

fn roll(state: RollbackState, event: RollbackEvent) -> (RollbackState, RollbackAction) {
    match step_rollback(state, event) {
        Ok(next) => next,
        Err((state, event)) => panic!("{event:?} does not answer {state:?}"),
    }
}

#[test]
fn rollback_replays_a_flushed_history() {
    let history = vec![RolloutItem::Other {
        json: "h".to_string(),
    }];
    let (state, action) = thread_rollback("s".to_string(), 2);
    assert_eq!(action, RollbackAction::LockHistoryAndReadActiveTurn);
    let (state, action) = roll(state, RollbackEvent::ActiveTurn(false));
    assert_eq!(action, RollbackAction::NewTurnContext("s".to_string()));
    let (state, action) = roll(state, RollbackEvent::Context(Some("t".to_string())));
    assert_eq!(action, RollbackAction::LockState);
    let (state, action) = roll(state, RollbackEvent::Locked { restart_required: false });
    assert_eq!(action, RollbackAction::FindWriter);
    let (state, action) = roll(state, RollbackEvent::Writer(true));
    assert_eq!(action, RollbackAction::Flush);
    let (state, action) = roll(state, RollbackEvent::Flushed(Ok(())));
    assert_eq!(action, RollbackAction::LoadHistory);
    let (_, action) = roll(state, RollbackEvent::Loaded(Ok(history.clone())));
    assert_eq!(
        action,
        RollbackAction::Complete { history: history.clone(), num_turns: 2 }
    );
    assert_eq!(
        replay_items(history.clone(), 2),
        vec![
            history[0].clone(),
            RolloutItem::EventMsg(EventMsg::ThreadRolledBack { num_turns: 2 })
        ]
    );
}

#[test]
fn refused_rollbacks_are_classed_as_such() {
    let failed = |reason: Reason, id: &str| {
        error(id, reason, CodexErrorInfo::ThreadRollbackFailed)
    };
    let t = || "t".to_string();
    assert_eq!(
        thread_rollback("s".to_string(), 0).1,
        RollbackAction::Refuse(failed(Reason::NumTurnsZero, "s"))
    );
    for (state, event, action) in [
        (
            RollbackState::ActiveTurn { sub_id: t(), num_turns: 1 },
            RollbackEvent::ActiveTurn(true),
            RollbackAction::Refuse(failed(Reason::RollbackDuringTurn, "t")),
        ),
        (
            RollbackState::Context { num_turns: 1 },
            RollbackEvent::Context(None),
            RollbackAction::Stop,
        ),
        (
            RollbackState::StateLock { sub_id: t(), num_turns: 1 },
            RollbackEvent::Locked { restart_required: true },
            RollbackAction::RefuseUnsaved(failed(Reason::RestartBeforeRollback, "t")),
        ),
        (
            RollbackState::Writer { sub_id: t(), num_turns: 1 },
            RollbackEvent::Writer(false),
            RollbackAction::Refuse(failed(Reason::RollbackNeedsHistory, "t")),
        ),
        (
            RollbackState::Flush { sub_id: t(), num_turns: 1 },
            RollbackEvent::Flushed(Err("E".to_string())),
            RollbackAction::Refuse(failed(Reason::RollbackFlush("E".to_string()), "t")),
        ),
        (
            RollbackState::History { sub_id: t(), num_turns: 1 },
            RollbackEvent::Loaded(Err("E".to_string())),
            RollbackAction::Refuse(failed(Reason::RollbackLoad("E".to_string()), "t")),
        ),
    ] {
        assert_eq!(roll(state, event), (RollbackState::Done, action));
    }
}

fn request(has_settings: bool) -> UserTurnRequest {
    UserTurnRequest {
        sub_id: "s".to_string(),
        client_user_message_id: Some("c".to_string()),
        parent_turn_id: Some("p".to_string()),
        has_settings,
        has_client_metadata: true,
    }
}

fn take(state: UserTurnState, event: UserTurnEvent) -> (UserTurnState, UserTurnAction) {
    match step_user_turn(state, event) {
        Ok(next) => next,
        Err((state, event)) => panic!("{event:?} does not answer {state:?}"),
    }
}

fn at_steer() -> UserTurnState {
    let (state, action) = user_input_or_turn(request(true), text_input("hi"));
    assert_eq!(action, UserTurnAction::ReadActiveTurn);
    let (state, action) = take(state, UserTurnEvent::ActiveTurn(false));
    assert_eq!(action, UserTurnAction::ReloadUserConfig);
    let (state, action) = take(state, UserTurnEvent::Reloaded);
    assert_eq!(action, UserTurnAction::NewTurn { with_settings: true });
    let (state, action) = take(state, UserTurnEvent::Context(Ok(())));
    assert_eq!(
        action,
        UserTurnAction::ReportSettingsApplied { sub_id: "s".to_string() }
    );
    let (state, action) = take(state, UserTurnEvent::Reported);
    assert_eq!(action, UserTurnAction::EmitModelWarnings);
    let (state, action) = take(state, UserTurnEvent::Warned);
    assert_eq!(
        action,
        UserTurnAction::Steer {
            items: text_input("hi"),
            client_user_message_id: Some("c".to_string())
        }
    );
    state
}

#[test]
fn message_starts_a_task_where_no_turn_runs() {
    let (state, action) = take(
        at_steer(),
        UserTurnEvent::Steered(Err(SteerInputError::NoActiveTurn(text_input("hi")))),
    );
    assert_eq!(
        action,
        UserTurnAction::AttributeAndLockState {
            parent_turn_id: Some("p".to_string()),
            set_client_metadata: true
        }
    );
    let (state, action) = take(state, UserTurnEvent::Locked { restart_required: false });
    assert_eq!(action, UserTurnAction::MergeAdditionalContext);
    let context = vec![item(None, "context")];
    let (state, action) = take(state, UserTurnEvent::Merged(context.clone()));
    assert_eq!(
        action,
        UserTurnAction::SpawnTask {
            context: context.clone(),
            items: text_input("hi"),
            client_user_message_id: Some("c".to_string())
        }
    );
    assert_eq!(
        task_input(context.clone(), text_input("hi"), Some("c".to_string())),
        vec![
            TurnInput::ResponseItem(context[0].clone()),
            TurnInput::UserInput {
                content: text_input("hi"),
                client_id: Some("c".to_string())
            }
        ]
    );
    assert_eq!(task_input(context, Vec::new(), None).len(), 1);
    let (_, action) = take(state, UserTurnEvent::Spawned(TaskStartOutcome::Started));
    assert_eq!(
        action,
        UserTurnAction::Finish {
            report: None,
            outcome: Ok(UserMessageAdmission::Started {
                turn_id: "s".to_string()
            })
        }
    );
}

#[test]
fn message_steers_is_rejected_or_meets_the_fence() {
    let (_, action) = take(at_steer(), UserTurnEvent::Steered(Ok("t".to_string())));
    assert_eq!(
        action,
        UserTurnAction::Finish {
            report: None,
            outcome: Ok(UserMessageAdmission::Steered {
                turn_id: "t".to_string()
            })
        }
    );
    let report = || EventMsg::Error {
        reason: Reason::Message("no".to_string()),
        info: CodexErrorInfo::BadRequest,
    };
    let (_, action) = take(
        at_steer(),
        UserTurnEvent::Steered(Err(SteerInputError::Rejected {
            report: report(),
            debug: "D".to_string(),
        })),
    );
    assert_eq!(
        action,
        UserTurnAction::Finish {
            report: Some(Event { id: "s".to_string(), msg: report() }),
            outcome: Err(CodexErr::InvalidRequest(Reason::UserMessageNotAdmitted(
                "D".to_string()
            )))
        }
    );
    let (state, _) = take(
        at_steer(),
        UserTurnEvent::Steered(Err(SteerInputError::NoActiveTurn(Vec::new()))),
    );
    let (_, action) = take(state, UserTurnEvent::Locked { restart_required: true });
    assert_eq!(
        action,
        UserTurnAction::Finish {
            report: Some(error("s", Reason::RestartBeforeTurn, CodexErrorInfo::Other)),
            outcome: Err(CodexErr::TurnAborted)
        }
    );
    let (_, action) = take(
        UserTurnState::Spawn { sub_id: "s".to_string() },
        UserTurnEvent::Spawned(TaskStartOutcome::RestartRequired),
    );
    assert_eq!(
        action,
        UserTurnAction::Finish {
            report: None,
            outcome: Err(CodexErr::TurnAborted)
        }
    );
    let (state, _) = user_input_or_turn(request(false), Vec::new());
    let (state, action) = take(state, UserTurnEvent::ActiveTurn(true));
    assert_eq!(action, UserTurnAction::NewTurn { with_settings: false });
    let (_, action) = take(state, UserTurnEvent::Context(Err(CodexErr::TurnAborted)));
    assert_eq!(
        action,
        UserTurnAction::Finish {
            report: None,
            outcome: Err(CodexErr::TurnAborted)
        }
    );
}

fn execution(model: &str, tier: Option<&str>) -> ExecutionSettings {
    ExecutionSettings {
        model: model.to_string(),
        reasoning_effort: None,
        service_tier: tier.map(str::to_string),
    }
}

#[test]
fn settings_refresh_the_turn_only_when_execution_changes() {
    for (after, refreshed) in [
        (execution("m", None), false),
        (execution("n", None), true),
        (execution("m", Some("fast")), true),
    ] {
        let (state, _) = update_thread_settings("s".to_string());
        let (state, action) = step_settings(state, SettingsEvent::Admitted(true)).expect("admitted");
        assert_eq!(action, SettingsAction::ReadExecutionSettings);
        let (state, action) =
            step_settings(state, SettingsEvent::Execution(execution("m", None))).expect("before");
        assert_eq!(action, SettingsAction::UpdateSettings);
        let (state, _) = step_settings(state, SettingsEvent::Updated(Ok(()))).expect("updated");
        let (state, action) =
            step_settings(state, SettingsEvent::Execution(after)).expect("after");
        let applied = SettingsAction::ReportApplied { sub_id: "s".to_string() };
        if refreshed {
            assert_eq!(action, SettingsAction::RefreshTurnAndHelper);
            let (_, action) = step_settings(state, SettingsEvent::Refreshed).expect("refreshed");
            assert_eq!(action, applied);
        } else {
            assert_eq!(action, applied);
        }
    }
}

#[test]
fn refused_settings_are_reported() {
    let (state, _) = update_thread_settings("s".to_string());
    let (_, action) = step_settings(state, SettingsEvent::Admitted(false)).expect("refused");
    assert_eq!(
        action,
        SettingsAction::RefuseUnsaved(error(
            "s",
            Reason::RestartBeforeSettings,
            CodexErrorInfo::Other
        ))
    );
    let (state, _) = update_thread_settings("s".to_string());
    let (state, _) = step_settings(state, SettingsEvent::Admitted(true)).expect("admitted");
    let (state, _) =
        step_settings(state, SettingsEvent::Execution(execution("m", None))).expect("before");
    let (_, action) =
        step_settings(state, SettingsEvent::Updated(Err("E".to_string()))).expect("invalid");
    assert_eq!(
        action,
        SettingsAction::Refuse(error(
            "s",
            Reason::InvalidThreadSettings("E".to_string()),
            CodexErrorInfo::BadRequest
        ))
    );
    let mut turn = Some(active(None));
    request_execution_settings_refresh(&mut turn);
    assert_eq!(
        turn.map(|turn| turn.execution_settings_refresh_requested),
        Some(true)
    );
    let mut none = None;
    request_execution_settings_refresh(&mut none);
    assert_eq!(none, None);
    assert_eq!(
        thread_settings_applied_event("s".to_string(), "{}".to_string()).msg,
        EventMsg::ThreadSettingsApplied { thread_settings: "{}".to_string() }
    );
}

#[test]
fn overrides_become_an_update_with_a_mode() {
    let nothing = || ThreadSettingsOverrides::<u8> {
        environments: None,
        profile_workspace_roots: None,
        approval_policy: None,
        approvals_reviewer: None,
        sandbox_policy: None,
        permission_profile: None,
        active_permission_profile: None,
        windows_sandbox_level: None,
        model: None,
        effort: None,
        summary: None,
        service_tier: None,
        collaboration_mode: None,
        personality: None,
    };
    assert!(!nothing().overrides_anything());
    let mut settings = nothing();
    settings.model = Some(1);
    assert!(settings.overrides_anything());
    settings.summary = Some(2);
    settings.personality = Some(3);
    let update = thread_settings_update(settings.clone(), 9);
    assert_eq!(update.collaboration_mode, Some(9));
    assert_eq!(update.reasoning_summary, Some(2));
    assert_eq!(update.personality, Some(3));
    assert_eq!(update.environments, None);
    settings.collaboration_mode = Some(4);
    assert_eq!(
        thread_settings_update(settings, 9).collaboration_mode,
        Some(4)
    );
}

fn task(
    state: RegularState,
    event: RegularEvent<&'static str, u8>,
) -> (RegularState, RegularAction<&'static str, u8>) {
    match step_regular(state, event) {
        Ok(next) => next,
        Err((state, event)) => panic!("{event:?} does not answer {state:?}"),
    }
}

#[test]
fn late_input_is_sampled_before_the_task_ends() {
    let (state, action) = run::<&str, u8>(user_input("hi"), false, false);
    assert_eq!(action, RegularAction::EmitTurnStarted);
    let (state, action) = task(state, RegularEvent::Emitted);
    assert_eq!(action, RegularAction::RunContributors);
    let (state, action) = task(state, RegularEvent::Prepared { cancelled: false });
    assert_eq!(action, RegularAction::ResetServerReasoning);
    let (state, action) = task(state, RegularEvent::ReasoningReset);
    assert_eq!(action, RegularAction::ConsumePrewarm);
    let (state, action) = task(state, RegularEvent::Prewarm(PrewarmResolution::Ready("warm")));
    assert_eq!(
        action,
        RegularAction::RunTurn {
            input: user_input("hi"),
            startup: ProviderStartup::Ready(Some("warm"))
        }
    );
    let (state, action) = task(state, RegularEvent::Sampled(Ok(Some("one".to_string()))));
    assert_eq!(action, RegularAction::ReadTerminalError);
    let (state, action) = task(state, RegularEvent::TerminalError(false));
    assert_eq!(action, RegularAction::ReadPendingInput);
    // Input that came while the turn was sampled is sampled before the task ends.
    let (state, action) = task(state, RegularEvent::PendingInput(true));
    assert_eq!(action, RegularAction::RunTurnAgain);
    let (state, _) = task(state, RegularEvent::Sampled(Ok(Some("two".to_string()))));
    let (state, _) = task(state, RegularEvent::TerminalError(false));
    let (_, action) = task(state, RegularEvent::PendingInput(false));
    assert_eq!(action, RegularAction::Finish(Ok(Some("two".to_string()))));
}

#[test]
fn cancelled_task_records_its_input_after_reprojection() {
    let (state, _) = run::<&str, u8>(user_input("hi"), true, false);
    let (state, _) = task(state, RegularEvent::Emitted);
    let (state, action) = task(state, RegularEvent::Prepared { cancelled: true });
    assert_eq!(action, RegularAction::RequestMcpReprojection);
    let (state, action) = task(state, RegularEvent::Reprojected);
    assert_eq!(action, RegularAction::RecordInputs(user_input("hi")));
    let (_, action) = task(state, RegularEvent::InputsRecorded);
    assert_eq!(action, RegularAction::Finish(Ok(None)));
}

#[test]
fn startup_is_deferred_cancelled_or_cold() {
    let at_reset = |routing_cooldown: bool| {
        let (state, _) = run::<&str, u8>(user_input("hi"), false, routing_cooldown);
        let (state, _) = task(state, RegularEvent::Emitted);
        task(state, RegularEvent::Prepared { cancelled: false }).0
    };
    let (_, action) = task(at_reset(true), RegularEvent::ReasoningReset);
    assert_eq!(
        action,
        RegularAction::RunTurn {
            input: user_input("hi"),
            startup: ProviderStartup::DeferredForRoutingCooldown
        }
    );
    let prewarm = || task(at_reset(false), RegularEvent::ReasoningReset).0;
    let (_, action) = task(prewarm(), RegularEvent::Prewarm(PrewarmResolution::Unavailable));
    assert_eq!(
        action,
        RegularAction::RunTurn {
            input: user_input("hi"),
            startup: ProviderStartup::Ready(None)
        }
    );
    let (_, action) = task(prewarm(), RegularEvent::Prewarm(PrewarmResolution::Cancelled));
    assert_eq!(action, RegularAction::RecordInputs(user_input("hi")));
    let (_, action) = task(RegularState::Sampled, RegularEvent::Sampled(Err(3)));
    assert_eq!(action, RegularAction::Finish(Err(3)));
    let (_, action) = task(
        RegularState::TerminalError { last_message: Some("last".to_string()) },
        RegularEvent::TerminalError(true),
    );
    assert_eq!(action, RegularAction::Finish(Ok(Some("last".to_string()))));
}

#[test]
fn tool_servers_are_prepared_by_task_start_contributors() {
    let contributor = |phase: TurnStartPhase, requires_mcp_runtime: bool| TurnContributor {
        phase,
        requires_mcp_runtime,
    };
    assert!(!prepares_mcp(&vec![
        contributor(TurnStartPhase::TurnStart, true),
        contributor(TurnStartPhase::RegularTaskStart, false),
    ]));
    assert!(prepares_mcp(&vec![
        contributor(TurnStartPhase::TurnStart, false),
        contributor(TurnStartPhase::RegularTaskStart, true),
    ]));
    assert_eq!(RegularTask::new().kind(), TaskKind::Regular);
    assert_eq!(RegularTask::default().span_name(), "session_task.turn");
}
