use session_core::errors::CodexErr;
use session_core::errors::CodexErrorInfo;
use session_core::errors::Reason;
use session_core::ids::ThreadId;
use session_core::protocol::ContentItem;
use session_core::protocol::Event;
use session_core::protocol::EventMsg;
use session_core::protocol::InterAgentCommunication;
use session_core::protocol::ResponseItem;
use session_core::session::dispatch::dispatch_submission;
use session_core::session::dispatch::exits;
use session_core::session::dispatch::finish_dispatch;
use session_core::session::dispatch::late_admission;
use session_core::session::dispatch::restart_refusal;
use session_core::session::dispatch::Acknowledge;
use session_core::session::dispatch::Dispatch;
use session_core::session::dispatch::ElicitationAction;
use session_core::session::dispatch::GuardianAssessmentEvent;
use session_core::session::dispatch::GuardianAssessmentStatus;
use session_core::session::dispatch::Handler;
use session_core::session::dispatch::Op;
use session_core::session::dispatch::RequestId;
use session_core::session::dispatch::ReviewDecision;
use session_core::session::dispatch::Submission;
use session_core::session::dispatch::ThreadMemoryMode;
use session_core::session::handlers::approve_guardian_denied_action;
use session_core::session::handlers::exec_approval;
use session_core::session::handlers::execpolicy_amendment;
use session_core::session::handlers::inter_agent_communication;
use session_core::session::handlers::other_error_event;
use session_core::session::handlers::patch_approval;
use session_core::session::handlers::persist_thread_memory_mode_update;
use session_core::session::handlers::realtime_conversation_list_voices;
use session_core::session::handlers::resolve_elicitation;
use session_core::session::handlers::ElicitationResponse;
use session_core::session::handlers::review;
use session_core::session::handlers::run_user_shell_command;
use session_core::session::handlers::set_thread_memory_mode;
use session_core::session::handlers::shutdown;
use session_core::session::handlers::shutdown_session_runtime;
use session_core::session::handlers::shutdown_steps;
use session_core::session::handlers::turn_count;
use session_core::session::handlers::ApprovalAction;
use session_core::session::handlers::MailReceived;
use session_core::session::handlers::MemoryModeStep;
use session_core::session::handlers::ReviewPlan;
use session_core::session::handlers::ShellCommandPlan;
use session_core::session::handlers::ShutdownReports;
use session_core::session::handlers::ShutdownStep;
use session_core::session::input_queue::InputQueueActivity;
use session_core::session::session::Session;
use session_core::session::submission_loop::start_loop;
use session_core::session::submission_loop::step_loop;
use session_core::session::submission_loop::LoopAction;
use session_core::session::submission_loop::LoopEvent;
use session_core::session::submission_loop::LoopState;

fn sub(id: &str, op: Op<u8>) -> Submission<u8> {
    Submission {
        id: id.to_string(),
        op,
        client_user_message_id: Some("client".to_string()),
        parent_turn_id: Some("parent".to_string()),
    }
}

fn elicitation(id: &str) -> Submission<u8> {
    sub(
        id,
        Op::ResolveElicitation {
            server_name: "server".to_string(),
            request_id: RequestId::Integer(1),
            decision: ElicitationAction::Accept,
            content: None,
            meta: None,
        },
    )
}

fn error(id: &str, reason: Reason, info: CodexErrorInfo) -> Event {
    Event {
        id: id.to_string(),
        msg: EventMsg::Error { reason, info },
    }
}

fn mail(trigger_turn: bool) -> InterAgentCommunication {
    InterAgentCommunication {
        author: "/root".to_string(),
        recipient: "/root/worker".to_string(),
        other_recipients: Vec::new(),
        content: "text".to_string(),
        encrypted_content: None,
        trigger_turn,
    }
}

#[test]
fn every_operation_has_its_handler() {
    let handler = |op: Op<u8>| match dispatch_submission(
        sub("s", op),
        false,
        Some("admission"),
        None::<u8>,
    ) {
        Dispatch::Run { handler, .. } => handler,
        other => panic!("{other:?}"),
    };
    let s = || "s".to_string();
    let id = || "id".to_string();
    assert_eq!(handler(Op::Interrupt), Handler::Interrupt);
    assert_eq!(
        handler(Op::CleanBackgroundTerminals),
        Handler::CleanBackgroundTerminals
    );
    assert_eq!(
        handler(Op::RealtimeConversationStart(1)),
        Handler::RealtimeStart { sub_id: s(), params: 1 }
    );
    assert_eq!(
        handler(Op::RealtimeConversationAudio(1)),
        Handler::RealtimeAudio { sub_id: s(), params: 1 }
    );
    assert_eq!(
        handler(Op::RealtimeConversationText(1)),
        Handler::RealtimeText { sub_id: s(), params: 1 }
    );
    assert_eq!(
        handler(Op::RealtimeConversationSpeech(1)),
        Handler::RealtimeSpeech { sub_id: s(), params: 1 }
    );
    assert_eq!(
        handler(Op::RealtimeConversationClose),
        Handler::RealtimeClose { sub_id: s() }
    );
    assert_eq!(
        handler(Op::RealtimeConversationListVoices),
        Handler::RealtimeListVoices { sub_id: s() }
    );
    assert_eq!(
        handler(Op::UserInput(2)),
        Handler::UserInputOrTurn {
            sub_id: s(),
            op: 2,
            client_user_message_id: Some("client".to_string()),
            parent_turn_id: Some("parent".to_string()),
        }
    );
    assert_eq!(
        handler(Op::ThreadSettings { thread_settings: 3 }),
        Handler::UpdateThreadSettings { sub_id: s(), thread_settings: 3 }
    );
    assert_eq!(
        handler(Op::InterAgentCommunication { communication: mail(true) }),
        Handler::InterAgentCommunication {
            sub_id: s(),
            communication: mail(true),
            parent_turn_id: Some("parent".to_string()),
        }
    );
    assert_eq!(
        handler(Op::ExecApproval { id: id(), turn_id: None, decision: ReviewDecision::Denied }),
        Handler::ExecApproval {
            approval_id: id(),
            turn_id: None,
            decision: ReviewDecision::Denied,
        }
    );
    assert_eq!(
        handler(Op::PatchApproval { id: id(), decision: ReviewDecision::Approved }),
        Handler::PatchApproval { id: id(), decision: ReviewDecision::Approved }
    );
    assert_eq!(
        handler(Op::UserInputAnswer { id: id(), response: 4 }),
        Handler::RequestUserInputResponse { id: id(), response: 4 }
    );
    assert_eq!(
        handler(Op::RequestPermissionsResponse { id: id(), response: 4 }),
        Handler::RequestPermissionsResponse { id: id(), response: 4 }
    );
    assert_eq!(
        handler(Op::DynamicToolResponse { id: id(), response: 4 }),
        Handler::DynamicToolResponse { id: id(), response: 4 }
    );
    assert_eq!(handler(Op::RefreshMcpServers), Handler::RefreshMcpServers);
    assert_eq!(handler(Op::ReloadUserConfig), Handler::ReloadUserConfig);
    assert_eq!(handler(Op::Compact), Handler::Compact { sub_id: s() });
    assert_eq!(
        handler(Op::SetThreadMemoryMode { mode: ThreadMemoryMode::Disabled }),
        Handler::SetThreadMemoryMode { sub_id: s(), mode: ThreadMemoryMode::Disabled }
    );
    assert_eq!(
        handler(Op::RunUserShellCommand { command: "ls".to_string() }),
        Handler::RunUserShellCommand { sub_id: s(), command: "ls".to_string() }
    );
    assert!(matches!(
        handler(elicitation("s").op),
        Handler::ResolveElicitation { .. }
    ));
    assert_eq!(handler(Op::Shutdown), Handler::Shutdown { sub_id: s() });
    assert_eq!(
        handler(Op::Review { review_request: 5 }),
        Handler::Review { sub_id: s(), review_request: 5 }
    );
    assert_eq!(handler(Op::Unknown(6)), Handler::Ignore);
}

#[test]
fn rollback_takes_the_admission_and_others_keep_it() {
    assert_eq!(
        dispatch_submission(
            sub("s", Op::ThreadRollback { num_turns: 2 }),
            false,
            Some("admission"),
            Some("sender")
        ),
        Dispatch::Run {
            handler: Handler::ThreadRollback {
                sub_id: "s".to_string(),
                num_turns: 2,
                admission: "admission"
            },
            admission: None,
            acknowledgement: Some("sender"),
        }
    );
    assert_eq!(
        dispatch_submission(sub("s", Op::Compact), false, Some("admission"), Some("sender")),
        Dispatch::Run {
            handler: Handler::Compact { sub_id: "s".to_string() },
            admission: Some("admission"),
            acknowledgement: Some("sender"),
        }
    );
    assert_eq!(
        dispatch_submission(
            sub("s", Op::ThreadRollback { num_turns: 2 }),
            false,
            None::<&str>,
            None::<&str>
        ),
        Dispatch::Run {
            handler: Handler::RollbackNotAdmitted {
                event: error(
                    "s",
                    Reason::RollbackAdmissionMissing,
                    CodexErrorInfo::ThreadRollbackFailed
                )
            },
            admission: None,
            acknowledgement: None,
        }
    );
    assert_eq!(
        finish_dispatch(Some(1), Some(2)),
        Acknowledge::Now { acknowledgement: 2, admission: 1 }
    );
    assert_eq!(
        finish_dispatch(None::<u8>, Some(2)),
        Acknowledge::Later { acknowledgement: 2 }
    );
    assert_eq!(finish_dispatch(Some(1), None::<u8>), Acknowledge::Nothing);
    assert_eq!(late_admission(false, 1), Ok(1));
    assert_eq!(late_admission(true, 1), Err(CodexErr::TurnAborted));
}

#[test]
fn fenced_thread_runs_nothing_but_shutdown() {
    assert_eq!(
        dispatch_submission(sub("s", Op::UserInput(1)), true, Some(1), Some(2)),
        Dispatch::Refused {
            failed_user_message: Some("s".to_string()),
            acknowledgement: Some(2),
            error: CodexErr::TurnAborted,
            event: error("s", Reason::RestartBeforeContinuing, CodexErrorInfo::Other),
        }
    );
    assert_eq!(
        dispatch_submission(sub("s", Op::Interrupt), true, Some(1), None::<u8>),
        Dispatch::Refused {
            failed_user_message: None,
            acknowledgement: None,
            error: CodexErr::TurnAborted,
            event: error("s", Reason::RestartBeforeContinuing, CodexErrorInfo::Other),
        }
    );
    assert!(matches!(
        dispatch_submission(sub("s", Op::Shutdown), true, Some(1), None::<u8>),
        Dispatch::Run { handler: Handler::Shutdown { .. }, .. }
    ));
    assert_eq!(restart_refusal(), CodexErr::TurnAborted);
    for restart_required in [false, true] {
        let dispatch = |op: Op<u8>| {
            dispatch_submission(sub("s", op), restart_required, Some(1), None::<u8>)
        };
        assert!(exits(&dispatch(Op::Shutdown)));
        assert!(!exits(&dispatch(Op::UserInput(1))));
        assert!(!exits(&dispatch(Op::Interrupt)));
    }
}

fn step(state: LoopState<u8>, event: LoopEvent<u8>) -> (LoopState<u8>, LoopAction<u8>) {
    match step_loop(state, event) {
        Ok(next) => next,
        Err((state, event)) => panic!("{event:?} is not waited for in {state:?}"),
    }
}

#[test]
fn elicitation_response_bypasses_checkpoint_admission_held_by_its_request_owner() {
    let (state, action) = start_loop();
    assert_eq!(action, LoopAction::Receive { control: true, ordinary: true });
    let head = || sub("ordinary-head-under-checkpoint-admission", Op::Interrupt);
    let resolve = || {
        sub(
            "resolve-elicitation-under-checkpoint-admission",
            Op::ResolveElicitation {
                server_name: "test-server".to_string(),
                request_id: RequestId::String("request-1".to_string()),
                decision: ElicitationAction::Decline,
                content: None,
                meta: None,
            },
        )
    };
    let end = || sub("shutdown-after-elicitation-response", Op::Shutdown);
    let (state, action) = step(state, LoopEvent::Ordinary(Some(head())));
    assert_eq!(action, LoopAction::AwaitAdmission { control: true });
    // The admission is taken, and stays so: both of these come over the control channel.
    let (state, action) = step(state, LoopEvent::Control(Some(resolve())));
    assert_eq!(
        action,
        LoopAction::Dispatch { sub: resolve(), with_admission: false }
    );
    let (state, action) = step(state, LoopEvent::Dispatched { exit: false });
    assert_eq!(action, LoopAction::AwaitAdmission { control: true });
    let (state, action) = step(state, LoopEvent::Control(Some(end())));
    assert_eq!(action, LoopAction::StartShutdown { sub: end() });
    let (state, action) = step(state, LoopEvent::ShutdownFinished { exit: true });
    assert_eq!(action, LoopAction::Exit);
    assert!(state.shutdown_received);
}

#[test]
fn waiting_submission_goes_on_after_an_elicitation() {
    let (state, _) = start_loop();
    let (state, _) = step(state, LoopEvent::Ordinary(Some(sub("o", Op::Compact))));
    let (state, _) = step(state, LoopEvent::Control(Some(elicitation("c"))));
    let (state, action) = step(state, LoopEvent::Dispatched { exit: false });
    assert_eq!(action, LoopAction::AwaitAdmission { control: true });
    let (state, action) = step(state, LoopEvent::Admitted);
    assert_eq!(
        action,
        LoopAction::Dispatch { sub: sub("o", Op::Compact), with_admission: true }
    );
    let (_, action) = step(state, LoopEvent::Dispatched { exit: false });
    assert_eq!(action, LoopAction::Receive { control: true, ordinary: true });
}

#[test]
fn control_shutdown_serves_only_elicitations() {
    let (state, _) = start_loop();
    let (state, action) = step(state, LoopEvent::Control(Some(sub("x", Op::Shutdown))));
    assert_eq!(action, LoopAction::StartShutdown { sub: sub("x", Op::Shutdown) });
    let (state, action) = step(state, LoopEvent::Control(Some(sub("i", Op::Interrupt))));
    assert_eq!(action, LoopAction::AwaitShutdown { control: true });
    let (state, action) = step(state, LoopEvent::Control(Some(elicitation("e"))));
    assert_eq!(
        action,
        LoopAction::Dispatch { sub: elicitation("e"), with_admission: false }
    );
    let (state, action) = step(state, LoopEvent::Dispatched { exit: false });
    assert_eq!(action, LoopAction::AwaitShutdown { control: true });
    let (state, action) = step(state, LoopEvent::Control(None));
    assert_eq!(action, LoopAction::AwaitShutdown { control: false });
    let (state, action) = step(state, LoopEvent::ShutdownFinished { exit: true });
    assert_eq!(action, LoopAction::Exit);
    assert!(state.shutdown_received);
    assert!(step_loop(state, LoopEvent::TornDown).is_err());
}

#[test]
fn closed_channels_end_in_a_teardown() {
    let (state, _) = start_loop::<u8>();
    let (state, action) = step(state, LoopEvent::Control(None));
    assert_eq!(action, LoopAction::Receive { control: false, ordinary: true });
    let (state, action) = step(state, LoopEvent::Ordinary(None));
    assert_eq!(action, LoopAction::TearDown);
    let (state, action) = step(state, LoopEvent::TornDown);
    assert_eq!(action, LoopAction::Exit);
    assert!(!state.shutdown_received);
}

#[test]
fn ordinary_shutdown_ends_the_loop() {
    let (state, _) = start_loop();
    let (state, _) = step(state, LoopEvent::Ordinary(Some(sub("x", Op::Shutdown))));
    let (state, action) = step(state, LoopEvent::Admitted);
    assert_eq!(
        action,
        LoopAction::Dispatch { sub: sub("x", Op::Shutdown), with_admission: true }
    );
    let (_, action) = step(state, LoopEvent::Dispatched { exit: true });
    assert_eq!(action, LoopAction::Exit);
}

#[test]
fn unfinished_control_shutdown_lets_the_waiting_submission_go_on() {
    let (state, _) = start_loop();
    let (state, _) = step(state, LoopEvent::Ordinary(Some(sub("o", Op::Compact))));
    let (state, _) = step(state, LoopEvent::Control(Some(sub("x", Op::Shutdown))));
    let (_, action) = step(state, LoopEvent::ShutdownFinished { exit: false });
    assert_eq!(action, LoopAction::AwaitAdmission { control: true });
}

#[test]
fn mail_is_dropped_on_a_fenced_thread_and_names_its_turn_only_if_it_triggers() {
    let mut session: Session<u8> = Session::new(ThreadId { value: 1 }, false);
    let turn = || Some("turn".to_string());
    assert_eq!(
        inter_agent_communication(&mut session, mail(false), turn(), false),
        Some(MailReceived {
            activity: InputQueueActivity::Mailbox,
            start_pending_work: false
        })
    );
    assert_eq!(session.input_queue.mailbox[0].parent_turn_id, None);
    assert_eq!(
        inter_agent_communication(&mut session, mail(true), turn(), false)
            .map(|received| received.start_pending_work),
        Some(true)
    );
    assert_eq!(session.input_queue.mailbox[1].parent_turn_id, turn());
    assert_eq!(
        inter_agent_communication(&mut session, mail(false), turn(), true)
            .map(|received| received.start_pending_work),
        Some(true)
    );
    session.persistence_restart_required = true;
    assert_eq!(
        inter_agent_communication(&mut session, mail(true), turn(), true),
        None
    );
    assert_eq!(session.input_queue.mailbox.len(), 3);
}

#[test]
fn decisions_are_passed_on_and_aborts_interrupt() {
    let amend = ReviewDecision::ApprovedExecpolicyAmendment {
        proposed_execpolicy_amendment: "allow".to_string(),
    };
    assert_eq!(execpolicy_amendment(&amend), Some(&"allow".to_string()));
    assert_eq!(execpolicy_amendment(&ReviewDecision::Approved), None);
    assert_eq!(
        patch_approval("p".to_string(), ReviewDecision::Abort),
        ApprovalAction::InterruptTask
    );
    let notify = |decision: ReviewDecision| ApprovalAction::Notify {
        approval_id: "p".to_string(),
        decision,
    };
    assert_eq!(
        patch_approval("p".to_string(), ReviewDecision::Denied),
        notify(ReviewDecision::Denied)
    );
    let warning = |id: &str| {
        Some(Event {
            id: id.to_string(),
            msg: EventMsg::Warning {
                reason: Reason::ExecpolicyAmendment("E".to_string()),
            },
        })
    };
    let failed = || Some("E".to_string());
    assert_eq!(
        exec_approval("p".to_string(), None, amend.clone(), failed()),
        (warning("p"), notify(amend.clone()))
    );
    assert_eq!(
        exec_approval("p".to_string(), Some("t".to_string()), amend.clone(), failed()),
        (warning("t"), notify(amend.clone()))
    );
    assert_eq!(
        exec_approval("p".to_string(), None, amend.clone(), None),
        (None, notify(amend))
    );
    assert_eq!(
        exec_approval("p".to_string(), None, ReviewDecision::Abort, None),
        (None, ApprovalAction::InterruptTask)
    );
}

#[test]
fn accepted_elicitations_have_content() {
    let resolve = |action, content| resolve_elicitation(action, content, Some("m"), "{}");
    let response = |action, content| ElicitationResponse {
        action,
        content,
        meta: Some("m"),
    };
    assert_eq!(
        resolve(ElicitationAction::Accept, None),
        response(ElicitationAction::Accept, Some("{}"))
    );
    assert_eq!(
        resolve(ElicitationAction::Accept, Some("x")),
        response(ElicitationAction::Accept, Some("x"))
    );
    assert_eq!(
        resolve(ElicitationAction::Decline, Some("x")),
        response(ElicitationAction::Decline, None)
    );
    assert_eq!(
        resolve(ElicitationAction::Cancel, Some("x")),
        response(ElicitationAction::Cancel, None)
    );
    assert_eq!(resolve_elicitation(ElicitationAction::Decline, None, None, "{}").meta, None);
}

#[test]
fn shell_commands_run_beside_a_turn_or_alone() {
    assert_eq!(
        run_user_shell_command(true, false),
        ShellCommandPlan::BesideActiveTurn
    );
    assert_eq!(run_user_shell_command(false, true), ShellCommandPlan::OwnTask);
    assert_eq!(run_user_shell_command(false, false), ShellCommandPlan::Nothing);
}

#[test]
fn memory_mode_is_saved_between_flushes() {
    let mut step = MemoryModeStep::LockState;
    let mut steps = vec![step];
    while step != MemoryModeStep::Done {
        step = persist_thread_memory_mode_update(step, Ok(())).expect("succeeds");
        steps.push(step);
    }
    assert_eq!(
        steps,
        vec![
            MemoryModeStep::LockState,
            MemoryModeStep::FindWriter,
            MemoryModeStep::Persist,
            MemoryModeStep::Flush,
            MemoryModeStep::UpdateMemoryMode,
            MemoryModeStep::FlushUpdate,
            MemoryModeStep::Done,
        ]
    );
    assert_eq!(
        persist_thread_memory_mode_update(MemoryModeStep::Flush, Err("E".to_string())),
        Err("E".to_string())
    );
    assert_eq!(set_thread_memory_mode("s".to_string(), Ok(())), None);
    assert_eq!(
        set_thread_memory_mode("s".to_string(), Err("E".to_string())),
        Some(error("s", Reason::Message("E".to_string()), CodexErrorInfo::Other))
    );
}

#[test]
fn shutdown_stops_persistence_last_and_reports() {
    let runtime = shutdown_session_runtime();
    assert_eq!(runtime.len(), 11);
    assert_eq!(runtime.first(), Some(&ShutdownStep::AbortPrewarm));
    assert_eq!(runtime.last(), Some(&ShutdownStep::RunSessionEndHooks));
    assert_eq!(
        shutdown_steps(true)[11..],
        [
            ShutdownStep::ReportTurnCount,
            ShutdownStep::StopContributors,
            ShutdownStep::StopPersistence,
            ShutdownStep::ReportComplete,
        ]
    );
    assert_eq!(
        shutdown_steps(false)[11..],
        [ShutdownStep::StopContributors, ShutdownStep::StopPersistence]
    );
    let complete = Event {
        id: "s".to_string(),
        msg: EventMsg::ShutdownComplete,
    };
    assert_eq!(
        shutdown("s".to_string(), false),
        ShutdownReports {
            saved: None,
            delivered: complete.clone()
        }
    );
    assert_eq!(
        shutdown("s".to_string(), true),
        ShutdownReports {
            saved: Some(error("s", Reason::ShutdownPersistence, CodexErrorInfo::Other)),
            delivered: complete
        }
    );
    assert_eq!(turn_count(&vec![true, false, true, true]), 3);
    assert_eq!(turn_count(&Vec::new()), 0);
}

#[test]
fn reviews_are_spawned_or_reported() {
    assert_eq!(review("s".to_string(), Ok(1)), ReviewPlan::Spawn(1));
    assert_eq!(
        review::<u8>("s".to_string(), Err("E".to_string())),
        ReviewPlan::Report(error(
            "s",
            Reason::Message("E".to_string()),
            CodexErrorInfo::Other
        ))
    );
    assert_eq!(
        other_error_event("s".to_string(), "E".to_string()),
        error("s", Reason::Message("E".to_string()), CodexErrorInfo::Other)
    );
    assert_eq!(
        realtime_conversation_list_voices("s".to_string(), "[\"cove\"]".to_string()),
        Event {
            id: "s".to_string(),
            msg: EventMsg::RealtimeConversationListVoicesResponse {
                voices: "[\"cove\"]".to_string()
            }
        }
    );
}

#[test]
fn denied_actions_are_approved_in_words() {
    let event = |status: GuardianAssessmentStatus, action: &str| GuardianAssessmentEvent {
        id: "g".to_string(),
        status,
        action: action.to_string(),
    };
    let item = approve_guardian_denied_action(
        &event(GuardianAssessmentStatus::Denied, "{\"b\":1,\"a\":[]}"),
        "PREFIX",
    )
    .expect("a denied action can be approved");
    let ResponseItem::Message { id, role, content, .. } = item else {
        panic!("a message");
    };
    assert_eq!((id, role.as_str()), (None, "developer"));
    let action: serde_json::Value =
        serde_json::from_str("{\"action\":{\"b\":1,\"a\":[]},\"outcome\":\"allowed\"}")
            .expect("json");
    let pretty = serde_json::to_string_pretty(&action).expect("pretty");
    assert!(pretty.contains("\n    \"b\": 1"));
    assert_eq!(
        content,
        vec![ContentItem::InputText {
            text: format!(
                "PREFIX\n\nTreat this as approval to perform that exact action in the same context in which it was originally requested.\nDo not assume this also authorizes similar operations with different payloads.\n\nApproved action:\n{pretty}"
            )
        }]
    );
    for status in [
        GuardianAssessmentStatus::InProgress,
        GuardianAssessmentStatus::Approved,
        GuardianAssessmentStatus::Aborted,
    ] {
        assert_eq!(approve_guardian_denied_action(&event(status, "{}"), "P"), None);
    }
    assert_eq!(
        approve_guardian_denied_action(&event(GuardianAssessmentStatus::Denied, "{"), "P"),
        None
    );
    // What would pass for JSON only inside the object is no action.
    assert_eq!(
        approve_guardian_denied_action(&event(GuardianAssessmentStatus::Denied, "1,\"b\":2"), "P"),
        None
    );
}
