use session_core::ids::ThreadId;
use session_core::protocol::AgentStatus;
use session_core::protocol::SessionSource;
use session_core::protocol::SubAgentSource;
use session_core::tools::multi_agents::close_agent::handle_close_agent;
use session_core::tools::multi_agents::close_agent::parse_agent_id_target;
use session_core::tools::multi_agents::close_agent::step_close_tree;
use session_core::tools::multi_agents::close_agent::AgentMetadata;
use session_core::tools::multi_agents::close_agent::CloseAgentResult;
use session_core::tools::multi_agents::close_agent::CloseReport;
use session_core::tools::multi_agents::close_agent::CloseTreeAction;
use session_core::tools::multi_agents::close_agent::CloseTreeEvent;
use session_core::tools::multi_agents::close_agent_v2;
use session_core::tools::multi_agents::close_agent_v2::close_target;
use session_core::tools::multi_agents::message_tool::direct_parent_thread_id;
use session_core::tools::multi_agents::message_tool::handle_message_string_tool;
use session_core::tools::multi_agents::message_tool::message_content;
use session_core::tools::multi_agents::message_tool::message_receiver;
use session_core::tools::multi_agents::message_tool::step_message;
use session_core::tools::multi_agents::message_tool::MessageAction;
use session_core::tools::multi_agents::message_tool::MessageDeliveryMode;
use session_core::tools::multi_agents::message_tool::MessageEvent;
use session_core::tools::multi_agents::message_tool::SendRequest;
use session_core::tools::multi_agents::message_tool::TurnOrigin;
use session_core::tools::multi_agents::supervisor_compact_parent_context;
use session_core::tools::multi_agents::supervisor_compact_parent_context::SupervisorParentCompactionResult;
use session_core::tools::multi_agents::supervisor_followup_parent::handle_followup_parent;
use session_core::tools::multi_agents::supervisor_followup_parent::plaintext_followup_message;
use session_core::tools::multi_agents::supervisor_followup_parent::step_followup;
use session_core::tools::multi_agents::supervisor_followup_parent::AgentMessage;
use session_core::tools::multi_agents::supervisor_followup_parent::FollowupAction;
use session_core::tools::multi_agents::supervisor_followup_parent::FollowupEvent;
use session_core::tools::multi_agents::supervisor_followup_parent::ToolCallSource;
use session_core::tools::multi_agents::supervisor_snooze::handle_snooze;
use session_core::tools::multi_agents::supervisor_snooze::Snooze;
use session_core::tools::refusal::FunctionCallError;
use session_core::tools::refusal::Refusal;

const SUPERVISOR_ROLE: &str = "goal_supervisor";

fn id(value: u128) -> ThreadId {
    ThreadId { value }
}

fn told<T: std::fmt::Debug>(result: Result<T, FunctionCallError>) -> String {
    match result {
        Err(FunctionCallError::RespondToModel(refusal)) => refusal.message(),
        other => panic!("expected respond-to-model error, got {other:?}"),
    }
}

fn refused(message: &str) -> FunctionCallError {
    FunctionCallError::RespondToModel(Refusal::Message(message.to_string()))
}

fn spawned_by(parent: u128) -> SessionSource {
    SessionSource::SubAgent(SubAgentSource::ThreadSpawn {
        parent_thread_id: id(parent),
        depth: 1,
    })
}

#[test]
fn direct_plaintext_and_code_mode_build_plaintext_followups() {
    for source in [
        ToolCallSource::DirectPlaintextMessage,
        ToolCallSource::CodeMode {
            cell_id: "cell-1".to_string(),
            runtime_tool_call_id: "runtime-1".to_string(),
        },
    ] {
        let message = plaintext_followup_message("continue the active goal".to_string(), &source)
            .expect("plaintext sources should be accepted");
        let communication = message.into_communication(
            "/root/goal_supervisor".to_string(),
            "/root".to_string(),
            MessageDeliveryMode::TriggerTurn,
        );

        assert!(communication.encrypted_content.is_none());
        assert!(communication.content.contains("continue the active goal"));
        assert!(communication.trigger_turn);
    }
}

#[test]
fn encrypted_direct_source_is_rejected_before_communication() {
    let error =
        plaintext_followup_message("opaque direct value".to_string(), &ToolCallSource::Direct)
            .err()
            .expect("encrypted direct source should be rejected before constructing a message");
    assert_eq!(
        told::<()>(Err(error)),
        "supervisor.followup_parent does not accept encrypted direct arguments."
    );
}

#[test]
fn queued_messages_do_not_wake_their_recipient() {
    let communication = AgentMessage::Plaintext("done".to_string()).into_communication(
        "/root/worker".to_string(),
        "/root".to_string(),
        MessageDeliveryMode::QueueOnly,
    );
    assert_eq!(communication.author, "/root/worker");
    assert_eq!(communication.recipient, "/root");
    assert!(communication.other_recipients.is_empty());
    assert_eq!(communication.content, "done");
    assert!(!communication.trigger_turn);
}

fn origin() -> TurnOrigin {
    TurnOrigin {
        root_turn_id: Some("root-turn".to_string()),
        turn_trigger: Some("\"user\"".to_string()),
        cyber_access_program: None,
    }
}

#[test]
fn supervisor_followup_task_parent_wakes_parent_and_finishes_helper() {
    let (state, action) = handle_followup_parent(
        id(5),
        "turn-5".to_string(),
        "continue the supervised goal".to_string(),
        &ToolCallSource::DirectPlaintextMessage,
    );
    assert_eq!(action, FollowupAction::FindParent);
    let (state, action) = step_followup(state, FollowupEvent::Parent(Some(id(1)))).expect("parent");
    assert_eq!(action, FollowupAction::BuildConfig);
    let (state, action) = step_followup(state, FollowupEvent::Configured(Ok(origin()))).expect("config");
    let FollowupAction::Send(request) = action else {
        panic!("the follow-up is sent");
    };
    assert_eq!(
        (request.caller, request.receiver, request.mode, request.parent_turn_id.as_deref()),
        (id(5), id(1), MessageDeliveryMode::TriggerTurn, Some("turn-5"))
    );
    assert_eq!(request.origin, origin());
    let communication = request.message.into_communication(
        "/root/goal_supervisor".to_string(),
        "/root".to_string(),
        request.mode,
    );
    assert_eq!(communication.content, "continue the supervised goal");
    assert!(communication.trigger_turn);
    let (state, action) = step_followup(state, FollowupEvent::Sent(Ok(()))).expect("sent");
    assert_eq!(action, FollowupAction::FinishCheckIn);
    let (_, action) = step_followup(state, FollowupEvent::Finished(true)).expect("finished");
    assert_eq!(action, FollowupAction::Delivered);
}

#[test]
fn followups_that_cannot_be_delivered_say_why() {
    let fail = |action: FollowupAction| match action {
        FollowupAction::Fail(error) => told::<()>(Err(error)),
        other => panic!("{other:?}"),
    };
    let start = |message: &str, source: &ToolCallSource| {
        handle_followup_parent(id(5), "t".to_string(), message.to_string(), source)
    };
    assert_eq!(
        fail(start(" \t", &ToolCallSource::Direct).1),
        "Empty message can't be sent to the supervised parent"
    );
    assert_eq!(
        fail(start("x", &ToolCallSource::Direct).1),
        "supervisor.followup_parent does not accept encrypted direct arguments."
    );
    let plain = ToolCallSource::DirectPlaintextMessage;
    let (_, action) =
        step_followup(start("x", &plain).0, FollowupEvent::Parent(None)).expect("parent");
    assert_eq!(
        fail(action),
        "supervisor.followup_parent is only available in goal supervisor check-in threads."
    );
    let sent = || {
        let (state, _) = step_followup(start("x", &plain).0, FollowupEvent::Parent(Some(id(1))))
            .expect("parent");
        step_followup(state, FollowupEvent::Configured(Ok(origin()))).expect("config").0
    };
    let (_, action) =
        step_followup(sent(), FollowupEvent::Sent(Err(refused("gone")))).expect("sent");
    assert_eq!(fail(action), "gone");
    let (state, _) = step_followup(sent(), FollowupEvent::Sent(Ok(()))).expect("sent");
    let (state, action) = step_followup(state, FollowupEvent::Finished(false)).expect("finished");
    assert_eq!(
        fail(action),
        "The parent received the follow-up, but the goal supervisor check-in did not finish."
    );
    assert!(step_followup(state, FollowupEvent::Finished(true)).is_err());
}

#[test]
fn message_content_must_say_something() {
    assert_eq!(message_content(" hi ".to_string()), Ok(" hi ".to_string()));
    assert_eq!(
        told(message_content("\u{2003}\n".to_string())),
        "Empty message can't be sent to an agent"
    );
}

#[test]
fn parent_alias_is_a_fallback() {
    assert_eq!(direct_parent_thread_id(&spawned_by(3)), Some(id(3)));
    assert_eq!(direct_parent_thread_id(&SessionSource::Cli), None);
    assert_eq!(
        direct_parent_thread_id(&SessionSource::SubAgent(SubAgentSource::Review)),
        None
    );
    assert_eq!(message_receiver("parent", Ok(id(8)), &spawned_by(3)), Ok(id(8)));
    assert_eq!(
        message_receiver("parent", Err(refused("no")), &spawned_by(3)),
        Ok(id(3))
    );
    assert_eq!(
        told(message_receiver("parent", Err(refused("no")), &SessionSource::Exec)),
        "agent not found"
    );
    assert_eq!(
        told(message_receiver("other", Err(refused("no")), &spawned_by(3))),
        "no"
    );
}

#[test]
fn messages_are_resolved_configured_sent_and_reported() {
    for (mode, parent_turn_id) in [
        (MessageDeliveryMode::QueueOnly, None),
        (MessageDeliveryMode::TriggerTurn, Some("turn".to_string())),
    ] {
        let (state, action) = handle_message_string_tool::<String>(
            id(2),
            mode,
            "turn".to_string(),
            "/root".to_string(),
            "done".to_string(),
        );
        assert_eq!(action, MessageAction::MakeMessage("done".to_string()));
        let (state, action) =
            step_message(state, MessageEvent::Message(Ok("sealed".to_string()))).expect("made");
        assert_eq!(action, MessageAction::ResolveTarget);
        let (state, action) =
            step_message(state, MessageEvent::Resolved(Ok(id(1)), spawned_by(1))).expect("found");
        assert_eq!(action, MessageAction::BuildConfig { receiver: id(1) });
        let (state, action) =
            step_message(state, MessageEvent::Configured(Ok(origin()))).expect("config");
        assert_eq!(
            action,
            MessageAction::Send(SendRequest {
                caller: id(2),
                receiver: id(1),
                message: "sealed".to_string(),
                mode,
                parent_turn_id,
                origin: origin(),
            })
        );
        let (state, action) = step_message(state, MessageEvent::Sent(Ok(true))).expect("sent");
        assert_eq!(action, MessageAction::ReportActivity { receiver: id(1) });
        let (_, action) = step_message(state, MessageEvent::Reported).expect("reported");
        assert_eq!(action, MessageAction::Finish);
    }
}

#[test]
fn receivers_without_a_path_are_reported() {
    let (state, _) = handle_message_string_tool::<String>(
        id(2),
        MessageDeliveryMode::QueueOnly,
        "turn".to_string(),
        "x".to_string(),
        "m".to_string(),
    );
    let (state, _) = step_message(state, MessageEvent::Message(Ok("m".to_string()))).expect("made");
    let (state, _) =
        step_message(state, MessageEvent::Resolved(Ok(id(1)), SessionSource::Cli)).expect("found");
    let (state, _) = step_message(state, MessageEvent::Configured(Ok(origin()))).expect("config");
    let (_, action) = step_message(state, MessageEvent::Sent(Ok(false))).expect("sent");
    let MessageAction::Fail(error) = action else {
        panic!("an agent without a path cannot be reported on");
    };
    assert_eq!(
        told::<()>(Err(error)),
        "target agent is missing an agent_path"
    );
    let (_, action) = handle_message_string_tool::<String>(
        id(2),
        MessageDeliveryMode::QueueOnly,
        "turn".to_string(),
        "x".to_string(),
        "".to_string(),
    );
    assert!(matches!(action, MessageAction::Fail(_)));
}

fn metadata(at_root: bool, role: Option<&str>) -> AgentMetadata {
    AgentMetadata {
        has_path: true,
        is_root: at_root,
        agent_nickname: None,
        agent_role: role.map(str::to_string),
    }
}

#[test]
fn multi_agent_v2_close_agent_rejects_root_target_and_id() {
    let root = id(1);
    for agent in [
        close_target("/root", Ok(root)),
        close_target(&root.to_text(), Err(refused("not a path"))),
    ] {
        let agent = agent.expect("the root is found");
        assert_eq!(agent, root);
        assert_eq!(
            told(close_agent_v2::handle(
                root,
                agent,
                &Some(metadata(true, None)),
                SUPERVISOR_ROLE
            )),
            "root is not a spawned agent"
        );
    }
}

#[test]
fn close_agent_v2_hands_the_agent_on_by_its_id() {
    let agent = id(0x67e5504410b1426f9247bb680e5fe0c8);
    assert_eq!(
        close_agent_v2::handle(id(1), agent, &Some(metadata(false, None)), SUPERVISOR_ROLE),
        Ok("{\"target\":\"67e55044-10b1-426f-9247-bb680e5fe0c8\"}".to_string())
    );
    assert!(close_agent_v2::handle(id(1), agent, &None, SUPERVISOR_ROLE).is_ok());
    assert_eq!(
        told(close_agent_v2::handle(agent, agent, &None, SUPERVISOR_ROLE)),
        "an agent cannot close itself"
    );
    assert_eq!(
        told(close_agent_v2::handle(
            id(1),
            agent,
            &Some(metadata(false, Some(SUPERVISOR_ROLE))),
            SUPERVISOR_ROLE
        )),
        "goal supervisor agents cannot be closed with close_agent"
    );
    assert_eq!(
        told(close_target("worker", Err(refused("unknown worker")))),
        "unknown worker"
    );
}

#[test]
fn close_agent_submits_shutdown_and_returns_previous_status() {
    let agent_id = id(9);
    let (state, action) = handle_close_agent(id(1), agent_id, AgentMetadata::default());
    assert_eq!(action, CloseTreeAction::ReportStarted(agent_id));
    let (state, action) = step_close_tree(state, CloseTreeEvent::Reported).expect("started");
    assert_eq!(action, CloseTreeAction::Subscribe(agent_id));
    let status_before = AgentStatus::PendingInit;
    let (state, action) = step_close_tree(
        state,
        CloseTreeEvent::Subscribed(Some(status_before.clone())),
    )
    .expect("status");
    assert_eq!(action, CloseTreeAction::CloseSubtree(agent_id));
    let report = CloseReport {
        closed_agents: 1,
        closed_edges: 2,
        newly_closed_edges: 3,
        stopped_runtimes: 4,
        paused_goals: 5,
        cleared_queued_items: 6,
        evicted_identities: 7,
    };
    let (state, action) =
        step_close_tree(state, CloseTreeEvent::Closed(Ok(report))).expect("closed");
    assert_eq!(
        action,
        CloseTreeAction::ReportCompleted {
            agent: agent_id,
            metadata: AgentMetadata::default(),
            status: status_before.clone()
        }
    );
    let (_, action) = step_close_tree(state, CloseTreeEvent::Reported).expect("completed");
    assert_eq!(
        action,
        CloseTreeAction::Finish(Ok(CloseAgentResult {
            previous_status: status_before,
            closed_agents: 1,
            closed_edges: 2,
            newly_closed_edges: 3,
            stopped_runtimes: 4,
            paused_goals: 5,
            cleared_queued_items: 6,
            evicted_identities: 7,
        }))
    );
}

#[test]
fn failed_close_is_reported_as_completed_and_fails() {
    let (state, _) = handle_close_agent(id(1), id(2), metadata(false, None));
    let (state, _) = step_close_tree(state, CloseTreeEvent::Reported).expect("started");
    let (state, action) = step_close_tree(state, CloseTreeEvent::Subscribed(None)).expect("lost");
    assert_eq!(action, CloseTreeAction::ReadStatus(id(2)));
    let (state, action) =
        step_close_tree(state, CloseTreeEvent::Status(AgentStatus::NotFound)).expect("status");
    assert_eq!(action, CloseTreeAction::CloseSubtree(id(2)));
    let (state, action) =
        step_close_tree(state, CloseTreeEvent::Closed(Err(refused("no")))).expect("failed");
    assert!(matches!(action, CloseTreeAction::ReportCompleted { .. }));
    let (_, action) = step_close_tree(state, CloseTreeEvent::Reported).expect("completed");
    assert_eq!(action, CloseTreeAction::Finish(Err(refused("no"))));
}

#[test]
fn agents_close_neither_themselves_nor_the_root() {
    let outcome = |caller: u128, agent: u128, at_root: bool| {
        match handle_close_agent(id(caller), id(agent), metadata(at_root, None)).1 {
            CloseTreeAction::Finish(result) => told(result),
            other => format!("{other:?}"),
        }
    };
    assert_eq!(outcome(1, 1, true), "an agent cannot close itself");
    assert_eq!(outcome(2, 1, true), "root is not a spawned agent");
    assert!(parse_agent_id_target("x").is_err());
    assert_eq!(parse_agent_id_target(&id(4).to_text()), Ok(id(4)));
}

#[test]
fn snooze_is_granted_only_in_a_check_in() {
    assert_eq!(
        handle_snooze(Some(id(1)), Some(30)),
        Ok(Snooze {
            delay_seconds: 30,
            notify: Some(id(1))
        })
    );
    assert_eq!(
        told(handle_snooze(None, None)),
        "supervisor.snooze is only available in goal supervisor check-in threads."
    );
}

#[test]
fn supervisor_compact_parent_context_submits_compaction_and_finishes_helper() {
    let parent_thread_id = id(6);
    let (result, finish_helper) = supervisor_compact_parent_context::handle(Ok(
        SupervisorParentCompactionResult::Submitted {
            parent_thread_id,
            submission_id: "submission".to_string(),
        },
    ))
    .expect("supervisor helper should request parent compaction");
    assert!(finish_helper);
    assert!(result.terminal_no_response());
    assert_eq!(result.kind.name(), "submitted");
    assert_eq!(result.parent_thread_id, Some(parent_thread_id.to_text()));
    assert_eq!(result.submission_id.as_deref(), Some("submission"));
}

#[test]
fn compaction_is_answered_by_kind() {
    let (busy, finish_helper) = supervisor_compact_parent_context::handle(Ok(
        SupervisorParentCompactionResult::ParentBusy {
            parent_thread_id: id(6),
        },
    ))
    .expect("answered");
    assert!(finish_helper && busy.terminal_no_response());
    assert_eq!(busy.kind.name(), "parent_busy");
    assert_eq!(busy.parent_thread_id, Some(id(6).to_text()));
    assert_eq!(busy.submission_id, None);
    let (other, finish_helper) = supervisor_compact_parent_context::handle(Ok(
        SupervisorParentCompactionResult::NotSupervisorHelper,
    ))
    .expect("answered");
    assert!(!finish_helper && !other.terminal_no_response());
    assert_eq!(other.kind.name(), "not_supervisor_helper");
    assert_eq!(other.parent_thread_id, None);
    assert_eq!(
        told(supervisor_compact_parent_context::handle(Err("gone".to_string()))),
        "compact_parent_context failed: gone"
    );
}
