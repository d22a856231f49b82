use session_core::errors::CodexErr;
use session_core::errors::Failure;
use session_core::ids::ThreadId;
use session_core::protocol::AgentStatus;
use session_core::protocol::SessionSource;
use session_core::protocol::SubAgentSource;
use session_core::tools::collab::close_agent;
use session_core::tools::collab::close_agent::step_close;
use session_core::tools::collab::close_agent::CloseAction;
use session_core::tools::collab::close_agent::CloseEvent;
use session_core::tools::collab::compact_parent_context;
use session_core::tools::collab::compact_parent_context::WatchdogParentCompactionResult;
use session_core::tools::collab::config::build_agent_resume_config;
use session_core::tools::collab::config::build_agent_spawn_config;
use session_core::tools::collab::config::AgentConfig;
use session_core::tools::collab::config::AgentTurn;
use session_core::tools::collab::handler::agent_id;
use session_core::tools::collab::handler::answer_success;
use session_core::tools::collab::handler::collab_agent_error;
use session_core::tools::collab::handler::collab_spawn_error;
use session_core::tools::collab::handler::CollabHandler;
use session_core::tools::collab::handler::CollabTool;
use session_core::tools::collab::handler::ToolKind;
use session_core::tools::collab::handler::ToolPayload;
use session_core::tools::collab::list_agents;
use session_core::tools::collab::list_agents::default_recursive;
use session_core::tools::collab::list_agents::AgentListing;
use session_core::tools::collab::resume_agent;
use session_core::tools::collab::resume_agent::step_resume;
use session_core::tools::collab::resume_agent::ResumeAction;
use session_core::tools::collab::resume_agent::ResumeEvent;
use session_core::tools::collab::send_input;
use session_core::tools::collab::send_input::step_send_input;
use session_core::tools::collab::send_input::SendInputAction;
use session_core::tools::collab::send_input::SendInputArgs;
use session_core::tools::collab::send_input::SendInputEvent;
use session_core::tools::collab::spawn;
use session_core::tools::collab::spawn::step_spawn;
use session_core::tools::collab::spawn::step_watchdog;
use session_core::tools::collab::spawn::watchdog_interval;
use session_core::tools::collab::spawn::SpawnAction;
use session_core::tools::collab::spawn::SpawnAgentArgs;
use session_core::tools::collab::spawn::SpawnEvent;
use session_core::tools::collab::spawn::SpawnLimits;
use session_core::tools::collab::spawn::SpawnMode;
use session_core::tools::collab::spawn::WatchdogAction;
use session_core::tools::collab::spawn::WatchdogEvent;
use session_core::tools::collab::wait;
use session_core::tools::collab::wait::start_wait;
use session_core::tools::collab::wait::step_wait;
use session_core::tools::collab::wait::wait_for_final_status;
use session_core::tools::collab::wait::wait_result;
use session_core::tools::collab::wait::FinalStatus;
use session_core::tools::collab::wait::Observed;
use session_core::tools::collab::wait::WaitAction;
use session_core::tools::collab::wait::WaitArgs;
use session_core::tools::collab::wait::WaitEvent;
use session_core::tools::collab::wait::WaitResult;
use session_core::tools::refusal::FunctionCallError;

const MAX_THREAD_SPAWN_DEPTH: i32 = 8;
const SENDER: ThreadId = ThreadId { value: 100 };

fn told<T: std::fmt::Debug>(result: Result<T, FunctionCallError>) -> String {
    match result {
        Err(FunctionCallError::RespondToModel(refusal)) => refusal.message(),
        other => panic!("expected respond-to-model error, got {other:?}"),
    }
}

fn id(value: u128) -> ThreadId {
    ThreadId { value }
}

fn limits(exceeds_depth: bool) -> SpawnLimits<&'static str> {
    SpawnLimits {
        default_role: "default",
        default_interval_s: 60,
        max_depth: MAX_THREAD_SPAWN_DEPTH,
        child_depth: if exceeds_depth { MAX_THREAD_SPAWN_DEPTH + 1 } else { 1 },
        exceeds_depth,
    }
}

fn spawn_args(message: &str, spawn_mode: SpawnMode, interval_s: Option<i64>) -> SpawnAgentArgs<&'static str> {
    SpawnAgentArgs {
        message: message.to_string(),
        agent_type: None,
        spawn_mode,
        interval_s,
    }
}

fn manager_dropped() -> Failure {
    Failure {
        error: CodexErr::UnsupportedOperation("thread manager dropped".to_string()),
        displayed: "unsupported operation: thread manager dropped".to_string(),
    }
}

fn not_found(thread_id: ThreadId) -> Failure {
    Failure {
        error: CodexErr::ThreadNotFound(thread_id),
        displayed: format!("no thread with id: {}", thread_id.to_text()),
    }
}

#[test]
fn collab_handler_rejects_non_function_payloads() {
    let payload = ToolPayload::Custom {
        input: "hello".to_string(),
    };
    assert!(!CollabHandler.matches_kind(&payload));
    assert_eq!(
        told(CollabHandler.handle("spawn_agent".to_string(), payload)),
        "collab handler received unsupported payload"
    );
}

#[test]
fn handler_rejects_unknown_tool() {
    assert_eq!(
        told(CollabHandler.handle(
            "unknown_tool".to_string(),
            ToolPayload::Function {
                arguments: "{}".to_string()
            }
        )),
        "unsupported collab tool unknown_tool"
    );
}

#[test]
fn handler_picks_each_tool_by_name() {
    assert_eq!(CollabHandler.kind(), ToolKind::Function);
    for (name, tool) in [
        ("spawn_agent", CollabTool::SpawnAgent),
        ("send_input", CollabTool::SendInput),
        ("compact_parent_context", CollabTool::CompactParentContext),
        ("list_agents", CollabTool::ListAgents),
        ("resume_agent", CollabTool::ResumeAgent),
        ("wait", CollabTool::Wait),
        ("close_agent", CollabTool::CloseAgent),
    ] {
        let payload = ToolPayload::Function {
            arguments: "{\"x\":1}".to_string(),
        };
        assert!(CollabHandler.matches_kind(&payload));
        assert_eq!(
            CollabHandler.handle(name.to_string(), payload),
            Ok((tool, "{\"x\":1}".to_string()))
        );
        assert_eq!(
            answer_success(tool),
            if tool == CollabTool::Wait { None } else { Some(true) }
        );
    }
}

#[test]
fn collab_spawn_agent_rejects_empty_message() {
    assert_eq!(
        told(spawn::handle(
            SENDER,
            &SessionSource::Cli,
            spawn_args("   ", SpawnMode::default(), None),
            limits(false)
        )),
        "Empty message can't be sent to an agent"
    );
}

#[test]
fn collab_spawn_agent_errors_when_manager_dropped() {
    let plan = spawn::handle(
        SENDER,
        &SessionSource::Cli,
        spawn_args("hello", SpawnMode::Spawn, None),
        limits(false),
    )
    .expect("nothing speaks against it");
    let (state, action) = spawn::start_spawn(&plan, 60);
    assert_eq!(action, SpawnAction::ReportBegin);
    let (state, action) = step_spawn(state, SpawnEvent::Reported).expect("begin");
    assert_eq!(action, SpawnAction::BuildConfig);
    let (state, action) = step_spawn(state, SpawnEvent::Configured(Ok(()))).expect("config");
    assert_eq!(action, SpawnAction::SpawnAgent);
    let (state, action) =
        step_spawn(state, SpawnEvent::Spawned(Err(manager_dropped()))).expect("spawned");
    assert_eq!(
        action,
        SpawnAction::ReportEnd {
            new_thread_id: None,
            status: AgentStatus::NotFound
        }
    );
    let (_, action) = step_spawn(state, SpawnEvent::Reported).expect("end");
    let SpawnAction::Finish(result) = action else {
        panic!("the call is over");
    };
    assert_eq!(told(result), "collab manager unavailable");
}

#[test]
fn collab_spawn_agent_rejects_when_depth_limit_exceeded() {
    let source = SessionSource::SubAgent(SubAgentSource::ThreadSpawn {
        parent_thread_id: SENDER,
        depth: MAX_THREAD_SPAWN_DEPTH,
    });
    assert_eq!(
        told(spawn::handle(
            SENDER,
            &source,
            spawn_args("hello", SpawnMode::Spawn, None),
            limits(true)
        )),
        format!("agent depth limit reached: max depth is {MAX_THREAD_SPAWN_DEPTH}")
    );
}

#[test]
fn spawn_agent_watchdog_mode_rejects_subagent_callers() {
    let source = SessionSource::SubAgent(SubAgentSource::ThreadSpawn {
        parent_thread_id: id(1),
        depth: 1,
    });
    assert_eq!(
        told(spawn::handle(
            SENDER,
            &source,
            spawn_args("watchdog target prompt", SpawnMode::Watchdog, Some(1)),
            limits(false)
        )),
        "watchdogs can only be spawned by root agents"
    );
}

#[test]
fn spawn_refusals_come_in_order() {
    let sub_agent = SessionSource::SubAgent(SubAgentSource::ThreadSpawn {
        parent_thread_id: id(1),
        depth: 1,
    });
    let refusal = |message: &str, mode: SpawnMode, interval_s: Option<i64>| {
        told(spawn::handle(
            SENDER,
            &sub_agent,
            spawn_args(message, mode, interval_s),
            limits(true),
        ))
    };
    assert_eq!(
        refusal(" ", SpawnMode::Watchdog, Some(-1)),
        "interval_s must be greater than zero"
    );
    assert_eq!(
        refusal(" ", SpawnMode::Watchdog, None),
        "Empty message can't be sent to an agent"
    );
    assert_eq!(
        refusal("x", SpawnMode::Watchdog, None),
        "watchdogs can only be spawned by root agents"
    );
    assert_eq!(
        refusal("x", SpawnMode::Fork, Some(-1)),
        "agent depth limit reached: max depth is 8"
    );
}

#[test]
fn spawn_plan_carries_role_source_and_interval() {
    let plan = spawn::handle(
        SENDER,
        &SessionSource::Exec,
        SpawnAgentArgs {
            message: " watch ".to_string(),
            agent_type: Some("explorer"),
            spawn_mode: SpawnMode::Watchdog,
            interval_s: None,
        },
        limits(false),
    )
    .expect("nothing speaks against it");
    assert_eq!(plan.role, "explorer");
    assert_eq!(plan.prompt, " watch ");
    assert_eq!(plan.interval_s, Some(60));
    assert_eq!(
        plan.source,
        SessionSource::SubAgent(SubAgentSource::ThreadSpawn {
            parent_thread_id: SENDER,
            depth: 1
        })
    );
    assert_eq!(
        told(watchdog_interval(Some(0), 60)),
        "interval_s must be greater than zero"
    );
    assert_eq!(watchdog_interval(Some(5), 60), Ok(5));
    assert_eq!(watchdog_interval(None, 60), Ok(60));
    let (state, _) = spawn::start_spawn(&plan, 60);
    let (state, _) = step_spawn(state, SpawnEvent::Reported).expect("begin");
    let (state, action) = step_spawn(state, SpawnEvent::Configured(Ok(()))).expect("config");
    assert_eq!(action, SpawnAction::SpawnWatchdog { interval_s: 60 });
    let (state, action) = step_spawn(state, SpawnEvent::Spawned(Ok(id(5)))).expect("spawned");
    assert_eq!(action, SpawnAction::ReadStatus(id(5)));
    let (state, action) =
        step_spawn(state, SpawnEvent::Status(AgentStatus::PendingInit)).expect("status");
    assert_eq!(
        action,
        SpawnAction::ReportEnd {
            new_thread_id: Some(id(5)),
            status: AgentStatus::PendingInit
        }
    );
    let (_, action) = step_spawn(state, SpawnEvent::Reported).expect("end");
    assert_eq!(action, SpawnAction::Finish(Ok(id(5))));
}

#[test]
fn spawn_agent_watchdog_mode_supersedes_existing_watchdog() {
    let (state, action) = spawn::spawn_watchdog();
    assert_eq!(action, WatchdogAction::SpawnHandle);
    let (state, action) = step_watchdog(state, WatchdogEvent::Handle(Ok(id(2)))).expect("handle");
    assert_eq!(action, WatchdogAction::UnregisterOwner);
    let (state, action) =
        step_watchdog(state, WatchdogEvent::Unregistered(vec![id(1)])).expect("unregistered");
    assert_eq!(action, WatchdogAction::ShutDown(vec![id(1)]));
    let (state, action) = step_watchdog(state, WatchdogEvent::ShutDown).expect("old");
    assert_eq!(action, WatchdogAction::Register { target: id(2) });
    let (state, action) =
        step_watchdog(state, WatchdogEvent::Registered(Ok(vec![id(3)]))).expect("registered");
    assert_eq!(action, WatchdogAction::ShutDown(vec![id(3)]));
    let (_, action) = step_watchdog(state, WatchdogEvent::ShutDown).expect("new");
    assert_eq!(action, WatchdogAction::Finish(Ok(id(2))));
}

#[test]
fn unregistered_watchdog_is_shut_down() {
    let (state, _) = spawn::spawn_watchdog();
    let (state, _) = step_watchdog(state, WatchdogEvent::Handle(Ok(id(2)))).expect("handle");
    let (state, _) =
        step_watchdog(state, WatchdogEvent::Unregistered(Vec::new())).expect("unregistered");
    let (state, _) = step_watchdog(state, WatchdogEvent::ShutDown).expect("old");
    let (state, action) =
        step_watchdog(state, WatchdogEvent::Registered(Err(manager_dropped()))).expect("refused");
    assert_eq!(action, WatchdogAction::ShutDownTarget(id(2)));
    let (_, action) = step_watchdog(state, WatchdogEvent::ShutDown).expect("target");
    assert_eq!(action, WatchdogAction::Finish(Err(manager_dropped())));
}

#[test]
fn compact_parent_context_rejects_non_watchdog_helpers() {
    assert_eq!(
        told(compact_parent_context::handle(
            SENDER,
            Ok(WatchdogParentCompactionResult::NotWatchdogHelper)
        )),
        "compact_parent_context is only available to active watchdog helpers"
    );
}

#[test]
fn compact_parent_context_submits_compact_for_watchdog_parent() {
    let result = compact_parent_context::handle(
        SENDER,
        Ok(WatchdogParentCompactionResult::Submitted {
            parent_thread_id: id(9),
            submission_id: "sub-1".to_string(),
        }),
    )
    .expect("submitted");
    assert_eq!(result.parent_id, id(9).to_text());
    assert_eq!(result.submission_id, "sub-1");
}

#[test]
fn compact_parent_context_rejects_when_parent_busy() {
    let owner_id = id(11);
    assert_eq!(
        told(compact_parent_context::handle(
            SENDER,
            Ok(WatchdogParentCompactionResult::ParentBusy {
                parent_thread_id: owner_id
            })
        )),
        format!(
            "parent agent {} has an active turn; compact_parent_context requires an idle parent",
            owner_id.to_text()
        )
    );
}

#[test]
fn compact_parent_context_rejects_when_compaction_already_in_progress() {
    let owner_id = id(11);
    assert_eq!(
        told(compact_parent_context::handle(
            SENDER,
            Ok(WatchdogParentCompactionResult::AlreadyInProgress {
                parent_thread_id: owner_id
            })
        )),
        format!(
            "parent agent {} already has a compaction in progress",
            owner_id.to_text()
        )
    );
    assert_eq!(
        compact_parent_context::note(Some("  why  ".to_string())),
        Some("why".to_string())
    );
    assert_eq!(compact_parent_context::note(Some(" \n ".to_string())), None);
    assert_eq!(compact_parent_context::note(None), None);
}

fn send_args(id: Option<String>, message: &str, interrupt: bool) -> SendInputArgs {
    SendInputArgs {
        id,
        message: message.to_string(),
        interrupt,
    }
}

#[test]
fn collab_send_input_rejects_empty_message() {
    assert_eq!(
        told(send_input::handle(
            send_args(Some(id(4).to_text()), "", false),
            None
        )),
        "Empty message can't be sent to an agent"
    );
}

#[test]
fn collab_send_input_rejects_invalid_id() {
    let msg = told(send_input::handle(
        send_args(Some("not-a-uuid".to_string()), "hi", false),
        None,
    ));
    assert!(msg.starts_with("invalid agent id not-a-uuid:"));
}

#[test]
fn send_input_requires_id_when_no_parent_exists() {
    assert_eq!(
        told(send_input::handle(send_args(None, "hi", false), None)),
        "send_input requires an id when no parent agent is available"
    );
}

#[test]
fn send_input_defaults_to_parent_when_subagent_omits_id() {
    for named in [None, Some(" "), Some("parent"), Some(" root ")] {
        let plan = send_input::handle(
            send_args(named.map(str::to_string), "hi", false),
            Some(id(1)),
        )
        .expect("the parent receives it");
        assert_eq!(plan.receiver, id(1));
        assert_eq!(plan.prompt, "hi");
    }
    let plan = send_input::handle(
        send_args(Some(format!(" {} ", id(6).to_text())), "hi", true),
        Some(id(1)),
    )
    .expect("named");
    assert_eq!(plan.receiver, id(6));
    assert!(plan.interrupt);
}

#[test]
fn collab_send_input_reports_missing_agent() {
    let agent_id = id(77);
    let plan = send_input::handle(send_args(Some(agent_id.to_text()), "hi", false), None)
        .expect("can be sent");
    let (state, action) = send_input::start_send_input(&plan);
    assert_eq!(action, SendInputAction::ReportBegin);
    let (state, action) = step_send_input(state, SendInputEvent::Reported).expect("begin");
    assert_eq!(action, SendInputAction::Send(agent_id));
    let (state, action) =
        step_send_input(state, SendInputEvent::Sent(Err(not_found(agent_id)))).expect("sent");
    assert_eq!(action, SendInputAction::ReadStatus(agent_id));
    let (state, action) =
        step_send_input(state, SendInputEvent::Status(AgentStatus::NotFound)).expect("status");
    assert_eq!(
        action,
        SendInputAction::ReportEnd {
            status: AgentStatus::NotFound
        }
    );
    let (_, action) = step_send_input(state, SendInputEvent::Reported).expect("end");
    let SendInputAction::Fail(error) = action else {
        panic!("missing agent should be reported");
    };
    assert_eq!(
        told::<()>(Err(error)),
        format!("agent with id {} not found", agent_id.to_text())
    );
}

#[test]
fn collab_send_input_interrupts_before_prompt() {
    let agent_id = id(78);
    let plan = send_input::handle(send_args(Some(agent_id.to_text()), "hi", true), None)
        .expect("can be sent");
    let (state, action) = send_input::start_send_input(&plan);
    assert_eq!(action, SendInputAction::InterruptAgent(agent_id));
    let (state, _) = step_send_input(state, SendInputEvent::Interrupted(Ok(()))).expect("stopped");
    let (state, action) = step_send_input(state, SendInputEvent::Reported).expect("begin");
    assert_eq!(action, SendInputAction::Send(agent_id));
    let (state, _) =
        step_send_input(state, SendInputEvent::Sent(Ok("s-1".to_string()))).expect("sent");
    let (state, _) =
        step_send_input(state, SendInputEvent::Status(AgentStatus::Running)).expect("status");
    let (state, action) = step_send_input(state, SendInputEvent::Reported).expect("end");
    assert_eq!(action, SendInputAction::MarkAndFinish("s-1".to_string()));
    assert!(step_send_input(state, SendInputEvent::Reported).is_err());
}

#[test]
fn failed_interrupt_ends_the_call() {
    let plan = send_input::handle(send_args(Some(id(1).to_text()), "hi", true), None).expect("ok");
    let (state, _) = send_input::start_send_input(&plan);
    let died = Failure {
        error: CodexErr::InternalAgentDied,
        displayed: "internal error; agent loop died unexpectedly".to_string(),
    };
    let (_, action) =
        step_send_input(state, SendInputEvent::Interrupted(Err(died))).expect("failed");
    let SendInputAction::Fail(error) = action else {
        panic!("nothing may be sent");
    };
    assert_eq!(
        told::<()>(Err(error)),
        format!("agent with id {} is closed", id(1).to_text())
    );
}

#[test]
fn collab_resume_agent_rejects_invalid_id() {
    let msg = told(resume_agent::handle("not-a-uuid", false));
    assert!(msg.starts_with("invalid agent id not-a-uuid:"));
    let msg = told(resume_agent::handle("not-a-uuid", true));
    assert!(msg.starts_with("invalid agent id not-a-uuid:"));
}

#[test]
fn collab_resume_agent_reports_missing_agent() {
    let agent_id = id(40);
    assert_eq!(resume_agent::handle(&agent_id.to_text(), false), Ok(agent_id));
    let (state, _) = resume_agent::start_resume(agent_id);
    let (state, action) = step_resume(state, ResumeEvent::Reported).expect("begin");
    assert_eq!(action, ResumeAction::ReadStatus(agent_id));
    let (state, action) =
        step_resume(state, ResumeEvent::Status(AgentStatus::NotFound)).expect("status");
    assert_eq!(action, ResumeAction::FindRollout);
    let (state, action) = step_resume(state, ResumeEvent::Rollout(Ok(false))).expect("rollout");
    assert_eq!(action, ResumeAction::ReadStatus(agent_id));
    let (state, action) =
        step_resume(state, ResumeEvent::Status(AgentStatus::NotFound)).expect("status");
    assert_eq!(
        action,
        ResumeAction::ReportEnd {
            status: AgentStatus::NotFound
        }
    );
    let (_, action) = step_resume(state, ResumeEvent::Reported).expect("end");
    let ResumeAction::Finish(result) = action else {
        panic!("the call is over");
    };
    assert_eq!(
        told(result),
        format!("agent with id {} not found", agent_id.to_text())
    );
}

#[test]
fn collab_resume_agent_noops_for_active_agent() {
    let agent_id = id(41);
    let (state, _) = resume_agent::start_resume(agent_id);
    let (state, _) = step_resume(state, ResumeEvent::Reported).expect("begin");
    let (state, action) =
        step_resume(state, ResumeEvent::Status(AgentStatus::PendingInit)).expect("status");
    assert_eq!(
        action,
        ResumeAction::ReportEnd {
            status: AgentStatus::PendingInit
        }
    );
    let (_, action) = step_resume(state, ResumeEvent::Reported).expect("end");
    assert_eq!(action, ResumeAction::Finish(Ok(AgentStatus::PendingInit)));
}

#[test]
fn collab_resume_agent_restores_closed_agent_and_accepts_send_input() {
    let agent_id = id(42);
    let (state, _) = resume_agent::start_resume(agent_id);
    let (state, _) = step_resume(state, ResumeEvent::Reported).expect("begin");
    let (state, _) =
        step_resume(state, ResumeEvent::Status(AgentStatus::NotFound)).expect("status");
    let (state, action) = step_resume(state, ResumeEvent::Rollout(Ok(true))).expect("rollout");
    assert_eq!(action, ResumeAction::BuildConfig);
    let (state, action) = step_resume(state, ResumeEvent::Configured(Ok(()))).expect("config");
    assert_eq!(action, ResumeAction::ResumeFromRollout);
    let (state, action) = step_resume(state, ResumeEvent::Resumed(Ok(agent_id))).expect("resumed");
    assert_eq!(action, ResumeAction::ReadStatus(agent_id));
    let (state, _) =
        step_resume(state, ResumeEvent::Status(AgentStatus::PendingInit)).expect("status");
    let (_, action) = step_resume(state, ResumeEvent::Reported).expect("end");
    assert_eq!(action, ResumeAction::Finish(Ok(AgentStatus::PendingInit)));
    assert!(send_input::handle(send_args(Some(agent_id.to_text()), "hello", false), None).is_ok());
}

#[test]
fn failure_to_locate_a_rollout_is_reported() {
    let agent_id = id(43);
    let (state, _) = resume_agent::start_resume(agent_id);
    let (state, _) = step_resume(state, ResumeEvent::Reported).expect("begin");
    let (state, _) =
        step_resume(state, ResumeEvent::Status(AgentStatus::NotFound)).expect("status");
    let (state, _) =
        step_resume(state, ResumeEvent::Rollout(Err("io".to_string()))).expect("rollout");
    let (state, _) =
        step_resume(state, ResumeEvent::Status(AgentStatus::NotFound)).expect("status");
    let (_, action) = step_resume(state, ResumeEvent::Reported).expect("end");
    let ResumeAction::Finish(result) = action else {
        panic!("the call is over");
    };
    assert_eq!(
        told(result),
        format!(
            "tool failed: failed to locate rollout for agent {}: io",
            agent_id.to_text()
        )
    );
}

#[test]
fn collab_resume_agent_rejects_when_depth_limit_exceeded() {
    assert_eq!(
        told(resume_agent::handle(&id(44).to_text(), true)),
        "Agent depth limit reached. Solve the task yourself."
    );
}

#[test]
fn list_agents_returns_descendants_recursively() {
    assert!(default_recursive());
    let root_thread_id = id(1);
    let agents = list_agents::handle(Ok(vec![
        AgentListing {
            thread_id: root_thread_id,
            parent_thread_id: None,
            status: AgentStatus::Running,
            depth: 0,
        },
        AgentListing {
            thread_id: id(2),
            parent_thread_id: Some(root_thread_id),
            status: AgentStatus::PendingInit,
            depth: 1,
        },
    ]))
    .expect("listed");
    assert_eq!(agents.len(), 2);
    assert_eq!(agents[0].parent_id, "");
    assert_eq!(ThreadId::from_string(&agents[1].id), Ok(id(2)));
    assert_eq!(agents[1].parent_id, root_thread_id.to_text());
    assert_eq!(agents[1].depth, 1);
    assert_eq!(agents[1].status, AgentStatus::PendingInit);
}

#[test]
fn list_agents_finds_the_owner() {
    for named in [None, Some(""), Some(" self ")] {
        assert_eq!(
            list_agents::owner(&named.map(str::to_string), SENDER),
            Ok(SENDER)
        );
    }
    assert_eq!(
        list_agents::owner(&Some(format!("\t{}\n", id(3).to_text())), SENDER),
        Ok(id(3))
    );
    assert!(told(list_agents::owner(&Some("x".to_string()), SENDER))
        .starts_with("invalid agent id x: "));
    assert_eq!(
        told(list_agents::handle(Err(manager_dropped()))),
        "collab manager unavailable"
    );
}

fn wait_args(ids: Vec<String>, timeout_ms: Option<i64>) -> WaitArgs {
    WaitArgs { ids, timeout_ms }
}

#[test]
fn wait_rejects_non_positive_timeout() {
    assert_eq!(
        told(wait::handle(wait_args(vec![id(1).to_text()], Some(0)))),
        "timeout_ms must be greater than zero"
    );
}

#[test]
fn wait_rejects_invalid_id() {
    let msg = told(wait::handle(wait_args(vec!["invalid".to_string()], None)));
    assert!(msg.starts_with("invalid agent id invalid:"));
    let msg = told(wait::handle(wait_args(
        vec![id(1).to_text(), "bad".to_string(), "worse".to_string()],
        Some(0),
    )));
    assert!(msg.starts_with("invalid agent id bad:"));
}

#[test]
fn wait_rejects_empty_ids() {
    assert_eq!(
        told(wait::handle(wait_args(Vec::new(), None))),
        "ids must be non-empty"
    );
}

#[test]
fn wait_cuts_its_time() {
    for (asked, granted) in [
        (None, 30_000),
        (Some(1), 1),
        (Some(299_999), 299_999),
        (Some(300_000), 300_000),
        (Some(i64::MAX), 300_000),
    ] {
        let plan = wait::handle(wait_args(vec![id(1).to_text()], asked)).expect("can wait");
        assert_eq!(plan.timeout_ms, granted);
        assert_eq!(plan.receivers, vec![id(1)]);
    }
}

#[test]
fn wait_returns_not_found_for_missing_agents() {
    let (id_a, id_b) = (id(50), id(51));
    let plan = wait::handle(wait_args(vec![id_a.to_text(), id_b.to_text()], Some(1000)))
        .expect("can wait");
    let (state, action) = start_wait(plan.receivers);
    assert_eq!(action, WaitAction::Subscribe(id_a));
    let (state, action) = step_wait(state, WaitEvent::NotFound).expect("first");
    assert_eq!(action, WaitAction::Subscribe(id_b));
    let (state, action) = step_wait(state, WaitEvent::NotFound).expect("second");
    assert_eq!(action, WaitAction::ReportEnd);
    let (state, action) = step_wait(state, WaitEvent::Reported).expect("end");
    assert_eq!(action, WaitAction::Finish);
    assert_eq!(
        wait_result(state),
        Ok(WaitResult {
            status: vec![(id_a, AgentStatus::NotFound), (id_b, AgentStatus::NotFound)],
            timed_out: false
        })
    );
    assert_eq!(answer_success(CollabTool::Wait), None);
}

#[test]
fn wait_times_out_when_status_is_not_final() {
    let (state, _) = start_wait(vec![id(52)]);
    let (state, action) = step_wait(
        state,
        WaitEvent::Subscribed {
            status: AgentStatus::PendingInit,
            is_final: false,
        },
    )
    .expect("asked");
    assert_eq!(action, WaitAction::AwaitAny);
    let (state, action) = step_wait(state, WaitEvent::Lost).expect("lost");
    assert_eq!(action, WaitAction::AwaitAny);
    let (state, action) = step_wait(state, WaitEvent::Nothing).expect("time is up");
    assert_eq!(action, WaitAction::ReportEnd);
    let (state, _) = step_wait(state, WaitEvent::Reported).expect("end");
    assert_eq!(
        wait_result(state),
        Ok(WaitResult {
            status: Vec::new(),
            timed_out: true
        })
    );
}

#[test]
fn wait_returns_final_status_without_timeout() {
    let (state, _) = start_wait(vec![id(53)]);
    let (state, action) = step_wait(
        state,
        WaitEvent::Subscribed {
            status: AgentStatus::Shutdown,
            is_final: true,
        },
    )
    .expect("asked");
    assert_eq!(action, WaitAction::ReportEnd);
    let (state, _) = step_wait(state, WaitEvent::Reported).expect("end");
    assert_eq!(
        wait_result(state),
        Ok(WaitResult {
            status: vec![(id(53), AgentStatus::Shutdown)],
            timed_out: false
        })
    );
}

#[test]
fn wait_reports_exactly_the_agents_that_had_ended() {
    let asked = |status: AgentStatus, is_final: bool| WaitEvent::Subscribed { status, is_final };
    let (state, _) = start_wait(vec![id(1), id(2), id(3)]);
    let (state, _) = step_wait(state, asked(AgentStatus::Running, false)).expect("first");
    let (state, _) = step_wait(state, asked(AgentStatus::Shutdown, true)).expect("second");
    let (state, action) = step_wait(state, WaitEvent::NotFound).expect("third");
    assert_eq!(action, WaitAction::ReportEnd);
    let (state, _) = step_wait(state, WaitEvent::Reported).expect("end");
    assert_eq!(
        wait_result(state),
        Ok(WaitResult {
            status: vec![
                (id(2), AgentStatus::Shutdown),
                (id(3), AgentStatus::NotFound)
            ],
            timed_out: false
        })
    );
}

#[test]
fn wait_collects_what_ends_meanwhile_and_keeps_the_last_status() {
    let running = || WaitEvent::Subscribed {
        status: AgentStatus::Running,
        is_final: false,
    };
    let ended = |value: u128, status: AgentStatus| WaitEvent::Final {
        thread_id: id(value),
        status,
    };
    let (state, _) = start_wait(vec![id(1), id(2)]);
    let (state, _) = step_wait(state, running()).expect("first");
    let (state, _) = step_wait(state, running()).expect("second");
    let (state, action) =
        step_wait(state, ended(1, AgentStatus::Completed(None))).expect("one ends");
    assert_eq!(action, WaitAction::DrainReady);
    let (state, _) = step_wait(state, ended(2, AgentStatus::Shutdown)).expect("another");
    let (state, _) = step_wait(state, ended(1, AgentStatus::Errored("e".to_string()))).expect("again");
    let (state, _) = step_wait(state, WaitEvent::Lost).expect("lost");
    let (state, _) = step_wait(state, WaitEvent::Nothing).expect("none ready");
    let (state, _) = step_wait(state, WaitEvent::Reported).expect("end");
    assert_eq!(
        wait_result(state),
        Ok(WaitResult {
            status: vec![
                (id(1), AgentStatus::Errored("e".to_string())),
                (id(2), AgentStatus::Shutdown)
            ],
            timed_out: false
        })
    );
}

#[test]
fn unreachable_agent_ends_the_wait() {
    let (state, _) = start_wait(vec![id(1), id(2)]);
    let (state, _) = step_wait(state, WaitEvent::NotFound).expect("first");
    let (state, action) = step_wait(
        state,
        WaitEvent::Unreachable {
            error: CodexErr::Other("x".to_string()),
            displayed: "boom".to_string(),
            status: AgentStatus::Running,
        },
    )
    .expect("second");
    assert_eq!(action, WaitAction::ReportEnd);
    assert_eq!(state.statuses, vec![(id(2), AgentStatus::Running)]);
    let (state, _) = step_wait(state, WaitEvent::Reported).expect("end");
    assert_eq!(told(wait_result(state)), "collab tool failed: boom");
}

#[test]
fn final_status_is_settled() {
    assert_eq!(
        wait_for_final_status(Observed::Status {
            status: AgentStatus::Running,
            is_final: false
        }),
        FinalStatus::AwaitChange
    );
    assert_eq!(
        wait_for_final_status(Observed::Status {
            status: AgentStatus::Shutdown,
            is_final: true
        }),
        FinalStatus::Settled(Some(AgentStatus::Shutdown))
    );
    assert_eq!(wait_for_final_status(Observed::Closed), FinalStatus::ReadLast);
    assert_eq!(
        wait_for_final_status(Observed::Last {
            status: AgentStatus::Running,
            is_final: false
        }),
        FinalStatus::Settled(None)
    );
}

#[test]
fn close_agent_submits_shutdown_and_returns_status() {
    let agent_id = id(60);
    assert_eq!(close_agent::handle(&agent_id.to_text()), Ok(agent_id));
    let (state, _) = close_agent::start_close(agent_id);
    let (state, action) = step_close(state, CloseEvent::Reported).expect("begin");
    assert_eq!(action, CloseAction::Subscribe(agent_id));
    let (state, action) =
        step_close(state, CloseEvent::Subscribed(Ok(AgentStatus::PendingInit))).expect("status");
    assert_eq!(action, CloseAction::UnregisterWatchdog(agent_id));
    let (state, action) = step_close(state, CloseEvent::Unregistered).expect("unregistered");
    assert_eq!(action, CloseAction::ShutDownAgent(agent_id));
    let (state, action) = step_close(state, CloseEvent::ShutDown(Ok(()))).expect("shut down");
    assert_eq!(
        action,
        CloseAction::ReportEnd {
            status: AgentStatus::PendingInit
        }
    );
    let (_, action) = step_close(state, CloseEvent::Reported).expect("end");
    assert_eq!(action, CloseAction::Finish(Ok(AgentStatus::PendingInit)));
}

#[test]
fn close_agent_leaves_a_stopped_agent_alone_and_reports_a_missing_one() {
    let agent_id = id(61);
    let (state, _) = close_agent::start_close(agent_id);
    let (state, _) = step_close(state, CloseEvent::Reported).expect("begin");
    let (state, _) =
        step_close(state, CloseEvent::Subscribed(Ok(AgentStatus::Shutdown))).expect("status");
    let (state, action) = step_close(state, CloseEvent::Unregistered).expect("unregistered");
    assert_eq!(
        action,
        CloseAction::ReportEnd {
            status: AgentStatus::Shutdown
        }
    );
    let (_, action) = step_close(state, CloseEvent::Reported).expect("end");
    assert_eq!(action, CloseAction::Finish(Ok(AgentStatus::Shutdown)));

    let (state, _) = close_agent::start_close(agent_id);
    let (state, _) = step_close(state, CloseEvent::Reported).expect("begin");
    let (state, action) =
        step_close(state, CloseEvent::Subscribed(Err(not_found(agent_id)))).expect("failed");
    assert_eq!(action, CloseAction::ReadStatus(agent_id));
    let (state, _) =
        step_close(state, CloseEvent::Status(AgentStatus::NotFound)).expect("status");
    let (_, action) = step_close(state, CloseEvent::Reported).expect("end");
    let CloseAction::Finish(result) = action else {
        panic!("the call is over");
    };
    assert_eq!(
        told(result),
        format!("agent with id {} not found", agent_id.to_text())
    );
}

#[test]
fn errors_are_answered_by_kind() {
    let spawned = |error: CodexErr| told::<()>(Err(collab_spawn_error(error, "shown".to_string())));
    assert_eq!(
        spawned(CodexErr::UnsupportedOperation("thread manager dropped".to_string())),
        "collab manager unavailable"
    );
    assert_eq!(
        spawned(CodexErr::UnsupportedOperation("not here".to_string())),
        "not here"
    );
    assert_eq!(spawned(CodexErr::TurnAborted), "collab spawn failed: shown");
    let reached =
        |error: CodexErr| told::<()>(Err(collab_agent_error(id(1), error, "shown".to_string())));
    assert_eq!(
        reached(CodexErr::ThreadNotFound(id(2))),
        format!("agent with id {} not found", id(2).to_text())
    );
    assert_eq!(
        reached(CodexErr::UnsupportedOperation("x".to_string())),
        "collab manager unavailable"
    );
    assert_eq!(reached(CodexErr::TurnAborted), "collab tool failed: shown");
}

#[test]
fn agent_ids_are_read_in_every_written_form() {
    let text = "67e55044-10b1-426f-9247-bb680e5fe0c8";
    let value = 0x67e5504410b1426f9247bb680e5fe0c8;
    for form in [
        text.to_string(),
        text.to_uppercase(),
        text.replace('-', ""),
        format!("{{{text}}}"),
        format!("urn:uuid:{text}"),
    ] {
        assert_eq!(agent_id(&form), Ok(id(value)));
    }
    assert_eq!(id(value).to_text(), text);
    let error = uuid::Uuid::parse_str("nope").expect_err("not a uuid");
    assert_eq!(
        told(agent_id("nope")),
        format!("invalid agent id nope: {error:?}")
    );
}

fn agent_turn() -> AgentTurn<String> {
    let config = AgentConfig {
        base_instructions: Some("caller-base".to_string()),
        developer_instructions: Some("DEV_PROMPT_MARKER".to_string()),
        model: None,
        model_provider: "config-provider".to_string(),
        model_reasoning_effort: None,
        model_reasoning_summary: "config-summary".to_string(),
        compact_prompt: None,
        shell_environment_policy: "config-shell".to_string(),
        codex_linux_sandbox_exe: None,
        cwd: "/config".to_string(),
        approval_policy: "config-approval".to_string(),
        sandbox_policy: "config-sandbox".to_string(),
        inherited: "base-user".to_string(),
    };
    AgentTurn {
        config,
        developer_instructions: Some("DEV_PROMPT_MARKER ROOT_PROMPT_MARKER".to_string()),
        model: "model".to_string(),
        model_provider: "provider".to_string(),
        model_reasoning_effort: Some("high".to_string()),
        model_reasoning_summary: "summary".to_string(),
        compact_prompt: Some("compact".to_string()),
        shell_environment_policy: "shell".to_string(),
        codex_linux_sandbox_exe: Some("/bin/echo".to_string()),
        cwd: "/turn".to_string(),
        approval_policy: "never".to_string(),
        sandbox_policy: "read-only".to_string(),
    }
}

fn expected_config(base_instructions: Option<&str>) -> AgentConfig<String> {
    AgentConfig {
        base_instructions: base_instructions.map(str::to_string),
        developer_instructions: Some("DEV_PROMPT_MARKER".to_string()),
        model: Some("model".to_string()),
        model_provider: "provider".to_string(),
        model_reasoning_effort: Some("high".to_string()),
        model_reasoning_summary: "summary".to_string(),
        compact_prompt: Some("compact".to_string()),
        shell_environment_policy: "shell".to_string(),
        codex_linux_sandbox_exe: Some("/bin/echo".to_string()),
        cwd: "/turn".to_string(),
        approval_policy: "never".to_string(),
        sandbox_policy: "read-only".to_string(),
        inherited: "base-user".to_string(),
    }
}

#[test]
fn build_agent_spawn_config_does_not_include_root_role_prompt() {
    let config = build_agent_spawn_config("base".to_string(), agent_turn(), Ok(()), Ok(()))
        .expect("spawn config should build");
    let developer_instructions = config
        .developer_instructions
        .expect("developer instructions should be present");
    assert!(developer_instructions.contains("DEV_PROMPT_MARKER"));
    assert!(!developer_instructions.contains("ROOT_PROMPT_MARKER"));
}

#[test]
fn collab_build_agent_spawn_config_uses_turn_context_values() {
    assert_eq!(
        build_agent_spawn_config("base".to_string(), agent_turn(), Ok(()), Ok(())),
        Ok(expected_config(Some("base")))
    );
}

#[test]
fn collab_build_agent_spawn_config_preserves_base_user_instructions() {
    let config = build_agent_spawn_config("base".to_string(), agent_turn(), Ok(()), Ok(()))
        .expect("spawn config");
    assert_eq!(config.inherited, "base-user");
}

#[test]
fn collab_build_agent_resume_config_clears_base_instructions() {
    let turn = agent_turn();
    let mut expected = expected_config(None);
    expected.developer_instructions = turn.developer_instructions.clone();
    assert_eq!(turn.config.base_instructions.as_deref(), Some("caller-base"));
    assert_eq!(
        build_agent_resume_config(turn, 0, Ok(()), Ok(())),
        Ok(expected)
    );
}

#[test]
fn resumed_agents_get_the_developer_instructions_of_the_turn() {
    assert_eq!(
        build_agent_resume_config(agent_turn(), 0, Ok(()), Ok(()))
            .map(|config| config.developer_instructions),
        Ok(Some("DEV_PROMPT_MARKER ROOT_PROMPT_MARKER".to_string()))
    );
}

#[test]
fn policies_that_are_not_allowed_are_reported() {
    assert_eq!(
        told(build_agent_resume_config(
            agent_turn(),
            0,
            Err("a".to_string()),
            Err("s".to_string())
        )),
        "approval_policy is invalid: a"
    );
    assert_eq!(
        told(build_agent_resume_config(agent_turn(), 0, Ok(()), Err("s".to_string()))),
        "sandbox_policy is invalid: s"
    );
}
