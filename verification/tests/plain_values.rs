use session_core::errors::Reason;
use session_core::ids::fresh_sub_id;
use session_core::ids::recovered_name;
use session_core::ids::ThreadId;
use session_core::json::target_arguments;
use session_core::protocol::SessionSource;
use session_core::protocol::SubAgentSource;
use session_core::session::checkpoint_faults::CapturePauses;
use session_core::session::checkpoint_faults::CheckpointFaults;
use session_core::session::multi_agents::effective_multi_agent_mode;
use session_core::session::multi_agents::resolve_usage_hints;
use session_core::session::multi_agents::usage_hint_text;
use session_core::session::multi_agents::MultiAgentMode;
use session_core::session::multi_agents::MultiAgentRoleInstructions;
use session_core::session::multi_agents::MultiAgentTurn;
use session_core::session::multi_agents::MultiAgentV2Config;
use session_core::session::multi_agents::MultiAgentVersion;
use session_core::session::multi_agents::ResolvedMessage;
use session_core::session::multi_agents::ResolvedMultiAgentMessages;
use session_core::session::step_context::StepContext;
use session_core::session_index::SessionIndex;
use session_core::text::ascii_bytes;
use session_core::text::copy_option;
use session_core::text::decimal_text;
use session_core::text::is_among;
use session_core::text::is_blank;
use session_core::text::is_white_space;
use session_core::text::join2;
use session_core::text::join3;
use session_core::text::same_bytes;
use session_core::text::same_text;
use session_core::text::signed_decimal_text;
use session_core::text::trim;

fn id(value: u128) -> ThreadId {
    ThreadId { value }
}

#[test]
fn white_space_is_that_of_the_standard_library() {
    for n in 0..=0x10ffff {
        if let Some(c) = char::from_u32(n) {
            assert_eq!(is_white_space(c), c.is_whitespace(), "{n:x}");
        }
    }
}

#[test]
fn trimming_is_that_of_the_standard_library() {
    for text in ["", " ", "a", " a ", "\u{3000}a b\u{a0}\n", "\t\u{2028}", "ä ö", "\u{200b}"] {
        assert_eq!(trim(text), text.trim());
        assert_eq!(trim(trim(text)), trim(text));
        assert_eq!(is_blank(text), text.trim().is_empty());
    }
}

#[test]
fn numbers_are_written_in_decimal() {
    for n in [0u64, 9, 10, 100, 4096, u64::MAX] {
        assert_eq!(decimal_text(n), n.to_string());
    }
    for n in [0i32, -1, 8, -305, i32::MAX, i32::MIN] {
        assert_eq!(signed_decimal_text(n), n.to_string());
    }
}

#[test]
fn texts_are_compared_joined_and_copied() {
    assert!(same_text("äb", "äb"));
    assert!(!same_text("a", "ab"));
    assert!(same_bytes(&vec![1, 2], &vec![1, 2]));
    assert!(!same_bytes(&vec![1, 2], &vec![2, 1]));
    assert_eq!(ascii_bytes("a:1"), b"a:1".to_vec());
    assert_eq!(join2("a", "b"), "ab");
    assert_eq!(join3("a", "", "c"), "ac");
    assert_eq!(copy_option(&Some("x".to_string())), Some("x".to_string()));
    assert!(is_among(&vec!["a".to_string(), "b".to_string()], "b"));
    assert!(!is_among(&vec!["a".to_string()], "b"));
}

#[test]
fn ids_are_written_hyphenated_and_read_back() {
    for value in [0, 1, u128::MAX, 0x67e5504410b1426f9247bb680e5fe0c8] {
        let text = id(value).to_text();
        assert_eq!(text, uuid::Uuid::from_u128(value).to_string());
        assert_eq!(text.len(), 36);
        assert_eq!(ThreadId::from_string(&text), Ok(id(value)));
    }
    assert_eq!(
        id(0xabcdef).to_text(),
        "00000000-0000-0000-0000-000000abcdef"
    );
    assert!(ThreadId::from_string("67e55044-10b1-426f-9247-bb680e5fe0cg").is_err());
}

#[test]
fn recovered_names_depend_on_the_name_alone() {
    assert_eq!(
        recovered_name(&b"name".to_vec()),
        format!(
            "recovered-{}",
            uuid::Uuid::new_v5(&uuid::Uuid::NAMESPACE_OID, b"name")
        )
    );
    assert_eq!(recovered_name(&vec![1]), recovered_name(&vec![1]));
    assert_ne!(recovered_name(&vec![1]), recovered_name(&vec![2]));
}

#[test]
fn fresh_ids_are_random_uuids() {
    let first = fresh_sub_id();
    let second = fresh_sub_id();
    assert_ne!(first, second);
    let parsed = uuid::Uuid::parse_str(&first).expect("a uuid");
    assert_eq!(parsed.get_version_num(), 4);
    assert_eq!(parsed.get_variant(), uuid::Variant::RFC4122);
}

#[test]
fn target_arguments_are_compact_json() {
    let text = target_arguments(id(7));
    assert_eq!(
        text,
        "{\"target\":\"00000000-0000-0000-0000-000000000007\"}"
    );
    let value: serde_json::Value = serde_json::from_str(&text).expect("json");
    assert_eq!(value["target"], id(7).to_text());
}

#[test]
fn reasons_are_worded() {
    let err = || "E".to_string();
    for (reason, text) in [
        (
            Reason::RestartBeforeContinuing,
            "Thread persistence is in an indeterminate state. Restart this thread before continuing.",
        ),
        (
            Reason::RestartBeforeSettings,
            "Thread persistence is in an indeterminate state. Restart this thread before changing its settings.",
        ),
        (
            Reason::RestartBeforeTurn,
            "Thread persistence is in an indeterminate state. Restart this thread before starting another turn.",
        ),
        (
            Reason::RestartBeforeRollback,
            "Thread persistence is in an indeterminate state. Restart this thread before rolling it back.",
        ),
        (Reason::NumTurnsZero, "num_turns must be >= 1"),
        (
            Reason::RollbackDuringTurn,
            "Cannot rollback while a turn is in progress.",
        ),
        (
            Reason::RollbackNeedsHistory,
            "thread rollback requires persisted thread history",
        ),
        (
            Reason::RollbackFlush(err()),
            "failed to flush thread persistence for rollback replay: E",
        ),
        (
            Reason::RollbackLoad(err()),
            "failed to load thread history for rollback replay: E",
        ),
        (
            Reason::RollbackAdmissionMissing,
            "thread rollback admission was not acquired",
        ),
        (
            Reason::InvalidThreadSettings(err()),
            "invalid thread settings override: E",
        ),
        (
            Reason::ExecpolicyAmendment(err()),
            "Failed to apply execpolicy amendment: E",
        ),
        (
            Reason::UserMessageNotAdmitted(err()),
            "failed to admit user message: E",
        ),
        (
            Reason::ShutdownPersistence,
            "Failed to shutdown thread persistence",
        ),
        (
            Reason::NonSteerableTurn,
            "response items cannot be injected into a non-steerable turn",
        ),
        (
            Reason::CompletionNeedsStableId,
            "subagent completion notification requires a stable response item id",
        ),
        (
            Reason::CompletionNoWriter(id(1)),
            "thread 00000000-0000-0000-0000-000000000001 has no durable writer for a subagent completion notification",
        ),
        (
            Reason::CompletionMaterialize(err()),
            "failed to materialize the parent rollout for a subagent completion notification: E",
        ),
        (
            Reason::CompletionReconcile(err()),
            "failed to reconcile subagent completion notification: E",
        ),
        (
            Reason::CompletionResolveRollout(err()),
            "failed to resolve the parent rollout for a subagent completion notification: E",
        ),
        (
            Reason::CompletionReadRollout(err()),
            "failed to read the parent rollout for a subagent completion notification: E",
        ),
        (
            Reason::CompletionNotPrepared,
            "completion notification preparation returned no response item",
        ),
        (Reason::Message(err()), "E"),
    ] {
        assert_eq!(reason.message(), text);
    }
}

#[test]
fn sessions_are_found_by_conversation() {
    let mut index = SessionIndex::new();
    assert_eq!(index.get(id(1)), None);
    index.register(id(1), "a");
    index.register(id(2), "b");
    index.register(id(1), "c");
    assert_eq!(index.get(id(1)), Some(&"c"));
    assert_eq!(index.get(id(2)), Some(&"b"));
}

#[test]
fn faults_strike_until_they_are_removed() {
    let mut faults = CheckpointFaults::new();
    faults.install(id(1));
    assert!(faults.strikes(id(1)));
    assert!(!faults.strikes(id(2)));
    faults.remove(id(1));
    assert!(!faults.strikes(id(1)));
}

#[test]
fn pauses_are_removed_by_their_own_token() {
    let mut pauses = CapturePauses::new();
    pauses.install(id(1), 10);
    assert_eq!(pauses.pause_of(id(1)), Some(10));
    pauses.remove(id(1), 11);
    assert_eq!(pauses.pause_of(id(1)), Some(10));
    pauses.remove(id(1), 10);
    assert_eq!(pauses.pause_of(id(1)), None);
    pauses.install(id(1), 12);
    assert_eq!(pauses.pause_of(id(1)), Some(12));
}

#[test]
fn step_keeps_its_first_tools_and_its_requests() {
    let mut step: StepContext<&str, u8> = StepContext::new("captured");
    assert!(!step.context_transition_has_sibling_tool());
    assert!(!step.turn_context_refresh_requested());
    step.mcp_tools(vec![1]);
    step.mcp_tools(vec![2]);
    assert_eq!(step.mcp_tool_snapshot, Some(vec![1]));
    step.request_turn_context_refresh();
    assert!(step.turn_context_refresh_requested());
    assert!(!step.context_transition_has_sibling_tool());
    step.reject_context_transition_mixed_with_sibling_tool();
    assert!(step.context_transition_has_sibling_tool());
}

fn hints() -> MultiAgentV2Config {
    MultiAgentV2Config {
        max_concurrent_threads_per_session: 4,
        wait_agent_enabled: true,
        expose_spawn_agent_model_overrides: false,
        root_agent_usage_hint_text: None,
        subagent_usage_hint_text: Some("sub".to_string()),
        multi_agent_mode_hint_text: None,
    }
}

fn model_messages() -> ResolvedMultiAgentMessages {
    ResolvedMultiAgentMessages {
        root: ResolvedMessage::Catalog("root".to_string()),
        subagent: ResolvedMessage::Bundled("bundled".to_string()),
        proactive: ResolvedMessage::Bundled("go".to_string()),
        hint: None,
    }
}

fn turn(source: SessionSource) -> MultiAgentTurn {
    MultiAgentTurn {
        version: MultiAgentVersion::V2,
        session_source: source,
        is_supervisor_helper: false,
        config: hints(),
        update_plan_enabled: false,
        has_model_catalog: false,
    }
}

#[test]
fn configured_roles_override_messages_and_empty_ones_silence() {
    let composed = |base: &str, marked: bool, omit: bool| {
        Some(MultiAgentRoleInstructions::Composed {
            base: base.to_string(),
            marked,
            omit_update_plan_instructions: omit,
            max_concurrency: 4,
            wait_agent_enabled: true,
            expose_model_overrides: false,
        })
    };
    let resolved = resolve_usage_hints(&hints(), &model_messages(), true);
    assert_eq!(resolved.root, composed("root", true, true));
    assert_eq!(
        resolved.subagent,
        Some(MultiAgentRoleInstructions::Configured("sub".to_string()))
    );
    let mut config = hints();
    config.root_agent_usage_hint_text = Some(String::new());
    config.subagent_usage_hint_text = None;
    let resolved = resolve_usage_hints(&config, &model_messages(), false);
    assert_eq!(resolved.root, None);
    assert_eq!(resolved.subagent, composed("bundled", false, false));
    let mut silent = model_messages();
    silent.root = ResolvedMessage::Bundled(String::new());
    assert_eq!(resolve_usage_hints(&hints(), &silent, false).root, None);
    assert_eq!(
        usage_hint_text(&turn(SessionSource::Cli), &model_messages()),
        composed("root", true, true)
    );
}

#[test]
fn roles_are_told_to_agents_of_users_and_threads() {
    let spawned = SessionSource::SubAgent(SubAgentSource::ThreadSpawn {
        parent_thread_id: id(1),
        depth: 1,
    });
    assert_eq!(
        usage_hint_text(&turn(spawned.clone()), &model_messages()),
        Some(MultiAgentRoleInstructions::Configured("sub".to_string()))
    );
    for source in [
        SessionSource::Internal("x".to_string()),
        SessionSource::SubAgent(SubAgentSource::Review),
    ] {
        assert_eq!(usage_hint_text(&turn(source.clone()), &model_messages()), None);
        assert_eq!(effective_multi_agent_mode(&turn(source), &model_messages()), None);
    }
    let mut helper = turn(spawned.clone());
    helper.is_supervisor_helper = true;
    assert_eq!(usage_hint_text(&helper, &model_messages()), None);
    let mut old = turn(spawned);
    old.version = MultiAgentVersion::V1;
    assert_eq!(usage_hint_text(&old, &model_messages()), None);
    assert_eq!(effective_multi_agent_mode(&old, &model_messages()), None);
}

#[test]
fn mode_follows_hint_then_catalog_then_default() {
    let mut messages = model_messages();
    let mut turn = turn(SessionSource::VSCode);
    assert_eq!(
        effective_multi_agent_mode(&turn, &messages),
        Some(MultiAgentMode::Proactive)
    );
    messages.proactive = ResolvedMessage::Catalog("catalog".to_string());
    assert_eq!(
        effective_multi_agent_mode(&turn, &messages),
        Some(MultiAgentMode::Custom("catalog".to_string()))
    );
    messages.hint = Some("hint".to_string());
    assert_eq!(
        effective_multi_agent_mode(&turn, &messages),
        Some(MultiAgentMode::Custom("hint".to_string()))
    );
    turn.config.multi_agent_mode_hint_text = Some(String::new());
    assert_eq!(
        effective_multi_agent_mode(&turn, &messages),
        Some(MultiAgentMode::Custom(String::new()))
    );
}
