//! What a session tells the model about working with other agents.
use crate::protocol::SessionSource;
use crate::protocol::SubAgentSource;
use vstd::prelude::*;

verus! {

#[derive(Clone, Copy, Debug, PartialEq, Eq, Structural)]
pub enum MultiAgentVersion {
    Disabled,
    V1,
    V2,
}

/// A message for the model: from the model catalog, or the one that comes with the program.
#[derive(Clone, Debug, PartialEq, Eq)]
pub enum ResolvedMessage {
    Catalog(String),
    Bundled(String),
}

impl ResolvedMessage {
    pub open spec fn spec_text(self) -> String {
        match self {
            ResolvedMessage::Catalog(text) => text,
            ResolvedMessage::Bundled(text) => text,
        }
    }

    pub fn text(&self) -> (res: &String)
        ensures
            *res == self.spec_text(),
    {
        match self {
            ResolvedMessage::Catalog(text) => text,
            ResolvedMessage::Bundled(text) => text,
        }
    }
}

/// The messages about other agents that hold for a model.
#[derive(Clone, Debug, PartialEq, Eq)]
pub struct ResolvedMultiAgentMessages {
    pub root: ResolvedMessage,
    pub subagent: ResolvedMessage,
    pub proactive: ResolvedMessage,
    pub hint: Option<String>,
}

/// The user's configuration of the work with other agents.
#[derive(Clone, Debug, PartialEq, Eq)]
pub struct MultiAgentV2Config {
    pub max_concurrent_threads_per_session: usize,
    pub wait_agent_enabled: bool,
    pub expose_spawn_agent_model_overrides: bool,
    pub root_agent_usage_hint_text: Option<String>,
    pub subagent_usage_hint_text: Option<String>,
    pub multi_agent_mode_hint_text: Option<String>,
}

/// What an agent is told about its role.
#[derive(Clone, Debug, PartialEq, Eq)]
pub enum MultiAgentRoleInstructions {
    Configured(String),
    Composed {
        base: String,
        /// Whether the base comes from the model catalog.
        marked: bool,
        omit_update_plan_instructions: bool,
        max_concurrency: usize,
        wait_agent_enabled: bool,
        expose_model_overrides: bool,
    },
}

/// What the root and the other agents are told about their role.
#[derive(Clone, Debug, PartialEq, Eq)]
pub struct ResolvedMultiAgentV2UsageHints {
    pub root: Option<MultiAgentRoleInstructions>,
    pub subagent: Option<MultiAgentRoleInstructions>,
}

/// How an agent works with others.
#[derive(Clone, Debug, PartialEq, Eq)]
pub enum MultiAgentMode {
    Proactive,
    Custom(String),
}

/// What a role is told: what the user configured, else the message of the model. An empty text
/// on either level silences the role.
pub open spec fn role_instructions(
    config: MultiAgentV2Config,
    configured: Option<String>,
    message: ResolvedMessage,
    omit_update_plan_instructions: bool,
) -> Option<MultiAgentRoleInstructions> {
    match configured {
        Some(text) => if text@.len() == 0 {
            None
        } else {
            Some(MultiAgentRoleInstructions::Configured(text))
        },
        None => if message.spec_text()@.len() == 0 {
            None
        } else {
            Some(
                MultiAgentRoleInstructions::Composed {
                    base: message.spec_text(),
                    marked: message is Catalog,
                    omit_update_plan_instructions,
                    max_concurrency: config.max_concurrent_threads_per_session,
                    wait_agent_enabled: config.wait_agent_enabled,
                    expose_model_overrides: config.expose_spawn_agent_model_overrides,
                },
            )
        },
    }
}

fn resolve_role(
    config: &MultiAgentV2Config,
    configured: &Option<String>,
    message: &ResolvedMessage,
    omit_update_plan_instructions: bool,
) -> (res: Option<MultiAgentRoleInstructions>)
    ensures
        res == role_instructions(*config, *configured, *message, omit_update_plan_instructions),
{
    if let Some(text) = configured {
        return if text.as_str().is_empty() {
            None
        } else {
            Some(MultiAgentRoleInstructions::Configured(text.clone()))
        };
    }
    let base: &String = message.text();
    if base.as_str().is_empty() {
        return None;
    }
    let marked: bool = match message {
        ResolvedMessage::Catalog(_) => true,
        ResolvedMessage::Bundled(_) => false,
    };
    Some(
        MultiAgentRoleInstructions::Composed {
            base: base.clone(),
            marked,
            omit_update_plan_instructions,
            max_concurrency: config.max_concurrent_threads_per_session,
            wait_agent_enabled: config.wait_agent_enabled,
            expose_model_overrides: config.expose_spawn_agent_model_overrides,
        },
    )
}

/// What the root and the other agents are told about their role.
pub fn resolve_usage_hints(
    config: &MultiAgentV2Config,
    messages: &ResolvedMultiAgentMessages,
    omit_update_plan_instructions: bool,
) -> (res: ResolvedMultiAgentV2UsageHints)
    ensures
        res.root == role_instructions(
            *config,
            config.root_agent_usage_hint_text,
            messages.root,
            omit_update_plan_instructions,
        ),
        res.subagent == role_instructions(
            *config,
            config.subagent_usage_hint_text,
            messages.subagent,
            omit_update_plan_instructions,
        ),
{
    ResolvedMultiAgentV2UsageHints {
        root: resolve_role(
            config,
            &config.root_agent_usage_hint_text,
            &messages.root,
            omit_update_plan_instructions,
        ),
        subagent: resolve_role(
            config,
            &config.subagent_usage_hint_text,
            &messages.subagent,
            omit_update_plan_instructions,
        ),
    }
}

/// What a turn is, as far as the work with other agents goes.
#[derive(Clone, Debug, PartialEq, Eq)]
pub struct MultiAgentTurn {
    pub version: MultiAgentVersion,
    pub session_source: SessionSource,
    /// Whether the session is a helper that supervises a goal.
    pub is_supervisor_helper: bool,
    pub config: MultiAgentV2Config,
    /// Whether plans are kept by a tool of their own.
    pub update_plan_enabled: bool,
    /// Whether the user has a model catalog of their own.
    pub has_model_catalog: bool,
}

/// Whether a session was spawned by the agent of another thread.
pub open spec fn is_spawned(source: SessionSource) -> bool {
    source matches SessionSource::SubAgent(SubAgentSource::ThreadSpawn { .. })
}

/// Whether a session is a user's own.
pub open spec fn is_root(source: SessionSource) -> bool {
    !(source is Internal) && !(source is SubAgent)
}

/// What the agent of a turn is told about its role, if anything: spawned agents and the user's
/// own are, helpers of the system are not.
pub fn usage_hint_text(turn: &MultiAgentTurn, messages: &ResolvedMultiAgentMessages) -> (res:
    Option<MultiAgentRoleInstructions>)
    ensures
        res == {
            let omit = !turn.update_plan_enabled && !turn.has_model_catalog;
            if turn.version != MultiAgentVersion::V2 || turn.is_supervisor_helper {
                None
            } else if is_spawned(turn.session_source) {
                role_instructions(
                    turn.config,
                    turn.config.subagent_usage_hint_text,
                    messages.subagent,
                    omit,
                )
            } else if is_root(turn.session_source) {
                role_instructions(
                    turn.config,
                    turn.config.root_agent_usage_hint_text,
                    messages.root,
                    omit,
                )
            } else {
                None
            }
        },
{
    if turn.version != MultiAgentVersion::V2 {
        return None;
    }
    if turn.is_supervisor_helper {
        return None;
    }
    let hints: ResolvedMultiAgentV2UsageHints = resolve_usage_hints(
        &turn.config,
        messages,
        !turn.update_plan_enabled && !turn.has_model_catalog,
    );
    match &turn.session_source {
        SessionSource::SubAgent(SubAgentSource::ThreadSpawn { .. }) => hints.subagent,
        SessionSource::Internal(_) => None,
        SessionSource::SubAgent(_) => None,
        _ => hints.root,
    }
}

/// How the agent of a turn works with others: as a hint says, which may be empty, else as the
/// catalog says, else proactively.
pub open spec fn mode_of(
    config: MultiAgentV2Config,
    messages: ResolvedMultiAgentMessages,
) -> MultiAgentMode {
    match config.multi_agent_mode_hint_text {
        Some(text) => MultiAgentMode::Custom(text),
        None => match messages.hint {
            Some(text) => MultiAgentMode::Custom(text),
            None => match messages.proactive {
                ResolvedMessage::Catalog(text) => MultiAgentMode::Custom(text),
                ResolvedMessage::Bundled(_) => MultiAgentMode::Proactive,
            },
        },
    }
}

/// How the agent of a turn works with others, if it does.
pub fn effective_multi_agent_mode(
    turn: &MultiAgentTurn,
    messages: &ResolvedMultiAgentMessages,
) -> (res: Option<MultiAgentMode>)
    ensures
        res == if turn.version == MultiAgentVersion::V2 && (is_spawned(turn.session_source)
            || is_root(turn.session_source)) {
            Some(mode_of(turn.config, *messages))
        } else {
            None
        },
{
    if turn.version != MultiAgentVersion::V2 {
        return None;
    }
    let mode: MultiAgentMode = match (&turn.config.multi_agent_mode_hint_text, &messages.hint) {
        (Some(text), _) => MultiAgentMode::Custom(text.clone()),
        (None, Some(text)) => MultiAgentMode::Custom(text.clone()),
        (None, None) => match &messages.proactive {
            ResolvedMessage::Catalog(text) => MultiAgentMode::Custom(text.clone()),
            ResolvedMessage::Bundled(_) => MultiAgentMode::Proactive,
        },
    };
    match &turn.session_source {
        SessionSource::SubAgent(SubAgentSource::ThreadSpawn { .. }) => Some(mode),
        SessionSource::Internal(_) => None,
        SessionSource::SubAgent(_) => None,
        _ => Some(mode),
    }
}

/// What the user configures for a role takes the place of the model's message, even if it is
/// empty.
pub proof fn law_configured_role_overrides_the_message(
    config: MultiAgentV2Config,
    configured: String,
    message: ResolvedMessage,
    other: ResolvedMessage,
    omit: bool,
)
    ensures
        role_instructions(config, Some(configured), message, omit) == role_instructions(
            config,
            Some(configured),
            other,
            omit,
        ),
        configured@.len() == 0 ==> role_instructions(config, Some(configured), message, omit)
            is None,
{
}

/// A role for which nothing is configured is told the message of the model, with what the
/// configuration says of the work; an empty message silences it. A text that is configured is
/// told as it is.
pub proof fn law_role_is_told_the_message_of_the_model(
    config: MultiAgentV2Config,
    text: String,
    omit: bool,
)
    ensures
        text@.len() > 0 ==> {
            &&& role_instructions(config, None, ResolvedMessage::Catalog(text), omit) == Some(
                MultiAgentRoleInstructions::Composed {
                    base: text,
                    marked: true,
                    omit_update_plan_instructions: omit,
                    max_concurrency: config.max_concurrent_threads_per_session,
                    wait_agent_enabled: config.wait_agent_enabled,
                    expose_model_overrides: config.expose_spawn_agent_model_overrides,
                },
            )
            &&& role_instructions(config, None, ResolvedMessage::Bundled(text), omit) == Some(
                MultiAgentRoleInstructions::Composed {
                    base: text,
                    marked: false,
                    omit_update_plan_instructions: omit,
                    max_concurrency: config.max_concurrent_threads_per_session,
                    wait_agent_enabled: config.wait_agent_enabled,
                    expose_model_overrides: config.expose_spawn_agent_model_overrides,
                },
            )
            &&& forall|message: ResolvedMessage|
                #[trigger] role_instructions(config, Some(text), message, omit) == Some(
                    MultiAgentRoleInstructions::Configured(text),
                )
        },
        text@.len() == 0 ==> {
            &&& role_instructions(config, None, ResolvedMessage::Catalog(text), omit) is None
            &&& role_instructions(config, None, ResolvedMessage::Bundled(text), omit) is None
        },
{
}

/// A hint of the user comes before one of the model, and that before the message of the catalog;
/// the message that comes with the program means that the agent works proactively.
pub proof fn law_mode_follows_the_nearest_hint(
    config: MultiAgentV2Config,
    messages: ResolvedMultiAgentMessages,
    text: String,
)
    ensures
        config.multi_agent_mode_hint_text == Some(text) ==> mode_of(config, messages)
            == MultiAgentMode::Custom(text),
        config.multi_agent_mode_hint_text is None && messages.hint == Some(text) ==> mode_of(
            config,
            messages,
        ) == MultiAgentMode::Custom(text),
        config.multi_agent_mode_hint_text is None && messages.hint is None && messages.proactive
            == ResolvedMessage::Catalog(text) ==> mode_of(config, messages)
            == MultiAgentMode::Custom(text),
        config.multi_agent_mode_hint_text is None && messages.hint is None && messages.proactive
            is Bundled ==> mode_of(config, messages) == MultiAgentMode::Proactive,
{
}

/// A session is a user's own unless the system or another agent started it; only one that the
/// agent of another thread started is a spawned one.
pub proof fn law_sessions_are_of_users_agents_or_the_system(source: SessionSource)
    ensures
        is_root(source) <==> match source {
            SessionSource::Cli => true,
            SessionSource::VSCode => true,
            SessionSource::Exec => true,
            SessionSource::Mcp => true,
            SessionSource::Custom(_) => true,
            SessionSource::Unknown => true,
            SessionSource::Internal(_) => false,
            SessionSource::SubAgent(_) => false,
        },
        is_spawned(source) <==> match source {
            SessionSource::SubAgent(agent) => agent is ThreadSpawn,
            _ => false,
        },
        !(is_root(source) && is_spawned(source)),
{
}

/// The root is told what is configured or meant for the root, and the other agents what is for
/// them.
pub proof fn law_each_role_is_told_its_own(
    config: MultiAgentV2Config,
    messages: ResolvedMultiAgentMessages,
    omit: bool,
    res: ResolvedMultiAgentV2UsageHints,
)
    requires
        call_ensures(resolve_usage_hints, (&config, &messages, omit), res),
    ensures
        res.root == role_instructions(
            config,
            config.root_agent_usage_hint_text,
            messages.root,
            omit,
        ),
        res.subagent == role_instructions(
            config,
            config.subagent_usage_hint_text,
            messages.subagent,
            omit,
        ),
{
}

/// Only the second version tells agents about their role, and only the user's own and spawned
/// ones, never a helper that supervises. The instructions on plans are left out where plans are
/// not kept by a tool and the catalog is not the user's.
pub proof fn law_only_working_agents_are_told_their_role(
    turn: MultiAgentTurn,
    messages: ResolvedMultiAgentMessages,
    res: Option<MultiAgentRoleInstructions>,
)
    requires
        call_ensures(usage_hint_text, (&turn, &messages), res),
    ensures
        ({
            let omit = !turn.update_plan_enabled && !turn.has_model_catalog;
            let told = turn.version is V2 && !turn.is_supervisor_helper;
            &&& !told ==> res is None
            &&& told && (turn.session_source matches SessionSource::SubAgent(agent) && agent
                is ThreadSpawn) ==> res == role_instructions(
                turn.config,
                turn.config.subagent_usage_hint_text,
                messages.subagent,
                omit,
            )
            &&& (turn.session_source matches SessionSource::SubAgent(agent) && !(agent
                is ThreadSpawn)) || turn.session_source is Internal ==> res is None
            &&& told && !(turn.session_source is SubAgent) && !(turn.session_source is Internal)
                ==> res == role_instructions(
                turn.config,
                turn.config.root_agent_usage_hint_text,
                messages.root,
                omit,
            )
        }),
{
}

/// The user's own agents and spawned ones work with others in the second version, and no others
/// do.
pub proof fn law_only_working_agents_have_a_mode(
    turn: MultiAgentTurn,
    messages: ResolvedMultiAgentMessages,
    res: Option<MultiAgentMode>,
)
    requires
        call_ensures(effective_multi_agent_mode, (&turn, &messages), res),
    ensures
        res is Some <==> turn.version is V2 && match turn.session_source {
            SessionSource::SubAgent(agent) => agent is ThreadSpawn,
            SessionSource::Internal(_) => false,
            _ => true,
        },
        res is Some ==> res == Some(mode_of(turn.config, messages)),
{
}

} // verus!
