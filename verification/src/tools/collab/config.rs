//! The configuration that a spawned or resumed agent gets from its parent's turn.
use crate::text::copy_option;
use crate::tools::refusal::FunctionCallError;
use crate::tools::refusal::Refusal;
use vstd::prelude::*;

verus! {

/// The configuration of an agent. `P` stands for what is only handed on.
#[derive(Clone, Debug, PartialEq, Eq)]
pub struct AgentConfig<P> {
    pub base_instructions: Option<String>,
    pub developer_instructions: Option<String>,
    pub model: Option<String>,
    pub model_provider: P,
    pub model_reasoning_effort: Option<P>,
    pub model_reasoning_summary: P,
    pub compact_prompt: Option<String>,
    pub shell_environment_policy: P,
    pub codex_linux_sandbox_exe: Option<String>,
    pub cwd: String,
    pub approval_policy: P,
    pub sandbox_policy: P,
    /// Everything that is inherited unchanged.
    pub inherited: P,
}

/// What a turn holds for the agents that it starts.
#[derive(Clone, Debug, PartialEq, Eq)]
pub struct AgentTurn<P> {
    /// The configuration that the turn itself was made from.
    pub config: AgentConfig<P>,
    /// The instructions of the turn, which already hold the prompt of the root role.
    pub developer_instructions: Option<String>,
    pub model: String,
    pub model_provider: P,
    pub model_reasoning_effort: Option<P>,
    pub model_reasoning_summary: P,
    pub compact_prompt: Option<String>,
    pub shell_environment_policy: P,
    pub codex_linux_sandbox_exe: Option<String>,
    pub cwd: String,
    pub approval_policy: P,
    pub sandbox_policy: P,
}

/// The configuration for an agent of `turn`: the settings that the turn runs with, under the
/// given instructions.
pub open spec fn agent_config<P>(
    turn: AgentTurn<P>,
    base_instructions: Option<String>,
    developer_instructions: Option<String>,
) -> AgentConfig<P> {
    AgentConfig {
        base_instructions,
        developer_instructions,
        model: Some(turn.model),
        model_provider: turn.model_provider,
        model_reasoning_effort: turn.model_reasoning_effort,
        model_reasoning_summary: turn.model_reasoning_summary,
        compact_prompt: turn.compact_prompt,
        shell_environment_policy: turn.shell_environment_policy,
        codex_linux_sandbox_exe: turn.codex_linux_sandbox_exe,
        cwd: turn.cwd,
        approval_policy: turn.approval_policy,
        sandbox_policy: turn.sandbox_policy,
        inherited: turn.config.inherited,
    }
}

/// The configuration, unless the policies of the turn are not allowed in it.
pub open spec fn checked_agent_config<P>(
    turn: AgentTurn<P>,
    base_instructions: Option<String>,
    developer_instructions: Option<String>,
    approval: Result<(), String>,
    sandbox: Result<(), String>,
) -> Result<AgentConfig<P>, FunctionCallError> {
    match (approval, sandbox) {
        (Err(error), _) => Err(FunctionCallError::RespondToModel(Refusal::ApprovalPolicy(error))),
        (Ok(()), Err(error)) => Err(
            FunctionCallError::RespondToModel(Refusal::SandboxPolicy(error)),
        ),
        (Ok(()), Ok(())) => Ok(agent_config(turn, base_instructions, developer_instructions)),
    }
}

fn build<P>(
    turn: AgentTurn<P>,
    base_instructions: Option<String>,
    developer_instructions: Option<String>,
    approval: Result<(), String>,
    sandbox: Result<(), String>,
) -> (res: Result<AgentConfig<P>, FunctionCallError>)
    ensures
        res == checked_agent_config(
            turn,
            base_instructions,
            developer_instructions,
            approval,
            sandbox,
        ),
{
    match (approval, sandbox) {
        (Err(error), _) => Err(FunctionCallError::RespondToModel(Refusal::ApprovalPolicy(error))),
        (Ok(()), Err(error)) => Err(
            FunctionCallError::RespondToModel(Refusal::SandboxPolicy(error)),
        ),
        (Ok(()), Ok(())) => Ok(
            AgentConfig {
                base_instructions,
                developer_instructions,
                model: Some(turn.model),
                model_provider: turn.model_provider,
                model_reasoning_effort: turn.model_reasoning_effort,
                model_reasoning_summary: turn.model_reasoning_summary,
                compact_prompt: turn.compact_prompt,
                shell_environment_policy: turn.shell_environment_policy,
                codex_linux_sandbox_exe: turn.codex_linux_sandbox_exe,
                cwd: turn.cwd,
                approval_policy: turn.approval_policy,
                sandbox_policy: turn.sandbox_policy,
                inherited: turn.config.inherited,
            },
        ),
    }
}

/// The configuration of a new agent, with the developer instructions of the turn's configuration.
pub open spec fn spawn_config<P>(
    base_instructions: String,
    turn: AgentTurn<P>,
    approval: Result<(), String>,
    sandbox: Result<(), String>,
) -> Result<AgentConfig<P>, FunctionCallError> {
    checked_agent_config(
        turn,
        Some(base_instructions),
        turn.config.developer_instructions,
        approval,
        sandbox,
    )
}

/// The configuration for a new agent. It has the developer instructions of the configuration
/// rather than those of the turn, so that the root role's prompt stays with root. `approval` and
/// `sandbox` say whether the configuration allows the policies of the turn.
pub fn build_agent_spawn_config<P>(
    base_instructions: String,
    turn: AgentTurn<P>,
    approval: Result<(), String>,
    sandbox: Result<(), String>,
) -> (res: Result<AgentConfig<P>, FunctionCallError>)
    ensures
        res == spawn_config(base_instructions, turn, approval, sandbox),
{
    let developer_instructions: Option<String> = copy_option(&turn.config.developer_instructions);
    build(turn, Some(base_instructions), developer_instructions, approval, sandbox)
}

/// The configuration for an agent that is resumed: its base instructions come with its rollout,
/// and its developer instructions are those of the turn that resumes it.
pub fn build_agent_resume_config<P>(
    turn: AgentTurn<P>,
    _child_depth: i32,
    approval: Result<(), String>,
    sandbox: Result<(), String>,
) -> (res: Result<AgentConfig<P>, FunctionCallError>)
    ensures
        res == checked_agent_config(
            turn,
            None,
            turn.developer_instructions,
            approval,
            sandbox,
        ),
{
    let developer_instructions: Option<String> = copy_option(&turn.developer_instructions);
    build(turn, None, developer_instructions, approval, sandbox)
}

/// The instructions of the turn, and with them the prompt of the root role, have no influence on
/// what an agent is told that the turn spawns.
pub proof fn law_root_role_prompt_stays_with_root<P>(
    turn: AgentTurn<P>,
    other_instructions: Option<String>,
    base_instructions: String,
    approval: Result<(), String>,
    sandbox: Result<(), String>,
)
    ensures
        spawn_config(
            base_instructions,
            AgentTurn { developer_instructions: other_instructions, ..turn },
            approval,
            sandbox,
        ) == spawn_config(base_instructions, turn, approval, sandbox),
{
}

/// An agent runs with the settings of the turn that starts it and inherits the rest from the
/// configuration of that turn. It is told what it is to be told, and nothing else.
pub proof fn law_agent_runs_with_the_settings_of_its_turn<P>(
    turn: AgentTurn<P>,
    base_instructions: Option<String>,
    developer_instructions: Option<String>,
)
    ensures
        ({
            let config = agent_config(turn, base_instructions, developer_instructions);
            &&& config.base_instructions == base_instructions
            &&& config.developer_instructions == developer_instructions
            &&& config.model == Some(turn.model)
            &&& config.model_provider == turn.model_provider
            &&& config.model_reasoning_effort == turn.model_reasoning_effort
            &&& config.model_reasoning_summary == turn.model_reasoning_summary
            &&& config.compact_prompt == turn.compact_prompt
            &&& config.shell_environment_policy == turn.shell_environment_policy
            &&& config.codex_linux_sandbox_exe == turn.codex_linux_sandbox_exe
            &&& config.cwd == turn.cwd
            &&& config.approval_policy == turn.approval_policy
            &&& config.sandbox_policy == turn.sandbox_policy
            &&& config.inherited == turn.config.inherited
        }),
{
}

/// A new agent has the base instructions that it is given and the developer instructions of the
/// configuration, provided that both policies of the turn are allowed; an approval policy that is
/// not is named first.
pub proof fn law_agent_is_configured_only_under_allowed_policies<P>(
    turn: AgentTurn<P>,
    base_instructions: String,
    error: String,
    sandbox: Result<(), String>,
)
    ensures
        spawn_config(base_instructions, turn, Ok(()), Ok(())) == Ok::<
            AgentConfig<P>,
            FunctionCallError,
        >(
            agent_config(turn, Some(base_instructions), turn.config.developer_instructions),
        ),
        spawn_config(base_instructions, turn, Err(error), sandbox) == Err::<
            AgentConfig<P>,
            FunctionCallError,
        >(FunctionCallError::RespondToModel(Refusal::ApprovalPolicy(error))),
        spawn_config(base_instructions, turn, Ok(()), Err(error)) == Err::<
            AgentConfig<P>,
            FunctionCallError,
        >(FunctionCallError::RespondToModel(Refusal::SandboxPolicy(error))),
{
}

/// A resumed agent differs from a new one only in what it is told: the policies that are allowed
/// for the one are allowed for the other.
pub proof fn law_resumed_agent_runs_like_a_new_one<P>(
    turn: AgentTurn<P>,
    base_instructions: String,
    approval: Result<(), String>,
    sandbox: Result<(), String>,
)
    ensures
        ({
            let new = spawn_config(base_instructions, turn, approval, sandbox);
            let resumed = checked_agent_config(
                turn,
                None,
                turn.developer_instructions,
                approval,
                sandbox,
            );
            &&& new is Ok <==> resumed is Ok
            &&& new is Err ==> new->Err_0 == resumed->Err_0
            &&& new is Ok ==> resumed->Ok_0 == (AgentConfig {
                base_instructions: None,
                developer_instructions: turn.developer_instructions,
                ..new->Ok_0
            })
        }),
{
}

/// A resumed agent has no base instructions but those of its rollout, and the developer
/// instructions of the turn that resumes it, however deep it lies.
pub proof fn law_resumed_agent_is_told_what_the_turn_is_told<P>(
    turn: AgentTurn<P>,
    child_depth: i32,
    approval: Result<(), String>,
    sandbox: Result<(), String>,
    res: Result<AgentConfig<P>, FunctionCallError>,
)
    requires
        call_ensures(build_agent_resume_config::<P>, (turn, child_depth, approval, sandbox), res),
    ensures
        res is Ok <==> approval is Ok && sandbox is Ok,
        res matches Ok(config) ==> config == agent_config(turn, None, turn.developer_instructions),
        approval matches Err(error) ==> res == Err::<AgentConfig<P>, FunctionCallError>(
            FunctionCallError::RespondToModel(Refusal::ApprovalPolicy(error)),
        ),
        approval is Ok ==> (sandbox matches Err(error) ==> res == Err::<
            AgentConfig<P>,
            FunctionCallError,
        >(FunctionCallError::RespondToModel(Refusal::SandboxPolicy(error)))),
{
}

/// A new agent gets the configuration of a spawn.
pub proof fn law_new_agent_gets_the_configuration_of_a_spawn<P>(
    base_instructions: String,
    turn: AgentTurn<P>,
    approval: Result<(), String>,
    sandbox: Result<(), String>,
    res: Result<AgentConfig<P>, FunctionCallError>,
)
    requires
        call_ensures(
            build_agent_spawn_config::<P>,
            (base_instructions, turn, approval, sandbox),
            res,
        ),
    ensures
        res == spawn_config(base_instructions, turn, approval, sandbox),
{
}

} // verus!
