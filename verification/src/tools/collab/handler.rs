//! What the collaboration tools share: picking the tool, agent ids, and errors.
use crate::errors::CodexErr;
use crate::ids::ThreadId;
use crate::ids::uuid_read;
use crate::protocol::SessionSource;
use crate::protocol::SubAgentSource;
use crate::text::same_text;
use crate::tools::refusal::FunctionCallError;
use crate::tools::refusal::Refusal;
use vstd::prelude::*;

verus! {

/// What a tool is called with.
#[derive(Clone, Debug, PartialEq, Eq)]
pub enum ToolPayload {
    Function { arguments: String },
    Custom { input: String },
    /// Any other payload, in its serialised form.
    Other { json: String },
}

/// How a tool is called.
#[derive(Clone, Copy, Debug, PartialEq, Eq, Structural)]
pub enum ToolKind {
    Function,
    Mcp,
}

/// A collaboration tool.
#[derive(Clone, Copy, Debug, PartialEq, Eq, Structural)]
pub enum CollabTool {
    SpawnAgent,
    SendInput,
    CompactParentContext,
    ListAgents,
    ResumeAgent,
    Wait,
    CloseAgent,
}

/// The handler of the collaboration tools.
#[derive(Clone, Copy, Debug, PartialEq, Eq, Structural)]
pub struct CollabHandler;

/// The collaboration tool of a name.
pub open spec fn collab_tool(name: Seq<char>) -> Option<CollabTool> {
    if name == "spawn_agent"@ {
        Some(CollabTool::SpawnAgent)
    } else if name == "send_input"@ {
        Some(CollabTool::SendInput)
    } else if name == "compact_parent_context"@ {
        Some(CollabTool::CompactParentContext)
    } else if name == "list_agents"@ {
        Some(CollabTool::ListAgents)
    } else if name == "resume_agent"@ {
        Some(CollabTool::ResumeAgent)
    } else if name == "wait"@ {
        Some(CollabTool::Wait)
    } else if name == "close_agent"@ {
        Some(CollabTool::CloseAgent)
    } else {
        None
    }
}

impl CollabHandler {
    pub fn kind(&self) -> (res: ToolKind)
        ensures
            res == ToolKind::Function,
    {
        ToolKind::Function
    }

    pub fn matches_kind(&self, payload: &ToolPayload) -> (res: bool)
        ensures
            res == (*payload is Function),
    {
        match payload {
            ToolPayload::Function { .. } => true,
            _ => false,
        }
    }

    /// Picks the tool that is called and the arguments that it is called with.
    pub fn handle(&self, tool_name: String, payload: ToolPayload) -> (res: Result<
        (CollabTool, String),
        FunctionCallError,
    >)
        ensures
            res == match payload {
                ToolPayload::Function { arguments } => match collab_tool(tool_name@) {
                    Some(tool) => Ok::<(CollabTool, String), FunctionCallError>((tool, arguments)),
                    None => Err(
                        FunctionCallError::RespondToModel(Refusal::UnsupportedTool(tool_name)),
                    ),
                },
                _ => Err(FunctionCallError::RespondToModel(Refusal::UnsupportedPayload)),
            },
    {
        let arguments: String = match payload {
            ToolPayload::Function { arguments } => arguments,
            _ => {
                return Err(FunctionCallError::RespondToModel(Refusal::UnsupportedPayload));
            },
        };
        let name: &str = tool_name.as_str();
        let tool: CollabTool = if same_text(name, "spawn_agent") {
            CollabTool::SpawnAgent
        } else if same_text(name, "send_input") {
            CollabTool::SendInput
        } else if same_text(name, "compact_parent_context") {
            CollabTool::CompactParentContext
        } else if same_text(name, "list_agents") {
            CollabTool::ListAgents
        } else if same_text(name, "resume_agent") {
            CollabTool::ResumeAgent
        } else if same_text(name, "wait") {
            CollabTool::Wait
        } else if same_text(name, "close_agent") {
            CollabTool::CloseAgent
        } else {
            return Err(FunctionCallError::RespondToModel(Refusal::UnsupportedTool(tool_name)));
        };
        Ok((tool, arguments))
    }
}

/// Whether the answer of a tool says that the call went well: all say so, except that a wait does
/// not judge what it has waited for.
pub fn answer_success(tool: CollabTool) -> (res: Option<bool>)
    ensures
        res == if tool == CollabTool::Wait {
            None
        } else {
            Some(true)
        },
{
    match tool {
        CollabTool::Wait => None,
        _ => Some(true),
    }
}

/// `res` is what becomes of `id` as an agent id: its thread, or a refusal that names `id` and
/// what is wrong with it.
pub open spec fn is_agent_id(id: Seq<char>, res: Result<ThreadId, FunctionCallError>) -> bool {
    match uuid_read(id) {
        Ok(value) => res == Ok::<ThreadId, FunctionCallError>(ThreadId { value }),
        Err(error) => res matches Err(FunctionCallError::RespondToModel(
            Refusal::InvalidAgentId { id: i, error: e },
        )) && i@ == id && e@ == error,
    }
}

/// What becomes of a read agent id.
pub fn agent_id_outcome(id: &str, read: Result<ThreadId, String>) -> (res: Result<
    ThreadId,
    FunctionCallError,
>)
    ensures
        match read {
            Ok(thread_id) => res == Ok::<ThreadId, FunctionCallError>(thread_id),
            Err(error) => res matches Err(FunctionCallError::RespondToModel(
                Refusal::InvalidAgentId { id: i, error: e },
            )) && i@ == id@ && e == error,
        },
{
    match read {
        Ok(thread_id) => Ok(thread_id),
        Err(error) => Err(
            FunctionCallError::RespondToModel(Refusal::InvalidAgentId { id: id.to_owned(), error }),
        ),
    }
}

/// Reads an agent id. The written form of a thread id is read back as that thread.
pub fn agent_id(id: &str) -> (res: Result<ThreadId, FunctionCallError>)
    ensures
        is_agent_id(id@, res),
        forall|thread_id: ThreadId|
            id@ == #[trigger] thread_id.text() ==> res == Ok::<ThreadId, FunctionCallError>(
                thread_id,
            ),
{
    agent_id_outcome(id, ThreadId::from_string(id))
}

/// What a failure to spawn or to list agents is answered with; `displayed` is the error as it is
/// displayed.
pub open spec fn spawn_refusal(err: CodexErr, displayed: String) -> Refusal {
    match err {
        CodexErr::UnsupportedOperation(reason) => if reason@ == "thread manager dropped"@ {
            Refusal::ManagerUnavailable
        } else {
            Refusal::Message(reason)
        },
        _ => Refusal::SpawnFailed(displayed),
    }
}

pub fn collab_spawn_error(err: CodexErr, displayed: String) -> (res: FunctionCallError)
    ensures
        res == FunctionCallError::RespondToModel(spawn_refusal(err, displayed)),
{
    match err {
        CodexErr::UnsupportedOperation(reason) => {
            if same_text(reason.as_str(), "thread manager dropped") {
                FunctionCallError::RespondToModel(Refusal::ManagerUnavailable)
            } else {
                FunctionCallError::RespondToModel(Refusal::Message(reason))
            }
        },
        _ => FunctionCallError::RespondToModel(Refusal::SpawnFailed(displayed)),
    }
}

/// What a failure to reach the agent `agent_id` is answered with; `displayed` is the error as it
/// is displayed.
pub open spec fn agent_refusal(agent_id: ThreadId, err: CodexErr, displayed: String) -> Refusal {
    match err {
        CodexErr::ThreadNotFound(id) => Refusal::AgentNotFound(id),
        CodexErr::InternalAgentDied => Refusal::AgentClosed(agent_id),
        CodexErr::UnsupportedOperation(_) => Refusal::ManagerUnavailable,
        _ => Refusal::CollabFailed(displayed),
    }
}

pub fn collab_agent_error(agent_id: ThreadId, err: CodexErr, displayed: String) -> (res:
    FunctionCallError)
    ensures
        res == FunctionCallError::RespondToModel(agent_refusal(agent_id, err, displayed)),
{
    match err {
        CodexErr::ThreadNotFound(id) => FunctionCallError::RespondToModel(
            Refusal::AgentNotFound(id),
        ),
        CodexErr::InternalAgentDied => FunctionCallError::RespondToModel(
            Refusal::AgentClosed(agent_id),
        ),
        CodexErr::UnsupportedOperation(_) => FunctionCallError::RespondToModel(
            Refusal::ManagerUnavailable,
        ),
        _ => FunctionCallError::RespondToModel(Refusal::CollabFailed(displayed)),
    }
}

/// What started an agent that the thread `parent_thread_id` has spawned.
pub fn thread_spawn_source(parent_thread_id: ThreadId, depth: i32) -> (res: SessionSource)
    ensures
        res == SessionSource::SubAgent(SubAgentSource::ThreadSpawn { parent_thread_id, depth }),
{
    SessionSource::SubAgent(SubAgentSource::ThreadSpawn { parent_thread_id, depth })
}

/// Each tool is called by its own name, and by no other.
pub proof fn law_tools_are_called_by_name(name: Seq<char>)
    ensures
        collab_tool(name) == Some(CollabTool::SpawnAgent) <==> name == "spawn_agent"@,
        collab_tool(name) == Some(CollabTool::SendInput) <==> name == "send_input"@,
        collab_tool(name) == Some(CollabTool::CompactParentContext) <==> name
            == "compact_parent_context"@,
        collab_tool(name) == Some(CollabTool::ListAgents) <==> name == "list_agents"@,
        collab_tool(name) == Some(CollabTool::ResumeAgent) <==> name == "resume_agent"@,
        collab_tool(name) == Some(CollabTool::Wait) <==> name == "wait"@,
        collab_tool(name) == Some(CollabTool::CloseAgent) <==> name == "close_agent"@,
{
    reveal_strlit("spawn_agent");
    reveal_strlit("send_input");
    reveal_strlit("compact_parent_context");
    reveal_strlit("list_agents");
    reveal_strlit("resume_agent");
    reveal_strlit("wait");
    reveal_strlit("close_agent");
    assert("spawn_agent"@.len() == 11);
    assert("send_input"@.len() == 10);
    assert("compact_parent_context"@.len() == 22);
    assert("list_agents"@.len() == 11);
    assert("resume_agent"@.len() == 12);
    assert("wait"@.len() == 4);
    assert("close_agent"@.len() == 11);
    assert("spawn_agent"@[1] != "close_agent"@[1]);
    assert("spawn_agent"@[1] != "list_agents"@[1]);
    assert("close_agent"@[0] != "list_agents"@[0]);
}

/// An id is taken for the thread that it reads as; one that reads as none is refused together
/// with what is wrong with it.
pub proof fn law_agent_id_is_read_or_refused(
    id: Seq<char>,
    res: Result<ThreadId, FunctionCallError>,
)
    requires
        is_agent_id(id, res),
    ensures
        res is Ok <==> uuid_read(id) is Ok,
        res is Ok ==> res->Ok_0.value == uuid_read(id)->Ok_0,
        res is Err ==> (res->Err_0 matches FunctionCallError::RespondToModel(refusal) && (
        refusal matches Refusal::InvalidAgentId { id: named, error } && named@ == id && error@
            == uuid_read(id)->Err_0)),
{
}

/// What goes wrong with an agent is answered by what it is: an agent that is not there is named
/// by the id that was looked for, one that has died by its own, and everything else is shown as
/// it is displayed.
pub proof fn law_agent_failures_are_told_apart(
    agent_id: ThreadId,
    missing: ThreadId,
    reason: String,
    displayed: String,
    error: CodexErr,
)
    ensures
        agent_refusal(agent_id, CodexErr::ThreadNotFound(missing), displayed)
            == Refusal::AgentNotFound(missing),
        agent_refusal(agent_id, CodexErr::InternalAgentDied, displayed) == Refusal::AgentClosed(
            agent_id,
        ),
        agent_refusal(agent_id, CodexErr::UnsupportedOperation(reason), displayed)
            == Refusal::ManagerUnavailable,
        error is TurnAborted || error is InvalidRequest || error is Fatal || error is Other
            ==> agent_refusal(agent_id, error, displayed) == Refusal::CollabFailed(displayed),
{
}

/// A spawn that fails because the manager is gone says so; any other operation that is not
/// supported is answered in its own words, and everything else as it is displayed.
pub proof fn law_spawn_failures_are_told_apart(reason: String, displayed: String, error: CodexErr)
    ensures
        reason@ == "thread manager dropped"@ ==> spawn_refusal(
            CodexErr::UnsupportedOperation(reason),
            displayed,
        ) == Refusal::ManagerUnavailable,
        reason@ != "thread manager dropped"@ ==> spawn_refusal(
            CodexErr::UnsupportedOperation(reason),
            displayed,
        ) == Refusal::Message(reason),
        !(error is UnsupportedOperation) ==> spawn_refusal(error, displayed)
            == Refusal::SpawnFailed(displayed),
{
}

/// A function call of a known name is handled by the tool of that name, with the arguments of the
/// call. Anything else is refused, and a name that is not known is repeated.
pub proof fn law_known_calls_reach_their_tool(
    handler: CollabHandler,
    tool_name: String,
    payload: ToolPayload,
    res: Result<(CollabTool, String), FunctionCallError>,
)
    requires
        call_ensures(CollabHandler::handle, (&handler, tool_name, payload), res),
    ensures
        payload matches ToolPayload::Function { arguments } ==> match collab_tool(tool_name@) {
            Some(tool) => res == Ok::<(CollabTool, String), FunctionCallError>((tool, arguments)),
            None => res == Err::<(CollabTool, String), FunctionCallError>(
                FunctionCallError::RespondToModel(Refusal::UnsupportedTool(tool_name)),
            ),
        },
        !(payload is Function) ==> res == Err::<(CollabTool, String), FunctionCallError>(
            FunctionCallError::RespondToModel(Refusal::UnsupportedPayload),
        ),
{
}

/// Every answer but that of a wait says that the call went well.
pub proof fn law_only_a_wait_does_not_judge(tool: CollabTool, res: Option<bool>)
    requires
        call_ensures(answer_success, (tool,), res),
    ensures
        tool is Wait <==> res is None,
        !(tool is Wait) ==> res == Some(true),
{
}

/// A failure is answered to the model, as the failure of a spawn or of an agent.
pub proof fn law_failures_are_answered_to_the_model(
    agent_id: ThreadId,
    error: CodexErr,
    displayed: String,
    res: FunctionCallError,
)
    ensures
        call_ensures(collab_spawn_error, (error, displayed), res) ==> res
            == FunctionCallError::RespondToModel(spawn_refusal(error, displayed)),
        call_ensures(collab_agent_error, (agent_id, error, displayed), res) ==> res
            == FunctionCallError::RespondToModel(agent_refusal(agent_id, error, displayed)),
{
}

/// What is spawned by a thread names that thread and its own depth.
pub proof fn law_spawned_session_names_its_parent(
    parent_thread_id: ThreadId,
    depth: i32,
    res: SessionSource,
)
    requires
        call_ensures(thread_spawn_source, (parent_thread_id, depth), res),
    ensures
        res == SessionSource::SubAgent(SubAgentSource::ThreadSpawn { parent_thread_id, depth }),
{
}

} // verus!
