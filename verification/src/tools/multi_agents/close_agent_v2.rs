//! Deciding whether an agent may be closed by the name or id that it was given.
use crate::ids::ThreadId;
use crate::ids::uuid_read;
use crate::json::target_arguments;
use crate::text::same_text;
use crate::tools::multi_agents::close_agent::AgentMetadata;
use crate::tools::multi_agents::close_agent::lies_at_root;
use crate::tools::refusal::FunctionCallError;
use crate::tools::refusal::Refusal;
use vstd::prelude::*;

verus! {

/// The agent that `target` names. A target that does not resolve may still be a thread id; if it
/// is not, the reason why it did not resolve is given.
pub fn close_target(target: &str, resolved: Result<ThreadId, FunctionCallError>) -> (res: Result<
    ThreadId,
    FunctionCallError,
>)
    ensures
        res == match resolved {
            Ok(thread_id) => Ok::<ThreadId, FunctionCallError>(thread_id),
            Err(error) => match uuid_read(target@) {
                Ok(value) => Ok(ThreadId { value }),
                Err(_) => Err(error),
            },
        },
        forall|thread_id: ThreadId|
            resolved is Err && target@ == #[trigger] thread_id.text() ==> res == Ok::<
                ThreadId,
                FunctionCallError,
            >(thread_id),
{
    match resolved {
        Ok(thread_id) => Ok(thread_id),
        Err(error) => match ThreadId::from_string(target) {
            Ok(thread_id) => Ok(thread_id),
            Err(_) => Err(error),
        },
    }
}

/// Whether an agent has the role `role`.
pub open spec fn has_role(metadata: AgentMetadata, role: Seq<char>) -> bool {
    metadata.agent_role is Some && metadata.agent_role->Some_0@ == role
}

/// Why an agent must not be closed.
pub open spec fn close_objection(
    caller: ThreadId,
    agent: ThreadId,
    metadata: Option<AgentMetadata>,
    supervisor_role: Seq<char>,
) -> Option<Refusal> {
    if metadata is Some && lies_at_root(metadata->Some_0) {
        Some(Refusal::ClosesRoot)
    } else if agent == caller {
        Some(Refusal::ClosesItself)
    } else if metadata is Some && has_role(metadata->Some_0, supervisor_role) {
        Some(Refusal::ClosesSupervisor)
    } else {
        None
    }
}

/// The arguments with which the agent is closed, unless it is the root, the caller or a
/// supervisor. `metadata` is missing for an agent that is not known.
pub fn handle(
    caller: ThreadId,
    agent: ThreadId,
    metadata: &Option<AgentMetadata>,
    supervisor_role: &str,
) -> (res: Result<String, FunctionCallError>)
    ensures
        match close_objection(caller, agent, *metadata, supervisor_role@) {
            Some(refusal) => res == Err::<String, FunctionCallError>(
                FunctionCallError::RespondToModel(refusal),
            ),
            None => res is Ok && res->Ok_0@ == "{\"target\":\""@ + agent.text() + "\"}"@,
        },
{
    if let Some(metadata) = metadata {
        if metadata.has_path && metadata.is_root {
            return Err(FunctionCallError::RespondToModel(Refusal::ClosesRoot));
        }
    }
    if agent == caller {
        return Err(FunctionCallError::RespondToModel(Refusal::ClosesItself));
    }
    if let Some(metadata) = metadata {
        if let Some(role) = &metadata.agent_role {
            if same_text(role.as_str(), supervisor_role) {
                return Err(FunctionCallError::RespondToModel(Refusal::ClosesSupervisor));
            }
        }
    }
    Ok(target_arguments(agent))
}

/// An agent may be closed unless it is the root, the caller itself or a supervisor; where several
/// hold, the root comes first and the supervisor last.
pub proof fn law_close_objections_are_the_stated_ones(
    caller: ThreadId,
    agent: ThreadId,
    metadata: AgentMetadata,
    role: Seq<char>,
)
    ensures
        ({
            let known = close_objection(caller, agent, Some(metadata), role);
            let unknown = close_objection(caller, agent, None, role);
            let root = metadata.has_path && metadata.is_root;
            let supervisor = match metadata.agent_role {
                Some(own) => own@ == role,
                None => false,
            };
            &&& root ==> known == Some(Refusal::ClosesRoot)
            &&& !root && agent == caller ==> known == Some(Refusal::ClosesItself)
            &&& !root && agent != caller && supervisor ==> known == Some(Refusal::ClosesSupervisor)
            &&& !root && agent != caller && !supervisor ==> known is None
            &&& agent == caller ==> unknown == Some(Refusal::ClosesItself)
            &&& agent != caller ==> unknown is None
        }),
{
}

/// An agent that may be closed is named by its id in the arguments of the close; any other is
/// refused with the objection.
pub proof fn law_close_names_its_agent(
    caller: ThreadId,
    agent: ThreadId,
    metadata: Option<AgentMetadata>,
    supervisor_role: &str,
    res: Result<String, FunctionCallError>,
)
    requires
        call_ensures(handle, (caller, agent, &metadata, supervisor_role), res),
    ensures
        match close_objection(caller, agent, metadata, supervisor_role@) {
            Some(refusal) => res == Err::<String, FunctionCallError>(
                FunctionCallError::RespondToModel(refusal),
            ),
            None => res is Ok && res->Ok_0@ == "{\"target\":\""@ + agent.text() + "\"}"@,
        },
{
}

} // verus!
