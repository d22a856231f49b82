//! Listing the agents that a thread has started.
use crate::errors::CodexErr;
use crate::errors::Failure;
use crate::ids::ThreadId;
use crate::protocol::AgentStatus;
use crate::text::same_text;
use crate::text::trim;
use crate::text::trimmed;
use crate::tools::collab::handler::agent_id;
use crate::tools::collab::handler::collab_spawn_error;
use crate::tools::collab::handler::is_agent_id;
use crate::tools::collab::handler::spawn_refusal;
use crate::tools::refusal::FunctionCallError;
use vstd::prelude::*;

verus! {

/// An agent as the session knows it.
#[derive(Clone, Debug, PartialEq, Eq)]
pub struct AgentListing {
    pub thread_id: ThreadId,
    pub parent_thread_id: Option<ThreadId>,
    pub status: AgentStatus,
    pub depth: usize,
}

/// An agent as the tool shows it.
#[derive(Clone, Debug, PartialEq, Eq)]
pub struct ListAgentEntry {
    pub id: String,
    /// Empty for an agent without a parent.
    pub parent_id: String,
    pub status: AgentStatus,
    pub depth: usize,
}

/// Agents of agents are listed unless the caller says otherwise.
pub fn default_recursive() -> (res: bool)
    ensures
        res,
{
    true
}

/// `res` is the thread whose agents are listed: the one that is named, or the caller's own, which
/// `self` and nothing stand for.
pub open spec fn is_owner(
    id: Option<String>,
    caller: ThreadId,
    res: Result<ThreadId, FunctionCallError>,
) -> bool {
    let own = res == Ok::<ThreadId, FunctionCallError>(caller);
    match id {
        Some(id) => {
            let name = trimmed(id@);
            if name.len() == 0 || name == "self"@ {
                own
            } else {
                is_agent_id(name, res)
            }
        },
        None => own,
    }
}

/// Decides whose agents are listed.
pub fn owner(id: &Option<String>, caller: ThreadId) -> (res: Result<ThreadId, FunctionCallError>)
    ensures
        is_owner(*id, caller, res),
{
    if let Some(id) = id {
        let name: &str = trim(id.as_str());
        if name.unicode_len() > 0 && !same_text(name, "self") {
            return agent_id(name);
        }
    }
    Ok(caller)
}

/// `entry` shows `listing`.
pub open spec fn shows(listing: AgentListing, entry: ListAgentEntry) -> bool {
    &&& entry.id@ == listing.thread_id.text()
    &&& entry.parent_id@ == match listing.parent_thread_id {
        Some(parent) => parent.text(),
        None => Seq::<char>::empty(),
    }
    &&& entry.status == listing.status
    &&& entry.depth == listing.depth
}

fn show(listing: AgentListing) -> (res: ListAgentEntry)
    ensures
        shows(listing, res),
{
    let parent_id: String = match listing.parent_thread_id {
        Some(parent) => parent.to_text(),
        None => String::new(),
    };
    ListAgentEntry {
        id: listing.thread_id.to_text(),
        parent_id,
        status: listing.status,
        depth: listing.depth,
    }
}

/// Shows the agents that were found, in order.
pub fn handle(listings: Result<Vec<AgentListing>, Failure>) -> (res: Result<
    Vec<ListAgentEntry>,
    FunctionCallError,
>)
    ensures
        match listings {
            Err(Failure { error, displayed }) => res == Err::<Vec<ListAgentEntry>, FunctionCallError>(
                FunctionCallError::RespondToModel(spawn_refusal(error, displayed)),
            ),
            Ok(listings) => {
                &&& res is Ok
                &&& res->Ok_0@.len() == listings@.len()
                &&& forall|i: int|
                    0 <= i < listings@.len() ==> shows(
                        listings@[i],
                        #[trigger] res->Ok_0@[i],
                    )
            },
        },
{
    let mut rest: Vec<AgentListing> = match listings {
        Ok(listings) => listings,
        Err(Failure { error, displayed }) => {
            return Err(collab_spawn_error(error, displayed));
        },
    };
    let ghost all = rest@;
    let mut agents: Vec<ListAgentEntry> = Vec::new();
    while rest.len() > 0
        invariant
            agents@.len() + rest@.len() == all.len(),
            rest@ == all.skip(agents@.len() as int),
            forall|i: int| 0 <= i < agents@.len() ==> shows(all[i], #[trigger] agents@[i]),
        decreases rest.len(),
    {
        let listing: AgentListing = rest.remove(0);
        agents.push(show(listing));
    }
    Ok(agents)
}

/// The agents of the caller are listed where no thread is named, or only white space or `self`;
/// else those of the thread that is named.
pub proof fn law_listing_without_a_name_is_of_the_caller(
    id: String,
    caller: ThreadId,
    res: Result<ThreadId, FunctionCallError>,
)
    ensures
        is_owner(None, caller, res) <==> res == Ok::<ThreadId, FunctionCallError>(caller),
        crate::text::blank(id@) || trimmed(id@) == "self"@ ==> (is_owner(Some(id), caller, res)
            <==> res == Ok::<ThreadId, FunctionCallError>(caller)),
        !crate::text::blank(id@) && trimmed(id@) != "self"@ ==> (is_owner(Some(id), caller, res)
            <==> is_agent_id(trimmed(id@), res)),
{
    crate::text::lemma_blank_is_trimmed_empty(id@);
}

/// An agent is shown by its own id and that of its parent, which is empty where it has none, with
/// its status and its depth.
pub proof fn law_entry_shows_its_agent(
    thread_id: ThreadId,
    parent: ThreadId,
    status: AgentStatus,
    depth: usize,
    entry: ListAgentEntry,
)
    ensures
        shows(AgentListing { thread_id, parent_thread_id: Some(parent), status, depth }, entry)
            <==> entry.id@ == thread_id.text() && entry.parent_id@ == parent.text() && entry.status
            == status && entry.depth == depth,
        shows(AgentListing { thread_id, parent_thread_id: None, status, depth }, entry)
            <==> entry.id@ == thread_id.text() && entry.parent_id@.len() == 0 && entry.status
            == status && entry.depth == depth,
{
    if entry.parent_id@.len() == 0 {
        assert(entry.parent_id@ =~= Seq::<char>::empty());
    }
}

/// The agents that were found are listed, all of them and in order; a failure to find them is
/// answered as one.
pub proof fn law_found_agents_are_all_listed(
    listings: Vec<AgentListing>,
    error: CodexErr,
    displayed: String,
    res: Result<Vec<ListAgentEntry>, FunctionCallError>,
)
    ensures
        call_ensures(handle, (Ok(listings),), res) ==> res is Ok && res->Ok_0@.len()
            == listings@.len() && forall|i: int|
            0 <= i < listings@.len() ==> shows(listings@[i], #[trigger] res->Ok_0@[i]),
        call_ensures(handle, (Err(Failure { error, displayed }),), res) ==> res == Err::<
            Vec<ListAgentEntry>,
            FunctionCallError,
        >(FunctionCallError::RespondToModel(spawn_refusal(error, displayed))),
{
}

} // verus!
