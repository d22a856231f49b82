//! Closing an agent together with the agents below it.
use crate::ids::ThreadId;
use crate::protocol::AgentStatus;
use crate::tools::collab::handler::agent_id;
use crate::tools::collab::handler::is_agent_id;
use crate::tools::refusal::FunctionCallError;
use crate::tools::refusal::Refusal;
use vstd::prelude::*;

verus! {

/// What is known of an agent.
#[derive(Clone, Debug, PartialEq, Eq)]
pub struct AgentMetadata {
    /// Whether the agent has a path, and whether that is the root's.
    pub has_path: bool,
    pub is_root: bool,
    pub agent_nickname: Option<String>,
    pub agent_role: Option<String>,
}

impl Default for AgentMetadata {
    /// What is known of an agent of which nothing is known.
    fn default() -> (res: AgentMetadata)
        ensures
            res == (AgentMetadata {
                has_path: false,
                is_root: false,
                agent_nickname: None,
                agent_role: None,
            }),
    {
        AgentMetadata { has_path: false, is_root: false, agent_nickname: None, agent_role: None }
    }
}

/// What closing a tree of agents did.
#[derive(Clone, Copy, Debug, PartialEq, Eq, Structural)]
pub struct CloseReport {
    pub closed_agents: usize,
    pub closed_edges: usize,
    pub newly_closed_edges: usize,
    pub stopped_runtimes: usize,
    pub paused_goals: usize,
    pub cleared_queued_items: usize,
    pub evicted_identities: usize,
}

/// The answer of the tool.
#[derive(Clone, Debug, PartialEq, Eq)]
pub struct CloseAgentResult {
    pub previous_status: AgentStatus,
    pub closed_agents: usize,
    pub closed_edges: usize,
    pub newly_closed_edges: usize,
    pub stopped_runtimes: usize,
    pub paused_goals: usize,
    pub cleared_queued_items: usize,
    pub evicted_identities: usize,
}

/// Whether an agent lies at the root of its tree.
pub open spec fn lies_at_root(agent: AgentMetadata) -> bool {
    agent.has_path && agent.is_root
}

/// Reads the id of the agent that is closed.
pub fn parse_agent_id_target(target: &str) -> (res: Result<ThreadId, FunctionCallError>)
    ensures
        is_agent_id(target@, res),
        forall|thread_id: ThreadId|
            target@ == #[trigger] thread_id.text() ==> res == Ok::<ThreadId, FunctionCallError>(
                thread_id,
            ),
{
    agent_id(target)
}

/// How far a close has come. Each state names what it waits for.
#[allow(inconsistent_fields)]
#[derive(Debug, PartialEq, Eq)]
pub enum CloseTreeState {
    Started { agent: ThreadId, metadata: AgentMetadata },
    Subscription { agent: ThreadId, metadata: AgentMetadata },
    Status { agent: ThreadId, metadata: AgentMetadata },
    Closed { agent: ThreadId, metadata: AgentMetadata, status: AgentStatus },
    Completed { status: AgentStatus, outcome: Result<CloseReport, FunctionCallError> },
    Done,
}

/// What has come back.
#[derive(Debug, PartialEq, Eq)]
pub enum CloseTreeEvent {
    Reported,
    /// The status of the agent, where it can be watched.
    Subscribed(Option<AgentStatus>),
    Status(AgentStatus),
    Closed(Result<CloseReport, FunctionCallError>),
}

/// What to do next.
#[derive(Debug, PartialEq, Eq)]
pub enum CloseTreeAction {
    /// Report that the call on this agent has started.
    ReportStarted(ThreadId),
    Subscribe(ThreadId),
    ReadStatus(ThreadId),
    CloseSubtree(ThreadId),
    /// Report that the call has ended, on which agent, and how that was doing before.
    ReportCompleted { agent: ThreadId, metadata: AgentMetadata, status: AgentStatus },
    Finish(Result<CloseAgentResult, FunctionCallError>),
}

/// The first step: no agent closes itself or the root.
pub open spec fn close_tree_first(caller: ThreadId, agent: ThreadId, metadata: AgentMetadata) -> (
    CloseTreeState,
    CloseTreeAction,
) {
    if agent == caller {
        (
            CloseTreeState::Done,
            CloseTreeAction::Finish(Err(FunctionCallError::RespondToModel(Refusal::ClosesItself))),
        )
    } else if lies_at_root(metadata) {
        (
            CloseTreeState::Done,
            CloseTreeAction::Finish(Err(FunctionCallError::RespondToModel(Refusal::ClosesRoot))),
        )
    } else {
        (CloseTreeState::Started { agent, metadata }, CloseTreeAction::ReportStarted(agent))
    }
}

/// The answer after the tree was closed.
pub open spec fn close_answer(status: AgentStatus, report: CloseReport) -> CloseAgentResult {
    CloseAgentResult {
        previous_status: status,
        closed_agents: report.closed_agents,
        closed_edges: report.closed_edges,
        newly_closed_edges: report.newly_closed_edges,
        stopped_runtimes: report.stopped_runtimes,
        paused_goals: report.paused_goals,
        cleared_queued_items: report.cleared_queued_items,
        evicted_identities: report.evicted_identities,
    }
}

/// The next step, nothing where `event` does not answer what `state` waits for.
pub open spec fn close_tree_next(state: CloseTreeState, event: CloseTreeEvent) -> Option<
    (CloseTreeState, CloseTreeAction),
> {
    match (state, event) {
        (CloseTreeState::Started { agent, metadata }, CloseTreeEvent::Reported) => Some(
            (
                CloseTreeState::Subscription { agent, metadata },
                CloseTreeAction::Subscribe(agent),
            ),
        ),
        (CloseTreeState::Subscription { agent, metadata }, CloseTreeEvent::Subscribed(status)) => {
            Some(
                match status {
                    Some(status) => (
                        CloseTreeState::Closed { agent, metadata, status },
                        CloseTreeAction::CloseSubtree(agent),
                    ),
                    None => (
                        CloseTreeState::Status { agent, metadata },
                        CloseTreeAction::ReadStatus(agent),
                    ),
                },
            )
        },
        (CloseTreeState::Status { agent, metadata }, CloseTreeEvent::Status(status)) => Some(
            (
                CloseTreeState::Closed { agent, metadata, status },
                CloseTreeAction::CloseSubtree(agent),
            ),
        ),
        (CloseTreeState::Closed { agent, metadata, status }, CloseTreeEvent::Closed(outcome)) => {
            Some(
                (
                    CloseTreeState::Completed { status, outcome },
                    CloseTreeAction::ReportCompleted { agent, metadata, status },
                ),
            )
        },
        (CloseTreeState::Completed { status, outcome }, CloseTreeEvent::Reported) => Some(
            (
                CloseTreeState::Done,
                CloseTreeAction::Finish(
                    match outcome {
                        Ok(report) => Ok(close_answer(status, report)),
                        Err(error) => Err(error),
                    },
                ),
            ),
        ),
        _ => None,
    }
}

/// Starts to close the agent `agent` on behalf of `caller`.
pub fn handle_close_agent(caller: ThreadId, agent: ThreadId, metadata: AgentMetadata) -> (res: (
    CloseTreeState,
    CloseTreeAction,
))
    ensures
        res == close_tree_first(caller, agent, metadata),
{
    if agent == caller {
        return (
            CloseTreeState::Done,
            CloseTreeAction::Finish(Err(FunctionCallError::RespondToModel(Refusal::ClosesItself))),
        );
    }
    if metadata.has_path && metadata.is_root {
        return (
            CloseTreeState::Done,
            CloseTreeAction::Finish(Err(FunctionCallError::RespondToModel(Refusal::ClosesRoot))),
        );
    }
    (CloseTreeState::Started { agent, metadata }, CloseTreeAction::ReportStarted(agent))
}

/// Takes the next step. An event that does not answer what the state waits for is handed back.
pub fn step_close_tree(state: CloseTreeState, event: CloseTreeEvent) -> (res: Result<
    (CloseTreeState, CloseTreeAction),
    (CloseTreeState, CloseTreeEvent),
>)
    ensures
        res == match close_tree_next(state, event) {
            Some(next) => Ok::<(CloseTreeState, CloseTreeAction), (CloseTreeState, CloseTreeEvent)>(
                next,
            ),
            None => Err((state, event)),
        },
{
    let next: (CloseTreeState, CloseTreeAction) = match (state, event) {
        (CloseTreeState::Started { agent, metadata }, CloseTreeEvent::Reported) => (
            CloseTreeState::Subscription { agent, metadata },
            CloseTreeAction::Subscribe(agent),
        ),
        (CloseTreeState::Subscription { agent, metadata }, CloseTreeEvent::Subscribed(status)) => {
            match status {
                Some(status) => (
                    CloseTreeState::Closed { agent, metadata, status },
                    CloseTreeAction::CloseSubtree(agent),
                ),
                None => (
                    CloseTreeState::Status { agent, metadata },
                    CloseTreeAction::ReadStatus(agent),
                ),
            }
        },
        (CloseTreeState::Status { agent, metadata }, CloseTreeEvent::Status(status)) => (
            CloseTreeState::Closed { agent, metadata, status },
            CloseTreeAction::CloseSubtree(agent),
        ),
        (CloseTreeState::Closed { agent, metadata, status }, CloseTreeEvent::Closed(outcome)) => {
            let shown: AgentStatus = status.copy();
            (
                CloseTreeState::Completed { status, outcome },
                CloseTreeAction::ReportCompleted { agent, metadata, status: shown },
            )
        },
        (CloseTreeState::Completed { status, outcome }, CloseTreeEvent::Reported) => {
            let answer: Result<CloseAgentResult, FunctionCallError> = match outcome {
                Ok(report) => Ok(
                    CloseAgentResult {
                        previous_status: status,
                        closed_agents: report.closed_agents,
                        closed_edges: report.closed_edges,
                        newly_closed_edges: report.newly_closed_edges,
                        stopped_runtimes: report.stopped_runtimes,
                        paused_goals: report.paused_goals,
                        cleared_queued_items: report.cleared_queued_items,
                        evicted_identities: report.evicted_identities,
                    },
                ),
                Err(error) => Err(error),
            };
            (CloseTreeState::Done, CloseTreeAction::Finish(answer))
        },
        (state, event) => {
            return Err((state, event));
        },
    };
    Ok(next)
}

/// Where a close stands after `events`, and all that it asked for.
pub open spec fn close_tree_run(
    caller: ThreadId,
    agent: ThreadId,
    metadata: AgentMetadata,
    events: Seq<CloseTreeEvent>,
) -> Option<(CloseTreeState, Seq<CloseTreeAction>)>
    decreases events.len(),
{
    if events.len() == 0 {
        let first = close_tree_first(caller, agent, metadata);
        Some((first.0, seq![first.1]))
    } else {
        match close_tree_run(caller, agent, metadata, events.drop_last()) {
            Some((state, actions)) => match close_tree_next(state, events.last()) {
                Some((next, action)) => Some((next, actions.push(action))),
                None => None,
            },
            None => None,
        }
    }
}

spec fn closes_only(caller: ThreadId, agent: ThreadId, metadata: AgentMetadata, state: CloseTreeState) -> bool {
    match state {
        CloseTreeState::Started { agent: a, .. } => a == agent && a != caller && !lies_at_root(
            metadata,
        ),
        CloseTreeState::Subscription { agent: a, .. } => a == agent && a != caller && !lies_at_root(
            metadata,
        ),
        CloseTreeState::Status { agent: a, .. } => a == agent && a != caller && !lies_at_root(
            metadata,
        ),
        CloseTreeState::Closed { agent: a, .. } => a == agent && a != caller && !lies_at_root(
            metadata,
        ),
        _ => true,
    }
}

proof fn lemma_closes_only(
    caller: ThreadId,
    agent: ThreadId,
    metadata: AgentMetadata,
    events: Seq<CloseTreeEvent>,
)
    requires
        close_tree_run(caller, agent, metadata, events) is Some,
    ensures
        ({
            let (state, actions) = close_tree_run(caller, agent, metadata, events)->Some_0;
            &&& closes_only(caller, agent, metadata, state)
            &&& forall|i: int|
                0 <= i < actions.len() ==> ((
                #[trigger] actions[i]) matches CloseTreeAction::CloseSubtree(closed) ==> closed
                    == agent && agent != caller && !lies_at_root(metadata))
        }),
    decreases events.len(),
{
    if events.len() > 0 {
        let head = events.drop_last();
        lemma_closes_only(caller, agent, metadata, head);
        let (before, done) = close_tree_run(caller, agent, metadata, head)->Some_0;
        let (after, action) = close_tree_next(before, events.last())->Some_0;
        let actions = done.push(action);
        assert forall|i: int| 0 <= i < actions.len() implies ((
        #[trigger] actions[i]) matches CloseTreeAction::CloseSubtree(closed) ==> closed == agent
            && agent != caller && !lies_at_root(metadata)) by {
            if i < done.len() {
                assert(actions[i] == done[i]);
            }
        }
    }
}

/// The only tree that is ever closed is the one below the agent that was named, and never the
/// caller's own or the root's.
pub proof fn law_agent_closes_neither_itself_nor_root(
    caller: ThreadId,
    agent: ThreadId,
    metadata: AgentMetadata,
    events: Seq<CloseTreeEvent>,
    i: int,
)
    requires
        close_tree_run(caller, agent, metadata, events) is Some,
        0 <= i < close_tree_run(caller, agent, metadata, events)->Some_0.1.len(),
    ensures
        close_tree_run(
            caller,
            agent,
            metadata,
            events,
        )->Some_0.1[i] matches CloseTreeAction::CloseSubtree(closed) ==> closed == agent && agent
            != caller && !lies_at_root(metadata),
{
    lemma_closes_only(caller, agent, metadata, events);
}

proof fn lemma_close_tree_step(
    caller: ThreadId,
    agent: ThreadId,
    metadata: AgentMetadata,
    events: Seq<CloseTreeEvent>,
    event: CloseTreeEvent,
)
    requires
        close_tree_run(caller, agent, metadata, events) is Some,
        close_tree_next(close_tree_run(caller, agent, metadata, events)->Some_0.0, event) is Some,
    ensures
        ({
            let (state, actions) = close_tree_run(caller, agent, metadata, events)->Some_0;
            let (next, action) = close_tree_next(state, event)->Some_0;
            close_tree_run(
                caller,
                agent,
                metadata,
                events.push(event),
            ) == Some((next, actions.push(action)))
        }),
{
    assert(events.push(event).drop_last() =~= events);
}

/// An agent other than the caller and the root is closed with all that is below it; the answer
/// gives the status that it had and the counts of the close.
pub proof fn law_other_agent_is_closed_with_all_below_it(
    caller: ThreadId,
    agent: ThreadId,
    metadata: AgentMetadata,
    status: AgentStatus,
    report: CloseReport,
    error: FunctionCallError,
)
    requires
        agent != caller,
        !(metadata.has_path && metadata.is_root),
    ensures
        ({
            let events: Seq<CloseTreeEvent> = seq![
                CloseTreeEvent::Reported,
                CloseTreeEvent::Subscribed(Some(status)),
                CloseTreeEvent::Closed(Ok(report)),
                CloseTreeEvent::Reported,
            ];
            let run = close_tree_run(caller, agent, metadata, events);
            &&& run is Some
            &&& run->Some_0.1 == seq![
                CloseTreeAction::ReportStarted(agent),
                CloseTreeAction::Subscribe(agent),
                CloseTreeAction::CloseSubtree(agent),
                CloseTreeAction::ReportCompleted { agent, metadata, status },
                CloseTreeAction::Finish(
                    Ok(
                        CloseAgentResult {
                            previous_status: status,
                            closed_agents: report.closed_agents,
                            closed_edges: report.closed_edges,
                            newly_closed_edges: report.newly_closed_edges,
                            stopped_runtimes: report.stopped_runtimes,
                            paused_goals: report.paused_goals,
                            cleared_queued_items: report.cleared_queued_items,
                            evicted_identities: report.evicted_identities,
                        },
                    ),
                ),
            ]
        }),
        ({
            let events: Seq<CloseTreeEvent> = seq![
                CloseTreeEvent::Reported,
                CloseTreeEvent::Subscribed(None),
                CloseTreeEvent::Status(status),
                CloseTreeEvent::Closed(Ok(report)),
                CloseTreeEvent::Reported,
            ];
            let run = close_tree_run(caller, agent, metadata, events);
            &&& run is Some
            &&& run->Some_0.1 == seq![
                CloseTreeAction::ReportStarted(agent),
                CloseTreeAction::Subscribe(agent),
                CloseTreeAction::ReadStatus(agent),
                CloseTreeAction::CloseSubtree(agent),
                CloseTreeAction::ReportCompleted { agent, metadata, status },
                CloseTreeAction::Finish(
                    Ok(
                        CloseAgentResult {
                            previous_status: status,
                            closed_agents: report.closed_agents,
                            closed_edges: report.closed_edges,
                            newly_closed_edges: report.newly_closed_edges,
                            stopped_runtimes: report.stopped_runtimes,
                            paused_goals: report.paused_goals,
                            cleared_queued_items: report.cleared_queued_items,
                            evicted_identities: report.evicted_identities,
                        },
                    ),
                ),
            ]
        }),
        ({
            let events: Seq<CloseTreeEvent> = seq![
                CloseTreeEvent::Reported,
                CloseTreeEvent::Subscribed(Some(status)),
                CloseTreeEvent::Closed(Err(error)),
                CloseTreeEvent::Reported,
            ];
            let run = close_tree_run(caller, agent, metadata, events);
            &&& run is Some
            &&& run->Some_0.1 == seq![
                CloseTreeAction::ReportStarted(agent),
                CloseTreeAction::Subscribe(agent),
                CloseTreeAction::CloseSubtree(agent),
                CloseTreeAction::ReportCompleted { agent, metadata, status },
                CloseTreeAction::Finish(Err(error)),
            ]
        }),
        ({
            let events: Seq<CloseTreeEvent> = seq![
                CloseTreeEvent::Reported,
                CloseTreeEvent::Subscribed(None),
                CloseTreeEvent::Status(status),
                CloseTreeEvent::Closed(Err(error)),
                CloseTreeEvent::Reported,
            ];
            let run = close_tree_run(caller, agent, metadata, events);
            &&& run is Some
            &&& run->Some_0.1 == seq![
                CloseTreeAction::ReportStarted(agent),
                CloseTreeAction::Subscribe(agent),
                CloseTreeAction::ReadStatus(agent),
                CloseTreeAction::CloseSubtree(agent),
                CloseTreeAction::ReportCompleted { agent, metadata, status },
                CloseTreeAction::Finish(Err(error)),
            ]
        }),
{
    let e0 = Seq::<CloseTreeEvent>::empty();
    lemma_close_tree_step(caller, agent, metadata, e0, CloseTreeEvent::Reported);
    let e1 = e0.push(CloseTreeEvent::Reported);
    lemma_close_tree_step(caller, agent, metadata, e1, CloseTreeEvent::Subscribed(Some(status)));
    let e2 = e1.push(CloseTreeEvent::Subscribed(Some(status)));
    lemma_close_tree_step(caller, agent, metadata, e2, CloseTreeEvent::Closed(Ok(report)));
    let e3 = e2.push(CloseTreeEvent::Closed(Ok(report)));
    lemma_close_tree_step(caller, agent, metadata, e3, CloseTreeEvent::Reported);
    let e4 = e3.push(CloseTreeEvent::Reported);
    assert(e4 =~= seq![
        CloseTreeEvent::Reported,
        CloseTreeEvent::Subscribed(Some(status)),
        CloseTreeEvent::Closed(Ok(report)),
        CloseTreeEvent::Reported,
    ]);
    assert(close_tree_run(caller, agent, metadata, e4)->Some_0.1 =~= seq![
        CloseTreeAction::ReportStarted(agent),
        CloseTreeAction::Subscribe(agent),
        CloseTreeAction::CloseSubtree(agent),
        CloseTreeAction::ReportCompleted { agent, metadata, status },
        CloseTreeAction::Finish(
            Ok(
                CloseAgentResult {
                    previous_status: status,
                    closed_agents: report.closed_agents,
                    closed_edges: report.closed_edges,
                    newly_closed_edges: report.newly_closed_edges,
                    stopped_runtimes: report.stopped_runtimes,
                    paused_goals: report.paused_goals,
                    cleared_queued_items: report.cleared_queued_items,
                    evicted_identities: report.evicted_identities,
                },
            ),
        ),
    ]);
    lemma_close_tree_step(caller, agent, metadata, e1, CloseTreeEvent::Subscribed(None));
    let e5 = e1.push(CloseTreeEvent::Subscribed(None));
    lemma_close_tree_step(caller, agent, metadata, e5, CloseTreeEvent::Status(status));
    let e6 = e5.push(CloseTreeEvent::Status(status));
    lemma_close_tree_step(caller, agent, metadata, e6, CloseTreeEvent::Closed(Ok(report)));
    let e7 = e6.push(CloseTreeEvent::Closed(Ok(report)));
    lemma_close_tree_step(caller, agent, metadata, e7, CloseTreeEvent::Reported);
    let e8 = e7.push(CloseTreeEvent::Reported);
    assert(e8 =~= seq![
        CloseTreeEvent::Reported,
        CloseTreeEvent::Subscribed(None),
        CloseTreeEvent::Status(status),
        CloseTreeEvent::Closed(Ok(report)),
        CloseTreeEvent::Reported,
    ]);
    assert(close_tree_run(caller, agent, metadata, e8)->Some_0.1 =~= seq![
        CloseTreeAction::ReportStarted(agent),
        CloseTreeAction::Subscribe(agent),
        CloseTreeAction::ReadStatus(agent),
        CloseTreeAction::CloseSubtree(agent),
        CloseTreeAction::ReportCompleted { agent, metadata, status },
        CloseTreeAction::Finish(
            Ok(
                CloseAgentResult {
                    previous_status: status,
                    closed_agents: report.closed_agents,
                    closed_edges: report.closed_edges,
                    newly_closed_edges: report.newly_closed_edges,
                    stopped_runtimes: report.stopped_runtimes,
                    paused_goals: report.paused_goals,
                    cleared_queued_items: report.cleared_queued_items,
                    evicted_identities: report.evicted_identities,
                },
            ),
        ),
    ]);
    lemma_close_tree_step(caller, agent, metadata, e2, CloseTreeEvent::Closed(Err(error)));
    let e9 = e2.push(CloseTreeEvent::Closed(Err(error)));
    lemma_close_tree_step(caller, agent, metadata, e9, CloseTreeEvent::Reported);
    let e10 = e9.push(CloseTreeEvent::Reported);
    assert(e10 =~= seq![
        CloseTreeEvent::Reported,
        CloseTreeEvent::Subscribed(Some(status)),
        CloseTreeEvent::Closed(Err(error)),
        CloseTreeEvent::Reported,
    ]);
    assert(close_tree_run(caller, agent, metadata, e10)->Some_0.1 =~= seq![
        CloseTreeAction::ReportStarted(agent),
        CloseTreeAction::Subscribe(agent),
        CloseTreeAction::CloseSubtree(agent),
        CloseTreeAction::ReportCompleted { agent, metadata, status },
        CloseTreeAction::Finish(Err(error)),
    ]);
    lemma_close_tree_step(caller, agent, metadata, e6, CloseTreeEvent::Closed(Err(error)));
    let e11 = e6.push(CloseTreeEvent::Closed(Err(error)));
    lemma_close_tree_step(caller, agent, metadata, e11, CloseTreeEvent::Reported);
    let e12 = e11.push(CloseTreeEvent::Reported);
    assert(e12 =~= seq![
        CloseTreeEvent::Reported,
        CloseTreeEvent::Subscribed(None),
        CloseTreeEvent::Status(status),
        CloseTreeEvent::Closed(Err(error)),
        CloseTreeEvent::Reported,
    ]);
    assert(close_tree_run(caller, agent, metadata, e12)->Some_0.1 =~= seq![
        CloseTreeAction::ReportStarted(agent),
        CloseTreeAction::Subscribe(agent),
        CloseTreeAction::ReadStatus(agent),
        CloseTreeAction::CloseSubtree(agent),
        CloseTreeAction::ReportCompleted { agent, metadata, status },
        CloseTreeAction::Finish(Err(error)),
    ]);
}

/// No agent closes itself, and none closes the root: the call ends at once and says why.
pub proof fn law_forbidden_close_ends_at_once(
    caller: ThreadId,
    agent: ThreadId,
    metadata: AgentMetadata,
)
    ensures
        close_tree_first(caller, caller, metadata) == (
            CloseTreeState::Done,
            CloseTreeAction::Finish(Err(FunctionCallError::RespondToModel(Refusal::ClosesItself))),
        ),
        agent != caller && metadata.has_path && metadata.is_root ==> close_tree_first(
            caller,
            agent,
            metadata,
        ) == (
            CloseTreeState::Done,
            CloseTreeAction::Finish(Err(FunctionCallError::RespondToModel(Refusal::ClosesRoot))),
        ),
        forall|event: CloseTreeEvent|
            (#[trigger] close_tree_next(CloseTreeState::Done, event)) is None,
{
}

/// A close takes an answer exactly where it waits for one of that kind, and none when it is done.
/// It is done exactly when its last word is said.
pub proof fn law_tree_close_takes_only_awaited_answers(
    state: CloseTreeState,
    event: CloseTreeEvent,
)
    ensures
        close_tree_next(state, event) is Some <==> {
            ||| state is Started && event is Reported
            ||| state is Subscription && event is Subscribed
            ||| state is Status && event is Status
            ||| state is Closed && event is Closed
            ||| state is Completed && event is Reported
        },
        close_tree_next(state, event) matches Some((after, action)) ==> (after is Done
            <==> action is Finish),
{
}

/// A close begins as its run does.
pub proof fn law_close_tree_begins_as_its_run_does(
    caller: ThreadId,
    agent: ThreadId,
    metadata: AgentMetadata,
    res: (CloseTreeState, CloseTreeAction),
)
    requires
        call_ensures(handle_close_agent, (caller, agent, metadata), res),
    ensures
        close_tree_run(caller, agent, metadata, Seq::<CloseTreeEvent>::empty()) == Some((res.0, seq![res.1])),
{
}

/// A close that takes a step goes on as its run does, with all that it asked for before; an answer
/// that it does not wait for is handed back, and nothing has changed.
pub proof fn law_close_tree_goes_on_as_its_run_does(
    caller: ThreadId,
    agent: ThreadId,
    metadata: AgentMetadata,
    events: Seq<CloseTreeEvent>,
    state: CloseTreeState,
    actions: Seq<CloseTreeAction>,
    event: CloseTreeEvent,
    res: Result<(CloseTreeState, CloseTreeAction), (CloseTreeState, CloseTreeEvent)>,
)
    requires
        close_tree_run(caller, agent, metadata, events) == Some((state, actions)),
        call_ensures(step_close_tree, (state, event), res),
    ensures
        match res {
            Ok((next, action)) => close_tree_run(caller, agent, metadata, events.push(event)) == Some(
                (next, actions.push(action)),
            ),
            Err(back) => back == (state, event) && close_tree_run(caller, agent, metadata, events.push(event)) is None,
        },
{
    assert(events.push(event).drop_last() =~= events);
}

} // verus!
