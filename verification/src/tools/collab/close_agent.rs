//! Closing an agent.
use crate::errors::CodexErr;
use crate::errors::Failure;
use crate::ids::ThreadId;
use crate::protocol::AgentStatus;
use crate::tools::collab::handler::agent_id;
use crate::tools::collab::handler::agent_refusal;
use crate::tools::collab::handler::collab_agent_error;
use crate::tools::collab::handler::is_agent_id;
use crate::tools::refusal::FunctionCallError;
use vstd::prelude::*;

verus! {

/// Decides which agent is closed.
pub fn handle(id: &str) -> (res: Result<ThreadId, FunctionCallError>)
    ensures
        is_agent_id(id@, res),
{
    agent_id(id)
}

/// How far a close has come. Each state names what it waits for.
#[allow(inconsistent_fields)]
#[derive(Debug, PartialEq, Eq)]
pub enum CloseState {
    Begin { agent: ThreadId },
    Subscription { agent: ThreadId },
    FailedStatus { error: FunctionCallError },
    Unregistered { agent: ThreadId, status: AgentStatus },
    ShutDown { agent: ThreadId, status: AgentStatus },
    End { outcome: Result<AgentStatus, FunctionCallError> },
    Done,
}

/// What has come back.
#[derive(Debug, PartialEq, Eq)]
pub enum CloseEvent {
    Reported,
    /// The status of the agent, or the error and how it is displayed.
    Subscribed(Result<AgentStatus, Failure>),
    Status(AgentStatus),
    Unregistered,
    ShutDown(Result<(), Failure>),
}

/// What to do next.
#[derive(Debug, PartialEq, Eq)]
pub enum CloseAction {
    ReportBegin,
    Subscribe(ThreadId),
    ReadStatus(ThreadId),
    /// The agent may be a watchdog: it is not to be woken again.
    UnregisterWatchdog(ThreadId),
    ShutDownAgent(ThreadId),
    ReportEnd { status: AgentStatus },
    Finish(Result<AgentStatus, FunctionCallError>),
}

pub open spec fn close_ended(status: AgentStatus, outcome: Result<AgentStatus, FunctionCallError>) -> (
    CloseState,
    CloseAction,
) {
    (CloseState::End { outcome }, CloseAction::ReportEnd { status })
}

/// The next step, nothing where `event` does not answer what `state` waits for.
pub open spec fn close_next(state: CloseState, event: CloseEvent) -> Option<
    (CloseState, CloseAction),
> {
    match (state, event) {
        (CloseState::Begin { agent }, CloseEvent::Reported) => Some(
            (CloseState::Subscription { agent }, CloseAction::Subscribe(agent)),
        ),
        (CloseState::Subscription { agent }, CloseEvent::Subscribed(result)) => Some(
            match result {
                Ok(status) => (
                    CloseState::Unregistered { agent, status },
                    CloseAction::UnregisterWatchdog(agent),
                ),
                Err(Failure { error, displayed }) => (
                    CloseState::FailedStatus {
                        error: FunctionCallError::RespondToModel(
                            agent_refusal(agent, error, displayed),
                        ),
                    },
                    CloseAction::ReadStatus(agent),
                ),
            },
        ),
        (CloseState::FailedStatus { error }, CloseEvent::Status(status)) => Some(
            close_ended(status, Err(error)),
        ),
        (CloseState::Unregistered { agent, status }, CloseEvent::Unregistered) => Some(
            if status is Shutdown {
                close_ended(status, Ok(status))
            } else {
                (CloseState::ShutDown { agent, status }, CloseAction::ShutDownAgent(agent))
            },
        ),
        (CloseState::ShutDown { agent, status }, CloseEvent::ShutDown(result)) => Some(
            match result {
                Ok(()) => close_ended(status, Ok(status)),
                Err(Failure { error, displayed }) => close_ended(
                    status,
                    Err(
                        FunctionCallError::RespondToModel(agent_refusal(agent, error, displayed)),
                    ),
                ),
            },
        ),
        (CloseState::End { outcome }, CloseEvent::Reported) => Some(
            (CloseState::Done, CloseAction::Finish(outcome)),
        ),
        _ => None,
    }
}

/// Starts to close an agent.
pub fn start_close(agent: ThreadId) -> (res: (CloseState, CloseAction))
    ensures
        res == (CloseState::Begin { agent }, CloseAction::ReportBegin),
{
    (CloseState::Begin { agent }, CloseAction::ReportBegin)
}

fn end_well(status: AgentStatus) -> (res: (CloseState, CloseAction))
    ensures
        res == close_ended(status, Ok(status)),
{
    let shown: AgentStatus = status.copy();
    (CloseState::End { outcome: Ok(status) }, CloseAction::ReportEnd { status: shown })
}

/// Takes the next step. An event that does not answer what the state waits for is handed back.
pub fn step_close(state: CloseState, event: CloseEvent) -> (res: Result<
    (CloseState, CloseAction),
    (CloseState, CloseEvent),
>)
    ensures
        res == match close_next(state, event) {
            Some(next) => Ok::<(CloseState, CloseAction), (CloseState, CloseEvent)>(next),
            None => Err((state, event)),
        },
{
    let next: (CloseState, CloseAction) = match (state, event) {
        (CloseState::Begin { agent }, CloseEvent::Reported) => (
            CloseState::Subscription { agent },
            CloseAction::Subscribe(agent),
        ),
        (CloseState::Subscription { agent }, CloseEvent::Subscribed(result)) => {
            match result {
                Ok(status) => (
                    CloseState::Unregistered { agent, status },
                    CloseAction::UnregisterWatchdog(agent),
                ),
                Err(Failure { error, displayed }) => (
                    CloseState::FailedStatus {
                        error: collab_agent_error(agent, error, displayed),
                    },
                    CloseAction::ReadStatus(agent),
                ),
            }
        },
        (CloseState::FailedStatus { error }, CloseEvent::Status(status)) => (
            CloseState::End { outcome: Err(error) },
            CloseAction::ReportEnd { status },
        ),
        (CloseState::Unregistered { agent, status }, CloseEvent::Unregistered) => {
            match status {
                AgentStatus::Shutdown => end_well(AgentStatus::Shutdown),
                status => (
                    CloseState::ShutDown { agent, status },
                    CloseAction::ShutDownAgent(agent),
                ),
            }
        },
        (CloseState::ShutDown { agent, status }, CloseEvent::ShutDown(result)) => {
            match result {
                Ok(()) => end_well(status),
                Err(Failure { error, displayed }) => (
                    CloseState::End { outcome: Err(collab_agent_error(agent, error, displayed)) },
                    CloseAction::ReportEnd { status },
                ),
            }
        },
        (CloseState::End { outcome }, CloseEvent::Reported) => (
            CloseState::Done,
            CloseAction::Finish(outcome),
        ),
        (state, event) => {
            return Err((state, event));
        },
    };
    Ok(next)
}

/// An agent that is already shut down is not shut down again; it is no longer woken either way.
pub proof fn law_closed_agent_is_not_shut_down_again(agent: ThreadId, status: AgentStatus)
    ensures
        close_next(CloseState::Subscription { agent }, CloseEvent::Subscribed(Ok(status))) == Some(
            (
                CloseState::Unregistered { agent, status },
                CloseAction::UnregisterWatchdog(agent),
            ),
        ),
        close_next(CloseState::Unregistered { agent, status }, CloseEvent::Unregistered) is Some,
        close_next(
            CloseState::Unregistered { agent, status },
            CloseEvent::Unregistered,
        )->Some_0.1 is ShutDownAgent <==> !(status is Shutdown),
{
}

/// Where a close stands after `events`, and all that it asked for.
pub open spec fn close_run(
    agent: ThreadId,
    events: Seq<CloseEvent>,
) -> Option<(CloseState, Seq<CloseAction>)>
    decreases events.len(),
{
    if events.len() == 0 {
        let first: (CloseState, CloseAction) = (
            CloseState::Begin { agent },
            CloseAction::ReportBegin,
        );
        Some((first.0, seq![first.1]))
    } else {
        match close_run(agent, events.drop_last()) {
            Some((state, actions)) => match close_next(state, events.last()) {
                Some((next, action)) => Some((next, actions.push(action))),
                None => None,
            },
            None => None,
        }
    }
}

proof fn lemma_close_step(
    agent: ThreadId,
    events: Seq<CloseEvent>,
    event: CloseEvent,
)
    requires
        close_run(agent, events) is Some,
        close_next(close_run(agent, events)->Some_0.0, event) is Some,
    ensures
        ({
            let (state, actions) = close_run(agent, events)->Some_0;
            let (next, action) = close_next(state, event)->Some_0;
            close_run(agent, events.push(event)) == Some((next, actions.push(action)))
        }),
{
    assert(events.push(event).drop_last() =~= events);
}

/// An agent that runs is no longer woken and is shut down; the call ends with the status that it
/// had, or with the failure to shut it down.
pub proof fn law_running_agent_is_shut_down(
    agent: ThreadId,
    status: AgentStatus,
    error: CodexErr,
    displayed: String,
)
    requires
        !(status is Shutdown),
    ensures
        ({
            let events: Seq<CloseEvent> = seq![
                CloseEvent::Reported,
                CloseEvent::Subscribed(Ok(status)),
                CloseEvent::Unregistered,
                CloseEvent::ShutDown(Ok(())),
                CloseEvent::Reported,
            ];
            let run = close_run(agent, events);
            &&& run is Some
            &&& run->Some_0.1 == seq![
                CloseAction::ReportBegin,
                CloseAction::Subscribe(agent),
                CloseAction::UnregisterWatchdog(agent),
                CloseAction::ShutDownAgent(agent),
                CloseAction::ReportEnd { status: status },
                CloseAction::Finish(Ok(status)),
            ]
        }),
        ({
            let events: Seq<CloseEvent> = seq![
                CloseEvent::Reported,
                CloseEvent::Subscribed(Ok(status)),
                CloseEvent::Unregistered,
                CloseEvent::ShutDown(Err(Failure { error, displayed })),
                CloseEvent::Reported,
            ];
            let run = close_run(agent, events);
            &&& run is Some
            &&& run->Some_0.1 == seq![
                CloseAction::ReportBegin,
                CloseAction::Subscribe(agent),
                CloseAction::UnregisterWatchdog(agent),
                CloseAction::ShutDownAgent(agent),
                CloseAction::ReportEnd { status: status },
                CloseAction::Finish(
                    Err(FunctionCallError::RespondToModel(agent_refusal(agent, error, displayed))),
                ),
            ]
        }),
{
    let e0 = Seq::<CloseEvent>::empty();
    lemma_close_step(agent, e0, CloseEvent::Reported);
    let e1 = e0.push(CloseEvent::Reported);
    lemma_close_step(agent, e1, CloseEvent::Subscribed(Ok(status)));
    let e2 = e1.push(CloseEvent::Subscribed(Ok(status)));
    lemma_close_step(agent, e2, CloseEvent::Unregistered);
    let e3 = e2.push(CloseEvent::Unregistered);
    lemma_close_step(agent, e3, CloseEvent::ShutDown(Ok(())));
    let e4 = e3.push(CloseEvent::ShutDown(Ok(())));
    lemma_close_step(agent, e4, CloseEvent::Reported);
    let e5 = e4.push(CloseEvent::Reported);
    assert(e5 =~= seq![
        CloseEvent::Reported,
        CloseEvent::Subscribed(Ok(status)),
        CloseEvent::Unregistered,
        CloseEvent::ShutDown(Ok(())),
        CloseEvent::Reported,
    ]);
    assert(close_run(agent, e5)->Some_0.1 =~= seq![
        CloseAction::ReportBegin,
        CloseAction::Subscribe(agent),
        CloseAction::UnregisterWatchdog(agent),
        CloseAction::ShutDownAgent(agent),
        CloseAction::ReportEnd { status: status },
        CloseAction::Finish(Ok(status)),
    ]);
    lemma_close_step(agent, e3, CloseEvent::ShutDown(Err(Failure { error, displayed })));
    let e6 = e3.push(CloseEvent::ShutDown(Err(Failure { error, displayed })));
    lemma_close_step(agent, e6, CloseEvent::Reported);
    let e7 = e6.push(CloseEvent::Reported);
    assert(e7 =~= seq![
        CloseEvent::Reported,
        CloseEvent::Subscribed(Ok(status)),
        CloseEvent::Unregistered,
        CloseEvent::ShutDown(Err(Failure { error, displayed })),
        CloseEvent::Reported,
    ]);
    assert(close_run(agent, e7)->Some_0.1 =~= seq![
        CloseAction::ReportBegin,
        CloseAction::Subscribe(agent),
        CloseAction::UnregisterWatchdog(agent),
        CloseAction::ShutDownAgent(agent),
        CloseAction::ReportEnd { status: status },
        CloseAction::Finish(
            Err(FunctionCallError::RespondToModel(agent_refusal(agent, error, displayed))),
        ),
    ]);
}

/// An agent that is shut down already is only kept from being woken.
pub proof fn law_stopped_agent_is_only_unregistered(
    agent: ThreadId,
)
    ensures
        ({
            let events: Seq<CloseEvent> = seq![
                CloseEvent::Reported,
                CloseEvent::Subscribed(Ok(AgentStatus::Shutdown)),
                CloseEvent::Unregistered,
                CloseEvent::Reported,
            ];
            let run = close_run(agent, events);
            &&& run is Some
            &&& run->Some_0.1 == seq![
                CloseAction::ReportBegin,
                CloseAction::Subscribe(agent),
                CloseAction::UnregisterWatchdog(agent),
                CloseAction::ReportEnd { status: AgentStatus::Shutdown },
                CloseAction::Finish(Ok(AgentStatus::Shutdown)),
            ]
        }),
{
    let e0 = Seq::<CloseEvent>::empty();
    lemma_close_step(agent, e0, CloseEvent::Reported);
    let e1 = e0.push(CloseEvent::Reported);
    lemma_close_step(agent, e1, CloseEvent::Subscribed(Ok(AgentStatus::Shutdown)));
    let e2 = e1.push(CloseEvent::Subscribed(Ok(AgentStatus::Shutdown)));
    lemma_close_step(agent, e2, CloseEvent::Unregistered);
    let e3 = e2.push(CloseEvent::Unregistered);
    lemma_close_step(agent, e3, CloseEvent::Reported);
    let e4 = e3.push(CloseEvent::Reported);
    assert(e4 =~= seq![
        CloseEvent::Reported,
        CloseEvent::Subscribed(Ok(AgentStatus::Shutdown)),
        CloseEvent::Unregistered,
        CloseEvent::Reported,
    ]);
    assert(close_run(agent, e4)->Some_0.1 =~= seq![
        CloseAction::ReportBegin,
        CloseAction::Subscribe(agent),
        CloseAction::UnregisterWatchdog(agent),
        CloseAction::ReportEnd { status: AgentStatus::Shutdown },
        CloseAction::Finish(Ok(AgentStatus::Shutdown)),
    ]);
}

/// An agent whose status cannot be followed is neither unregistered nor shut down: its status is
/// read and reported, and the call ends with the failure.
pub proof fn law_agent_that_cannot_be_watched_is_not_closed(
    agent: ThreadId,
    status: AgentStatus,
    error: CodexErr,
    displayed: String,
)
    ensures
        ({
            let events: Seq<CloseEvent> = seq![
                CloseEvent::Reported,
                CloseEvent::Subscribed(Err(Failure { error, displayed })),
                CloseEvent::Status(status),
                CloseEvent::Reported,
            ];
            let run = close_run(agent, events);
            &&& run is Some
            &&& run->Some_0.1 == seq![
                CloseAction::ReportBegin,
                CloseAction::Subscribe(agent),
                CloseAction::ReadStatus(agent),
                CloseAction::ReportEnd { status: status },
                CloseAction::Finish(
                    Err(FunctionCallError::RespondToModel(agent_refusal(agent, error, displayed))),
                ),
            ]
        }),
{
    let e0 = Seq::<CloseEvent>::empty();
    lemma_close_step(agent, e0, CloseEvent::Reported);
    let e1 = e0.push(CloseEvent::Reported);
    lemma_close_step(agent, e1, CloseEvent::Subscribed(Err(Failure { error, displayed })));
    let e2 = e1.push(CloseEvent::Subscribed(Err(Failure { error, displayed })));
    lemma_close_step(agent, e2, CloseEvent::Status(status));
    let e3 = e2.push(CloseEvent::Status(status));
    lemma_close_step(agent, e3, CloseEvent::Reported);
    let e4 = e3.push(CloseEvent::Reported);
    assert(e4 =~= seq![
        CloseEvent::Reported,
        CloseEvent::Subscribed(Err(Failure { error, displayed })),
        CloseEvent::Status(status),
        CloseEvent::Reported,
    ]);
    assert(close_run(agent, e4)->Some_0.1 =~= seq![
        CloseAction::ReportBegin,
        CloseAction::Subscribe(agent),
        CloseAction::ReadStatus(agent),
        CloseAction::ReportEnd { status: status },
        CloseAction::Finish(
            Err(FunctionCallError::RespondToModel(agent_refusal(agent, error, displayed))),
        ),
    ]);
}

/// A close takes an answer exactly where it waits for one of that kind, and none when it is done.
/// It is done exactly when its last word is said.
pub proof fn law_close_takes_only_awaited_answers(
    state: CloseState,
    event: CloseEvent,
)
    ensures
        close_next(state, event) is Some <==> {
            ||| state is Begin && event is Reported
            ||| state is Subscription && event is Subscribed
            ||| state is FailedStatus && event is Status
            ||| state is Unregistered && event is Unregistered
            ||| state is ShutDown && event is ShutDown
            ||| state is End && event is Reported
        },
        close_next(state, event) matches Some((after, action)) ==> (after is Done
            <==> action is Finish),
{
}

/// A close begins as its run does.
pub proof fn law_close_begins_as_its_run_does(
    agent: ThreadId,
    res: (CloseState, CloseAction),
)
    requires
        call_ensures(start_close, (agent,), res),
    ensures
        close_run(agent, Seq::<CloseEvent>::empty()) == Some((res.0, seq![res.1])),
{
}

/// A close that takes a step goes on as its run does, with all that it asked for before; an answer
/// that it does not wait for is handed back, and nothing has changed.
pub proof fn law_close_goes_on_as_its_run_does(
    agent: ThreadId,
    events: Seq<CloseEvent>,
    state: CloseState,
    actions: Seq<CloseAction>,
    event: CloseEvent,
    res: Result<(CloseState, CloseAction), (CloseState, CloseEvent)>,
)
    requires
        close_run(agent, events) == Some((state, actions)),
        call_ensures(step_close, (state, event), res),
    ensures
        match res {
            Ok((next, action)) => close_run(agent, events.push(event)) == Some(
                (next, actions.push(action)),
            ),
            Err(back) => back == (state, event) && close_run(agent, events.push(event)) is None,
        },
{
    assert(events.push(event).drop_last() =~= events);
}

} // verus!
