//! Resuming an agent, from its rollout if it is no longer there.
use crate::errors::CodexErr;
use crate::errors::Failure;
use crate::ids::ThreadId;
use crate::protocol::AgentStatus;
use crate::tools::collab::handler::agent_id;
use crate::tools::collab::handler::agent_refusal;
use crate::tools::collab::handler::collab_agent_error;
use crate::tools::collab::handler::is_agent_id;
use crate::tools::refusal::FunctionCallError;
use crate::tools::refusal::Refusal;
use vstd::prelude::*;

verus! {

/// Decides which agent is resumed: its id has to be one, and the caller not too deep already.
pub fn handle(id: &str, exceeds_depth: bool) -> (res: Result<ThreadId, FunctionCallError>)
    ensures
        is_agent_id(id@, res) || exceeds_depth && res == Err::<ThreadId, FunctionCallError>(
            FunctionCallError::RespondToModel(Refusal::ResumeDepthLimit),
        ) && exists|thread_id: ThreadId| is_agent_id(id@, Ok(thread_id)),
        exceeds_depth ==> res is Err,
{
    match agent_id(id) {
        Ok(thread_id) => {
            if exceeds_depth {
                assert(is_agent_id(id@, Ok(thread_id)));
                Err(FunctionCallError::RespondToModel(Refusal::ResumeDepthLimit))
            } else {
                Ok(thread_id)
            }
        },
        Err(error) => Err(error),
    }
}

/// How far a resumption has come. Each state names what it waits for.
#[allow(inconsistent_fields)]
#[derive(Debug, PartialEq, Eq)]
pub enum ResumeState {
    Begin { receiver: ThreadId },
    Status { receiver: ThreadId },
    Rollout { receiver: ThreadId },
    Config { receiver: ThreadId },
    Resumed { receiver: ThreadId },
    ResumedStatus { receiver: ThreadId },
    FailedStatus { error: FunctionCallError },
    End { outcome: Result<AgentStatus, FunctionCallError> },
    Done,
}

/// What has come back.
#[derive(Debug, PartialEq, Eq)]
pub enum ResumeEvent {
    Reported,
    Status(AgentStatus),
    /// Whether the agent has a rollout.
    Rollout(Result<bool, String>),
    Configured(Result<(), FunctionCallError>),
    /// The resumed thread, or the error and how it is displayed.
    Resumed(Result<ThreadId, Failure>),
}

/// What to do next.
#[derive(Debug, PartialEq, Eq)]
pub enum ResumeAction {
    ReportBegin,
    ReadStatus(ThreadId),
    FindRollout,
    BuildConfig,
    ResumeFromRollout,
    ReportEnd { status: AgentStatus },
    Finish(Result<AgentStatus, FunctionCallError>),
}

pub open spec fn resume_failed(receiver: ThreadId, refusal: FunctionCallError) -> (
    ResumeState,
    ResumeAction,
) {
    (ResumeState::FailedStatus { error: refusal }, ResumeAction::ReadStatus(receiver))
}

pub open spec fn resume_ended(status: AgentStatus, outcome: Result<AgentStatus, FunctionCallError>) -> (
    ResumeState,
    ResumeAction,
) {
    (ResumeState::End { outcome }, ResumeAction::ReportEnd { status })
}

/// The next step, nothing where `event` does not answer what `state` waits for.
pub open spec fn resume_next(state: ResumeState, event: ResumeEvent) -> Option<
    (ResumeState, ResumeAction),
> {
    match (state, event) {
        (ResumeState::Begin { receiver }, ResumeEvent::Reported) => Some(
            (ResumeState::Status { receiver }, ResumeAction::ReadStatus(receiver)),
        ),
        (ResumeState::Status { receiver }, ResumeEvent::Status(status)) => Some(
            match status {
                AgentStatus::NotFound => (
                    ResumeState::Rollout { receiver },
                    ResumeAction::FindRollout,
                ),
                status => resume_ended(status, Ok(status)),
            },
        ),
        (ResumeState::Rollout { receiver }, ResumeEvent::Rollout(result)) => Some(
            match result {
                Err(error) => resume_failed(
                    receiver,
                    FunctionCallError::RespondToModel(
                        Refusal::LocateRollout { id: receiver, error },
                    ),
                ),
                Ok(found) => if found {
                    (ResumeState::Config { receiver }, ResumeAction::BuildConfig)
                } else {
                    resume_failed(
                        receiver,
                        FunctionCallError::RespondToModel(Refusal::AgentNotFound(receiver)),
                    )
                },
            },
        ),
        (ResumeState::Config { receiver }, ResumeEvent::Configured(result)) => Some(
            match result {
                Ok(()) => (ResumeState::Resumed { receiver }, ResumeAction::ResumeFromRollout),
                Err(error) => resume_failed(receiver, error),
            },
        ),
        (ResumeState::Resumed { receiver }, ResumeEvent::Resumed(result)) => Some(
            match result {
                Ok(resumed) => (
                    ResumeState::ResumedStatus { receiver },
                    ResumeAction::ReadStatus(resumed),
                ),
                Err(Failure { error, displayed }) => resume_failed(
                    receiver,
                    FunctionCallError::RespondToModel(agent_refusal(receiver, error, displayed)),
                ),
            },
        ),
        (ResumeState::ResumedStatus { .. }, ResumeEvent::Status(status)) => Some(
            resume_ended(status, Ok(status)),
        ),
        (ResumeState::FailedStatus { error }, ResumeEvent::Status(status)) => Some(
            resume_ended(status, Err(error)),
        ),
        (ResumeState::End { outcome }, ResumeEvent::Reported) => Some(
            (ResumeState::Done, ResumeAction::Finish(outcome)),
        ),
        _ => None,
    }
}

/// Starts to resume an agent.
pub fn start_resume(receiver: ThreadId) -> (res: (ResumeState, ResumeAction))
    ensures
        res == (ResumeState::Begin { receiver }, ResumeAction::ReportBegin),
{
    (ResumeState::Begin { receiver }, ResumeAction::ReportBegin)
}

fn fail(receiver: ThreadId, error: FunctionCallError) -> (res: (ResumeState, ResumeAction))
    ensures
        res == resume_failed(receiver, error),
{
    (ResumeState::FailedStatus { error }, ResumeAction::ReadStatus(receiver))
}

fn end_well(status: AgentStatus) -> (res: (ResumeState, ResumeAction))
    ensures
        res == resume_ended(status, Ok(status)),
{
    let shown: AgentStatus = status.copy();
    (ResumeState::End { outcome: Ok(status) }, ResumeAction::ReportEnd { status: shown })
}

/// Takes the next step. An event that does not answer what the state waits for is handed back.
pub fn step_resume(state: ResumeState, event: ResumeEvent) -> (res: Result<
    (ResumeState, ResumeAction),
    (ResumeState, ResumeEvent),
>)
    ensures
        res == match resume_next(state, event) {
            Some(next) => Ok::<(ResumeState, ResumeAction), (ResumeState, ResumeEvent)>(next),
            None => Err((state, event)),
        },
{
    let next: (ResumeState, ResumeAction) = match (state, event) {
        (ResumeState::Begin { receiver }, ResumeEvent::Reported) => (
            ResumeState::Status { receiver },
            ResumeAction::ReadStatus(receiver),
        ),
        (ResumeState::Status { receiver }, ResumeEvent::Status(status)) => {
            match status {
                AgentStatus::NotFound => (
                    ResumeState::Rollout { receiver },
                    ResumeAction::FindRollout,
                ),
                status => end_well(status),
            }
        },
        (ResumeState::Rollout { receiver }, ResumeEvent::Rollout(result)) => {
            match result {
                Err(error) => fail(
                    receiver,
                    FunctionCallError::RespondToModel(
                        Refusal::LocateRollout { id: receiver, error },
                    ),
                ),
                Ok(found) => {
                    if found {
                        (ResumeState::Config { receiver }, ResumeAction::BuildConfig)
                    } else {
                        fail(
                            receiver,
                            FunctionCallError::RespondToModel(Refusal::AgentNotFound(receiver)),
                        )
                    }
                },
            }
        },
        (ResumeState::Config { receiver }, ResumeEvent::Configured(result)) => {
            match result {
                Ok(()) => (ResumeState::Resumed { receiver }, ResumeAction::ResumeFromRollout),
                Err(error) => fail(receiver, error),
            }
        },
        (ResumeState::Resumed { receiver }, ResumeEvent::Resumed(result)) => {
            match result {
                Ok(resumed) => (
                    ResumeState::ResumedStatus { receiver },
                    ResumeAction::ReadStatus(resumed),
                ),
                Err(Failure { error, displayed }) => fail(
                    receiver,
                    collab_agent_error(receiver, error, displayed),
                ),
            }
        },
        (ResumeState::ResumedStatus { .. }, ResumeEvent::Status(status)) => end_well(status),
        (ResumeState::FailedStatus { error }, ResumeEvent::Status(status)) => (
            ResumeState::End { outcome: Err(error) },
            ResumeAction::ReportEnd { status },
        ),
        (ResumeState::End { outcome }, ResumeEvent::Reported) => (
            ResumeState::Done,
            ResumeAction::Finish(outcome),
        ),
        (state, event) => {
            return Err((state, event));
        },
    };
    Ok(next)
}

/// An agent that is still there is left alone: its status is reported, and no rollout is touched.
pub proof fn law_active_agent_is_not_resumed(receiver: ThreadId, status: AgentStatus)
    requires
        !(status is NotFound),
    ensures
        resume_next(ResumeState::Status { receiver }, ResumeEvent::Status(status)) == Some(
            resume_ended(status, Ok(status)),
        ),
{
}

/// Where a resumption stands after `events`, and all that it asked for.
pub open spec fn resume_run(
    receiver: ThreadId,
    events: Seq<ResumeEvent>,
) -> Option<(ResumeState, Seq<ResumeAction>)>
    decreases events.len(),
{
    if events.len() == 0 {
        let first: (ResumeState, ResumeAction) = (
            ResumeState::Begin { receiver },
            ResumeAction::ReportBegin,
        );
        Some((first.0, seq![first.1]))
    } else {
        match resume_run(receiver, events.drop_last()) {
            Some((state, actions)) => match resume_next(state, events.last()) {
                Some((next, action)) => Some((next, actions.push(action))),
                None => None,
            },
            None => None,
        }
    }
}

proof fn lemma_resume_step(
    receiver: ThreadId,
    events: Seq<ResumeEvent>,
    event: ResumeEvent,
)
    requires
        resume_run(receiver, events) is Some,
        resume_next(resume_run(receiver, events)->Some_0.0, event) is Some,
    ensures
        ({
            let (state, actions) = resume_run(receiver, events)->Some_0;
            let (next, action) = resume_next(state, event)->Some_0;
            resume_run(receiver, events.push(event)) == Some((next, actions.push(action)))
        }),
{
    assert(events.push(event).drop_last() =~= events);
}

/// An agent that is still there is not resumed: the call ends with its status.
pub proof fn law_agent_that_is_there_is_reported_as_it_is(
    receiver: ThreadId,
    status: AgentStatus,
)
    requires
        !(status is NotFound),
    ensures
        ({
            let events: Seq<ResumeEvent> = seq![
                ResumeEvent::Reported,
                ResumeEvent::Status(status),
                ResumeEvent::Reported,
            ];
            let run = resume_run(receiver, events);
            &&& run is Some
            &&& run->Some_0.1 == seq![
                ResumeAction::ReportBegin,
                ResumeAction::ReadStatus(receiver),
                ResumeAction::ReportEnd { status: status },
                ResumeAction::Finish(Ok(status)),
            ]
        }),
{
    let e0 = Seq::<ResumeEvent>::empty();
    lemma_resume_step(receiver, e0, ResumeEvent::Reported);
    let e1 = e0.push(ResumeEvent::Reported);
    lemma_resume_step(receiver, e1, ResumeEvent::Status(status));
    let e2 = e1.push(ResumeEvent::Status(status));
    lemma_resume_step(receiver, e2, ResumeEvent::Reported);
    let e3 = e2.push(ResumeEvent::Reported);
    assert(e3 =~= seq![ResumeEvent::Reported, ResumeEvent::Status(status), ResumeEvent::Reported]);
    assert(resume_run(receiver, e3)->Some_0.1 =~= seq![
        ResumeAction::ReportBegin,
        ResumeAction::ReadStatus(receiver),
        ResumeAction::ReportEnd { status: status },
        ResumeAction::Finish(Ok(status)),
    ]);
}

/// An agent that is no longer there is resumed from its rollout; the call ends with the status of
/// the thread that was resumed.
pub proof fn law_missing_agent_is_resumed_from_its_rollout(
    receiver: ThreadId,
    resumed: ThreadId,
    status: AgentStatus,
)
    ensures
        ({
            let events: Seq<ResumeEvent> = seq![
                ResumeEvent::Reported,
                ResumeEvent::Status(AgentStatus::NotFound),
                ResumeEvent::Rollout(Ok(true)),
                ResumeEvent::Configured(Ok(())),
                ResumeEvent::Resumed(Ok(resumed)),
                ResumeEvent::Status(status),
                ResumeEvent::Reported,
            ];
            let run = resume_run(receiver, events);
            &&& run is Some
            &&& run->Some_0.1 == seq![
                ResumeAction::ReportBegin,
                ResumeAction::ReadStatus(receiver),
                ResumeAction::FindRollout,
                ResumeAction::BuildConfig,
                ResumeAction::ResumeFromRollout,
                ResumeAction::ReadStatus(resumed),
                ResumeAction::ReportEnd { status: status },
                ResumeAction::Finish(Ok(status)),
            ]
        }),
{
    let e0 = Seq::<ResumeEvent>::empty();
    lemma_resume_step(receiver, e0, ResumeEvent::Reported);
    let e1 = e0.push(ResumeEvent::Reported);
    lemma_resume_step(receiver, e1, ResumeEvent::Status(AgentStatus::NotFound));
    let e2 = e1.push(ResumeEvent::Status(AgentStatus::NotFound));
    lemma_resume_step(receiver, e2, ResumeEvent::Rollout(Ok(true)));
    let e3 = e2.push(ResumeEvent::Rollout(Ok(true)));
    lemma_resume_step(receiver, e3, ResumeEvent::Configured(Ok(())));
    let e4 = e3.push(ResumeEvent::Configured(Ok(())));
    lemma_resume_step(receiver, e4, ResumeEvent::Resumed(Ok(resumed)));
    let e5 = e4.push(ResumeEvent::Resumed(Ok(resumed)));
    lemma_resume_step(receiver, e5, ResumeEvent::Status(status));
    let e6 = e5.push(ResumeEvent::Status(status));
    lemma_resume_step(receiver, e6, ResumeEvent::Reported);
    let e7 = e6.push(ResumeEvent::Reported);
    assert(e7 =~= seq![
        ResumeEvent::Reported,
        ResumeEvent::Status(AgentStatus::NotFound),
        ResumeEvent::Rollout(Ok(true)),
        ResumeEvent::Configured(Ok(())),
        ResumeEvent::Resumed(Ok(resumed)),
        ResumeEvent::Status(status),
        ResumeEvent::Reported,
    ]);
    assert(resume_run(receiver, e7)->Some_0.1 =~= seq![
        ResumeAction::ReportBegin,
        ResumeAction::ReadStatus(receiver),
        ResumeAction::FindRollout,
        ResumeAction::BuildConfig,
        ResumeAction::ResumeFromRollout,
        ResumeAction::ReadStatus(resumed),
        ResumeAction::ReportEnd { status: status },
        ResumeAction::Finish(Ok(status)),
    ]);
}

/// A resumption that fails reports how the agent is doing and ends with the reason.
pub proof fn law_resumption_ends_with_its_first_failure(
    receiver: ThreadId,
    status: AgentStatus,
    text: String,
    refusal: FunctionCallError,
    error: CodexErr,
    displayed: String,
)
    ensures
        ({
            let events: Seq<ResumeEvent> = seq![
                ResumeEvent::Reported,
                ResumeEvent::Status(AgentStatus::NotFound),
                ResumeEvent::Rollout(Err(text)),
                ResumeEvent::Status(status),
                ResumeEvent::Reported,
            ];
            let run = resume_run(receiver, events);
            &&& run is Some
            &&& run->Some_0.1 == seq![
                ResumeAction::ReportBegin,
                ResumeAction::ReadStatus(receiver),
                ResumeAction::FindRollout,
                ResumeAction::ReadStatus(receiver),
                ResumeAction::ReportEnd { status: status },
                ResumeAction::Finish(
                    Err(
                        FunctionCallError::RespondToModel(
                            Refusal::LocateRollout { id: receiver, error: text },
                        ),
                    ),
                ),
            ]
        }),
        ({
            let events: Seq<ResumeEvent> = seq![
                ResumeEvent::Reported,
                ResumeEvent::Status(AgentStatus::NotFound),
                ResumeEvent::Rollout(Ok(false)),
                ResumeEvent::Status(status),
                ResumeEvent::Reported,
            ];
            let run = resume_run(receiver, events);
            &&& run is Some
            &&& run->Some_0.1 == seq![
                ResumeAction::ReportBegin,
                ResumeAction::ReadStatus(receiver),
                ResumeAction::FindRollout,
                ResumeAction::ReadStatus(receiver),
                ResumeAction::ReportEnd { status: status },
                ResumeAction::Finish(
                    Err(FunctionCallError::RespondToModel(Refusal::AgentNotFound(receiver))),
                ),
            ]
        }),
        ({
            let events: Seq<ResumeEvent> = seq![
                ResumeEvent::Reported,
                ResumeEvent::Status(AgentStatus::NotFound),
                ResumeEvent::Rollout(Ok(true)),
                ResumeEvent::Configured(Err(refusal)),
                ResumeEvent::Status(status),
                ResumeEvent::Reported,
            ];
            let run = resume_run(receiver, events);
            &&& run is Some
            &&& run->Some_0.1 == seq![
                ResumeAction::ReportBegin,
                ResumeAction::ReadStatus(receiver),
                ResumeAction::FindRollout,
                ResumeAction::BuildConfig,
                ResumeAction::ReadStatus(receiver),
                ResumeAction::ReportEnd { status: status },
                ResumeAction::Finish(Err(refusal)),
            ]
        }),
        ({
            let events: Seq<ResumeEvent> = seq![
                ResumeEvent::Reported,
                ResumeEvent::Status(AgentStatus::NotFound),
                ResumeEvent::Rollout(Ok(true)),
                ResumeEvent::Configured(Ok(())),
                ResumeEvent::Resumed(Err(Failure { error, displayed })),
                ResumeEvent::Status(status),
                ResumeEvent::Reported,
            ];
            let run = resume_run(receiver, events);
            &&& run is Some
            &&& run->Some_0.1 == seq![
                ResumeAction::ReportBegin,
                ResumeAction::ReadStatus(receiver),
                ResumeAction::FindRollout,
                ResumeAction::BuildConfig,
                ResumeAction::ResumeFromRollout,
                ResumeAction::ReadStatus(receiver),
                ResumeAction::ReportEnd { status: status },
                ResumeAction::Finish(
                    Err(
                        FunctionCallError::RespondToModel(
                            agent_refusal(receiver, error, displayed),
                        ),
                    ),
                ),
            ]
        }),
{
    let e0 = Seq::<ResumeEvent>::empty();
    lemma_resume_step(receiver, e0, ResumeEvent::Reported);
    let e1 = e0.push(ResumeEvent::Reported);
    lemma_resume_step(receiver, e1, ResumeEvent::Status(AgentStatus::NotFound));
    let e2 = e1.push(ResumeEvent::Status(AgentStatus::NotFound));
    lemma_resume_step(receiver, e2, ResumeEvent::Rollout(Err(text)));
    let e3 = e2.push(ResumeEvent::Rollout(Err(text)));
    lemma_resume_step(receiver, e3, ResumeEvent::Status(status));
    let e4 = e3.push(ResumeEvent::Status(status));
    lemma_resume_step(receiver, e4, ResumeEvent::Reported);
    let e5 = e4.push(ResumeEvent::Reported);
    assert(e5 =~= seq![
        ResumeEvent::Reported,
        ResumeEvent::Status(AgentStatus::NotFound),
        ResumeEvent::Rollout(Err(text)),
        ResumeEvent::Status(status),
        ResumeEvent::Reported,
    ]);
    assert(resume_run(receiver, e5)->Some_0.1 =~= seq![
        ResumeAction::ReportBegin,
        ResumeAction::ReadStatus(receiver),
        ResumeAction::FindRollout,
        ResumeAction::ReadStatus(receiver),
        ResumeAction::ReportEnd { status: status },
        ResumeAction::Finish(
            Err(
                FunctionCallError::RespondToModel(
                    Refusal::LocateRollout { id: receiver, error: text },
                ),
            ),
        ),
    ]);
    lemma_resume_step(receiver, e2, ResumeEvent::Rollout(Ok(false)));
    let e6 = e2.push(ResumeEvent::Rollout(Ok(false)));
    lemma_resume_step(receiver, e6, ResumeEvent::Status(status));
    let e7 = e6.push(ResumeEvent::Status(status));
    lemma_resume_step(receiver, e7, ResumeEvent::Reported);
    let e8 = e7.push(ResumeEvent::Reported);
    assert(e8 =~= seq![
        ResumeEvent::Reported,
        ResumeEvent::Status(AgentStatus::NotFound),
        ResumeEvent::Rollout(Ok(false)),
        ResumeEvent::Status(status),
        ResumeEvent::Reported,
    ]);
    assert(resume_run(receiver, e8)->Some_0.1 =~= seq![
        ResumeAction::ReportBegin,
        ResumeAction::ReadStatus(receiver),
        ResumeAction::FindRollout,
        ResumeAction::ReadStatus(receiver),
        ResumeAction::ReportEnd { status: status },
        ResumeAction::Finish(
            Err(FunctionCallError::RespondToModel(Refusal::AgentNotFound(receiver))),
        ),
    ]);
    lemma_resume_step(receiver, e2, ResumeEvent::Rollout(Ok(true)));
    let e9 = e2.push(ResumeEvent::Rollout(Ok(true)));
    lemma_resume_step(receiver, e9, ResumeEvent::Configured(Err(refusal)));
    let e10 = e9.push(ResumeEvent::Configured(Err(refusal)));
    lemma_resume_step(receiver, e10, ResumeEvent::Status(status));
    let e11 = e10.push(ResumeEvent::Status(status));
    lemma_resume_step(receiver, e11, ResumeEvent::Reported);
    let e12 = e11.push(ResumeEvent::Reported);
    assert(e12 =~= seq![
        ResumeEvent::Reported,
        ResumeEvent::Status(AgentStatus::NotFound),
        ResumeEvent::Rollout(Ok(true)),
        ResumeEvent::Configured(Err(refusal)),
        ResumeEvent::Status(status),
        ResumeEvent::Reported,
    ]);
    assert(resume_run(receiver, e12)->Some_0.1 =~= seq![
        ResumeAction::ReportBegin,
        ResumeAction::ReadStatus(receiver),
        ResumeAction::FindRollout,
        ResumeAction::BuildConfig,
        ResumeAction::ReadStatus(receiver),
        ResumeAction::ReportEnd { status: status },
        ResumeAction::Finish(Err(refusal)),
    ]);
    lemma_resume_step(receiver, e9, ResumeEvent::Configured(Ok(())));
    let e13 = e9.push(ResumeEvent::Configured(Ok(())));
    lemma_resume_step(receiver, e13, ResumeEvent::Resumed(Err(Failure { error, displayed })));
    let e14 = e13.push(ResumeEvent::Resumed(Err(Failure { error, displayed })));
    lemma_resume_step(receiver, e14, ResumeEvent::Status(status));
    let e15 = e14.push(ResumeEvent::Status(status));
    lemma_resume_step(receiver, e15, ResumeEvent::Reported);
    let e16 = e15.push(ResumeEvent::Reported);
    assert(e16 =~= seq![
        ResumeEvent::Reported,
        ResumeEvent::Status(AgentStatus::NotFound),
        ResumeEvent::Rollout(Ok(true)),
        ResumeEvent::Configured(Ok(())),
        ResumeEvent::Resumed(Err(Failure { error, displayed })),
        ResumeEvent::Status(status),
        ResumeEvent::Reported,
    ]);
    assert(resume_run(receiver, e16)->Some_0.1 =~= seq![
        ResumeAction::ReportBegin,
        ResumeAction::ReadStatus(receiver),
        ResumeAction::FindRollout,
        ResumeAction::BuildConfig,
        ResumeAction::ResumeFromRollout,
        ResumeAction::ReadStatus(receiver),
        ResumeAction::ReportEnd { status: status },
        ResumeAction::Finish(
            Err(FunctionCallError::RespondToModel(agent_refusal(receiver, error, displayed))),
        ),
    ]);
}

/// A resumption takes an answer exactly where it waits for one of that kind, and none when it is
/// done. It is done exactly when its last word is said.
pub proof fn law_resumption_takes_only_awaited_answers(
    state: ResumeState,
    event: ResumeEvent,
)
    ensures
        resume_next(state, event) is Some <==> {
            ||| state is Begin && event is Reported
            ||| state is Status && event is Status
            ||| state is Rollout && event is Rollout
            ||| state is Config && event is Configured
            ||| state is Resumed && event is Resumed
            ||| state is ResumedStatus && event is Status
            ||| state is FailedStatus && event is Status
            ||| state is End && event is Reported
        },
        resume_next(state, event) matches Some((after, action)) ==> (after is Done
            <==> action is Finish),
{
}

/// A resumption begins as its run does.
pub proof fn law_resume_begins_as_its_run_does(
    receiver: ThreadId,
    res: (ResumeState, ResumeAction),
)
    requires
        call_ensures(start_resume, (receiver,), res),
    ensures
        resume_run(receiver, Seq::<ResumeEvent>::empty()) == Some((res.0, seq![res.1])),
{
}

/// A resumption that takes a step goes on as its run does, with all that it asked for before; an
/// answer that it does not wait for is handed back, and nothing has changed.
pub proof fn law_resume_goes_on_as_its_run_does(
    receiver: ThreadId,
    events: Seq<ResumeEvent>,
    state: ResumeState,
    actions: Seq<ResumeAction>,
    event: ResumeEvent,
    res: Result<(ResumeState, ResumeAction), (ResumeState, ResumeEvent)>,
)
    requires
        resume_run(receiver, events) == Some((state, actions)),
        call_ensures(step_resume, (state, event), res),
    ensures
        match res {
            Ok((next, action)) => resume_run(receiver, events.push(event)) == Some(
                (next, actions.push(action)),
            ),
            Err(back) => back == (state, event) && resume_run(receiver, events.push(event)) is None,
        },
{
    assert(events.push(event).drop_last() =~= events);
}

} // verus!
