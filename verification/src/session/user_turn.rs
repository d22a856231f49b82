//! What a user sends: it steers the turn that is running, or starts one.
use crate::errors::CodexErr;
use crate::errors::CodexErrorInfo;
use crate::errors::Reason;
use crate::protocol::Event;
use crate::protocol::EventMsg;
use crate::protocol::ResponseItem;
use crate::protocol::TaskStartOutcome;
use crate::protocol::UserInput;
use crate::session::inject::into_item_input;
use crate::session::inject::item_input;
use crate::session::input_queue::TurnInput;
use crate::text::copy_option;
use vstd::prelude::*;

verus! {

/// How a user's message was taken in.
#[derive(Clone, Debug, PartialEq, Eq)]
pub enum UserMessageAdmission {
    Steered { turn_id: String },
    Started { turn_id: String },
}

/// Why input did not reach the running turn.
#[allow(inconsistent_fields)]
#[derive(Clone, Debug, PartialEq, Eq)]
pub enum SteerInputError {
    /// No turn runs; the input is handed back.
    NoActiveTurn(Vec<UserInput>),
    /// The running turn refused it: how that is reported, and its debug form.
    Rejected { report: EventMsg, debug: String },
}

/// What stays the same while a message is taken in.
#[derive(Clone, Debug, PartialEq, Eq)]
pub struct UserTurnRequest {
    pub sub_id: String,
    pub client_user_message_id: Option<String>,
    pub parent_turn_id: Option<String>,
    /// Whether the message comes with thread settings of its own.
    pub has_settings: bool,
    /// Whether the message comes with metadata for the model client.
    pub has_client_metadata: bool,
}

/// How far the message has come. Each state names what it waits for.
#[allow(inconsistent_fields)]
#[derive(Debug, PartialEq, Eq)]
pub enum UserTurnState {
    ActiveTurn { request: UserTurnRequest, items: Vec<UserInput> },
    ConfigReload { request: UserTurnRequest, items: Vec<UserInput> },
    Context { request: UserTurnRequest, items: Vec<UserInput> },
    SettingsReport { request: UserTurnRequest, items: Vec<UserInput> },
    Warnings { request: UserTurnRequest, items: Vec<UserInput> },
    Steer { request: UserTurnRequest },
    StateLock { request: UserTurnRequest, items: Vec<UserInput> },
    AdditionalContext { request: UserTurnRequest, items: Vec<UserInput> },
    Spawn { sub_id: String },
    Done,
}

/// What has come back.
#[derive(Debug, PartialEq, Eq)]
pub enum UserTurnEvent {
    ActiveTurn(bool),
    Reloaded,
    /// The turn context for the message; a failure has been reported already.
    Context(Result<(), CodexErr>),
    Reported,
    Warned,
    /// The turn that took the input.
    Steered(Result<String, SteerInputError>),
    Locked { restart_required: bool },
    /// The additional context that is new to the session.
    Merged(Vec<ResponseItem>),
    Spawned(TaskStartOutcome),
}

/// What to do next.
#[derive(Debug, PartialEq, Eq)]
pub enum UserTurnAction {
    ReadActiveTurn,
    ReloadUserConfig,
    /// Make a turn context, with the message's settings where it has some.
    NewTurn { with_settings: bool },
    ReportSettingsApplied { sub_id: String },
    EmitModelWarnings,
    Steer { items: Vec<UserInput>, client_user_message_id: Option<String> },
    /// Note on the turn context who caused it, log the prompt, and lock the state.
    AttributeAndLockState { parent_turn_id: Option<String>, set_client_metadata: bool },
    MergeAdditionalContext,
    /// Start a regular task with this input; see `task_input`.
    SpawnTask {
        context: Vec<ResponseItem>,
        items: Vec<UserInput>,
        client_user_message_id: Option<String>,
    },
    /// Report, if there is a report, and hand the outcome to the sender of the message.
    Finish { report: Option<Event>, outcome: Result<UserMessageAdmission, CodexErr> },
}

pub open spec fn user_turn_finished(outcome: Result<UserMessageAdmission, CodexErr>) -> (
    UserTurnState,
    UserTurnAction,
) {
    (UserTurnState::Done, UserTurnAction::Finish { report: None, outcome })
}

pub open spec fn user_turn_warns(request: UserTurnRequest, items: Vec<UserInput>) -> (
    UserTurnState,
    UserTurnAction,
) {
    (UserTurnState::Warnings { request, items }, UserTurnAction::EmitModelWarnings)
}

pub open spec fn user_turn_makes_context(request: UserTurnRequest, items: Vec<UserInput>) -> (
    UserTurnState,
    UserTurnAction,
) {
    (
        UserTurnState::Context { request, items },
        UserTurnAction::NewTurn { with_settings: request.has_settings },
    )
}

/// The next step, nothing where `event` does not answer what `state` waits for.
pub open spec fn user_turn_next(state: UserTurnState, event: UserTurnEvent) -> Option<
    (UserTurnState, UserTurnAction),
> {
    match (state, event) {
        (UserTurnState::ActiveTurn { request, items }, UserTurnEvent::ActiveTurn(active)) => Some(
            if active {
                user_turn_makes_context(request, items)
            } else {
                (UserTurnState::ConfigReload { request, items }, UserTurnAction::ReloadUserConfig)
            },
        ),
        (UserTurnState::ConfigReload { request, items }, UserTurnEvent::Reloaded) => Some(
            user_turn_makes_context(request, items),
        ),
        (UserTurnState::Context { request, items }, UserTurnEvent::Context(result)) => Some(
            match result {
                Err(error) => user_turn_finished(Err(error)),
                Ok(()) => if request.has_settings {
                    (
                        UserTurnState::SettingsReport { request, items },
                        UserTurnAction::ReportSettingsApplied { sub_id: request.sub_id },
                    )
                } else {
                    user_turn_warns(request, items)
                },
            },
        ),
        (UserTurnState::SettingsReport { request, items }, UserTurnEvent::Reported) => Some(
            user_turn_warns(request, items),
        ),
        (UserTurnState::Warnings { request, items }, UserTurnEvent::Warned) => Some(
            (
                UserTurnState::Steer { request },
                UserTurnAction::Steer {
                    items,
                    client_user_message_id: request.client_user_message_id,
                },
            ),
        ),
        (UserTurnState::Steer { request }, UserTurnEvent::Steered(result)) => Some(
            match result {
                Ok(turn_id) => user_turn_finished(Ok(UserMessageAdmission::Steered { turn_id })),
                Err(SteerInputError::NoActiveTurn(items)) => (
                    UserTurnState::StateLock { request, items },
                    UserTurnAction::AttributeAndLockState {
                        parent_turn_id: request.parent_turn_id,
                        set_client_metadata: request.has_client_metadata,
                    },
                ),
                Err(SteerInputError::Rejected { report, debug }) => (
                    UserTurnState::Done,
                    UserTurnAction::Finish {
                        report: Some(Event { id: request.sub_id, msg: report }),
                        outcome: Err(
                            CodexErr::InvalidRequest(Reason::UserMessageNotAdmitted(debug)),
                        ),
                    },
                ),
            },
        ),
        (
            UserTurnState::StateLock { request, items },
            UserTurnEvent::Locked { restart_required },
        ) => Some(
            if restart_required {
                (
                    UserTurnState::Done,
                    UserTurnAction::Finish {
                        report: Some(
                            Event {
                                id: request.sub_id,
                                msg: EventMsg::Error {
                                    reason: Reason::RestartBeforeTurn,
                                    info: CodexErrorInfo::Other,
                                },
                            },
                        ),
                        outcome: Err(CodexErr::TurnAborted),
                    },
                )
            } else {
                (
                    UserTurnState::AdditionalContext { request, items },
                    UserTurnAction::MergeAdditionalContext,
                )
            },
        ),
        (UserTurnState::AdditionalContext { request, items }, UserTurnEvent::Merged(context)) => {
            Some(
                (
                    UserTurnState::Spawn { sub_id: request.sub_id },
                    UserTurnAction::SpawnTask {
                        context,
                        items,
                        client_user_message_id: request.client_user_message_id,
                    },
                ),
            )
        },
        (UserTurnState::Spawn { sub_id }, UserTurnEvent::Spawned(outcome)) => Some(
            user_turn_finished(
                if outcome == TaskStartOutcome::RestartRequired {
                    Err(CodexErr::TurnAborted)
                } else {
                    Ok(UserMessageAdmission::Started { turn_id: sub_id })
                },
            ),
        ),
        _ => None,
    }
}

fn warn(request: UserTurnRequest, items: Vec<UserInput>) -> (res: (UserTurnState, UserTurnAction))
    ensures
        res == user_turn_warns(request, items),
{
    (UserTurnState::Warnings { request, items }, UserTurnAction::EmitModelWarnings)
}

fn make_context(request: UserTurnRequest, items: Vec<UserInput>) -> (res: (
    UserTurnState,
    UserTurnAction,
))
    ensures
        res == user_turn_makes_context(request, items),
{
    let with_settings: bool = request.has_settings;
    (UserTurnState::Context { request, items }, UserTurnAction::NewTurn { with_settings })
}

fn finish(outcome: Result<UserMessageAdmission, CodexErr>) -> (res: (UserTurnState, UserTurnAction))
    ensures
        res == user_turn_finished(outcome),
{
    (UserTurnState::Done, UserTurnAction::Finish { report: None, outcome })
}

/// Starts to take a message in.
pub fn user_input_or_turn(request: UserTurnRequest, items: Vec<UserInput>) -> (res: (
    UserTurnState,
    UserTurnAction,
))
    ensures
        res == (UserTurnState::ActiveTurn { request, items }, UserTurnAction::ReadActiveTurn),
{
    (UserTurnState::ActiveTurn { request, items }, UserTurnAction::ReadActiveTurn)
}

/// Takes the next step. An event that does not answer what the state waits for is handed back.
pub fn step_user_turn(state: UserTurnState, event: UserTurnEvent) -> (res: Result<
    (UserTurnState, UserTurnAction),
    (UserTurnState, UserTurnEvent),
>)
    ensures
        res == match user_turn_next(state, event) {
            Some(next) => Ok::<(UserTurnState, UserTurnAction), (UserTurnState, UserTurnEvent)>(
                next,
            ),
            None => Err((state, event)),
        },
{
    let next: (UserTurnState, UserTurnAction) = match (state, event) {
        (UserTurnState::ActiveTurn { request, items }, UserTurnEvent::ActiveTurn(active)) => {
            if active {
                make_context(request, items)
            } else {
                (UserTurnState::ConfigReload { request, items }, UserTurnAction::ReloadUserConfig)
            }
        },
        (UserTurnState::ConfigReload { request, items }, UserTurnEvent::Reloaded) => make_context(
            request,
            items,
        ),
        (UserTurnState::Context { request, items }, UserTurnEvent::Context(result)) => {
            match result {
                Err(error) => finish(Err(error)),
                Ok(()) => {
                    if request.has_settings {
                        let sub_id: String = request.sub_id.clone();
                        (
                            UserTurnState::SettingsReport { request, items },
                            UserTurnAction::ReportSettingsApplied { sub_id },
                        )
                    } else {
                        warn(request, items)
                    }
                },
            }
        },
        (UserTurnState::SettingsReport { request, items }, UserTurnEvent::Reported) => warn(
            request,
            items,
        ),
        (UserTurnState::Warnings { request, items }, UserTurnEvent::Warned) => {
            let client_user_message_id: Option<String> = copy_option(
                &request.client_user_message_id,
            );
            (
                UserTurnState::Steer { request },
                UserTurnAction::Steer { items, client_user_message_id },
            )
        },
        (UserTurnState::Steer { request }, UserTurnEvent::Steered(result)) => {
            match result {
                Ok(turn_id) => finish(Ok(UserMessageAdmission::Steered { turn_id })),
                Err(SteerInputError::NoActiveTurn(items)) => {
                    let parent_turn_id: Option<String> = copy_option(
                        &request.parent_turn_id,
                    );
                    let set_client_metadata: bool = request.has_client_metadata;
                    (
                        UserTurnState::StateLock { request, items },
                        UserTurnAction::AttributeAndLockState {
                            parent_turn_id,
                            set_client_metadata,
                        },
                    )
                },
                Err(SteerInputError::Rejected { report, debug }) => (
                    UserTurnState::Done,
                    UserTurnAction::Finish {
                        report: Some(Event { id: request.sub_id, msg: report }),
                        outcome: Err(
                            CodexErr::InvalidRequest(Reason::UserMessageNotAdmitted(debug)),
                        ),
                    },
                ),
            }
        },
        (
            UserTurnState::StateLock { request, items },
            UserTurnEvent::Locked { restart_required },
        ) => {
            if restart_required {
                (
                    UserTurnState::Done,
                    UserTurnAction::Finish {
                        report: Some(
                            Event {
                                id: request.sub_id,
                                msg: EventMsg::Error {
                                    reason: Reason::RestartBeforeTurn,
                                    info: CodexErrorInfo::Other,
                                },
                            },
                        ),
                        outcome: Err(CodexErr::TurnAborted),
                    },
                )
            } else {
                (
                    UserTurnState::AdditionalContext { request, items },
                    UserTurnAction::MergeAdditionalContext,
                )
            }
        },
        (UserTurnState::AdditionalContext { request, items }, UserTurnEvent::Merged(context)) => (
            UserTurnState::Spawn { sub_id: request.sub_id },
            UserTurnAction::SpawnTask {
                context,
                items,
                client_user_message_id: request.client_user_message_id,
            },
        ),
        (UserTurnState::Spawn { sub_id }, UserTurnEvent::Spawned(outcome)) => {
            match outcome {
                TaskStartOutcome::RestartRequired => finish(Err(CodexErr::TurnAborted)),
                _ => finish(Ok(UserMessageAdmission::Started { turn_id: sub_id })),
            }
        },
        (state, event) => {
            return Err((state, event));
        },
    };
    Ok(next)
}

/// The input of the task that a message starts: its additional context, then the message itself
/// unless that is empty.
pub fn task_input(
    context: Vec<ResponseItem>,
    items: Vec<UserInput>,
    client_user_message_id: Option<String>,
) -> (res: Vec<TurnInput>)
    ensures
        items@.len() == 0 ==> res@ == item_input(context@),
        items@.len() > 0 ==> res@ == item_input(context@).push(
            TurnInput::UserInput { content: items, client_id: client_user_message_id },
        ),
{
    let mut res: Vec<TurnInput> = into_item_input(context);
    if items.len() > 0 {
        res.push(TurnInput::UserInput { content: items, client_id: client_user_message_id });
    }
    res
}

/// Where a message stands after `events`, and all that was asked for.
pub open spec fn user_turn_run(
    request: UserTurnRequest,
    items: Vec<UserInput>,
    events: Seq<UserTurnEvent>,
) -> Option<(UserTurnState, Seq<UserTurnAction>)>
    decreases events.len(),
{
    if events.len() == 0 {
        Some(
            (
                UserTurnState::ActiveTurn { request, items },
                seq![UserTurnAction::ReadActiveTurn],
            ),
        )
    } else {
        match user_turn_run(request, items, events.drop_last()) {
            Some((state, actions)) => match user_turn_next(state, events.last()) {
                Some((next, action)) => Some((next, actions.push(action))),
                None => None,
            },
            None => None,
        }
    }
}

/// Whether the thread was found to need a restart.
pub open spec fn message_fenced(events: Seq<UserTurnEvent>) -> bool {
    exists|i: int|
        0 <= i < events.len() && ((#[trigger] events[i]) matches UserTurnEvent::Locked {
            restart_required,
        } && restart_required)
}

/// Whether the running turn took the message.
pub open spec fn message_steered(events: Seq<UserTurnEvent>) -> bool {
    exists|i: int|
        0 <= i < events.len() && ((#[trigger] events[i]) matches UserTurnEvent::Steered(Ok(_)))
}

spec fn user_turn_invariant(
    request: UserTurnRequest,
    state: UserTurnState,
    events: Seq<UserTurnEvent>,
    actions: Seq<UserTurnAction>,
) -> bool {
    &&& match state {
        UserTurnState::ActiveTurn { request: r, .. } => r == request,
        UserTurnState::ConfigReload { request: r, .. } => r == request,
        UserTurnState::Context { request: r, .. } => r == request,
        UserTurnState::SettingsReport { request: r, .. } => r == request,
        UserTurnState::Warnings { request: r, .. } => r == request,
        UserTurnState::Steer { request: r } => r == request,
        UserTurnState::StateLock { request: r, .. } => r == request,
        UserTurnState::AdditionalContext { request: r, .. } => r == request,
        UserTurnState::Spawn { sub_id } => sub_id == request.sub_id,
        UserTurnState::Done => true,
    }
    &&& !(state is Done) ==> !message_fenced(events) && !message_steered(events)
    &&& forall|i: int|
        0 <= i < actions.len() ==> {
            &&& (#[trigger] actions[i]) is SpawnTask ==> !message_fenced(events)
                && !message_steered(events) && (state is Spawn || state is Done)
            &&& actions[i] matches UserTurnAction::Finish { report, outcome } ==> {
                &&& state is Done
                &&& message_fenced(events) ==> outcome == Err::<UserMessageAdmission, CodexErr>(
                    CodexErr::TurnAborted,
                )
                &&& message_steered(events) <==> (outcome matches Ok(admission)
                    && admission is Steered)
                &&& outcome matches Ok(UserMessageAdmission::Started { turn_id }) ==> turn_id
                    == request.sub_id
                &&& report matches Some(event) ==> event.id == request.sub_id && outcome is Err
            }
        }
}

proof fn lemma_user_turn_invariant(
    request: UserTurnRequest,
    items: Vec<UserInput>,
    events: Seq<UserTurnEvent>,
)
    requires
        user_turn_run(request, items, events) is Some,
    ensures
        ({
            let (state, actions) = user_turn_run(request, items, events)->Some_0;
            user_turn_invariant(request, state, events, actions)
        }),
    decreases events.len(),
{
    if events.len() > 0 {
        let head = events.drop_last();
        lemma_user_turn_invariant(request, items, head);
        let (before, done) = user_turn_run(request, items, head)->Some_0;
        let (after, action) = user_turn_next(before, events.last())->Some_0;
        let actions = done.push(action);
        assert(events[events.len() - 1] == events.last());
        if message_fenced(events) {
            let k = choose|k: int|
                0 <= k < events.len() && ((#[trigger] events[k]) matches UserTurnEvent::Locked {
                    restart_required,
                } && restart_required);
            if k < head.len() {
                assert(head[k] == events[k]);
            }
        }
        if message_steered(events) {
            let k = choose|k: int|
                0 <= k < events.len() && ((#[trigger] events[k]) matches UserTurnEvent::Steered(
                    Ok(_),
                ));
            if k < head.len() {
                assert(head[k] == events[k]);
            }
        }
        assert forall|i: int| 0 <= i < done.len() implies #[trigger] actions[i] == done[i]
            && !(done[i] is Finish) by {}
    }
}

/// A message either steers the running turn or starts a task of its own, never both, and on a
/// thread that has to be restarted it does neither and is answered with `TurnAborted`. A turn
/// that it starts bears the id of the submission.
pub proof fn law_message_steers_or_starts_but_not_both(
    request: UserTurnRequest,
    items: Vec<UserInput>,
    events: Seq<UserTurnEvent>,
    i: int,
)
    requires
        user_turn_run(request, items, events) is Some,
        0 <= i < user_turn_run(request, items, events)->Some_0.1.len(),
    ensures
        ({
            let action = user_turn_run(request, items, events)->Some_0.1[i];
            &&& action is SpawnTask ==> !message_fenced(events) && !message_steered(events)
            &&& action matches UserTurnAction::Finish { report, outcome } ==> {
                &&& message_fenced(events) ==> outcome == Err::<UserMessageAdmission, CodexErr>(
                    CodexErr::TurnAborted,
                )
                &&& message_steered(events) <==> (outcome matches Ok(admission)
                    && admission is Steered)
                &&& outcome matches Ok(UserMessageAdmission::Started { turn_id }) ==> turn_id
                    == request.sub_id
                &&& report matches Some(event) ==> event.id == request.sub_id && outcome is Err
            }
        }),
{
    lemma_user_turn_invariant(request, items, events);
}

/// Whether the message of `items` was handed on before the `i`-th action, which answers its
/// sender with `admission`: the running turn was offered exactly the items that the message came
/// with; it took them, or it handed items back and a task was started with those.
pub open spec fn was_handed_on(
    request: UserTurnRequest,
    items: Vec<UserInput>,
    events: Seq<UserTurnEvent>,
    actions: Seq<UserTurnAction>,
    i: int,
    admission: UserMessageAdmission,
) -> bool {
    exists|k: int|
        0 <= k < i && #[trigger] actions[k] == (UserTurnAction::Steer {
            items,
            client_user_message_id: request.client_user_message_id,
        }) && match admission {
            UserMessageAdmission::Steered { turn_id } => events[k] == UserTurnEvent::Steered(
                Ok(turn_id),
            ),
            UserMessageAdmission::Started { turn_id } => turn_id == request.sub_id && (
            events[k] matches UserTurnEvent::Steered(Err(SteerInputError::NoActiveTurn(back)))
                && i > 0 && (actions[i - 1] matches UserTurnAction::SpawnTask {
                items: started_with,
                client_user_message_id,
                ..
            } && started_with == back && client_user_message_id == request.client_user_message_id)
                && (events[i - 1] matches UserTurnEvent::Spawned(outcome) && outcome
                != TaskStartOutcome::RestartRequired)),
        }
}

/// The message was offered to the running turn, which handed `back` items back.
spec fn was_handed_back(
    request: UserTurnRequest,
    items: Vec<UserInput>,
    events: Seq<UserTurnEvent>,
    actions: Seq<UserTurnAction>,
    back: Vec<UserInput>,
) -> bool {
    exists|k: int|
        0 <= k < events.len() && #[trigger] actions[k] == (UserTurnAction::Steer {
            items,
            client_user_message_id: request.client_user_message_id,
        }) && events[k] == UserTurnEvent::Steered(Err(SteerInputError::NoActiveTurn(back)))
}

spec fn message_on_its_way(
    request: UserTurnRequest,
    items: Vec<UserInput>,
    state: UserTurnState,
    events: Seq<UserTurnEvent>,
    actions: Seq<UserTurnAction>,
) -> bool {
    &&& actions.len() == events.len() + 1
    &&& match state {
        UserTurnState::ActiveTurn { request: r, items: held } => r == request && held == items,
        UserTurnState::ConfigReload { request: r, items: held } => r == request && held == items,
        UserTurnState::Context { request: r, items: held } => r == request && held == items,
        UserTurnState::SettingsReport { request: r, items: held } => r == request && held == items,
        UserTurnState::Warnings { request: r, items: held } => r == request && held == items,
        UserTurnState::Steer { request: r } => r == request && actions.last() == (
        UserTurnAction::Steer {
            items,
            client_user_message_id: request.client_user_message_id,
        }),
        UserTurnState::StateLock { request: r, items: back } => r == request && was_handed_back(
            request,
            items,
            events,
            actions,
            back,
        ),
        UserTurnState::AdditionalContext { request: r, items: back } => r == request
            && was_handed_back(request, items, events, actions, back),
        UserTurnState::Spawn { sub_id } => sub_id == request.sub_id && (
        actions.last() matches UserTurnAction::SpawnTask {
            items: back,
            client_user_message_id,
            ..
        } && client_user_message_id == request.client_user_message_id && was_handed_back(
            request,
            items,
            events,
            actions,
            back,
        )),
        UserTurnState::Done => true,
    }
    &&& forall|i: int|
        0 <= i < actions.len() ==> ((#[trigger] actions[i]) matches UserTurnAction::Finish {
            outcome: Ok(admission),
            ..
        } ==> state is Done && was_handed_on(request, items, events, actions, i, admission))
}

proof fn lemma_message_on_its_way(
    request: UserTurnRequest,
    items: Vec<UserInput>,
    events: Seq<UserTurnEvent>,
)
    requires
        user_turn_run(request, items, events) is Some,
    ensures
        ({
            let (state, actions) = user_turn_run(request, items, events)->Some_0;
            message_on_its_way(request, items, state, events, actions)
        }),
    decreases events.len(),
{
    if events.len() > 0 {
        let head = events.drop_last();
        lemma_message_on_its_way(request, items, head);
        let (before, done) = user_turn_run(request, items, head)->Some_0;
        let (after, action) = user_turn_next(before, events.last())->Some_0;
        let actions = done.push(action);
        assert forall|k: int| 0 <= k < head.len() implies #[trigger] events[k] == head[k] by {}
        assert forall|k: int| 0 <= k < done.len() implies #[trigger] actions[k] == done[k] by {}
        assert(actions.last() == action);
        assert(actions[done.len() as int] == action);
        let last = events.len() - 1;
        assert(events[last] == events.last());
        assert(actions[last] == done.last());
        assert forall|back: Vec<UserInput>| #[trigger]
            was_handed_back(request, items, head, done, back) implies was_handed_back(
            request,
            items,
            events,
            actions,
            back,
        ) by {
            let k = choose|k: int|
                0 <= k < head.len() && #[trigger] done[k] == (UserTurnAction::Steer {
                    items,
                    client_user_message_id: request.client_user_message_id,
                }) && head[k] == UserTurnEvent::Steered(Err(SteerInputError::NoActiveTurn(back)));
            assert(actions[k] == done[k] && events[k] == head[k]);
        }
        if before is Steer {
            if let UserTurnEvent::Steered(Err(SteerInputError::NoActiveTurn(back))) = events.last()
            {
                assert(actions[last] == done.last());
                assert(was_handed_back(request, items, events, actions, back));
            }
        }
        if let UserTurnAction::Finish { outcome: Ok(admission), .. } = action {
            let i = done.len() as int;
            if before is Steer {
                assert(actions[last] == done.last());
            } else {
                let back = done.last()->SpawnTask_items;
                assert(was_handed_back(request, items, head, done, back));
                let k = choose|k: int|
                    0 <= k < head.len() && #[trigger] done[k] == (UserTurnAction::Steer {
                        items,
                        client_user_message_id: request.client_user_message_id,
                    }) && head[k] == UserTurnEvent::Steered(
                        Err(SteerInputError::NoActiveTurn(back)),
                    );
                assert(actions[k] == done[k] && events[k] == head[k]);
            }
            assert(was_handed_on(request, items, events, actions, i, admission));
        }
        assert forall|i: int| 0 <= i < done.len() implies !(#[trigger] actions[i] is Finish && (
        actions[i] matches UserTurnAction::Finish { outcome: Ok(_), .. })) by {
            assert(actions[i] == done[i]);
        }
    }
}

/// No message is answered with success unless it was handed on: the running turn was offered the
/// items that the message came with and took them, or a task was started with the items that the
/// turn handed back.
pub proof fn law_admitted_message_was_handed_on(
    request: UserTurnRequest,
    items: Vec<UserInput>,
    events: Seq<UserTurnEvent>,
    i: int,
)
    requires
        user_turn_run(request, items, events) is Some,
        0 <= i < user_turn_run(request, items, events)->Some_0.1.len(),
    ensures
        user_turn_run(request, items, events)->Some_0.1[i] matches UserTurnAction::Finish {
            outcome: Ok(admission),
            ..
        } ==> was_handed_on(
            request,
            items,
            events,
            user_turn_run(request, items, events)->Some_0.1,
            i,
            admission,
        ),
{
    lemma_message_on_its_way(request, items, events);
}

proof fn lemma_user_turn_step(
    request: UserTurnRequest,
    items: Vec<UserInput>,
    events: Seq<UserTurnEvent>,
    event: UserTurnEvent,
)
    requires
        user_turn_run(request, items, events) is Some,
        user_turn_next(user_turn_run(request, items, events)->Some_0.0, event) is Some,
    ensures
        ({
            let (state, actions) = user_turn_run(request, items, events)->Some_0;
            let (next, action) = user_turn_next(state, event)->Some_0;
            user_turn_run(request, items, events.push(event)) == Some((next, actions.push(action)))
        }),
{
    assert(events.push(event).drop_last() =~= events);
}

/// The answers that bring a message to the point where it is offered to the running turn.
pub open spec fn opening_answers(active: bool, has_settings: bool) -> Seq<UserTurnEvent> {
    let reloaded = if active {
        seq![UserTurnEvent::ActiveTurn(true)]
    } else {
        seq![UserTurnEvent::ActiveTurn(false), UserTurnEvent::Reloaded]
    };
    let made = reloaded.push(UserTurnEvent::Context(Ok(())));
    let reported = if has_settings {
        made.push(UserTurnEvent::Reported)
    } else {
        made
    };
    reported.push(UserTurnEvent::Warned)
}

/// What is done by then: an idle session reloads the user's configuration; a turn context is
/// made, with the settings of the message where it has some, which are then reported; the model's
/// warnings are emitted; and the message is offered.
pub open spec fn opening_actions(
    request: UserTurnRequest,
    items: Vec<UserInput>,
    active: bool,
) -> Seq<UserTurnAction> {
    let first = if active {
        seq![UserTurnAction::ReadActiveTurn]
    } else {
        seq![UserTurnAction::ReadActiveTurn, UserTurnAction::ReloadUserConfig]
    };
    let made = first.push(UserTurnAction::NewTurn { with_settings: request.has_settings });
    let reported = if request.has_settings {
        made.push(UserTurnAction::ReportSettingsApplied { sub_id: request.sub_id })
    } else {
        made
    };
    reported + seq![
        UserTurnAction::EmitModelWarnings,
        UserTurnAction::Steer {
            items,
            client_user_message_id: request.client_user_message_id,
        },
    ]
}

proof fn lemma_user_turn_opening(
    request: UserTurnRequest,
    items: Vec<UserInput>,
    active: bool,
)
    ensures
        user_turn_run(request, items, opening_answers(active, request.has_settings)) == Some(
            (UserTurnState::Steer { request }, opening_actions(request, items, active)),
        ),
{
    let e0 = Seq::<UserTurnEvent>::empty();
    let e1 = e0.push(UserTurnEvent::ActiveTurn(active));
    lemma_user_turn_step(request, items, e0, UserTurnEvent::ActiveTurn(active));
    let e2 = if active {
        e1
    } else {
        e1.push(UserTurnEvent::Reloaded)
    };
    if !active {
        lemma_user_turn_step(request, items, e1, UserTurnEvent::Reloaded);
    }
    let e3 = e2.push(UserTurnEvent::Context(Ok(())));
    lemma_user_turn_step(request, items, e2, UserTurnEvent::Context(Ok(())));
    let e4 = if request.has_settings {
        e3.push(UserTurnEvent::Reported)
    } else {
        e3
    };
    if request.has_settings {
        lemma_user_turn_step(request, items, e3, UserTurnEvent::Reported);
    }
    lemma_user_turn_step(request, items, e4, UserTurnEvent::Warned);
    assert(e4.push(UserTurnEvent::Warned) =~= opening_answers(active, request.has_settings));
    assert(user_turn_run(
        request,
        items,
        e4.push(UserTurnEvent::Warned),
    )->Some_0.1 =~= opening_actions(request, items, active));
}

/// A message that the running turn takes is answered with that turn. One that it refuses is
/// reported under the id of the submission, and its sender is told why.
pub proof fn law_message_is_offered_to_the_running_turn(
    request: UserTurnRequest,
    items: Vec<UserInput>,
    active: bool,
    answer: Result<String, SteerInputError>,
)
    ensures
        ({
            let events = opening_answers(active, request.has_settings).push(
                UserTurnEvent::Steered(answer),
            );
            let actions = user_turn_run(request, items, events)->Some_0.1;
            &&& user_turn_run(request, items, events) is Some
            &&& actions.drop_last() == opening_actions(request, items, active)
            &&& answer matches Ok(turn_id) ==> actions.last() == (UserTurnAction::Finish {
                report: None,
                outcome: Ok(UserMessageAdmission::Steered { turn_id }),
            })
            &&& answer matches Err(SteerInputError::Rejected { report, debug }) ==> actions.last()
                == (UserTurnAction::Finish {
                report: Some(Event { id: request.sub_id, msg: report }),
                outcome: Err(CodexErr::InvalidRequest(Reason::UserMessageNotAdmitted(debug))),
            })
        }),
{
    lemma_user_turn_opening(request, items, active);
    lemma_user_turn_step(
        request,
        items,
        opening_answers(active, request.has_settings),
        UserTurnEvent::Steered(answer),
    );
    assert(user_turn_run(
        request,
        items,
        opening_answers(active, request.has_settings).push(UserTurnEvent::Steered(answer)),
    )->Some_0.1.drop_last() =~= opening_actions(request, items, active));
}

/// A message that no running turn takes starts a task with the items that were handed back, after
/// the context that is new to the session, and is answered with a turn of the submission's id,
/// unless the thread has to be restarted.
pub proof fn law_message_starts_a_task_where_no_turn_runs(
    request: UserTurnRequest,
    items: Vec<UserInput>,
    active: bool,
    back: Vec<UserInput>,
    context: Vec<ResponseItem>,
    outcome: TaskStartOutcome,
)
    ensures
        ({
            let events = opening_answers(active, request.has_settings) + seq![
                UserTurnEvent::Steered(Err(SteerInputError::NoActiveTurn(back))),
                UserTurnEvent::Locked { restart_required: false },
                UserTurnEvent::Merged(context),
                UserTurnEvent::Spawned(outcome),
            ];
            &&& user_turn_run(request, items, events) is Some
            &&& user_turn_run(request, items, events)->Some_0.1 == opening_actions(
                request,
                items,
                active,
            ) + seq![
                UserTurnAction::AttributeAndLockState {
                    parent_turn_id: request.parent_turn_id,
                    set_client_metadata: request.has_client_metadata,
                },
                UserTurnAction::MergeAdditionalContext,
                UserTurnAction::SpawnTask {
                    context,
                    items: back,
                    client_user_message_id: request.client_user_message_id,
                },
                UserTurnAction::Finish {
                    report: None,
                    outcome: if outcome is RestartRequired {
                        Err(CodexErr::TurnAborted)
                    } else {
                        Ok(UserMessageAdmission::Started { turn_id: request.sub_id })
                    },
                },
            ]
        }),
{
    lemma_user_turn_opening(request, items, active);
    let e0 = opening_answers(active, request.has_settings);
    let a = UserTurnEvent::Steered(Err(SteerInputError::NoActiveTurn(back)));
    let b = UserTurnEvent::Locked { restart_required: false };
    let c = UserTurnEvent::Merged(context);
    let d = UserTurnEvent::Spawned(outcome);
    lemma_user_turn_step(request, items, e0, a);
    lemma_user_turn_step(request, items, e0.push(a), b);
    lemma_user_turn_step(request, items, e0.push(a).push(b), c);
    lemma_user_turn_step(request, items, e0.push(a).push(b).push(c), d);
    assert(e0.push(a).push(b).push(c).push(d) =~= e0 + seq![a, b, c, d]);
    assert(user_turn_run(request, items, e0 + seq![a, b, c, d])->Some_0.1 =~= opening_actions(
        request,
        items,
        active,
    ) + seq![
        UserTurnAction::AttributeAndLockState {
            parent_turn_id: request.parent_turn_id,
            set_client_metadata: request.has_client_metadata,
        },
        UserTurnAction::MergeAdditionalContext,
        UserTurnAction::SpawnTask {
            context,
            items: back,
            client_user_message_id: request.client_user_message_id,
        },
        UserTurnAction::Finish {
            report: None,
            outcome: if outcome is RestartRequired {
                Err(CodexErr::TurnAborted)
            } else {
                Ok(UserMessageAdmission::Started { turn_id: request.sub_id })
            },
        },
    ]);
}

/// A message that finds no turn on a thread that has to be restarted is refused, with a report
/// under its id; and one for which no turn context can be made ends with that error.
pub proof fn law_message_is_refused_before_it_is_handed_on(
    request: UserTurnRequest,
    items: Vec<UserInput>,
    active: bool,
    back: Vec<UserInput>,
    error: CodexErr,
)
    ensures
        ({
            let events = opening_answers(active, request.has_settings) + seq![
                UserTurnEvent::Steered(Err(SteerInputError::NoActiveTurn(back))),
                UserTurnEvent::Locked { restart_required: true },
            ];
            &&& user_turn_run(request, items, events) is Some
            &&& user_turn_run(request, items, events)->Some_0.1.last() == (UserTurnAction::Finish {
                report: Some(
                    Event {
                        id: request.sub_id,
                        msg: EventMsg::Error {
                            reason: Reason::RestartBeforeTurn,
                            info: CodexErrorInfo::Other,
                        },
                    },
                ),
                outcome: Err(CodexErr::TurnAborted),
            })
        }),
        ({
            let events = if active {
                seq![UserTurnEvent::ActiveTurn(true), UserTurnEvent::Context(Err(error))]
            } else {
                seq![
                    UserTurnEvent::ActiveTurn(false),
                    UserTurnEvent::Reloaded,
                    UserTurnEvent::Context(Err(error)),
                ]
            };
            &&& user_turn_run(request, items, events) is Some
            &&& user_turn_run(request, items, events)->Some_0.1.last() == (UserTurnAction::Finish {
                report: None,
                outcome: Err(error),
            })
        }),
{
    lemma_user_turn_opening(request, items, active);
    let e0 = opening_answers(active, request.has_settings);
    let a = UserTurnEvent::Steered(Err(SteerInputError::NoActiveTurn(back)));
    let b = UserTurnEvent::Locked { restart_required: true };
    lemma_user_turn_step(request, items, e0, a);
    lemma_user_turn_step(request, items, e0.push(a), b);
    assert(e0.push(a).push(b) =~= e0 + seq![a, b]);
    let f0 = Seq::<UserTurnEvent>::empty();
    let f1 = f0.push(UserTurnEvent::ActiveTurn(active));
    lemma_user_turn_step(request, items, f0, UserTurnEvent::ActiveTurn(active));
    let f2 = if active {
        f1
    } else {
        f1.push(UserTurnEvent::Reloaded)
    };
    if !active {
        lemma_user_turn_step(request, items, f1, UserTurnEvent::Reloaded);
    }
    lemma_user_turn_step(request, items, f2, UserTurnEvent::Context(Err(error)));
    assert(f2.push(UserTurnEvent::Context(Err(error))) =~= if active {
        seq![UserTurnEvent::ActiveTurn(true), UserTurnEvent::Context(Err(error))]
    } else {
        seq![
            UserTurnEvent::ActiveTurn(false),
            UserTurnEvent::Reloaded,
            UserTurnEvent::Context(Err(error)),
        ]
    });
}

/// The intake of a message takes an answer exactly where it waits for one of that kind, and none
/// when it is done. It is done exactly when its last word is said.
pub proof fn law_message_takes_only_awaited_answers(
    state: UserTurnState,
    event: UserTurnEvent,
)
    ensures
        user_turn_next(state, event) is Some <==> {
            ||| state is ActiveTurn && event is ActiveTurn
            ||| state is ConfigReload && event is Reloaded
            ||| state is Context && event is Context
            ||| state is SettingsReport && event is Reported
            ||| state is Warnings && event is Warned
            ||| state is Steer && event is Steered
            ||| state is StateLock && event is Locked
            ||| state is AdditionalContext && event is Merged
            ||| state is Spawn && event is Spawned
        },
        user_turn_next(state, event) matches Some((after, action)) ==> (after is Done
            <==> action is Finish),
{
}

/// The intake of a message begins as its run does.
pub proof fn law_user_turn_begins_as_its_run_does(
    request: UserTurnRequest,
    items: Vec<UserInput>,
    res: (UserTurnState, UserTurnAction),
)
    requires
        call_ensures(user_input_or_turn, (request, items), res),
    ensures
        user_turn_run(request, items, Seq::<UserTurnEvent>::empty()) == Some((res.0, seq![res.1])),
{
}

/// The intake of a message that takes a step goes on as its run does, with all that it asked for
/// before; an answer that it does not wait for is handed back, and nothing has changed.
pub proof fn law_user_turn_goes_on_as_its_run_does(
    request: UserTurnRequest,
    items: Vec<UserInput>,
    events: Seq<UserTurnEvent>,
    state: UserTurnState,
    actions: Seq<UserTurnAction>,
    event: UserTurnEvent,
    res: Result<(UserTurnState, UserTurnAction), (UserTurnState, UserTurnEvent)>,
)
    requires
        user_turn_run(request, items, events) == Some((state, actions)),
        call_ensures(step_user_turn, (state, event), res),
    ensures
        match res {
            Ok((next, action)) => user_turn_run(request, items, events.push(event)) == Some(
                (next, actions.push(action)),
            ),
            Err(back) => back == (state, event) && user_turn_run(request, items, events.push(event)) is None,
        },
{
    assert(events.push(event).drop_last() =~= events);
}

/// The task of a message gets its additional context, item by item and in order, and after that
/// the message itself under the client's id, unless there is nothing in it.
pub proof fn law_task_gets_the_context_and_the_message(
    context: Vec<ResponseItem>,
    items: Vec<UserInput>,
    client_user_message_id: Option<String>,
    res: Vec<TurnInput>,
)
    requires
        call_ensures(task_input, (context, items, client_user_message_id), res),
    ensures
        forall|i: int|
            0 <= i < context@.len() ==> #[trigger] res@[i] == TurnInput::ResponseItem(context@[i]),
        items@.len() == 0 ==> res@.len() == context@.len(),
        items@.len() > 0 ==> {
            &&& res@.len() == context@.len() + 1
            &&& res@.last() == (TurnInput::UserInput {
                content: items,
                client_id: client_user_message_id,
            })
        },
{
}

} // verus!
