//! The message by which a supervisor ends its check-in with the agent that it supervises.
use crate::ids::ThreadId;
use crate::protocol::InterAgentCommunication;
use crate::text::blank;
use crate::text::is_blank;
use crate::tools::multi_agents::message_tool::request_of;
use crate::tools::multi_agents::message_tool::MessageDeliveryMode;
use crate::tools::multi_agents::message_tool::SendRequest;
use crate::tools::multi_agents::message_tool::TurnOrigin;
use crate::tools::refusal::FunctionCallError;
use crate::tools::refusal::Refusal;
use vstd::prelude::*;

verus! {

/// Where a tool call comes from.
#[derive(Clone, Debug, PartialEq, Eq)]
pub enum ToolCallSource {
    /// From the model, with arguments that may be encrypted.
    Direct,
    /// From the model, with a message in plain text.
    DirectPlaintextMessage,
    CodeMode { cell_id: String, runtime_tool_call_id: String },
}

/// A message between agents.
#[derive(Clone, Debug, PartialEq, Eq)]
pub enum AgentMessage {
    Plaintext(String),
}

impl AgentMessage {
    /// The message as it is put into a mailbox.
    pub fn into_communication(
        self,
        author: String,
        recipient: String,
        mode: MessageDeliveryMode,
    ) -> (res: InterAgentCommunication)
        ensures
            res.author == author,
            res.recipient == recipient,
            res.other_recipients@.len() == 0,
            res.content == self->Plaintext_0,
            res.encrypted_content is None,
            res.trigger_turn == (mode == MessageDeliveryMode::TriggerTurn),
    {
        match self {
            AgentMessage::Plaintext(content) => InterAgentCommunication {
                author,
                recipient,
                other_recipients: Vec::new(),
                content,
                encrypted_content: None,
                trigger_turn: mode == MessageDeliveryMode::TriggerTurn,
            },
        }
    }
}

/// The message of a follow-up. Arguments that may be encrypted are refused before there is any
/// message.
pub fn plaintext_followup_message(message: String, source: &ToolCallSource) -> (res: Result<
    AgentMessage,
    FunctionCallError,
>)
    ensures
        res == match *source {
            ToolCallSource::Direct => Err::<AgentMessage, FunctionCallError>(
                FunctionCallError::RespondToModel(Refusal::EncryptedFollowup),
            ),
            _ => Ok(AgentMessage::Plaintext(message)),
        },
{
    match source {
        ToolCallSource::Direct => Err(
            FunctionCallError::RespondToModel(Refusal::EncryptedFollowup),
        ),
        _ => Ok(AgentMessage::Plaintext(message)),
    }
}

/// How far a follow-up has come. Each state names what it waits for.
#[allow(inconsistent_fields)]
#[derive(Debug, PartialEq, Eq)]
pub enum FollowupState {
    Parent { caller: ThreadId, sub_id: String, message: AgentMessage },
    Config { caller: ThreadId, sub_id: String, message: AgentMessage, parent: ThreadId },
    Sent,
    Finished,
    Done,
}

/// What has come back.
#[derive(Debug, PartialEq, Eq)]
pub enum FollowupEvent {
    /// The agent that the caller supervises, if it supervises one.
    Parent(Option<ThreadId>),
    /// The configuration is made, and this is what the turn passes on by now.
    Configured(Result<TurnOrigin, String>),
    Sent(Result<(), FunctionCallError>),
    /// Whether the check-in is over.
    Finished(bool),
}

/// What to do next.
#[derive(Debug, PartialEq, Eq)]
pub enum FollowupAction {
    FindParent,
    BuildConfig,
    /// Send the message so that it wakes the parent.
    Send(SendRequest<AgentMessage>),
    /// End the check-in; the message that was accepted is on record by now.
    FinishCheckIn,
    /// The message is delivered, and the model is not asked for more.
    Delivered,
    Fail(FunctionCallError),
}

pub open spec fn followup_failed(refusal: Refusal) -> (FollowupState, FollowupAction) {
    (FollowupState::Done, FollowupAction::Fail(FunctionCallError::RespondToModel(refusal)))
}

/// The first step: the message has to say something, in plain text.
pub open spec fn followup_first(
    caller: ThreadId,
    sub_id: String,
    message: String,
    source: ToolCallSource,
) -> (FollowupState, FollowupAction) {
    if blank(message@) {
        followup_failed(Refusal::EmptyFollowup)
    } else if source is Direct {
        followup_failed(Refusal::EncryptedFollowup)
    } else {
        (
            FollowupState::Parent { caller, sub_id, message: AgentMessage::Plaintext(message) },
            FollowupAction::FindParent,
        )
    }
}

/// The next step, nothing where `event` does not answer what `state` waits for.
pub open spec fn followup_next(state: FollowupState, event: FollowupEvent) -> Option<
    (FollowupState, FollowupAction),
> {
    match (state, event) {
        (FollowupState::Parent { caller, sub_id, message }, FollowupEvent::Parent(parent)) => Some(
            match parent {
                Some(parent) => (
                    FollowupState::Config { caller, sub_id, message, parent },
                    FollowupAction::BuildConfig,
                ),
                None => followup_failed(Refusal::FollowupOutsideCheckIn),
            },
        ),
        (
            FollowupState::Config { caller, sub_id, message, parent },
            FollowupEvent::Configured(result),
        ) => Some(
            match result {
                Ok(origin) => (
                    FollowupState::Sent,
                    FollowupAction::Send(
                        request_of(
                            caller,
                            parent,
                            message,
                            MessageDeliveryMode::TriggerTurn,
                            sub_id,
                            origin,
                        ),
                    ),
                ),
                Err(error) => followup_failed(Refusal::Message(error)),
            },
        ),
        (FollowupState::Sent, FollowupEvent::Sent(result)) => Some(
            match result {
                Ok(()) => (FollowupState::Finished, FollowupAction::FinishCheckIn),
                Err(error) => (FollowupState::Done, FollowupAction::Fail(error)),
            },
        ),
        (FollowupState::Finished, FollowupEvent::Finished(finished)) => Some(
            if finished {
                (FollowupState::Done, FollowupAction::Delivered)
            } else {
                followup_failed(Refusal::FollowupNotFinished)
            },
        ),
        _ => None,
    }
}

fn fail(refusal: Refusal) -> (res: (FollowupState, FollowupAction))
    ensures
        res == followup_failed(refusal),
{
    (FollowupState::Done, FollowupAction::Fail(FunctionCallError::RespondToModel(refusal)))
}

/// Starts to send a follow-up from the turn `sub_id` of `caller`.
pub fn handle_followup_parent(
    caller: ThreadId,
    sub_id: String,
    message: String,
    source: &ToolCallSource,
) -> (res: (FollowupState, FollowupAction))
    ensures
        res == followup_first(caller, sub_id, message, *source),
{
    if is_blank(message.as_str()) {
        return fail(Refusal::EmptyFollowup);
    }
    match plaintext_followup_message(message, source) {
        Ok(message) => (
            FollowupState::Parent { caller, sub_id, message },
            FollowupAction::FindParent,
        ),
        Err(error) => (FollowupState::Done, FollowupAction::Fail(error)),
    }
}

/// Takes the next step. An event that does not answer what the state waits for is handed back.
pub fn step_followup(state: FollowupState, event: FollowupEvent) -> (res: Result<
    (FollowupState, FollowupAction),
    (FollowupState, FollowupEvent),
>)
    ensures
        res == match followup_next(state, event) {
            Some(next) => Ok::<(FollowupState, FollowupAction), (FollowupState, FollowupEvent)>(
                next,
            ),
            None => Err((state, event)),
        },
{
    let next: (FollowupState, FollowupAction) = match (state, event) {
        (FollowupState::Parent { caller, sub_id, message }, FollowupEvent::Parent(parent)) => {
            match parent {
                Some(parent) => (
                    FollowupState::Config { caller, sub_id, message, parent },
                    FollowupAction::BuildConfig,
                ),
                None => fail(Refusal::FollowupOutsideCheckIn),
            }
        },
        (
            FollowupState::Config { caller, sub_id, message, parent },
            FollowupEvent::Configured(result),
        ) => {
            match result {
                Ok(origin) => (
                    FollowupState::Sent,
                    FollowupAction::Send(
                        SendRequest {
                            caller,
                            receiver: parent,
                            message,
                            mode: MessageDeliveryMode::TriggerTurn,
                            parent_turn_id: Some(sub_id),
                            origin,
                        },
                    ),
                ),
                Err(error) => fail(Refusal::Message(error)),
            }
        },
        (FollowupState::Sent, FollowupEvent::Sent(result)) => {
            match result {
                Ok(()) => (FollowupState::Finished, FollowupAction::FinishCheckIn),
                Err(error) => (FollowupState::Done, FollowupAction::Fail(error)),
            }
        },
        (FollowupState::Finished, FollowupEvent::Finished(finished)) => {
            if finished {
                (FollowupState::Done, FollowupAction::Delivered)
            } else {
                fail(Refusal::FollowupNotFinished)
            }
        },
        (state, event) => {
            return Err((state, event));
        },
    };
    Ok(next)
}

/// Arguments that may be encrypted never become a message, and nothing is looked up for them.
pub proof fn law_encrypted_arguments_are_never_sent(
    caller: ThreadId,
    sub_id: String,
    message: String,
)
    ensures
        followup_first(caller, sub_id, message, ToolCallSource::Direct).0 is Done,
        followup_first(caller, sub_id, message, ToolCallSource::Direct).1 is Fail,
        forall|event: FollowupEvent| #[trigger] followup_next(FollowupState::Done, event) is None,
{
}

/// Where a follow-up stands after `events`, and all that it asked for.
pub open spec fn followup_run(
    caller: ThreadId,
    sub_id: String,
    text: String,
    source: ToolCallSource,
    events: Seq<FollowupEvent>,
) -> Option<(FollowupState, Seq<FollowupAction>)>
    decreases events.len(),
{
    if events.len() == 0 {
        let first: (FollowupState, FollowupAction) = followup_first(caller, sub_id, text, source);
        Some((first.0, seq![first.1]))
    } else {
        match followup_run(caller, sub_id, text, source, events.drop_last()) {
            Some((state, actions)) => match followup_next(state, events.last()) {
                Some((next, action)) => Some((next, actions.push(action))),
                None => None,
            },
            None => None,
        }
    }
}

proof fn lemma_followup_step(
    caller: ThreadId,
    sub_id: String,
    text: String,
    source: ToolCallSource,
    events: Seq<FollowupEvent>,
    event: FollowupEvent,
)
    requires
        followup_run(caller, sub_id, text, source, events) is Some,
        followup_next(followup_run(caller, sub_id, text, source, events)->Some_0.0, event) is Some,
    ensures
        ({
            let (state, actions) = followup_run(caller, sub_id, text, source, events)->Some_0;
            let (next, action) = followup_next(state, event)->Some_0;
            followup_run(
                caller,
                sub_id,
                text,
                source,
                events.push(event),
            ) == Some((next, actions.push(action)))
        }),
{
    assert(events.push(event).drop_last() =~= events);
}

/// A follow-up in plain text wakes the agent that the caller supervises with that text, and ends
/// the check-in once it is sent.
pub proof fn law_followup_wakes_the_parent_and_ends_the_check_in(
    caller: ThreadId,
    sub_id: String,
    text: String,
    source: ToolCallSource,
    parent: ThreadId,
    origin: TurnOrigin,
)
    requires
        !blank(text@),
        !(source is Direct),
    ensures
        ({
            let events: Seq<FollowupEvent> = seq![
                FollowupEvent::Parent(Some(parent)),
                FollowupEvent::Configured(Ok(origin)),
                FollowupEvent::Sent(Ok(())),
                FollowupEvent::Finished(true),
            ];
            let run = followup_run(caller, sub_id, text, source, events);
            &&& run is Some
            &&& run->Some_0.1 == seq![
                FollowupAction::FindParent,
                FollowupAction::BuildConfig,
                FollowupAction::Send(
                    SendRequest {
                        caller,
                        receiver: parent,
                        message: AgentMessage::Plaintext(text),
                        mode: MessageDeliveryMode::TriggerTurn,
                        parent_turn_id: Some(sub_id),
                        origin,
                    },
                ),
                FollowupAction::FinishCheckIn,
                FollowupAction::Delivered,
            ]
        }),
{
    let e0 = Seq::<FollowupEvent>::empty();
    lemma_followup_step(caller, sub_id, text, source, e0, FollowupEvent::Parent(Some(parent)));
    let e1 = e0.push(FollowupEvent::Parent(Some(parent)));
    lemma_followup_step(caller, sub_id, text, source, e1, FollowupEvent::Configured(Ok(origin)));
    let e2 = e1.push(FollowupEvent::Configured(Ok(origin)));
    lemma_followup_step(caller, sub_id, text, source, e2, FollowupEvent::Sent(Ok(())));
    let e3 = e2.push(FollowupEvent::Sent(Ok(())));
    lemma_followup_step(caller, sub_id, text, source, e3, FollowupEvent::Finished(true));
    let e4 = e3.push(FollowupEvent::Finished(true));
    assert(e4 =~= seq![
        FollowupEvent::Parent(Some(parent)),
        FollowupEvent::Configured(Ok(origin)),
        FollowupEvent::Sent(Ok(())),
        FollowupEvent::Finished(true),
    ]);
    assert(followup_run(caller, sub_id, text, source, e4)->Some_0.1 =~= seq![
        FollowupAction::FindParent,
        FollowupAction::BuildConfig,
        FollowupAction::Send(
            SendRequest {
                caller,
                receiver: parent,
                message: AgentMessage::Plaintext(text),
                mode: MessageDeliveryMode::TriggerTurn,
                parent_turn_id: Some(sub_id),
                origin,
            },
        ),
        FollowupAction::FinishCheckIn,
        FollowupAction::Delivered,
    ]);
}

/// A follow-up that cannot go on ends with the reason of its first failure: the check-in is ended
/// only after the message was sent.
pub proof fn law_followup_ends_with_its_first_failure(
    caller: ThreadId,
    sub_id: String,
    text: String,
    source: ToolCallSource,
    parent: ThreadId,
    origin: TurnOrigin,
    refusal: FunctionCallError,
    error: String,
)
    requires
        !blank(text@),
        !(source is Direct),
    ensures
        ({
            let events: Seq<FollowupEvent> = seq![FollowupEvent::Parent(None)];
            let run = followup_run(caller, sub_id, text, source, events);
            &&& run is Some
            &&& run->Some_0.1 == seq![
                FollowupAction::FindParent,
                FollowupAction::Fail(
                    FunctionCallError::RespondToModel(Refusal::FollowupOutsideCheckIn),
                ),
            ]
        }),
        ({
            let events: Seq<FollowupEvent> = seq![
                FollowupEvent::Parent(Some(parent)),
                FollowupEvent::Configured(Err(error)),
            ];
            let run = followup_run(caller, sub_id, text, source, events);
            &&& run is Some
            &&& run->Some_0.1 == seq![
                FollowupAction::FindParent,
                FollowupAction::BuildConfig,
                FollowupAction::Fail(FunctionCallError::RespondToModel(Refusal::Message(error))),
            ]
        }),
        ({
            let events: Seq<FollowupEvent> = seq![
                FollowupEvent::Parent(Some(parent)),
                FollowupEvent::Configured(Ok(origin)),
                FollowupEvent::Sent(Err(refusal)),
            ];
            let run = followup_run(caller, sub_id, text, source, events);
            &&& run is Some
            &&& run->Some_0.1 == seq![
                FollowupAction::FindParent,
                FollowupAction::BuildConfig,
                FollowupAction::Send(
                    SendRequest {
                        caller,
                        receiver: parent,
                        message: AgentMessage::Plaintext(text),
                        mode: MessageDeliveryMode::TriggerTurn,
                        parent_turn_id: Some(sub_id),
                        origin,
                    },
                ),
                FollowupAction::Fail(refusal),
            ]
        }),
        ({
            let events: Seq<FollowupEvent> = seq![
                FollowupEvent::Parent(Some(parent)),
                FollowupEvent::Configured(Ok(origin)),
                FollowupEvent::Sent(Ok(())),
                FollowupEvent::Finished(false),
            ];
            let run = followup_run(caller, sub_id, text, source, events);
            &&& run is Some
            &&& run->Some_0.1 == seq![
                FollowupAction::FindParent,
                FollowupAction::BuildConfig,
                FollowupAction::Send(
                    SendRequest {
                        caller,
                        receiver: parent,
                        message: AgentMessage::Plaintext(text),
                        mode: MessageDeliveryMode::TriggerTurn,
                        parent_turn_id: Some(sub_id),
                        origin,
                    },
                ),
                FollowupAction::FinishCheckIn,
                FollowupAction::Fail(
                    FunctionCallError::RespondToModel(Refusal::FollowupNotFinished),
                ),
            ]
        }),
{
    let e0 = Seq::<FollowupEvent>::empty();
    lemma_followup_step(caller, sub_id, text, source, e0, FollowupEvent::Parent(None));
    let e1 = e0.push(FollowupEvent::Parent(None));
    assert(followup_run(caller, sub_id, text, source, e1)->Some_0.1 =~= seq![
        FollowupAction::FindParent,
        FollowupAction::Fail(FunctionCallError::RespondToModel(Refusal::FollowupOutsideCheckIn)),
    ]);
    lemma_followup_step(caller, sub_id, text, source, e0, FollowupEvent::Parent(Some(parent)));
    let e2 = e0.push(FollowupEvent::Parent(Some(parent)));
    lemma_followup_step(caller, sub_id, text, source, e2, FollowupEvent::Configured(Err(error)));
    let e3 = e2.push(FollowupEvent::Configured(Err(error)));
    assert(e3 =~= seq![FollowupEvent::Parent(Some(parent)), FollowupEvent::Configured(Err(error))]);
    assert(followup_run(caller, sub_id, text, source, e3)->Some_0.1 =~= seq![
        FollowupAction::FindParent,
        FollowupAction::BuildConfig,
        FollowupAction::Fail(FunctionCallError::RespondToModel(Refusal::Message(error))),
    ]);
    lemma_followup_step(caller, sub_id, text, source, e2, FollowupEvent::Configured(Ok(origin)));
    let e4 = e2.push(FollowupEvent::Configured(Ok(origin)));
    lemma_followup_step(caller, sub_id, text, source, e4, FollowupEvent::Sent(Err(refusal)));
    let e5 = e4.push(FollowupEvent::Sent(Err(refusal)));
    assert(e5 =~= seq![
        FollowupEvent::Parent(Some(parent)),
        FollowupEvent::Configured(Ok(origin)),
        FollowupEvent::Sent(Err(refusal)),
    ]);
    assert(followup_run(caller, sub_id, text, source, e5)->Some_0.1 =~= seq![
        FollowupAction::FindParent,
        FollowupAction::BuildConfig,
        FollowupAction::Send(
            SendRequest {
                caller,
                receiver: parent,
                message: AgentMessage::Plaintext(text),
                mode: MessageDeliveryMode::TriggerTurn,
                parent_turn_id: Some(sub_id),
                origin,
            },
        ),
        FollowupAction::Fail(refusal),
    ]);
    lemma_followup_step(caller, sub_id, text, source, e4, FollowupEvent::Sent(Ok(())));
    let e6 = e4.push(FollowupEvent::Sent(Ok(())));
    lemma_followup_step(caller, sub_id, text, source, e6, FollowupEvent::Finished(false));
    let e7 = e6.push(FollowupEvent::Finished(false));
    assert(e7 =~= seq![
        FollowupEvent::Parent(Some(parent)),
        FollowupEvent::Configured(Ok(origin)),
        FollowupEvent::Sent(Ok(())),
        FollowupEvent::Finished(false),
    ]);
    assert(followup_run(caller, sub_id, text, source, e7)->Some_0.1 =~= seq![
        FollowupAction::FindParent,
        FollowupAction::BuildConfig,
        FollowupAction::Send(
            SendRequest {
                caller,
                receiver: parent,
                message: AgentMessage::Plaintext(text),
                mode: MessageDeliveryMode::TriggerTurn,
                parent_turn_id: Some(sub_id),
                origin,
            },
        ),
        FollowupAction::FinishCheckIn,
        FollowupAction::Fail(FunctionCallError::RespondToModel(Refusal::FollowupNotFinished)),
    ]);
}

/// A follow-up that says nothing is refused at once, and so is one whose text may be encrypted.
pub proof fn law_unusable_followup_is_refused(
    caller: ThreadId,
    sub_id: String,
    text: String,
    source: ToolCallSource,
)
    ensures
        blank(text@) ==> followup_first(caller, sub_id, text, source) == (
            FollowupState::Done,
            FollowupAction::Fail(FunctionCallError::RespondToModel(Refusal::EmptyFollowup)),
        ),
        !blank(text@) && source is Direct ==> followup_first(caller, sub_id, text, source) == (
            FollowupState::Done,
            FollowupAction::Fail(FunctionCallError::RespondToModel(Refusal::EncryptedFollowup)),
        ),
{
}

/// A follow-up takes an answer exactly where it waits for one of that kind, and none when it is
/// done. It is done exactly when its last word is said.
pub proof fn law_followup_takes_only_awaited_answers(
    state: FollowupState,
    event: FollowupEvent,
)
    ensures
        followup_next(state, event) is Some <==> {
            ||| state is Parent && event is Parent
            ||| state is Config && event is Configured
            ||| state is Sent && event is Sent
            ||| state is Finished && event is Finished
        },
        followup_next(state, event) matches Some((after, action)) ==> (after is Done
            <==> action is Delivered || action is Fail),
{
}

/// A follow-up begins as its run does.
pub proof fn law_followup_begins_as_its_run_does(
    caller: ThreadId,
    sub_id: String,
    text: String,
    source: ToolCallSource,
    res: (FollowupState, FollowupAction),
)
    requires
        call_ensures(handle_followup_parent, (caller, sub_id, text, &source), res),
    ensures
        followup_run(caller, sub_id, text, source, Seq::<FollowupEvent>::empty()) == Some((res.0, seq![res.1])),
{
}

/// A follow-up that takes a step goes on as its run does, with all that it asked for before; an
/// answer that it does not wait for is handed back, and nothing has changed.
pub proof fn law_followup_goes_on_as_its_run_does(
    caller: ThreadId,
    sub_id: String,
    text: String,
    source: ToolCallSource,
    events: Seq<FollowupEvent>,
    state: FollowupState,
    actions: Seq<FollowupAction>,
    event: FollowupEvent,
    res: Result<(FollowupState, FollowupAction), (FollowupState, FollowupEvent)>,
)
    requires
        followup_run(caller, sub_id, text, source, events) == Some((state, actions)),
        call_ensures(step_followup, (state, event), res),
    ensures
        match res {
            Ok((next, action)) => followup_run(caller, sub_id, text, source, events.push(event)) == Some(
                (next, actions.push(action)),
            ),
            Err(back) => back == (state, event) && followup_run(caller, sub_id, text, source, events.push(event)) is None,
        },
{
    assert(events.push(event).drop_last() =~= events);
}

/// A message goes into the mailbox of its recipient in plain text, under its author, and triggers
/// a turn exactly where it is to wake the recipient.
pub proof fn law_message_is_mailed_in_plain_text(
    text: String,
    author: String,
    recipient: String,
    mode: MessageDeliveryMode,
    res: InterAgentCommunication,
)
    requires
        call_ensures(
            AgentMessage::into_communication,
            (AgentMessage::Plaintext(text), author, recipient, mode),
            res,
        ),
    ensures
        res.author == author,
        res.recipient == recipient,
        res.other_recipients@.len() == 0,
        res.content == text,
        res.encrypted_content is None,
        res.trigger_turn <==> mode is TriggerTurn,
{
}

/// Text that may be encrypted becomes no message; any other is the message, word for word.
pub proof fn law_only_plain_text_becomes_a_message(
    message: String,
    source: ToolCallSource,
    res: Result<AgentMessage, FunctionCallError>,
)
    requires
        call_ensures(plaintext_followup_message, (message, &source), res),
    ensures
        source is Direct ==> res == Err::<AgentMessage, FunctionCallError>(
            FunctionCallError::RespondToModel(Refusal::EncryptedFollowup),
        ),
        !(source is Direct) ==> res == Ok::<AgentMessage, FunctionCallError>(
            AgentMessage::Plaintext(message),
        ),
{
}

} // verus!
