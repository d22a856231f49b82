//! Messages from one agent to another, which wake the receiver or wait for it.
use crate::ids::ThreadId;
use crate::protocol::SessionSource;
use crate::protocol::SubAgentSource;
use crate::text::blank;
use crate::text::is_blank;
use crate::text::same_text;
use crate::tools::refusal::FunctionCallError;
use crate::tools::refusal::Refusal;
use vstd::prelude::*;

verus! {

/// Whether a message wakes its receiver.
#[derive(Clone, Copy, Debug, PartialEq, Eq, Structural)]
pub enum MessageDeliveryMode {
    QueueOnly,
    TriggerTurn,
}

/// The message itself, which has to say something.
pub fn message_content(message: String) -> (res: Result<String, FunctionCallError>)
    ensures
        res == if blank(message@) {
            Err::<String, FunctionCallError>(
                FunctionCallError::RespondToModel(Refusal::EmptyMessage),
            )
        } else {
            Ok(message)
        },
{
    if is_blank(message.as_str()) {
        return Err(FunctionCallError::RespondToModel(Refusal::EmptyMessage));
    }
    Ok(message)
}

/// The thread that spawned the agent of a session.
pub open spec fn spawning_thread(source: SessionSource) -> Option<ThreadId> {
    match source {
        SessionSource::SubAgent(SubAgentSource::ThreadSpawn { parent_thread_id, .. }) => Some(
            parent_thread_id,
        ),
        _ => None,
    }
}

pub fn direct_parent_thread_id(session_source: &SessionSource) -> (res: Option<ThreadId>)
    ensures
        res == spawning_thread(*session_source),
{
    match session_source {
        SessionSource::SubAgent(SubAgentSource::ThreadSpawn { parent_thread_id, .. }) => Some(
            *parent_thread_id,
        ),
        _ => None,
    }
}

/// The receiver of a message. A target that resolves is taken as resolved, so that an agent named
/// `parent` can be reached; only else does `parent` stand for the parent.
pub open spec fn receiver_of(
    target: Seq<char>,
    resolved: Result<ThreadId, FunctionCallError>,
    source: SessionSource,
) -> Result<ThreadId, FunctionCallError> {
    match resolved {
        Ok(thread_id) => Ok(thread_id),
        Err(error) => if target == "parent"@ {
            match spawning_thread(source) {
                Some(parent) => Ok(parent),
                None => Err(FunctionCallError::RespondToModel(Refusal::UnknownAgent)),
            }
        } else {
            Err(error)
        },
    }
}

/// Finds the receiver of a message.
pub fn message_receiver(
    target: &str,
    resolved: Result<ThreadId, FunctionCallError>,
    session_source: &SessionSource,
) -> (res: Result<ThreadId, FunctionCallError>)
    ensures
        res == receiver_of(target@, resolved, *session_source),
{
    match resolved {
        Ok(thread_id) => Ok(thread_id),
        Err(error) => {
            if same_text(target, "parent") {
                match direct_parent_thread_id(session_source) {
                    Some(parent) => Ok(parent),
                    None => Err(FunctionCallError::RespondToModel(Refusal::UnknownAgent)),
                }
            } else {
                Err(error)
            }
        },
    }
}

/// What the turn that sends a message passes on to a turn that the message starts. The trigger
/// and the access program are in their serialised form.
#[derive(Clone, Debug, PartialEq, Eq)]
pub struct TurnOrigin {
    pub root_turn_id: Option<String>,
    pub turn_trigger: Option<String>,
    pub cyber_access_program: Option<String>,
}

/// A request to deliver a message. `M` is the message.
#[derive(Clone, Debug, PartialEq, Eq)]
pub struct SendRequest<M> {
    pub caller: ThreadId,
    pub receiver: ThreadId,
    pub message: M,
    pub mode: MessageDeliveryMode,
    /// The turn that a woken receiver is told as its parent.
    pub parent_turn_id: Option<String>,
    pub origin: TurnOrigin,
}

/// The request for a message of the turn `sub_id`: only a message that wakes its receiver names
/// the turn. What the turn passes on goes with every message.
pub open spec fn request_of<M>(
    caller: ThreadId,
    receiver: ThreadId,
    message: M,
    mode: MessageDeliveryMode,
    sub_id: String,
    origin: TurnOrigin,
) -> SendRequest<M> {
    SendRequest {
        caller,
        receiver,
        message,
        mode,
        parent_turn_id: if mode == MessageDeliveryMode::TriggerTurn {
            Some(sub_id)
        } else {
            None
        },
        origin,
    }
}

/// How far a message has come. Each state names what it waits for. `M` is the message as it is
/// delivered.
#[allow(inconsistent_fields)]
#[derive(Debug, PartialEq, Eq)]
pub enum MessageState<M> {
    Message { caller: ThreadId, mode: MessageDeliveryMode, sub_id: String, target: String },
    Receiver {
        caller: ThreadId,
        mode: MessageDeliveryMode,
        sub_id: String,
        target: String,
        message: M,
    },
    Config {
        caller: ThreadId,
        mode: MessageDeliveryMode,
        sub_id: String,
        receiver: ThreadId,
        message: M,
    },
    Sent { receiver: ThreadId },
    Activity,
    Done,
}

/// What has come back.
#[derive(Debug, PartialEq, Eq)]
pub enum MessageEvent<M> {
    /// The message as it is delivered.
    Message(Result<M, FunctionCallError>),
    /// The agent that the target resolves to, and what started the session.
    Resolved(Result<ThreadId, FunctionCallError>, SessionSource),
    /// The configuration is made, and this is what the turn passes on by now.
    Configured(Result<TurnOrigin, String>),
    /// Whether the receiver has an agent path.
    Sent(Result<bool, FunctionCallError>),
    Reported,
}

/// What to do next.
#[derive(Debug, PartialEq, Eq)]
pub enum MessageAction<M> {
    /// Turn the text into a message, as the source of the call demands.
    MakeMessage(String),
    ResolveTarget,
    BuildConfig { receiver: ThreadId },
    Send(SendRequest<M>),
    /// Report that the receiver was interacted with.
    ReportActivity { receiver: ThreadId },
    /// The call ends with an empty answer.
    Finish,
    Fail(FunctionCallError),
}

/// The first step: the message has to say something.
pub open spec fn message_first<M>(
    caller: ThreadId,
    mode: MessageDeliveryMode,
    sub_id: String,
    target: String,
    message: String,
) -> (MessageState<M>, MessageAction<M>) {
    if blank(message@) {
        (
            MessageState::Done,
            MessageAction::Fail(FunctionCallError::RespondToModel(Refusal::EmptyMessage)),
        )
    } else {
        (
            MessageState::Message { caller, mode, sub_id, target },
            MessageAction::MakeMessage(message),
        )
    }
}

/// The next step, nothing where `event` does not answer what `state` waits for.
pub open spec fn message_next<M>(state: MessageState<M>, event: MessageEvent<M>) -> Option<
    (MessageState<M>, MessageAction<M>),
> {
    match (state, event) {
        (
            MessageState::Message { caller, mode, sub_id, target },
            MessageEvent::Message(result),
        ) => Some(
            match result {
                Ok(message) => (
                    MessageState::Receiver { caller, mode, sub_id, target, message },
                    MessageAction::ResolveTarget,
                ),
                Err(error) => (MessageState::Done, MessageAction::Fail(error)),
            },
        ),
        (
            MessageState::Receiver { caller, mode, sub_id, target, message },
            MessageEvent::Resolved(resolved, source),
        ) => Some(
            match receiver_of(target@, resolved, source) {
                Ok(receiver) => (
                    MessageState::Config { caller, mode, sub_id, receiver, message },
                    MessageAction::BuildConfig { receiver },
                ),
                Err(error) => (MessageState::Done, MessageAction::Fail(error)),
            },
        ),
        (
            MessageState::Config { caller, mode, sub_id, receiver, message },
            MessageEvent::Configured(result),
        ) => Some(
            match result {
                Ok(origin) => (
                    MessageState::Sent { receiver },
                    MessageAction::Send(
                        request_of(caller, receiver, message, mode, sub_id, origin),
                    ),
                ),
                Err(error) => (
                    MessageState::Done,
                    MessageAction::Fail(
                        FunctionCallError::RespondToModel(Refusal::Message(error)),
                    ),
                ),
            },
        ),
        (MessageState::Sent { receiver }, MessageEvent::Sent(result)) => Some(
            match result {
                Ok(has_path) => if has_path {
                    (MessageState::Activity, MessageAction::ReportActivity { receiver })
                } else {
                    (
                        MessageState::Done,
                        MessageAction::Fail(
                            FunctionCallError::RespondToModel(Refusal::NoAgentPath),
                        ),
                    )
                },
                Err(error) => (MessageState::Done, MessageAction::Fail(error)),
            },
        ),
        (MessageState::Activity, MessageEvent::Reported) => Some(
            (MessageState::Done, MessageAction::Finish),
        ),
        _ => None,
    }
}

/// Starts to send a message of the turn `sub_id` to `target`.
pub fn handle_message_string_tool<M>(
    caller: ThreadId,
    mode: MessageDeliveryMode,
    sub_id: String,
    target: String,
    message: String,
) -> (res: (MessageState<M>, MessageAction<M>))
    ensures
        res == message_first::<M>(caller, mode, sub_id, target, message),
{
    match message_content(message) {
        Ok(message) => (
            MessageState::Message { caller, mode, sub_id, target },
            MessageAction::MakeMessage(message),
        ),
        Err(error) => (MessageState::Done, MessageAction::Fail(error)),
    }
}

/// Takes the next step. An event that does not answer what the state waits for is handed back.
pub fn step_message<M>(state: MessageState<M>, event: MessageEvent<M>) -> (res: Result<
    (MessageState<M>, MessageAction<M>),
    (MessageState<M>, MessageEvent<M>),
>)
    ensures
        res == match message_next(state, event) {
            Some(next) => Ok::<
                (MessageState<M>, MessageAction<M>),
                (MessageState<M>, MessageEvent<M>),
            >(next),
            None => Err((state, event)),
        },
{
    let next: (MessageState<M>, MessageAction<M>) = match (state, event) {
        (
            MessageState::Message { caller, mode, sub_id, target },
            MessageEvent::Message(result),
        ) => {
            match result {
                Ok(message) => (
                    MessageState::Receiver { caller, mode, sub_id, target, message },
                    MessageAction::ResolveTarget,
                ),
                Err(error) => (MessageState::Done, MessageAction::Fail(error)),
            }
        },
        (
            MessageState::Receiver { caller, mode, sub_id, target, message },
            MessageEvent::Resolved(resolved, source),
        ) => {
            match message_receiver(target.as_str(), resolved, &source) {
                Ok(receiver) => (
                    MessageState::Config { caller, mode, sub_id, receiver, message },
                    MessageAction::BuildConfig { receiver },
                ),
                Err(error) => (MessageState::Done, MessageAction::Fail(error)),
            }
        },
        (
            MessageState::Config { caller, mode, sub_id, receiver, message },
            MessageEvent::Configured(result),
        ) => {
            match result {
                Ok(origin) => {
                    let parent_turn_id: Option<String> = if mode
                        == MessageDeliveryMode::TriggerTurn {
                        Some(sub_id)
                    } else {
                        None
                    };
                    (
                        MessageState::Sent { receiver },
                        MessageAction::Send(
                            SendRequest { caller, receiver, message, mode, parent_turn_id, origin },
                        ),
                    )
                },
                Err(error) => (
                    MessageState::Done,
                    MessageAction::Fail(
                        FunctionCallError::RespondToModel(Refusal::Message(error)),
                    ),
                ),
            }
        },
        (MessageState::Sent { receiver }, MessageEvent::Sent(result)) => {
            match result {
                Ok(has_path) => {
                    if has_path {
                        (MessageState::Activity, MessageAction::ReportActivity { receiver })
                    } else {
                        (
                            MessageState::Done,
                            MessageAction::Fail(
                                FunctionCallError::RespondToModel(Refusal::NoAgentPath),
                            ),
                        )
                    }
                },
                Err(error) => (MessageState::Done, MessageAction::Fail(error)),
            }
        },
        (MessageState::Activity, MessageEvent::Reported) => (
            MessageState::Done,
            MessageAction::Finish,
        ),
        (state, event) => {
            return Err((state, event));
        },
    };
    Ok(next)
}

/// A message names the turn that sent it exactly when it wakes its receiver. What the turn passes
/// on goes with it either way.
pub proof fn law_only_waking_messages_name_their_turn<M>(
    caller: ThreadId,
    receiver: ThreadId,
    message: M,
    mode: MessageDeliveryMode,
    sub_id: String,
    origin: TurnOrigin,
)
    ensures
        ({
            let request = request_of(caller, receiver, message, mode, sub_id, origin);
            &&& request.parent_turn_id is Some <==> mode == MessageDeliveryMode::TriggerTurn
            &&& request.parent_turn_id is Some ==> request.parent_turn_id == Some(sub_id)
            &&& request.receiver == receiver
            &&& request.origin == origin
        }),
{
}

/// An agent that is itself named `parent` is reached by that name, before the parent is.
pub proof fn law_resolved_target_comes_before_the_parent_alias(
    target: Seq<char>,
    thread_id: ThreadId,
    source: SessionSource,
)
    ensures
        receiver_of(target, Ok(thread_id), source) == Ok::<ThreadId, FunctionCallError>(thread_id),
{
}

/// Where a message stands after `events`, and all that it asked for.
pub open spec fn message_run<M>(
    caller: ThreadId,
    mode: MessageDeliveryMode,
    sub_id: String,
    target: String,
    text: String,
    events: Seq<MessageEvent<M>>,
) -> Option<(MessageState<M>, Seq<MessageAction<M>>)>
    decreases events.len(),
{
    if events.len() == 0 {
        let first: (MessageState<M>, MessageAction<M>) = message_first(
            caller,
            mode,
            sub_id,
            target,
            text,
        );
        Some((first.0, seq![first.1]))
    } else {
        match message_run(caller, mode, sub_id, target, text, events.drop_last()) {
            Some((state, actions)) => match message_next(state, events.last()) {
                Some((next, action)) => Some((next, actions.push(action))),
                None => None,
            },
            None => None,
        }
    }
}

proof fn lemma_message_step<M>(
    caller: ThreadId,
    mode: MessageDeliveryMode,
    sub_id: String,
    target: String,
    text: String,
    events: Seq<MessageEvent<M>>,
    event: MessageEvent<M>,
)
    requires
        message_run(caller, mode, sub_id, target, text, events) is Some,
        message_next(
            message_run(caller, mode, sub_id, target, text, events)->Some_0.0,
            event,
        ) is Some,
    ensures
        ({
            let (state, actions) = message_run(caller, mode, sub_id, target, text, events)->Some_0;
            let (next, action) = message_next(state, event)->Some_0;
            message_run(
                caller,
                mode,
                sub_id,
                target,
                text,
                events.push(event),
            ) == Some((next, actions.push(action)))
        }),
{
    assert(events.push(event).drop_last() =~= events);
}

/// A message that wakes its receiver goes to the agent that its target resolves to, and names the
/// turn that sent it.
pub proof fn law_waking_message_is_sent_with_its_turn<M>(
    caller: ThreadId,
    sub_id: String,
    target: String,
    text: String,
    message: M,
    receiver: ThreadId,
    source: SessionSource,
    origin: TurnOrigin,
)
    requires
        !blank(text@),
    ensures
        ({
            let events: Seq<MessageEvent<M>> = seq![
                MessageEvent::Message(Ok(message)),
                MessageEvent::Resolved(Ok(receiver), source),
                MessageEvent::Configured(Ok(origin)),
                MessageEvent::Sent(Ok(true)),
                MessageEvent::Reported,
            ];
            let run = message_run(
                caller,
                MessageDeliveryMode::TriggerTurn,
                sub_id,
                target,
                text,
                events,
            );
            &&& run is Some
            &&& run->Some_0.1 == seq![
                MessageAction::<M>::MakeMessage(text),
                MessageAction::<M>::ResolveTarget,
                MessageAction::<M>::BuildConfig { receiver },
                MessageAction::<M>::Send(
                    SendRequest {
                        caller,
                        receiver,
                        message,
                        mode: MessageDeliveryMode::TriggerTurn,
                        parent_turn_id: Some(sub_id),
                        origin,
                    },
                ),
                MessageAction::<M>::ReportActivity { receiver },
                MessageAction::<M>::Finish,
            ]
        }),
{
    let e0 = Seq::<MessageEvent<M>>::empty();
    lemma_message_step(
        caller,
        MessageDeliveryMode::TriggerTurn,
        sub_id,
        target,
        text,
        e0,
        MessageEvent::Message(Ok(message)),
    );
    let e1 = e0.push(MessageEvent::Message(Ok(message)));
    lemma_message_step(
        caller,
        MessageDeliveryMode::TriggerTurn,
        sub_id,
        target,
        text,
        e1,
        MessageEvent::Resolved(Ok(receiver), source),
    );
    let e2 = e1.push(MessageEvent::Resolved(Ok(receiver), source));
    lemma_message_step(
        caller,
        MessageDeliveryMode::TriggerTurn,
        sub_id,
        target,
        text,
        e2,
        MessageEvent::Configured(Ok(origin)),
    );
    let e3 = e2.push(MessageEvent::Configured(Ok(origin)));
    lemma_message_step(
        caller,
        MessageDeliveryMode::TriggerTurn,
        sub_id,
        target,
        text,
        e3,
        MessageEvent::Sent(Ok(true)),
    );
    let e4 = e3.push(MessageEvent::Sent(Ok(true)));
    lemma_message_step(
        caller,
        MessageDeliveryMode::TriggerTurn,
        sub_id,
        target,
        text,
        e4,
        MessageEvent::Reported,
    );
    let e5 = e4.push(MessageEvent::Reported);
    assert(e5 =~= seq![
        MessageEvent::Message(Ok(message)),
        MessageEvent::Resolved(Ok(receiver), source),
        MessageEvent::Configured(Ok(origin)),
        MessageEvent::Sent(Ok(true)),
        MessageEvent::Reported,
    ]);
    assert(message_run(
        caller,
        MessageDeliveryMode::TriggerTurn,
        sub_id,
        target,
        text,
        e5,
    )->Some_0.1 =~= seq![
        MessageAction::<M>::MakeMessage(text),
        MessageAction::<M>::ResolveTarget,
        MessageAction::<M>::BuildConfig { receiver },
        MessageAction::<M>::Send(
            SendRequest {
                caller,
                receiver,
                message,
                mode: MessageDeliveryMode::TriggerTurn,
                parent_turn_id: Some(sub_id),
                origin,
            },
        ),
        MessageAction::<M>::ReportActivity { receiver },
        MessageAction::<M>::Finish,
    ]);
}

/// A message that waits for its receiver goes to the agent that its target resolves to, and names
/// no turn.
pub proof fn law_quiet_message_is_sent_without_its_turn<M>(
    caller: ThreadId,
    sub_id: String,
    target: String,
    text: String,
    message: M,
    receiver: ThreadId,
    source: SessionSource,
    origin: TurnOrigin,
)
    requires
        !blank(text@),
    ensures
        ({
            let events: Seq<MessageEvent<M>> = seq![
                MessageEvent::Message(Ok(message)),
                MessageEvent::Resolved(Ok(receiver), source),
                MessageEvent::Configured(Ok(origin)),
                MessageEvent::Sent(Ok(true)),
                MessageEvent::Reported,
            ];
            let run = message_run(
                caller,
                MessageDeliveryMode::QueueOnly,
                sub_id,
                target,
                text,
                events,
            );
            &&& run is Some
            &&& run->Some_0.1 == seq![
                MessageAction::<M>::MakeMessage(text),
                MessageAction::<M>::ResolveTarget,
                MessageAction::<M>::BuildConfig { receiver },
                MessageAction::<M>::Send(
                    SendRequest {
                        caller,
                        receiver,
                        message,
                        mode: MessageDeliveryMode::QueueOnly,
                        parent_turn_id: None,
                        origin,
                    },
                ),
                MessageAction::<M>::ReportActivity { receiver },
                MessageAction::<M>::Finish,
            ]
        }),
{
    let e0 = Seq::<MessageEvent<M>>::empty();
    lemma_message_step(
        caller,
        MessageDeliveryMode::QueueOnly,
        sub_id,
        target,
        text,
        e0,
        MessageEvent::Message(Ok(message)),
    );
    let e1 = e0.push(MessageEvent::Message(Ok(message)));
    lemma_message_step(
        caller,
        MessageDeliveryMode::QueueOnly,
        sub_id,
        target,
        text,
        e1,
        MessageEvent::Resolved(Ok(receiver), source),
    );
    let e2 = e1.push(MessageEvent::Resolved(Ok(receiver), source));
    lemma_message_step(
        caller,
        MessageDeliveryMode::QueueOnly,
        sub_id,
        target,
        text,
        e2,
        MessageEvent::Configured(Ok(origin)),
    );
    let e3 = e2.push(MessageEvent::Configured(Ok(origin)));
    lemma_message_step(
        caller,
        MessageDeliveryMode::QueueOnly,
        sub_id,
        target,
        text,
        e3,
        MessageEvent::Sent(Ok(true)),
    );
    let e4 = e3.push(MessageEvent::Sent(Ok(true)));
    lemma_message_step(
        caller,
        MessageDeliveryMode::QueueOnly,
        sub_id,
        target,
        text,
        e4,
        MessageEvent::Reported,
    );
    let e5 = e4.push(MessageEvent::Reported);
    assert(e5 =~= seq![
        MessageEvent::Message(Ok(message)),
        MessageEvent::Resolved(Ok(receiver), source),
        MessageEvent::Configured(Ok(origin)),
        MessageEvent::Sent(Ok(true)),
        MessageEvent::Reported,
    ]);
    assert(message_run(
        caller,
        MessageDeliveryMode::QueueOnly,
        sub_id,
        target,
        text,
        e5,
    )->Some_0.1 =~= seq![
        MessageAction::<M>::MakeMessage(text),
        MessageAction::<M>::ResolveTarget,
        MessageAction::<M>::BuildConfig { receiver },
        MessageAction::<M>::Send(
            SendRequest {
                caller,
                receiver,
                message,
                mode: MessageDeliveryMode::QueueOnly,
                parent_turn_id: None,
                origin,
            },
        ),
        MessageAction::<M>::ReportActivity { receiver },
        MessageAction::<M>::Finish,
    ]);
}

/// Where no agent is named `parent`, the parent is reached by that name.
pub proof fn law_message_to_the_parent_reaches_it<M>(
    caller: ThreadId,
    mode: MessageDeliveryMode,
    sub_id: String,
    target: String,
    text: String,
    message: M,
    receiver: ThreadId,
    depth: i32,
    refusal: FunctionCallError,
)
    requires
        !blank(text@),
        target@ == "parent"@,
    ensures
        ({
            let events: Seq<MessageEvent<M>> = seq![
                MessageEvent::Message(Ok(message)),
                MessageEvent::Resolved(
                    Err(refusal),
                    SessionSource::SubAgent(
                        SubAgentSource::ThreadSpawn { parent_thread_id: receiver, depth },
                    ),
                ),
            ];
            let run = message_run(caller, mode, sub_id, target, text, events);
            &&& run is Some
            &&& run->Some_0.1 == seq![
                MessageAction::<M>::MakeMessage(text),
                MessageAction::<M>::ResolveTarget,
                MessageAction::<M>::BuildConfig { receiver },
            ]
        }),
{
    let e0 = Seq::<MessageEvent<M>>::empty();
    lemma_message_step(caller, mode, sub_id, target, text, e0, MessageEvent::Message(Ok(message)));
    let e1 = e0.push(MessageEvent::Message(Ok(message)));
    lemma_message_step(
        caller,
        mode,
        sub_id,
        target,
        text,
        e1,
        MessageEvent::Resolved(
            Err(refusal),
            SessionSource::SubAgent(
                SubAgentSource::ThreadSpawn { parent_thread_id: receiver, depth },
            ),
        ),
    );
    let e2 = e1.push(
        MessageEvent::Resolved(
            Err(refusal),
            SessionSource::SubAgent(
                SubAgentSource::ThreadSpawn { parent_thread_id: receiver, depth },
            ),
        ),
    );
    assert(e2 =~= seq![
        MessageEvent::Message(Ok(message)),
        MessageEvent::Resolved(
            Err(refusal),
            SessionSource::SubAgent(
                SubAgentSource::ThreadSpawn { parent_thread_id: receiver, depth },
            ),
        ),
    ]);
    assert(message_run(caller, mode, sub_id, target, text, e2)->Some_0.1 =~= seq![
        MessageAction::<M>::MakeMessage(text),
        MessageAction::<M>::ResolveTarget,
        MessageAction::<M>::BuildConfig { receiver },
    ]);
}

/// A message that cannot go on ends with the reason of its first failure.
pub proof fn law_message_ends_with_its_first_failure<M>(
    caller: ThreadId,
    mode: MessageDeliveryMode,
    sub_id: String,
    target: String,
    text: String,
    message: M,
    receiver: ThreadId,
    source: SessionSource,
    origin: TurnOrigin,
    refusal: FunctionCallError,
    error: String,
)
    requires
        !blank(text@),
        target@ != "parent"@,
    ensures
        ({
            let events: Seq<MessageEvent<M>> = seq![MessageEvent::Message(Err(refusal))];
            let run = message_run(caller, mode, sub_id, target, text, events);
            &&& run is Some
            &&& run->Some_0.1 == seq![
                MessageAction::<M>::MakeMessage(text),
                MessageAction::<M>::Fail(refusal),
            ]
        }),
        ({
            let events: Seq<MessageEvent<M>> = seq![
                MessageEvent::Message(Ok(message)),
                MessageEvent::Resolved(Err(refusal), source),
            ];
            let run = message_run(caller, mode, sub_id, target, text, events);
            &&& run is Some
            &&& run->Some_0.1 == seq![
                MessageAction::<M>::MakeMessage(text),
                MessageAction::<M>::ResolveTarget,
                MessageAction::<M>::Fail(refusal),
            ]
        }),
        ({
            let events: Seq<MessageEvent<M>> = seq![
                MessageEvent::Message(Ok(message)),
                MessageEvent::Resolved(Ok(receiver), source),
                MessageEvent::Configured(Err(error)),
            ];
            let run = message_run(caller, mode, sub_id, target, text, events);
            &&& run is Some
            &&& run->Some_0.1 == seq![
                MessageAction::<M>::MakeMessage(text),
                MessageAction::<M>::ResolveTarget,
                MessageAction::<M>::BuildConfig { receiver },
                MessageAction::<M>::Fail(
                    FunctionCallError::RespondToModel(Refusal::Message(error)),
                ),
            ]
        }),
        ({
            let events: Seq<MessageEvent<M>> = seq![
                MessageEvent::Message(Ok(message)),
                MessageEvent::Resolved(Ok(receiver), source),
                MessageEvent::Configured(Ok(origin)),
                MessageEvent::Sent(Err(refusal)),
            ];
            let run = message_run(caller, mode, sub_id, target, text, events);
            &&& run is Some
            &&& run->Some_0.1.last() == (MessageAction::<M>::Fail(refusal))
        }),
        ({
            let events: Seq<MessageEvent<M>> = seq![
                MessageEvent::Message(Ok(message)),
                MessageEvent::Resolved(Ok(receiver), source),
                MessageEvent::Configured(Ok(origin)),
                MessageEvent::Sent(Ok(false)),
            ];
            let run = message_run(caller, mode, sub_id, target, text, events);
            &&& run is Some
            &&& run->Some_0.1.last() == (MessageAction::<M>::Fail(
                FunctionCallError::RespondToModel(Refusal::NoAgentPath),
            ))
        }),
{
    let e0 = Seq::<MessageEvent<M>>::empty();
    lemma_message_step(caller, mode, sub_id, target, text, e0, MessageEvent::Message(Err(refusal)));
    let e1 = e0.push(MessageEvent::Message(Err(refusal)));
    assert(message_run(caller, mode, sub_id, target, text, e1)->Some_0.1 =~= seq![
        MessageAction::<M>::MakeMessage(text),
        MessageAction::<M>::Fail(refusal),
    ]);
    lemma_message_step(caller, mode, sub_id, target, text, e0, MessageEvent::Message(Ok(message)));
    let e2 = e0.push(MessageEvent::Message(Ok(message)));
    lemma_message_step(
        caller,
        mode,
        sub_id,
        target,
        text,
        e2,
        MessageEvent::Resolved(Err(refusal), source),
    );
    let e3 = e2.push(MessageEvent::Resolved(Err(refusal), source));
    assert(
        e3 =~= seq![
            MessageEvent::Message(Ok(message)),
            MessageEvent::Resolved(Err(refusal), source),
        ]
    );
    assert(message_run(caller, mode, sub_id, target, text, e3)->Some_0.1 =~= seq![
        MessageAction::<M>::MakeMessage(text),
        MessageAction::<M>::ResolveTarget,
        MessageAction::<M>::Fail(refusal),
    ]);
    lemma_message_step(
        caller,
        mode,
        sub_id,
        target,
        text,
        e2,
        MessageEvent::Resolved(Ok(receiver), source),
    );
    let e4 = e2.push(MessageEvent::Resolved(Ok(receiver), source));
    lemma_message_step(
        caller,
        mode,
        sub_id,
        target,
        text,
        e4,
        MessageEvent::Configured(Err(error)),
    );
    let e5 = e4.push(MessageEvent::Configured(Err(error)));
    assert(e5 =~= seq![
        MessageEvent::Message(Ok(message)),
        MessageEvent::Resolved(Ok(receiver), source),
        MessageEvent::Configured(Err(error)),
    ]);
    assert(message_run(caller, mode, sub_id, target, text, e5)->Some_0.1 =~= seq![
        MessageAction::<M>::MakeMessage(text),
        MessageAction::<M>::ResolveTarget,
        MessageAction::<M>::BuildConfig { receiver },
        MessageAction::<M>::Fail(FunctionCallError::RespondToModel(Refusal::Message(error))),
    ]);
    lemma_message_step(
        caller,
        mode,
        sub_id,
        target,
        text,
        e4,
        MessageEvent::Configured(Ok(origin)),
    );
    let e6 = e4.push(MessageEvent::Configured(Ok(origin)));
    lemma_message_step(caller, mode, sub_id, target, text, e6, MessageEvent::Sent(Err(refusal)));
    let e7 = e6.push(MessageEvent::Sent(Err(refusal)));
    assert(e7 =~= seq![
        MessageEvent::Message(Ok(message)),
        MessageEvent::Resolved(Ok(receiver), source),
        MessageEvent::Configured(Ok(origin)),
        MessageEvent::Sent(Err(refusal)),
    ]);
    lemma_message_step(caller, mode, sub_id, target, text, e6, MessageEvent::Sent(Ok(false)));
    let e8 = e6.push(MessageEvent::Sent(Ok(false)));
    assert(e8 =~= seq![
        MessageEvent::Message(Ok(message)),
        MessageEvent::Resolved(Ok(receiver), source),
        MessageEvent::Configured(Ok(origin)),
        MessageEvent::Sent(Ok(false)),
    ]);
}

/// A message that says nothing is refused at once.
pub proof fn law_empty_message_is_refused<M>(
    caller: ThreadId,
    mode: MessageDeliveryMode,
    sub_id: String,
    target: String,
    text: String,
)
    requires
        blank(text@),
    ensures
        message_first::<M>(caller, mode, sub_id, target, text) == (
            MessageState::<M>::Done,
            MessageAction::<M>::Fail(FunctionCallError::RespondToModel(Refusal::EmptyMessage)),
        ),
{
}

/// The parent of an agent is the thread that spawned it; no other session has one, and a message
/// to the parent of such a session is refused.
pub proof fn law_only_spawned_agents_have_a_parent(
    source: SessionSource,
    refusal: FunctionCallError,
    parent: ThreadId,
    depth: i32,
)
    ensures
        spawning_thread(
            SessionSource::SubAgent(
                SubAgentSource::ThreadSpawn { parent_thread_id: parent, depth },
            ),
        ) == Some(parent),
        !(source matches SessionSource::SubAgent(SubAgentSource::ThreadSpawn { .. })) ==> {
            &&& spawning_thread(source) is None
            &&& receiver_of("parent"@, Err(refusal), source) == Err::<ThreadId, FunctionCallError>(
                FunctionCallError::RespondToModel(Refusal::UnknownAgent),
            )
        },
{
}

/// A message takes an answer exactly where it waits for one of that kind, and none when it is
/// done. It is done exactly when its last word is said.
pub proof fn law_message_takes_only_awaited_answers<M>(
    state: MessageState<M>,
    event: MessageEvent<M>,
)
    ensures
        message_next(state, event) is Some <==> {
            ||| state is Message && event is Message
            ||| state is Receiver && event is Resolved
            ||| state is Config && event is Configured
            ||| state is Sent && event is Sent
            ||| state is Activity && event is Reported
        },
        message_next(state, event) matches Some((after, action)) ==> (after is Done
            <==> action is Finish || action is Fail),
{
}

/// A message to the parent of an agent that has none is refused, where no agent is named so
/// either.
pub proof fn law_message_to_a_missing_parent_is_refused<M>(
    caller: ThreadId,
    mode: MessageDeliveryMode,
    sub_id: String,
    target: String,
    text: String,
    message: M,
    source: SessionSource,
    refusal: FunctionCallError,
)
    requires
        !blank(text@),
        target@ == "parent"@,
        !(source matches SessionSource::SubAgent(SubAgentSource::ThreadSpawn { .. })),
    ensures
        ({
            let events: Seq<MessageEvent<M>> = seq![
                MessageEvent::Message(Ok(message)),
                MessageEvent::Resolved(Err(refusal), source),
            ];
            let run = message_run(caller, mode, sub_id, target, text, events);
            &&& run is Some
            &&& run->Some_0.1 == seq![
                MessageAction::<M>::MakeMessage(text),
                MessageAction::<M>::ResolveTarget,
                MessageAction::<M>::Fail(FunctionCallError::RespondToModel(Refusal::UnknownAgent)),
            ]
        }),
{
    let e0 = Seq::<MessageEvent<M>>::empty();
    lemma_message_step(caller, mode, sub_id, target, text, e0, MessageEvent::Message(Ok(message)));
    let e1 = e0.push(MessageEvent::Message(Ok(message)));
    lemma_message_step(caller, mode, sub_id, target, text, e1, MessageEvent::Resolved(Err(refusal), source));
    let e2 = e1.push(MessageEvent::Resolved(Err(refusal), source));
    assert(e2 =~= seq![
        MessageEvent::Message(Ok(message)),
        MessageEvent::Resolved(Err(refusal), source),
    ]);
    assert(message_run(caller, mode, sub_id, target, text, e2)->Some_0.1 =~= seq![
        MessageAction::<M>::MakeMessage(text),
        MessageAction::<M>::ResolveTarget,
        MessageAction::<M>::Fail(FunctionCallError::RespondToModel(Refusal::UnknownAgent)),
    ]);
}

/// A message begins as its run does.
pub proof fn law_message_begins_as_its_run_does<M>(
    caller: ThreadId,
    mode: MessageDeliveryMode,
    sub_id: String,
    target: String,
    text: String,
    res: (MessageState<M>, MessageAction<M>),
)
    requires
        call_ensures(handle_message_string_tool::<M>, (caller, mode, sub_id, target, text), res),
    ensures
        message_run(caller, mode, sub_id, target, text, Seq::<MessageEvent<M>>::empty()) == Some((res.0, seq![res.1])),
{
}

/// A message that takes a step goes on as its run does, with all that it asked for before; an
/// answer that it does not wait for is handed back, and nothing has changed.
pub proof fn law_message_goes_on_as_its_run_does<M>(
    caller: ThreadId,
    mode: MessageDeliveryMode,
    sub_id: String,
    target: String,
    text: String,
    events: Seq<MessageEvent<M>>,
    state: MessageState<M>,
    actions: Seq<MessageAction<M>>,
    event: MessageEvent<M>,
    res: Result<(MessageState<M>, MessageAction<M>), (MessageState<M>, MessageEvent<M>)>,
)
    requires
        message_run(caller, mode, sub_id, target, text, events) == Some((state, actions)),
        call_ensures(step_message::<M>, (state, event), res),
    ensures
        match res {
            Ok((next, action)) => message_run(caller, mode, sub_id, target, text, events.push(event)) == Some(
                (next, actions.push(action)),
            ),
            Err(back) => back == (state, event) && message_run(caller, mode, sub_id, target, text, events.push(event)) is None,
        },
{
    assert(events.push(event).drop_last() =~= events);
}

/// A message is delivered in its own words, unless it has none.
pub proof fn law_message_keeps_its_words(message: String, res: Result<String, FunctionCallError>)
    requires
        call_ensures(message_content, (message,), res),
    ensures
        blank(message@) ==> res == Err::<String, FunctionCallError>(
            FunctionCallError::RespondToModel(Refusal::EmptyMessage),
        ),
        !blank(message@) ==> res == Ok::<String, FunctionCallError>(message),
{
}

/// The receiver of a message is the one that its target stands for.
pub proof fn law_receiver_is_whom_the_target_stands_for(
    target: &str,
    resolved: Result<ThreadId, FunctionCallError>,
    source: SessionSource,
    res: Result<ThreadId, FunctionCallError>,
)
    requires
        call_ensures(message_receiver, (target, resolved, &source), res),
    ensures
        res == receiver_of(target@, resolved, source),
        resolved matches Ok(thread_id) ==> res == Ok::<ThreadId, FunctionCallError>(thread_id),
        target@ != "parent"@ ==> res == resolved,
{
}

} // verus!
