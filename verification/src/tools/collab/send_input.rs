//! Sending a message to another agent.
use crate::errors::CodexErr;
use crate::errors::Failure;
use crate::ids::ThreadId;
use crate::protocol::AgentStatus;
use crate::text::blank;
use crate::text::is_blank;
use crate::text::same_text;
use crate::text::trim;
use crate::text::trimmed;
use crate::tools::collab::handler::agent_id;
use crate::tools::collab::handler::agent_refusal;
use crate::tools::collab::handler::collab_agent_error;
use crate::tools::collab::handler::is_agent_id;
use crate::tools::refusal::FunctionCallError;
use crate::tools::refusal::Refusal;
use vstd::prelude::*;

verus! {

/// The arguments of `send_input`.
#[derive(Clone, Debug, PartialEq, Eq)]
pub struct SendInputArgs {
    pub id: Option<String>,
    pub message: String,
    pub interrupt: bool,
}

/// A message that can be sent.
#[derive(Clone, Debug, PartialEq, Eq)]
pub struct SendInputPlan {
    pub receiver: ThreadId,
    pub prompt: String,
    pub interrupt: bool,
}

/// The id of the receiver where one is named; `parent`, `root` and nothing stand for the parent.
pub open spec fn named_receiver(id: Option<String>) -> Option<Seq<char>> {
    match id {
        Some(id) => {
            let name = trimmed(id@);
            if name.len() == 0 || name == "parent"@ || name == "root"@ {
                None
            } else {
                Some(name)
            }
        },
        None => None,
    }
}

/// `res` is the receiver of a message, given the parent of the sender.
pub open spec fn is_receiver(
    id: Option<String>,
    parent: Option<ThreadId>,
    res: Result<ThreadId, FunctionCallError>,
) -> bool {
    match named_receiver(id) {
        Some(name) => is_agent_id(name, res),
        None => res == match parent {
            Some(parent) => Ok::<ThreadId, FunctionCallError>(parent),
            None => Err(FunctionCallError::RespondToModel(Refusal::NoReceiver)),
        },
    }
}

fn receiver(id: &Option<String>, parent: Option<ThreadId>) -> (res: Result<
    ThreadId,
    FunctionCallError,
>)
    ensures
        is_receiver(*id, parent, res),
{
    if let Some(id) = id {
        let name: &str = trim(id.as_str());
        if name.unicode_len() > 0 && !same_text(name, "parent") && !same_text(name, "root") {
            return agent_id(name);
        }
    }
    match parent {
        Some(parent) => Ok(parent),
        None => Err(FunctionCallError::RespondToModel(Refusal::NoReceiver)),
    }
}

/// Decides whether a message can be sent: first who receives it, then whether it says anything.
pub fn handle(args: SendInputArgs, parent: Option<ThreadId>) -> (res: Result<
    SendInputPlan,
    FunctionCallError,
>)
    ensures
        match res {
            Ok(plan) => {
                &&& is_receiver(args.id, parent, Ok(plan.receiver))
                &&& !blank(args.message@)
                &&& plan.prompt == args.message
                &&& plan.interrupt == args.interrupt
            },
            Err(error) => {
                ||| is_receiver(args.id, parent, Err(error))
                ||| {
                    &&& exists|to: ThreadId| is_receiver(args.id, parent, Ok(to))
                    &&& blank(args.message@)
                    &&& error == FunctionCallError::RespondToModel(Refusal::EmptyMessage)
                }
            },
        },
{
    let receiver: ThreadId = match receiver(&args.id, parent) {
        Ok(receiver) => receiver,
        Err(error) => {
            return Err(error);
        },
    };
    if is_blank(args.message.as_str()) {
        return Err(FunctionCallError::RespondToModel(Refusal::EmptyMessage));
    }
    Ok(SendInputPlan { receiver, prompt: args.message, interrupt: args.interrupt })
}

/// How far a message has come. Each state names what it waits for.
#[allow(inconsistent_fields)]
#[derive(Debug, PartialEq, Eq)]
pub enum SendInputState {
    Interrupt { receiver: ThreadId },
    Begin { receiver: ThreadId },
    Sent { receiver: ThreadId },
    Status { receiver: ThreadId, outcome: Result<String, FunctionCallError> },
    End { outcome: Result<String, FunctionCallError> },
    Done,
}

/// What has come back.
#[derive(Debug, PartialEq, Eq)]
pub enum SendInputEvent {
    Interrupted(Result<(), Failure>),
    Reported,
    /// The submission id of the message, or the error and how it is displayed.
    Sent(Result<String, Failure>),
    Status(AgentStatus),
}

/// What to do next.
#[derive(Debug, PartialEq, Eq)]
pub enum SendInputAction {
    InterruptAgent(ThreadId),
    ReportBegin,
    Send(ThreadId),
    ReadStatus(ThreadId),
    ReportEnd { status: AgentStatus },
    /// The turn has sent input to an agent: note that, and report the submission.
    MarkAndFinish(String),
    Fail(FunctionCallError),
}

/// The next step, nothing where `event` does not answer what `state` waits for.
pub open spec fn send_input_next(state: SendInputState, event: SendInputEvent) -> Option<
    (SendInputState, SendInputAction),
> {
    match (state, event) {
        (SendInputState::Interrupt { receiver }, SendInputEvent::Interrupted(result)) => Some(
            match result {
                Ok(()) => (SendInputState::Begin { receiver }, SendInputAction::ReportBegin),
                Err(Failure { error, displayed }) => (
                    SendInputState::Done,
                    SendInputAction::Fail(
                        FunctionCallError::RespondToModel(
                            agent_refusal(receiver, error, displayed),
                        ),
                    ),
                ),
            },
        ),
        (SendInputState::Begin { receiver }, SendInputEvent::Reported) => Some(
            (SendInputState::Sent { receiver }, SendInputAction::Send(receiver)),
        ),
        (SendInputState::Sent { receiver }, SendInputEvent::Sent(result)) => Some(
            (
                SendInputState::Status {
                    receiver,
                    outcome: match result {
                        Ok(submission_id) => Ok(submission_id),
                        Err(Failure { error, displayed }) => Err(
                            FunctionCallError::RespondToModel(
                                agent_refusal(receiver, error, displayed),
                            ),
                        ),
                    },
                },
                SendInputAction::ReadStatus(receiver),
            ),
        ),
        (SendInputState::Status { receiver, outcome }, SendInputEvent::Status(status)) => Some(
            (SendInputState::End { outcome }, SendInputAction::ReportEnd { status }),
        ),
        (SendInputState::End { outcome }, SendInputEvent::Reported) => Some(
            (
                SendInputState::Done,
                match outcome {
                    Ok(submission_id) => SendInputAction::MarkAndFinish(submission_id),
                    Err(error) => SendInputAction::Fail(error),
                },
            ),
        ),
        _ => None,
    }
}

/// Starts to send a message; the receiver is interrupted first where that is asked for.
pub fn start_send_input(plan: &SendInputPlan) -> (res: (SendInputState, SendInputAction))
    ensures
        res == if plan.interrupt {
            (
                SendInputState::Interrupt { receiver: plan.receiver },
                SendInputAction::InterruptAgent(plan.receiver),
            )
        } else {
            (SendInputState::Begin { receiver: plan.receiver }, SendInputAction::ReportBegin)
        },
{
    let receiver: ThreadId = plan.receiver;
    if plan.interrupt {
        (SendInputState::Interrupt { receiver }, SendInputAction::InterruptAgent(receiver))
    } else {
        (SendInputState::Begin { receiver }, SendInputAction::ReportBegin)
    }
}

/// Takes the next step. An event that does not answer what the state waits for is handed back.
pub fn step_send_input(state: SendInputState, event: SendInputEvent) -> (res: Result<
    (SendInputState, SendInputAction),
    (SendInputState, SendInputEvent),
>)
    ensures
        res == match send_input_next(state, event) {
            Some(next) => Ok::<(SendInputState, SendInputAction), (SendInputState, SendInputEvent)>(
                next,
            ),
            None => Err((state, event)),
        },
{
    let next: (SendInputState, SendInputAction) = match (state, event) {
        (SendInputState::Interrupt { receiver }, SendInputEvent::Interrupted(result)) => {
            match result {
                Ok(()) => (SendInputState::Begin { receiver }, SendInputAction::ReportBegin),
                Err(Failure { error, displayed }) => (
                    SendInputState::Done,
                    SendInputAction::Fail(collab_agent_error(receiver, error, displayed)),
                ),
            }
        },
        (SendInputState::Begin { receiver }, SendInputEvent::Reported) => (
            SendInputState::Sent { receiver },
            SendInputAction::Send(receiver),
        ),
        (SendInputState::Sent { receiver }, SendInputEvent::Sent(result)) => {
            let outcome: Result<String, FunctionCallError> = match result {
                Ok(submission_id) => Ok(submission_id),
                Err(Failure { error, displayed }) => Err(collab_agent_error(receiver, error, displayed)),
            };
            (SendInputState::Status { receiver, outcome }, SendInputAction::ReadStatus(receiver))
        },
        (SendInputState::Status { outcome, .. }, SendInputEvent::Status(status)) => (
            SendInputState::End { outcome },
            SendInputAction::ReportEnd { status },
        ),
        (SendInputState::End { outcome }, SendInputEvent::Reported) => (
            SendInputState::Done,
            match outcome {
                Ok(submission_id) => SendInputAction::MarkAndFinish(submission_id),
                Err(error) => SendInputAction::Fail(error),
            },
        ),
        (state, event) => {
            return Err((state, event));
        },
    };
    Ok(next)
}

/// An interrupt that fails ends the call: the message is not sent.
pub proof fn law_failed_interrupt_sends_nothing(
    receiver: ThreadId,
    error: CodexErr,
    displayed: String,
)
    ensures
        send_input_next(
            SendInputState::Interrupt { receiver },
            SendInputEvent::Interrupted(Err(Failure { error, displayed })),
        ) == Some(
            (
                SendInputState::Done,
                SendInputAction::Fail(
                    FunctionCallError::RespondToModel(agent_refusal(receiver, error, displayed)),
                ),
            ),
        ),
        forall|event: SendInputEvent|
            #[trigger] send_input_next(SendInputState::Done, event) is None,
{
}

/// Where the sending of a message stands after `events`, and all that it asked for.
pub open spec fn send_input_run(
    receiver: ThreadId,
    interrupt: bool,
    events: Seq<SendInputEvent>,
) -> Option<(SendInputState, Seq<SendInputAction>)>
    decreases events.len(),
{
    if events.len() == 0 {
        let first: (SendInputState, SendInputAction) = if interrupt {
            (SendInputState::Interrupt { receiver }, SendInputAction::InterruptAgent(receiver))
        } else {
            (SendInputState::Begin { receiver }, SendInputAction::ReportBegin)
        };
        Some((first.0, seq![first.1]))
    } else {
        match send_input_run(receiver, interrupt, events.drop_last()) {
            Some((state, actions)) => match send_input_next(state, events.last()) {
                Some((next, action)) => Some((next, actions.push(action))),
                None => None,
            },
            None => None,
        }
    }
}

proof fn lemma_send_input_step(
    receiver: ThreadId,
    interrupt: bool,
    events: Seq<SendInputEvent>,
    event: SendInputEvent,
)
    requires
        send_input_run(receiver, interrupt, events) is Some,
        send_input_next(send_input_run(receiver, interrupt, events)->Some_0.0, event) is Some,
    ensures
        ({
            let (state, actions) = send_input_run(receiver, interrupt, events)->Some_0;
            let (next, action) = send_input_next(state, event)->Some_0;
            send_input_run(
                receiver,
                interrupt,
                events.push(event),
            ) == Some((next, actions.push(action)))
        }),
{
    assert(events.push(event).drop_last() =~= events);
}

/// A message goes to its receiver and to no one else; how the receiver is doing is reported before
/// the call ends with the submission, or with the failure to send.
pub proof fn law_message_is_sent_to_its_receiver(
    receiver: ThreadId,
    submission_id: String,
    status: AgentStatus,
    error: CodexErr,
    displayed: String,
)
    ensures
        ({
            let events: Seq<SendInputEvent> = seq![
                SendInputEvent::Reported,
                SendInputEvent::Sent(Ok(submission_id)),
                SendInputEvent::Status(status),
                SendInputEvent::Reported,
            ];
            let run = send_input_run(receiver, false, events);
            &&& run is Some
            &&& run->Some_0.1 == seq![
                SendInputAction::ReportBegin,
                SendInputAction::Send(receiver),
                SendInputAction::ReadStatus(receiver),
                SendInputAction::ReportEnd { status },
                SendInputAction::MarkAndFinish(submission_id),
            ]
        }),
        ({
            let events: Seq<SendInputEvent> = seq![
                SendInputEvent::Reported,
                SendInputEvent::Sent(Err(Failure { error, displayed })),
                SendInputEvent::Status(status),
                SendInputEvent::Reported,
            ];
            let run = send_input_run(receiver, false, events);
            &&& run is Some
            &&& run->Some_0.1 == seq![
                SendInputAction::ReportBegin,
                SendInputAction::Send(receiver),
                SendInputAction::ReadStatus(receiver),
                SendInputAction::ReportEnd { status },
                SendInputAction::Fail(
                    FunctionCallError::RespondToModel(agent_refusal(receiver, error, displayed)),
                ),
            ]
        }),
{
    let e0 = Seq::<SendInputEvent>::empty();
    lemma_send_input_step(receiver, false, e0, SendInputEvent::Reported);
    let e1 = e0.push(SendInputEvent::Reported);
    lemma_send_input_step(receiver, false, e1, SendInputEvent::Sent(Ok(submission_id)));
    let e2 = e1.push(SendInputEvent::Sent(Ok(submission_id)));
    lemma_send_input_step(receiver, false, e2, SendInputEvent::Status(status));
    let e3 = e2.push(SendInputEvent::Status(status));
    lemma_send_input_step(receiver, false, e3, SendInputEvent::Reported);
    let e4 = e3.push(SendInputEvent::Reported);
    assert(e4 =~= seq![
        SendInputEvent::Reported,
        SendInputEvent::Sent(Ok(submission_id)),
        SendInputEvent::Status(status),
        SendInputEvent::Reported,
    ]);
    assert(send_input_run(receiver, false, e4)->Some_0.1 =~= seq![
        SendInputAction::ReportBegin,
        SendInputAction::Send(receiver),
        SendInputAction::ReadStatus(receiver),
        SendInputAction::ReportEnd { status },
        SendInputAction::MarkAndFinish(submission_id),
    ]);
    lemma_send_input_step(
        receiver,
        false,
        e1,
        SendInputEvent::Sent(Err(Failure { error, displayed })),
    );
    let e5 = e1.push(SendInputEvent::Sent(Err(Failure { error, displayed })));
    lemma_send_input_step(receiver, false, e5, SendInputEvent::Status(status));
    let e6 = e5.push(SendInputEvent::Status(status));
    lemma_send_input_step(receiver, false, e6, SendInputEvent::Reported);
    let e7 = e6.push(SendInputEvent::Reported);
    assert(e7 =~= seq![
        SendInputEvent::Reported,
        SendInputEvent::Sent(Err(Failure { error, displayed })),
        SendInputEvent::Status(status),
        SendInputEvent::Reported,
    ]);
    assert(send_input_run(receiver, false, e7)->Some_0.1 =~= seq![
        SendInputAction::ReportBegin,
        SendInputAction::Send(receiver),
        SendInputAction::ReadStatus(receiver),
        SendInputAction::ReportEnd { status },
        SendInputAction::Fail(
            FunctionCallError::RespondToModel(agent_refusal(receiver, error, displayed)),
        ),
    ]);
}

/// A message that interrupts stops its receiver before it is sent; where that fails, nothing is
/// sent or reported.
pub proof fn law_interrupting_message_stops_its_receiver_first(
    receiver: ThreadId,
    submission_id: String,
    status: AgentStatus,
    error: CodexErr,
    displayed: String,
)
    ensures
        ({
            let events: Seq<SendInputEvent> = seq![
                SendInputEvent::Interrupted(Ok(())),
                SendInputEvent::Reported,
                SendInputEvent::Sent(Ok(submission_id)),
                SendInputEvent::Status(status),
                SendInputEvent::Reported,
            ];
            let run = send_input_run(receiver, true, events);
            &&& run is Some
            &&& run->Some_0.1 == seq![
                SendInputAction::InterruptAgent(receiver),
                SendInputAction::ReportBegin,
                SendInputAction::Send(receiver),
                SendInputAction::ReadStatus(receiver),
                SendInputAction::ReportEnd { status },
                SendInputAction::MarkAndFinish(submission_id),
            ]
        }),
        ({
            let events: Seq<SendInputEvent> = seq![
                SendInputEvent::Interrupted(Ok(())),
                SendInputEvent::Reported,
                SendInputEvent::Sent(Err(Failure { error, displayed })),
                SendInputEvent::Status(status),
                SendInputEvent::Reported,
            ];
            let run = send_input_run(receiver, true, events);
            &&& run is Some
            &&& run->Some_0.1 == seq![
                SendInputAction::InterruptAgent(receiver),
                SendInputAction::ReportBegin,
                SendInputAction::Send(receiver),
                SendInputAction::ReadStatus(receiver),
                SendInputAction::ReportEnd { status },
                SendInputAction::Fail(
                    FunctionCallError::RespondToModel(agent_refusal(receiver, error, displayed)),
                ),
            ]
        }),
        ({
            let events: Seq<SendInputEvent> = seq![
                SendInputEvent::Interrupted(Err(Failure { error, displayed })),
            ];
            let run = send_input_run(receiver, true, events);
            &&& run is Some
            &&& run->Some_0.1 == seq![
                SendInputAction::InterruptAgent(receiver),
                SendInputAction::Fail(
                    FunctionCallError::RespondToModel(agent_refusal(receiver, error, displayed)),
                ),
            ]
        }),
{
    let e0 = Seq::<SendInputEvent>::empty();
    lemma_send_input_step(receiver, true, e0, SendInputEvent::Interrupted(Ok(())));
    let e1 = e0.push(SendInputEvent::Interrupted(Ok(())));
    lemma_send_input_step(receiver, true, e1, SendInputEvent::Reported);
    let e2 = e1.push(SendInputEvent::Reported);
    lemma_send_input_step(receiver, true, e2, SendInputEvent::Sent(Ok(submission_id)));
    let e3 = e2.push(SendInputEvent::Sent(Ok(submission_id)));
    lemma_send_input_step(receiver, true, e3, SendInputEvent::Status(status));
    let e4 = e3.push(SendInputEvent::Status(status));
    lemma_send_input_step(receiver, true, e4, SendInputEvent::Reported);
    let e5 = e4.push(SendInputEvent::Reported);
    assert(e5 =~= seq![
        SendInputEvent::Interrupted(Ok(())),
        SendInputEvent::Reported,
        SendInputEvent::Sent(Ok(submission_id)),
        SendInputEvent::Status(status),
        SendInputEvent::Reported,
    ]);
    assert(send_input_run(receiver, true, e5)->Some_0.1 =~= seq![
        SendInputAction::InterruptAgent(receiver),
        SendInputAction::ReportBegin,
        SendInputAction::Send(receiver),
        SendInputAction::ReadStatus(receiver),
        SendInputAction::ReportEnd { status },
        SendInputAction::MarkAndFinish(submission_id),
    ]);
    lemma_send_input_step(
        receiver,
        true,
        e2,
        SendInputEvent::Sent(Err(Failure { error, displayed })),
    );
    let e6 = e2.push(SendInputEvent::Sent(Err(Failure { error, displayed })));
    lemma_send_input_step(receiver, true, e6, SendInputEvent::Status(status));
    let e7 = e6.push(SendInputEvent::Status(status));
    lemma_send_input_step(receiver, true, e7, SendInputEvent::Reported);
    let e8 = e7.push(SendInputEvent::Reported);
    assert(e8 =~= seq![
        SendInputEvent::Interrupted(Ok(())),
        SendInputEvent::Reported,
        SendInputEvent::Sent(Err(Failure { error, displayed })),
        SendInputEvent::Status(status),
        SendInputEvent::Reported,
    ]);
    assert(send_input_run(receiver, true, e8)->Some_0.1 =~= seq![
        SendInputAction::InterruptAgent(receiver),
        SendInputAction::ReportBegin,
        SendInputAction::Send(receiver),
        SendInputAction::ReadStatus(receiver),
        SendInputAction::ReportEnd { status },
        SendInputAction::Fail(
            FunctionCallError::RespondToModel(agent_refusal(receiver, error, displayed)),
        ),
    ]);
    lemma_send_input_step(
        receiver,
        true,
        e0,
        SendInputEvent::Interrupted(Err(Failure { error, displayed })),
    );
    let e9 = e0.push(SendInputEvent::Interrupted(Err(Failure { error, displayed })));
    assert(send_input_run(receiver, true, e9)->Some_0.1 =~= seq![
        SendInputAction::InterruptAgent(receiver),
        SendInputAction::Fail(
            FunctionCallError::RespondToModel(agent_refusal(receiver, error, displayed)),
        ),
    ]);
}

/// The sending of a message takes an answer exactly where it waits for one of that kind, and none
/// when it is done. It is done exactly when its last word is said.
pub proof fn law_sending_takes_only_awaited_answers(
    state: SendInputState,
    event: SendInputEvent,
)
    ensures
        send_input_next(state, event) is Some <==> {
            ||| state is Interrupt && event is Interrupted
            ||| state is Begin && event is Reported
            ||| state is Sent && event is Sent
            ||| state is Status && event is Status
            ||| state is End && event is Reported
        },
        send_input_next(state, event) matches Some((after, action)) ==> (after is Done
            <==> action is MarkAndFinish || action is Fail),
{
}

/// A receiver that is not named, or named `parent` or `root`, is the parent of the sender, whom a
/// sender without a parent cannot reach; any other name has to be the id of an agent.
pub proof fn law_message_without_a_name_goes_to_the_parent(
    id: String,
    parent: ThreadId,
    res: Result<ThreadId, FunctionCallError>,
)
    ensures
        is_receiver(None, Some(parent), res) <==> res == Ok::<ThreadId, FunctionCallError>(parent),
        is_receiver(None, None, res) <==> res == Err::<ThreadId, FunctionCallError>(
            FunctionCallError::RespondToModel(Refusal::NoReceiver),
        ),
        blank(id@) || trimmed(id@) == "parent"@ || trimmed(id@) == "root"@ ==> {
            &&& is_receiver(Some(id), Some(parent), res) <==> is_receiver(None, Some(parent), res)
            &&& is_receiver(Some(id), None, res) <==> is_receiver(None, None, res)
        },
        !blank(id@) && trimmed(id@) != "parent"@ && trimmed(id@) != "root"@ ==> {
            &&& is_receiver(Some(id), Some(parent), res) <==> is_agent_id(trimmed(id@), res)
            &&& is_receiver(Some(id), None, res) <==> is_agent_id(trimmed(id@), res)
        },
{
    crate::text::lemma_blank_is_trimmed_empty(id@);
}

/// The sending of a message begins as its run does.
pub proof fn law_send_input_begins_as_its_run_does(
    plan: SendInputPlan,
    res: (SendInputState, SendInputAction),
)
    requires
        call_ensures(start_send_input, (&plan,), res),
    ensures
        send_input_run(plan.receiver, plan.interrupt, Seq::<SendInputEvent>::empty()) == Some((res.0, seq![res.1])),
{
}

/// The sending of a message that takes a step goes on as its run does, with all that it asked for
/// before; an answer that it does not wait for is handed back, and nothing has changed.
pub proof fn law_send_input_goes_on_as_its_run_does(
    plan: SendInputPlan,
    events: Seq<SendInputEvent>,
    state: SendInputState,
    actions: Seq<SendInputAction>,
    event: SendInputEvent,
    res: Result<(SendInputState, SendInputAction), (SendInputState, SendInputEvent)>,
)
    requires
        send_input_run(plan.receiver, plan.interrupt, events) == Some((state, actions)),
        call_ensures(step_send_input, (state, event), res),
    ensures
        match res {
            Ok((next, action)) => send_input_run(plan.receiver, plan.interrupt, events.push(event)) == Some(
                (next, actions.push(action)),
            ),
            Err(back) => back == (state, event) && send_input_run(plan.receiver, plan.interrupt, events.push(event)) is None,
        },
{
    assert(events.push(event).drop_last() =~= events);
}

/// A message is planned for its receiver with the words and the interrupt of the call. It is
/// refused where there is no such receiver, and else where it says nothing.
pub proof fn law_message_is_planned_as_asked(
    args: SendInputArgs,
    parent: Option<ThreadId>,
    res: Result<SendInputPlan, FunctionCallError>,
    to: ThreadId,
)
    requires
        call_ensures(handle, (args, parent), res),
        is_receiver(args.id, parent, Ok(to)),
    ensures
        blank(args.message@) ==> res == Err::<SendInputPlan, FunctionCallError>(
            FunctionCallError::RespondToModel(Refusal::EmptyMessage),
        ),
        !blank(args.message@) ==> res == Ok::<SendInputPlan, FunctionCallError>(
            SendInputPlan { receiver: to, prompt: args.message, interrupt: args.interrupt },
        ),
{
}

} // verus!
