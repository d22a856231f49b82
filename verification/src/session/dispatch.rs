//! Sending each submission to its handler, under the checkpoint admission and the restart fence.
use crate::errors::CodexErr;
use crate::errors::CodexErrorInfo;
use crate::errors::Reason;
use crate::protocol::Event;
use crate::protocol::EventMsg;
use crate::protocol::InterAgentCommunication;
use vstd::prelude::*;

verus! {

/// What a user decided on a request.
#[derive(Clone, Debug, PartialEq, Eq)]
pub enum ReviewDecision {
    Approved,
    /// Approved, together with a change of the execution policy.
    ApprovedExecpolicyAmendment { proposed_execpolicy_amendment: String },
    Denied,
    Abort,
    /// Any other decision, in its serialised form.
    Other { json: String },
}

/// Whether memories may be made from a thread.
#[derive(Clone, Copy, Debug, PartialEq, Eq, Structural)]
pub enum ThreadMemoryMode {
    Enabled,
    Disabled,
}

/// How an elicitation was answered.
#[derive(Clone, Copy, Debug, PartialEq, Eq, Structural)]
pub enum ElicitationAction {
    Accept,
    Decline,
    Cancel,
}

/// The identity of a request to a client.
#[derive(Clone, Debug, PartialEq, Eq)]
pub enum RequestId {
    String(String),
    Integer(i64),
}

/// How a guardian assessment ended.
#[derive(Clone, Copy, Debug, PartialEq, Eq, Structural)]
pub enum GuardianAssessmentStatus {
    InProgress,
    Approved,
    Denied,
    Aborted,
}

/// A guardian's assessment of an action.
#[derive(Clone, Debug, PartialEq, Eq)]
pub struct GuardianAssessmentEvent {
    pub id: String,
    pub status: GuardianAssessmentStatus,
    /// The assessed action, as a JSON text.
    pub action: String,
}

/// What a client asks of a session. `P` stands for what the session only hands on.
#[derive(Clone, Debug, PartialEq, Eq)]
pub enum Op<P> {
    Interrupt,
    CleanBackgroundTerminals,
    RealtimeConversationStart(P),
    RealtimeConversationAudio(P),
    RealtimeConversationText(P),
    RealtimeConversationSpeech(P),
    RealtimeConversationClose,
    RealtimeConversationListVoices,
    UserInput(P),
    ThreadSettings { thread_settings: P },
    InterAgentCommunication { communication: InterAgentCommunication },
    ExecApproval { id: String, turn_id: Option<String>, decision: ReviewDecision },
    PatchApproval { id: String, decision: ReviewDecision },
    UserInputAnswer { id: String, response: P },
    RequestPermissionsResponse { id: String, response: P },
    DynamicToolResponse { id: String, response: P },
    RefreshMcpServers,
    ReloadUserConfig,
    Compact,
    ThreadRollback { num_turns: u32 },
    SetThreadMemoryMode { mode: ThreadMemoryMode },
    RunUserShellCommand { command: String },
    ResolveElicitation {
        server_name: String,
        request_id: RequestId,
        decision: ElicitationAction,
        content: Option<P>,
        meta: Option<P>,
    },
    Shutdown,
    Review { review_request: P },
    ApproveGuardianDeniedAction { event: GuardianAssessmentEvent },
    /// An operation that this version does not know.
    Unknown(P),
}

/// A request to a session.
#[derive(Clone, Debug, PartialEq, Eq)]
pub struct Submission<P> {
    pub id: String,
    pub op: Op<P>,
    pub client_user_message_id: Option<String>,
    pub parent_turn_id: Option<String>,
}

/// The handler of a submission, with what it is called with. `A` is the checkpoint admission.
#[allow(inconsistent_fields)]
#[derive(Clone, Debug, PartialEq, Eq)]
pub enum Handler<P, A> {
    Interrupt,
    CleanBackgroundTerminals,
    RealtimeStart { sub_id: String, params: P },
    RealtimeAudio { sub_id: String, params: P },
    RealtimeText { sub_id: String, params: P },
    RealtimeSpeech { sub_id: String, params: P },
    RealtimeClose { sub_id: String },
    RealtimeListVoices { sub_id: String },
    UserInputOrTurn {
        sub_id: String,
        op: P,
        client_user_message_id: Option<String>,
        parent_turn_id: Option<String>,
    },
    UpdateThreadSettings { sub_id: String, thread_settings: P },
    InterAgentCommunication {
        sub_id: String,
        communication: InterAgentCommunication,
        parent_turn_id: Option<String>,
    },
    ExecApproval { approval_id: String, turn_id: Option<String>, decision: ReviewDecision },
    PatchApproval { id: String, decision: ReviewDecision },
    RequestUserInputResponse { id: String, response: P },
    RequestPermissionsResponse { id: String, response: P },
    DynamicToolResponse { id: String, response: P },
    RefreshMcpServers,
    ReloadUserConfig,
    Compact { sub_id: String },
    ThreadRollback { sub_id: String, num_turns: u32, admission: A },
    /// The rollback holds no admission: this report is all that happens.
    RollbackNotAdmitted { event: Event },
    SetThreadMemoryMode { sub_id: String, mode: ThreadMemoryMode },
    RunUserShellCommand { sub_id: String, command: String },
    ResolveElicitation {
        server_name: String,
        request_id: RequestId,
        decision: ElicitationAction,
        content: Option<P>,
        meta: Option<P>,
    },
    Shutdown { sub_id: String },
    Review { sub_id: String, review_request: P },
    ApproveGuardianDeniedAction { event: GuardianAssessmentEvent },
    Ignore,
}

/// What is done with a submission. `K` is what its sender waits on for an admission.
#[derive(Clone, Debug, PartialEq, Eq)]
pub enum Dispatch<P, A, K> {
    /// The thread has to be restarted. The waiting user message, if the submission is one, and
    /// the waiting sender are both told `error`, and the event is delivered without being saved.
    Refused {
        failed_user_message: Option<String>,
        acknowledgement: Option<K>,
        error: CodexErr,
        event: Event,
    },
    /// The handler runs; the admission, where there is one, covers it.
    Run { handler: Handler<P, A>, admission: Option<A>, acknowledgement: Option<K> },
}

/// Whether the restart fence stops an operation.
pub open spec fn is_fenced<P>(op: Op<P>, restart_required: bool) -> bool {
    restart_required && !(op is Shutdown)
}

/// The handler of `sub`; a rollback takes the admission along.
pub open spec fn handler_for<P, A>(sub: Submission<P>, admission: Option<A>) -> Handler<P, A> {
    match sub.op {
        Op::Interrupt => Handler::Interrupt,
        Op::CleanBackgroundTerminals => Handler::CleanBackgroundTerminals,
        Op::RealtimeConversationStart(params) => Handler::RealtimeStart { sub_id: sub.id, params },
        Op::RealtimeConversationAudio(params) => Handler::RealtimeAudio { sub_id: sub.id, params },
        Op::RealtimeConversationText(params) => Handler::RealtimeText { sub_id: sub.id, params },
        Op::RealtimeConversationSpeech(params) => Handler::RealtimeSpeech {
            sub_id: sub.id,
            params,
        },
        Op::RealtimeConversationClose => Handler::RealtimeClose { sub_id: sub.id },
        Op::RealtimeConversationListVoices => Handler::RealtimeListVoices { sub_id: sub.id },
        Op::UserInput(op) => Handler::UserInputOrTurn {
            sub_id: sub.id,
            op,
            client_user_message_id: sub.client_user_message_id,
            parent_turn_id: sub.parent_turn_id,
        },
        Op::ThreadSettings { thread_settings } => Handler::UpdateThreadSettings {
            sub_id: sub.id,
            thread_settings,
        },
        Op::InterAgentCommunication { communication } => Handler::InterAgentCommunication {
            sub_id: sub.id,
            communication,
            parent_turn_id: sub.parent_turn_id,
        },
        Op::ExecApproval { id, turn_id, decision } => Handler::ExecApproval {
            approval_id: id,
            turn_id,
            decision,
        },
        Op::PatchApproval { id, decision } => Handler::PatchApproval { id, decision },
        Op::UserInputAnswer { id, response } => Handler::RequestUserInputResponse { id, response },
        Op::RequestPermissionsResponse { id, response } => Handler::RequestPermissionsResponse {
            id,
            response,
        },
        Op::DynamicToolResponse { id, response } => Handler::DynamicToolResponse { id, response },
        Op::RefreshMcpServers => Handler::RefreshMcpServers,
        Op::ReloadUserConfig => Handler::ReloadUserConfig,
        Op::Compact => Handler::Compact { sub_id: sub.id },
        Op::ThreadRollback { num_turns } => match admission {
            Some(admission) => Handler::ThreadRollback { sub_id: sub.id, num_turns, admission },
            None => Handler::RollbackNotAdmitted {
                event: Event {
                    id: sub.id,
                    msg: EventMsg::Error {
                        reason: Reason::RollbackAdmissionMissing,
                        info: CodexErrorInfo::ThreadRollbackFailed,
                    },
                },
            },
        },
        Op::SetThreadMemoryMode { mode } => Handler::SetThreadMemoryMode { sub_id: sub.id, mode },
        Op::RunUserShellCommand { command } => Handler::RunUserShellCommand {
            sub_id: sub.id,
            command,
        },
        Op::ResolveElicitation { server_name, request_id, decision, content, meta } => {
            Handler::ResolveElicitation { server_name, request_id, decision, content, meta }
        },
        Op::Shutdown => Handler::Shutdown { sub_id: sub.id },
        Op::Review { review_request } => Handler::Review { sub_id: sub.id, review_request },
        Op::ApproveGuardianDeniedAction { event } => Handler::ApproveGuardianDeniedAction { event },
        Op::Unknown(_) => Handler::Ignore,
    }
}

/// Decides what is done with a submission.
pub open spec fn dispatch_of<P, A, K>(
    sub: Submission<P>,
    restart_required: bool,
    admission: Option<A>,
    acknowledgement: Option<K>,
) -> Dispatch<P, A, K> {
    if is_fenced(sub.op, restart_required) {
        Dispatch::Refused {
            failed_user_message: if sub.op is UserInput {
                Some(sub.id)
            } else {
                None
            },
            acknowledgement,
            error: CodexErr::TurnAborted,
            event: Event {
                id: sub.id,
                msg: EventMsg::Error {
                    reason: Reason::RestartBeforeContinuing,
                    info: CodexErrorInfo::Other,
                },
            },
        }
    } else {
        Dispatch::Run {
            handler: handler_for(sub, admission),
            admission: if sub.op is ThreadRollback {
                None
            } else {
                admission
            },
            acknowledgement,
        }
    }
}

fn route<P, A>(sub: Submission<P>, admission: Option<A>) -> (res: (Handler<P, A>, Option<A>))
    ensures
        res.0 == handler_for(sub, admission),
        res.1 == if sub.op is ThreadRollback {
            None
        } else {
            admission
        },
{
    let sub_id: String = sub.id;
    let handler: Handler<P, A> = match sub.op {
        Op::Interrupt => Handler::Interrupt,
        Op::CleanBackgroundTerminals => Handler::CleanBackgroundTerminals,
        Op::RealtimeConversationStart(params) => Handler::RealtimeStart { sub_id, params },
        Op::RealtimeConversationAudio(params) => Handler::RealtimeAudio { sub_id, params },
        Op::RealtimeConversationText(params) => Handler::RealtimeText { sub_id, params },
        Op::RealtimeConversationSpeech(params) => Handler::RealtimeSpeech { sub_id, params },
        Op::RealtimeConversationClose => Handler::RealtimeClose { sub_id },
        Op::RealtimeConversationListVoices => Handler::RealtimeListVoices { sub_id },
        Op::UserInput(op) => Handler::UserInputOrTurn {
            sub_id,
            op,
            client_user_message_id: sub.client_user_message_id,
            parent_turn_id: sub.parent_turn_id,
        },
        Op::ThreadSettings { thread_settings } => Handler::UpdateThreadSettings {
            sub_id,
            thread_settings,
        },
        Op::InterAgentCommunication { communication } => Handler::InterAgentCommunication {
            sub_id,
            communication,
            parent_turn_id: sub.parent_turn_id,
        },
        Op::ExecApproval { id, turn_id, decision } => Handler::ExecApproval {
            approval_id: id,
            turn_id,
            decision,
        },
        Op::PatchApproval { id, decision } => Handler::PatchApproval { id, decision },
        Op::UserInputAnswer { id, response } => Handler::RequestUserInputResponse { id, response },
        Op::RequestPermissionsResponse { id, response } => Handler::RequestPermissionsResponse {
            id,
            response,
        },
        Op::DynamicToolResponse { id, response } => Handler::DynamicToolResponse { id, response },
        Op::RefreshMcpServers => Handler::RefreshMcpServers,
        Op::ReloadUserConfig => Handler::ReloadUserConfig,
        Op::Compact => Handler::Compact { sub_id },
        Op::ThreadRollback { num_turns } => {
            let rollback: Handler<P, A> = match admission {
                Some(admission) => Handler::ThreadRollback { sub_id, num_turns, admission },
                None => Handler::RollbackNotAdmitted {
                    event: Event {
                        id: sub_id,
                        msg: EventMsg::Error {
                            reason: Reason::RollbackAdmissionMissing,
                            info: CodexErrorInfo::ThreadRollbackFailed,
                        },
                    },
                },
            };
            return (rollback, None);
        },
        Op::SetThreadMemoryMode { mode } => Handler::SetThreadMemoryMode { sub_id, mode },
        Op::RunUserShellCommand { command } => Handler::RunUserShellCommand { sub_id, command },
        Op::ResolveElicitation { server_name, request_id, decision, content, meta } => {
            Handler::ResolveElicitation { server_name, request_id, decision, content, meta }
        },
        Op::Shutdown => Handler::Shutdown { sub_id },
        Op::Review { review_request } => Handler::Review { sub_id, review_request },
        Op::ApproveGuardianDeniedAction { event } => Handler::ApproveGuardianDeniedAction { event },
        Op::Unknown(_) => Handler::Ignore,
    };
    (handler, admission)
}

/// What whoever waits for something is told on a thread that has to be restarted.
pub fn restart_refusal() -> (res: CodexErr)
    ensures
        res == CodexErr::TurnAborted,
{
    CodexErr::TurnAborted
}

/// Decides what is done with a submission.
pub fn dispatch_submission<P, A, K>(
    sub: Submission<P>,
    restart_required: bool,
    admission: Option<A>,
    acknowledgement: Option<K>,
) -> (res: Dispatch<P, A, K>)
    ensures
        res == dispatch_of(sub, restart_required, admission, acknowledgement),
{
    let is_shutdown: bool = match &sub.op {
        Op::Shutdown => true,
        _ => false,
    };
    if restart_required && !is_shutdown {
        let failed_user_message: Option<String> = match &sub.op {
            Op::UserInput(_) => Some(sub.id.clone()),
            _ => None,
        };
        return Dispatch::Refused {
            failed_user_message,
            acknowledgement,
            error: restart_refusal(),
            event: Event {
                id: sub.id,
                msg: EventMsg::Error {
                    reason: Reason::RestartBeforeContinuing,
                    info: CodexErrorInfo::Other,
                },
            },
        };
    }
    let (handler, admission) = route(sub, admission);
    Dispatch::Run { handler, admission, acknowledgement }
}

/// How the sender of a submission gets its admission once the handler has run.
#[derive(Clone, Debug, PartialEq, Eq)]
pub enum Acknowledge<A, K> {
    Nothing,
    Now { acknowledgement: K, admission: A },
    /// The admission is to be acquired first.
    Later { acknowledgement: K },
}

/// Hands the admission on to the sender, which waits for the next one where there is none left.
pub fn finish_dispatch<A, K>(admission: Option<A>, acknowledgement: Option<K>) -> (res: Acknowledge<
    A,
    K,
>)
    ensures
        res == match (acknowledgement, admission) {
            (None, _) => Acknowledge::<A, K>::Nothing,
            (Some(acknowledgement), Some(admission)) => Acknowledge::Now {
                acknowledgement,
                admission,
            },
            (Some(acknowledgement), None) => Acknowledge::Later { acknowledgement },
        },
{
    match (acknowledgement, admission) {
        (None, _) => Acknowledge::Nothing,
        (Some(acknowledgement), Some(admission)) => Acknowledge::Now {
            acknowledgement,
            admission,
        },
        (Some(acknowledgement), None) => Acknowledge::Later { acknowledgement },
    }
}

/// What a sender is told that had to wait for its admission.
pub fn late_admission<A>(restart_required: bool, admission: A) -> (res: Result<A, CodexErr>)
    ensures
        res == if restart_required {
            Err::<A, CodexErr>(CodexErr::TurnAborted)
        } else {
            Ok(admission)
        },
{
    if restart_required {
        Err(restart_refusal())
    } else {
        Ok(admission)
    }
}

/// Whether the loop that takes submissions in ends with `dispatch`: a shutdown ends it, and
/// neither a refusal nor any other handler does.
pub open spec fn ends_loop<P, A, K>(dispatch: Dispatch<P, A, K>) -> bool {
    dispatch matches Dispatch::Run { handler, .. } && handler is Shutdown
}

/// Whether the loop that takes submissions in ends with `dispatch`.
pub fn exits<P, A, K>(dispatch: &Dispatch<P, A, K>) -> (res: bool)
    ensures
        res == ends_loop(*dispatch),
{
    match dispatch {
        Dispatch::Run { handler: Handler::Shutdown { .. }, .. } => true,
        _ => false,
    }
}

/// On a thread that has to be restarted nothing but a shutdown reaches a handler. Whoever waits
/// for a refused submission is told `TurnAborted`, clients hear of it under its id, and the loop
/// goes on.
pub proof fn law_fenced_thread_runs_nothing_but_shutdown<P, A, K>(
    sub: Submission<P>,
    admission: Option<A>,
    acknowledgement: Option<K>,
)
    ensures
        dispatch_of(sub, true, admission, acknowledgement) is Run <==> sub.op is Shutdown,
        dispatch_of(sub, true, admission, acknowledgement) matches Dispatch::Refused {
            failed_user_message,
            acknowledgement: told,
            error,
            event,
        } ==> {
            &&& told == acknowledgement
            &&& failed_user_message is Some <==> sub.op is UserInput
            &&& failed_user_message is Some ==> failed_user_message->Some_0 == sub.id
            &&& error == CodexErr::TurnAborted
            &&& event == (Event {
                id: sub.id,
                msg: EventMsg::Error {
                    reason: Reason::RestartBeforeContinuing,
                    info: CodexErrorInfo::Other,
                },
            })
            &&& !ends_loop(dispatch_of(sub, true, admission, acknowledgement))
        },
{
}

/// Only a shutdown ends the loop, and it does so even on a thread that has to be restarted.
pub proof fn law_only_shutdown_ends_the_loop<P, A, K>(
    sub: Submission<P>,
    restart_required: bool,
    admission: Option<A>,
    acknowledgement: Option<K>,
)
    ensures
        ends_loop(dispatch_of(sub, restart_required, admission, acknowledgement)) <==> sub.op
            is Shutdown,
{
}

/// The admission that a submission came with is never lost: a rollback has it, or it is kept for
/// the sender.
pub proof fn law_admission_goes_to_rollback_or_sender<P, A, K>(
    sub: Submission<P>,
    admission: A,
    acknowledgement: Option<K>,
)
    ensures
        dispatch_of(sub, false, Some(admission), acknowledgement) matches Dispatch::Run {
            handler,
            admission: kept,
            acknowledgement: told,
        } && told == acknowledgement && (if sub.op is ThreadRollback {
            kept is None && handler == Handler::<P, A>::ThreadRollback {
                sub_id: sub.id,
                num_turns: sub.op->num_turns,
                admission,
            }
        } else {
            kept == Some(admission)
        }),
{
}

/// Every handler is called for the operation that it serves and for no other, with all that the
/// submission carries for it.
pub proof fn law_handler_serves_its_operation<P, A>(sub: Submission<P>, admission: Option<A>)
    ensures
        match handler_for(sub, admission) {
            Handler::Interrupt => sub.op is Interrupt,
            Handler::CleanBackgroundTerminals => sub.op is CleanBackgroundTerminals,
            Handler::RealtimeStart { sub_id, params } => sub_id == sub.id && sub.op
                == Op::RealtimeConversationStart(params),
            Handler::RealtimeAudio { sub_id, params } => sub_id == sub.id && sub.op
                == Op::RealtimeConversationAudio(params),
            Handler::RealtimeText { sub_id, params } => sub_id == sub.id && sub.op
                == Op::RealtimeConversationText(params),
            Handler::RealtimeSpeech { sub_id, params } => sub_id == sub.id && sub.op
                == Op::RealtimeConversationSpeech(params),
            Handler::RealtimeClose { sub_id } => sub_id == sub.id && sub.op
                is RealtimeConversationClose,
            Handler::RealtimeListVoices { sub_id } => sub_id == sub.id && sub.op
                is RealtimeConversationListVoices,
            Handler::UserInputOrTurn { sub_id, op, client_user_message_id, parent_turn_id } => {
                &&& sub_id == sub.id
                &&& sub.op == Op::UserInput(op)
                &&& client_user_message_id == sub.client_user_message_id
                &&& parent_turn_id == sub.parent_turn_id
            },
            Handler::UpdateThreadSettings { sub_id, thread_settings } => sub_id == sub.id && sub.op
                == (Op::ThreadSettings { thread_settings }),
            Handler::InterAgentCommunication { sub_id, communication, parent_turn_id } => {
                &&& sub_id == sub.id
                &&& sub.op == (Op::InterAgentCommunication::<P> { communication })
                &&& parent_turn_id == sub.parent_turn_id
            },
            Handler::ExecApproval { approval_id, turn_id, decision } => sub.op
                == (Op::ExecApproval::<P> { id: approval_id, turn_id, decision }),
            Handler::PatchApproval { id, decision } => sub.op == (Op::PatchApproval::<P> {
                id,
                decision,
            }),
            Handler::RequestUserInputResponse { id, response } => sub.op == (Op::UserInputAnswer {
                id,
                response,
            }),
            Handler::RequestPermissionsResponse { id, response } => sub.op
                == (Op::RequestPermissionsResponse { id, response }),
            Handler::DynamicToolResponse { id, response } => sub.op == (Op::DynamicToolResponse {
                id,
                response,
            }),
            Handler::RefreshMcpServers => sub.op is RefreshMcpServers,
            Handler::ReloadUserConfig => sub.op is ReloadUserConfig,
            Handler::Compact { sub_id } => sub_id == sub.id && sub.op is Compact,
            Handler::ThreadRollback { sub_id, num_turns, admission: held } => {
                &&& sub_id == sub.id
                &&& sub.op == (Op::ThreadRollback::<P> { num_turns })
                &&& admission == Some(held)
            },
            Handler::RollbackNotAdmitted { event } => {
                &&& sub.op is ThreadRollback
                &&& admission is None
                &&& event == (Event {
                    id: sub.id,
                    msg: EventMsg::Error {
                        reason: Reason::RollbackAdmissionMissing,
                        info: CodexErrorInfo::ThreadRollbackFailed,
                    },
                })
            },
            Handler::SetThreadMemoryMode { sub_id, mode } => sub_id == sub.id && sub.op
                == (Op::SetThreadMemoryMode::<P> { mode }),
            Handler::RunUserShellCommand { sub_id, command } => sub_id == sub.id && sub.op
                == (Op::RunUserShellCommand::<P> { command }),
            Handler::ResolveElicitation { server_name, request_id, decision, content, meta } => {
                sub.op == (Op::ResolveElicitation {
                    server_name,
                    request_id,
                    decision,
                    content,
                    meta,
                })
            },
            Handler::Shutdown { sub_id } => sub_id == sub.id && sub.op is Shutdown,
            Handler::Review { sub_id, review_request } => sub_id == sub.id && sub.op
                == (Op::Review { review_request }),
            Handler::ApproveGuardianDeniedAction { event } => sub.op
                == (Op::ApproveGuardianDeniedAction::<P> { event }),
            Handler::Ignore => sub.op is Unknown,
        },
{
}

/// On a thread that need not be restarted every submission reaches its handler.
pub proof fn law_sound_thread_runs_every_handler<P, A, K>(
    sub: Submission<P>,
    admission: Option<A>,
    acknowledgement: Option<K>,
)
    ensures
        dispatch_of(sub, false, admission, acknowledgement) == (Dispatch::Run {
            handler: handler_for(sub, admission),
            admission: if sub.op is ThreadRollback {
                None
            } else {
                admission
            },
            acknowledgement,
        }),
{
}

/// What is done with a submission is what its operation, the restart fence and the admission
/// decide.
pub proof fn law_submission_is_dispatched_by_its_operation<P, A, K>(
    sub: Submission<P>,
    restart_required: bool,
    admission: Option<A>,
    acknowledgement: Option<K>,
    res: Dispatch<P, A, K>,
)
    requires
        call_ensures(
            dispatch_submission::<P, A, K>,
            (sub, restart_required, admission, acknowledgement),
            res,
        ),
    ensures
        res == dispatch_of(sub, restart_required, admission, acknowledgement),
        res is Refused <==> restart_required && !(sub.op is Shutdown),
{
}

/// A sender that waits gets the admission that is left, and waits on for the next where none is;
/// nobody else gets one.
pub proof fn law_admission_is_handed_to_the_waiting_sender<A, K>(
    admission: Option<A>,
    acknowledgement: Option<K>,
    res: Acknowledge<A, K>,
)
    requires
        call_ensures(finish_dispatch::<A, K>, (admission, acknowledgement), res),
    ensures
        acknowledgement is None ==> res is Nothing,
        acknowledgement matches Some(sender) ==> match admission {
            Some(held) => res == (Acknowledge::Now { acknowledgement: sender, admission: held }),
            None => res == (Acknowledge::<A, K>::Later { acknowledgement: sender }),
        },
{
}

/// An admission that comes late still counts, unless the thread has to be restarted by then.
pub proof fn law_late_admission_counts_unless_fenced<A>(
    restart_required: bool,
    admission: A,
    res: Result<A, CodexErr>,
)
    requires
        call_ensures(late_admission::<A>, (restart_required, admission), res),
    ensures
        restart_required ==> res == Err::<A, CodexErr>(CodexErr::TurnAborted),
        !restart_required ==> res == Ok::<A, CodexErr>(admission),
{
}

} // verus!
