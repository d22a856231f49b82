//! The smaller handlers of a session.
use crate::errors::CodexErrorInfo;
use crate::errors::Reason;
use crate::json::pretty_form;
use crate::json::pretty_json;
use crate::protocol::ContentItem;
use crate::protocol::Event;
use crate::protocol::EventMsg;
use crate::protocol::InterAgentCommunication;
use crate::protocol::ResponseItem;
use crate::session::dispatch::ElicitationAction;
use crate::session::dispatch::GuardianAssessmentEvent;
use crate::session::dispatch::GuardianAssessmentStatus;
use crate::session::dispatch::ReviewDecision;
use crate::session::input_queue::InputQueueActivity;
use crate::session::input_queue::PendingMailboxCommunication;
use crate::session::session::Session;
use crate::text::join3;
use vstd::prelude::*;

verus! {

/// The report of an error that has no class of its own.
pub fn other_error_event(sub_id: String, message: String) -> (res: Event)
    ensures
        res == (Event {
            id: sub_id,
            msg: EventMsg::Error { reason: Reason::Message(message), info: CodexErrorInfo::Other },
        }),
{
    Event {
        id: sub_id,
        msg: EventMsg::Error { reason: Reason::Message(message), info: CodexErrorInfo::Other },
    }
}

/// The answer to a client that asks for the voices of a realtime conversation.
pub fn realtime_conversation_list_voices(sub_id: String, voices: String) -> (res: Event)
    ensures
        res == (Event {
            id: sub_id,
            msg: EventMsg::RealtimeConversationListVoicesResponse { voices },
        }),
{
    Event { id: sub_id, msg: EventMsg::RealtimeConversationListVoicesResponse { voices } }
}

/// A message from another agent is in the mailbox.
#[derive(Clone, Copy, Debug, PartialEq, Eq, Structural)]
pub struct MailReceived {
    /// To be published to listeners.
    pub activity: InputQueueActivity,
    /// Whether an idle session should look for work to start.
    pub start_pending_work: bool,
}

/// Puts a message from another agent into the mailbox. On a thread that has to be restarted it is
/// dropped. Which turn sent the message counts only if the message triggers one.
pub fn inter_agent_communication<S>(
    session: &mut Session<S>,
    communication: InterAgentCommunication,
    parent_turn_id: Option<String>,
    has_outstanding_durable_sleep: bool,
) -> (res: Option<MailReceived>)
    ensures
        old(session).persistence_restart_required ==> res is None && *final(session) == *old(
            session,
        ),
        !old(session).persistence_restart_required ==> {
            &&& res == Some(
                MailReceived {
                    activity: InputQueueActivity::Mailbox,
                    start_pending_work: communication.trigger_turn || has_outstanding_durable_sleep,
                },
            )
            &&& final(session).input_queue.mailbox@ == old(session).input_queue.mailbox@.push(
                PendingMailboxCommunication {
                    communication,
                    parent_turn_id: if communication.trigger_turn {
                        parent_turn_id
                    } else {
                        None
                    },
                },
            )
            &&& final(session).input_queue.waiters == old(session).input_queue.waiters
            &&& *final(session) == (Session {
                input_queue: final(session).input_queue,
                ..*old(session)
            })
        },
{
    if session.persistence_restart_required {
        return None;
    }
    let trigger_turn: bool = communication.trigger_turn;
    let parent_turn_id: Option<String> = if trigger_turn {
        parent_turn_id
    } else {
        None
    };
    let activity: InputQueueActivity = session.input_queue.enqueue_mailbox_communication(
        communication,
        parent_turn_id,
    );
    Some(MailReceived { activity, start_pending_work: trigger_turn || has_outstanding_durable_sleep })
}

/// How a shell command of the user is run.
#[derive(Clone, Copy, Debug, PartialEq, Eq, Structural)]
pub enum ShellCommandPlan {
    /// Beside the turn that is active.
    BesideActiveTurn,
    /// As a task of its own.
    OwnTask,
    /// Not at all: no turn context could be made, which has been reported.
    Nothing,
}

/// Decides how a shell command of the user is run. The context is asked for only while idle.
pub fn run_user_shell_command(active_turn: bool, context_made: bool) -> (res: ShellCommandPlan)
    ensures
        res == if active_turn {
            ShellCommandPlan::BesideActiveTurn
        } else if context_made {
            ShellCommandPlan::OwnTask
        } else {
            ShellCommandPlan::Nothing
        },
{
    if active_turn {
        ShellCommandPlan::BesideActiveTurn
    } else if context_made {
        ShellCommandPlan::OwnTask
    } else {
        ShellCommandPlan::Nothing
    }
}

/// The answer to an elicitation, as the tool server that asked gets it.
#[derive(Clone, Debug, PartialEq, Eq)]
pub struct ElicitationResponse<P> {
    pub action: ElicitationAction,
    pub content: Option<P>,
    pub meta: Option<P>,
}

/// The answer to an elicitation: an accepted one without content gets `empty_object`, as some
/// clients send no more than the decision; any other answer has no content.
pub fn resolve_elicitation<P>(
    decision: ElicitationAction,
    content: Option<P>,
    meta: Option<P>,
    empty_object: P,
) -> (res: ElicitationResponse<P>)
    ensures
        res == (ElicitationResponse {
            action: decision,
            content: match decision {
                ElicitationAction::Accept => match content {
                    Some(content) => Some(content),
                    None => Some(empty_object),
                },
                _ => None,
            },
            meta,
        }),
{
    let content: Option<P> = match decision {
        ElicitationAction::Accept => match content {
            Some(content) => Some(content),
            None => Some(empty_object),
        },
        _ => None,
    };
    ElicitationResponse { action: decision, content, meta }
}

/// What follows from a decision of the user.
#[derive(Clone, Debug, PartialEq, Eq)]
pub enum ApprovalAction {
    InterruptTask,
    Notify { approval_id: String, decision: ReviewDecision },
}

/// Passes a decision on; an abort interrupts the task instead.
pub fn patch_approval(id: String, decision: ReviewDecision) -> (res: ApprovalAction)
    ensures
        res == match decision {
            ReviewDecision::Abort => ApprovalAction::InterruptTask,
            other => ApprovalAction::Notify { approval_id: id, decision: other },
        },
{
    match decision {
        ReviewDecision::Abort => ApprovalAction::InterruptTask,
        other => ApprovalAction::Notify { approval_id: id, decision: other },
    }
}

/// The change of the execution policy that a decision asks to have saved first.
pub fn execpolicy_amendment<'a>(decision: &'a ReviewDecision) -> (res: Option<&'a String>)
    ensures
        match *decision {
            ReviewDecision::ApprovedExecpolicyAmendment { proposed_execpolicy_amendment } => res
                == Some(&proposed_execpolicy_amendment),
            _ => res is None,
        },
{
    match decision {
        ReviewDecision::ApprovedExecpolicyAmendment { proposed_execpolicy_amendment } => Some(
            proposed_execpolicy_amendment,
        ),
        _ => None,
    }
}

/// Passes a decision on an execution on. A change of the policy that could not be saved is
/// reported under the turn, or under the request where the turn is not known; the decision counts
/// all the same.
pub fn exec_approval(
    approval_id: String,
    turn_id: Option<String>,
    decision: ReviewDecision,
    amendment_error: Option<String>,
) -> (res: (Option<Event>, ApprovalAction))
    ensures
        res.0 == match (decision, amendment_error) {
            (ReviewDecision::ApprovedExecpolicyAmendment { .. }, Some(err)) => Some(
                Event {
                    id: match turn_id {
                        Some(turn_id) => turn_id,
                        None => approval_id,
                    },
                    msg: EventMsg::Warning { reason: Reason::ExecpolicyAmendment(err) },
                },
            ),
            _ => None,
        },
        res.1 == match decision {
            ReviewDecision::Abort => ApprovalAction::InterruptTask,
            other => ApprovalAction::Notify { approval_id, decision: other },
        },
{
    let amends: bool = execpolicy_amendment(&decision).is_some();
    let warning: Option<Event> = match amendment_error {
        Some(err) => {
            if amends {
                let id: String = match turn_id {
                    Some(turn_id) => turn_id,
                    None => approval_id.clone(),
                };
                Some(Event { id, msg: EventMsg::Warning { reason: Reason::ExecpolicyAmendment(err) } })
            } else {
                None
            }
        },
        None => None,
    };
    (warning, patch_approval(approval_id, decision))
}

/// The steps of saving the memory mode of a thread, in order.
#[derive(Clone, Copy, Debug, PartialEq, Eq, Structural)]
pub enum MemoryModeStep {
    LockState,
    FindWriter,
    Persist,
    Flush,
    UpdateMemoryMode,
    FlushUpdate,
    Done,
}

/// The step after one that succeeded.
pub open spec fn memory_mode_successor(step: MemoryModeStep) -> MemoryModeStep {
    match step {
        MemoryModeStep::LockState => MemoryModeStep::FindWriter,
        MemoryModeStep::FindWriter => MemoryModeStep::Persist,
        MemoryModeStep::Persist => MemoryModeStep::Flush,
        MemoryModeStep::Flush => MemoryModeStep::UpdateMemoryMode,
        MemoryModeStep::UpdateMemoryMode => MemoryModeStep::FlushUpdate,
        MemoryModeStep::FlushUpdate => MemoryModeStep::Done,
        MemoryModeStep::Done => MemoryModeStep::Done,
    }
}

/// The step to take after `step` has ended with `result`; the first failure ends it all.
pub fn persist_thread_memory_mode_update(
    step: MemoryModeStep,
    result: Result<(), String>,
) -> (res: Result<MemoryModeStep, String>)
    ensures
        res == match result {
            Ok(()) => Ok::<MemoryModeStep, String>(memory_mode_successor(step)),
            Err(err) => Err(err),
        },
{
    match result {
        Err(err) => Err(err),
        Ok(()) => Ok(
            match step {
                MemoryModeStep::LockState => MemoryModeStep::FindWriter,
                MemoryModeStep::FindWriter => MemoryModeStep::Persist,
                MemoryModeStep::Persist => MemoryModeStep::Flush,
                MemoryModeStep::Flush => MemoryModeStep::UpdateMemoryMode,
                MemoryModeStep::UpdateMemoryMode => MemoryModeStep::FlushUpdate,
                MemoryModeStep::FlushUpdate => MemoryModeStep::Done,
                MemoryModeStep::Done => MemoryModeStep::Done,
            },
        ),
    }
}

/// The report that follows the saving of a memory mode: nothing on success.
pub fn set_thread_memory_mode(sub_id: String, result: Result<(), String>) -> (res: Option<Event>)
    ensures
        res == match result {
            Ok(()) => None::<Event>,
            Err(err) => Some(
                Event {
                    id: sub_id,
                    msg: EventMsg::Error {
                        reason: Reason::Message(err),
                        info: CodexErrorInfo::Other,
                    },
                },
            ),
        },
{
    match result {
        Ok(()) => None,
        Err(err) => Some(other_error_event(sub_id, err)),
    }
}

/// The memory mode is saved between two flushes: what was held back before it is written out
/// first, and success means that the change itself is written out.
pub proof fn law_memory_mode_is_saved_between_flushes(step: MemoryModeStep)
    ensures
        memory_mode_successor(step) == MemoryModeStep::UpdateMemoryMode <==> step
            == MemoryModeStep::Flush,
        memory_mode_successor(step) == MemoryModeStep::Done && step != MemoryModeStep::Done <==> step
            == MemoryModeStep::FlushUpdate,
        memory_mode_successor(MemoryModeStep::UpdateMemoryMode) == MemoryModeStep::FlushUpdate,
{
}

/// The steps by which a session is taken down.
#[derive(Clone, Copy, Debug, PartialEq, Eq, Structural)]
pub enum ShutdownStep {
    /// Abort the connection to the model that is being warmed up, if there is one.
    AbortPrewarm,
    StopConversation,
    AbortTasks,
    StopHooks,
    /// Take no more results of asynchronous hooks, and drop those that wait.
    DrainHookResults,
    TerminateProcesses,
    StopCodeMode,
    StopMcpPrewarm,
    /// Let no refresh begin, and stop the tool servers.
    StopMcp,
    StopGuardian,
    RunSessionEndHooks,
    ReportTurnCount,
    StopContributors,
    /// Flush and stop the persistence of the thread, if it has any.
    StopPersistence,
    ReportComplete,
}

/// What it takes to stop everything that a session runs, in order.
pub open spec fn runtime_shutdown() -> Seq<ShutdownStep> {
    seq![
        ShutdownStep::AbortPrewarm,
        ShutdownStep::StopConversation,
        ShutdownStep::AbortTasks,
        ShutdownStep::StopHooks,
        ShutdownStep::DrainHookResults,
        ShutdownStep::TerminateProcesses,
        ShutdownStep::StopCodeMode,
        ShutdownStep::StopMcpPrewarm,
        ShutdownStep::StopMcp,
        ShutdownStep::StopGuardian,
        ShutdownStep::RunSessionEndHooks,
    ]
}

/// What it takes to take a session down, in order. One that was asked to shut down also reports;
/// one whose channels have closed has nobody to report to.
pub open spec fn shutdown_sequence(requested: bool) -> Seq<ShutdownStep> {
    if requested {
        runtime_shutdown() + seq![
            ShutdownStep::ReportTurnCount,
            ShutdownStep::StopContributors,
            ShutdownStep::StopPersistence,
            ShutdownStep::ReportComplete,
        ]
    } else {
        runtime_shutdown() + seq![ShutdownStep::StopContributors, ShutdownStep::StopPersistence]
    }
}

/// The steps by which everything that a session runs is stopped.
pub fn shutdown_session_runtime() -> (res: Vec<ShutdownStep>)
    ensures
        res@ == runtime_shutdown(),
{
    let steps: Vec<ShutdownStep> = vec![
        ShutdownStep::AbortPrewarm,
        ShutdownStep::StopConversation,
        ShutdownStep::AbortTasks,
        ShutdownStep::StopHooks,
        ShutdownStep::DrainHookResults,
        ShutdownStep::TerminateProcesses,
        ShutdownStep::StopCodeMode,
        ShutdownStep::StopMcpPrewarm,
        ShutdownStep::StopMcp,
        ShutdownStep::StopGuardian,
        ShutdownStep::RunSessionEndHooks,
    ];
    assert(steps@ =~= runtime_shutdown());
    steps
}

/// The steps by which a session is taken down.
pub fn shutdown_steps(requested: bool) -> (res: Vec<ShutdownStep>)
    ensures
        res@ == shutdown_sequence(requested),
{
    let mut steps: Vec<ShutdownStep> = shutdown_session_runtime();
    if requested {
        steps.push(ShutdownStep::ReportTurnCount);
    }
    steps.push(ShutdownStep::StopContributors);
    steps.push(ShutdownStep::StopPersistence);
    if requested {
        steps.push(ShutdownStep::ReportComplete);
    }
    assert(steps@ =~= shutdown_sequence(requested));
    steps
}

/// Persistence is stopped after everything that may still write to the thread, and a shutdown is
/// reported as complete only after that.
pub proof fn law_persistence_outlives_its_writers(requested: bool, i: int, j: int)
    requires
        0 <= i < shutdown_sequence(requested).len(),
        0 <= j < shutdown_sequence(requested).len(),
        shutdown_sequence(requested)[j] == ShutdownStep::StopPersistence,
    ensures
        i > j ==> shutdown_sequence(requested)[i] == ShutdownStep::ReportComplete,
        shutdown_sequence(requested)[i] == ShutdownStep::ReportComplete ==> i > j,
{
}

/// How many of `boundaries` are set.
pub open spec fn count_set(boundaries: Seq<bool>) -> nat
    decreases boundaries.len(),
{
    if boundaries.len() == 0 {
        0
    } else {
        count_set(boundaries.drop_last()) + if boundaries.last() {
            1nat
        } else {
            0nat
        }
    }
}

/// The number of turns in a history of which `boundaries` tells where a turn of the user begins;
/// a number that is too large to report counts as zero.
pub fn turn_count(boundaries: &Vec<bool>) -> (res: i64)
    ensures
        res == if count_set(boundaries@) <= i64::MAX {
            count_set(boundaries@) as int
        } else {
            0
        },
{
    let mut count: usize = 0;
    let mut i: usize = 0;
    while i < boundaries.len()
        invariant
            i <= boundaries.len(),
            count == count_set(boundaries@.take(i as int)),
            count <= i,
        decreases boundaries.len() - i,
    {
        assert(boundaries@.take(i + 1).drop_last() =~= boundaries@.take(i as int));
        if boundaries[i] {
            count = count + 1;
        }
        i = i + 1;
    }
    assert(boundaries@.take(boundaries.len() as int) =~= boundaries@);
    if count as u128 <= i64::MAX as u128 {
        count as i64
    } else {
        0
    }
}

/// What a session reports when it shuts down, in order.
#[derive(Clone, Debug, PartialEq, Eq)]
pub struct ShutdownReports {
    /// That persistence could not be stopped; this is saved with the thread, as far as it can be.
    pub saved: Option<Event>,
    /// That the shutdown is complete; this is only delivered.
    pub delivered: Event,
}

/// What a session reports when it shuts down.
pub fn shutdown(sub_id: String, persistence_failed: bool) -> (res: ShutdownReports)
    ensures
        res == (ShutdownReports {
            saved: if persistence_failed {
                Some(
                    Event {
                        id: sub_id,
                        msg: EventMsg::Error {
                            reason: Reason::ShutdownPersistence,
                            info: CodexErrorInfo::Other,
                        },
                    },
                )
            } else {
                None
            },
            delivered: Event { id: sub_id, msg: EventMsg::ShutdownComplete },
        }),
{
    let saved: Option<Event> = if persistence_failed {
        Some(
            Event {
                id: sub_id.clone(),
                msg: EventMsg::Error {
                    reason: Reason::ShutdownPersistence,
                    info: CodexErrorInfo::Other,
                },
            },
        )
    } else {
        None
    };
    ShutdownReports { saved, delivered: Event { id: sub_id, msg: EventMsg::ShutdownComplete } }
}

/// What follows from a request for a review. `R` is the resolved request.
#[derive(Clone, Debug, PartialEq, Eq)]
pub enum ReviewPlan<R> {
    Spawn(R),
    Report(Event),
}

/// Spawns the review of a request that could be resolved, and reports one that could not.
pub fn review<R>(sub_id: String, resolved: Result<R, String>) -> (res: ReviewPlan<R>)
    ensures
        res == match resolved {
            Ok(request) => ReviewPlan::Spawn(request),
            Err(err) => ReviewPlan::Report(
                Event {
                    id: sub_id,
                    msg: EventMsg::Error {
                        reason: Reason::Message(err),
                        info: CodexErrorInfo::Other,
                    },
                },
            ),
        },
{
    match resolved {
        Ok(request) => ReviewPlan::Spawn(request),
        Err(err) => ReviewPlan::Report(other_error_event(sub_id, err)),
    }
}

/// The JSON text of an action that the user has allowed after all.
pub open spec fn allowed_action_json(action: Seq<char>) -> Seq<char> {
    "{\"action\":"@ + action + ",\"outcome\":\"allowed\"}"@
}

/// What the model is told about an approved action.
pub open spec fn approval_text(prefix: Seq<char>, approved_action: Seq<char>) -> Seq<char> {
    prefix
        + "\n\nTreat this as approval to perform that exact action in the same context in which it was originally requested.\nDo not assume this also authorizes similar operations with different payloads.\n\nApproved action:\n"@
        + approved_action
}

/// `item` is a message of the developer that says `text` and nothing else.
pub open spec fn is_developer_message(item: ResponseItem, text: Seq<char>) -> bool {
    item matches ResponseItem::Message { id, turn_id, role, content, extra } && id is None
        && turn_id is None && extra is None && role@ == "developer"@ && content@.len() == 1 && (
    content@[0] matches ContentItem::InputText { text: t } && t@ == text)
}

/// The message that carries an approved action to the model.
pub fn approved_action_message(prefix: &str, approved_action: &str) -> (res: ResponseItem)
    ensures
        is_developer_message(res, approval_text(prefix@, approved_action@)),
{
    let text: String = join3(
        prefix,
        "\n\nTreat this as approval to perform that exact action in the same context in which it was originally requested.\nDo not assume this also authorizes similar operations with different payloads.\n\nApproved action:\n",
        approved_action,
    );
    let mut content: Vec<ContentItem> = Vec::new();
    content.push(ContentItem::InputText { text });
    ResponseItem::Message {
        id: None,
        turn_id: None,
        role: "developer".to_owned(),
        content,
        extra: None,
    }
}

/// The message for an action that a guardian denied and the user allows: `prefix`, the terms of
/// the approval, and the action, indented. An assessment that did not end in a denial needs no
/// approval, and one whose action cannot be read as a JSON value is not put into words.
pub fn approve_guardian_denied_action(event: &GuardianAssessmentEvent, prefix: &str) -> (res:
    Option<ResponseItem>)
    ensures
        res is Some <==> event.status == GuardianAssessmentStatus::Denied && pretty_form(
            event.action@,
        ) is Some && pretty_form(allowed_action_json(event.action@)) is Some,
        res is Some ==> is_developer_message(
            res->Some_0,
            approval_text(
                prefix@,
                pretty_form(allowed_action_json(event.action@))->Some_0,
            ),
        ),
{
    if event.status != GuardianAssessmentStatus::Denied {
        return None;
    }
    if pretty_json(event.action.as_str()).is_none() {
        return None;
    }
    let json: String = join3(
        "{\"action\":",
        event.action.as_str(),
        ",\"outcome\":\"allowed\"}",
    );
    match pretty_json(json.as_str()) {
        Some(pretty) => Some(approved_action_message(prefix, pretty.as_str())),
        None => None,
    }
}

/// The steps of saving a memory mode follow each other up to the last, and none is left out.
pub proof fn law_memory_mode_takes_every_step()
    ensures
        memory_mode_successor(MemoryModeStep::LockState) == MemoryModeStep::FindWriter,
        memory_mode_successor(MemoryModeStep::FindWriter) == MemoryModeStep::Persist,
        memory_mode_successor(MemoryModeStep::Persist) == MemoryModeStep::Flush,
        memory_mode_successor(MemoryModeStep::Flush) == MemoryModeStep::UpdateMemoryMode,
        memory_mode_successor(MemoryModeStep::UpdateMemoryMode) == MemoryModeStep::FlushUpdate,
        memory_mode_successor(MemoryModeStep::FlushUpdate) == MemoryModeStep::Done,
        memory_mode_successor(MemoryModeStep::Done) == MemoryModeStep::Done,
{
}

/// A session is taken down by stopping all that it runs, then its contributors and its
/// persistence; a shutdown that was asked for differs only in that it reports the turns before
/// and its completion after that.
pub proof fn law_shutdown_stops_everything_in_order()
    ensures
        shutdown_sequence(false) == seq![
            ShutdownStep::AbortPrewarm,
            ShutdownStep::StopConversation,
            ShutdownStep::AbortTasks,
            ShutdownStep::StopHooks,
            ShutdownStep::DrainHookResults,
            ShutdownStep::TerminateProcesses,
            ShutdownStep::StopCodeMode,
            ShutdownStep::StopMcpPrewarm,
            ShutdownStep::StopMcp,
            ShutdownStep::StopGuardian,
            ShutdownStep::RunSessionEndHooks,
            ShutdownStep::StopContributors,
            ShutdownStep::StopPersistence,
        ],
        shutdown_sequence(false).take(11) == runtime_shutdown(),
        shutdown_sequence(true) == runtime_shutdown().push(ShutdownStep::ReportTurnCount)
            + shutdown_sequence(false).skip(11).push(ShutdownStep::ReportComplete),
{
    assert(shutdown_sequence(false) =~= seq![
        ShutdownStep::AbortPrewarm,
        ShutdownStep::StopConversation,
        ShutdownStep::AbortTasks,
        ShutdownStep::StopHooks,
        ShutdownStep::DrainHookResults,
        ShutdownStep::TerminateProcesses,
        ShutdownStep::StopCodeMode,
        ShutdownStep::StopMcpPrewarm,
        ShutdownStep::StopMcp,
        ShutdownStep::StopGuardian,
        ShutdownStep::RunSessionEndHooks,
        ShutdownStep::StopContributors,
        ShutdownStep::StopPersistence,
    ]);
    assert(shutdown_sequence(false).take(11) =~= runtime_shutdown());
    assert(shutdown_sequence(true) =~= runtime_shutdown().push(ShutdownStep::ReportTurnCount)
        + shutdown_sequence(false).skip(11).push(ShutdownStep::ReportComplete));
}

/// A boundary counts as one turn, wherever it stands, and the turns of two histories add up.
pub proof fn law_every_boundary_counts_once(boundaries: Seq<bool>, more: Seq<bool>)
    ensures
        count_set(Seq::empty()) == 0,
        count_set(seq![true]) == 1,
        count_set(seq![false]) == 0,
        count_set(boundaries + more) == count_set(boundaries) + count_set(more),
    decreases more.len(),
{
    assert(seq![true].drop_last() =~= Seq::empty());
    assert(seq![false].drop_last() =~= Seq::empty());
    if more.len() == 0 {
        assert(boundaries + more =~= boundaries);
    } else {
        law_every_boundary_counts_once(boundaries, more.drop_last());
        assert((boundaries + more).drop_last() =~= boundaries + more.drop_last());
        assert((boundaries + more).last() == more.last());
    }
}

/// What the model is told of an approved action begins with the prefix and ends with the action,
/// and what stands between is the same for every action.
pub proof fn law_approval_names_its_action(
    prefix: Seq<char>,
    action: Seq<char>,
    other_prefix: Seq<char>,
    other_action: Seq<char>,
)
    ensures
        ({
            let text = approval_text(prefix, action);
            let other = approval_text(other_prefix, other_action);
            let terms = text.len() - prefix.len() - action.len();
            &&& terms >= 0
            &&& text.take(prefix.len() as int) == prefix
            &&& text.skip(prefix.len() + terms) == action
            &&& text.subrange(prefix.len() as int, prefix.len() + terms) == other.subrange(
                other_prefix.len() as int,
                other_prefix.len() + terms,
            )
        }),
        ({
            let json = allowed_action_json(action);
            let head = "{\"action\":"@;
            let tail = ",\"outcome\":\"allowed\"}"@;
            &&& json.take(head.len() as int) == head
            &&& json.skip(head.len() as int).take(action.len() as int) == action
            &&& json.skip((head.len() + action.len()) as int) == tail
        }),
{
    let text = approval_text(prefix, action);
    let other = approval_text(other_prefix, other_action);
    let terms = text.len() - prefix.len() - action.len();
    assert(text.take(prefix.len() as int) =~= prefix);
    assert(text.skip(prefix.len() + terms) =~= action);
    assert(text.subrange(prefix.len() as int, prefix.len() + terms) =~= other.subrange(
        other_prefix.len() as int,
        other_prefix.len() + terms,
    ));
    let json = allowed_action_json(action);
    let head = "{\"action\":"@;
    let tail = ",\"outcome\":\"allowed\"}"@;
    assert(json.take(head.len() as int) =~= head);
    assert(json.skip(head.len() as int).take(action.len() as int) =~= action);
    assert(json.skip((head.len() + action.len()) as int) =~= tail);
}

/// A message of the developer has one text, which is all that it says, and no identity or turn.
pub proof fn law_developer_message_says_one_text(item: ResponseItem, text: Seq<char>)
    requires
        is_developer_message(item, text),
    ensures
        item is Message,
        item.spec_id() is None,
        item.spec_turn_id() is None,
        item->Message_role@ == "developer"@,
        item->Message_extra is None,
        item->Message_content@.len() == 1,
        item->Message_content@[0] matches ContentItem::InputText { text: said } && said@ == text,
{
}

/// A shell command of the user runs beside the active turn where there is one, else as a task of
/// its own, provided that a context could be made.
pub proof fn law_shell_command_runs_where_it_can(
    active_turn: bool,
    context_made: bool,
    res: ShellCommandPlan,
)
    requires
        call_ensures(run_user_shell_command, (active_turn, context_made), res),
    ensures
        active_turn <==> res is BesideActiveTurn,
        !active_turn && context_made <==> res is OwnTask,
        !active_turn && !context_made <==> res is Nothing,
{
}

/// The server is told the decision as it was made. Only an accepted elicitation carries content,
/// the client's own where it sent some.
pub proof fn law_only_accepted_elicitations_carry_content<P>(
    decision: ElicitationAction,
    content: Option<P>,
    meta: Option<P>,
    empty_object: P,
    res: ElicitationResponse<P>,
)
    requires
        call_ensures(resolve_elicitation::<P>, (decision, content, meta, empty_object), res),
    ensures
        res.action == decision,
        res.meta == meta,
        res.content is Some <==> decision is Accept,
        decision is Accept && content is Some ==> res.content == content,
        decision is Accept && content is None ==> res.content == Some(empty_object),
{
}

/// A decision is passed on under the id of the request; an abort interrupts the task and is not
/// passed on.
pub proof fn law_abort_interrupts_and_other_decisions_are_passed_on(
    id: String,
    decision: ReviewDecision,
    res: ApprovalAction,
)
    requires
        call_ensures(patch_approval, (id, decision), res),
    ensures
        decision is Abort <==> res is InterruptTask,
        !(decision is Abort) ==> res == (ApprovalAction::Notify { approval_id: id, decision }),
{
}

/// A decision on an execution counts like one on a patch, whatever became of the change of the
/// policy that came with it. There is a warning exactly where such a change could not be saved,
/// under the turn where that is known and else under the request.
pub proof fn law_failed_amendment_is_reported_and_the_decision_counts(
    approval_id: String,
    turn_id: Option<String>,
    decision: ReviewDecision,
    amendment_error: Option<String>,
    res: (Option<Event>, ApprovalAction),
)
    requires
        call_ensures(exec_approval, (approval_id, turn_id, decision, amendment_error), res),
    ensures
        decision is Abort <==> res.1 is InterruptTask,
        !(decision is Abort) ==> res.1 == (ApprovalAction::Notify { approval_id, decision }),
        res.0 is Some <==> decision is ApprovedExecpolicyAmendment && amendment_error is Some,
        res.0 matches Some(event) ==> {
            &&& event.msg == (EventMsg::Warning {
                reason: Reason::ExecpolicyAmendment(amendment_error->Some_0),
            })
            &&& turn_id matches Some(turn_id) ==> event.id == turn_id
            &&& turn_id is None ==> event.id == approval_id
        },
{
}

/// The first step that fails ends the saving of a memory mode with its error; one that succeeds is
/// followed by the next.
pub proof fn law_failed_step_ends_the_saving_of_a_memory_mode(
    step: MemoryModeStep,
    error: String,
    res: Result<MemoryModeStep, String>,
)
    ensures
        call_ensures(persist_thread_memory_mode_update, (step, Ok(())), res) ==> res == Ok::<
            MemoryModeStep,
            String,
        >(memory_mode_successor(step)),
        call_ensures(persist_thread_memory_mode_update, (step, Err(error)), res) ==> res == Err::<
            MemoryModeStep,
            String,
        >(error),
{
}

/// A memory mode that was saved is not reported; one that was not is, under the submission.
pub proof fn law_only_failures_to_save_a_memory_mode_are_reported(
    sub_id: String,
    error: String,
    res: Option<Event>,
)
    ensures
        call_ensures(set_thread_memory_mode, (sub_id, Ok(())), res) ==> res is None,
        call_ensures(set_thread_memory_mode, (sub_id, Err(error)), res) ==> res == Some(
            Event {
                id: sub_id,
                msg: EventMsg::Error {
                    reason: Reason::Message(error),
                    info: CodexErrorInfo::Other,
                },
            },
        ),
{
}

/// A session is taken down by the steps of its shutdown, in their order.
pub proof fn law_shutdown_takes_its_steps(requested: bool, res: Vec<ShutdownStep>)
    requires
        call_ensures(shutdown_steps, (requested,), res),
    ensures
        res@ == shutdown_sequence(requested),
{
}

/// A shutdown always reports its completion under its submission; before that it reports that
/// persistence could not be stopped, exactly where it could not.
pub proof fn law_shutdown_reports_its_completion(
    sub_id: String,
    persistence_failed: bool,
    res: ShutdownReports,
)
    requires
        call_ensures(shutdown, (sub_id, persistence_failed), res),
    ensures
        res.delivered.id == sub_id,
        res.delivered.msg is ShutdownComplete,
        res.saved is Some <==> persistence_failed,
        res.saved matches Some(event) ==> event.id == sub_id && event.msg == (EventMsg::Error {
            reason: Reason::ShutdownPersistence,
            info: CodexErrorInfo::Other,
        }),
{
}

/// A review is spawned for the request that was resolved, and one that could not be resolved is
/// reported under its submission.
pub proof fn law_resolved_review_is_spawned<Q>(
    sub_id: String,
    request: Q,
    error: String,
    res: ReviewPlan<Q>,
)
    ensures
        call_ensures(review::<Q>, (sub_id, Ok(request)), res) ==> res == ReviewPlan::Spawn(request),
        call_ensures(review::<Q>, (sub_id, Err(error)), res) ==> res == ReviewPlan::<Q>::Report(
            Event {
                id: sub_id,
                msg: EventMsg::Error {
                    reason: Reason::Message(error),
                    info: CodexErrorInfo::Other,
                },
            },
        ),
{
}

/// A message from another agent goes to the end of the mailbox, and names the turn that sent it
/// exactly where it triggers one. An idle session then looks for work where the message asks for
/// that or a sleep is outstanding. On a thread that has to be restarted the message is dropped.
pub proof fn law_mail_reaches_the_mailbox_unless_fenced<S>(
    session: &mut Session<S>,
    mail: InterAgentCommunication,
    parent_turn_id: Option<String>,
    sleeps: bool,
    res: Option<MailReceived>,
)
    requires
        call_ensures(
            inter_agent_communication::<S>,
            (session, mail, parent_turn_id, sleeps),
            res,
        ),
    ensures
        res is None <==> old(session).persistence_restart_required,
        res is None ==> *final(session) == *old(session),
        res matches Some(received) ==> {
            let mailbox = final(session).input_queue.mailbox@;
            &&& received.start_pending_work <==> mail.trigger_turn || sleeps
            &&& mailbox.len() == old(session).input_queue.mailbox@.len() + 1
            &&& mailbox.drop_last() == old(session).input_queue.mailbox@
            &&& mailbox.last().communication == mail
            &&& mail.trigger_turn ==> mailbox.last().parent_turn_id == parent_turn_id
            &&& !mail.trigger_turn ==> mailbox.last().parent_turn_id is None
            &&& final(session).active_turn == old(session).active_turn
        },
{
    if res is Some {
        assert(final(session).input_queue.mailbox@.drop_last() =~= old(
            session,
        ).input_queue.mailbox@);
    }
}

} // verus!
