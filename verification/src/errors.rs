//! Why the session refuses or fails, and how it says so.
use crate::ids::ThreadId;
use crate::text::join2;
use crate::text::join3;
use vstd::prelude::*;

verus! {

/// How a client should class an error.
#[derive(Clone, Copy, Debug, PartialEq, Eq, Structural)]
pub enum CodexErrorInfo {
    BadRequest,
    ThreadRollbackFailed,
    Other,
}

/// A reason that the session gives for a refusal or a failure.
#[derive(Clone, Debug, PartialEq, Eq)]
pub enum Reason {
    RestartBeforeContinuing,
    RestartBeforeSettings,
    RestartBeforeTurn,
    RestartBeforeRollback,
    NumTurnsZero,
    RollbackDuringTurn,
    RollbackNeedsHistory,
    RollbackFlush(String),
    RollbackLoad(String),
    RollbackAdmissionMissing,
    InvalidThreadSettings(String),
    ExecpolicyAmendment(String),
    UserMessageNotAdmitted(String),
    ShutdownPersistence,
    NonSteerableTurn,
    CompletionNeedsStableId,
    CompletionNoWriter(ThreadId),
    CompletionMaterialize(String),
    CompletionReconcile(String),
    CompletionResolveRollout(String),
    CompletionReadRollout(String),
    CompletionNotPrepared,
    RepairDuringShutdown,
    RepairSystemAgent,
    RepairHistoryMode,
    RepairTurnLookup,
    RepairConcurrent,
    Message(String),
}

impl Reason {
    /// The words in which this reason is given.
    pub open spec fn text(self) -> Seq<char> {
        match self {
            Reason::RestartBeforeContinuing =>
                "Thread persistence is in an indeterminate state. Restart this thread before continuing."@,
            Reason::RestartBeforeSettings =>
                "Thread persistence is in an indeterminate state. Restart this thread before changing its settings."@,
            Reason::RestartBeforeTurn =>
                "Thread persistence is in an indeterminate state. Restart this thread before starting another turn."@,
            Reason::RestartBeforeRollback =>
                "Thread persistence is in an indeterminate state. Restart this thread before rolling it back."@,
            Reason::NumTurnsZero => "num_turns must be >= 1"@,
            Reason::RollbackDuringTurn => "Cannot rollback while a turn is in progress."@,
            Reason::RollbackNeedsHistory => "thread rollback requires persisted thread history"@,
            Reason::RollbackFlush(err) =>
                "failed to flush thread persistence for rollback replay: "@ + err@,
            Reason::RollbackLoad(err) =>
                "failed to load thread history for rollback replay: "@ + err@,
            Reason::RollbackAdmissionMissing => "thread rollback admission was not acquired"@,
            Reason::InvalidThreadSettings(err) => "invalid thread settings override: "@ + err@,
            Reason::ExecpolicyAmendment(err) => "Failed to apply execpolicy amendment: "@ + err@,
            Reason::UserMessageNotAdmitted(err) => "failed to admit user message: "@ + err@,
            Reason::ShutdownPersistence => "Failed to shutdown thread persistence"@,
            Reason::NonSteerableTurn =>
                "response items cannot be injected into a non-steerable turn"@,
            Reason::CompletionNeedsStableId =>
                "subagent completion notification requires a stable response item id"@,
            Reason::CompletionNoWriter(id) => "thread "@ + id.text()
                + " has no durable writer for a subagent completion notification"@,
            Reason::CompletionMaterialize(err) =>
                "failed to materialize the parent rollout for a subagent completion notification: "@
                    + err@,
            Reason::CompletionReconcile(err) =>
                "failed to reconcile subagent completion notification: "@ + err@,
            Reason::CompletionResolveRollout(err) =>
                "failed to resolve the parent rollout for a subagent completion notification: "@
                    + err@,
            Reason::CompletionReadRollout(err) =>
                "failed to read the parent rollout for a subagent completion notification: "@
                    + err@,
            Reason::CompletionNotPrepared =>
                "completion notification preparation returned no response item"@,
            Reason::RepairDuringShutdown =>
                "cannot restore saved thread persistence during shutdown"@,
            Reason::RepairSystemAgent =>
                "temporary system agents cannot be converted to saved tasks"@,
            Reason::RepairHistoryMode =>
                "saved thread history mode differs from the live session"@,
            Reason::RepairTurnLookup => "saved history turn lookup is unavailable"@,
            Reason::RepairConcurrent => "saved thread persistence was attached concurrently"@,
            Reason::Message(message) => message@,
        }
    }

    pub fn message(&self) -> (res: String)
        ensures
            res@ == self.text(),
    {
        match self {
            Reason::RestartBeforeContinuing =>
                "Thread persistence is in an indeterminate state. Restart this thread before continuing.".to_owned(),
            Reason::RestartBeforeSettings =>
                "Thread persistence is in an indeterminate state. Restart this thread before changing its settings.".to_owned(),
            Reason::RestartBeforeTurn =>
                "Thread persistence is in an indeterminate state. Restart this thread before starting another turn.".to_owned(),
            Reason::RestartBeforeRollback =>
                "Thread persistence is in an indeterminate state. Restart this thread before rolling it back.".to_owned(),
            Reason::NumTurnsZero => "num_turns must be >= 1".to_owned(),
            Reason::RollbackDuringTurn =>
                "Cannot rollback while a turn is in progress.".to_owned(),
            Reason::RollbackNeedsHistory =>
                "thread rollback requires persisted thread history".to_owned(),
            Reason::RollbackFlush(err) => join2(
                "failed to flush thread persistence for rollback replay: ",
                err.as_str(),
            ),
            Reason::RollbackLoad(err) => join2(
                "failed to load thread history for rollback replay: ",
                err.as_str(),
            ),
            Reason::RollbackAdmissionMissing =>
                "thread rollback admission was not acquired".to_owned(),
            Reason::InvalidThreadSettings(err) => join2(
                "invalid thread settings override: ",
                err.as_str(),
            ),
            Reason::ExecpolicyAmendment(err) => join2(
                "Failed to apply execpolicy amendment: ",
                err.as_str(),
            ),
            Reason::UserMessageNotAdmitted(err) => join2(
                "failed to admit user message: ",
                err.as_str(),
            ),
            Reason::ShutdownPersistence => "Failed to shutdown thread persistence".to_owned(),
            Reason::NonSteerableTurn =>
                "response items cannot be injected into a non-steerable turn".to_owned(),
            Reason::CompletionNeedsStableId =>
                "subagent completion notification requires a stable response item id".to_owned(),
            Reason::CompletionNoWriter(id) => join3(
                "thread ",
                id.to_text().as_str(),
                " has no durable writer for a subagent completion notification",
            ),
            Reason::CompletionMaterialize(err) => join2(
                "failed to materialize the parent rollout for a subagent completion notification: ",
                err.as_str(),
            ),
            Reason::CompletionReconcile(err) => join2(
                "failed to reconcile subagent completion notification: ",
                err.as_str(),
            ),
            Reason::CompletionResolveRollout(err) => join2(
                "failed to resolve the parent rollout for a subagent completion notification: ",
                err.as_str(),
            ),
            Reason::CompletionReadRollout(err) => join2(
                "failed to read the parent rollout for a subagent completion notification: ",
                err.as_str(),
            ),
            Reason::CompletionNotPrepared =>
                "completion notification preparation returned no response item".to_owned(),
            Reason::RepairDuringShutdown =>
                "cannot restore saved thread persistence during shutdown".to_owned(),
            Reason::RepairSystemAgent =>
                "temporary system agents cannot be converted to saved tasks".to_owned(),
            Reason::RepairHistoryMode =>
                "saved thread history mode differs from the live session".to_owned(),
            Reason::RepairTurnLookup => "saved history turn lookup is unavailable".to_owned(),
            Reason::RepairConcurrent =>
                "saved thread persistence was attached concurrently".to_owned(),
            Reason::Message(message) => message.clone(),
        }
    }
}

/// How an operation of the session fails.
#[derive(Clone, Debug, PartialEq, Eq)]
pub enum CodexErr {
    TurnAborted,
    InvalidRequest(Reason),
    Fatal(Reason),
    InternalAgentDied,
    ThreadNotFound(ThreadId),
    UnsupportedOperation(String),
    /// Any other error, as it is displayed.
    Other(String),
}

/// An error, together with how it is displayed.
#[derive(Clone, Debug, PartialEq, Eq)]
pub struct Failure {
    pub error: CodexErr,
    pub displayed: String,
}

/// A reason that comes of another error ends with that error, in its own words.
pub proof fn law_reasons_pass_errors_on(error: String, id: ThreadId)
    ensures
        Reason::Message(error).text() == error@,
        Reason::RollbackFlush(error).text()
            == "failed to flush thread persistence for rollback replay: "@ + error@,
        Reason::RollbackLoad(error).text()
            == "failed to load thread history for rollback replay: "@ + error@,
        Reason::InvalidThreadSettings(error).text() == "invalid thread settings override: "@
            + error@,
        Reason::ExecpolicyAmendment(error).text() == "Failed to apply execpolicy amendment: "@
            + error@,
        Reason::UserMessageNotAdmitted(error).text() == "failed to admit user message: "@ + error@,
        Reason::CompletionNoWriter(id).text() == "thread "@ + id.text()
            + " has no durable writer for a subagent completion notification"@,
        Reason::CompletionMaterialize(error).text()
            == "failed to materialize the parent rollout for a subagent completion notification: "@
            + error@,
        Reason::CompletionReconcile(error).text()
            == "failed to reconcile subagent completion notification: "@ + error@,
        Reason::CompletionResolveRollout(error).text()
            == "failed to resolve the parent rollout for a subagent completion notification: "@
            + error@,
        Reason::CompletionReadRollout(error).text()
            == "failed to read the parent rollout for a subagent completion notification: "@
            + error@,
{
}

} // verus!
