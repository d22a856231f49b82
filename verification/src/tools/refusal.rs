//! What a tool answers when it does not do what was asked.
use crate::ids::ThreadId;
use crate::text::join2;
use crate::text::join3;
use crate::text::signed_decimal;
use crate::text::signed_decimal_text;
use vstd::prelude::*;

verus! {

/// Why a tool refuses.
#[allow(inconsistent_fields)]
#[derive(Clone, Debug, PartialEq, Eq)]
pub enum Refusal {
    UnsupportedPayload,
    UnsupportedTool(String),
    /// The id, and what is wrong with it.
    InvalidAgentId { id: String, error: String },
    EmptyMessage,
    WatchdogOfSubAgent,
    DepthLimit { max_depth: i32 },
    ResumeDepthLimit,
    IntervalNotPositive,
    NoReceiver,
    NotWatchdogHelper,
    ParentBusy(ThreadId),
    CompactionInProgress(ThreadId),
    NoIds,
    TimeoutNotPositive,
    ManagerUnavailable,
    SpawnFailed(String),
    AgentNotFound(ThreadId),
    AgentClosed(ThreadId),
    CollabFailed(String),
    ApprovalPolicy(String),
    SandboxPolicy(String),
    LocateRollout { id: ThreadId, error: String },
    ClosesItself,
    ClosesRoot,
    ClosesSupervisor,
    UnknownAgent,
    NoAgentPath,
    EmptyFollowup,
    EncryptedFollowup,
    FollowupOutsideCheckIn,
    FollowupNotFinished,
    SnoozeOutsideCheckIn,
    CompactParentFailed(String),
    Message(String),
}

impl Refusal {
    /// The words in which the tool refuses.
    pub open spec fn text(self) -> Seq<char> {
        match self {
            Refusal::UnsupportedPayload => "collab handler received unsupported payload"@,
            Refusal::UnsupportedTool(name) => "unsupported collab tool "@ + name@,
            Refusal::InvalidAgentId { id, error } => "invalid agent id "@ + id@ + (": "@ + error@),
            Refusal::EmptyMessage => "Empty message can't be sent to an agent"@,
            Refusal::WatchdogOfSubAgent => "watchdogs can only be spawned by root agents"@,
            Refusal::DepthLimit { max_depth } => "agent depth limit reached: max depth is "@
                + signed_decimal(max_depth as int),
            Refusal::ResumeDepthLimit => "Agent depth limit reached. Solve the task yourself."@,
            Refusal::IntervalNotPositive => "interval_s must be greater than zero"@,
            Refusal::NoReceiver => "send_input requires an id when no parent agent is available"@,
            Refusal::NotWatchdogHelper =>
                "compact_parent_context is only available to active watchdog helpers"@,
            Refusal::ParentBusy(id) => "parent agent "@ + id.text()
                + " has an active turn; compact_parent_context requires an idle parent"@,
            Refusal::CompactionInProgress(id) => "parent agent "@ + id.text()
                + " already has a compaction in progress"@,
            Refusal::NoIds => "ids must be non-empty"@,
            Refusal::TimeoutNotPositive => "timeout_ms must be greater than zero"@,
            Refusal::ManagerUnavailable => "collab manager unavailable"@,
            Refusal::SpawnFailed(error) => "collab spawn failed: "@ + error@,
            Refusal::AgentNotFound(id) => "agent with id "@ + id.text() + " not found"@,
            Refusal::AgentClosed(id) => "agent with id "@ + id.text() + " is closed"@,
            Refusal::CollabFailed(error) => "collab tool failed: "@ + error@,
            Refusal::ApprovalPolicy(error) => "approval_policy is invalid: "@ + error@,
            Refusal::SandboxPolicy(error) => "sandbox_policy is invalid: "@ + error@,
            Refusal::LocateRollout { id, error } =>
                "tool failed: failed to locate rollout for agent "@ + id.text() + (": "@ + error@),
            Refusal::ClosesItself => "an agent cannot close itself"@,
            Refusal::ClosesRoot => "root is not a spawned agent"@,
            Refusal::ClosesSupervisor =>
                "goal supervisor agents cannot be closed with close_agent"@,
            Refusal::UnknownAgent => "agent not found"@,
            Refusal::NoAgentPath => "target agent is missing an agent_path"@,
            Refusal::EmptyFollowup => "Empty message can't be sent to the supervised parent"@,
            Refusal::EncryptedFollowup =>
                "supervisor.followup_parent does not accept encrypted direct arguments."@,
            Refusal::FollowupOutsideCheckIn =>
                "supervisor.followup_parent is only available in goal supervisor check-in threads."@,
            Refusal::FollowupNotFinished =>
                "The parent received the follow-up, but the goal supervisor check-in did not finish."@,
            Refusal::SnoozeOutsideCheckIn =>
                "supervisor.snooze is only available in goal supervisor check-in threads."@,
            Refusal::CompactParentFailed(error) => "compact_parent_context failed: "@ + error@,
            Refusal::Message(message) => message@,
        }
    }

    pub fn message(&self) -> (res: String)
        ensures
            res@ == self.text(),
    {
        match self {
            Refusal::UnsupportedPayload =>
                "collab handler received unsupported payload".to_owned(),
            Refusal::UnsupportedTool(name) => join2("unsupported collab tool ", name.as_str()),
            Refusal::InvalidAgentId { id, error } => join3(
                "invalid agent id ",
                id.as_str(),
                join2(": ", error.as_str()).as_str(),
            ),
            Refusal::EmptyMessage => "Empty message can't be sent to an agent".to_owned(),
            Refusal::WatchdogOfSubAgent =>
                "watchdogs can only be spawned by root agents".to_owned(),
            Refusal::DepthLimit { max_depth } => join2(
                "agent depth limit reached: max depth is ",
                signed_decimal_text(*max_depth).as_str(),
            ),
            Refusal::ResumeDepthLimit =>
                "Agent depth limit reached. Solve the task yourself.".to_owned(),
            Refusal::IntervalNotPositive => "interval_s must be greater than zero".to_owned(),
            Refusal::NoReceiver =>
                "send_input requires an id when no parent agent is available".to_owned(),
            Refusal::NotWatchdogHelper =>
                "compact_parent_context is only available to active watchdog helpers".to_owned(),
            Refusal::ParentBusy(id) => join3(
                "parent agent ",
                id.to_text().as_str(),
                " has an active turn; compact_parent_context requires an idle parent",
            ),
            Refusal::CompactionInProgress(id) => join3(
                "parent agent ",
                id.to_text().as_str(),
                " already has a compaction in progress",
            ),
            Refusal::NoIds => "ids must be non-empty".to_owned(),
            Refusal::TimeoutNotPositive => "timeout_ms must be greater than zero".to_owned(),
            Refusal::ManagerUnavailable => "collab manager unavailable".to_owned(),
            Refusal::SpawnFailed(error) => join2("collab spawn failed: ", error.as_str()),
            Refusal::AgentNotFound(id) => join3(
                "agent with id ",
                id.to_text().as_str(),
                " not found",
            ),
            Refusal::AgentClosed(id) => join3("agent with id ", id.to_text().as_str(), " is closed"),
            Refusal::CollabFailed(error) => join2("collab tool failed: ", error.as_str()),
            Refusal::ApprovalPolicy(error) => join2("approval_policy is invalid: ", error.as_str()),
            Refusal::SandboxPolicy(error) => join2("sandbox_policy is invalid: ", error.as_str()),
            Refusal::LocateRollout { id, error } => join3(
                "tool failed: failed to locate rollout for agent ",
                id.to_text().as_str(),
                join2(": ", error.as_str()).as_str(),
            ),
            Refusal::ClosesItself => "an agent cannot close itself".to_owned(),
            Refusal::ClosesRoot => "root is not a spawned agent".to_owned(),
            Refusal::ClosesSupervisor =>
                "goal supervisor agents cannot be closed with close_agent".to_owned(),
            Refusal::UnknownAgent => "agent not found".to_owned(),
            Refusal::NoAgentPath => "target agent is missing an agent_path".to_owned(),
            Refusal::EmptyFollowup =>
                "Empty message can't be sent to the supervised parent".to_owned(),
            Refusal::EncryptedFollowup =>
                "supervisor.followup_parent does not accept encrypted direct arguments.".to_owned(),
            Refusal::FollowupOutsideCheckIn =>
                "supervisor.followup_parent is only available in goal supervisor check-in threads.".to_owned(),
            Refusal::FollowupNotFinished =>
                "The parent received the follow-up, but the goal supervisor check-in did not finish.".to_owned(),
            Refusal::SnoozeOutsideCheckIn =>
                "supervisor.snooze is only available in goal supervisor check-in threads.".to_owned(),
            Refusal::CompactParentFailed(error) => join2(
                "compact_parent_context failed: ",
                error.as_str(),
            ),
            Refusal::Message(message) => message.clone(),
        }
    }
}

/// How a tool call fails.
#[derive(Clone, Debug, PartialEq, Eq)]
pub enum FunctionCallError {
    /// The model is told.
    RespondToModel(Refusal),
    /// The turn cannot go on.
    Fatal(String),
}

/// A refusal names what it is about: the name, the id, the number or the error that it was given
/// stands in its words, after and before words that are always the same.
pub proof fn law_refusals_name_what_they_are_about(
    text: String,
    error: String,
    id: ThreadId,
    max_depth: i32,
)
    ensures
        Refusal::Message(text).text() == text@,
        Refusal::UnsupportedTool(text).text() == "unsupported collab tool "@ + text@,
        (Refusal::InvalidAgentId { id: text, error }).text() == "invalid agent id "@ + text@ + (": "@
            + error@),
        (Refusal::DepthLimit { max_depth }).text() == "agent depth limit reached: max depth is "@
            + signed_decimal(max_depth as int),
        Refusal::ParentBusy(id).text() == "parent agent "@ + id.text()
            + " has an active turn; compact_parent_context requires an idle parent"@,
        Refusal::CompactionInProgress(id).text() == "parent agent "@ + id.text()
            + " already has a compaction in progress"@,
        Refusal::SpawnFailed(error).text() == "collab spawn failed: "@ + error@,
        Refusal::AgentNotFound(id).text() == "agent with id "@ + id.text() + " not found"@,
        Refusal::AgentClosed(id).text() == "agent with id "@ + id.text() + " is closed"@,
        Refusal::CollabFailed(error).text() == "collab tool failed: "@ + error@,
        Refusal::ApprovalPolicy(error).text() == "approval_policy is invalid: "@ + error@,
        Refusal::SandboxPolicy(error).text() == "sandbox_policy is invalid: "@ + error@,
        (Refusal::LocateRollout { id, error }).text()
            == "tool failed: failed to locate rollout for agent "@ + id.text() + (": "@ + error@),
        Refusal::CompactParentFailed(error).text() == "compact_parent_context failed: "@ + error@,
{
}

} // verus!
