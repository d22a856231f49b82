//! Compacting the context of the agent that a supervisor supervises.
use crate::ids::ThreadId;
use crate::tools::refusal::FunctionCallError;
use crate::tools::refusal::Refusal;
use vstd::prelude::*;

verus! {

/// How an attempt to compact the parent ended.
#[allow(inconsistent_fields)]
#[derive(Clone, Debug, PartialEq, Eq)]
pub enum SupervisorParentCompactionResult {
    NotSupervisorHelper,
    ParentBusy { parent_thread_id: ThreadId },
    Submitted { parent_thread_id: ThreadId, submission_id: String },
}

/// The answer of the tool.
#[derive(Clone, Debug, PartialEq, Eq)]
pub struct CompactParentContextResult {
    pub kind: CompactionKind,
    pub parent_thread_id: Option<String>,
    pub submission_id: Option<String>,
}

/// What kind of an answer it is.
#[derive(Clone, Copy, Debug, PartialEq, Eq, Structural)]
pub enum CompactionKind {
    NotSupervisorHelper,
    ParentBusy,
    Submitted,
}

impl CompactionKind {
    pub open spec fn text(self) -> Seq<char> {
        match self {
            CompactionKind::NotSupervisorHelper => "not_supervisor_helper"@,
            CompactionKind::ParentBusy => "parent_busy"@,
            CompactionKind::Submitted => "submitted"@,
        }
    }

    pub fn name(&self) -> (res: &'static str)
        ensures
            res@ == self.text(),
    {
        match self {
            CompactionKind::NotSupervisorHelper => "not_supervisor_helper",
            CompactionKind::ParentBusy => "parent_busy",
            CompactionKind::Submitted => "submitted",
        }
    }
}

impl CompactParentContextResult {
    /// Whether the model is not asked for more after this answer.
    pub fn terminal_no_response(&self) -> (res: bool)
        ensures
            res == (self.kind != CompactionKind::NotSupervisorHelper),
    {
        self.kind != CompactionKind::NotSupervisorHelper
    }
}

/// The answer of the tool, and whether the check-in ends with it: it does for every supervisor,
/// whether or not its parent could be compacted.
pub fn handle(result: Result<SupervisorParentCompactionResult, String>) -> (res: Result<
    (CompactParentContextResult, bool),
    FunctionCallError,
>)
    ensures
        match result {
            Err(error) => res == Err::<(CompactParentContextResult, bool), FunctionCallError>(
                FunctionCallError::RespondToModel(Refusal::CompactParentFailed(error)),
            ),
            Ok(SupervisorParentCompactionResult::NotSupervisorHelper) => {
                &&& res is Ok
                &&& !res->Ok_0.1
                &&& res->Ok_0.0 == (CompactParentContextResult {
                    kind: CompactionKind::NotSupervisorHelper,
                    parent_thread_id: None,
                    submission_id: None,
                })
            },
            Ok(SupervisorParentCompactionResult::ParentBusy { parent_thread_id }) => {
                &&& res is Ok
                &&& res->Ok_0.1
                &&& res->Ok_0.0.kind == CompactionKind::ParentBusy
                &&& res->Ok_0.0.parent_thread_id is Some
                &&& res->Ok_0.0.parent_thread_id->Some_0@ == parent_thread_id.text()
                &&& res->Ok_0.0.submission_id is None
            },
            Ok(SupervisorParentCompactionResult::Submitted { parent_thread_id, submission_id }) => {
                &&& res is Ok
                &&& res->Ok_0.1
                &&& res->Ok_0.0.kind == CompactionKind::Submitted
                &&& res->Ok_0.0.parent_thread_id is Some
                &&& res->Ok_0.0.parent_thread_id->Some_0@ == parent_thread_id.text()
                &&& res->Ok_0.0.submission_id == Some(submission_id)
            },
        },
{
    match result {
        Err(error) => Err(FunctionCallError::RespondToModel(Refusal::CompactParentFailed(error))),
        Ok(SupervisorParentCompactionResult::NotSupervisorHelper) => Ok(
            (
                CompactParentContextResult {
                    kind: CompactionKind::NotSupervisorHelper,
                    parent_thread_id: None,
                    submission_id: None,
                },
                false,
            ),
        ),
        Ok(SupervisorParentCompactionResult::ParentBusy { parent_thread_id }) => Ok(
            (
                CompactParentContextResult {
                    kind: CompactionKind::ParentBusy,
                    parent_thread_id: Some(parent_thread_id.to_text()),
                    submission_id: None,
                },
                true,
            ),
        ),
        Ok(SupervisorParentCompactionResult::Submitted { parent_thread_id, submission_id }) => Ok(
            (
                CompactParentContextResult {
                    kind: CompactionKind::Submitted,
                    parent_thread_id: Some(parent_thread_id.to_text()),
                    submission_id: Some(submission_id),
                },
                true,
            ),
        ),
    }
}

/// The check-in of a supervisor ends with every answer but a failure, and the model is asked for
/// more only where the caller is no supervisor. What was submitted is named, and the parent where
/// there is one.
pub proof fn law_check_in_ends_with_the_answer(
    parent: ThreadId,
    submission_id: String,
    error: String,
    res: Result<(CompactParentContextResult, bool), FunctionCallError>,
)
    ensures
        call_ensures(
            handle,
            (Ok(SupervisorParentCompactionResult::NotSupervisorHelper),),
            res,
        ) ==> res is Ok && !res->Ok_0.1 && res->Ok_0.0.kind is NotSupervisorHelper
            && res->Ok_0.0.parent_thread_id is None && res->Ok_0.0.submission_id is None,
        call_ensures(
            handle,
            (Ok(SupervisorParentCompactionResult::ParentBusy { parent_thread_id: parent }),),
            res,
        ) ==> res is Ok && res->Ok_0.1 && res->Ok_0.0.kind is ParentBusy && (
        res->Ok_0.0.parent_thread_id matches Some(id) && id@ == parent.text())
            && res->Ok_0.0.submission_id is None,
        call_ensures(
            handle,
            (
                Ok(
                    SupervisorParentCompactionResult::Submitted {
                        parent_thread_id: parent,
                        submission_id,
                    },
                ),
            ),
            res,
        ) ==> res is Ok && res->Ok_0.1 && res->Ok_0.0.kind is Submitted && (
        res->Ok_0.0.parent_thread_id matches Some(id) && id@ == parent.text())
            && res->Ok_0.0.submission_id == Some(submission_id),
        call_ensures(handle, (Err(error),), res) ==> res == Err::<
            (CompactParentContextResult, bool),
            FunctionCallError,
        >(FunctionCallError::RespondToModel(Refusal::CompactParentFailed(error))),
{
}

} // verus!
