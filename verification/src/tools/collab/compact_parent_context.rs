//! Compacting the context of the parent on behalf of a watchdog.
use crate::errors::Failure;
use crate::ids::ThreadId;
use crate::text::blank;
use crate::text::lemma_blank_is_trimmed_empty;
use crate::text::trim;
use crate::text::trimmed;
use crate::tools::collab::handler::agent_refusal;
use crate::tools::collab::handler::collab_agent_error;
use crate::tools::refusal::FunctionCallError;
use crate::tools::refusal::Refusal;
use vstd::prelude::*;

verus! {

/// How an attempt to compact the parent ended.
#[allow(inconsistent_fields)]
#[derive(Clone, Debug, PartialEq, Eq)]
pub enum WatchdogParentCompactionResult {
    NotWatchdogHelper,
    ParentBusy { parent_thread_id: ThreadId },
    AlreadyInProgress { parent_thread_id: ThreadId },
    Submitted { parent_thread_id: ThreadId, submission_id: String },
}

/// The answer of the tool.
#[derive(Clone, Debug, PartialEq, Eq)]
pub struct CompactParentContextResult {
    pub parent_id: String,
    pub submission_id: String,
}

/// A note that goes with the call, without surrounding white space; a blank one counts as none.
pub fn note(text: Option<String>) -> (res: Option<String>)
    ensures
        res is Some <==> text is Some && !blank(text->Some_0@),
        res is Some ==> res->Some_0@ == trimmed(text->Some_0@),
{
    match text {
        Some(text) => {
            let inner: &str = trim(text.as_str());
            proof {
                lemma_blank_is_trimmed_empty(text@);
            }
            if inner.unicode_len() > 0 {
                Some(inner.to_owned())
            } else {
                None
            }
        },
        None => None,
    }
}

/// What the helper is told.
pub fn handle(
    helper: ThreadId,
    result: Result<WatchdogParentCompactionResult, Failure>,
) -> (res: Result<CompactParentContextResult, FunctionCallError>)
    ensures
        match result {
            Ok(WatchdogParentCompactionResult::Submitted { parent_thread_id, submission_id }) => {
                &&& res is Ok
                &&& res->Ok_0.parent_id@ == parent_thread_id.text()
                &&& res->Ok_0.submission_id == submission_id
            },
            Ok(WatchdogParentCompactionResult::NotWatchdogHelper) => res == Err::<
                CompactParentContextResult,
                FunctionCallError,
            >(FunctionCallError::RespondToModel(Refusal::NotWatchdogHelper)),
            Ok(WatchdogParentCompactionResult::ParentBusy { parent_thread_id }) => res == Err::<
                CompactParentContextResult,
                FunctionCallError,
            >(FunctionCallError::RespondToModel(Refusal::ParentBusy(parent_thread_id))),
            Ok(WatchdogParentCompactionResult::AlreadyInProgress { parent_thread_id }) => res
                == Err::<CompactParentContextResult, FunctionCallError>(
                FunctionCallError::RespondToModel(Refusal::CompactionInProgress(parent_thread_id)),
            ),
            Err(Failure { error, displayed }) => res == Err::<CompactParentContextResult, FunctionCallError>(
                FunctionCallError::RespondToModel(agent_refusal(helper, error, displayed)),
            ),
        },
{
    match result {
        Ok(WatchdogParentCompactionResult::Submitted { parent_thread_id, submission_id }) => Ok(
            CompactParentContextResult { parent_id: parent_thread_id.to_text(), submission_id },
        ),
        Ok(WatchdogParentCompactionResult::NotWatchdogHelper) => Err(
            FunctionCallError::RespondToModel(Refusal::NotWatchdogHelper),
        ),
        Ok(WatchdogParentCompactionResult::ParentBusy { parent_thread_id }) => Err(
            FunctionCallError::RespondToModel(Refusal::ParentBusy(parent_thread_id)),
        ),
        Ok(WatchdogParentCompactionResult::AlreadyInProgress { parent_thread_id }) => Err(
            FunctionCallError::RespondToModel(Refusal::CompactionInProgress(parent_thread_id)),
        ),
        Err(Failure { error, displayed }) => Err(collab_agent_error(helper, error, displayed)),
    }
}

/// A helper is told the submission of the compaction and its parent; where nothing was submitted,
/// why.
pub proof fn law_helper_is_told_what_became_of_the_compaction(
    helper: ThreadId,
    parent: ThreadId,
    submission_id: String,
    failure: Failure,
    res: Result<CompactParentContextResult, FunctionCallError>,
)
    ensures
        call_ensures(
            handle,
            (
                helper,
                Ok(
                    WatchdogParentCompactionResult::Submitted {
                        parent_thread_id: parent,
                        submission_id,
                    },
                ),
            ),
            res,
        ) ==> res is Ok && res->Ok_0.parent_id@ == parent.text() && res->Ok_0.submission_id
            == submission_id,
        call_ensures(
            handle,
            (helper, Ok(WatchdogParentCompactionResult::NotWatchdogHelper)),
            res,
        ) ==> res == Err::<CompactParentContextResult, FunctionCallError>(
            FunctionCallError::RespondToModel(Refusal::NotWatchdogHelper),
        ),
        call_ensures(
            handle,
            (
                helper,
                Ok(WatchdogParentCompactionResult::ParentBusy { parent_thread_id: parent }),
            ),
            res,
        ) ==> res == Err::<CompactParentContextResult, FunctionCallError>(
            FunctionCallError::RespondToModel(Refusal::ParentBusy(parent)),
        ),
        call_ensures(
            handle,
            (
                helper,
                Ok(WatchdogParentCompactionResult::AlreadyInProgress { parent_thread_id: parent }),
            ),
            res,
        ) ==> res == Err::<CompactParentContextResult, FunctionCallError>(
            FunctionCallError::RespondToModel(Refusal::CompactionInProgress(parent)),
        ),
        call_ensures(handle, (helper, Err(failure)), res) ==> res == Err::<
            CompactParentContextResult,
            FunctionCallError,
        >(
            FunctionCallError::RespondToModel(
                agent_refusal(helper, failure.error, failure.displayed),
            ),
        ),
{
}

/// A note keeps its words and loses the white space around them; one that is nothing but white
/// space is none.
pub proof fn law_note_keeps_its_words(text: String, res: Option<String>)
    ensures
        call_ensures(note, (None,), res) ==> res is None,
        call_ensures(note, (Some(text),), res) ==> (res is None <==> blank(text@)),
        call_ensures(note, (Some(text),), res) ==> (res matches Some(kept) ==> kept@ == trimmed(
            text@,
        )),
{
}

} // verus!
