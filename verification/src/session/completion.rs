//! Recording that a subagent has finished, at a boundary of its parent's history.
use crate::errors::CodexErr;
use crate::errors::Reason;
use crate::ids::ThreadId;
use crate::protocol::Event;
use crate::protocol::EventMsg;
use crate::protocol::ResponseItem;
use crate::protocol::RolloutItem;
use crate::session::input_queue::ActiveTurn;
use crate::session::input_queue::DurableWaiter;
use crate::session::input_queue::InputQueue;
use crate::session::input_queue::InputQueueActivity;
use crate::session::input_queue::TurnInput;
use crate::session::input_queue::awaits;
use crate::session::input_queue::same_turn;
use crate::session::input_queue::turn_input;
use crate::text::same_text;
use vstd::prelude::*;

verus! {

/// How long a recording pauses before it tries again, in milliseconds.
pub const COMPLETION_RETRY_MS: u64 = 50;

/// `res` is the first of `items` with the identity `id`.
pub open spec fn is_first_with_id(
    items: Seq<ResponseItem>,
    id: Seq<char>,
    res: Option<&ResponseItem>,
) -> bool {
    match res {
        Some(found) => exists|i: int|
            0 <= i < items.len() && #[trigger] items[i] == *found && items[i].has_id(id) && (
            forall|k: int| 0 <= k < i ==> !(#[trigger] items[k]).has_id(id)),
        None => forall|k: int| 0 <= k < items.len() ==> !(#[trigger] items[k]).has_id(id),
    }
}

/// Whether a saved record holds a response item with the identity `id`.
pub open spec fn holds_id(record: RolloutItem, id: Seq<char>) -> bool {
    match record {
        RolloutItem::ResponseItem(item) => item.has_id(id),
        RolloutItem::Compacted { replacement_history: Some(items) } => exists|i: int|
            0 <= i < items@.len() && (#[trigger] items@[i]).has_id(id),
        _ => false,
    }
}

/// `found` is what `record` holds under the identity `id`.
pub open spec fn is_held(record: RolloutItem, id: Seq<char>, found: &ResponseItem) -> bool {
    match record {
        RolloutItem::ResponseItem(item) => item == *found && item.has_id(id),
        RolloutItem::Compacted { replacement_history: Some(items) } => is_first_with_id(
            items@,
            id,
            Some(found),
        ),
        _ => false,
    }
}

/// `res` is what the last of `records` that holds the identity `id` has under it.
pub open spec fn is_latest_with_id(
    records: Seq<RolloutItem>,
    id: Seq<char>,
    res: Option<&ResponseItem>,
) -> bool {
    match res {
        Some(found) => exists|i: int|
            0 <= i < records.len() && is_held(#[trigger] records[i], id, found) && (forall|k: int|
                i < k < records.len() ==> !holds_id(#[trigger] records[k], id)),
        None => forall|k: int| 0 <= k < records.len() ==> !holds_id(#[trigger] records[k], id),
    }
}

fn has_item_id(item: &ResponseItem, item_id: &str) -> (res: bool)
    ensures
        res == item.has_id(item_id@),
{
    match item.id() {
        Some(id) => same_text(id.as_str(), item_id),
        None => false,
    }
}

/// The first of `items` with the identity `item_id`.
pub fn response_item_with_id<'a>(items: &'a Vec<ResponseItem>, item_id: &str) -> (res: Option<
    &'a ResponseItem,
>)
    ensures
        is_first_with_id(items@, item_id@, res),
{
    let mut i: usize = 0;
    while i < items.len()
        invariant
            i <= items.len(),
            forall|k: int| 0 <= k < i ==> !(#[trigger] items@[k]).has_id(item_id@),
        decreases items.len() - i,
    {
        if has_item_id(&items[i], item_id) {
            assert(items@[i as int] == items[i as int]);
            return Some(&items[i]);
        }
        i = i + 1;
    }
    None
}

/// The response item that saved records hold under `item_id`, the latest where there are several.
pub fn persisted_response_item_with_id<'a>(items: &'a Vec<RolloutItem>, item_id: &str) -> (res:
    Option<&'a ResponseItem>)
    ensures
        is_latest_with_id(items@, item_id@, res),
{
    let mut i: usize = items.len();
    while i > 0
        invariant
            i <= items.len(),
            forall|k: int| i <= k < items.len() ==> !holds_id(#[trigger] items@[k], item_id@),
        decreases i,
    {
        i = i - 1;
        match &items[i] {
            RolloutItem::ResponseItem(item) => {
                if has_item_id(item, item_id) {
                    assert(is_held(items@[i as int], item_id@, item));
                    return Some(item);
                }
            },
            RolloutItem::Compacted { replacement_history: Some(history) } => {
                let found: Option<&ResponseItem> = response_item_with_id(history, item_id);
                if let Some(item) = found {
                    assert(is_held(items@[i as int], item_id@, item));
                    return Some(item);
                }
            },
            _ => {},
        }
    }
    None
}

/// What becomes of a notice that a subagent has finished.
#[derive(Clone, Debug, PartialEq, Eq)]
pub enum CompletionRoute<S> {
    /// The notice cannot be recorded at all.
    Refused(CodexErr),
    /// The active turn will record it; the activity is to be published to listeners.
    Queued(InputQueueActivity),
    /// It is to be recorded now, under a turn of its own.
    AtBoundary(ResponseItem, S),
}

/// Queues the notice with the active turn, or hands it back to be recorded while idle.
pub fn route_completion<S>(
    queue: &mut InputQueue<S>,
    active: &mut Option<ActiveTurn>,
    item: ResponseItem,
    sender: S,
) -> (res: CompletionRoute<S>)
    requires
        old(queue).well_formed(),
    ensures
        final(queue).well_formed(),
        final(queue).mailbox == old(queue).mailbox,
        res is Queued <==> {
            &&& item.spec_id() is Some
            &&& old(active).is_some() && old(active)->Some_0.task is Some
            &&& !awaits(old(queue).waiters@, item.spec_id()->Some_0@)
        },
        res is Queued ==> {
            &&& res->Queued_0 == InputQueueActivity::Steer
            &&& final(queue).waiters@ == old(queue).waiters@.push(
                DurableWaiter { item_id: item.spec_id()->Some_0, sender },
            )
            &&& final(active).is_some() && same_turn(old(active)->Some_0, final(active)->Some_0)
            &&& turn_input(*final(active)) == turn_input(*old(active)).push(
                TurnInput::ResponseItem(item),
            )
            &&& final(active)->Some_0.turn_state.accepts_mail()
        },
        !(res is Queued) ==> {
            &&& final(queue).waiters == old(queue).waiters
            &&& *final(active) == *old(active)
            &&& res == if item.spec_id() is None {
                CompletionRoute::Refused(CodexErr::InvalidRequest(Reason::CompletionNeedsStableId))
            } else {
                CompletionRoute::AtBoundary(item, sender)
            }
        },
{
    if item.id().is_none() {
        return CompletionRoute::Refused(
            CodexErr::InvalidRequest(Reason::CompletionNeedsStableId),
        );
    }
    match queue.enqueue_durable_response_item_for_active_turn(active, item, sender) {
        Ok(activity) => CompletionRoute::Queued(activity),
        Err((item, sender)) => CompletionRoute::AtBoundary(item, sender),
    }
}

/// What a receipt says of a queued notice; a receipt that is dropped unanswered means that the
/// session has died.
pub fn receipt_outcome(receipt: Option<Result<(), String>>) -> (res: Result<(), CodexErr>)
    ensures
        res == match receipt {
            None => Err::<(), CodexErr>(CodexErr::InternalAgentDied),
            Some(Err(message)) => Err(CodexErr::Fatal(Reason::Message(message))),
            Some(Ok(())) => Ok(()),
        },
{
    match receipt {
        None => Err(CodexErr::InternalAgentDied),
        Some(Err(message)) => Err(CodexErr::Fatal(Reason::Message(message))),
        Some(Ok(())) => Ok(()),
    }
}

/// How far the recording of a notice has come. Each state names what it waits for.
#[derive(Debug, PartialEq, Eq)]
pub enum CompletionState {
    Admission { thread_id: ThreadId, item: ResponseItem },
    HistoryLock { thread_id: ThreadId, item: ResponseItem },
    Writer { thread_id: ThreadId, item: ResponseItem },
    Materialized { item: ResponseItem },
    Flushed { item: ResponseItem },
    RolloutPath { item: ResponseItem },
    Prepared,
    StateLock { prepared: ResponseItem },
    Recorded { prepared: ResponseItem },
    FirstRead { to_persist: ResponseItem, recorded: bool },
    Appended { to_persist: ResponseItem, recorded: bool },
    Reflushed { to_persist: ResponseItem, recorded: bool, append_failed: bool },
    Readback { to_persist: ResponseItem, recorded: bool, append_failed: bool },
    /// Pausing before the next attempt, which appends again or only flushes.
    Pause { to_persist: ResponseItem, recorded: bool, append_failed: bool, append: bool },
    Announced,
    Done,
}

/// What has come back.
#[derive(Debug, PartialEq, Eq)]
pub enum CompletionEvent {
    Admitted(bool),
    /// The lock is held, and this says whether the thread must be restarted first.
    Locked { restart_required: bool },
    /// Whether the thread has a durable writer.
    Writer(bool),
    Persisted(Result<(), String>),
    RolloutPath(Result<(), String>),
    Prepared(Option<ResponseItem>),
    /// The item as the live history already holds it.
    Recorded(Option<ResponseItem>),
    /// The item as the saved rollout holds it.
    Read(Result<Option<ResponseItem>, String>),
    /// Whether the append reported an error.
    Appended { failed: bool },
    Reflushed,
    Slept,
    Announced,
}

/// What to do next.
#[derive(Debug, PartialEq, Eq)]
pub enum CompletionAction {
    AcquireAdmission,
    LockHistory,
    FindWriter,
    Materialize,
    Flush,
    ResolveRollout,
    Prepare(ResponseItem),
    LockState,
    LookUpRecorded,
    ReadRollout,
    /// Append the state's `to_persist` to the rollout.
    Append,
    /// Flush; a failure here is only worth a log line.
    Reflush,
    /// Pause for `COMPLETION_RETRY_MS`.
    Sleep,
    /// Record the item in the live history and report it to clients.
    RecordAndAnnounce(ResponseItem),
    Finish(Result<(), CodexErr>),
}

/// The first step for a notice: it needs an identity that outlasts the process.
pub open spec fn completion_first(thread_id: ThreadId, item: ResponseItem) -> (
    CompletionState,
    CompletionAction,
) {
    if item.spec_id() is None {
        (
            CompletionState::Done,
            CompletionAction::Finish(
                Err(CodexErr::InvalidRequest(Reason::CompletionNeedsStableId)),
            ),
        )
    } else {
        (CompletionState::Admission { thread_id, item }, CompletionAction::AcquireAdmission)
    }
}

pub open spec fn completion_failed(error: CodexErr) -> (CompletionState, CompletionAction) {
    (CompletionState::Done, CompletionAction::Finish(Err(error)))
}

/// The item is durable: it joins the live history unless that holds it already.
pub open spec fn completion_durable(recorded: bool, item: ResponseItem) -> (
    CompletionState,
    CompletionAction,
) {
    if recorded {
        (CompletionState::Done, CompletionAction::Finish(Ok(())))
    } else {
        (CompletionState::Announced, CompletionAction::RecordAndAnnounce(item))
    }
}

/// The next step, nothing where `event` does not answer what `state` waits for.
pub open spec fn completion_next(state: CompletionState, event: CompletionEvent) -> Option<
    (CompletionState, CompletionAction),
> {
    match (state, event) {
        (
            CompletionState::Admission { thread_id, item },
            CompletionEvent::Admitted(admitted),
        ) => Some(
            if admitted {
                (CompletionState::HistoryLock { thread_id, item }, CompletionAction::LockHistory)
            } else {
                completion_failed(CodexErr::TurnAborted)
            },
        ),
        (
            CompletionState::HistoryLock { thread_id, item },
            CompletionEvent::Locked { restart_required },
        ) => Some(
            if restart_required {
                completion_failed(CodexErr::TurnAborted)
            } else {
                (CompletionState::Writer { thread_id, item }, CompletionAction::FindWriter)
            },
        ),
        (CompletionState::Writer { thread_id, item }, CompletionEvent::Writer(present)) => Some(
            if present {
                (CompletionState::Materialized { item }, CompletionAction::Materialize)
            } else {
                completion_failed(CodexErr::Fatal(Reason::CompletionNoWriter(thread_id)))
            },
        ),
        (CompletionState::Materialized { item }, CompletionEvent::Persisted(result)) => Some(
            match result {
                Ok(()) => (CompletionState::Flushed { item }, CompletionAction::Flush),
                Err(err) => completion_failed(
                    CodexErr::Fatal(Reason::CompletionMaterialize(err)),
                ),
            },
        ),
        (CompletionState::Flushed { item }, CompletionEvent::Persisted(result)) => Some(
            match result {
                Ok(()) => (CompletionState::RolloutPath { item }, CompletionAction::ResolveRollout),
                Err(err) => completion_failed(CodexErr::Fatal(Reason::CompletionReconcile(err))),
            },
        ),
        (CompletionState::RolloutPath { item }, CompletionEvent::RolloutPath(result)) => Some(
            match result {
                Ok(()) => (CompletionState::Prepared, CompletionAction::Prepare(item)),
                Err(err) => completion_failed(
                    CodexErr::Fatal(Reason::CompletionResolveRollout(err)),
                ),
            },
        ),
        (CompletionState::Prepared, CompletionEvent::Prepared(prepared)) => Some(
            match prepared {
                Some(prepared) => (
                    CompletionState::StateLock { prepared },
                    CompletionAction::LockState,
                ),
                None => completion_failed(CodexErr::Fatal(Reason::CompletionNotPrepared)),
            },
        ),
        (
            CompletionState::StateLock { prepared },
            CompletionEvent::Locked { restart_required },
        ) => Some(
            if restart_required {
                completion_failed(CodexErr::TurnAborted)
            } else {
                (CompletionState::Recorded { prepared }, CompletionAction::LookUpRecorded)
            },
        ),
        (CompletionState::Recorded { prepared }, CompletionEvent::Recorded(recorded)) => Some(
            match recorded {
                Some(item) => (
                    CompletionState::FirstRead { to_persist: item, recorded: true },
                    CompletionAction::ReadRollout,
                ),
                None => (
                    CompletionState::FirstRead { to_persist: prepared, recorded: false },
                    CompletionAction::ReadRollout,
                ),
            },
        ),
        (CompletionState::FirstRead { to_persist, recorded }, CompletionEvent::Read(read)) => Some(
            match read {
                Ok(Some(item)) => completion_durable(recorded, item),
                Ok(None) => (
                    CompletionState::Appended { to_persist, recorded },
                    CompletionAction::Append,
                ),
                Err(err) => completion_failed(CodexErr::Fatal(Reason::CompletionReadRollout(err))),
            },
        ),
        (
            CompletionState::Appended { to_persist, recorded },
            CompletionEvent::Appended { failed },
        ) => Some(
            (
                CompletionState::Reflushed { to_persist, recorded, append_failed: failed },
                CompletionAction::Reflush,
            ),
        ),
        (
            CompletionState::Reflushed { to_persist, recorded, append_failed },
            CompletionEvent::Reflushed,
        ) => Some(
            (
                CompletionState::Readback { to_persist, recorded, append_failed },
                CompletionAction::ReadRollout,
            ),
        ),
        (
            CompletionState::Readback { to_persist, recorded, append_failed },
            CompletionEvent::Read(read),
        ) => Some(
            match read {
                Ok(Some(item)) => completion_durable(recorded, item),
                Ok(None) => (
                    CompletionState::Pause {
                        to_persist,
                        recorded,
                        append_failed,
                        append: append_failed,
                    },
                    CompletionAction::Sleep,
                ),
                Err(_) => (
                    CompletionState::Pause { to_persist, recorded, append_failed, append: false },
                    CompletionAction::Sleep,
                ),
            },
        ),
        (
            CompletionState::Pause { to_persist, recorded, append_failed, append },
            CompletionEvent::Slept,
        ) => Some(
            if append {
                (CompletionState::Appended { to_persist, recorded }, CompletionAction::Append)
            } else {
                (
                    CompletionState::Reflushed { to_persist, recorded, append_failed },
                    CompletionAction::Reflush,
                )
            },
        ),
        (CompletionState::Announced, CompletionEvent::Announced) => Some(
            (CompletionState::Done, CompletionAction::Finish(Ok(()))),
        ),
        _ => None,
    }
}

/// Starts to record a notice at a boundary of the parent's history.
pub fn start_completion(thread_id: ThreadId, item: ResponseItem) -> (res: (
    CompletionState,
    CompletionAction,
))
    ensures
        res == completion_first(thread_id, item),
{
    if item.id().is_none() {
        (
            CompletionState::Done,
            CompletionAction::Finish(
                Err(CodexErr::InvalidRequest(Reason::CompletionNeedsStableId)),
            ),
        )
    } else {
        (CompletionState::Admission { thread_id, item }, CompletionAction::AcquireAdmission)
    }
}

fn fail_completion(error: CodexErr) -> (res: (CompletionState, CompletionAction))
    ensures
        res == completion_failed(error),
{
    (CompletionState::Done, CompletionAction::Finish(Err(error)))
}

fn settle_completion(recorded: bool, item: ResponseItem) -> (res: (
    CompletionState,
    CompletionAction,
))
    ensures
        res == completion_durable(recorded, item),
{
    if recorded {
        (CompletionState::Done, CompletionAction::Finish(Ok(())))
    } else {
        (CompletionState::Announced, CompletionAction::RecordAndAnnounce(item))
    }
}

/// Takes the next step. An event that does not answer what the state waits for is handed back.
pub fn step_completion(state: CompletionState, event: CompletionEvent) -> (res: Result<
    (CompletionState, CompletionAction),
    (CompletionState, CompletionEvent),
>)
    ensures
        res == match completion_next(state, event) {
            Some(next) => Ok::<
                (CompletionState, CompletionAction),
                (CompletionState, CompletionEvent),
            >(next),
            None => Err((state, event)),
        },
{
    let next: (CompletionState, CompletionAction) = match (state, event) {
        (CompletionState::Admission { thread_id, item }, CompletionEvent::Admitted(admitted)) => {
            if admitted {
                (CompletionState::HistoryLock { thread_id, item }, CompletionAction::LockHistory)
            } else {
                fail_completion(CodexErr::TurnAborted)
            }
        },
        (
            CompletionState::HistoryLock { thread_id, item },
            CompletionEvent::Locked { restart_required },
        ) => {
            if restart_required {
                fail_completion(CodexErr::TurnAborted)
            } else {
                (CompletionState::Writer { thread_id, item }, CompletionAction::FindWriter)
            }
        },
        (CompletionState::Writer { thread_id, item }, CompletionEvent::Writer(present)) => {
            if present {
                (CompletionState::Materialized { item }, CompletionAction::Materialize)
            } else {
                fail_completion(CodexErr::Fatal(Reason::CompletionNoWriter(thread_id)))
            }
        },
        (CompletionState::Materialized { item }, CompletionEvent::Persisted(result)) => {
            match result {
                Ok(()) => (CompletionState::Flushed { item }, CompletionAction::Flush),
                Err(err) => fail_completion(CodexErr::Fatal(Reason::CompletionMaterialize(err))),
            }
        },
        (CompletionState::Flushed { item }, CompletionEvent::Persisted(result)) => {
            match result {
                Ok(()) => (CompletionState::RolloutPath { item }, CompletionAction::ResolveRollout),
                Err(err) => fail_completion(CodexErr::Fatal(Reason::CompletionReconcile(err))),
            }
        },
        (CompletionState::RolloutPath { item }, CompletionEvent::RolloutPath(result)) => {
            match result {
                Ok(()) => (CompletionState::Prepared, CompletionAction::Prepare(item)),
                Err(err) => fail_completion(
                    CodexErr::Fatal(Reason::CompletionResolveRollout(err)),
                ),
            }
        },
        (CompletionState::Prepared, CompletionEvent::Prepared(prepared)) => {
            match prepared {
                Some(prepared) => (
                    CompletionState::StateLock { prepared },
                    CompletionAction::LockState,
                ),
                None => fail_completion(CodexErr::Fatal(Reason::CompletionNotPrepared)),
            }
        },
        (
            CompletionState::StateLock { prepared },
            CompletionEvent::Locked { restart_required },
        ) => {
            if restart_required {
                fail_completion(CodexErr::TurnAborted)
            } else {
                (CompletionState::Recorded { prepared }, CompletionAction::LookUpRecorded)
            }
        },
        (CompletionState::Recorded { prepared }, CompletionEvent::Recorded(recorded)) => {
            match recorded {
                Some(item) => (
                    CompletionState::FirstRead { to_persist: item, recorded: true },
                    CompletionAction::ReadRollout,
                ),
                None => (
                    CompletionState::FirstRead { to_persist: prepared, recorded: false },
                    CompletionAction::ReadRollout,
                ),
            }
        },
        (CompletionState::FirstRead { to_persist, recorded }, CompletionEvent::Read(read)) => {
            match read {
                Ok(Some(item)) => settle_completion(recorded, item),
                Ok(None) => (
                    CompletionState::Appended { to_persist, recorded },
                    CompletionAction::Append,
                ),
                Err(err) => fail_completion(CodexErr::Fatal(Reason::CompletionReadRollout(err))),
            }
        },
        (
            CompletionState::Appended { to_persist, recorded },
            CompletionEvent::Appended { failed },
        ) => (
            CompletionState::Reflushed { to_persist, recorded, append_failed: failed },
            CompletionAction::Reflush,
        ),
        (
            CompletionState::Reflushed { to_persist, recorded, append_failed },
            CompletionEvent::Reflushed,
        ) => (
            CompletionState::Readback { to_persist, recorded, append_failed },
            CompletionAction::ReadRollout,
        ),
        (
            CompletionState::Readback { to_persist, recorded, append_failed },
            CompletionEvent::Read(read),
        ) => {
            match read {
                Ok(Some(item)) => settle_completion(recorded, item),
                Ok(None) => (
                    CompletionState::Pause {
                        to_persist,
                        recorded,
                        append_failed,
                        append: append_failed,
                    },
                    CompletionAction::Sleep,
                ),
                Err(_) => (
                    CompletionState::Pause { to_persist, recorded, append_failed, append: false },
                    CompletionAction::Sleep,
                ),
            }
        },
        (
            CompletionState::Pause { to_persist, recorded, append_failed, append },
            CompletionEvent::Slept,
        ) => {
            if append {
                (CompletionState::Appended { to_persist, recorded }, CompletionAction::Append)
            } else {
                (
                    CompletionState::Reflushed { to_persist, recorded, append_failed },
                    CompletionAction::Reflush,
                )
            }
        },
        (CompletionState::Announced, CompletionEvent::Announced) => (
            CompletionState::Done,
            CompletionAction::Finish(Ok(())),
        ),
        (state, event) => {
            return Err((state, event));
        },
    };
    Ok(next)
}

/// The report of a recorded notice.
pub fn raw_response_item_event(sub_id: String, item: ResponseItem) -> (res: Event)
    ensures
        res == (Event { id: sub_id, msg: EventMsg::RawResponseItem { item } }),
{
    Event { id: sub_id, msg: EventMsg::RawResponseItem { item } }
}

/// Where a recording stands after `events`, and all that it asked for; nothing where an event
/// does not answer what the recording waited for.
pub open spec fn completion_run(
    thread_id: ThreadId,
    item: ResponseItem,
    events: Seq<CompletionEvent>,
) -> Option<(CompletionState, Seq<CompletionAction>)>
    decreases events.len(),
{
    if events.len() == 0 {
        let first = completion_first(thread_id, item);
        Some((first.0, seq![first.1]))
    } else {
        match completion_run(thread_id, item, events.drop_last()) {
            Some((state, actions)) => match completion_next(state, events.last()) {
                Some((next, action)) => Some((next, actions.push(action))),
                None => None,
            },
            None => None,
        }
    }
}

/// Whether the latest append reported an error.
pub open spec fn latest_append_failed(events: Seq<CompletionEvent>) -> bool
    decreases events.len(),
{
    if events.len() == 0 {
        false
    } else {
        match events.last() {
            CompletionEvent::Appended { failed } => failed,
            _ => latest_append_failed(events.drop_last()),
        }
    }
}

/// How often an append was asked for.
pub open spec fn appends(actions: Seq<CompletionAction>) -> nat
    decreases actions.len(),
{
    if actions.len() == 0 {
        0
    } else {
        appends(actions.drop_last()) + if actions.last() is Append {
            1nat
        } else {
            0nat
        }
    }
}

/// Whether the rollout was read and held the item.
pub open spec fn read_back(events: Seq<CompletionEvent>, item: ResponseItem) -> bool {
    events.contains(CompletionEvent::Read(Ok(Some(item))))
}

/// Whether the live history was found to hold the item already.
pub open spec fn found_recorded(events: Seq<CompletionEvent>) -> bool {
    exists|i: int|
        0 <= i < events.len() && ((#[trigger] events[i]) matches CompletionEvent::Recorded(found)
            && found is Some)
}

/// Whether a lock was taken on a thread that has to be restarted.
pub open spec fn found_fenced(events: Seq<CompletionEvent>) -> bool {
    exists|i: int|
        0 <= i < events.len() && ((#[trigger] events[i]) matches CompletionEvent::Locked {
            restart_required,
        } && restart_required)
}

/// What holds of every state that a recording reaches.
spec fn completion_invariant(
    state: CompletionState,
    events: Seq<CompletionEvent>,
    actions: Seq<CompletionAction>,
) -> bool {
    &&& match state {
        CompletionState::Appended { recorded, .. } => appends(actions) > 0 && recorded
            == found_recorded(events) && !found_fenced(events),
        CompletionState::Reflushed { recorded, append_failed, .. } => appends(actions) > 0
            && append_failed == latest_append_failed(events) && recorded == found_recorded(events)
            && !found_fenced(events),
        CompletionState::Readback { recorded, append_failed, .. } => appends(actions) > 0
            && append_failed == latest_append_failed(events) && recorded == found_recorded(events)
            && !found_fenced(events),
        CompletionState::Pause { recorded, append_failed, append, .. } => {
            &&& appends(actions) > 0
            &&& append_failed == latest_append_failed(events)
            &&& recorded == found_recorded(events)
            &&& !found_fenced(events)
            &&& events.len() > 0
            &&& append ==> append_failed && events.last() == CompletionEvent::Read(Ok(None))
        },
        CompletionState::FirstRead { recorded, .. } => appends(actions) == 0 && recorded
            == found_recorded(events) && !found_fenced(events),
        CompletionState::Announced => !found_recorded(events) && !found_fenced(events) && (
        exists|item: ResponseItem| read_back(events, item)),
        CompletionState::Done => true,
        _ => appends(actions) == 0 && !found_recorded(events) && !found_fenced(events),
    }
    &&& forall|i: int|
        0 <= i < actions.len() ==> ((#[trigger] actions[i]) matches CompletionAction::RecordAndAnnounce(
            item,
        ) ==> read_back(events, item) && !found_recorded(events) && (state is Announced
            || state is Done))
    &&& forall|i: int|
        0 <= i < actions.len() ==> ((#[trigger] actions[i]) matches CompletionAction::Finish(
            result,
        ) ==> {
            &&& state is Done
            &&& result is Ok ==> (exists|item: ResponseItem| read_back(events, item))
            &&& found_fenced(events) ==> result == Err::<(), CodexErr>(CodexErr::TurnAborted)
        })
    &&& found_fenced(events) ==> state is Done && appends(actions) == 0 && (forall|i: int|
        0 <= i < actions.len() ==> !(#[trigger] actions[i] is RecordAndAnnounce))
}

proof fn lemma_push_event(events: Seq<CompletionEvent>)
    requires
        events.len() > 0,
    ensures
        found_recorded(events) <==> found_recorded(events.drop_last()) || (
        events.last() matches CompletionEvent::Recorded(found) && found is Some),
        found_fenced(events) <==> found_fenced(events.drop_last()) || (
        events.last() matches CompletionEvent::Locked { restart_required } && restart_required),
        forall|item: ResponseItem|
            #[trigger] read_back(events.drop_last(), item) ==> read_back(events, item),
        forall|item: ResponseItem|
            events.last() == CompletionEvent::Read(Ok(Some(item))) ==> #[trigger] read_back(
                events,
                item,
            ),
{
    let head = events.drop_last();
    assert(events =~= head.push(events.last()));
    if found_recorded(head) {
        let i = choose|i: int|
            0 <= i < head.len() && ((#[trigger] head[i]) matches CompletionEvent::Recorded(found)
                && found is Some);
        assert(events[i] == head[i]);
    }
    if found_recorded(events) {
        let i = choose|i: int|
            0 <= i < events.len() && ((#[trigger] events[i]) matches CompletionEvent::Recorded(
                found,
            ) && found is Some);
        if i < head.len() {
            assert(events[i] == head[i]);
        }
    }
    if found_fenced(head) {
        let i = choose|i: int|
            0 <= i < head.len() && ((#[trigger] head[i]) matches CompletionEvent::Locked {
                restart_required,
            } && restart_required);
        assert(events[i] == head[i]);
    }
    if found_fenced(events) {
        let i = choose|i: int|
            0 <= i < events.len() && ((#[trigger] events[i]) matches CompletionEvent::Locked {
                restart_required,
            } && restart_required);
        if i < head.len() {
            assert(events[i] == head[i]);
        }
    }
    assert forall|item: ResponseItem| #[trigger] read_back(head, item) implies read_back(
        events,
        item,
    ) by {
        let i = choose|i: int|
            0 <= i < head.len() && head[i] == CompletionEvent::Read(Ok(Some(item)));
        assert(events[i] == head[i]);
    }
    assert(events[events.len() - 1] == events.last());
}

proof fn lemma_completion_invariant(
    thread_id: ThreadId,
    item: ResponseItem,
    events: Seq<CompletionEvent>,
)
    requires
        completion_run(thread_id, item, events) is Some,
    ensures
        ({
            let (state, actions) = completion_run(thread_id, item, events)->Some_0;
            completion_invariant(state, events, actions) && actions.len() == events.len() + 1
        }),
    decreases events.len(),
{
    if events.len() == 0 {
        let first = completion_first(thread_id, item);
        assert(seq![first.1].drop_last() =~= Seq::<CompletionAction>::empty());
        assert(appends(Seq::<CompletionAction>::empty()) == 0);
        assert(appends(seq![first.1]) == 0);
    } else {
        lemma_completion_invariant(thread_id, item, events.drop_last());
        lemma_push_event(events);
        let (before, done) = completion_run(thread_id, item, events.drop_last())->Some_0;
        let (after, action) = completion_next(before, events.last())->Some_0;
        let actions = done.push(action);
        assert(actions.drop_last() =~= done);
        assert(actions.last() == action);
        assert forall|i: int| 0 <= i < actions.len() implies i < done.len() && actions[i] == done[i]
            || i == done.len() && #[trigger] actions[i] == action by {}
        if let CompletionEvent::Read(Ok(Some(saved))) = events.last() {
            assert(read_back(events, saved));
        }
        if before is Announced {
            let saved = choose|saved: ResponseItem| read_back(events.drop_last(), saved);
            assert(read_back(events, saved));
        }
        assert forall|i: int| 0 <= i < actions.len() && #[trigger] actions[i] is Finish implies i
            == done.len() by {
            if i < done.len() {
                assert(done[i] is Finish);
            }
        }
        assert(found_fenced(events) ==> !found_fenced(events.drop_last()));
        assert forall|i: int|
            0 <= i < actions.len() && #[trigger] actions[i] is RecordAndAnnounce implies i
            == done.len() || before is Announced by {
            if i < done.len() {
                assert(done[i] is RecordAndAnnounce);
            }
        }
    }
}

/// A notice is appended again only if the append before it reported an error and the rollout was
/// then read and found without the item.
pub proof fn law_append_is_repeated_only_when_it_had_no_effect(
    thread_id: ThreadId,
    item: ResponseItem,
    events: Seq<CompletionEvent>,
)
    requires
        completion_run(thread_id, item, events) is Some,
        completion_run(thread_id, item, events)->Some_0.1.last() is Append,
        appends(completion_run(thread_id, item, events)->Some_0.1) > 1,
    ensures
        latest_append_failed(events),
        events.len() >= 2,
        events[events.len() - 2] == CompletionEvent::Read(Ok(None)),
{
    let (state, actions) = completion_run(thread_id, item, events)->Some_0;
    if events.len() == 0 {
        assert(seq![completion_first(thread_id, item).1].drop_last() =~= Seq::<
            CompletionAction,
        >::empty());
    } else {
        let head = events.drop_last();
        lemma_completion_invariant(thread_id, item, head);
        let (before, done) = completion_run(thread_id, item, head)->Some_0;
        assert(actions.drop_last() =~= done);
        assert(appends(done) > 0);
        assert(head[head.len() - 1] == events[events.len() - 2]);
    }
}

/// A recording reports success only after the rollout was read and held the item; what it adds to
/// the live history is what was read, and it adds nothing that the history already held.
pub proof fn law_recorded_notice_is_durable(
    thread_id: ThreadId,
    item: ResponseItem,
    events: Seq<CompletionEvent>,
    i: int,
)
    requires
        completion_run(thread_id, item, events) is Some,
        0 <= i < completion_run(thread_id, item, events)->Some_0.1.len(),
    ensures
        ({
            let action = completion_run(thread_id, item, events)->Some_0.1[i];
            &&& action == CompletionAction::Finish(Ok(())) ==> exists|saved: ResponseItem|
                read_back(events, saved)
            &&& action matches CompletionAction::RecordAndAnnounce(saved) ==> read_back(
                events,
                saved,
            ) && !found_recorded(events)
        }),
{
    lemma_completion_invariant(thread_id, item, events);
}

/// On a thread that has to be restarted nothing is appended and nothing is added to the live
/// history: the recording ends with `TurnAborted`.
pub proof fn law_fenced_thread_records_no_notice(
    thread_id: ThreadId,
    item: ResponseItem,
    events: Seq<CompletionEvent>,
    i: int,
)
    requires
        completion_run(thread_id, item, events) is Some,
        found_fenced(events),
        0 <= i < completion_run(thread_id, item, events)->Some_0.1.len(),
    ensures
        ({
            let action = completion_run(thread_id, item, events)->Some_0.1[i];
            &&& !(action is Append)
            &&& !(action is RecordAndAnnounce)
            &&& action matches CompletionAction::Finish(result) ==> result == Err::<(), CodexErr>(
                CodexErr::TurnAborted,
            )
        }),
{
    lemma_completion_invariant(thread_id, item, events);
    lemma_appends_counts(completion_run(thread_id, item, events)->Some_0.1, i);
}

proof fn lemma_appends_counts(actions: Seq<CompletionAction>, i: int)
    requires
        0 <= i < actions.len(),
        appends(actions) == 0,
    ensures
        !(actions[i] is Append),
    decreases actions.len(),
{
    if i < actions.len() - 1 {
        lemma_appends_counts(actions.drop_last(), i);
    }
}

/// The live history after what a recording asked for was done to it.
pub open spec fn history_after(
    history: Seq<ResponseItem>,
    actions: Seq<CompletionAction>,
) -> Seq<ResponseItem>
    decreases actions.len(),
{
    if actions.len() == 0 {
        history
    } else {
        let before = history_after(history, actions.drop_last());
        match actions.last() {
            CompletionAction::RecordAndAnnounce(item) => before.push(item),
            _ => before,
        }
    }
}

/// Whether a live history holds an item with the identity `id`.
pub open spec fn is_live(history: Seq<ResponseItem>, id: Seq<char>) -> bool {
    exists|i: int| 0 <= i < history.len() && (#[trigger] history[i]).has_id(id)
}

/// Whether a saved rollout holds an item with the identity `id`.
pub open spec fn is_saved(rollout: Seq<RolloutItem>, id: Seq<char>) -> bool {
    exists|i: int| 0 <= i < rollout.len() && holds_id(#[trigger] rollout[i], id)
}

/// `found` is what the live history holds under the identity `id`.
pub open spec fn is_looked_up(
    history: Seq<ResponseItem>,
    id: Seq<char>,
    found: Option<ResponseItem>,
) -> bool {
    match found {
        Some(item) => is_first_with_id(history, id, Some(&item)),
        None => is_first_with_id(history, id, None),
    }
}

/// `found` is what the saved rollout holds under the identity `id`.
pub open spec fn is_read(
    rollout: Seq<RolloutItem>,
    id: Seq<char>,
    found: Option<ResponseItem>,
) -> bool {
    match found {
        Some(item) => is_latest_with_id(rollout, id, Some(&item)),
        None => is_latest_with_id(rollout, id, None),
    }
}

/// What a recording is told of the live history is so.
pub open spec fn are_looked_up_in(
    events: Seq<CompletionEvent>,
    history: Seq<ResponseItem>,
    id: Seq<char>,
) -> bool {
    forall|i: int|
        0 <= i < events.len() ==> ((#[trigger] events[i]) matches CompletionEvent::Recorded(found)
            ==> is_looked_up(history, id, found))
}

/// What a recording reads is read from `rollout`.
pub open spec fn are_read_from(
    events: Seq<CompletionEvent>,
    rollout: Seq<RolloutItem>,
    id: Seq<char>,
) -> bool {
    forall|i: int|
        0 <= i < events.len() ==> ((#[trigger] events[i]) matches CompletionEvent::Read(Ok(found))
            ==> is_read(rollout, id, found))
}

/// What a recording read last was read from `rollout`: since then nothing was appended.
pub open spec fn is_last_read_from(
    events: Seq<CompletionEvent>,
    rollout: Seq<RolloutItem>,
    id: Seq<char>,
) -> bool
    decreases events.len(),
{
    if events.len() == 0 {
        true
    } else {
        match events.last() {
            CompletionEvent::Read(Ok(found)) => is_read(rollout, id, found),
            CompletionEvent::Read(Err(_)) => true,
            _ => is_last_read_from(events.drop_last(), rollout, id),
        }
    }
}

/// Every step of a recording goes well.
pub open spec fn store_works(events: Seq<CompletionEvent>) -> bool {
    forall|i: int|
        0 <= i < events.len() ==> match #[trigger] events[i] {
            CompletionEvent::Admitted(admitted) => admitted,
            CompletionEvent::Locked { restart_required } => !restart_required,
            CompletionEvent::Writer(present) => present,
            CompletionEvent::Persisted(result) => result is Ok,
            CompletionEvent::RolloutPath(result) => result is Ok,
            CompletionEvent::Prepared(prepared) => prepared is Some,
            CompletionEvent::Read(read) => read is Ok,
            _ => true,
        }
}

proof fn lemma_history_grows(history: Seq<ResponseItem>, actions: Seq<CompletionAction>)
    ensures
        history_after(history, actions).len() >= history.len(),
        history_after(history, actions).take(history.len() as int) == history,
    decreases actions.len(),
{
    if actions.len() == 0 {
        assert(history.take(history.len() as int) =~= history);
    } else {
        lemma_history_grows(history, actions.drop_last());
        let before = history_after(history, actions.drop_last());
        assert(history_after(history, actions).take(history.len() as int) =~= before.take(
            history.len() as int,
        ));
    }
}

proof fn lemma_history_unchanged(history: Seq<ResponseItem>, actions: Seq<CompletionAction>)
    requires
        forall|i: int|
            0 <= i < actions.len() ==> !(#[trigger] actions[i] is RecordAndAnnounce),
    ensures
        history_after(history, actions) == history,
    decreases actions.len(),
{
    if actions.len() > 0 {
        let head = actions.drop_last();
        assert forall|i: int| 0 <= i < head.len() implies !(
        #[trigger] head[i] is RecordAndAnnounce) by {
            assert(head[i] == actions[i]);
        }
        lemma_history_unchanged(history, head);
        assert(actions[actions.len() - 1] == actions.last());
    }
}

/// A recording that went well ended with a read that found the item, and the live history has it.
proof fn lemma_recording_went_well(
    thread_id: ThreadId,
    item: ResponseItem,
    events: Seq<CompletionEvent>,
    history: Seq<ResponseItem>,
    rollout: Seq<RolloutItem>,
    id: Seq<char>,
)
    requires
        completion_run(thread_id, item, events) is Some,
        completion_run(thread_id, item, events)->Some_0.1.last() == CompletionAction::Finish(
            Ok(()),
        ),
        are_looked_up_in(events, history, id),
        is_last_read_from(events, rollout, id),
    ensures
        is_live(history_after(history, completion_run(thread_id, item, events)->Some_0.1), id),
        is_saved(rollout, id),
{
    let actions = completion_run(thread_id, item, events)->Some_0.1;
    let after = history_after(history, actions);
    lemma_completion_invariant(thread_id, item, events);
    lemma_history_grows(history, actions);
    let head = events.drop_last();
    let (before, done) = completion_run(thread_id, item, head)->Some_0;
    lemma_completion_invariant(thread_id, item, head);
    assert(actions.drop_last() =~= done);
    if before is Announced {
        let earlier = head.drop_last();
        let (reading, asked) = completion_run(thread_id, item, earlier)->Some_0;
        assert(done.drop_last() =~= asked);
        assert(head.last() is Read);
        let saved = head.last()->Read_0->Ok_0->Some_0;
        assert(is_last_read_from(head, rollout, id));
        assert(is_read(rollout, id, Some(saved)));
        assert(done.last() == CompletionAction::RecordAndAnnounce(saved));
        let held = choose|i: int|
            0 <= i < rollout.len() && is_held(#[trigger] rollout[i], id, &saved) && (forall|k: int|
                i < k < rollout.len() ==> !holds_id(#[trigger] rollout[k], id));
        assert(holds_id(rollout[held], id));
        assert(saved.has_id(id));
        assert(history_after(history, done) == history_after(history, asked).push(saved));
        assert(after == history_after(history, done));
        assert(after[after.len() - 1].has_id(id));
    } else {
        let saved = events.last()->Read_0->Ok_0->Some_0;
        assert(is_read(rollout, id, Some(saved)));
        let held = choose|i: int|
            0 <= i < rollout.len() && is_held(#[trigger] rollout[i], id, &saved) && (forall|k: int|
                i < k < rollout.len() ==> !holds_id(#[trigger] rollout[k], id));
        assert(holds_id(rollout[held], id));
        assert(found_recorded(head));
        let at = choose|i: int|
            0 <= i < head.len() && ((#[trigger] head[i]) matches CompletionEvent::Recorded(found)
                && found is Some);
        assert(events[at] == head[at]);
        let recorded = head[at]->Recorded_0->Some_0;
        assert(is_first_with_id(history, id, Some(&recorded)));
        let place = choose|i: int|
            0 <= i < history.len() && #[trigger] history[i] == recorded && history[i].has_id(id)
                && (forall|k: int| 0 <= k < i ==> !(#[trigger] history[k]).has_id(id));
        assert(after.take(history.len() as int)[place] == history[place]);
        assert(after[place].has_id(id));
    }
}

/// A recording of what is live and saved asks for no append and adds nothing.
proof fn lemma_recording_of_what_is_there(
    thread_id: ThreadId,
    item: ResponseItem,
    events: Seq<CompletionEvent>,
    history: Seq<ResponseItem>,
    rollout: Seq<RolloutItem>,
    id: Seq<char>,
)
    requires
        item.has_id(id),
        completion_run(thread_id, item, events) is Some,
        are_looked_up_in(events, history, id),
        are_read_from(events, rollout, id),
        is_live(history, id),
        is_saved(rollout, id),
    ensures
        ({
            let (state, actions) = completion_run(thread_id, item, events)->Some_0;
            &&& match state {
                CompletionState::FirstRead { recorded, .. } => recorded,
                CompletionState::Appended { .. } => false,
                CompletionState::Reflushed { .. } => false,
                CompletionState::Readback { .. } => false,
                CompletionState::Pause { .. } => false,
                CompletionState::Announced => false,
                _ => true,
            }
            &&& forall|i: int|
                0 <= i < actions.len() ==> !(#[trigger] actions[i] is Append) && !(actions[i]
                    is RecordAndAnnounce)
            &&& forall|i: int|
                0 <= i < actions.len() && store_works(events) ==> ((
                #[trigger] actions[i]) matches CompletionAction::Finish(result) ==> result is Ok)
        }),
    decreases events.len(),
{
    if events.len() > 0 {
        let head = events.drop_last();
        assert forall|i: int| 0 <= i < head.len() implies #[trigger] head[i] == events[i] by {}
        lemma_recording_of_what_is_there(thread_id, item, head, history, rollout, id);
        let (before, done) = completion_run(thread_id, item, head)->Some_0;
        let (after, action) = completion_next(before, events.last())->Some_0;
        let actions = done.push(action);
        assert(events[events.len() - 1] == events.last());
        if store_works(events) {
            assert forall|i: int| 0 <= i < head.len() implies match #[trigger] head[i] {
                CompletionEvent::Admitted(admitted) => admitted,
                CompletionEvent::Locked { restart_required } => !restart_required,
                CompletionEvent::Writer(present) => present,
                CompletionEvent::Persisted(result) => result is Ok,
                CompletionEvent::RolloutPath(result) => result is Ok,
                CompletionEvent::Prepared(prepared) => prepared is Some,
                CompletionEvent::Read(read) => read is Ok,
                _ => true,
            } by {
                assert(head[i] == events[i]);
            }
        }
        assert forall|i: int| 0 <= i < done.len() implies #[trigger] actions[i] == done[i] by {}
    }
}

/// Once a notice was recorded, the rollout and the live history both hold an item of its
/// identity. A second recording of that identity then appends nothing, adds nothing to the live
/// history and announces nothing, and where nothing fails it reports success.
pub proof fn law_second_recording_changes_nothing(
    thread_id: ThreadId,
    item: ResponseItem,
    events: Seq<CompletionEvent>,
    again: ResponseItem,
    later_events: Seq<CompletionEvent>,
    history: Seq<ResponseItem>,
    rollout: Seq<RolloutItem>,
    id: Seq<char>,
)
    requires
        item.has_id(id),
        completion_run(thread_id, item, events) is Some,
        completion_run(thread_id, item, events)->Some_0.1.last() == CompletionAction::Finish(
            Ok(()),
        ),
        are_looked_up_in(events, history, id),
        is_last_read_from(events, rollout, id),
    ensures
        ({
            let after = history_after(
                history,
                completion_run(thread_id, item, events)->Some_0.1,
            );
            &&& is_live(after, id)
            &&& is_saved(rollout, id)
            &&& again.has_id(id) && completion_run(thread_id, again, later_events) is Some
                && are_looked_up_in(later_events, after, id) && are_read_from(
                later_events,
                rollout,
                id,
            ) ==> {
                let actions = completion_run(thread_id, again, later_events)->Some_0.1;
                &&& forall|i: int|
                    0 <= i < actions.len() ==> !(#[trigger] actions[i] is Append) && !(actions[i]
                        is RecordAndAnnounce)
                &&& history_after(after, actions) == after
                &&& forall|i: int|
                    0 <= i < actions.len() && store_works(later_events) ==> ((
                    #[trigger] actions[i]) matches CompletionAction::Finish(result) ==> result
                        is Ok)
            }
        }),
{
    lemma_recording_went_well(thread_id, item, events, history, rollout, id);
    let after = history_after(history, completion_run(thread_id, item, events)->Some_0.1);
    if again.has_id(id) && completion_run(thread_id, again, later_events) is Some
        && are_looked_up_in(later_events, after, id) && are_read_from(later_events, rollout, id) {
        lemma_recording_of_what_is_there(thread_id, again, later_events, after, rollout, id);
        lemma_history_unchanged(
            after,
            completion_run(thread_id, again, later_events)->Some_0.1,
        );
    }
}

/// A notice without an identity is refused before anything is asked for.
pub proof fn law_notice_needs_an_identity(thread_id: ThreadId, item: ResponseItem)
    requires
        item.spec_id() is None,
    ensures
        completion_first(thread_id, item) == (
            CompletionState::Done,
            CompletionAction::Finish(
                Err(CodexErr::InvalidRequest(Reason::CompletionNeedsStableId)),
            ),
        ),
        forall|event: CompletionEvent| #[trigger]
            completion_next(CompletionState::Done, event) is None,
{
}

proof fn lemma_completion_step(
    thread_id: ThreadId,
    item: ResponseItem,
    events: Seq<CompletionEvent>,
    event: CompletionEvent,
)
    requires
        completion_run(thread_id, item, events) is Some,
        completion_next(completion_run(thread_id, item, events)->Some_0.0, event) is Some,
    ensures
        ({
            let (state, actions) = completion_run(thread_id, item, events)->Some_0;
            let (next, action) = completion_next(state, event)->Some_0;
            completion_run(
                thread_id,
                item,
                events.push(event),
            ) == Some((next, actions.push(action)))
        }),
{
    assert(events.push(event).drop_last() =~= events);
}

/// A notice that the rollout holds already is not appended: it joins the live history as it was
/// saved, unless the history holds it.
pub proof fn law_saved_notice_is_not_appended_again(
    thread_id: ThreadId,
    item: ResponseItem,
    prepared: ResponseItem,
    live: ResponseItem,
    saved: ResponseItem,
)
    requires
        item.spec_id() is Some,
    ensures
        ({
            let events: Seq<CompletionEvent> = seq![
                CompletionEvent::Admitted(true),
                CompletionEvent::Locked { restart_required: false },
                CompletionEvent::Writer(true),
                CompletionEvent::Persisted(Ok(())),
                CompletionEvent::Persisted(Ok(())),
                CompletionEvent::RolloutPath(Ok(())),
                CompletionEvent::Prepared(Some(prepared)),
                CompletionEvent::Locked { restart_required: false },
                CompletionEvent::Recorded(None),
                CompletionEvent::Read(Ok(Some(saved))),
                CompletionEvent::Announced,
            ];
            let run = completion_run(thread_id, item, events);
            &&& run is Some
            &&& run->Some_0.1 == seq![
                CompletionAction::AcquireAdmission,
                CompletionAction::LockHistory,
                CompletionAction::FindWriter,
                CompletionAction::Materialize,
                CompletionAction::Flush,
                CompletionAction::ResolveRollout,
                CompletionAction::Prepare(item),
                CompletionAction::LockState,
                CompletionAction::LookUpRecorded,
                CompletionAction::ReadRollout,
                CompletionAction::RecordAndAnnounce(saved),
                CompletionAction::Finish(Ok(())),
            ]
        }),
        ({
            let events: Seq<CompletionEvent> = seq![
                CompletionEvent::Admitted(true),
                CompletionEvent::Locked { restart_required: false },
                CompletionEvent::Writer(true),
                CompletionEvent::Persisted(Ok(())),
                CompletionEvent::Persisted(Ok(())),
                CompletionEvent::RolloutPath(Ok(())),
                CompletionEvent::Prepared(Some(prepared)),
                CompletionEvent::Locked { restart_required: false },
                CompletionEvent::Recorded(Some(live)),
                CompletionEvent::Read(Ok(Some(saved))),
            ];
            let run = completion_run(thread_id, item, events);
            &&& run is Some
            &&& run->Some_0.1 == seq![
                CompletionAction::AcquireAdmission,
                CompletionAction::LockHistory,
                CompletionAction::FindWriter,
                CompletionAction::Materialize,
                CompletionAction::Flush,
                CompletionAction::ResolveRollout,
                CompletionAction::Prepare(item),
                CompletionAction::LockState,
                CompletionAction::LookUpRecorded,
                CompletionAction::ReadRollout,
                CompletionAction::Finish(Ok(())),
            ]
        }),
{
    let e0 = Seq::<CompletionEvent>::empty();
    lemma_completion_step(thread_id, item, e0, CompletionEvent::Admitted(true));
    let e1 = e0.push(CompletionEvent::Admitted(true));
    lemma_completion_step(thread_id, item, e1, CompletionEvent::Locked { restart_required: false });
    let e2 = e1.push(CompletionEvent::Locked { restart_required: false });
    lemma_completion_step(thread_id, item, e2, CompletionEvent::Writer(true));
    let e3 = e2.push(CompletionEvent::Writer(true));
    lemma_completion_step(thread_id, item, e3, CompletionEvent::Persisted(Ok(())));
    let e4 = e3.push(CompletionEvent::Persisted(Ok(())));
    lemma_completion_step(thread_id, item, e4, CompletionEvent::Persisted(Ok(())));
    let e5 = e4.push(CompletionEvent::Persisted(Ok(())));
    lemma_completion_step(thread_id, item, e5, CompletionEvent::RolloutPath(Ok(())));
    let e6 = e5.push(CompletionEvent::RolloutPath(Ok(())));
    lemma_completion_step(thread_id, item, e6, CompletionEvent::Prepared(Some(prepared)));
    let e7 = e6.push(CompletionEvent::Prepared(Some(prepared)));
    lemma_completion_step(thread_id, item, e7, CompletionEvent::Locked { restart_required: false });
    let e8 = e7.push(CompletionEvent::Locked { restart_required: false });
    lemma_completion_step(thread_id, item, e8, CompletionEvent::Recorded(None));
    let e9 = e8.push(CompletionEvent::Recorded(None));
    lemma_completion_step(thread_id, item, e9, CompletionEvent::Read(Ok(Some(saved))));
    let e10 = e9.push(CompletionEvent::Read(Ok(Some(saved))));
    lemma_completion_step(thread_id, item, e10, CompletionEvent::Announced);
    let e11 = e10.push(CompletionEvent::Announced);
    assert(e11 =~= seq![
        CompletionEvent::Admitted(true),
        CompletionEvent::Locked { restart_required: false },
        CompletionEvent::Writer(true),
        CompletionEvent::Persisted(Ok(())),
        CompletionEvent::Persisted(Ok(())),
        CompletionEvent::RolloutPath(Ok(())),
        CompletionEvent::Prepared(Some(prepared)),
        CompletionEvent::Locked { restart_required: false },
        CompletionEvent::Recorded(None),
        CompletionEvent::Read(Ok(Some(saved))),
        CompletionEvent::Announced,
    ]);
    assert(completion_run(thread_id, item, e11)->Some_0.1 =~= seq![
        CompletionAction::AcquireAdmission,
        CompletionAction::LockHistory,
        CompletionAction::FindWriter,
        CompletionAction::Materialize,
        CompletionAction::Flush,
        CompletionAction::ResolveRollout,
        CompletionAction::Prepare(item),
        CompletionAction::LockState,
        CompletionAction::LookUpRecorded,
        CompletionAction::ReadRollout,
        CompletionAction::RecordAndAnnounce(saved),
        CompletionAction::Finish(Ok(())),
    ]);
    lemma_completion_step(thread_id, item, e8, CompletionEvent::Recorded(Some(live)));
    let e12 = e8.push(CompletionEvent::Recorded(Some(live)));
    lemma_completion_step(thread_id, item, e12, CompletionEvent::Read(Ok(Some(saved))));
    let e13 = e12.push(CompletionEvent::Read(Ok(Some(saved))));
    assert(e13 =~= seq![
        CompletionEvent::Admitted(true),
        CompletionEvent::Locked { restart_required: false },
        CompletionEvent::Writer(true),
        CompletionEvent::Persisted(Ok(())),
        CompletionEvent::Persisted(Ok(())),
        CompletionEvent::RolloutPath(Ok(())),
        CompletionEvent::Prepared(Some(prepared)),
        CompletionEvent::Locked { restart_required: false },
        CompletionEvent::Recorded(Some(live)),
        CompletionEvent::Read(Ok(Some(saved))),
    ]);
    assert(completion_run(thread_id, item, e13)->Some_0.1 =~= seq![
        CompletionAction::AcquireAdmission,
        CompletionAction::LockHistory,
        CompletionAction::FindWriter,
        CompletionAction::Materialize,
        CompletionAction::Flush,
        CompletionAction::ResolveRollout,
        CompletionAction::Prepare(item),
        CompletionAction::LockState,
        CompletionAction::LookUpRecorded,
        CompletionAction::ReadRollout,
        CompletionAction::Finish(Ok(())),
    ]);
}

/// A notice is appended in the form that the live history has, or else as it was prepared.
pub proof fn law_notice_is_appended_as_the_history_has_it(
    thread_id: ThreadId,
    item: ResponseItem,
    prepared: ResponseItem,
    live: ResponseItem,
)
    requires
        item.spec_id() is Some,
    ensures
        ({
            let events: Seq<CompletionEvent> = seq![
                CompletionEvent::Admitted(true),
                CompletionEvent::Locked { restart_required: false },
                CompletionEvent::Writer(true),
                CompletionEvent::Persisted(Ok(())),
                CompletionEvent::Persisted(Ok(())),
                CompletionEvent::RolloutPath(Ok(())),
                CompletionEvent::Prepared(Some(prepared)),
                CompletionEvent::Locked { restart_required: false },
                CompletionEvent::Recorded(None),
                CompletionEvent::Read(Ok(None)),
            ];
            let run = completion_run(thread_id, item, events);
            &&& run is Some
            &&& run->Some_0.0 == (CompletionState::Appended {
                to_persist: prepared,
                recorded: false,
            })
            &&& run->Some_0.1.last() == CompletionAction::Append
        }),
        ({
            let events: Seq<CompletionEvent> = seq![
                CompletionEvent::Admitted(true),
                CompletionEvent::Locked { restart_required: false },
                CompletionEvent::Writer(true),
                CompletionEvent::Persisted(Ok(())),
                CompletionEvent::Persisted(Ok(())),
                CompletionEvent::RolloutPath(Ok(())),
                CompletionEvent::Prepared(Some(prepared)),
                CompletionEvent::Locked { restart_required: false },
                CompletionEvent::Recorded(Some(live)),
                CompletionEvent::Read(Ok(None)),
            ];
            let run = completion_run(thread_id, item, events);
            &&& run is Some
            &&& run->Some_0.0 == (CompletionState::Appended { to_persist: live, recorded: true })
            &&& run->Some_0.1.last() == CompletionAction::Append
        }),
{
    let e0 = Seq::<CompletionEvent>::empty();
    let a0 = seq![CompletionAction::AcquireAdmission];
    lemma_completion_starts(
        thread_id,
        item,
        CompletionState::Admission { thread_id, item },
        CompletionAction::AcquireAdmission,
    );
    lemma_completion_moves(
        thread_id,
        item,
        e0,
        CompletionState::Admission { thread_id, item },
        a0,
        CompletionEvent::Admitted(true),
        CompletionState::HistoryLock { thread_id, item },
        CompletionAction::LockHistory,
    );
    let e1 = e0.push(CompletionEvent::Admitted(true));
    let a1 = a0.push(CompletionAction::LockHistory);
    lemma_completion_moves(
        thread_id,
        item,
        e1,
        CompletionState::HistoryLock { thread_id, item },
        a1,
        CompletionEvent::Locked { restart_required: false },
        CompletionState::Writer { thread_id, item },
        CompletionAction::FindWriter,
    );
    let e2 = e1.push(CompletionEvent::Locked { restart_required: false });
    let a2 = a1.push(CompletionAction::FindWriter);
    lemma_completion_moves(
        thread_id,
        item,
        e2,
        CompletionState::Writer { thread_id, item },
        a2,
        CompletionEvent::Writer(true),
        CompletionState::Materialized { item },
        CompletionAction::Materialize,
    );
    let e3 = e2.push(CompletionEvent::Writer(true));
    let a3 = a2.push(CompletionAction::Materialize);
    lemma_completion_moves(
        thread_id,
        item,
        e3,
        CompletionState::Materialized { item },
        a3,
        CompletionEvent::Persisted(Ok(())),
        CompletionState::Flushed { item },
        CompletionAction::Flush,
    );
    let e4 = e3.push(CompletionEvent::Persisted(Ok(())));
    let a4 = a3.push(CompletionAction::Flush);
    lemma_completion_moves(
        thread_id,
        item,
        e4,
        CompletionState::Flushed { item },
        a4,
        CompletionEvent::Persisted(Ok(())),
        CompletionState::RolloutPath { item },
        CompletionAction::ResolveRollout,
    );
    let e5 = e4.push(CompletionEvent::Persisted(Ok(())));
    let a5 = a4.push(CompletionAction::ResolveRollout);
    lemma_completion_moves(
        thread_id,
        item,
        e5,
        CompletionState::RolloutPath { item },
        a5,
        CompletionEvent::RolloutPath(Ok(())),
        CompletionState::Prepared,
        CompletionAction::Prepare(item),
    );
    let e6 = e5.push(CompletionEvent::RolloutPath(Ok(())));
    let a6 = a5.push(CompletionAction::Prepare(item));
    lemma_completion_moves(
        thread_id,
        item,
        e6,
        CompletionState::Prepared,
        a6,
        CompletionEvent::Prepared(Some(prepared)),
        CompletionState::StateLock { prepared },
        CompletionAction::LockState,
    );
    let e7 = e6.push(CompletionEvent::Prepared(Some(prepared)));
    let a7 = a6.push(CompletionAction::LockState);
    lemma_completion_moves(
        thread_id,
        item,
        e7,
        CompletionState::StateLock { prepared },
        a7,
        CompletionEvent::Locked { restart_required: false },
        CompletionState::Recorded { prepared },
        CompletionAction::LookUpRecorded,
    );
    let e8 = e7.push(CompletionEvent::Locked { restart_required: false });
    let a8 = a7.push(CompletionAction::LookUpRecorded);
    lemma_completion_moves(
        thread_id,
        item,
        e8,
        CompletionState::Recorded { prepared },
        a8,
        CompletionEvent::Recorded(None),
        CompletionState::FirstRead { to_persist: prepared, recorded: false },
        CompletionAction::ReadRollout,
    );
    let e9 = e8.push(CompletionEvent::Recorded(None));
    let a9 = a8.push(CompletionAction::ReadRollout);
    lemma_completion_moves(
        thread_id,
        item,
        e9,
        CompletionState::FirstRead { to_persist: prepared, recorded: false },
        a9,
        CompletionEvent::Read(Ok(None)),
        CompletionState::Appended { to_persist: prepared, recorded: false },
        CompletionAction::Append,
    );
    let e10 = e9.push(CompletionEvent::Read(Ok(None)));
    let a10 = a9.push(CompletionAction::Append);
    let all_events = seq![
        CompletionEvent::Admitted(true),
        CompletionEvent::Locked { restart_required: false },
        CompletionEvent::Writer(true),
        CompletionEvent::Persisted(Ok(())),
        CompletionEvent::Persisted(Ok(())),
        CompletionEvent::RolloutPath(Ok(())),
        CompletionEvent::Prepared(Some(prepared)),
        CompletionEvent::Locked { restart_required: false },
        CompletionEvent::Recorded(None),
        CompletionEvent::Read(Ok(None)),
    ];
    assert(e10 =~= all_events);
    let all_actions = seq![
        CompletionAction::AcquireAdmission,
        CompletionAction::LockHistory,
        CompletionAction::FindWriter,
        CompletionAction::Materialize,
        CompletionAction::Flush,
        CompletionAction::ResolveRollout,
        CompletionAction::Prepare(item),
        CompletionAction::LockState,
        CompletionAction::LookUpRecorded,
        CompletionAction::ReadRollout,
        CompletionAction::Append,
    ];
    assert(a10 =~= all_actions);
    lemma_completion_has_run(
        thread_id,
        item,
        e10,
        CompletionState::Appended { to_persist: prepared, recorded: false },
        a10,
        all_events,
        all_actions,
    );
    lemma_completion_moves(
        thread_id,
        item,
        e8,
        CompletionState::Recorded { prepared },
        a8,
        CompletionEvent::Recorded(Some(live)),
        CompletionState::FirstRead { to_persist: live, recorded: true },
        CompletionAction::ReadRollout,
    );
    let e11 = e8.push(CompletionEvent::Recorded(Some(live)));
    let a11 = a8.push(CompletionAction::ReadRollout);
    lemma_completion_moves(
        thread_id,
        item,
        e11,
        CompletionState::FirstRead { to_persist: live, recorded: true },
        a11,
        CompletionEvent::Read(Ok(None)),
        CompletionState::Appended { to_persist: live, recorded: true },
        CompletionAction::Append,
    );
    let e12 = e11.push(CompletionEvent::Read(Ok(None)));
    let a12 = a11.push(CompletionAction::Append);
    let all_events = seq![
        CompletionEvent::Admitted(true),
        CompletionEvent::Locked { restart_required: false },
        CompletionEvent::Writer(true),
        CompletionEvent::Persisted(Ok(())),
        CompletionEvent::Persisted(Ok(())),
        CompletionEvent::RolloutPath(Ok(())),
        CompletionEvent::Prepared(Some(prepared)),
        CompletionEvent::Locked { restart_required: false },
        CompletionEvent::Recorded(Some(live)),
        CompletionEvent::Read(Ok(None)),
    ];
    assert(e12 =~= all_events);
    let all_actions = seq![
        CompletionAction::AcquireAdmission,
        CompletionAction::LockHistory,
        CompletionAction::FindWriter,
        CompletionAction::Materialize,
        CompletionAction::Flush,
        CompletionAction::ResolveRollout,
        CompletionAction::Prepare(item),
        CompletionAction::LockState,
        CompletionAction::LookUpRecorded,
        CompletionAction::ReadRollout,
        CompletionAction::Append,
    ];
    assert(a12 =~= all_actions);
    lemma_completion_has_run(
        thread_id,
        item,
        e12,
        CompletionState::Appended { to_persist: live, recorded: true },
        a12,
        all_events,
        all_actions,
    );
}

#[verifier::opaque]
spec fn completion_stands(
    thread_id: ThreadId,
    item: ResponseItem,
    events: Seq<CompletionEvent>,
    state: CompletionState,
    actions: Seq<CompletionAction>,
) -> bool {
    completion_run(thread_id, item, events) == Some((state, actions))
}

proof fn lemma_completion_starts(
    thread_id: ThreadId,
    item: ResponseItem,
    state: CompletionState,
    action: CompletionAction,
)
    requires
        completion_run(
            thread_id,
            item,
            Seq::<CompletionEvent>::empty(),
        ) == Some((state, seq![action])),
    ensures
        completion_stands(thread_id, item, Seq::<CompletionEvent>::empty(), state, seq![action]),
{
    reveal(completion_stands);
}

proof fn lemma_completion_moves(
    thread_id: ThreadId,
    item: ResponseItem,
    events: Seq<CompletionEvent>,
    state: CompletionState,
    actions: Seq<CompletionAction>,
    event: CompletionEvent,
    next: CompletionState,
    action: CompletionAction,
)
    requires
        completion_stands(thread_id, item, events, state, actions),
        completion_next(state, event) == Some((next, action)),
    ensures
        completion_stands(thread_id, item, events.push(event), next, actions.push(action)),
{
    reveal(completion_stands);
    assert(events.push(event).drop_last() =~= events);
}

proof fn lemma_completion_has_run(
    thread_id: ThreadId,
    item: ResponseItem,
    events: Seq<CompletionEvent>,
    state: CompletionState,
    actions: Seq<CompletionAction>,
    all_events: Seq<CompletionEvent>,
    all_actions: Seq<CompletionAction>,
)
    requires
        completion_stands(thread_id, item, events, state, actions),
        events == all_events,
        actions == all_actions,
    ensures
        completion_run(thread_id, item, all_events) == Some((state, all_actions)),
{
    reveal(completion_stands);
}

/// A notice that the rollout lacks is appended; once it is read back it joins the live history,
/// unless that holds it.
pub proof fn law_new_notice_is_appended_and_announced(
    thread_id: ThreadId,
    item: ResponseItem,
    prepared: ResponseItem,
    live: ResponseItem,
    saved: ResponseItem,
    failed: bool,
)
    requires
        item.spec_id() is Some,
    ensures
        ({
            let events: Seq<CompletionEvent> = seq![
                CompletionEvent::Admitted(true),
                CompletionEvent::Locked { restart_required: false },
                CompletionEvent::Writer(true),
                CompletionEvent::Persisted(Ok(())),
                CompletionEvent::Persisted(Ok(())),
                CompletionEvent::RolloutPath(Ok(())),
                CompletionEvent::Prepared(Some(prepared)),
                CompletionEvent::Locked { restart_required: false },
                CompletionEvent::Recorded(None),
                CompletionEvent::Read(Ok(None)),
                CompletionEvent::Appended { failed },
                CompletionEvent::Reflushed,
                CompletionEvent::Read(Ok(Some(saved))),
                CompletionEvent::Announced,
            ];
            let run = completion_run(thread_id, item, events);
            &&& run is Some
            &&& run->Some_0.1 == seq![
                CompletionAction::AcquireAdmission,
                CompletionAction::LockHistory,
                CompletionAction::FindWriter,
                CompletionAction::Materialize,
                CompletionAction::Flush,
                CompletionAction::ResolveRollout,
                CompletionAction::Prepare(item),
                CompletionAction::LockState,
                CompletionAction::LookUpRecorded,
                CompletionAction::ReadRollout,
                CompletionAction::Append,
                CompletionAction::Reflush,
                CompletionAction::ReadRollout,
                CompletionAction::RecordAndAnnounce(saved),
                CompletionAction::Finish(Ok(())),
            ]
        }),
        ({
            let events: Seq<CompletionEvent> = seq![
                CompletionEvent::Admitted(true),
                CompletionEvent::Locked { restart_required: false },
                CompletionEvent::Writer(true),
                CompletionEvent::Persisted(Ok(())),
                CompletionEvent::Persisted(Ok(())),
                CompletionEvent::RolloutPath(Ok(())),
                CompletionEvent::Prepared(Some(prepared)),
                CompletionEvent::Locked { restart_required: false },
                CompletionEvent::Recorded(Some(live)),
                CompletionEvent::Read(Ok(None)),
                CompletionEvent::Appended { failed },
                CompletionEvent::Reflushed,
                CompletionEvent::Read(Ok(Some(saved))),
            ];
            let run = completion_run(thread_id, item, events);
            &&& run is Some
            &&& run->Some_0.1 == seq![
                CompletionAction::AcquireAdmission,
                CompletionAction::LockHistory,
                CompletionAction::FindWriter,
                CompletionAction::Materialize,
                CompletionAction::Flush,
                CompletionAction::ResolveRollout,
                CompletionAction::Prepare(item),
                CompletionAction::LockState,
                CompletionAction::LookUpRecorded,
                CompletionAction::ReadRollout,
                CompletionAction::Append,
                CompletionAction::Reflush,
                CompletionAction::ReadRollout,
                CompletionAction::Finish(Ok(())),
            ]
        }),
{
    let e0 = Seq::<CompletionEvent>::empty();
    let a0 = seq![CompletionAction::AcquireAdmission];
    lemma_completion_starts(
        thread_id,
        item,
        CompletionState::Admission { thread_id, item },
        CompletionAction::AcquireAdmission,
    );
    lemma_completion_moves(
        thread_id,
        item,
        e0,
        CompletionState::Admission { thread_id, item },
        a0,
        CompletionEvent::Admitted(true),
        CompletionState::HistoryLock { thread_id, item },
        CompletionAction::LockHistory,
    );
    let e1 = e0.push(CompletionEvent::Admitted(true));
    let a1 = a0.push(CompletionAction::LockHistory);
    lemma_completion_moves(
        thread_id,
        item,
        e1,
        CompletionState::HistoryLock { thread_id, item },
        a1,
        CompletionEvent::Locked { restart_required: false },
        CompletionState::Writer { thread_id, item },
        CompletionAction::FindWriter,
    );
    let e2 = e1.push(CompletionEvent::Locked { restart_required: false });
    let a2 = a1.push(CompletionAction::FindWriter);
    lemma_completion_moves(
        thread_id,
        item,
        e2,
        CompletionState::Writer { thread_id, item },
        a2,
        CompletionEvent::Writer(true),
        CompletionState::Materialized { item },
        CompletionAction::Materialize,
    );
    let e3 = e2.push(CompletionEvent::Writer(true));
    let a3 = a2.push(CompletionAction::Materialize);
    lemma_completion_moves(
        thread_id,
        item,
        e3,
        CompletionState::Materialized { item },
        a3,
        CompletionEvent::Persisted(Ok(())),
        CompletionState::Flushed { item },
        CompletionAction::Flush,
    );
    let e4 = e3.push(CompletionEvent::Persisted(Ok(())));
    let a4 = a3.push(CompletionAction::Flush);
    lemma_completion_moves(
        thread_id,
        item,
        e4,
        CompletionState::Flushed { item },
        a4,
        CompletionEvent::Persisted(Ok(())),
        CompletionState::RolloutPath { item },
        CompletionAction::ResolveRollout,
    );
    let e5 = e4.push(CompletionEvent::Persisted(Ok(())));
    let a5 = a4.push(CompletionAction::ResolveRollout);
    lemma_completion_moves(
        thread_id,
        item,
        e5,
        CompletionState::RolloutPath { item },
        a5,
        CompletionEvent::RolloutPath(Ok(())),
        CompletionState::Prepared,
        CompletionAction::Prepare(item),
    );
    let e6 = e5.push(CompletionEvent::RolloutPath(Ok(())));
    let a6 = a5.push(CompletionAction::Prepare(item));
    lemma_completion_moves(
        thread_id,
        item,
        e6,
        CompletionState::Prepared,
        a6,
        CompletionEvent::Prepared(Some(prepared)),
        CompletionState::StateLock { prepared },
        CompletionAction::LockState,
    );
    let e7 = e6.push(CompletionEvent::Prepared(Some(prepared)));
    let a7 = a6.push(CompletionAction::LockState);
    lemma_completion_moves(
        thread_id,
        item,
        e7,
        CompletionState::StateLock { prepared },
        a7,
        CompletionEvent::Locked { restart_required: false },
        CompletionState::Recorded { prepared },
        CompletionAction::LookUpRecorded,
    );
    let e8 = e7.push(CompletionEvent::Locked { restart_required: false });
    let a8 = a7.push(CompletionAction::LookUpRecorded);
    lemma_completion_moves(
        thread_id,
        item,
        e8,
        CompletionState::Recorded { prepared },
        a8,
        CompletionEvent::Recorded(None),
        CompletionState::FirstRead { to_persist: prepared, recorded: false },
        CompletionAction::ReadRollout,
    );
    let e9 = e8.push(CompletionEvent::Recorded(None));
    let a9 = a8.push(CompletionAction::ReadRollout);
    lemma_completion_moves(
        thread_id,
        item,
        e9,
        CompletionState::FirstRead { to_persist: prepared, recorded: false },
        a9,
        CompletionEvent::Read(Ok(None)),
        CompletionState::Appended { to_persist: prepared, recorded: false },
        CompletionAction::Append,
    );
    let e10 = e9.push(CompletionEvent::Read(Ok(None)));
    let a10 = a9.push(CompletionAction::Append);
    lemma_completion_moves(
        thread_id,
        item,
        e10,
        CompletionState::Appended { to_persist: prepared, recorded: false },
        a10,
        CompletionEvent::Appended { failed },
        CompletionState::Reflushed { to_persist: prepared, recorded: false, append_failed: failed },
        CompletionAction::Reflush,
    );
    let e11 = e10.push(CompletionEvent::Appended { failed });
    let a11 = a10.push(CompletionAction::Reflush);
    lemma_completion_moves(
        thread_id,
        item,
        e11,
        CompletionState::Reflushed { to_persist: prepared, recorded: false, append_failed: failed },
        a11,
        CompletionEvent::Reflushed,
        CompletionState::Readback { to_persist: prepared, recorded: false, append_failed: failed },
        CompletionAction::ReadRollout,
    );
    let e12 = e11.push(CompletionEvent::Reflushed);
    let a12 = a11.push(CompletionAction::ReadRollout);
    lemma_completion_moves(
        thread_id,
        item,
        e12,
        CompletionState::Readback { to_persist: prepared, recorded: false, append_failed: failed },
        a12,
        CompletionEvent::Read(Ok(Some(saved))),
        CompletionState::Announced,
        CompletionAction::RecordAndAnnounce(saved),
    );
    let e13 = e12.push(CompletionEvent::Read(Ok(Some(saved))));
    let a13 = a12.push(CompletionAction::RecordAndAnnounce(saved));
    lemma_completion_moves(
        thread_id,
        item,
        e13,
        CompletionState::Announced,
        a13,
        CompletionEvent::Announced,
        CompletionState::Done,
        CompletionAction::Finish(Ok(())),
    );
    let e14 = e13.push(CompletionEvent::Announced);
    let a14 = a13.push(CompletionAction::Finish(Ok(())));
    let all_events = seq![
        CompletionEvent::Admitted(true),
        CompletionEvent::Locked { restart_required: false },
        CompletionEvent::Writer(true),
        CompletionEvent::Persisted(Ok(())),
        CompletionEvent::Persisted(Ok(())),
        CompletionEvent::RolloutPath(Ok(())),
        CompletionEvent::Prepared(Some(prepared)),
        CompletionEvent::Locked { restart_required: false },
        CompletionEvent::Recorded(None),
        CompletionEvent::Read(Ok(None)),
        CompletionEvent::Appended { failed },
        CompletionEvent::Reflushed,
        CompletionEvent::Read(Ok(Some(saved))),
        CompletionEvent::Announced,
    ];
    assert(e14 =~= all_events);
    let all_actions = seq![
        CompletionAction::AcquireAdmission,
        CompletionAction::LockHistory,
        CompletionAction::FindWriter,
        CompletionAction::Materialize,
        CompletionAction::Flush,
        CompletionAction::ResolveRollout,
        CompletionAction::Prepare(item),
        CompletionAction::LockState,
        CompletionAction::LookUpRecorded,
        CompletionAction::ReadRollout,
        CompletionAction::Append,
        CompletionAction::Reflush,
        CompletionAction::ReadRollout,
        CompletionAction::RecordAndAnnounce(saved),
        CompletionAction::Finish(Ok(())),
    ];
    assert(a14 =~= all_actions);
    lemma_completion_has_run(
        thread_id,
        item,
        e14,
        CompletionState::Done,
        a14,
        all_events,
        all_actions,
    );
    lemma_completion_moves(
        thread_id,
        item,
        e8,
        CompletionState::Recorded { prepared },
        a8,
        CompletionEvent::Recorded(Some(live)),
        CompletionState::FirstRead { to_persist: live, recorded: true },
        CompletionAction::ReadRollout,
    );
    let e15 = e8.push(CompletionEvent::Recorded(Some(live)));
    let a15 = a8.push(CompletionAction::ReadRollout);
    lemma_completion_moves(
        thread_id,
        item,
        e15,
        CompletionState::FirstRead { to_persist: live, recorded: true },
        a15,
        CompletionEvent::Read(Ok(None)),
        CompletionState::Appended { to_persist: live, recorded: true },
        CompletionAction::Append,
    );
    let e16 = e15.push(CompletionEvent::Read(Ok(None)));
    let a16 = a15.push(CompletionAction::Append);
    lemma_completion_moves(
        thread_id,
        item,
        e16,
        CompletionState::Appended { to_persist: live, recorded: true },
        a16,
        CompletionEvent::Appended { failed },
        CompletionState::Reflushed { to_persist: live, recorded: true, append_failed: failed },
        CompletionAction::Reflush,
    );
    let e17 = e16.push(CompletionEvent::Appended { failed });
    let a17 = a16.push(CompletionAction::Reflush);
    lemma_completion_moves(
        thread_id,
        item,
        e17,
        CompletionState::Reflushed { to_persist: live, recorded: true, append_failed: failed },
        a17,
        CompletionEvent::Reflushed,
        CompletionState::Readback { to_persist: live, recorded: true, append_failed: failed },
        CompletionAction::ReadRollout,
    );
    let e18 = e17.push(CompletionEvent::Reflushed);
    let a18 = a17.push(CompletionAction::ReadRollout);
    lemma_completion_moves(
        thread_id,
        item,
        e18,
        CompletionState::Readback { to_persist: live, recorded: true, append_failed: failed },
        a18,
        CompletionEvent::Read(Ok(Some(saved))),
        CompletionState::Done,
        CompletionAction::Finish(Ok(())),
    );
    let e19 = e18.push(CompletionEvent::Read(Ok(Some(saved))));
    let a19 = a18.push(CompletionAction::Finish(Ok(())));
    let all_events = seq![
        CompletionEvent::Admitted(true),
        CompletionEvent::Locked { restart_required: false },
        CompletionEvent::Writer(true),
        CompletionEvent::Persisted(Ok(())),
        CompletionEvent::Persisted(Ok(())),
        CompletionEvent::RolloutPath(Ok(())),
        CompletionEvent::Prepared(Some(prepared)),
        CompletionEvent::Locked { restart_required: false },
        CompletionEvent::Recorded(Some(live)),
        CompletionEvent::Read(Ok(None)),
        CompletionEvent::Appended { failed },
        CompletionEvent::Reflushed,
        CompletionEvent::Read(Ok(Some(saved))),
    ];
    assert(e19 =~= all_events);
    let all_actions = seq![
        CompletionAction::AcquireAdmission,
        CompletionAction::LockHistory,
        CompletionAction::FindWriter,
        CompletionAction::Materialize,
        CompletionAction::Flush,
        CompletionAction::ResolveRollout,
        CompletionAction::Prepare(item),
        CompletionAction::LockState,
        CompletionAction::LookUpRecorded,
        CompletionAction::ReadRollout,
        CompletionAction::Append,
        CompletionAction::Reflush,
        CompletionAction::ReadRollout,
        CompletionAction::Finish(Ok(())),
    ];
    assert(a19 =~= all_actions);
    lemma_completion_has_run(
        thread_id,
        item,
        e19,
        CompletionState::Done,
        a19,
        all_events,
        all_actions,
    );
}

/// A recording that cannot go on ends with the reason of its first failure, before anything is
/// appended.
pub proof fn law_recording_ends_with_its_first_failure(
    thread_id: ThreadId,
    item: ResponseItem,
    prepared: ResponseItem,
    live: ResponseItem,
    saved: ResponseItem,
    error: String,
)
    requires
        item.spec_id() is Some,
    ensures
        ({
            let events: Seq<CompletionEvent> = seq![CompletionEvent::Admitted(false)];
            let run = completion_run(thread_id, item, events);
            &&& run is Some
            &&& run->Some_0.1 == seq![
                CompletionAction::AcquireAdmission,
                CompletionAction::Finish(Err(CodexErr::TurnAborted)),
            ]
        }),
        ({
            let events: Seq<CompletionEvent> = seq![
                CompletionEvent::Admitted(true),
                CompletionEvent::Locked { restart_required: true },
            ];
            let run = completion_run(thread_id, item, events);
            &&& run is Some
            &&& run->Some_0.1 == seq![
                CompletionAction::AcquireAdmission,
                CompletionAction::LockHistory,
                CompletionAction::Finish(Err(CodexErr::TurnAborted)),
            ]
        }),
        ({
            let events: Seq<CompletionEvent> = seq![
                CompletionEvent::Admitted(true),
                CompletionEvent::Locked { restart_required: false },
                CompletionEvent::Writer(false),
            ];
            let run = completion_run(thread_id, item, events);
            &&& run is Some
            &&& run->Some_0.1 == seq![
                CompletionAction::AcquireAdmission,
                CompletionAction::LockHistory,
                CompletionAction::FindWriter,
                CompletionAction::Finish(
                    Err(CodexErr::Fatal(Reason::CompletionNoWriter(thread_id))),
                ),
            ]
        }),
        ({
            let events: Seq<CompletionEvent> = seq![
                CompletionEvent::Admitted(true),
                CompletionEvent::Locked { restart_required: false },
                CompletionEvent::Writer(true),
                CompletionEvent::Persisted(Err(error)),
            ];
            let run = completion_run(thread_id, item, events);
            &&& run is Some
            &&& run->Some_0.1 == seq![
                CompletionAction::AcquireAdmission,
                CompletionAction::LockHistory,
                CompletionAction::FindWriter,
                CompletionAction::Materialize,
                CompletionAction::Finish(
                    Err(CodexErr::Fatal(Reason::CompletionMaterialize(error))),
                ),
            ]
        }),
        ({
            let events: Seq<CompletionEvent> = seq![
                CompletionEvent::Admitted(true),
                CompletionEvent::Locked { restart_required: false },
                CompletionEvent::Writer(true),
                CompletionEvent::Persisted(Ok(())),
                CompletionEvent::Persisted(Err(error)),
            ];
            let run = completion_run(thread_id, item, events);
            &&& run is Some
            &&& run->Some_0.1 == seq![
                CompletionAction::AcquireAdmission,
                CompletionAction::LockHistory,
                CompletionAction::FindWriter,
                CompletionAction::Materialize,
                CompletionAction::Flush,
                CompletionAction::Finish(Err(CodexErr::Fatal(Reason::CompletionReconcile(error)))),
            ]
        }),
        ({
            let events: Seq<CompletionEvent> = seq![
                CompletionEvent::Admitted(true),
                CompletionEvent::Locked { restart_required: false },
                CompletionEvent::Writer(true),
                CompletionEvent::Persisted(Ok(())),
                CompletionEvent::Persisted(Ok(())),
                CompletionEvent::RolloutPath(Err(error)),
            ];
            let run = completion_run(thread_id, item, events);
            &&& run is Some
            &&& run->Some_0.1 == seq![
                CompletionAction::AcquireAdmission,
                CompletionAction::LockHistory,
                CompletionAction::FindWriter,
                CompletionAction::Materialize,
                CompletionAction::Flush,
                CompletionAction::ResolveRollout,
                CompletionAction::Finish(
                    Err(CodexErr::Fatal(Reason::CompletionResolveRollout(error))),
                ),
            ]
        }),
        ({
            let events: Seq<CompletionEvent> = seq![
                CompletionEvent::Admitted(true),
                CompletionEvent::Locked { restart_required: false },
                CompletionEvent::Writer(true),
                CompletionEvent::Persisted(Ok(())),
                CompletionEvent::Persisted(Ok(())),
                CompletionEvent::RolloutPath(Ok(())),
                CompletionEvent::Prepared(None),
            ];
            let run = completion_run(thread_id, item, events);
            &&& run is Some
            &&& run->Some_0.1 == seq![
                CompletionAction::AcquireAdmission,
                CompletionAction::LockHistory,
                CompletionAction::FindWriter,
                CompletionAction::Materialize,
                CompletionAction::Flush,
                CompletionAction::ResolveRollout,
                CompletionAction::Prepare(item),
                CompletionAction::Finish(Err(CodexErr::Fatal(Reason::CompletionNotPrepared))),
            ]
        }),
        ({
            let events: Seq<CompletionEvent> = seq![
                CompletionEvent::Admitted(true),
                CompletionEvent::Locked { restart_required: false },
                CompletionEvent::Writer(true),
                CompletionEvent::Persisted(Ok(())),
                CompletionEvent::Persisted(Ok(())),
                CompletionEvent::RolloutPath(Ok(())),
                CompletionEvent::Prepared(Some(prepared)),
                CompletionEvent::Locked { restart_required: true },
            ];
            let run = completion_run(thread_id, item, events);
            &&& run is Some
            &&& run->Some_0.1 == seq![
                CompletionAction::AcquireAdmission,
                CompletionAction::LockHistory,
                CompletionAction::FindWriter,
                CompletionAction::Materialize,
                CompletionAction::Flush,
                CompletionAction::ResolveRollout,
                CompletionAction::Prepare(item),
                CompletionAction::LockState,
                CompletionAction::Finish(Err(CodexErr::TurnAborted)),
            ]
        }),
        ({
            let events: Seq<CompletionEvent> = seq![
                CompletionEvent::Admitted(true),
                CompletionEvent::Locked { restart_required: false },
                CompletionEvent::Writer(true),
                CompletionEvent::Persisted(Ok(())),
                CompletionEvent::Persisted(Ok(())),
                CompletionEvent::RolloutPath(Ok(())),
                CompletionEvent::Prepared(Some(prepared)),
                CompletionEvent::Locked { restart_required: false },
                CompletionEvent::Recorded(None),
                CompletionEvent::Read(Err(error)),
            ];
            let run = completion_run(thread_id, item, events);
            &&& run is Some
            &&& run->Some_0.1 == seq![
                CompletionAction::AcquireAdmission,
                CompletionAction::LockHistory,
                CompletionAction::FindWriter,
                CompletionAction::Materialize,
                CompletionAction::Flush,
                CompletionAction::ResolveRollout,
                CompletionAction::Prepare(item),
                CompletionAction::LockState,
                CompletionAction::LookUpRecorded,
                CompletionAction::ReadRollout,
                CompletionAction::Finish(
                    Err(CodexErr::Fatal(Reason::CompletionReadRollout(error))),
                ),
            ]
        }),
        ({
            let events: Seq<CompletionEvent> = seq![
                CompletionEvent::Admitted(true),
                CompletionEvent::Locked { restart_required: false },
                CompletionEvent::Writer(true),
                CompletionEvent::Persisted(Ok(())),
                CompletionEvent::Persisted(Ok(())),
                CompletionEvent::RolloutPath(Ok(())),
                CompletionEvent::Prepared(Some(prepared)),
                CompletionEvent::Locked { restart_required: false },
                CompletionEvent::Recorded(Some(live)),
                CompletionEvent::Read(Err(error)),
            ];
            let run = completion_run(thread_id, item, events);
            &&& run is Some
            &&& run->Some_0.1 == seq![
                CompletionAction::AcquireAdmission,
                CompletionAction::LockHistory,
                CompletionAction::FindWriter,
                CompletionAction::Materialize,
                CompletionAction::Flush,
                CompletionAction::ResolveRollout,
                CompletionAction::Prepare(item),
                CompletionAction::LockState,
                CompletionAction::LookUpRecorded,
                CompletionAction::ReadRollout,
                CompletionAction::Finish(
                    Err(CodexErr::Fatal(Reason::CompletionReadRollout(error))),
                ),
            ]
        }),
{
    let e0 = Seq::<CompletionEvent>::empty();
    lemma_completion_step(thread_id, item, e0, CompletionEvent::Admitted(false));
    let e1 = e0.push(CompletionEvent::Admitted(false));
    assert(completion_run(thread_id, item, e1)->Some_0.1 =~= seq![
        CompletionAction::AcquireAdmission,
        CompletionAction::Finish(Err(CodexErr::TurnAborted)),
    ]);
    lemma_completion_step(thread_id, item, e0, CompletionEvent::Admitted(true));
    let e2 = e0.push(CompletionEvent::Admitted(true));
    lemma_completion_step(thread_id, item, e2, CompletionEvent::Locked { restart_required: true });
    let e3 = e2.push(CompletionEvent::Locked { restart_required: true });
    assert(
        e3 =~= seq![
            CompletionEvent::Admitted(true),
            CompletionEvent::Locked { restart_required: true },
        ]
    );
    assert(completion_run(thread_id, item, e3)->Some_0.1 =~= seq![
        CompletionAction::AcquireAdmission,
        CompletionAction::LockHistory,
        CompletionAction::Finish(Err(CodexErr::TurnAborted)),
    ]);
    lemma_completion_step(thread_id, item, e2, CompletionEvent::Locked { restart_required: false });
    let e4 = e2.push(CompletionEvent::Locked { restart_required: false });
    lemma_completion_step(thread_id, item, e4, CompletionEvent::Writer(false));
    let e5 = e4.push(CompletionEvent::Writer(false));
    assert(e5 =~= seq![
        CompletionEvent::Admitted(true),
        CompletionEvent::Locked { restart_required: false },
        CompletionEvent::Writer(false),
    ]);
    assert(completion_run(thread_id, item, e5)->Some_0.1 =~= seq![
        CompletionAction::AcquireAdmission,
        CompletionAction::LockHistory,
        CompletionAction::FindWriter,
        CompletionAction::Finish(Err(CodexErr::Fatal(Reason::CompletionNoWriter(thread_id)))),
    ]);
    lemma_completion_step(thread_id, item, e4, CompletionEvent::Writer(true));
    let e6 = e4.push(CompletionEvent::Writer(true));
    lemma_completion_step(thread_id, item, e6, CompletionEvent::Persisted(Err(error)));
    let e7 = e6.push(CompletionEvent::Persisted(Err(error)));
    assert(e7 =~= seq![
        CompletionEvent::Admitted(true),
        CompletionEvent::Locked { restart_required: false },
        CompletionEvent::Writer(true),
        CompletionEvent::Persisted(Err(error)),
    ]);
    assert(completion_run(thread_id, item, e7)->Some_0.1 =~= seq![
        CompletionAction::AcquireAdmission,
        CompletionAction::LockHistory,
        CompletionAction::FindWriter,
        CompletionAction::Materialize,
        CompletionAction::Finish(Err(CodexErr::Fatal(Reason::CompletionMaterialize(error)))),
    ]);
    lemma_completion_step(thread_id, item, e6, CompletionEvent::Persisted(Ok(())));
    let e8 = e6.push(CompletionEvent::Persisted(Ok(())));
    lemma_completion_step(thread_id, item, e8, CompletionEvent::Persisted(Err(error)));
    let e9 = e8.push(CompletionEvent::Persisted(Err(error)));
    assert(e9 =~= seq![
        CompletionEvent::Admitted(true),
        CompletionEvent::Locked { restart_required: false },
        CompletionEvent::Writer(true),
        CompletionEvent::Persisted(Ok(())),
        CompletionEvent::Persisted(Err(error)),
    ]);
    assert(completion_run(thread_id, item, e9)->Some_0.1 =~= seq![
        CompletionAction::AcquireAdmission,
        CompletionAction::LockHistory,
        CompletionAction::FindWriter,
        CompletionAction::Materialize,
        CompletionAction::Flush,
        CompletionAction::Finish(Err(CodexErr::Fatal(Reason::CompletionReconcile(error)))),
    ]);
    lemma_completion_step(thread_id, item, e8, CompletionEvent::Persisted(Ok(())));
    let e10 = e8.push(CompletionEvent::Persisted(Ok(())));
    lemma_completion_step(thread_id, item, e10, CompletionEvent::RolloutPath(Err(error)));
    let e11 = e10.push(CompletionEvent::RolloutPath(Err(error)));
    assert(e11 =~= seq![
        CompletionEvent::Admitted(true),
        CompletionEvent::Locked { restart_required: false },
        CompletionEvent::Writer(true),
        CompletionEvent::Persisted(Ok(())),
        CompletionEvent::Persisted(Ok(())),
        CompletionEvent::RolloutPath(Err(error)),
    ]);
    assert(completion_run(thread_id, item, e11)->Some_0.1 =~= seq![
        CompletionAction::AcquireAdmission,
        CompletionAction::LockHistory,
        CompletionAction::FindWriter,
        CompletionAction::Materialize,
        CompletionAction::Flush,
        CompletionAction::ResolveRollout,
        CompletionAction::Finish(Err(CodexErr::Fatal(Reason::CompletionResolveRollout(error)))),
    ]);
    lemma_completion_step(thread_id, item, e10, CompletionEvent::RolloutPath(Ok(())));
    let e12 = e10.push(CompletionEvent::RolloutPath(Ok(())));
    lemma_completion_step(thread_id, item, e12, CompletionEvent::Prepared(None));
    let e13 = e12.push(CompletionEvent::Prepared(None));
    assert(e13 =~= seq![
        CompletionEvent::Admitted(true),
        CompletionEvent::Locked { restart_required: false },
        CompletionEvent::Writer(true),
        CompletionEvent::Persisted(Ok(())),
        CompletionEvent::Persisted(Ok(())),
        CompletionEvent::RolloutPath(Ok(())),
        CompletionEvent::Prepared(None),
    ]);
    assert(completion_run(thread_id, item, e13)->Some_0.1 =~= seq![
        CompletionAction::AcquireAdmission,
        CompletionAction::LockHistory,
        CompletionAction::FindWriter,
        CompletionAction::Materialize,
        CompletionAction::Flush,
        CompletionAction::ResolveRollout,
        CompletionAction::Prepare(item),
        CompletionAction::Finish(Err(CodexErr::Fatal(Reason::CompletionNotPrepared))),
    ]);
    lemma_completion_step(thread_id, item, e12, CompletionEvent::Prepared(Some(prepared)));
    let e14 = e12.push(CompletionEvent::Prepared(Some(prepared)));
    lemma_completion_step(thread_id, item, e14, CompletionEvent::Locked { restart_required: true });
    let e15 = e14.push(CompletionEvent::Locked { restart_required: true });
    assert(e15 =~= seq![
        CompletionEvent::Admitted(true),
        CompletionEvent::Locked { restart_required: false },
        CompletionEvent::Writer(true),
        CompletionEvent::Persisted(Ok(())),
        CompletionEvent::Persisted(Ok(())),
        CompletionEvent::RolloutPath(Ok(())),
        CompletionEvent::Prepared(Some(prepared)),
        CompletionEvent::Locked { restart_required: true },
    ]);
    assert(completion_run(thread_id, item, e15)->Some_0.1 =~= seq![
        CompletionAction::AcquireAdmission,
        CompletionAction::LockHistory,
        CompletionAction::FindWriter,
        CompletionAction::Materialize,
        CompletionAction::Flush,
        CompletionAction::ResolveRollout,
        CompletionAction::Prepare(item),
        CompletionAction::LockState,
        CompletionAction::Finish(Err(CodexErr::TurnAborted)),
    ]);
    lemma_completion_step(
        thread_id,
        item,
        e14,
        CompletionEvent::Locked { restart_required: false },
    );
    let e16 = e14.push(CompletionEvent::Locked { restart_required: false });
    lemma_completion_step(thread_id, item, e16, CompletionEvent::Recorded(None));
    let e17 = e16.push(CompletionEvent::Recorded(None));
    lemma_completion_step(thread_id, item, e17, CompletionEvent::Read(Err(error)));
    let e18 = e17.push(CompletionEvent::Read(Err(error)));
    assert(e18 =~= seq![
        CompletionEvent::Admitted(true),
        CompletionEvent::Locked { restart_required: false },
        CompletionEvent::Writer(true),
        CompletionEvent::Persisted(Ok(())),
        CompletionEvent::Persisted(Ok(())),
        CompletionEvent::RolloutPath(Ok(())),
        CompletionEvent::Prepared(Some(prepared)),
        CompletionEvent::Locked { restart_required: false },
        CompletionEvent::Recorded(None),
        CompletionEvent::Read(Err(error)),
    ]);
    assert(completion_run(thread_id, item, e18)->Some_0.1 =~= seq![
        CompletionAction::AcquireAdmission,
        CompletionAction::LockHistory,
        CompletionAction::FindWriter,
        CompletionAction::Materialize,
        CompletionAction::Flush,
        CompletionAction::ResolveRollout,
        CompletionAction::Prepare(item),
        CompletionAction::LockState,
        CompletionAction::LookUpRecorded,
        CompletionAction::ReadRollout,
        CompletionAction::Finish(Err(CodexErr::Fatal(Reason::CompletionReadRollout(error)))),
    ]);
    lemma_completion_step(thread_id, item, e16, CompletionEvent::Recorded(Some(live)));
    let e19 = e16.push(CompletionEvent::Recorded(Some(live)));
    lemma_completion_step(thread_id, item, e19, CompletionEvent::Read(Err(error)));
    let e20 = e19.push(CompletionEvent::Read(Err(error)));
    assert(e20 =~= seq![
        CompletionEvent::Admitted(true),
        CompletionEvent::Locked { restart_required: false },
        CompletionEvent::Writer(true),
        CompletionEvent::Persisted(Ok(())),
        CompletionEvent::Persisted(Ok(())),
        CompletionEvent::RolloutPath(Ok(())),
        CompletionEvent::Prepared(Some(prepared)),
        CompletionEvent::Locked { restart_required: false },
        CompletionEvent::Recorded(Some(live)),
        CompletionEvent::Read(Err(error)),
    ]);
    assert(completion_run(thread_id, item, e20)->Some_0.1 =~= seq![
        CompletionAction::AcquireAdmission,
        CompletionAction::LockHistory,
        CompletionAction::FindWriter,
        CompletionAction::Materialize,
        CompletionAction::Flush,
        CompletionAction::ResolveRollout,
        CompletionAction::Prepare(item),
        CompletionAction::LockState,
        CompletionAction::LookUpRecorded,
        CompletionAction::ReadRollout,
        CompletionAction::Finish(Err(CodexErr::Fatal(Reason::CompletionReadRollout(error)))),
    ]);
}

/// A notice that was not read back is tried again after a pause, with the same item: appended
/// again where the append had failed and the rollout was read without it, only flushed otherwise.
pub proof fn law_unconfirmed_notice_is_tried_again(
    thread_id: ThreadId,
    item: ResponseItem,
    events: Seq<CompletionEvent>,
    to_persist: ResponseItem,
    recorded: bool,
    failed: bool,
    error: String,
)
    requires
        completion_run(thread_id, item, events) is Some,
        completion_run(thread_id, item, events)->Some_0.0 == (CompletionState::Appended {
            to_persist,
            recorded,
        }),
    ensures
        ({
            let actions = completion_run(thread_id, item, events)->Some_0.1;
            let missed = events + seq![
                CompletionEvent::Appended { failed },
                CompletionEvent::Reflushed,
                CompletionEvent::Read(Ok(None)),
                CompletionEvent::Slept,
            ];
            let unread = events + seq![
                CompletionEvent::Appended { failed },
                CompletionEvent::Reflushed,
                CompletionEvent::Read(Err(error)),
                CompletionEvent::Slept,
                CompletionEvent::Reflushed,
            ];
            &&& completion_run(thread_id, item, missed) == if failed {
                Some(
                    (
                        CompletionState::Appended { to_persist, recorded },
                        actions + seq![
                            CompletionAction::Reflush,
                            CompletionAction::ReadRollout,
                            CompletionAction::Sleep,
                            CompletionAction::Append,
                        ],
                    ),
                )
            } else {
                Some(
                    (
                        CompletionState::Reflushed { to_persist, recorded, append_failed: failed },
                        actions + seq![
                            CompletionAction::Reflush,
                            CompletionAction::ReadRollout,
                            CompletionAction::Sleep,
                            CompletionAction::Reflush,
                        ],
                    ),
                )
            }
            &&& completion_run(thread_id, item, unread) == Some(
                (
                    CompletionState::Readback { to_persist, recorded, append_failed: failed },
                    actions + seq![
                        CompletionAction::Reflush,
                        CompletionAction::ReadRollout,
                        CompletionAction::Sleep,
                        CompletionAction::Reflush,
                        CompletionAction::ReadRollout,
                    ],
                ),
            )
        }),
{
    let actions = completion_run(thread_id, item, events)->Some_0.1;
    lemma_completion_step(thread_id, item, events, CompletionEvent::Appended { failed });
    let appended = events.push(CompletionEvent::Appended { failed });
    lemma_completion_step(thread_id, item, appended, CompletionEvent::Reflushed);
    let flushed = appended.push(CompletionEvent::Reflushed);
    lemma_completion_step(thread_id, item, flushed, CompletionEvent::Read(Ok(None)));
    let missed = flushed.push(CompletionEvent::Read(Ok(None)));
    lemma_completion_step(thread_id, item, missed, CompletionEvent::Slept);
    assert(missed.push(CompletionEvent::Slept) =~= events + seq![
        CompletionEvent::Appended { failed },
        CompletionEvent::Reflushed,
        CompletionEvent::Read(Ok(None)),
        CompletionEvent::Slept,
    ]);
    lemma_completion_step(thread_id, item, flushed, CompletionEvent::Read(Err(error)));
    let unread = flushed.push(CompletionEvent::Read(Err(error)));
    lemma_completion_step(thread_id, item, unread, CompletionEvent::Slept);
    let slept = unread.push(CompletionEvent::Slept);
    lemma_completion_step(thread_id, item, slept, CompletionEvent::Reflushed);
    assert(slept.push(CompletionEvent::Reflushed) =~= events + seq![
        CompletionEvent::Appended { failed },
        CompletionEvent::Reflushed,
        CompletionEvent::Read(Err(error)),
        CompletionEvent::Slept,
        CompletionEvent::Reflushed,
    ]);
    let again = if failed {
        CompletionAction::Append
    } else {
        CompletionAction::Reflush
    };
    assert(actions.push(CompletionAction::Reflush).push(CompletionAction::ReadRollout).push(
        CompletionAction::Sleep,
    ).push(again) =~= actions + seq![
        CompletionAction::Reflush,
        CompletionAction::ReadRollout,
        CompletionAction::Sleep,
        again,
    ]);
    assert(actions.push(CompletionAction::Reflush).push(CompletionAction::ReadRollout).push(
        CompletionAction::Sleep,
    ).push(CompletionAction::Reflush).push(CompletionAction::ReadRollout) =~= actions + seq![
        CompletionAction::Reflush,
        CompletionAction::ReadRollout,
        CompletionAction::Sleep,
        CompletionAction::Reflush,
        CompletionAction::ReadRollout,
    ]);
}

/// A recording takes an answer exactly where it waits for one of that kind, and none when it is
/// done. It is done exactly when its last word is said.
pub proof fn law_recording_takes_only_awaited_answers(
    state: CompletionState,
    event: CompletionEvent,
)
    ensures
        completion_next(state, event) is Some <==> {
            ||| state is Admission && event is Admitted
            ||| state is HistoryLock && event is Locked
            ||| state is Writer && event is Writer
            ||| state is Materialized && event is Persisted
            ||| state is Flushed && event is Persisted
            ||| state is RolloutPath && event is RolloutPath
            ||| state is Prepared && event is Prepared
            ||| state is StateLock && event is Locked
            ||| state is Recorded && event is Recorded
            ||| state is FirstRead && event is Read
            ||| state is Appended && event is Appended
            ||| state is Reflushed && event is Reflushed
            ||| state is Readback && event is Read
            ||| state is Pause && event is Slept
            ||| state is Announced && event is Announced
        },
        completion_next(state, event) matches Some((after, action)) ==> (after is Done
            <==> action is Finish),
{
}

/// The item that is found under an identity in the live history bears that identity, and none
/// before it does; nothing is found exactly where no item bears it.
pub proof fn law_lookup_finds_the_first_item(
    items: Seq<ResponseItem>,
    id: Seq<char>,
    k: int,
    res: Option<&ResponseItem>,
)
    requires
        0 <= k < items.len(),
        items[k].spec_id() matches Some(own) && own@ == id,
        forall|i: int|
            0 <= i < k ==> !((#[trigger] items[i]).spec_id() matches Some(own) && own@ == id),
    ensures
        is_first_with_id(items, id, res) <==> res == Some(&items[k]),
{
    if is_first_with_id(items, id, res) {
        assert(items[k].has_id(id));
        assert(res is Some);
        let found = *res->Some_0;
        let i = choose|i: int|
            0 <= i < items.len() && #[trigger] items[i] == found && items[i].has_id(id) && (forall|
                j: int,
            |
                0 <= j < i ==> !(#[trigger] items[j]).has_id(id));
        assert(items[i].has_id(id));
        assert(!(i < k));
        assert(!(k < i));
    }
    if res == Some(&items[k]) {
        assert(items[k] == *res->Some_0 && items[k].has_id(id));
    }
}

/// In saved records the latest record with an identity counts: what was saved before it is not
/// looked at, and records that do not hold the identity change nothing.
pub proof fn law_latest_saved_record_counts(
    records: Seq<RolloutItem>,
    later: RolloutItem,
    id: Seq<char>,
    res: Option<&ResponseItem>,
)
    ensures
        later matches RolloutItem::ResponseItem(item) && item.spec_id() matches Some(own) && own@
            == id ==> (is_latest_with_id(records.push(later), id, res) <==> res == Some(
            &later->ResponseItem_0,
        )),
        !(later is ResponseItem) && !(later is Compacted) ==> (is_latest_with_id(
            records.push(later),
            id,
            res,
        ) <==> is_latest_with_id(records, id, res)),
        later matches RolloutItem::ResponseItem(item) && !(item.spec_id() matches Some(own) && own@
            == id) ==> (is_latest_with_id(records.push(later), id, res) <==> is_latest_with_id(
            records,
            id,
            res,
        )),
        later matches RolloutItem::Compacted { replacement_history: None } ==> (is_latest_with_id(
            records.push(later),
            id,
            res,
        ) <==> is_latest_with_id(records, id, res)),
        later matches RolloutItem::Compacted { replacement_history: Some(items) } && (exists|i: int|
            0 <= i < items@.len() && ((#[trigger] items@[i]).spec_id() matches Some(own) && own@
                == id)) ==> (is_latest_with_id(records.push(later), id, res) <==> res is Some
            && is_first_with_id(later->Compacted_replacement_history->Some_0@, id, res)),
{
    let all = records.push(later);
    let n = records.len() as int;
    assert(all[n] == later);
    assert forall|i: int| 0 <= i < n implies #[trigger] all[i] == records[i] by {}
    if let RolloutItem::Compacted { replacement_history: Some(items) } = later {
        if exists|i: int|
            0 <= i < items@.len() && ((#[trigger] items@[i]).spec_id() matches Some(own) && own@
                == id) {
            let i = choose|i: int|
                0 <= i < items@.len() && ((#[trigger] items@[i]).spec_id() matches Some(own)
                    && own@ == id);
            assert(items@[i].has_id(id));
            assert(holds_id(all[n], id));
        }
    }
    if !holds_id(later, id) {
        if is_latest_with_id(records, id, res) && res is Some {
            let found = res->Some_0;
            let i = choose|i: int|
                0 <= i < records.len() && is_held(#[trigger] records[i], id, found) && (forall|
                    k: int,
                |
                    i < k < records.len() ==> !holds_id(#[trigger] records[k], id));
            assert(is_held(all[i], id, found));
            assert forall|k: int| i < k < all.len() implies !holds_id(#[trigger] all[k], id) by {
                if k < n {
                    assert(!holds_id(records[k], id));
                }
            }
        }
        if is_latest_with_id(all, id, res) {
            match res {
                Some(found) => {
                    let i = choose|i: int|
                        0 <= i < all.len() && is_held(#[trigger] all[i], id, found) && (forall|
                            k: int,
                        |
                            i < k < all.len() ==> !holds_id(#[trigger] all[k], id));
                    if i == n {
                        lemma_held_is_under_the_id(later, id, found);
                    }
                    assert(is_held(records[i], id, found));
                    assert forall|k: int| i < k < records.len() implies !holds_id(
                        #[trigger] records[k],
                        id,
                    ) by {
                        assert(!holds_id(all[k], id));
                    }
                },
                None => {
                    assert forall|k: int| 0 <= k < records.len() implies !holds_id(
                        #[trigger] records[k],
                        id,
                    ) by {
                        assert(!holds_id(all[k], id));
                    }
                },
            }
        }
        if is_latest_with_id(records, id, res) && res is None {
            assert forall|k: int| 0 <= k < all.len() implies !holds_id(#[trigger] all[k], id) by {
                if k < n {
                    assert(!holds_id(records[k], id));
                }
            }
        }
    } else {
        if is_latest_with_id(all, id, res) {
            assert(holds_id(all[n], id));
            assert(res is Some);
            let found = res->Some_0;
            let i = choose|i: int|
                0 <= i < all.len() && is_held(#[trigger] all[i], id, found) && (forall|k: int|
                    i < k < all.len() ==> !holds_id(#[trigger] all[k], id));
            assert(i == n);
        }
        if let Some(found) = res {
            if is_held(later, id, found) {
                assert(is_held(all[n], id, found));
                assert(is_latest_with_id(all, id, res));
            }
        }
    }
}

proof fn lemma_held_is_under_the_id(record: RolloutItem, id: Seq<char>, found: &ResponseItem)
    requires
        is_held(record, id, found),
    ensures
        holds_id(record, id),
{
}

/// A recording begins as its run does.
pub proof fn law_completion_begins_as_its_run_does(
    thread_id: ThreadId,
    item: ResponseItem,
    res: (CompletionState, CompletionAction),
)
    requires
        call_ensures(start_completion, (thread_id, item), res),
    ensures
        completion_run(thread_id, item, Seq::<CompletionEvent>::empty()) == Some((res.0, seq![res.1])),
{
}

/// A recording that takes a step goes on as its run does, with all that it asked for before; an
/// answer that it does not wait for is handed back, and nothing has changed.
pub proof fn law_completion_goes_on_as_its_run_does(
    thread_id: ThreadId,
    item: ResponseItem,
    events: Seq<CompletionEvent>,
    state: CompletionState,
    actions: Seq<CompletionAction>,
    event: CompletionEvent,
    res: Result<(CompletionState, CompletionAction), (CompletionState, CompletionEvent)>,
)
    requires
        completion_run(thread_id, item, events) == Some((state, actions)),
        call_ensures(step_completion, (state, event), res),
    ensures
        match res {
            Ok((next, action)) => completion_run(thread_id, item, events.push(event)) == Some(
                (next, actions.push(action)),
            ),
            Err(back) => back == (state, event) && completion_run(thread_id, item, events.push(event)) is None,
        },
{
    assert(events.push(event).drop_last() =~= events);
}

/// A notice is recorded exactly where its receipt says so. A receipt that is never answered means
/// that the session died, and one that is refused passes the reason on.
pub proof fn law_receipt_tells_what_became_of_a_notice(message: String, res: Result<(), CodexErr>)
    ensures
        call_ensures(receipt_outcome, (Some(Ok(())),), res) ==> res is Ok,
        call_ensures(receipt_outcome, (Some(Err(message)),), res) ==> res == Err::<(), CodexErr>(
            CodexErr::Fatal(Reason::Message(message)),
        ),
        call_ensures(receipt_outcome, (None,), res) ==> res == Err::<(), CodexErr>(
            CodexErr::InternalAgentDied,
        ),
{
}

/// A response item is reported as it is, under the turn that it came in.
pub proof fn law_response_item_is_reported_as_it_is(sub_id: String, item: ResponseItem, res: Event)
    requires
        call_ensures(raw_response_item_event, (sub_id, item), res),
    ensures
        res.id == sub_id,
        res.msg == (EventMsg::RawResponseItem { item }),
{
}

/// A notice is queued with the turn that has a task, unless a receipt for it is open already; it is
/// handed back to be recorded otherwise, and refused only where it has no identity. What is not
/// queued changes nothing.
pub proof fn law_notice_is_queued_or_recorded<S>(
    queue: &mut InputQueue<S>,
    active: &mut Option<ActiveTurn>,
    item: ResponseItem,
    sender: S,
    res: CompletionRoute<S>,
)
    requires
        old(queue).well_formed(),
        call_ensures(route_completion::<S>, (queue, active, item, sender), res),
    ensures
        res is Refused <==> item.spec_id() is None,
        res is Refused ==> res == CompletionRoute::<S>::Refused(
            CodexErr::InvalidRequest(Reason::CompletionNeedsStableId),
        ),
        res is AtBoundary ==> res == CompletionRoute::AtBoundary(item, sender),
        !(res is Queued) ==> *final(active) == *old(active) && final(queue).waiters@ == old(
            queue,
        ).waiters@,
        res is Queued ==> {
            &&& old(active)->Some_0.task is Some
            &&& turn_input(*final(active)).last() == TurnInput::ResponseItem(item)
            &&& turn_input(*final(active)).drop_last() == turn_input(*old(active))
            &&& final(queue).waiters@.len() == old(queue).waiters@.len() + 1
            &&& final(queue).waiters@.last().sender == sender
            &&& item.spec_id() == Some(final(queue).waiters@.last().item_id)
        },
{
    if res is Queued {
        assert(turn_input(*final(active)).drop_last() =~= turn_input(*old(active)));
    }
}

} // verus!
