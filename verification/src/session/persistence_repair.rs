//! Attaching persistence to a session that runs without: its saved thread gets a writer, and what
//! the session holds and the thread lacks is appended before the writer is published.
use crate::errors::Reason;
use crate::ids::ThreadId;
use crate::protocol::RolloutItem;
use crate::protocol::TurnItem;
use crate::session::dispatch::ThreadMemoryMode;
use crate::session::recovery::LiveItem;
use crate::session::recovery::Presentation;
use crate::session::recovery::Presented;
use crate::session::recovery::Recovery;
use crate::session::recovery::ThreadHistoryMode;
use crate::session::recovery::add_legacy_events;
use crate::session::recovery::distinct_turns;
use crate::session::recovery::is_recovery;
use crate::session::recovery::known_turns;
use crate::session::recovery::presented_turn_ids;
use crate::session::recovery::recover;
use crate::session::recovery::restored;
use crate::session::recovery::restored_batch;
use crate::session::recovery::with_legacy_events;
use crate::session::session::RepairedPersistence;
use crate::session::session::Session;
use vstd::prelude::*;

verus! {

/// The saved thread of a session, and how the session keeps its history.
#[derive(Clone, Copy, Debug, PartialEq, Eq, Structural)]
pub struct SavedThread {
    pub thread_id: ThreadId,
    pub mode: ThreadHistoryMode,
}

/// How far a restoration has come. Each state names what it waits for.
#[allow(inconsistent_fields)]
#[derive(Debug, PartialEq, Eq)]
pub enum RepairState {
    FirstLook { thread: SavedThread },
    Admission { thread: SavedThread },
    Settings { thread: SavedThread },
    Locks { thread: SavedThread },
    Stored { thread: SavedThread },
    Writer { thread: SavedThread },
    Saved { thread: SavedThread },
    Comparison { thread: SavedThread, saved: Vec<RolloutItem> },
    Turns { thread: SavedThread, saved: Vec<RolloutItem>, recovery: Recovery },
    Presentation {
        thread: SavedThread,
        saved: Vec<RolloutItem>,
        recovery: Recovery,
        /// The turns that were looked up, where they were.
        looked_up: Option<Vec<String>>,
    },
    Append,
    Flush,
    RolloutPath,
    Database { rollout_path: Option<String> },
    Publication,
    Cleanup { reason: Reason },
    Done,
}

/// The two histories of a thread, as they are compared.
#[derive(Debug, PartialEq, Eq)]
pub struct Histories {
    /// The keys of the items that the saved history is made of.
    pub saved_keys: Vec<Vec<u8>>,
    pub live: Vec<LiveItem>,
}

/// How the turns that recovered items belong to were looked up.
#[derive(Clone, Debug, PartialEq, Eq)]
pub enum TurnLookup {
    /// Those of the turns that the saved history has.
    Found(Vec<String>),
    /// The store cannot tell.
    Unavailable,
    Failed(Reason),
}

/// What has come back.
#[derive(Debug, PartialEq, Eq)]
pub enum RepairEvent {
    /// Whether the session has a writer.
    Writer(bool),
    /// How the pending step ended.
    Stepped(Result<(), Reason>),
    /// All locks are held.
    Locked {
        /// Whether writers may still be attached.
        repair_open: bool,
        /// Whether the session has a writer by now.
        writer: bool,
        /// Whether the session belongs to the system and is not meant to be saved.
        system_agent: bool,
    },
    /// How the saved thread keeps its history.
    Stored(Result<ThreadHistoryMode, Reason>),
    /// What is saved.
    Loaded(Result<Vec<RolloutItem>, Reason>),
    Compared(Result<Histories, Reason>),
    Turns(TurnLookup),
    /// The events that older clients show each of the items by, in their serialised form; the
    /// checkpoint of the session; and the time.
    Presented { legacy_events: Vec<Vec<String>>, checkpoint: Vec<RolloutItem>, now_ms: i64 },
    /// Where the rollout lies, if it lies in a file.
    RolloutPath(Result<Option<String>, Reason>),
    /// Whether the writer could be published.
    Published(bool),
    CleanedUp,
}

/// What to do next.
#[derive(Debug, PartialEq, Eq)]
pub enum RepairAction {
    LookForWriter,
    AcquireAdmission,
    AcquireSettings,
    LockStateAndRepair,
    ReadThread,
    /// Resume the writer of the thread, archived or not, and without handing it a history.
    ResumeWriter,
    /// Load what is saved; a paginated history only as far as the model still sees it.
    LoadSaved { latest_context_only: bool },
    /// Make the history of what was loaded, and hand it back with the live one.
    CompareHistories,
    /// Find out which of these turns the saved history has.
    LookUpTurns(Vec<String>),
    /// Find the events that older clients show these items by.
    Present(Vec<TurnItem>),
    Append(Vec<RolloutItem>),
    Flush,
    ResolveRollout,
    OpenDatabase,
    Publish(RepairedPersistence),
    /// The session is a saved one from now on; keep the writer, and report success.
    CommitAndFinish,
    /// Give the writer up. What it has saved stays, for the next attempt to compare with.
    DiscardWriter,
    Finish(Result<(), Reason>),
}

/// What to do next, as a mathematical value.
#[verifier::ext_equal]
pub enum RepairActionView {
    LookForWriter,
    AcquireAdmission,
    AcquireSettings,
    LockStateAndRepair,
    ReadThread,
    ResumeWriter,
    LoadSaved { latest_context_only: bool },
    CompareHistories,
    LookUpTurns(Seq<String>),
    Present(Seq<TurnItem>),
    Append(Seq<RolloutItem>),
    Flush,
    ResolveRollout,
    OpenDatabase,
    Publish(RepairedPersistence),
    CommitAndFinish,
    DiscardWriter,
    Finish(Result<(), Reason>),
}

impl View for RepairAction {
    type V = RepairActionView;

    open spec fn view(&self) -> RepairActionView {
        match *self {
            RepairAction::LookForWriter => RepairActionView::LookForWriter,
            RepairAction::AcquireAdmission => RepairActionView::AcquireAdmission,
            RepairAction::AcquireSettings => RepairActionView::AcquireSettings,
            RepairAction::LockStateAndRepair => RepairActionView::LockStateAndRepair,
            RepairAction::ReadThread => RepairActionView::ReadThread,
            RepairAction::ResumeWriter => RepairActionView::ResumeWriter,
            RepairAction::LoadSaved { latest_context_only } => RepairActionView::LoadSaved {
                latest_context_only,
            },
            RepairAction::CompareHistories => RepairActionView::CompareHistories,
            RepairAction::LookUpTurns(turns) => RepairActionView::LookUpTurns(turns@),
            RepairAction::Present(items) => RepairActionView::Present(items@),
            RepairAction::Append(batch) => RepairActionView::Append(batch@),
            RepairAction::Flush => RepairActionView::Flush,
            RepairAction::ResolveRollout => RepairActionView::ResolveRollout,
            RepairAction::OpenDatabase => RepairActionView::OpenDatabase,
            RepairAction::Publish(restored) => RepairActionView::Publish(restored),
            RepairAction::CommitAndFinish => RepairActionView::CommitAndFinish,
            RepairAction::DiscardWriter => RepairActionView::DiscardWriter,
            RepairAction::Finish(result) => RepairActionView::Finish(result),
        }
    }
}

pub open spec fn repair_failed(reason: Reason) -> (RepairState, RepairActionView) {
    (RepairState::Done, RepairActionView::Finish(Err(reason)))
}

/// A failure after the writer was reserved.
pub open spec fn repair_abandoned(reason: Reason) -> (RepairState, RepairActionView) {
    (RepairState::Cleanup { reason }, RepairActionView::DiscardWriter)
}

/// The items that presentations show, in order.
pub open spec fn shown_items(presentations: Seq<Presentation>) -> Seq<TurnItem> {
    Seq::new(presentations.len(), |i: int| presentations[i].item)
}

/// It is known which turns exist: the items are to be shown.
pub open spec fn repair_presents(
    thread: SavedThread,
    saved: Vec<RolloutItem>,
    recovery: Recovery,
    looked_up: Option<Vec<String>>,
) -> (RepairState, RepairActionView) {
    (
        RepairState::Presentation { thread, saved, recovery, looked_up },
        RepairActionView::Present(shown_items(recovery.presentations@)),
    )
}

/// The next step, nothing where `event` does not answer what `state` waits for. `recovery` is
/// what a comparison of the histories finds missing; no other step depends on it.
pub open spec fn repair_next(state: RepairState, event: RepairEvent, recovery: Recovery) -> Option<
    (RepairState, RepairActionView),
> {
    match (state, event) {
        (RepairState::FirstLook { thread }, RepairEvent::Writer(present)) => Some(
            if present {
                (RepairState::Done, RepairActionView::Finish(Ok(())))
            } else {
                (RepairState::Admission { thread }, RepairActionView::AcquireAdmission)
            },
        ),
        (RepairState::Admission { thread }, RepairEvent::Stepped(result)) => Some(
            match result {
                Ok(()) => (RepairState::Settings { thread }, RepairActionView::AcquireSettings),
                Err(reason) => repair_failed(reason),
            },
        ),
        (RepairState::Settings { thread }, RepairEvent::Stepped(result)) => Some(
            match result {
                Ok(()) => (RepairState::Locks { thread }, RepairActionView::LockStateAndRepair),
                Err(reason) => repair_failed(reason),
            },
        ),
        (
            RepairState::Locks { thread },
            RepairEvent::Locked { repair_open, writer, system_agent },
        ) => Some(
            if !repair_open {
                repair_failed(Reason::RepairDuringShutdown)
            } else if writer {
                (RepairState::Done, RepairActionView::Finish(Ok(())))
            } else if system_agent {
                repair_failed(Reason::RepairSystemAgent)
            } else {
                (RepairState::Stored { thread }, RepairActionView::ReadThread)
            },
        ),
        (RepairState::Stored { thread }, RepairEvent::Stored(result)) => Some(
            match result {
                Ok(stored) => if stored == thread.mode {
                    (RepairState::Writer { thread }, RepairActionView::ResumeWriter)
                } else {
                    repair_failed(Reason::RepairHistoryMode)
                },
                Err(reason) => repair_failed(reason),
            },
        ),
        (RepairState::Writer { thread }, RepairEvent::Stepped(result)) => Some(
            match result {
                Ok(()) => (
                    RepairState::Saved { thread },
                    RepairActionView::LoadSaved {
                        latest_context_only: thread.mode == ThreadHistoryMode::Paginated,
                    },
                ),
                Err(reason) => repair_failed(reason),
            },
        ),
        (RepairState::Saved { thread }, RepairEvent::Loaded(result)) => Some(
            match result {
                Ok(saved) => (
                    RepairState::Comparison { thread, saved },
                    RepairActionView::CompareHistories,
                ),
                Err(reason) => repair_abandoned(reason),
            },
        ),
        (RepairState::Comparison { thread, saved }, RepairEvent::Compared(result)) => Some(
            match result {
                Ok(_) => if thread.mode == ThreadHistoryMode::Paginated
                    && recovery.presentations@.len() > 0 {
                    (
                        RepairState::Turns { thread, saved, recovery },
                        RepairActionView::LookUpTurns(
                            distinct_turns(
                                recovery.presentations@,
                                recovery.presentations@.len(),
                            ),
                        ),
                    )
                } else {
                    repair_presents(thread, saved, recovery, None)
                },
                Err(reason) => repair_abandoned(reason),
            },
        ),
        (RepairState::Turns { thread, saved, recovery }, RepairEvent::Turns(lookup)) => Some(
            match lookup {
                TurnLookup::Found(turns) => repair_presents(thread, saved, recovery, Some(turns)),
                TurnLookup::Unavailable => repair_abandoned(Reason::RepairTurnLookup),
                TurnLookup::Failed(reason) => repair_abandoned(reason),
            },
        ),
        (
            RepairState::Presentation { thread, saved, recovery, looked_up },
            RepairEvent::Presented { legacy_events, checkpoint, now_ms },
        ) => if legacy_events@.len() == recovery.presentations@.len() {
            Some(
                (
                    RepairState::Append,
                    RepairActionView::Append(
                        restored(
                            thread.thread_id,
                            thread.mode,
                            known_turns(looked_up, saved@),
                            with_legacy_events(recovery.presentations@, legacy_events@),
                            recovery.recovered@,
                            checkpoint@,
                            now_ms,
                        ),
                    ),
                ),
            )
        } else {
            None
        },
        (RepairState::Append, RepairEvent::Stepped(result)) => Some(
            match result {
                Ok(()) => (RepairState::Flush, RepairActionView::Flush),
                Err(reason) => repair_abandoned(reason),
            },
        ),
        (RepairState::Flush, RepairEvent::Stepped(result)) => Some(
            match result {
                Ok(()) => (RepairState::RolloutPath, RepairActionView::ResolveRollout),
                Err(reason) => repair_abandoned(reason),
            },
        ),
        (RepairState::RolloutPath, RepairEvent::RolloutPath(result)) => Some(
            match result {
                Ok(rollout_path) => (
                    RepairState::Database { rollout_path },
                    RepairActionView::OpenDatabase,
                ),
                Err(reason) => repair_abandoned(reason),
            },
        ),
        (RepairState::Database { rollout_path }, RepairEvent::Stepped(result)) => Some(
            match result {
                Ok(()) => (
                    RepairState::Publication,
                    RepairActionView::Publish(RepairedPersistence { rollout_path }),
                ),
                Err(reason) => repair_abandoned(reason),
            },
        ),
        (RepairState::Publication, RepairEvent::Published(published)) => Some(
            if published {
                (RepairState::Done, RepairActionView::CommitAndFinish)
            } else {
                repair_failed(Reason::RepairConcurrent)
            },
        ),
        (RepairState::Cleanup { reason }, RepairEvent::CleanedUp) => Some(repair_failed(reason)),
        _ => None,
    }
}

/// Where `event` brings the histories that `state` waits for, `recovery` is what the saved one
/// lacks of the live one.
pub open spec fn finds(state: RepairState, event: RepairEvent, recovery: Recovery) -> bool {
    match (state, event) {
        (RepairState::Comparison { thread, .. }, RepairEvent::Compared(Ok(histories))) => {
            is_recovery(
                thread.thread_id,
                thread.mode,
                histories.saved_keys@,
                histories.live@,
                recovery,
            )
        },
        _ => true,
    }
}

/// Starts to restore the persistence of a saved thread.
pub fn restore_saved_thread_persistence(thread: SavedThread) -> (res: (
    RepairState,
    RepairAction,
))
    ensures
        res == (RepairState::FirstLook { thread }, RepairAction::LookForWriter),
{
    (RepairState::FirstLook { thread }, RepairAction::LookForWriter)
}

fn fail(reason: Reason) -> (res: (RepairState, RepairAction))
    ensures
        (res.0, res.1@) == repair_failed(reason),
{
    (RepairState::Done, RepairAction::Finish(Err(reason)))
}

fn abandon(reason: Reason) -> (res: (RepairState, RepairAction))
    ensures
        (res.0, res.1@) == repair_abandoned(reason),
{
    (RepairState::Cleanup { reason }, RepairAction::DiscardWriter)
}

fn present(
    thread: SavedThread,
    saved: Vec<RolloutItem>,
    recovery: Recovery,
    looked_up: Option<Vec<String>>,
) -> (res: (RepairState, RepairAction))
    ensures
        (res.0, res.1@) == repair_presents(thread, saved, recovery, looked_up),
{
    let mut items: Vec<TurnItem> = Vec::new();
    let mut i: usize = 0;
    while i < recovery.presentations.len()
        invariant
            i <= recovery.presentations.len(),
            items@ == shown_items(recovery.presentations@).take(i as int),
        decreases recovery.presentations.len() - i,
    {
        items.push(recovery.presentations[i].item.copy());
        assert(items@ =~= shown_items(recovery.presentations@).take(i + 1));
        i = i + 1;
    }
    assert(items@ =~= shown_items(recovery.presentations@));
    (RepairState::Presentation { thread, saved, recovery, looked_up }, RepairAction::Present(items))
}

/// Takes the next step. An event that does not answer what the state waits for is handed back.
pub fn step_repair(state: RepairState, event: RepairEvent) -> (res: Result<
    (RepairState, RepairAction),
    (RepairState, RepairEvent),
>)
    ensures
        exists|recovery: Recovery| #[trigger]
            finds(state, event, recovery) && match repair_next(
                state,
                event,
                recovery,
            ) {
                Some(next) => res is Ok && (res->Ok_0.0, res->Ok_0.1@) == next,
                None => res == Err::<(RepairState, RepairAction), (RepairState, RepairEvent)>(
                    (state, event),
                ),
            },
{
    let ghost before = state;
    let ghost came = event;
    let ghost mut found: Recovery = arbitrary();
    let next: (RepairState, RepairAction) = match (state, event) {
        (RepairState::FirstLook { thread }, RepairEvent::Writer(present)) => {
            if present {
                (RepairState::Done, RepairAction::Finish(Ok(())))
            } else {
                (RepairState::Admission { thread }, RepairAction::AcquireAdmission)
            }
        },
        (RepairState::Admission { thread }, RepairEvent::Stepped(result)) => {
            match result {
                Ok(()) => (RepairState::Settings { thread }, RepairAction::AcquireSettings),
                Err(reason) => fail(reason),
            }
        },
        (RepairState::Settings { thread }, RepairEvent::Stepped(result)) => {
            match result {
                Ok(()) => (RepairState::Locks { thread }, RepairAction::LockStateAndRepair),
                Err(reason) => fail(reason),
            }
        },
        (
            RepairState::Locks { thread },
            RepairEvent::Locked { repair_open, writer, system_agent },
        ) => {
            if !repair_open {
                fail(Reason::RepairDuringShutdown)
            } else if writer {
                (RepairState::Done, RepairAction::Finish(Ok(())))
            } else if system_agent {
                fail(Reason::RepairSystemAgent)
            } else {
                (RepairState::Stored { thread }, RepairAction::ReadThread)
            }
        },
        (RepairState::Stored { thread }, RepairEvent::Stored(result)) => {
            match result {
                Ok(stored) => {
                    if stored == thread.mode {
                        (RepairState::Writer { thread }, RepairAction::ResumeWriter)
                    } else {
                        fail(Reason::RepairHistoryMode)
                    }
                },
                Err(reason) => fail(reason),
            }
        },
        (RepairState::Writer { thread }, RepairEvent::Stepped(result)) => {
            match result {
                Ok(()) => (
                    RepairState::Saved { thread },
                    RepairAction::LoadSaved {
                        latest_context_only: thread.mode == ThreadHistoryMode::Paginated,
                    },
                ),
                Err(reason) => fail(reason),
            }
        },
        (RepairState::Saved { thread }, RepairEvent::Loaded(result)) => {
            match result {
                Ok(saved) => (
                    RepairState::Comparison { thread, saved },
                    RepairAction::CompareHistories,
                ),
                Err(reason) => abandon(reason),
            }
        },
        (RepairState::Comparison { thread, saved }, RepairEvent::Compared(result)) => {
            match result {
                Ok(histories) => {
                    let recovery: Recovery = recover(
                        thread.thread_id,
                        thread.mode,
                        &histories.saved_keys,
                        histories.live,
                    );
                    proof {
                        found = recovery;
                    }
                    if thread.mode == ThreadHistoryMode::Paginated && recovery.presentations.len()
                        > 0 {
                        let turns: Vec<String> = presented_turn_ids(&recovery.presentations);
                        (
                            RepairState::Turns { thread, saved, recovery },
                            RepairAction::LookUpTurns(turns),
                        )
                    } else {
                        present(thread, saved, recovery, None)
                    }
                },
                Err(reason) => abandon(reason),
            }
        },
        (RepairState::Turns { thread, saved, recovery }, RepairEvent::Turns(lookup)) => {
            match lookup {
                TurnLookup::Found(turns) => present(thread, saved, recovery, Some(turns)),
                TurnLookup::Unavailable => abandon(Reason::RepairTurnLookup),
                TurnLookup::Failed(reason) => abandon(reason),
            }
        },
        (
            RepairState::Presentation { thread, saved, recovery, looked_up },
            RepairEvent::Presented { legacy_events, checkpoint, now_ms },
        ) => {
            if legacy_events.len() != recovery.presentations.len() {
                let state = RepairState::Presentation { thread, saved, recovery, looked_up };
                let event = RepairEvent::Presented { legacy_events, checkpoint, now_ms };
                assert(finds(before, came, found));
                return Err((state, event));
            }
            let presented: Vec<Presented> = add_legacy_events(
                recovery.presentations,
                legacy_events,
            );
            let batch: Vec<RolloutItem> = restored_batch(
                thread.thread_id,
                thread.mode,
                looked_up,
                &saved,
                presented,
                recovery.recovered,
                checkpoint,
                now_ms,
            );
            (RepairState::Append, RepairAction::Append(batch))
        },
        (RepairState::Append, RepairEvent::Stepped(result)) => {
            match result {
                Ok(()) => (RepairState::Flush, RepairAction::Flush),
                Err(reason) => abandon(reason),
            }
        },
        (RepairState::Flush, RepairEvent::Stepped(result)) => {
            match result {
                Ok(()) => (RepairState::RolloutPath, RepairAction::ResolveRollout),
                Err(reason) => abandon(reason),
            }
        },
        (RepairState::RolloutPath, RepairEvent::RolloutPath(result)) => {
            match result {
                Ok(rollout_path) => (
                    RepairState::Database { rollout_path },
                    RepairAction::OpenDatabase,
                ),
                Err(reason) => abandon(reason),
            }
        },
        (RepairState::Database { rollout_path }, RepairEvent::Stepped(result)) => {
            match result {
                Ok(()) => (
                    RepairState::Publication,
                    RepairAction::Publish(RepairedPersistence { rollout_path }),
                ),
                Err(reason) => abandon(reason),
            }
        },
        (RepairState::Publication, RepairEvent::Published(published)) => {
            if published {
                (RepairState::Done, RepairAction::CommitAndFinish)
            } else {
                fail(Reason::RepairConcurrent)
            }
        },
        (RepairState::Cleanup { reason }, RepairEvent::CleanedUp) => fail(reason),
        (state, event) => {
            assert(finds(before, came, found));
            return Err((state, event));
        },
    };
    assert(finds(before, came, found));
    Ok(next)
}

/// The memory mode that a resumed writer is told.
pub fn resumed_memory_mode(generate_memories: bool) -> (res: ThreadMemoryMode)
    ensures
        res == if generate_memories {
            ThreadMemoryMode::Enabled
        } else {
            ThreadMemoryMode::Disabled
        },
{
    if generate_memories {
        ThreadMemoryMode::Enabled
    } else {
        ThreadMemoryMode::Disabled
    }
}

/// The session after `restored` was published. What was attached once stays attached; where
/// nothing was, the session is a saved one from now on.
pub open spec fn published<S>(session: Session<S>, restored: RepairedPersistence) -> Session<S> {
    match session.repaired_persistence {
        Some(_) => session,
        None => Session {
            repaired_persistence: Some(restored),
            ephemeral: false,
            ..session
        },
    }
}

impl<S> Session<S> {
    /// Publishes attached persistence, once in the life of a session, which is a saved one from
    /// then on. The result says whether it could be published.
    pub fn publish_repaired_persistence(&mut self, restored: RepairedPersistence) -> (res: bool)
        ensures
            res == (old(self).repaired_persistence is None),
            *final(self) == published(*old(self), restored),
    {
        if self.repaired_persistence.is_some() {
            return false;
        }
        self.repaired_persistence = Some(restored);
        self.ephemeral = false;
        true
    }
}

/// Where a restoration stands after `events`, and all that it asked for.
/// `recovery` is what the comparison of the histories finds missing.
pub open spec fn repair_run(
    thread: SavedThread,
    events: Seq<RepairEvent>,
    recovery: Recovery,
) -> Option<(RepairState, Seq<RepairActionView>)>
    decreases events.len(),
{
    if events.len() == 0 {
        Some((RepairState::FirstLook { thread }, seq![RepairActionView::LookForWriter]))
    } else {
        match repair_run(thread, events.drop_last(), recovery) {
            Some((state, actions)) => match repair_next(state, events.last(), recovery) {
                Some((next, action)) => Some((next, actions.push(action))),
                None => None,
            },
            None => None,
        }
    }
}

/// Whether the writer was reserved, which loading the saved history asks for next.
pub open spec fn has_reserved_writer(actions: Seq<RepairActionView>) -> bool {
    exists|i: int| 0 <= i < actions.len() && #[trigger] actions[i] is LoadSaved
}

/// Whether the batch was appended and flushed.
pub open spec fn has_flushed(actions: Seq<RepairActionView>) -> bool {
    exists|i: int|
        0 < i < actions.len() && #[trigger] actions[i] is ResolveRollout && actions[i
            - 1] is Flush
}

spec fn holds_writer(state: RepairState) -> bool {
    match state {
        RepairState::Saved { .. } => true,
        RepairState::Comparison { .. } => true,
        RepairState::Turns { .. } => true,
        RepairState::Presentation { .. } => true,
        RepairState::Append => true,
        RepairState::Flush => true,
        RepairState::RolloutPath => true,
        RepairState::Database { .. } => true,
        RepairState::Publication => true,
        _ => false,
    }
}

spec fn before_writer(state: RepairState) -> bool {
    match state {
        RepairState::FirstLook { .. } => true,
        RepairState::Admission { .. } => true,
        RepairState::Settings { .. } => true,
        RepairState::Locks { .. } => true,
        RepairState::Stored { .. } => true,
        RepairState::Writer { .. } => true,
        _ => false,
    }
}

spec fn repair_invariant(state: RepairState, actions: Seq<RepairActionView>) -> bool {
    &&& actions.len() > 0
    &&& holds_writer(state) ==> has_reserved_writer(actions)
    &&& before_writer(state) ==> !has_reserved_writer(actions) && forall|i: int|
        0 <= i < actions.len() ==> !(#[trigger] actions[i] is Append)
    &&& state is Cleanup ==> actions.last() is DiscardWriter && has_reserved_writer(actions)
    &&& state is Flush ==> actions.last() is Flush
    &&& (state is RolloutPath || state is Database || state is Publication) ==> has_flushed(actions)
    &&& forall|i: int|
        0 <= i < actions.len() ==> {
            &&& (#[trigger] actions[i]) is CommitAndFinish ==> state is Done && has_flushed(actions)
                && i == actions.len() - 1 && i > 0 && actions[i - 1] is Publish
            &&& actions[i] matches RepairActionView::Finish(result) ==> {
                &&& state is Done
                &&& result is Ok ==> !has_reserved_writer(actions) && forall|k: int|
                    0 <= k < actions.len() ==> !(#[trigger] actions[k] is Append)
                &&& result is Err && has_reserved_writer(actions) ==> i > 0 && (actions[i
                    - 1] is DiscardWriter || actions[i - 1] is Publish)
            }
        }
    &&& state is Publication ==> actions.last() is Publish
}

proof fn lemma_push_action(actions: Seq<RepairActionView>, action: RepairActionView)
    requires
        actions.len() > 0,
    ensures
        has_reserved_writer(actions.push(action)) <==> has_reserved_writer(actions) || action
            is LoadSaved,
        has_flushed(actions.push(action)) <==> has_flushed(actions) || (action is ResolveRollout
            && actions.last() is Flush),
{
    let all = actions.push(action);
    assert forall|i: int| 0 <= i < actions.len() implies #[trigger] all[i] == actions[i] by {}
    assert(all[actions.len() as int] == action);
    if has_reserved_writer(actions) {
        let i = choose|i: int| 0 <= i < actions.len() && #[trigger] actions[i] is LoadSaved;
        assert(all[i] is LoadSaved);
    }
    if has_reserved_writer(all) {
        let i = choose|i: int| 0 <= i < all.len() && #[trigger] all[i] is LoadSaved;
        if i < actions.len() {
            assert(actions[i] is LoadSaved);
        }
    }
    if has_flushed(actions) {
        let i = choose|i: int|
            0 < i < actions.len() && #[trigger] actions[i] is ResolveRollout && actions[i
                - 1] is Flush;
        assert(all[i] is ResolveRollout && all[i - 1] is Flush);
    }
    if has_flushed(all) {
        let i = choose|i: int|
            0 < i < all.len() && #[trigger] all[i] is ResolveRollout && all[i - 1] is Flush;
        if i < actions.len() {
            assert(actions[i] is ResolveRollout && actions[i - 1] is Flush);
        } else {
            assert(all[i - 1] == actions[i - 1]);
        }
    }
    if action is ResolveRollout && actions.last() is Flush {
        assert(all[actions.len() as int] is ResolveRollout && all[actions.len() - 1] is Flush);
    }
}

proof fn lemma_repair_invariant(
    thread: SavedThread,
    events: Seq<RepairEvent>,
    recovery: Recovery,
)
    requires
        repair_run(thread, events, recovery) is Some,
    ensures
        ({
            let (state, actions) = repair_run(thread, events, recovery)->Some_0;
            repair_invariant(state, actions)
        }),
    decreases events.len(),
{
    if events.len() > 0 {
        let head = events.drop_last();
        lemma_repair_invariant(thread, head, recovery);
        let (before, done) = repair_run(thread, head, recovery)->Some_0;
        let (after, action) = repair_next(before, events.last(), recovery)->Some_0;
        let actions = done.push(action);
        lemma_push_action(done, action);
        assert(actions.last() == action);
        assert(actions[done.len() as int] == action);
        assert forall|i: int| 0 <= i < done.len() implies #[trigger] actions[i] == done[i] && !(
        actions[i] is Finish) && !(actions[i] is CommitAndFinish) by {
            assert(actions[i] == done[i]);
        }
    }
}

/// A restoration ends well in one of two ways: the session turns out to have a writer, and then
/// nothing was appended; or the batch was appended and flushed and the writer published.
pub proof fn law_restored_thread_is_flushed_before_it_is_published(
    thread: SavedThread,
    events: Seq<RepairEvent>,
    recovery: Recovery,
    i: int,
)
    requires
        repair_run(thread, events, recovery) is Some,
        0 <= i < repair_run(thread, events, recovery)->Some_0.1.len(),
    ensures
        ({
            let actions = repair_run(thread, events, recovery)->Some_0.1;
            &&& actions[i] is CommitAndFinish ==> has_flushed(actions) && i > 0 && actions[i
                - 1] is Publish
            &&& actions[i] == RepairActionView::Finish(Ok(())) ==> forall|k: int|
                0 <= k < actions.len() ==> !(#[trigger] actions[k] is Append)
        }),
{
    lemma_repair_invariant(thread, events, recovery);
}

/// A restoration that fails after it has reserved the writer gives the writer up before it
/// reports the failure, unless what failed was the publication itself.
pub proof fn law_failed_restoration_gives_the_writer_up(
    thread: SavedThread,
    events: Seq<RepairEvent>,
    recovery: Recovery,
    i: int,
)
    requires
        repair_run(thread, events, recovery) is Some,
        0 <= i < repair_run(thread, events, recovery)->Some_0.1.len(),
        has_reserved_writer(repair_run(thread, events, recovery)->Some_0.1),
    ensures
        repair_run(thread, events, recovery)->Some_0.1[i] matches RepairActionView::Finish(result) ==> result is Err
            && i > 0 && (repair_run(thread, events, recovery)->Some_0.1[i - 1] is DiscardWriter
            || repair_run(thread, events, recovery)->Some_0.1[i - 1] is Publish),
{
    lemma_repair_invariant(thread, events, recovery);
}

/// Which turns exist was looked up, or need not be: the history is legacy, or nothing is shown.
pub open spec fn knows_turns(
    thread: SavedThread,
    events: Seq<RepairEvent>,
    recovery: Recovery,
    looked_up: Option<Vec<String>>,
) -> bool {
    match looked_up {
        Some(turns) => events.contains(RepairEvent::Turns(TurnLookup::Found(turns))),
        None => thread.mode == ThreadHistoryMode::Legacy || recovery.presentations@.len() == 0,
    }
}

/// `batch` is made from what came back: from `recovery`, which the comparison of `histories`
/// found missing, from what was `saved`, and from how the items are shown and the checkpoint.
pub open spec fn is_made_from(
    thread: SavedThread,
    events: Seq<RepairEvent>,
    recovery: Recovery,
    saved: Vec<RolloutItem>,
    histories: Histories,
    looked_up: Option<Vec<String>>,
    legacy_events: Vec<Vec<String>>,
    checkpoint: Vec<RolloutItem>,
    now_ms: i64,
    batch: Seq<RolloutItem>,
) -> bool {
    &&& events.contains(RepairEvent::Loaded(Ok(saved)))
    &&& events.contains(RepairEvent::Compared(Ok(histories)))
    &&& knows_turns(thread, events, recovery, looked_up)
    &&& events.contains(RepairEvent::Presented { legacy_events, checkpoint, now_ms })
    &&& legacy_events@.len() == recovery.presentations@.len()
    &&& batch == restored(
        thread.thread_id,
        thread.mode,
        known_turns(looked_up, saved@),
        with_legacy_events(recovery.presentations@, legacy_events@),
        recovery.recovered@,
        checkpoint@,
        now_ms,
    )
}

/// `recovery` is what the histories that came back show to be missing.
pub open spec fn is_found_by(
    thread: SavedThread,
    events: Seq<RepairEvent>,
    recovery: Recovery,
) -> bool {
    forall|histories: Histories|
        #[trigger] events.contains(RepairEvent::Compared(Ok(histories))) ==> is_recovery(
            thread.thread_id,
            thread.mode,
            histories.saved_keys@,
            histories.live@,
            recovery,
        )
}

spec fn was_made(
    thread: SavedThread,
    events: Seq<RepairEvent>,
    recovery: Recovery,
    batch: Seq<RolloutItem>,
) -> bool {
    exists|
        saved: Vec<RolloutItem>,
        histories: Histories,
        looked_up: Option<Vec<String>>,
        legacy_events: Vec<Vec<String>>,
        checkpoint: Vec<RolloutItem>,
        now_ms: i64,
    | #[trigger]
        is_made_from(
            thread,
            events,
            recovery,
            saved,
            histories,
            looked_up,
            legacy_events,
            checkpoint,
            now_ms,
            batch,
        )
}

spec fn was_compared(events: Seq<RepairEvent>) -> bool {
    exists|histories: Histories| #[trigger]
        events.contains(RepairEvent::Compared(Ok(histories)))
}

spec fn carries_what_came(
    thread: SavedThread,
    events: Seq<RepairEvent>,
    recovery: Recovery,
    state: RepairState,
    actions: Seq<RepairActionView>,
) -> bool {
    &&& match state {
        RepairState::FirstLook { thread: t } => t == thread,
        RepairState::Admission { thread: t } => t == thread,
        RepairState::Settings { thread: t } => t == thread,
        RepairState::Locks { thread: t } => t == thread,
        RepairState::Stored { thread: t } => t == thread,
        RepairState::Writer { thread: t } => t == thread,
        RepairState::Saved { thread: t } => t == thread,
        RepairState::Comparison { thread: t, saved } => t == thread && events.contains(
            RepairEvent::Loaded(Ok(saved)),
        ),
        RepairState::Turns { thread: t, saved, recovery: r } => t == thread && r == recovery
            && events.contains(RepairEvent::Loaded(Ok(saved))) && was_compared(events),
        RepairState::Presentation { thread: t, saved, recovery: r, looked_up } => t == thread && r
            == recovery && events.contains(RepairEvent::Loaded(Ok(saved))) && was_compared(events)
            && knows_turns(thread, events, recovery, looked_up),
        RepairState::Database { rollout_path } => events.contains(
            RepairEvent::RolloutPath(Ok(rollout_path)),
        ),
        _ => true,
    }
    &&& forall|i: int|
        0 <= i < actions.len() ==> ((#[trigger] actions[i]) matches RepairActionView::Append(batch)
            ==> was_made(thread, events, recovery, batch))
    &&& forall|i: int|
        0 <= i < actions.len() ==> ((#[trigger] actions[i]) matches RepairActionView::Publish(
            restored,
        ) ==> events.contains(RepairEvent::RolloutPath(Ok(restored.rollout_path))))
}

proof fn lemma_contains_grows(events: Seq<RepairEvent>)
    requires
        events.len() > 0,
    ensures
        events.contains(events.last()),
        forall|event: RepairEvent|
            #[trigger] events.drop_last().contains(event) ==> events.contains(event),
{
    assert(events[events.len() - 1] == events.last());
    assert forall|event: RepairEvent|
        #[trigger] events.drop_last().contains(event) implies events.contains(event) by {
        let i = choose|i: int| 0 <= i < events.len() - 1 && events.drop_last()[i] == event;
        assert(events[i] == event);
    }
}

proof fn lemma_carries_what_came(
    thread: SavedThread,
    events: Seq<RepairEvent>,
    recovery: Recovery,
)
    requires
        repair_run(thread, events, recovery) is Some,
    ensures
        ({
            let (state, actions) = repair_run(thread, events, recovery)->Some_0;
            carries_what_came(thread, events, recovery, state, actions)
        }),
    decreases events.len(),
{
    if events.len() > 0 {
        let head = events.drop_last();
        lemma_carries_what_came(thread, head, recovery);
        lemma_contains_grows(events);
        let (before, done) = repair_run(thread, head, recovery)->Some_0;
        let (after, action) = repair_next(before, events.last(), recovery)->Some_0;
        let actions = done.push(action);
        if was_compared(head) {
            let histories = choose|histories: Histories| #[trigger]
                head.contains(RepairEvent::Compared(Ok(histories)));
            assert(events.contains(RepairEvent::Compared(Ok(histories))));
        }
        if let RepairEvent::Compared(Ok(histories)) = events.last() {
            assert(events.contains(RepairEvent::Compared(Ok(histories))));
        }
        assert forall|i: int| 0 <= i < actions.len() implies (
        (#[trigger] actions[i]) matches RepairActionView::Append(batch) ==> was_made(
            thread,
            events,
            recovery,
            batch,
        )) by {
            if let RepairActionView::Append(batch) = actions[i] {
                if i < done.len() {
                    assert(actions[i] == done[i]);
                    assert(was_made(thread, head, recovery, batch));
                    let (saved, histories, looked_up, legacy_events, checkpoint, now_ms) = choose|
                        saved: Vec<RolloutItem>,
                        histories: Histories,
                        looked_up: Option<Vec<String>>,
                        legacy_events: Vec<Vec<String>>,
                        checkpoint: Vec<RolloutItem>,
                        now_ms: i64,
                    | #[trigger]
                        is_made_from(
                            thread,
                            head,
                            recovery,
                            saved,
                            histories,
                            looked_up,
                            legacy_events,
                            checkpoint,
                            now_ms,
                            batch,
                        );
                    assert(is_made_from(
                        thread,
                        events,
                        recovery,
                        saved,
                        histories,
                        looked_up,
                        legacy_events,
                        checkpoint,
                        now_ms,
                        batch,
                    ));
                } else {
                    assert(actions[i] == action);
                    let histories = choose|histories: Histories| #[trigger]
                        events.contains(RepairEvent::Compared(Ok(histories)));
                    match (before, events.last()) {
                        (
                            RepairState::Presentation { thread: t, saved, recovery: r, looked_up },
                            RepairEvent::Presented { legacy_events, checkpoint, now_ms },
                        ) => {
                            assert(is_made_from(
                                thread,
                                events,
                                recovery,
                                saved,
                                histories,
                                looked_up,
                                legacy_events,
                                checkpoint,
                                now_ms,
                                batch,
                            ));
                        },
                        _ => {},
                    }
                }
            }
        }
        assert forall|i: int| 0 <= i < actions.len() implies (
        (#[trigger] actions[i]) matches RepairActionView::Publish(restored) ==> events.contains(
            RepairEvent::RolloutPath(Ok(restored.rollout_path)),
        )) by {
            if i < done.len() {
                assert(actions[i] == done[i]);
            }
        }
    }
}

/// What a restoration appends is made from what came back to it, and holds what the comparison
/// of the histories found missing: as it is shown, then the items themselves, then the
/// checkpoint.
pub proof fn law_restoration_appends_what_was_missing(
    thread: SavedThread,
    events: Seq<RepairEvent>,
    recovery: Recovery,
    i: int,
)
    requires
        is_found_by(thread, events, recovery),
        repair_run(thread, events, recovery) is Some,
        0 <= i < repair_run(thread, events, recovery)->Some_0.1.len(),
    ensures
        repair_run(thread, events, recovery)->Some_0.1[i] matches RepairActionView::Append(batch)
            ==> exists|
            saved: Vec<RolloutItem>,
            histories: Histories,
            looked_up: Option<Vec<String>>,
            legacy_events: Vec<Vec<String>>,
            checkpoint: Vec<RolloutItem>,
            now_ms: i64,
        |
            #[trigger] is_made_from(
                thread,
                events,
                recovery,
                saved,
                histories,
                looked_up,
                legacy_events,
                checkpoint,
                now_ms,
                batch,
            ) && is_recovery(
                thread.thread_id,
                thread.mode,
                histories.saved_keys@,
                histories.live@,
                recovery,
            ),
{
    lemma_carries_what_came(thread, events, recovery);
    if let RepairActionView::Append(batch) = repair_run(thread, events, recovery)->Some_0.1[i] {
        let (saved, histories, looked_up, legacy_events, checkpoint, now_ms) = choose|
            saved: Vec<RolloutItem>,
            histories: Histories,
            looked_up: Option<Vec<String>>,
            legacy_events: Vec<Vec<String>>,
            checkpoint: Vec<RolloutItem>,
            now_ms: i64,
        | #[trigger]
            is_made_from(
                thread,
                events,
                recovery,
                saved,
                histories,
                looked_up,
                legacy_events,
                checkpoint,
                now_ms,
                batch,
            );
        assert(events.contains(RepairEvent::Compared(Ok(histories))));
    }
}

/// The session after what a restoration asked for was done to it.
pub open spec fn session_after<S>(session: Session<S>, actions: Seq<RepairActionView>) -> Session<S>
    decreases actions.len(),
{
    if actions.len() == 0 {
        session
    } else {
        let before = session_after(session, actions.drop_last());
        match actions.last() {
            RepairActionView::Publish(restored) => published(before, restored),
            _ => before,
        }
    }
}

/// Whether a session has a writer: one of its own, which it has had from the start, or one that
/// was attached.
pub open spec fn has_writer<S>(session: Session<S>, own_writer: bool) -> bool {
    own_writer || session.repaired_persistence is Some
}

/// What a restoration is told of `session` is so, and nobody else attaches a writer meanwhile.
pub open spec fn is_told_truly<S>(
    session: Session<S>,
    own_writer: bool,
    events: Seq<RepairEvent>,
) -> bool {
    forall|i: int|
        0 <= i < events.len() ==> match #[trigger] events[i] {
            RepairEvent::Writer(present) => present == has_writer(session, own_writer),
            RepairEvent::Locked { writer, .. } => writer == has_writer(session, own_writer),
            RepairEvent::Published(published) => published == (session.repaired_persistence
                is None),
            _ => true,
        }
}

proof fn lemma_session_after<S>(
    session: Session<S>,
    own_writer: bool,
    thread: SavedThread,
    events: Seq<RepairEvent>,
    recovery: Recovery,
)
    requires
        is_told_truly(session, own_writer, events),
        repair_run(thread, events, recovery) is Some,
    ensures
        ({
            let (state, actions) = repair_run(thread, events, recovery)->Some_0;
            let after = session_after(session, actions);
            &&& actions.len() > 0
            &&& match state {
                RepairState::Publication => actions.last() matches RepairActionView::Publish(
                    restored,
                ) && after == published(session, restored) && events.contains(
                    RepairEvent::RolloutPath(Ok(restored.rollout_path)),
                ),
                RepairState::Done => match actions.last() {
                    RepairActionView::CommitAndFinish => {
                        &&& session.repaired_persistence is None
                        &&& after.repaired_persistence matches Some(restored)
                        &&& after == published(session, restored)
                        &&& events.contains(RepairEvent::RolloutPath(Ok(restored.rollout_path)))
                    },
                    RepairActionView::Finish(result) => after == session && (result is Ok
                        ==> has_writer(session, own_writer)),
                    _ => false,
                },
                _ => after == session,
            }
        }),
    decreases events.len(),
{
    if events.len() == 0 {
        let first = seq![RepairActionView::LookForWriter];
        assert(first.drop_last() =~= Seq::empty());
        assert(session_after(session, first.drop_last()) == session);
    } else {
        let head = events.drop_last();
        assert forall|i: int| 0 <= i < head.len() implies match #[trigger] head[i] {
            RepairEvent::Writer(present) => present == has_writer(session, own_writer),
            RepairEvent::Locked { writer, .. } => writer == has_writer(session, own_writer),
            RepairEvent::Published(published) => published == (session.repaired_persistence
                is None),
            _ => true,
        } by {
            assert(head[i] == events[i]);
        }
        lemma_session_after(session, own_writer, thread, head, recovery);
        lemma_carries_what_came(thread, events, recovery);
        lemma_contains_grows(events);
        let (before, done) = repair_run(thread, head, recovery)->Some_0;
        let (after, action) = repair_next(before, events.last(), recovery)->Some_0;
        let actions = done.push(action);
        assert(actions.drop_last() =~= done);
        assert(actions.last() == action);
        assert(actions[done.len() as int] == action);
        assert(events[events.len() - 1] == events.last());
    }
}

proof fn lemma_restoration_of_a_writer(
    thread: SavedThread,
    events: Seq<RepairEvent>,
    recovery: Recovery,
)
    requires
        events.len() > 0,
        repair_run(thread, events, recovery) is Some,
        forall|i: int|
            0 <= i < events.len() ==> ((#[trigger] events[i]) matches RepairEvent::Writer(present)
                ==> present),
    ensures
        repair_run(thread, events, recovery)->Some_0.0 is Done,
        repair_run(thread, events, recovery)->Some_0.1 == seq![
            RepairActionView::LookForWriter,
            RepairActionView::Finish(Ok(())),
        ],
    decreases events.len(),
{
    let head = events.drop_last();
    assert(events[events.len() - 1] == events.last());
    if head.len() > 0 {
        assert forall|i: int| 0 <= i < head.len() implies (
        (#[trigger] head[i]) matches RepairEvent::Writer(present) ==> present) by {
            assert(head[i] == events[i]);
        }
        lemma_restoration_of_a_writer(thread, head, recovery);
    } else {
        assert(repair_run(thread, head, recovery)->Some_0.0 is FirstLook);
        assert(repair_run(thread, events, recovery)->Some_0.1 =~= seq![
            RepairActionView::LookForWriter,
            RepairActionView::Finish(Ok(())),
        ]);
    }
}

/// After a restoration that went well the session has a writer. If the restoration attached it,
/// the session is a saved one and its rollout lies where the writer said. A second restoration
/// then ends at once and well: it appends nothing and changes nothing. A restoration that fails
/// leaves the session as it was.
pub proof fn law_second_restoration_changes_nothing<S>(
    session: Session<S>,
    own_writer: bool,
    thread: SavedThread,
    events: Seq<RepairEvent>,
    recovery: Recovery,
    later_events: Seq<RepairEvent>,
    later_recovery: Recovery,
)
    requires
        is_told_truly(session, own_writer, events),
        repair_run(thread, events, recovery) is Some,
        repair_run(thread, events, recovery)->Some_0.0 is Done,
    ensures
        ({
            let actions = repair_run(thread, events, recovery)->Some_0.1;
            let after = session_after(session, actions);
            &&& match actions.last() {
                RepairActionView::CommitAndFinish => {
                    &&& after.repaired_persistence matches Some(restored)
                    &&& events.contains(RepairEvent::RolloutPath(Ok(restored.rollout_path)))
                    &&& after == (Session {
                        repaired_persistence: Some(restored),
                        ephemeral: false,
                        ..session
                    })
                },
                RepairActionView::Finish(result) => after == session,
                _ => false,
            }
            &&& !(actions.last() matches RepairActionView::Finish(Err(_))) ==> {
                &&& has_writer(after, own_writer)
                &&& (has_writer(session, own_writer) ==> !session.ephemeral) ==> !after.ephemeral
                &&& later_events.len() > 0 && is_told_truly(after, own_writer, later_events)
                    && repair_run(thread, later_events, later_recovery) is Some ==> {
                    let later = repair_run(thread, later_events, later_recovery)->Some_0;
                    &&& later.0 is Done
                    &&& later.1 == seq![
                        RepairActionView::LookForWriter,
                        RepairActionView::Finish(Ok(())),
                    ]
                    &&& session_after(after, later.1) == after
                }
            }
        }),
{
    lemma_session_after(session, own_writer, thread, events, recovery);
    let actions = repair_run(thread, events, recovery)->Some_0.1;
    let after = session_after(session, actions);
    if !(actions.last() matches RepairActionView::Finish(Err(_))) && later_events.len() > 0
        && is_told_truly(after, own_writer, later_events) && repair_run(
        thread,
        later_events,
        later_recovery,
    ) is Some {
        assert forall|i: int| 0 <= i < later_events.len() implies (
        (#[trigger] later_events[i]) matches RepairEvent::Writer(present) ==> present) by {}
        lemma_restoration_of_a_writer(thread, later_events, later_recovery);
        lemma_session_after(after, own_writer, thread, later_events, later_recovery);
    }
}

#[verifier::opaque]
spec fn repair_stands(
    thread: SavedThread,
    recovery: Recovery,
    events: Seq<RepairEvent>,
    state: RepairState,
    actions: Seq<RepairActionView>,
) -> bool {
    repair_run(thread, events, recovery) == Some((state, actions))
}

proof fn lemma_repair_starts(
    thread: SavedThread,
    recovery: Recovery,
    state: RepairState,
    action: RepairActionView,
)
    requires
        repair_run(thread, Seq::<RepairEvent>::empty(), recovery) == Some((state, seq![action])),
    ensures
        repair_stands(thread, recovery, Seq::<RepairEvent>::empty(), state, seq![action]),
{
    reveal(repair_stands);
}

proof fn lemma_repair_moves(
    thread: SavedThread,
    recovery: Recovery,
    events: Seq<RepairEvent>,
    state: RepairState,
    actions: Seq<RepairActionView>,
    event: RepairEvent,
    next: RepairState,
    action: RepairActionView,
)
    requires
        repair_stands(thread, recovery, events, state, actions),
        repair_next(state, event, recovery) == Some((next, action)),
    ensures
        repair_stands(thread, recovery, events.push(event), next, actions.push(action)),
{
    reveal(repair_stands);
    assert(events.push(event).drop_last() =~= events);
}

proof fn lemma_repair_has_run(
    thread: SavedThread,
    recovery: Recovery,
    events: Seq<RepairEvent>,
    state: RepairState,
    actions: Seq<RepairActionView>,
    all_events: Seq<RepairEvent>,
    all_actions: Seq<RepairActionView>,
)
    requires
        repair_stands(thread, recovery, events, state, actions),
        events == all_events,
        actions == all_actions,
    ensures
        repair_run(thread, all_events, recovery) == Some((state, all_actions)),
{
    reveal(repair_stands);
}

/// A thread whose whole history is kept is restored without looking turns up: what was missing is
/// appended and flushed, and the writer is published and kept.
pub proof fn law_whole_history_is_restored(
    thread: SavedThread,
    recovery: Recovery,
    saved: Vec<RolloutItem>,
    histories: Histories,
    legacy_events: Vec<Vec<String>>,
    checkpoint: Vec<RolloutItem>,
    now_ms: i64,
    rollout_path: Option<String>,
)
    requires
        thread.mode != ThreadHistoryMode::Paginated,
        legacy_events@.len() == recovery.presentations@.len(),
    ensures
        ({
            let events: Seq<RepairEvent> = seq![
                RepairEvent::Writer(false),
                RepairEvent::Stepped(Ok(())),
                RepairEvent::Stepped(Ok(())),
                RepairEvent::Locked { repair_open: true, writer: false, system_agent: false },
                RepairEvent::Stored(Ok(thread.mode)),
                RepairEvent::Stepped(Ok(())),
                RepairEvent::Loaded(Ok(saved)),
                RepairEvent::Compared(Ok(histories)),
                RepairEvent::Presented { legacy_events, checkpoint, now_ms },
                RepairEvent::Stepped(Ok(())),
                RepairEvent::Stepped(Ok(())),
                RepairEvent::RolloutPath(Ok(rollout_path)),
                RepairEvent::Stepped(Ok(())),
                RepairEvent::Published(true),
            ];
            let run = repair_run(thread, events, recovery);
            &&& run is Some
            &&& run->Some_0.1 == seq![
                RepairActionView::LookForWriter,
                RepairActionView::AcquireAdmission,
                RepairActionView::AcquireSettings,
                RepairActionView::LockStateAndRepair,
                RepairActionView::ReadThread,
                RepairActionView::ResumeWriter,
                RepairActionView::LoadSaved { latest_context_only: false },
                RepairActionView::CompareHistories,
                RepairActionView::Present(shown_items(recovery.presentations@)),
                RepairActionView::Append(
                    restored(
                        thread.thread_id,
                        thread.mode,
                        known_turns(None, saved@),
                        with_legacy_events(recovery.presentations@, legacy_events@),
                        recovery.recovered@,
                        checkpoint@,
                        now_ms,
                    ),
                ),
                RepairActionView::Flush,
                RepairActionView::ResolveRollout,
                RepairActionView::OpenDatabase,
                RepairActionView::Publish(RepairedPersistence { rollout_path }),
                RepairActionView::CommitAndFinish,
            ]
        }),
{
    let e0 = Seq::<RepairEvent>::empty();
    let a0 = seq![RepairActionView::LookForWriter];
    lemma_repair_starts(
        thread,
        recovery,
        RepairState::FirstLook { thread },
        RepairActionView::LookForWriter,
    );
    lemma_repair_moves(
        thread,
        recovery,
        e0,
        RepairState::FirstLook { thread },
        a0,
        RepairEvent::Writer(false),
        RepairState::Admission { thread },
        RepairActionView::AcquireAdmission,
    );
    let e1 = e0.push(RepairEvent::Writer(false));
    let a1 = a0.push(RepairActionView::AcquireAdmission);
    lemma_repair_moves(
        thread,
        recovery,
        e1,
        RepairState::Admission { thread },
        a1,
        RepairEvent::Stepped(Ok(())),
        RepairState::Settings { thread },
        RepairActionView::AcquireSettings,
    );
    let e2 = e1.push(RepairEvent::Stepped(Ok(())));
    let a2 = a1.push(RepairActionView::AcquireSettings);
    lemma_repair_moves(
        thread,
        recovery,
        e2,
        RepairState::Settings { thread },
        a2,
        RepairEvent::Stepped(Ok(())),
        RepairState::Locks { thread },
        RepairActionView::LockStateAndRepair,
    );
    let e3 = e2.push(RepairEvent::Stepped(Ok(())));
    let a3 = a2.push(RepairActionView::LockStateAndRepair);
    lemma_repair_moves(
        thread,
        recovery,
        e3,
        RepairState::Locks { thread },
        a3,
        RepairEvent::Locked { repair_open: true, writer: false, system_agent: false },
        RepairState::Stored { thread },
        RepairActionView::ReadThread,
    );
    let e4 = e3.push(RepairEvent::Locked { repair_open: true, writer: false, system_agent: false });
    let a4 = a3.push(RepairActionView::ReadThread);
    lemma_repair_moves(
        thread,
        recovery,
        e4,
        RepairState::Stored { thread },
        a4,
        RepairEvent::Stored(Ok(thread.mode)),
        RepairState::Writer { thread },
        RepairActionView::ResumeWriter,
    );
    let e5 = e4.push(RepairEvent::Stored(Ok(thread.mode)));
    let a5 = a4.push(RepairActionView::ResumeWriter);
    lemma_repair_moves(
        thread,
        recovery,
        e5,
        RepairState::Writer { thread },
        a5,
        RepairEvent::Stepped(Ok(())),
        RepairState::Saved { thread },
        RepairActionView::LoadSaved { latest_context_only: false },
    );
    let e6 = e5.push(RepairEvent::Stepped(Ok(())));
    let a6 = a5.push(RepairActionView::LoadSaved { latest_context_only: false });
    lemma_repair_moves(
        thread,
        recovery,
        e6,
        RepairState::Saved { thread },
        a6,
        RepairEvent::Loaded(Ok(saved)),
        RepairState::Comparison { thread, saved },
        RepairActionView::CompareHistories,
    );
    let e7 = e6.push(RepairEvent::Loaded(Ok(saved)));
    let a7 = a6.push(RepairActionView::CompareHistories);
    lemma_repair_moves(
        thread,
        recovery,
        e7,
        RepairState::Comparison { thread, saved },
        a7,
        RepairEvent::Compared(Ok(histories)),
        RepairState::Presentation { thread, saved, recovery, looked_up: None },
        RepairActionView::Present(shown_items(recovery.presentations@)),
    );
    let e8 = e7.push(RepairEvent::Compared(Ok(histories)));
    let a8 = a7.push(RepairActionView::Present(shown_items(recovery.presentations@)));
    lemma_repair_moves(
        thread,
        recovery,
        e8,
        RepairState::Presentation { thread, saved, recovery, looked_up: None },
        a8,
        RepairEvent::Presented { legacy_events, checkpoint, now_ms },
        RepairState::Append,
        RepairActionView::Append(
            restored(
                thread.thread_id,
                thread.mode,
                known_turns(None, saved@),
                with_legacy_events(recovery.presentations@, legacy_events@),
                recovery.recovered@,
                checkpoint@,
                now_ms,
            ),
        ),
    );
    let e9 = e8.push(RepairEvent::Presented { legacy_events, checkpoint, now_ms });
    let a9 = a8.push(
        RepairActionView::Append(
            restored(
                thread.thread_id,
                thread.mode,
                known_turns(None, saved@),
                with_legacy_events(recovery.presentations@, legacy_events@),
                recovery.recovered@,
                checkpoint@,
                now_ms,
            ),
        ),
    );
    lemma_repair_moves(
        thread,
        recovery,
        e9,
        RepairState::Append,
        a9,
        RepairEvent::Stepped(Ok(())),
        RepairState::Flush,
        RepairActionView::Flush,
    );
    let e10 = e9.push(RepairEvent::Stepped(Ok(())));
    let a10 = a9.push(RepairActionView::Flush);
    lemma_repair_moves(
        thread,
        recovery,
        e10,
        RepairState::Flush,
        a10,
        RepairEvent::Stepped(Ok(())),
        RepairState::RolloutPath,
        RepairActionView::ResolveRollout,
    );
    let e11 = e10.push(RepairEvent::Stepped(Ok(())));
    let a11 = a10.push(RepairActionView::ResolveRollout);
    lemma_repair_moves(
        thread,
        recovery,
        e11,
        RepairState::RolloutPath,
        a11,
        RepairEvent::RolloutPath(Ok(rollout_path)),
        RepairState::Database { rollout_path },
        RepairActionView::OpenDatabase,
    );
    let e12 = e11.push(RepairEvent::RolloutPath(Ok(rollout_path)));
    let a12 = a11.push(RepairActionView::OpenDatabase);
    lemma_repair_moves(
        thread,
        recovery,
        e12,
        RepairState::Database { rollout_path },
        a12,
        RepairEvent::Stepped(Ok(())),
        RepairState::Publication,
        RepairActionView::Publish(RepairedPersistence { rollout_path }),
    );
    let e13 = e12.push(RepairEvent::Stepped(Ok(())));
    let a13 = a12.push(RepairActionView::Publish(RepairedPersistence { rollout_path }));
    lemma_repair_moves(
        thread,
        recovery,
        e13,
        RepairState::Publication,
        a13,
        RepairEvent::Published(true),
        RepairState::Done,
        RepairActionView::CommitAndFinish,
    );
    let e14 = e13.push(RepairEvent::Published(true));
    let a14 = a13.push(RepairActionView::CommitAndFinish);
    let all_events = seq![
        RepairEvent::Writer(false),
        RepairEvent::Stepped(Ok(())),
        RepairEvent::Stepped(Ok(())),
        RepairEvent::Locked { repair_open: true, writer: false, system_agent: false },
        RepairEvent::Stored(Ok(thread.mode)),
        RepairEvent::Stepped(Ok(())),
        RepairEvent::Loaded(Ok(saved)),
        RepairEvent::Compared(Ok(histories)),
        RepairEvent::Presented { legacy_events, checkpoint, now_ms },
        RepairEvent::Stepped(Ok(())),
        RepairEvent::Stepped(Ok(())),
        RepairEvent::RolloutPath(Ok(rollout_path)),
        RepairEvent::Stepped(Ok(())),
        RepairEvent::Published(true),
    ];
    assert(e14 =~= all_events);
    let all_actions = seq![
        RepairActionView::LookForWriter,
        RepairActionView::AcquireAdmission,
        RepairActionView::AcquireSettings,
        RepairActionView::LockStateAndRepair,
        RepairActionView::ReadThread,
        RepairActionView::ResumeWriter,
        RepairActionView::LoadSaved { latest_context_only: false },
        RepairActionView::CompareHistories,
        RepairActionView::Present(shown_items(recovery.presentations@)),
        RepairActionView::Append(
            restored(
                thread.thread_id,
                thread.mode,
                known_turns(None, saved@),
                with_legacy_events(recovery.presentations@, legacy_events@),
                recovery.recovered@,
                checkpoint@,
                now_ms,
            ),
        ),
        RepairActionView::Flush,
        RepairActionView::ResolveRollout,
        RepairActionView::OpenDatabase,
        RepairActionView::Publish(RepairedPersistence { rollout_path }),
        RepairActionView::CommitAndFinish,
    ];
    assert(a14 =~= all_actions);
    lemma_repair_has_run(thread, recovery, e14, RepairState::Done, a14, all_events, all_actions);
}

/// A thread that is kept in pages and misses nothing that is shown is restored without looking
/// turns up.
pub proof fn law_paginated_history_without_news_is_restored(
    thread: SavedThread,
    recovery: Recovery,
    saved: Vec<RolloutItem>,
    histories: Histories,
    legacy_events: Vec<Vec<String>>,
    checkpoint: Vec<RolloutItem>,
    now_ms: i64,
    rollout_path: Option<String>,
)
    requires
        thread.mode == ThreadHistoryMode::Paginated,
        recovery.presentations@.len() == 0,
        legacy_events@.len() == recovery.presentations@.len(),
    ensures
        ({
            let events: Seq<RepairEvent> = seq![
                RepairEvent::Writer(false),
                RepairEvent::Stepped(Ok(())),
                RepairEvent::Stepped(Ok(())),
                RepairEvent::Locked { repair_open: true, writer: false, system_agent: false },
                RepairEvent::Stored(Ok(thread.mode)),
                RepairEvent::Stepped(Ok(())),
                RepairEvent::Loaded(Ok(saved)),
                RepairEvent::Compared(Ok(histories)),
                RepairEvent::Presented { legacy_events, checkpoint, now_ms },
                RepairEvent::Stepped(Ok(())),
                RepairEvent::Stepped(Ok(())),
                RepairEvent::RolloutPath(Ok(rollout_path)),
                RepairEvent::Stepped(Ok(())),
                RepairEvent::Published(true),
            ];
            let run = repair_run(thread, events, recovery);
            &&& run is Some
            &&& run->Some_0.1 == seq![
                RepairActionView::LookForWriter,
                RepairActionView::AcquireAdmission,
                RepairActionView::AcquireSettings,
                RepairActionView::LockStateAndRepair,
                RepairActionView::ReadThread,
                RepairActionView::ResumeWriter,
                RepairActionView::LoadSaved { latest_context_only: true },
                RepairActionView::CompareHistories,
                RepairActionView::Present(shown_items(recovery.presentations@)),
                RepairActionView::Append(
                    restored(
                        thread.thread_id,
                        thread.mode,
                        known_turns(None, saved@),
                        with_legacy_events(recovery.presentations@, legacy_events@),
                        recovery.recovered@,
                        checkpoint@,
                        now_ms,
                    ),
                ),
                RepairActionView::Flush,
                RepairActionView::ResolveRollout,
                RepairActionView::OpenDatabase,
                RepairActionView::Publish(RepairedPersistence { rollout_path }),
                RepairActionView::CommitAndFinish,
            ]
        }),
{
    let e0 = Seq::<RepairEvent>::empty();
    let a0 = seq![RepairActionView::LookForWriter];
    lemma_repair_starts(
        thread,
        recovery,
        RepairState::FirstLook { thread },
        RepairActionView::LookForWriter,
    );
    lemma_repair_moves(
        thread,
        recovery,
        e0,
        RepairState::FirstLook { thread },
        a0,
        RepairEvent::Writer(false),
        RepairState::Admission { thread },
        RepairActionView::AcquireAdmission,
    );
    let e1 = e0.push(RepairEvent::Writer(false));
    let a1 = a0.push(RepairActionView::AcquireAdmission);
    lemma_repair_moves(
        thread,
        recovery,
        e1,
        RepairState::Admission { thread },
        a1,
        RepairEvent::Stepped(Ok(())),
        RepairState::Settings { thread },
        RepairActionView::AcquireSettings,
    );
    let e2 = e1.push(RepairEvent::Stepped(Ok(())));
    let a2 = a1.push(RepairActionView::AcquireSettings);
    lemma_repair_moves(
        thread,
        recovery,
        e2,
        RepairState::Settings { thread },
        a2,
        RepairEvent::Stepped(Ok(())),
        RepairState::Locks { thread },
        RepairActionView::LockStateAndRepair,
    );
    let e3 = e2.push(RepairEvent::Stepped(Ok(())));
    let a3 = a2.push(RepairActionView::LockStateAndRepair);
    lemma_repair_moves(
        thread,
        recovery,
        e3,
        RepairState::Locks { thread },
        a3,
        RepairEvent::Locked { repair_open: true, writer: false, system_agent: false },
        RepairState::Stored { thread },
        RepairActionView::ReadThread,
    );
    let e4 = e3.push(RepairEvent::Locked { repair_open: true, writer: false, system_agent: false });
    let a4 = a3.push(RepairActionView::ReadThread);
    lemma_repair_moves(
        thread,
        recovery,
        e4,
        RepairState::Stored { thread },
        a4,
        RepairEvent::Stored(Ok(thread.mode)),
        RepairState::Writer { thread },
        RepairActionView::ResumeWriter,
    );
    let e5 = e4.push(RepairEvent::Stored(Ok(thread.mode)));
    let a5 = a4.push(RepairActionView::ResumeWriter);
    lemma_repair_moves(
        thread,
        recovery,
        e5,
        RepairState::Writer { thread },
        a5,
        RepairEvent::Stepped(Ok(())),
        RepairState::Saved { thread },
        RepairActionView::LoadSaved { latest_context_only: true },
    );
    let e6 = e5.push(RepairEvent::Stepped(Ok(())));
    let a6 = a5.push(RepairActionView::LoadSaved { latest_context_only: true });
    lemma_repair_moves(
        thread,
        recovery,
        e6,
        RepairState::Saved { thread },
        a6,
        RepairEvent::Loaded(Ok(saved)),
        RepairState::Comparison { thread, saved },
        RepairActionView::CompareHistories,
    );
    let e7 = e6.push(RepairEvent::Loaded(Ok(saved)));
    let a7 = a6.push(RepairActionView::CompareHistories);
    lemma_repair_moves(
        thread,
        recovery,
        e7,
        RepairState::Comparison { thread, saved },
        a7,
        RepairEvent::Compared(Ok(histories)),
        RepairState::Presentation { thread, saved, recovery, looked_up: None },
        RepairActionView::Present(shown_items(recovery.presentations@)),
    );
    let e8 = e7.push(RepairEvent::Compared(Ok(histories)));
    let a8 = a7.push(RepairActionView::Present(shown_items(recovery.presentations@)));
    lemma_repair_moves(
        thread,
        recovery,
        e8,
        RepairState::Presentation { thread, saved, recovery, looked_up: None },
        a8,
        RepairEvent::Presented { legacy_events, checkpoint, now_ms },
        RepairState::Append,
        RepairActionView::Append(
            restored(
                thread.thread_id,
                thread.mode,
                known_turns(None, saved@),
                with_legacy_events(recovery.presentations@, legacy_events@),
                recovery.recovered@,
                checkpoint@,
                now_ms,
            ),
        ),
    );
    let e9 = e8.push(RepairEvent::Presented { legacy_events, checkpoint, now_ms });
    let a9 = a8.push(
        RepairActionView::Append(
            restored(
                thread.thread_id,
                thread.mode,
                known_turns(None, saved@),
                with_legacy_events(recovery.presentations@, legacy_events@),
                recovery.recovered@,
                checkpoint@,
                now_ms,
            ),
        ),
    );
    lemma_repair_moves(
        thread,
        recovery,
        e9,
        RepairState::Append,
        a9,
        RepairEvent::Stepped(Ok(())),
        RepairState::Flush,
        RepairActionView::Flush,
    );
    let e10 = e9.push(RepairEvent::Stepped(Ok(())));
    let a10 = a9.push(RepairActionView::Flush);
    lemma_repair_moves(
        thread,
        recovery,
        e10,
        RepairState::Flush,
        a10,
        RepairEvent::Stepped(Ok(())),
        RepairState::RolloutPath,
        RepairActionView::ResolveRollout,
    );
    let e11 = e10.push(RepairEvent::Stepped(Ok(())));
    let a11 = a10.push(RepairActionView::ResolveRollout);
    lemma_repair_moves(
        thread,
        recovery,
        e11,
        RepairState::RolloutPath,
        a11,
        RepairEvent::RolloutPath(Ok(rollout_path)),
        RepairState::Database { rollout_path },
        RepairActionView::OpenDatabase,
    );
    let e12 = e11.push(RepairEvent::RolloutPath(Ok(rollout_path)));
    let a12 = a11.push(RepairActionView::OpenDatabase);
    lemma_repair_moves(
        thread,
        recovery,
        e12,
        RepairState::Database { rollout_path },
        a12,
        RepairEvent::Stepped(Ok(())),
        RepairState::Publication,
        RepairActionView::Publish(RepairedPersistence { rollout_path }),
    );
    let e13 = e12.push(RepairEvent::Stepped(Ok(())));
    let a13 = a12.push(RepairActionView::Publish(RepairedPersistence { rollout_path }));
    lemma_repair_moves(
        thread,
        recovery,
        e13,
        RepairState::Publication,
        a13,
        RepairEvent::Published(true),
        RepairState::Done,
        RepairActionView::CommitAndFinish,
    );
    let e14 = e13.push(RepairEvent::Published(true));
    let a14 = a13.push(RepairActionView::CommitAndFinish);
    let all_events = seq![
        RepairEvent::Writer(false),
        RepairEvent::Stepped(Ok(())),
        RepairEvent::Stepped(Ok(())),
        RepairEvent::Locked { repair_open: true, writer: false, system_agent: false },
        RepairEvent::Stored(Ok(thread.mode)),
        RepairEvent::Stepped(Ok(())),
        RepairEvent::Loaded(Ok(saved)),
        RepairEvent::Compared(Ok(histories)),
        RepairEvent::Presented { legacy_events, checkpoint, now_ms },
        RepairEvent::Stepped(Ok(())),
        RepairEvent::Stepped(Ok(())),
        RepairEvent::RolloutPath(Ok(rollout_path)),
        RepairEvent::Stepped(Ok(())),
        RepairEvent::Published(true),
    ];
    assert(e14 =~= all_events);
    let all_actions = seq![
        RepairActionView::LookForWriter,
        RepairActionView::AcquireAdmission,
        RepairActionView::AcquireSettings,
        RepairActionView::LockStateAndRepair,
        RepairActionView::ReadThread,
        RepairActionView::ResumeWriter,
        RepairActionView::LoadSaved { latest_context_only: true },
        RepairActionView::CompareHistories,
        RepairActionView::Present(shown_items(recovery.presentations@)),
        RepairActionView::Append(
            restored(
                thread.thread_id,
                thread.mode,
                known_turns(None, saved@),
                with_legacy_events(recovery.presentations@, legacy_events@),
                recovery.recovered@,
                checkpoint@,
                now_ms,
            ),
        ),
        RepairActionView::Flush,
        RepairActionView::ResolveRollout,
        RepairActionView::OpenDatabase,
        RepairActionView::Publish(RepairedPersistence { rollout_path }),
        RepairActionView::CommitAndFinish,
    ];
    assert(a14 =~= all_actions);
    lemma_repair_has_run(thread, recovery, e14, RepairState::Done, a14, all_events, all_actions);
}

/// A thread that is kept in pages is restored after the turns of what it misses were looked up.
pub proof fn law_paginated_history_is_restored_after_a_lookup(
    thread: SavedThread,
    recovery: Recovery,
    saved: Vec<RolloutItem>,
    histories: Histories,
    legacy_events: Vec<Vec<String>>,
    checkpoint: Vec<RolloutItem>,
    now_ms: i64,
    rollout_path: Option<String>,
    turns: Vec<String>,
)
    requires
        thread.mode == ThreadHistoryMode::Paginated,
        recovery.presentations@.len() > 0,
        legacy_events@.len() == recovery.presentations@.len(),
    ensures
        ({
            let events: Seq<RepairEvent> = seq![
                RepairEvent::Writer(false),
                RepairEvent::Stepped(Ok(())),
                RepairEvent::Stepped(Ok(())),
                RepairEvent::Locked { repair_open: true, writer: false, system_agent: false },
                RepairEvent::Stored(Ok(thread.mode)),
                RepairEvent::Stepped(Ok(())),
                RepairEvent::Loaded(Ok(saved)),
                RepairEvent::Compared(Ok(histories)),
                RepairEvent::Turns(TurnLookup::Found(turns)),
                RepairEvent::Presented { legacy_events, checkpoint, now_ms },
                RepairEvent::Stepped(Ok(())),
                RepairEvent::Stepped(Ok(())),
                RepairEvent::RolloutPath(Ok(rollout_path)),
                RepairEvent::Stepped(Ok(())),
                RepairEvent::Published(true),
            ];
            let run = repair_run(thread, events, recovery);
            &&& run is Some
            &&& run->Some_0.1 == seq![
                RepairActionView::LookForWriter,
                RepairActionView::AcquireAdmission,
                RepairActionView::AcquireSettings,
                RepairActionView::LockStateAndRepair,
                RepairActionView::ReadThread,
                RepairActionView::ResumeWriter,
                RepairActionView::LoadSaved { latest_context_only: true },
                RepairActionView::CompareHistories,
                RepairActionView::LookUpTurns(
                    distinct_turns(recovery.presentations@, recovery.presentations@.len()),
                ),
                RepairActionView::Present(shown_items(recovery.presentations@)),
                RepairActionView::Append(
                    restored(
                        thread.thread_id,
                        thread.mode,
                        known_turns(Some(turns), saved@),
                        with_legacy_events(recovery.presentations@, legacy_events@),
                        recovery.recovered@,
                        checkpoint@,
                        now_ms,
                    ),
                ),
                RepairActionView::Flush,
                RepairActionView::ResolveRollout,
                RepairActionView::OpenDatabase,
                RepairActionView::Publish(RepairedPersistence { rollout_path }),
                RepairActionView::CommitAndFinish,
            ]
        }),
{
    let e0 = Seq::<RepairEvent>::empty();
    let a0 = seq![RepairActionView::LookForWriter];
    lemma_repair_starts(
        thread,
        recovery,
        RepairState::FirstLook { thread },
        RepairActionView::LookForWriter,
    );
    lemma_repair_moves(
        thread,
        recovery,
        e0,
        RepairState::FirstLook { thread },
        a0,
        RepairEvent::Writer(false),
        RepairState::Admission { thread },
        RepairActionView::AcquireAdmission,
    );
    let e1 = e0.push(RepairEvent::Writer(false));
    let a1 = a0.push(RepairActionView::AcquireAdmission);
    lemma_repair_moves(
        thread,
        recovery,
        e1,
        RepairState::Admission { thread },
        a1,
        RepairEvent::Stepped(Ok(())),
        RepairState::Settings { thread },
        RepairActionView::AcquireSettings,
    );
    let e2 = e1.push(RepairEvent::Stepped(Ok(())));
    let a2 = a1.push(RepairActionView::AcquireSettings);
    lemma_repair_moves(
        thread,
        recovery,
        e2,
        RepairState::Settings { thread },
        a2,
        RepairEvent::Stepped(Ok(())),
        RepairState::Locks { thread },
        RepairActionView::LockStateAndRepair,
    );
    let e3 = e2.push(RepairEvent::Stepped(Ok(())));
    let a3 = a2.push(RepairActionView::LockStateAndRepair);
    lemma_repair_moves(
        thread,
        recovery,
        e3,
        RepairState::Locks { thread },
        a3,
        RepairEvent::Locked { repair_open: true, writer: false, system_agent: false },
        RepairState::Stored { thread },
        RepairActionView::ReadThread,
    );
    let e4 = e3.push(RepairEvent::Locked { repair_open: true, writer: false, system_agent: false });
    let a4 = a3.push(RepairActionView::ReadThread);
    lemma_repair_moves(
        thread,
        recovery,
        e4,
        RepairState::Stored { thread },
        a4,
        RepairEvent::Stored(Ok(thread.mode)),
        RepairState::Writer { thread },
        RepairActionView::ResumeWriter,
    );
    let e5 = e4.push(RepairEvent::Stored(Ok(thread.mode)));
    let a5 = a4.push(RepairActionView::ResumeWriter);
    lemma_repair_moves(
        thread,
        recovery,
        e5,
        RepairState::Writer { thread },
        a5,
        RepairEvent::Stepped(Ok(())),
        RepairState::Saved { thread },
        RepairActionView::LoadSaved { latest_context_only: true },
    );
    let e6 = e5.push(RepairEvent::Stepped(Ok(())));
    let a6 = a5.push(RepairActionView::LoadSaved { latest_context_only: true });
    lemma_repair_moves(
        thread,
        recovery,
        e6,
        RepairState::Saved { thread },
        a6,
        RepairEvent::Loaded(Ok(saved)),
        RepairState::Comparison { thread, saved },
        RepairActionView::CompareHistories,
    );
    let e7 = e6.push(RepairEvent::Loaded(Ok(saved)));
    let a7 = a6.push(RepairActionView::CompareHistories);
    lemma_repair_moves(
        thread,
        recovery,
        e7,
        RepairState::Comparison { thread, saved },
        a7,
        RepairEvent::Compared(Ok(histories)),
        RepairState::Turns { thread, saved, recovery },
        RepairActionView::LookUpTurns(
            distinct_turns(recovery.presentations@, recovery.presentations@.len()),
        ),
    );
    let e8 = e7.push(RepairEvent::Compared(Ok(histories)));
    let a8 = a7.push(
        RepairActionView::LookUpTurns(
            distinct_turns(recovery.presentations@, recovery.presentations@.len()),
        ),
    );
    lemma_repair_moves(
        thread,
        recovery,
        e8,
        RepairState::Turns { thread, saved, recovery },
        a8,
        RepairEvent::Turns(TurnLookup::Found(turns)),
        RepairState::Presentation { thread, saved, recovery, looked_up: Some(turns) },
        RepairActionView::Present(shown_items(recovery.presentations@)),
    );
    let e9 = e8.push(RepairEvent::Turns(TurnLookup::Found(turns)));
    let a9 = a8.push(RepairActionView::Present(shown_items(recovery.presentations@)));
    lemma_repair_moves(
        thread,
        recovery,
        e9,
        RepairState::Presentation { thread, saved, recovery, looked_up: Some(turns) },
        a9,
        RepairEvent::Presented { legacy_events, checkpoint, now_ms },
        RepairState::Append,
        RepairActionView::Append(
            restored(
                thread.thread_id,
                thread.mode,
                known_turns(Some(turns), saved@),
                with_legacy_events(recovery.presentations@, legacy_events@),
                recovery.recovered@,
                checkpoint@,
                now_ms,
            ),
        ),
    );
    let e10 = e9.push(RepairEvent::Presented { legacy_events, checkpoint, now_ms });
    let a10 = a9.push(
        RepairActionView::Append(
            restored(
                thread.thread_id,
                thread.mode,
                known_turns(Some(turns), saved@),
                with_legacy_events(recovery.presentations@, legacy_events@),
                recovery.recovered@,
                checkpoint@,
                now_ms,
            ),
        ),
    );
    lemma_repair_moves(
        thread,
        recovery,
        e10,
        RepairState::Append,
        a10,
        RepairEvent::Stepped(Ok(())),
        RepairState::Flush,
        RepairActionView::Flush,
    );
    let e11 = e10.push(RepairEvent::Stepped(Ok(())));
    let a11 = a10.push(RepairActionView::Flush);
    lemma_repair_moves(
        thread,
        recovery,
        e11,
        RepairState::Flush,
        a11,
        RepairEvent::Stepped(Ok(())),
        RepairState::RolloutPath,
        RepairActionView::ResolveRollout,
    );
    let e12 = e11.push(RepairEvent::Stepped(Ok(())));
    let a12 = a11.push(RepairActionView::ResolveRollout);
    lemma_repair_moves(
        thread,
        recovery,
        e12,
        RepairState::RolloutPath,
        a12,
        RepairEvent::RolloutPath(Ok(rollout_path)),
        RepairState::Database { rollout_path },
        RepairActionView::OpenDatabase,
    );
    let e13 = e12.push(RepairEvent::RolloutPath(Ok(rollout_path)));
    let a13 = a12.push(RepairActionView::OpenDatabase);
    lemma_repair_moves(
        thread,
        recovery,
        e13,
        RepairState::Database { rollout_path },
        a13,
        RepairEvent::Stepped(Ok(())),
        RepairState::Publication,
        RepairActionView::Publish(RepairedPersistence { rollout_path }),
    );
    let e14 = e13.push(RepairEvent::Stepped(Ok(())));
    let a14 = a13.push(RepairActionView::Publish(RepairedPersistence { rollout_path }));
    lemma_repair_moves(
        thread,
        recovery,
        e14,
        RepairState::Publication,
        a14,
        RepairEvent::Published(true),
        RepairState::Done,
        RepairActionView::CommitAndFinish,
    );
    let e15 = e14.push(RepairEvent::Published(true));
    let a15 = a14.push(RepairActionView::CommitAndFinish);
    let all_events = seq![
        RepairEvent::Writer(false),
        RepairEvent::Stepped(Ok(())),
        RepairEvent::Stepped(Ok(())),
        RepairEvent::Locked { repair_open: true, writer: false, system_agent: false },
        RepairEvent::Stored(Ok(thread.mode)),
        RepairEvent::Stepped(Ok(())),
        RepairEvent::Loaded(Ok(saved)),
        RepairEvent::Compared(Ok(histories)),
        RepairEvent::Turns(TurnLookup::Found(turns)),
        RepairEvent::Presented { legacy_events, checkpoint, now_ms },
        RepairEvent::Stepped(Ok(())),
        RepairEvent::Stepped(Ok(())),
        RepairEvent::RolloutPath(Ok(rollout_path)),
        RepairEvent::Stepped(Ok(())),
        RepairEvent::Published(true),
    ];
    assert(e15 =~= all_events);
    let all_actions = seq![
        RepairActionView::LookForWriter,
        RepairActionView::AcquireAdmission,
        RepairActionView::AcquireSettings,
        RepairActionView::LockStateAndRepair,
        RepairActionView::ReadThread,
        RepairActionView::ResumeWriter,
        RepairActionView::LoadSaved { latest_context_only: true },
        RepairActionView::CompareHistories,
        RepairActionView::LookUpTurns(
            distinct_turns(recovery.presentations@, recovery.presentations@.len()),
        ),
        RepairActionView::Present(shown_items(recovery.presentations@)),
        RepairActionView::Append(
            restored(
                thread.thread_id,
                thread.mode,
                known_turns(Some(turns), saved@),
                with_legacy_events(recovery.presentations@, legacy_events@),
                recovery.recovered@,
                checkpoint@,
                now_ms,
            ),
        ),
        RepairActionView::Flush,
        RepairActionView::ResolveRollout,
        RepairActionView::OpenDatabase,
        RepairActionView::Publish(RepairedPersistence { rollout_path }),
        RepairActionView::CommitAndFinish,
    ];
    assert(a15 =~= all_actions);
    lemma_repair_has_run(thread, recovery, e15, RepairState::Done, a15, all_events, all_actions);
}

/// A session that has a writer, or has got one meanwhile, needs no restoration.
pub proof fn law_restoration_finds_a_writer_at_work(
    thread: SavedThread,
    recovery: Recovery,
    system_agent: bool,
)
    ensures
        ({
            let events: Seq<RepairEvent> = seq![RepairEvent::Writer(true)];
            let run = repair_run(thread, events, recovery);
            &&& run is Some
            &&& run->Some_0.1 == seq![
                RepairActionView::LookForWriter,
                RepairActionView::Finish(Ok(())),
            ]
        }),
        ({
            let events: Seq<RepairEvent> = seq![
                RepairEvent::Writer(false),
                RepairEvent::Stepped(Ok(())),
                RepairEvent::Stepped(Ok(())),
                RepairEvent::Locked { repair_open: true, writer: true, system_agent },
            ];
            let run = repair_run(thread, events, recovery);
            &&& run is Some
            &&& run->Some_0.1 == seq![
                RepairActionView::LookForWriter,
                RepairActionView::AcquireAdmission,
                RepairActionView::AcquireSettings,
                RepairActionView::LockStateAndRepair,
                RepairActionView::Finish(Ok(())),
            ]
        }),
{
    let e0 = Seq::<RepairEvent>::empty();
    let a0 = seq![RepairActionView::LookForWriter];
    lemma_repair_starts(
        thread,
        recovery,
        RepairState::FirstLook { thread },
        RepairActionView::LookForWriter,
    );
    lemma_repair_moves(
        thread,
        recovery,
        e0,
        RepairState::FirstLook { thread },
        a0,
        RepairEvent::Writer(true),
        RepairState::Done,
        RepairActionView::Finish(Ok(())),
    );
    let e1 = e0.push(RepairEvent::Writer(true));
    let a1 = a0.push(RepairActionView::Finish(Ok(())));
    let all_events = seq![RepairEvent::Writer(true)];
    assert(e1 =~= all_events);
    let all_actions = seq![RepairActionView::LookForWriter, RepairActionView::Finish(Ok(()))];
    assert(a1 =~= all_actions);
    lemma_repair_has_run(thread, recovery, e1, RepairState::Done, a1, all_events, all_actions);
    lemma_repair_moves(
        thread,
        recovery,
        e0,
        RepairState::FirstLook { thread },
        a0,
        RepairEvent::Writer(false),
        RepairState::Admission { thread },
        RepairActionView::AcquireAdmission,
    );
    let e2 = e0.push(RepairEvent::Writer(false));
    let a2 = a0.push(RepairActionView::AcquireAdmission);
    lemma_repair_moves(
        thread,
        recovery,
        e2,
        RepairState::Admission { thread },
        a2,
        RepairEvent::Stepped(Ok(())),
        RepairState::Settings { thread },
        RepairActionView::AcquireSettings,
    );
    let e3 = e2.push(RepairEvent::Stepped(Ok(())));
    let a3 = a2.push(RepairActionView::AcquireSettings);
    lemma_repair_moves(
        thread,
        recovery,
        e3,
        RepairState::Settings { thread },
        a3,
        RepairEvent::Stepped(Ok(())),
        RepairState::Locks { thread },
        RepairActionView::LockStateAndRepair,
    );
    let e4 = e3.push(RepairEvent::Stepped(Ok(())));
    let a4 = a3.push(RepairActionView::LockStateAndRepair);
    lemma_repair_moves(
        thread,
        recovery,
        e4,
        RepairState::Locks { thread },
        a4,
        RepairEvent::Locked { repair_open: true, writer: true, system_agent },
        RepairState::Done,
        RepairActionView::Finish(Ok(())),
    );
    let e5 = e4.push(RepairEvent::Locked { repair_open: true, writer: true, system_agent });
    let a5 = a4.push(RepairActionView::Finish(Ok(())));
    let all_events = seq![
        RepairEvent::Writer(false),
        RepairEvent::Stepped(Ok(())),
        RepairEvent::Stepped(Ok(())),
        RepairEvent::Locked { repair_open: true, writer: true, system_agent },
    ];
    assert(e5 =~= all_events);
    let all_actions = seq![
        RepairActionView::LookForWriter,
        RepairActionView::AcquireAdmission,
        RepairActionView::AcquireSettings,
        RepairActionView::LockStateAndRepair,
        RepairActionView::Finish(Ok(())),
    ];
    assert(a5 =~= all_actions);
    lemma_repair_has_run(thread, recovery, e5, RepairState::Done, a5, all_events, all_actions);
}

/// A restoration that is not admitted ends with the reason, before the thread is looked at.
pub proof fn law_restoration_that_is_not_let_in_ends(
    thread: SavedThread,
    recovery: Recovery,
    reason: Reason,
)
    ensures
        ({
            let events: Seq<RepairEvent> = seq![
                RepairEvent::Writer(false),
                RepairEvent::Stepped(Err(reason)),
            ];
            let run = repair_run(thread, events, recovery);
            &&& run is Some
            &&& run->Some_0.1 == seq![
                RepairActionView::LookForWriter,
                RepairActionView::AcquireAdmission,
                RepairActionView::Finish(Err(reason)),
            ]
        }),
        ({
            let events: Seq<RepairEvent> = seq![
                RepairEvent::Writer(false),
                RepairEvent::Stepped(Ok(())),
                RepairEvent::Stepped(Err(reason)),
            ];
            let run = repair_run(thread, events, recovery);
            &&& run is Some
            &&& run->Some_0.1 == seq![
                RepairActionView::LookForWriter,
                RepairActionView::AcquireAdmission,
                RepairActionView::AcquireSettings,
                RepairActionView::Finish(Err(reason)),
            ]
        }),
{
    let e0 = Seq::<RepairEvent>::empty();
    let a0 = seq![RepairActionView::LookForWriter];
    lemma_repair_starts(
        thread,
        recovery,
        RepairState::FirstLook { thread },
        RepairActionView::LookForWriter,
    );
    lemma_repair_moves(
        thread,
        recovery,
        e0,
        RepairState::FirstLook { thread },
        a0,
        RepairEvent::Writer(false),
        RepairState::Admission { thread },
        RepairActionView::AcquireAdmission,
    );
    let e1 = e0.push(RepairEvent::Writer(false));
    let a1 = a0.push(RepairActionView::AcquireAdmission);
    lemma_repair_moves(
        thread,
        recovery,
        e1,
        RepairState::Admission { thread },
        a1,
        RepairEvent::Stepped(Err(reason)),
        RepairState::Done,
        RepairActionView::Finish(Err(reason)),
    );
    let e2 = e1.push(RepairEvent::Stepped(Err(reason)));
    let a2 = a1.push(RepairActionView::Finish(Err(reason)));
    let all_events = seq![RepairEvent::Writer(false), RepairEvent::Stepped(Err(reason))];
    assert(e2 =~= all_events);
    let all_actions = seq![
        RepairActionView::LookForWriter,
        RepairActionView::AcquireAdmission,
        RepairActionView::Finish(Err(reason)),
    ];
    assert(a2 =~= all_actions);
    lemma_repair_has_run(thread, recovery, e2, RepairState::Done, a2, all_events, all_actions);
    lemma_repair_moves(
        thread,
        recovery,
        e1,
        RepairState::Admission { thread },
        a1,
        RepairEvent::Stepped(Ok(())),
        RepairState::Settings { thread },
        RepairActionView::AcquireSettings,
    );
    let e3 = e1.push(RepairEvent::Stepped(Ok(())));
    let a3 = a1.push(RepairActionView::AcquireSettings);
    lemma_repair_moves(
        thread,
        recovery,
        e3,
        RepairState::Settings { thread },
        a3,
        RepairEvent::Stepped(Err(reason)),
        RepairState::Done,
        RepairActionView::Finish(Err(reason)),
    );
    let e4 = e3.push(RepairEvent::Stepped(Err(reason)));
    let a4 = a3.push(RepairActionView::Finish(Err(reason)));
    let all_events = seq![
        RepairEvent::Writer(false),
        RepairEvent::Stepped(Ok(())),
        RepairEvent::Stepped(Err(reason)),
    ];
    assert(e4 =~= all_events);
    let all_actions = seq![
        RepairActionView::LookForWriter,
        RepairActionView::AcquireAdmission,
        RepairActionView::AcquireSettings,
        RepairActionView::Finish(Err(reason)),
    ];
    assert(a4 =~= all_actions);
    lemma_repair_has_run(thread, recovery, e4, RepairState::Done, a4, all_events, all_actions);
}

/// Nothing is restored while the session shuts down, and a session of the system is not saved.
pub proof fn law_restoration_is_refused_under_its_locks(
    thread: SavedThread,
    recovery: Recovery,
    writer: bool,
    system_agent: bool,
)
    ensures
        ({
            let events: Seq<RepairEvent> = seq![
                RepairEvent::Writer(false),
                RepairEvent::Stepped(Ok(())),
                RepairEvent::Stepped(Ok(())),
                RepairEvent::Locked { repair_open: false, writer, system_agent },
            ];
            let run = repair_run(thread, events, recovery);
            &&& run is Some
            &&& run->Some_0.1 == seq![
                RepairActionView::LookForWriter,
                RepairActionView::AcquireAdmission,
                RepairActionView::AcquireSettings,
                RepairActionView::LockStateAndRepair,
                RepairActionView::Finish(Err(Reason::RepairDuringShutdown)),
            ]
        }),
        ({
            let events: Seq<RepairEvent> = seq![
                RepairEvent::Writer(false),
                RepairEvent::Stepped(Ok(())),
                RepairEvent::Stepped(Ok(())),
                RepairEvent::Locked { repair_open: true, writer: false, system_agent: true },
            ];
            let run = repair_run(thread, events, recovery);
            &&& run is Some
            &&& run->Some_0.1 == seq![
                RepairActionView::LookForWriter,
                RepairActionView::AcquireAdmission,
                RepairActionView::AcquireSettings,
                RepairActionView::LockStateAndRepair,
                RepairActionView::Finish(Err(Reason::RepairSystemAgent)),
            ]
        }),
{
    let e0 = Seq::<RepairEvent>::empty();
    let a0 = seq![RepairActionView::LookForWriter];
    lemma_repair_starts(
        thread,
        recovery,
        RepairState::FirstLook { thread },
        RepairActionView::LookForWriter,
    );
    lemma_repair_moves(
        thread,
        recovery,
        e0,
        RepairState::FirstLook { thread },
        a0,
        RepairEvent::Writer(false),
        RepairState::Admission { thread },
        RepairActionView::AcquireAdmission,
    );
    let e1 = e0.push(RepairEvent::Writer(false));
    let a1 = a0.push(RepairActionView::AcquireAdmission);
    lemma_repair_moves(
        thread,
        recovery,
        e1,
        RepairState::Admission { thread },
        a1,
        RepairEvent::Stepped(Ok(())),
        RepairState::Settings { thread },
        RepairActionView::AcquireSettings,
    );
    let e2 = e1.push(RepairEvent::Stepped(Ok(())));
    let a2 = a1.push(RepairActionView::AcquireSettings);
    lemma_repair_moves(
        thread,
        recovery,
        e2,
        RepairState::Settings { thread },
        a2,
        RepairEvent::Stepped(Ok(())),
        RepairState::Locks { thread },
        RepairActionView::LockStateAndRepair,
    );
    let e3 = e2.push(RepairEvent::Stepped(Ok(())));
    let a3 = a2.push(RepairActionView::LockStateAndRepair);
    lemma_repair_moves(
        thread,
        recovery,
        e3,
        RepairState::Locks { thread },
        a3,
        RepairEvent::Locked { repair_open: false, writer, system_agent },
        RepairState::Done,
        RepairActionView::Finish(Err(Reason::RepairDuringShutdown)),
    );
    let e4 = e3.push(RepairEvent::Locked { repair_open: false, writer, system_agent });
    let a4 = a3.push(RepairActionView::Finish(Err(Reason::RepairDuringShutdown)));
    let all_events = seq![
        RepairEvent::Writer(false),
        RepairEvent::Stepped(Ok(())),
        RepairEvent::Stepped(Ok(())),
        RepairEvent::Locked { repair_open: false, writer, system_agent },
    ];
    assert(e4 =~= all_events);
    let all_actions = seq![
        RepairActionView::LookForWriter,
        RepairActionView::AcquireAdmission,
        RepairActionView::AcquireSettings,
        RepairActionView::LockStateAndRepair,
        RepairActionView::Finish(Err(Reason::RepairDuringShutdown)),
    ];
    assert(a4 =~= all_actions);
    lemma_repair_has_run(thread, recovery, e4, RepairState::Done, a4, all_events, all_actions);
    lemma_repair_moves(
        thread,
        recovery,
        e3,
        RepairState::Locks { thread },
        a3,
        RepairEvent::Locked { repair_open: true, writer: false, system_agent: true },
        RepairState::Done,
        RepairActionView::Finish(Err(Reason::RepairSystemAgent)),
    );
    let e5 = e3.push(RepairEvent::Locked { repair_open: true, writer: false, system_agent: true });
    let a5 = a3.push(RepairActionView::Finish(Err(Reason::RepairSystemAgent)));
    let all_events = seq![
        RepairEvent::Writer(false),
        RepairEvent::Stepped(Ok(())),
        RepairEvent::Stepped(Ok(())),
        RepairEvent::Locked { repair_open: true, writer: false, system_agent: true },
    ];
    assert(e5 =~= all_events);
    let all_actions = seq![
        RepairActionView::LookForWriter,
        RepairActionView::AcquireAdmission,
        RepairActionView::AcquireSettings,
        RepairActionView::LockStateAndRepair,
        RepairActionView::Finish(Err(Reason::RepairSystemAgent)),
    ];
    assert(a5 =~= all_actions);
    lemma_repair_has_run(thread, recovery, e5, RepairState::Done, a5, all_events, all_actions);
}

/// A restoration ends with the reason where the saved thread cannot be read or its writer not
/// resumed, and where the thread keeps its history otherwise than the session.
pub proof fn law_restoration_without_its_thread_ends(
    thread: SavedThread,
    recovery: Recovery,
    reason: Reason,
    mode: ThreadHistoryMode,
)
    requires
        mode != thread.mode,
    ensures
        ({
            let events: Seq<RepairEvent> = seq![
                RepairEvent::Writer(false),
                RepairEvent::Stepped(Ok(())),
                RepairEvent::Stepped(Ok(())),
                RepairEvent::Locked { repair_open: true, writer: false, system_agent: false },
                RepairEvent::Stored(Err(reason)),
            ];
            let run = repair_run(thread, events, recovery);
            &&& run is Some
            &&& run->Some_0.1 == seq![
                RepairActionView::LookForWriter,
                RepairActionView::AcquireAdmission,
                RepairActionView::AcquireSettings,
                RepairActionView::LockStateAndRepair,
                RepairActionView::ReadThread,
                RepairActionView::Finish(Err(reason)),
            ]
        }),
        ({
            let events: Seq<RepairEvent> = seq![
                RepairEvent::Writer(false),
                RepairEvent::Stepped(Ok(())),
                RepairEvent::Stepped(Ok(())),
                RepairEvent::Locked { repair_open: true, writer: false, system_agent: false },
                RepairEvent::Stored(Ok(mode)),
            ];
            let run = repair_run(thread, events, recovery);
            &&& run is Some
            &&& run->Some_0.1 == seq![
                RepairActionView::LookForWriter,
                RepairActionView::AcquireAdmission,
                RepairActionView::AcquireSettings,
                RepairActionView::LockStateAndRepair,
                RepairActionView::ReadThread,
                RepairActionView::Finish(Err(Reason::RepairHistoryMode)),
            ]
        }),
        ({
            let events: Seq<RepairEvent> = seq![
                RepairEvent::Writer(false),
                RepairEvent::Stepped(Ok(())),
                RepairEvent::Stepped(Ok(())),
                RepairEvent::Locked { repair_open: true, writer: false, system_agent: false },
                RepairEvent::Stored(Ok(thread.mode)),
                RepairEvent::Stepped(Err(reason)),
            ];
            let run = repair_run(thread, events, recovery);
            &&& run is Some
            &&& run->Some_0.1 == seq![
                RepairActionView::LookForWriter,
                RepairActionView::AcquireAdmission,
                RepairActionView::AcquireSettings,
                RepairActionView::LockStateAndRepair,
                RepairActionView::ReadThread,
                RepairActionView::ResumeWriter,
                RepairActionView::Finish(Err(reason)),
            ]
        }),
{
    let e0 = Seq::<RepairEvent>::empty();
    let a0 = seq![RepairActionView::LookForWriter];
    lemma_repair_starts(
        thread,
        recovery,
        RepairState::FirstLook { thread },
        RepairActionView::LookForWriter,
    );
    lemma_repair_moves(
        thread,
        recovery,
        e0,
        RepairState::FirstLook { thread },
        a0,
        RepairEvent::Writer(false),
        RepairState::Admission { thread },
        RepairActionView::AcquireAdmission,
    );
    let e1 = e0.push(RepairEvent::Writer(false));
    let a1 = a0.push(RepairActionView::AcquireAdmission);
    lemma_repair_moves(
        thread,
        recovery,
        e1,
        RepairState::Admission { thread },
        a1,
        RepairEvent::Stepped(Ok(())),
        RepairState::Settings { thread },
        RepairActionView::AcquireSettings,
    );
    let e2 = e1.push(RepairEvent::Stepped(Ok(())));
    let a2 = a1.push(RepairActionView::AcquireSettings);
    lemma_repair_moves(
        thread,
        recovery,
        e2,
        RepairState::Settings { thread },
        a2,
        RepairEvent::Stepped(Ok(())),
        RepairState::Locks { thread },
        RepairActionView::LockStateAndRepair,
    );
    let e3 = e2.push(RepairEvent::Stepped(Ok(())));
    let a3 = a2.push(RepairActionView::LockStateAndRepair);
    lemma_repair_moves(
        thread,
        recovery,
        e3,
        RepairState::Locks { thread },
        a3,
        RepairEvent::Locked { repair_open: true, writer: false, system_agent: false },
        RepairState::Stored { thread },
        RepairActionView::ReadThread,
    );
    let e4 = e3.push(RepairEvent::Locked { repair_open: true, writer: false, system_agent: false });
    let a4 = a3.push(RepairActionView::ReadThread);
    lemma_repair_moves(
        thread,
        recovery,
        e4,
        RepairState::Stored { thread },
        a4,
        RepairEvent::Stored(Err(reason)),
        RepairState::Done,
        RepairActionView::Finish(Err(reason)),
    );
    let e5 = e4.push(RepairEvent::Stored(Err(reason)));
    let a5 = a4.push(RepairActionView::Finish(Err(reason)));
    let all_events = seq![
        RepairEvent::Writer(false),
        RepairEvent::Stepped(Ok(())),
        RepairEvent::Stepped(Ok(())),
        RepairEvent::Locked { repair_open: true, writer: false, system_agent: false },
        RepairEvent::Stored(Err(reason)),
    ];
    assert(e5 =~= all_events);
    let all_actions = seq![
        RepairActionView::LookForWriter,
        RepairActionView::AcquireAdmission,
        RepairActionView::AcquireSettings,
        RepairActionView::LockStateAndRepair,
        RepairActionView::ReadThread,
        RepairActionView::Finish(Err(reason)),
    ];
    assert(a5 =~= all_actions);
    lemma_repair_has_run(thread, recovery, e5, RepairState::Done, a5, all_events, all_actions);
    lemma_repair_moves(
        thread,
        recovery,
        e4,
        RepairState::Stored { thread },
        a4,
        RepairEvent::Stored(Ok(mode)),
        RepairState::Done,
        RepairActionView::Finish(Err(Reason::RepairHistoryMode)),
    );
    let e6 = e4.push(RepairEvent::Stored(Ok(mode)));
    let a6 = a4.push(RepairActionView::Finish(Err(Reason::RepairHistoryMode)));
    let all_events = seq![
        RepairEvent::Writer(false),
        RepairEvent::Stepped(Ok(())),
        RepairEvent::Stepped(Ok(())),
        RepairEvent::Locked { repair_open: true, writer: false, system_agent: false },
        RepairEvent::Stored(Ok(mode)),
    ];
    assert(e6 =~= all_events);
    let all_actions = seq![
        RepairActionView::LookForWriter,
        RepairActionView::AcquireAdmission,
        RepairActionView::AcquireSettings,
        RepairActionView::LockStateAndRepair,
        RepairActionView::ReadThread,
        RepairActionView::Finish(Err(Reason::RepairHistoryMode)),
    ];
    assert(a6 =~= all_actions);
    lemma_repair_has_run(thread, recovery, e6, RepairState::Done, a6, all_events, all_actions);
    lemma_repair_moves(
        thread,
        recovery,
        e4,
        RepairState::Stored { thread },
        a4,
        RepairEvent::Stored(Ok(thread.mode)),
        RepairState::Writer { thread },
        RepairActionView::ResumeWriter,
    );
    let e7 = e4.push(RepairEvent::Stored(Ok(thread.mode)));
    let a7 = a4.push(RepairActionView::ResumeWriter);
    lemma_repair_moves(
        thread,
        recovery,
        e7,
        RepairState::Writer { thread },
        a7,
        RepairEvent::Stepped(Err(reason)),
        RepairState::Done,
        RepairActionView::Finish(Err(reason)),
    );
    let e8 = e7.push(RepairEvent::Stepped(Err(reason)));
    let a8 = a7.push(RepairActionView::Finish(Err(reason)));
    let all_events = seq![
        RepairEvent::Writer(false),
        RepairEvent::Stepped(Ok(())),
        RepairEvent::Stepped(Ok(())),
        RepairEvent::Locked { repair_open: true, writer: false, system_agent: false },
        RepairEvent::Stored(Ok(thread.mode)),
        RepairEvent::Stepped(Err(reason)),
    ];
    assert(e8 =~= all_events);
    let all_actions = seq![
        RepairActionView::LookForWriter,
        RepairActionView::AcquireAdmission,
        RepairActionView::AcquireSettings,
        RepairActionView::LockStateAndRepair,
        RepairActionView::ReadThread,
        RepairActionView::ResumeWriter,
        RepairActionView::Finish(Err(reason)),
    ];
    assert(a8 =~= all_actions);
    lemma_repair_has_run(thread, recovery, e8, RepairState::Done, a8, all_events, all_actions);
}

/// A restoration that cannot load what is saved, or cannot compare it, gives its writer up and
/// ends with the reason; nothing is appended.
pub proof fn law_restoration_without_its_histories_gives_its_writer_up(
    thread: SavedThread,
    recovery: Recovery,
    saved: Vec<RolloutItem>,
    reason: Reason,
)
    requires
        thread.mode != ThreadHistoryMode::Paginated,
    ensures
        ({
            let events: Seq<RepairEvent> = seq![
                RepairEvent::Writer(false),
                RepairEvent::Stepped(Ok(())),
                RepairEvent::Stepped(Ok(())),
                RepairEvent::Locked { repair_open: true, writer: false, system_agent: false },
                RepairEvent::Stored(Ok(thread.mode)),
                RepairEvent::Stepped(Ok(())),
                RepairEvent::Loaded(Err(reason)),
                RepairEvent::CleanedUp,
            ];
            let run = repair_run(thread, events, recovery);
            &&& run is Some
            &&& run->Some_0.1 == seq![
                RepairActionView::LookForWriter,
                RepairActionView::AcquireAdmission,
                RepairActionView::AcquireSettings,
                RepairActionView::LockStateAndRepair,
                RepairActionView::ReadThread,
                RepairActionView::ResumeWriter,
                RepairActionView::LoadSaved { latest_context_only: false },
                RepairActionView::DiscardWriter,
                RepairActionView::Finish(Err(reason)),
            ]
        }),
        ({
            let events: Seq<RepairEvent> = seq![
                RepairEvent::Writer(false),
                RepairEvent::Stepped(Ok(())),
                RepairEvent::Stepped(Ok(())),
                RepairEvent::Locked { repair_open: true, writer: false, system_agent: false },
                RepairEvent::Stored(Ok(thread.mode)),
                RepairEvent::Stepped(Ok(())),
                RepairEvent::Loaded(Ok(saved)),
                RepairEvent::Compared(Err(reason)),
                RepairEvent::CleanedUp,
            ];
            let run = repair_run(thread, events, recovery);
            &&& run is Some
            &&& run->Some_0.1 == seq![
                RepairActionView::LookForWriter,
                RepairActionView::AcquireAdmission,
                RepairActionView::AcquireSettings,
                RepairActionView::LockStateAndRepair,
                RepairActionView::ReadThread,
                RepairActionView::ResumeWriter,
                RepairActionView::LoadSaved { latest_context_only: false },
                RepairActionView::CompareHistories,
                RepairActionView::DiscardWriter,
                RepairActionView::Finish(Err(reason)),
            ]
        }),
{
    let e0 = Seq::<RepairEvent>::empty();
    let a0 = seq![RepairActionView::LookForWriter];
    lemma_repair_starts(
        thread,
        recovery,
        RepairState::FirstLook { thread },
        RepairActionView::LookForWriter,
    );
    lemma_repair_moves(
        thread,
        recovery,
        e0,
        RepairState::FirstLook { thread },
        a0,
        RepairEvent::Writer(false),
        RepairState::Admission { thread },
        RepairActionView::AcquireAdmission,
    );
    let e1 = e0.push(RepairEvent::Writer(false));
    let a1 = a0.push(RepairActionView::AcquireAdmission);
    lemma_repair_moves(
        thread,
        recovery,
        e1,
        RepairState::Admission { thread },
        a1,
        RepairEvent::Stepped(Ok(())),
        RepairState::Settings { thread },
        RepairActionView::AcquireSettings,
    );
    let e2 = e1.push(RepairEvent::Stepped(Ok(())));
    let a2 = a1.push(RepairActionView::AcquireSettings);
    lemma_repair_moves(
        thread,
        recovery,
        e2,
        RepairState::Settings { thread },
        a2,
        RepairEvent::Stepped(Ok(())),
        RepairState::Locks { thread },
        RepairActionView::LockStateAndRepair,
    );
    let e3 = e2.push(RepairEvent::Stepped(Ok(())));
    let a3 = a2.push(RepairActionView::LockStateAndRepair);
    lemma_repair_moves(
        thread,
        recovery,
        e3,
        RepairState::Locks { thread },
        a3,
        RepairEvent::Locked { repair_open: true, writer: false, system_agent: false },
        RepairState::Stored { thread },
        RepairActionView::ReadThread,
    );
    let e4 = e3.push(RepairEvent::Locked { repair_open: true, writer: false, system_agent: false });
    let a4 = a3.push(RepairActionView::ReadThread);
    lemma_repair_moves(
        thread,
        recovery,
        e4,
        RepairState::Stored { thread },
        a4,
        RepairEvent::Stored(Ok(thread.mode)),
        RepairState::Writer { thread },
        RepairActionView::ResumeWriter,
    );
    let e5 = e4.push(RepairEvent::Stored(Ok(thread.mode)));
    let a5 = a4.push(RepairActionView::ResumeWriter);
    lemma_repair_moves(
        thread,
        recovery,
        e5,
        RepairState::Writer { thread },
        a5,
        RepairEvent::Stepped(Ok(())),
        RepairState::Saved { thread },
        RepairActionView::LoadSaved { latest_context_only: false },
    );
    let e6 = e5.push(RepairEvent::Stepped(Ok(())));
    let a6 = a5.push(RepairActionView::LoadSaved { latest_context_only: false });
    lemma_repair_moves(
        thread,
        recovery,
        e6,
        RepairState::Saved { thread },
        a6,
        RepairEvent::Loaded(Err(reason)),
        RepairState::Cleanup { reason: reason },
        RepairActionView::DiscardWriter,
    );
    let e7 = e6.push(RepairEvent::Loaded(Err(reason)));
    let a7 = a6.push(RepairActionView::DiscardWriter);
    lemma_repair_moves(
        thread,
        recovery,
        e7,
        RepairState::Cleanup { reason: reason },
        a7,
        RepairEvent::CleanedUp,
        RepairState::Done,
        RepairActionView::Finish(Err(reason)),
    );
    let e8 = e7.push(RepairEvent::CleanedUp);
    let a8 = a7.push(RepairActionView::Finish(Err(reason)));
    let all_events = seq![
        RepairEvent::Writer(false),
        RepairEvent::Stepped(Ok(())),
        RepairEvent::Stepped(Ok(())),
        RepairEvent::Locked { repair_open: true, writer: false, system_agent: false },
        RepairEvent::Stored(Ok(thread.mode)),
        RepairEvent::Stepped(Ok(())),
        RepairEvent::Loaded(Err(reason)),
        RepairEvent::CleanedUp,
    ];
    assert(e8 =~= all_events);
    let all_actions = seq![
        RepairActionView::LookForWriter,
        RepairActionView::AcquireAdmission,
        RepairActionView::AcquireSettings,
        RepairActionView::LockStateAndRepair,
        RepairActionView::ReadThread,
        RepairActionView::ResumeWriter,
        RepairActionView::LoadSaved { latest_context_only: false },
        RepairActionView::DiscardWriter,
        RepairActionView::Finish(Err(reason)),
    ];
    assert(a8 =~= all_actions);
    lemma_repair_has_run(thread, recovery, e8, RepairState::Done, a8, all_events, all_actions);
    lemma_repair_moves(
        thread,
        recovery,
        e6,
        RepairState::Saved { thread },
        a6,
        RepairEvent::Loaded(Ok(saved)),
        RepairState::Comparison { thread, saved },
        RepairActionView::CompareHistories,
    );
    let e9 = e6.push(RepairEvent::Loaded(Ok(saved)));
    let a9 = a6.push(RepairActionView::CompareHistories);
    lemma_repair_moves(
        thread,
        recovery,
        e9,
        RepairState::Comparison { thread, saved },
        a9,
        RepairEvent::Compared(Err(reason)),
        RepairState::Cleanup { reason: reason },
        RepairActionView::DiscardWriter,
    );
    let e10 = e9.push(RepairEvent::Compared(Err(reason)));
    let a10 = a9.push(RepairActionView::DiscardWriter);
    lemma_repair_moves(
        thread,
        recovery,
        e10,
        RepairState::Cleanup { reason: reason },
        a10,
        RepairEvent::CleanedUp,
        RepairState::Done,
        RepairActionView::Finish(Err(reason)),
    );
    let e11 = e10.push(RepairEvent::CleanedUp);
    let a11 = a10.push(RepairActionView::Finish(Err(reason)));
    let all_events = seq![
        RepairEvent::Writer(false),
        RepairEvent::Stepped(Ok(())),
        RepairEvent::Stepped(Ok(())),
        RepairEvent::Locked { repair_open: true, writer: false, system_agent: false },
        RepairEvent::Stored(Ok(thread.mode)),
        RepairEvent::Stepped(Ok(())),
        RepairEvent::Loaded(Ok(saved)),
        RepairEvent::Compared(Err(reason)),
        RepairEvent::CleanedUp,
    ];
    assert(e11 =~= all_events);
    let all_actions = seq![
        RepairActionView::LookForWriter,
        RepairActionView::AcquireAdmission,
        RepairActionView::AcquireSettings,
        RepairActionView::LockStateAndRepair,
        RepairActionView::ReadThread,
        RepairActionView::ResumeWriter,
        RepairActionView::LoadSaved { latest_context_only: false },
        RepairActionView::CompareHistories,
        RepairActionView::DiscardWriter,
        RepairActionView::Finish(Err(reason)),
    ];
    assert(a11 =~= all_actions);
    lemma_repair_has_run(thread, recovery, e11, RepairState::Done, a11, all_events, all_actions);
}

/// A restoration whose records are not appended, or not flushed, gives its writer up and ends with
/// the reason.
pub proof fn law_restoration_that_is_not_saved_gives_its_writer_up(
    thread: SavedThread,
    recovery: Recovery,
    saved: Vec<RolloutItem>,
    histories: Histories,
    legacy_events: Vec<Vec<String>>,
    checkpoint: Vec<RolloutItem>,
    now_ms: i64,
    reason: Reason,
)
    requires
        thread.mode != ThreadHistoryMode::Paginated,
        legacy_events@.len() == recovery.presentations@.len(),
    ensures
        ({
            let events: Seq<RepairEvent> = seq![
                RepairEvent::Writer(false),
                RepairEvent::Stepped(Ok(())),
                RepairEvent::Stepped(Ok(())),
                RepairEvent::Locked { repair_open: true, writer: false, system_agent: false },
                RepairEvent::Stored(Ok(thread.mode)),
                RepairEvent::Stepped(Ok(())),
                RepairEvent::Loaded(Ok(saved)),
                RepairEvent::Compared(Ok(histories)),
                RepairEvent::Presented { legacy_events, checkpoint, now_ms },
                RepairEvent::Stepped(Err(reason)),
                RepairEvent::CleanedUp,
            ];
            let run = repair_run(thread, events, recovery);
            &&& run is Some
            &&& run->Some_0.1 == seq![
                RepairActionView::LookForWriter,
                RepairActionView::AcquireAdmission,
                RepairActionView::AcquireSettings,
                RepairActionView::LockStateAndRepair,
                RepairActionView::ReadThread,
                RepairActionView::ResumeWriter,
                RepairActionView::LoadSaved { latest_context_only: false },
                RepairActionView::CompareHistories,
                RepairActionView::Present(shown_items(recovery.presentations@)),
                RepairActionView::Append(
                    restored(
                        thread.thread_id,
                        thread.mode,
                        known_turns(None, saved@),
                        with_legacy_events(recovery.presentations@, legacy_events@),
                        recovery.recovered@,
                        checkpoint@,
                        now_ms,
                    ),
                ),
                RepairActionView::DiscardWriter,
                RepairActionView::Finish(Err(reason)),
            ]
        }),
        ({
            let events: Seq<RepairEvent> = seq![
                RepairEvent::Writer(false),
                RepairEvent::Stepped(Ok(())),
                RepairEvent::Stepped(Ok(())),
                RepairEvent::Locked { repair_open: true, writer: false, system_agent: false },
                RepairEvent::Stored(Ok(thread.mode)),
                RepairEvent::Stepped(Ok(())),
                RepairEvent::Loaded(Ok(saved)),
                RepairEvent::Compared(Ok(histories)),
                RepairEvent::Presented { legacy_events, checkpoint, now_ms },
                RepairEvent::Stepped(Ok(())),
                RepairEvent::Stepped(Err(reason)),
                RepairEvent::CleanedUp,
            ];
            let run = repair_run(thread, events, recovery);
            &&& run is Some
            &&& run->Some_0.1 == seq![
                RepairActionView::LookForWriter,
                RepairActionView::AcquireAdmission,
                RepairActionView::AcquireSettings,
                RepairActionView::LockStateAndRepair,
                RepairActionView::ReadThread,
                RepairActionView::ResumeWriter,
                RepairActionView::LoadSaved { latest_context_only: false },
                RepairActionView::CompareHistories,
                RepairActionView::Present(shown_items(recovery.presentations@)),
                RepairActionView::Append(
                    restored(
                        thread.thread_id,
                        thread.mode,
                        known_turns(None, saved@),
                        with_legacy_events(recovery.presentations@, legacy_events@),
                        recovery.recovered@,
                        checkpoint@,
                        now_ms,
                    ),
                ),
                RepairActionView::Flush,
                RepairActionView::DiscardWriter,
                RepairActionView::Finish(Err(reason)),
            ]
        }),
{
    let e0 = Seq::<RepairEvent>::empty();
    let a0 = seq![RepairActionView::LookForWriter];
    lemma_repair_starts(
        thread,
        recovery,
        RepairState::FirstLook { thread },
        RepairActionView::LookForWriter,
    );
    lemma_repair_moves(
        thread,
        recovery,
        e0,
        RepairState::FirstLook { thread },
        a0,
        RepairEvent::Writer(false),
        RepairState::Admission { thread },
        RepairActionView::AcquireAdmission,
    );
    let e1 = e0.push(RepairEvent::Writer(false));
    let a1 = a0.push(RepairActionView::AcquireAdmission);
    lemma_repair_moves(
        thread,
        recovery,
        e1,
        RepairState::Admission { thread },
        a1,
        RepairEvent::Stepped(Ok(())),
        RepairState::Settings { thread },
        RepairActionView::AcquireSettings,
    );
    let e2 = e1.push(RepairEvent::Stepped(Ok(())));
    let a2 = a1.push(RepairActionView::AcquireSettings);
    lemma_repair_moves(
        thread,
        recovery,
        e2,
        RepairState::Settings { thread },
        a2,
        RepairEvent::Stepped(Ok(())),
        RepairState::Locks { thread },
        RepairActionView::LockStateAndRepair,
    );
    let e3 = e2.push(RepairEvent::Stepped(Ok(())));
    let a3 = a2.push(RepairActionView::LockStateAndRepair);
    lemma_repair_moves(
        thread,
        recovery,
        e3,
        RepairState::Locks { thread },
        a3,
        RepairEvent::Locked { repair_open: true, writer: false, system_agent: false },
        RepairState::Stored { thread },
        RepairActionView::ReadThread,
    );
    let e4 = e3.push(RepairEvent::Locked { repair_open: true, writer: false, system_agent: false });
    let a4 = a3.push(RepairActionView::ReadThread);
    lemma_repair_moves(
        thread,
        recovery,
        e4,
        RepairState::Stored { thread },
        a4,
        RepairEvent::Stored(Ok(thread.mode)),
        RepairState::Writer { thread },
        RepairActionView::ResumeWriter,
    );
    let e5 = e4.push(RepairEvent::Stored(Ok(thread.mode)));
    let a5 = a4.push(RepairActionView::ResumeWriter);
    lemma_repair_moves(
        thread,
        recovery,
        e5,
        RepairState::Writer { thread },
        a5,
        RepairEvent::Stepped(Ok(())),
        RepairState::Saved { thread },
        RepairActionView::LoadSaved { latest_context_only: false },
    );
    let e6 = e5.push(RepairEvent::Stepped(Ok(())));
    let a6 = a5.push(RepairActionView::LoadSaved { latest_context_only: false });
    lemma_repair_moves(
        thread,
        recovery,
        e6,
        RepairState::Saved { thread },
        a6,
        RepairEvent::Loaded(Ok(saved)),
        RepairState::Comparison { thread, saved },
        RepairActionView::CompareHistories,
    );
    let e7 = e6.push(RepairEvent::Loaded(Ok(saved)));
    let a7 = a6.push(RepairActionView::CompareHistories);
    lemma_repair_moves(
        thread,
        recovery,
        e7,
        RepairState::Comparison { thread, saved },
        a7,
        RepairEvent::Compared(Ok(histories)),
        RepairState::Presentation { thread, saved, recovery, looked_up: None },
        RepairActionView::Present(shown_items(recovery.presentations@)),
    );
    let e8 = e7.push(RepairEvent::Compared(Ok(histories)));
    let a8 = a7.push(RepairActionView::Present(shown_items(recovery.presentations@)));
    lemma_repair_moves(
        thread,
        recovery,
        e8,
        RepairState::Presentation { thread, saved, recovery, looked_up: None },
        a8,
        RepairEvent::Presented { legacy_events, checkpoint, now_ms },
        RepairState::Append,
        RepairActionView::Append(
            restored(
                thread.thread_id,
                thread.mode,
                known_turns(None, saved@),
                with_legacy_events(recovery.presentations@, legacy_events@),
                recovery.recovered@,
                checkpoint@,
                now_ms,
            ),
        ),
    );
    let e9 = e8.push(RepairEvent::Presented { legacy_events, checkpoint, now_ms });
    let a9 = a8.push(
        RepairActionView::Append(
            restored(
                thread.thread_id,
                thread.mode,
                known_turns(None, saved@),
                with_legacy_events(recovery.presentations@, legacy_events@),
                recovery.recovered@,
                checkpoint@,
                now_ms,
            ),
        ),
    );
    lemma_repair_moves(
        thread,
        recovery,
        e9,
        RepairState::Append,
        a9,
        RepairEvent::Stepped(Err(reason)),
        RepairState::Cleanup { reason: reason },
        RepairActionView::DiscardWriter,
    );
    let e10 = e9.push(RepairEvent::Stepped(Err(reason)));
    let a10 = a9.push(RepairActionView::DiscardWriter);
    lemma_repair_moves(
        thread,
        recovery,
        e10,
        RepairState::Cleanup { reason: reason },
        a10,
        RepairEvent::CleanedUp,
        RepairState::Done,
        RepairActionView::Finish(Err(reason)),
    );
    let e11 = e10.push(RepairEvent::CleanedUp);
    let a11 = a10.push(RepairActionView::Finish(Err(reason)));
    let all_events = seq![
        RepairEvent::Writer(false),
        RepairEvent::Stepped(Ok(())),
        RepairEvent::Stepped(Ok(())),
        RepairEvent::Locked { repair_open: true, writer: false, system_agent: false },
        RepairEvent::Stored(Ok(thread.mode)),
        RepairEvent::Stepped(Ok(())),
        RepairEvent::Loaded(Ok(saved)),
        RepairEvent::Compared(Ok(histories)),
        RepairEvent::Presented { legacy_events, checkpoint, now_ms },
        RepairEvent::Stepped(Err(reason)),
        RepairEvent::CleanedUp,
    ];
    assert(e11 =~= all_events);
    let all_actions = seq![
        RepairActionView::LookForWriter,
        RepairActionView::AcquireAdmission,
        RepairActionView::AcquireSettings,
        RepairActionView::LockStateAndRepair,
        RepairActionView::ReadThread,
        RepairActionView::ResumeWriter,
        RepairActionView::LoadSaved { latest_context_only: false },
        RepairActionView::CompareHistories,
        RepairActionView::Present(shown_items(recovery.presentations@)),
        RepairActionView::Append(
            restored(
                thread.thread_id,
                thread.mode,
                known_turns(None, saved@),
                with_legacy_events(recovery.presentations@, legacy_events@),
                recovery.recovered@,
                checkpoint@,
                now_ms,
            ),
        ),
        RepairActionView::DiscardWriter,
        RepairActionView::Finish(Err(reason)),
    ];
    assert(a11 =~= all_actions);
    lemma_repair_has_run(thread, recovery, e11, RepairState::Done, a11, all_events, all_actions);
    lemma_repair_moves(
        thread,
        recovery,
        e9,
        RepairState::Append,
        a9,
        RepairEvent::Stepped(Ok(())),
        RepairState::Flush,
        RepairActionView::Flush,
    );
    let e12 = e9.push(RepairEvent::Stepped(Ok(())));
    let a12 = a9.push(RepairActionView::Flush);
    lemma_repair_moves(
        thread,
        recovery,
        e12,
        RepairState::Flush,
        a12,
        RepairEvent::Stepped(Err(reason)),
        RepairState::Cleanup { reason: reason },
        RepairActionView::DiscardWriter,
    );
    let e13 = e12.push(RepairEvent::Stepped(Err(reason)));
    let a13 = a12.push(RepairActionView::DiscardWriter);
    lemma_repair_moves(
        thread,
        recovery,
        e13,
        RepairState::Cleanup { reason: reason },
        a13,
        RepairEvent::CleanedUp,
        RepairState::Done,
        RepairActionView::Finish(Err(reason)),
    );
    let e14 = e13.push(RepairEvent::CleanedUp);
    let a14 = a13.push(RepairActionView::Finish(Err(reason)));
    let all_events = seq![
        RepairEvent::Writer(false),
        RepairEvent::Stepped(Ok(())),
        RepairEvent::Stepped(Ok(())),
        RepairEvent::Locked { repair_open: true, writer: false, system_agent: false },
        RepairEvent::Stored(Ok(thread.mode)),
        RepairEvent::Stepped(Ok(())),
        RepairEvent::Loaded(Ok(saved)),
        RepairEvent::Compared(Ok(histories)),
        RepairEvent::Presented { legacy_events, checkpoint, now_ms },
        RepairEvent::Stepped(Ok(())),
        RepairEvent::Stepped(Err(reason)),
        RepairEvent::CleanedUp,
    ];
    assert(e14 =~= all_events);
    let all_actions = seq![
        RepairActionView::LookForWriter,
        RepairActionView::AcquireAdmission,
        RepairActionView::AcquireSettings,
        RepairActionView::LockStateAndRepair,
        RepairActionView::ReadThread,
        RepairActionView::ResumeWriter,
        RepairActionView::LoadSaved { latest_context_only: false },
        RepairActionView::CompareHistories,
        RepairActionView::Present(shown_items(recovery.presentations@)),
        RepairActionView::Append(
            restored(
                thread.thread_id,
                thread.mode,
                known_turns(None, saved@),
                with_legacy_events(recovery.presentations@, legacy_events@),
                recovery.recovered@,
                checkpoint@,
                now_ms,
            ),
        ),
        RepairActionView::Flush,
        RepairActionView::DiscardWriter,
        RepairActionView::Finish(Err(reason)),
    ];
    assert(a14 =~= all_actions);
    lemma_repair_has_run(thread, recovery, e14, RepairState::Done, a14, all_events, all_actions);
}

/// A restoration whose rollout or database cannot be found gives its writer up and ends with the
/// reason.
pub proof fn law_restoration_that_is_not_found_again_gives_its_writer_up(
    thread: SavedThread,
    recovery: Recovery,
    saved: Vec<RolloutItem>,
    histories: Histories,
    legacy_events: Vec<Vec<String>>,
    checkpoint: Vec<RolloutItem>,
    now_ms: i64,
    rollout_path: Option<String>,
    reason: Reason,
)
    requires
        thread.mode != ThreadHistoryMode::Paginated,
        legacy_events@.len() == recovery.presentations@.len(),
    ensures
        ({
            let events: Seq<RepairEvent> = seq![
                RepairEvent::Writer(false),
                RepairEvent::Stepped(Ok(())),
                RepairEvent::Stepped(Ok(())),
                RepairEvent::Locked { repair_open: true, writer: false, system_agent: false },
                RepairEvent::Stored(Ok(thread.mode)),
                RepairEvent::Stepped(Ok(())),
                RepairEvent::Loaded(Ok(saved)),
                RepairEvent::Compared(Ok(histories)),
                RepairEvent::Presented { legacy_events, checkpoint, now_ms },
                RepairEvent::Stepped(Ok(())),
                RepairEvent::Stepped(Ok(())),
                RepairEvent::RolloutPath(Err(reason)),
                RepairEvent::CleanedUp,
            ];
            let run = repair_run(thread, events, recovery);
            &&& run is Some
            &&& run->Some_0.1 == seq![
                RepairActionView::LookForWriter,
                RepairActionView::AcquireAdmission,
                RepairActionView::AcquireSettings,
                RepairActionView::LockStateAndRepair,
                RepairActionView::ReadThread,
                RepairActionView::ResumeWriter,
                RepairActionView::LoadSaved { latest_context_only: false },
                RepairActionView::CompareHistories,
                RepairActionView::Present(shown_items(recovery.presentations@)),
                RepairActionView::Append(
                    restored(
                        thread.thread_id,
                        thread.mode,
                        known_turns(None, saved@),
                        with_legacy_events(recovery.presentations@, legacy_events@),
                        recovery.recovered@,
                        checkpoint@,
                        now_ms,
                    ),
                ),
                RepairActionView::Flush,
                RepairActionView::ResolveRollout,
                RepairActionView::DiscardWriter,
                RepairActionView::Finish(Err(reason)),
            ]
        }),
        ({
            let events: Seq<RepairEvent> = seq![
                RepairEvent::Writer(false),
                RepairEvent::Stepped(Ok(())),
                RepairEvent::Stepped(Ok(())),
                RepairEvent::Locked { repair_open: true, writer: false, system_agent: false },
                RepairEvent::Stored(Ok(thread.mode)),
                RepairEvent::Stepped(Ok(())),
                RepairEvent::Loaded(Ok(saved)),
                RepairEvent::Compared(Ok(histories)),
                RepairEvent::Presented { legacy_events, checkpoint, now_ms },
                RepairEvent::Stepped(Ok(())),
                RepairEvent::Stepped(Ok(())),
                RepairEvent::RolloutPath(Ok(rollout_path)),
                RepairEvent::Stepped(Err(reason)),
                RepairEvent::CleanedUp,
            ];
            let run = repair_run(thread, events, recovery);
            &&& run is Some
            &&& run->Some_0.1 == seq![
                RepairActionView::LookForWriter,
                RepairActionView::AcquireAdmission,
                RepairActionView::AcquireSettings,
                RepairActionView::LockStateAndRepair,
                RepairActionView::ReadThread,
                RepairActionView::ResumeWriter,
                RepairActionView::LoadSaved { latest_context_only: false },
                RepairActionView::CompareHistories,
                RepairActionView::Present(shown_items(recovery.presentations@)),
                RepairActionView::Append(
                    restored(
                        thread.thread_id,
                        thread.mode,
                        known_turns(None, saved@),
                        with_legacy_events(recovery.presentations@, legacy_events@),
                        recovery.recovered@,
                        checkpoint@,
                        now_ms,
                    ),
                ),
                RepairActionView::Flush,
                RepairActionView::ResolveRollout,
                RepairActionView::OpenDatabase,
                RepairActionView::DiscardWriter,
                RepairActionView::Finish(Err(reason)),
            ]
        }),
{
    let e0 = Seq::<RepairEvent>::empty();
    let a0 = seq![RepairActionView::LookForWriter];
    lemma_repair_starts(
        thread,
        recovery,
        RepairState::FirstLook { thread },
        RepairActionView::LookForWriter,
    );
    lemma_repair_moves(
        thread,
        recovery,
        e0,
        RepairState::FirstLook { thread },
        a0,
        RepairEvent::Writer(false),
        RepairState::Admission { thread },
        RepairActionView::AcquireAdmission,
    );
    let e1 = e0.push(RepairEvent::Writer(false));
    let a1 = a0.push(RepairActionView::AcquireAdmission);
    lemma_repair_moves(
        thread,
        recovery,
        e1,
        RepairState::Admission { thread },
        a1,
        RepairEvent::Stepped(Ok(())),
        RepairState::Settings { thread },
        RepairActionView::AcquireSettings,
    );
    let e2 = e1.push(RepairEvent::Stepped(Ok(())));
    let a2 = a1.push(RepairActionView::AcquireSettings);
    lemma_repair_moves(
        thread,
        recovery,
        e2,
        RepairState::Settings { thread },
        a2,
        RepairEvent::Stepped(Ok(())),
        RepairState::Locks { thread },
        RepairActionView::LockStateAndRepair,
    );
    let e3 = e2.push(RepairEvent::Stepped(Ok(())));
    let a3 = a2.push(RepairActionView::LockStateAndRepair);
    lemma_repair_moves(
        thread,
        recovery,
        e3,
        RepairState::Locks { thread },
        a3,
        RepairEvent::Locked { repair_open: true, writer: false, system_agent: false },
        RepairState::Stored { thread },
        RepairActionView::ReadThread,
    );
    let e4 = e3.push(RepairEvent::Locked { repair_open: true, writer: false, system_agent: false });
    let a4 = a3.push(RepairActionView::ReadThread);
    lemma_repair_moves(
        thread,
        recovery,
        e4,
        RepairState::Stored { thread },
        a4,
        RepairEvent::Stored(Ok(thread.mode)),
        RepairState::Writer { thread },
        RepairActionView::ResumeWriter,
    );
    let e5 = e4.push(RepairEvent::Stored(Ok(thread.mode)));
    let a5 = a4.push(RepairActionView::ResumeWriter);
    lemma_repair_moves(
        thread,
        recovery,
        e5,
        RepairState::Writer { thread },
        a5,
        RepairEvent::Stepped(Ok(())),
        RepairState::Saved { thread },
        RepairActionView::LoadSaved { latest_context_only: false },
    );
    let e6 = e5.push(RepairEvent::Stepped(Ok(())));
    let a6 = a5.push(RepairActionView::LoadSaved { latest_context_only: false });
    lemma_repair_moves(
        thread,
        recovery,
        e6,
        RepairState::Saved { thread },
        a6,
        RepairEvent::Loaded(Ok(saved)),
        RepairState::Comparison { thread, saved },
        RepairActionView::CompareHistories,
    );
    let e7 = e6.push(RepairEvent::Loaded(Ok(saved)));
    let a7 = a6.push(RepairActionView::CompareHistories);
    lemma_repair_moves(
        thread,
        recovery,
        e7,
        RepairState::Comparison { thread, saved },
        a7,
        RepairEvent::Compared(Ok(histories)),
        RepairState::Presentation { thread, saved, recovery, looked_up: None },
        RepairActionView::Present(shown_items(recovery.presentations@)),
    );
    let e8 = e7.push(RepairEvent::Compared(Ok(histories)));
    let a8 = a7.push(RepairActionView::Present(shown_items(recovery.presentations@)));
    lemma_repair_moves(
        thread,
        recovery,
        e8,
        RepairState::Presentation { thread, saved, recovery, looked_up: None },
        a8,
        RepairEvent::Presented { legacy_events, checkpoint, now_ms },
        RepairState::Append,
        RepairActionView::Append(
            restored(
                thread.thread_id,
                thread.mode,
                known_turns(None, saved@),
                with_legacy_events(recovery.presentations@, legacy_events@),
                recovery.recovered@,
                checkpoint@,
                now_ms,
            ),
        ),
    );
    let e9 = e8.push(RepairEvent::Presented { legacy_events, checkpoint, now_ms });
    let a9 = a8.push(
        RepairActionView::Append(
            restored(
                thread.thread_id,
                thread.mode,
                known_turns(None, saved@),
                with_legacy_events(recovery.presentations@, legacy_events@),
                recovery.recovered@,
                checkpoint@,
                now_ms,
            ),
        ),
    );
    lemma_repair_moves(
        thread,
        recovery,
        e9,
        RepairState::Append,
        a9,
        RepairEvent::Stepped(Ok(())),
        RepairState::Flush,
        RepairActionView::Flush,
    );
    let e10 = e9.push(RepairEvent::Stepped(Ok(())));
    let a10 = a9.push(RepairActionView::Flush);
    lemma_repair_moves(
        thread,
        recovery,
        e10,
        RepairState::Flush,
        a10,
        RepairEvent::Stepped(Ok(())),
        RepairState::RolloutPath,
        RepairActionView::ResolveRollout,
    );
    let e11 = e10.push(RepairEvent::Stepped(Ok(())));
    let a11 = a10.push(RepairActionView::ResolveRollout);
    lemma_repair_moves(
        thread,
        recovery,
        e11,
        RepairState::RolloutPath,
        a11,
        RepairEvent::RolloutPath(Err(reason)),
        RepairState::Cleanup { reason: reason },
        RepairActionView::DiscardWriter,
    );
    let e12 = e11.push(RepairEvent::RolloutPath(Err(reason)));
    let a12 = a11.push(RepairActionView::DiscardWriter);
    lemma_repair_moves(
        thread,
        recovery,
        e12,
        RepairState::Cleanup { reason: reason },
        a12,
        RepairEvent::CleanedUp,
        RepairState::Done,
        RepairActionView::Finish(Err(reason)),
    );
    let e13 = e12.push(RepairEvent::CleanedUp);
    let a13 = a12.push(RepairActionView::Finish(Err(reason)));
    let all_events = seq![
        RepairEvent::Writer(false),
        RepairEvent::Stepped(Ok(())),
        RepairEvent::Stepped(Ok(())),
        RepairEvent::Locked { repair_open: true, writer: false, system_agent: false },
        RepairEvent::Stored(Ok(thread.mode)),
        RepairEvent::Stepped(Ok(())),
        RepairEvent::Loaded(Ok(saved)),
        RepairEvent::Compared(Ok(histories)),
        RepairEvent::Presented { legacy_events, checkpoint, now_ms },
        RepairEvent::Stepped(Ok(())),
        RepairEvent::Stepped(Ok(())),
        RepairEvent::RolloutPath(Err(reason)),
        RepairEvent::CleanedUp,
    ];
    assert(e13 =~= all_events);
    let all_actions = seq![
        RepairActionView::LookForWriter,
        RepairActionView::AcquireAdmission,
        RepairActionView::AcquireSettings,
        RepairActionView::LockStateAndRepair,
        RepairActionView::ReadThread,
        RepairActionView::ResumeWriter,
        RepairActionView::LoadSaved { latest_context_only: false },
        RepairActionView::CompareHistories,
        RepairActionView::Present(shown_items(recovery.presentations@)),
        RepairActionView::Append(
            restored(
                thread.thread_id,
                thread.mode,
                known_turns(None, saved@),
                with_legacy_events(recovery.presentations@, legacy_events@),
                recovery.recovered@,
                checkpoint@,
                now_ms,
            ),
        ),
        RepairActionView::Flush,
        RepairActionView::ResolveRollout,
        RepairActionView::DiscardWriter,
        RepairActionView::Finish(Err(reason)),
    ];
    assert(a13 =~= all_actions);
    lemma_repair_has_run(thread, recovery, e13, RepairState::Done, a13, all_events, all_actions);
    lemma_repair_moves(
        thread,
        recovery,
        e11,
        RepairState::RolloutPath,
        a11,
        RepairEvent::RolloutPath(Ok(rollout_path)),
        RepairState::Database { rollout_path },
        RepairActionView::OpenDatabase,
    );
    let e14 = e11.push(RepairEvent::RolloutPath(Ok(rollout_path)));
    let a14 = a11.push(RepairActionView::OpenDatabase);
    lemma_repair_moves(
        thread,
        recovery,
        e14,
        RepairState::Database { rollout_path },
        a14,
        RepairEvent::Stepped(Err(reason)),
        RepairState::Cleanup { reason: reason },
        RepairActionView::DiscardWriter,
    );
    let e15 = e14.push(RepairEvent::Stepped(Err(reason)));
    let a15 = a14.push(RepairActionView::DiscardWriter);
    lemma_repair_moves(
        thread,
        recovery,
        e15,
        RepairState::Cleanup { reason: reason },
        a15,
        RepairEvent::CleanedUp,
        RepairState::Done,
        RepairActionView::Finish(Err(reason)),
    );
    let e16 = e15.push(RepairEvent::CleanedUp);
    let a16 = a15.push(RepairActionView::Finish(Err(reason)));
    let all_events = seq![
        RepairEvent::Writer(false),
        RepairEvent::Stepped(Ok(())),
        RepairEvent::Stepped(Ok(())),
        RepairEvent::Locked { repair_open: true, writer: false, system_agent: false },
        RepairEvent::Stored(Ok(thread.mode)),
        RepairEvent::Stepped(Ok(())),
        RepairEvent::Loaded(Ok(saved)),
        RepairEvent::Compared(Ok(histories)),
        RepairEvent::Presented { legacy_events, checkpoint, now_ms },
        RepairEvent::Stepped(Ok(())),
        RepairEvent::Stepped(Ok(())),
        RepairEvent::RolloutPath(Ok(rollout_path)),
        RepairEvent::Stepped(Err(reason)),
        RepairEvent::CleanedUp,
    ];
    assert(e16 =~= all_events);
    let all_actions = seq![
        RepairActionView::LookForWriter,
        RepairActionView::AcquireAdmission,
        RepairActionView::AcquireSettings,
        RepairActionView::LockStateAndRepair,
        RepairActionView::ReadThread,
        RepairActionView::ResumeWriter,
        RepairActionView::LoadSaved { latest_context_only: false },
        RepairActionView::CompareHistories,
        RepairActionView::Present(shown_items(recovery.presentations@)),
        RepairActionView::Append(
            restored(
                thread.thread_id,
                thread.mode,
                known_turns(None, saved@),
                with_legacy_events(recovery.presentations@, legacy_events@),
                recovery.recovered@,
                checkpoint@,
                now_ms,
            ),
        ),
        RepairActionView::Flush,
        RepairActionView::ResolveRollout,
        RepairActionView::OpenDatabase,
        RepairActionView::DiscardWriter,
        RepairActionView::Finish(Err(reason)),
    ];
    assert(a16 =~= all_actions);
    lemma_repair_has_run(thread, recovery, e16, RepairState::Done, a16, all_events, all_actions);
}

/// A restoration that another has overtaken ends and says so.
pub proof fn law_overtaken_restoration_ends(
    thread: SavedThread,
    recovery: Recovery,
    saved: Vec<RolloutItem>,
    histories: Histories,
    legacy_events: Vec<Vec<String>>,
    checkpoint: Vec<RolloutItem>,
    now_ms: i64,
    rollout_path: Option<String>,
)
    requires
        thread.mode != ThreadHistoryMode::Paginated,
        legacy_events@.len() == recovery.presentations@.len(),
    ensures
        ({
            let events: Seq<RepairEvent> = seq![
                RepairEvent::Writer(false),
                RepairEvent::Stepped(Ok(())),
                RepairEvent::Stepped(Ok(())),
                RepairEvent::Locked { repair_open: true, writer: false, system_agent: false },
                RepairEvent::Stored(Ok(thread.mode)),
                RepairEvent::Stepped(Ok(())),
                RepairEvent::Loaded(Ok(saved)),
                RepairEvent::Compared(Ok(histories)),
                RepairEvent::Presented { legacy_events, checkpoint, now_ms },
                RepairEvent::Stepped(Ok(())),
                RepairEvent::Stepped(Ok(())),
                RepairEvent::RolloutPath(Ok(rollout_path)),
                RepairEvent::Stepped(Ok(())),
                RepairEvent::Published(false),
            ];
            let run = repair_run(thread, events, recovery);
            &&& run is Some
            &&& run->Some_0.1 == seq![
                RepairActionView::LookForWriter,
                RepairActionView::AcquireAdmission,
                RepairActionView::AcquireSettings,
                RepairActionView::LockStateAndRepair,
                RepairActionView::ReadThread,
                RepairActionView::ResumeWriter,
                RepairActionView::LoadSaved { latest_context_only: false },
                RepairActionView::CompareHistories,
                RepairActionView::Present(shown_items(recovery.presentations@)),
                RepairActionView::Append(
                    restored(
                        thread.thread_id,
                        thread.mode,
                        known_turns(None, saved@),
                        with_legacy_events(recovery.presentations@, legacy_events@),
                        recovery.recovered@,
                        checkpoint@,
                        now_ms,
                    ),
                ),
                RepairActionView::Flush,
                RepairActionView::ResolveRollout,
                RepairActionView::OpenDatabase,
                RepairActionView::Publish(RepairedPersistence { rollout_path }),
                RepairActionView::Finish(Err(Reason::RepairConcurrent)),
            ]
        }),
{
    let e0 = Seq::<RepairEvent>::empty();
    let a0 = seq![RepairActionView::LookForWriter];
    lemma_repair_starts(
        thread,
        recovery,
        RepairState::FirstLook { thread },
        RepairActionView::LookForWriter,
    );
    lemma_repair_moves(
        thread,
        recovery,
        e0,
        RepairState::FirstLook { thread },
        a0,
        RepairEvent::Writer(false),
        RepairState::Admission { thread },
        RepairActionView::AcquireAdmission,
    );
    let e1 = e0.push(RepairEvent::Writer(false));
    let a1 = a0.push(RepairActionView::AcquireAdmission);
    lemma_repair_moves(
        thread,
        recovery,
        e1,
        RepairState::Admission { thread },
        a1,
        RepairEvent::Stepped(Ok(())),
        RepairState::Settings { thread },
        RepairActionView::AcquireSettings,
    );
    let e2 = e1.push(RepairEvent::Stepped(Ok(())));
    let a2 = a1.push(RepairActionView::AcquireSettings);
    lemma_repair_moves(
        thread,
        recovery,
        e2,
        RepairState::Settings { thread },
        a2,
        RepairEvent::Stepped(Ok(())),
        RepairState::Locks { thread },
        RepairActionView::LockStateAndRepair,
    );
    let e3 = e2.push(RepairEvent::Stepped(Ok(())));
    let a3 = a2.push(RepairActionView::LockStateAndRepair);
    lemma_repair_moves(
        thread,
        recovery,
        e3,
        RepairState::Locks { thread },
        a3,
        RepairEvent::Locked { repair_open: true, writer: false, system_agent: false },
        RepairState::Stored { thread },
        RepairActionView::ReadThread,
    );
    let e4 = e3.push(RepairEvent::Locked { repair_open: true, writer: false, system_agent: false });
    let a4 = a3.push(RepairActionView::ReadThread);
    lemma_repair_moves(
        thread,
        recovery,
        e4,
        RepairState::Stored { thread },
        a4,
        RepairEvent::Stored(Ok(thread.mode)),
        RepairState::Writer { thread },
        RepairActionView::ResumeWriter,
    );
    let e5 = e4.push(RepairEvent::Stored(Ok(thread.mode)));
    let a5 = a4.push(RepairActionView::ResumeWriter);
    lemma_repair_moves(
        thread,
        recovery,
        e5,
        RepairState::Writer { thread },
        a5,
        RepairEvent::Stepped(Ok(())),
        RepairState::Saved { thread },
        RepairActionView::LoadSaved { latest_context_only: false },
    );
    let e6 = e5.push(RepairEvent::Stepped(Ok(())));
    let a6 = a5.push(RepairActionView::LoadSaved { latest_context_only: false });
    lemma_repair_moves(
        thread,
        recovery,
        e6,
        RepairState::Saved { thread },
        a6,
        RepairEvent::Loaded(Ok(saved)),
        RepairState::Comparison { thread, saved },
        RepairActionView::CompareHistories,
    );
    let e7 = e6.push(RepairEvent::Loaded(Ok(saved)));
    let a7 = a6.push(RepairActionView::CompareHistories);
    lemma_repair_moves(
        thread,
        recovery,
        e7,
        RepairState::Comparison { thread, saved },
        a7,
        RepairEvent::Compared(Ok(histories)),
        RepairState::Presentation { thread, saved, recovery, looked_up: None },
        RepairActionView::Present(shown_items(recovery.presentations@)),
    );
    let e8 = e7.push(RepairEvent::Compared(Ok(histories)));
    let a8 = a7.push(RepairActionView::Present(shown_items(recovery.presentations@)));
    lemma_repair_moves(
        thread,
        recovery,
        e8,
        RepairState::Presentation { thread, saved, recovery, looked_up: None },
        a8,
        RepairEvent::Presented { legacy_events, checkpoint, now_ms },
        RepairState::Append,
        RepairActionView::Append(
            restored(
                thread.thread_id,
                thread.mode,
                known_turns(None, saved@),
                with_legacy_events(recovery.presentations@, legacy_events@),
                recovery.recovered@,
                checkpoint@,
                now_ms,
            ),
        ),
    );
    let e9 = e8.push(RepairEvent::Presented { legacy_events, checkpoint, now_ms });
    let a9 = a8.push(
        RepairActionView::Append(
            restored(
                thread.thread_id,
                thread.mode,
                known_turns(None, saved@),
                with_legacy_events(recovery.presentations@, legacy_events@),
                recovery.recovered@,
                checkpoint@,
                now_ms,
            ),
        ),
    );
    lemma_repair_moves(
        thread,
        recovery,
        e9,
        RepairState::Append,
        a9,
        RepairEvent::Stepped(Ok(())),
        RepairState::Flush,
        RepairActionView::Flush,
    );
    let e10 = e9.push(RepairEvent::Stepped(Ok(())));
    let a10 = a9.push(RepairActionView::Flush);
    lemma_repair_moves(
        thread,
        recovery,
        e10,
        RepairState::Flush,
        a10,
        RepairEvent::Stepped(Ok(())),
        RepairState::RolloutPath,
        RepairActionView::ResolveRollout,
    );
    let e11 = e10.push(RepairEvent::Stepped(Ok(())));
    let a11 = a10.push(RepairActionView::ResolveRollout);
    lemma_repair_moves(
        thread,
        recovery,
        e11,
        RepairState::RolloutPath,
        a11,
        RepairEvent::RolloutPath(Ok(rollout_path)),
        RepairState::Database { rollout_path },
        RepairActionView::OpenDatabase,
    );
    let e12 = e11.push(RepairEvent::RolloutPath(Ok(rollout_path)));
    let a12 = a11.push(RepairActionView::OpenDatabase);
    lemma_repair_moves(
        thread,
        recovery,
        e12,
        RepairState::Database { rollout_path },
        a12,
        RepairEvent::Stepped(Ok(())),
        RepairState::Publication,
        RepairActionView::Publish(RepairedPersistence { rollout_path }),
    );
    let e13 = e12.push(RepairEvent::Stepped(Ok(())));
    let a13 = a12.push(RepairActionView::Publish(RepairedPersistence { rollout_path }));
    lemma_repair_moves(
        thread,
        recovery,
        e13,
        RepairState::Publication,
        a13,
        RepairEvent::Published(false),
        RepairState::Done,
        RepairActionView::Finish(Err(Reason::RepairConcurrent)),
    );
    let e14 = e13.push(RepairEvent::Published(false));
    let a14 = a13.push(RepairActionView::Finish(Err(Reason::RepairConcurrent)));
    let all_events = seq![
        RepairEvent::Writer(false),
        RepairEvent::Stepped(Ok(())),
        RepairEvent::Stepped(Ok(())),
        RepairEvent::Locked { repair_open: true, writer: false, system_agent: false },
        RepairEvent::Stored(Ok(thread.mode)),
        RepairEvent::Stepped(Ok(())),
        RepairEvent::Loaded(Ok(saved)),
        RepairEvent::Compared(Ok(histories)),
        RepairEvent::Presented { legacy_events, checkpoint, now_ms },
        RepairEvent::Stepped(Ok(())),
        RepairEvent::Stepped(Ok(())),
        RepairEvent::RolloutPath(Ok(rollout_path)),
        RepairEvent::Stepped(Ok(())),
        RepairEvent::Published(false),
    ];
    assert(e14 =~= all_events);
    let all_actions = seq![
        RepairActionView::LookForWriter,
        RepairActionView::AcquireAdmission,
        RepairActionView::AcquireSettings,
        RepairActionView::LockStateAndRepair,
        RepairActionView::ReadThread,
        RepairActionView::ResumeWriter,
        RepairActionView::LoadSaved { latest_context_only: false },
        RepairActionView::CompareHistories,
        RepairActionView::Present(shown_items(recovery.presentations@)),
        RepairActionView::Append(
            restored(
                thread.thread_id,
                thread.mode,
                known_turns(None, saved@),
                with_legacy_events(recovery.presentations@, legacy_events@),
                recovery.recovered@,
                checkpoint@,
                now_ms,
            ),
        ),
        RepairActionView::Flush,
        RepairActionView::ResolveRollout,
        RepairActionView::OpenDatabase,
        RepairActionView::Publish(RepairedPersistence { rollout_path }),
        RepairActionView::Finish(Err(Reason::RepairConcurrent)),
    ];
    assert(a14 =~= all_actions);
    lemma_repair_has_run(thread, recovery, e14, RepairState::Done, a14, all_events, all_actions);
}

/// Where it cannot be told which turns exist, nothing is appended and the writer is given up.
pub proof fn law_restoration_without_turns_is_abandoned(
    thread: SavedThread,
    recovery: Recovery,
    saved: Vec<RolloutItem>,
    histories: Histories,
    reason: Reason,
)
    requires
        thread.mode == ThreadHistoryMode::Paginated,
        recovery.presentations@.len() > 0,
    ensures
        ({
            let events: Seq<RepairEvent> = seq![
                RepairEvent::Writer(false),
                RepairEvent::Stepped(Ok(())),
                RepairEvent::Stepped(Ok(())),
                RepairEvent::Locked { repair_open: true, writer: false, system_agent: false },
                RepairEvent::Stored(Ok(thread.mode)),
                RepairEvent::Stepped(Ok(())),
                RepairEvent::Loaded(Ok(saved)),
                RepairEvent::Compared(Ok(histories)),
                RepairEvent::Turns(TurnLookup::Unavailable),
                RepairEvent::CleanedUp,
            ];
            let run = repair_run(thread, events, recovery);
            &&& run is Some
            &&& run->Some_0.1 == seq![
                RepairActionView::LookForWriter,
                RepairActionView::AcquireAdmission,
                RepairActionView::AcquireSettings,
                RepairActionView::LockStateAndRepair,
                RepairActionView::ReadThread,
                RepairActionView::ResumeWriter,
                RepairActionView::LoadSaved { latest_context_only: true },
                RepairActionView::CompareHistories,
                RepairActionView::LookUpTurns(
                    distinct_turns(recovery.presentations@, recovery.presentations@.len()),
                ),
                RepairActionView::DiscardWriter,
                RepairActionView::Finish(Err(Reason::RepairTurnLookup)),
            ]
        }),
        ({
            let events: Seq<RepairEvent> = seq![
                RepairEvent::Writer(false),
                RepairEvent::Stepped(Ok(())),
                RepairEvent::Stepped(Ok(())),
                RepairEvent::Locked { repair_open: true, writer: false, system_agent: false },
                RepairEvent::Stored(Ok(thread.mode)),
                RepairEvent::Stepped(Ok(())),
                RepairEvent::Loaded(Ok(saved)),
                RepairEvent::Compared(Ok(histories)),
                RepairEvent::Turns(TurnLookup::Failed(reason)),
                RepairEvent::CleanedUp,
            ];
            let run = repair_run(thread, events, recovery);
            &&& run is Some
            &&& run->Some_0.1 == seq![
                RepairActionView::LookForWriter,
                RepairActionView::AcquireAdmission,
                RepairActionView::AcquireSettings,
                RepairActionView::LockStateAndRepair,
                RepairActionView::ReadThread,
                RepairActionView::ResumeWriter,
                RepairActionView::LoadSaved { latest_context_only: true },
                RepairActionView::CompareHistories,
                RepairActionView::LookUpTurns(
                    distinct_turns(recovery.presentations@, recovery.presentations@.len()),
                ),
                RepairActionView::DiscardWriter,
                RepairActionView::Finish(Err(reason)),
            ]
        }),
{
    let e0 = Seq::<RepairEvent>::empty();
    let a0 = seq![RepairActionView::LookForWriter];
    lemma_repair_starts(
        thread,
        recovery,
        RepairState::FirstLook { thread },
        RepairActionView::LookForWriter,
    );
    lemma_repair_moves(
        thread,
        recovery,
        e0,
        RepairState::FirstLook { thread },
        a0,
        RepairEvent::Writer(false),
        RepairState::Admission { thread },
        RepairActionView::AcquireAdmission,
    );
    let e1 = e0.push(RepairEvent::Writer(false));
    let a1 = a0.push(RepairActionView::AcquireAdmission);
    lemma_repair_moves(
        thread,
        recovery,
        e1,
        RepairState::Admission { thread },
        a1,
        RepairEvent::Stepped(Ok(())),
        RepairState::Settings { thread },
        RepairActionView::AcquireSettings,
    );
    let e2 = e1.push(RepairEvent::Stepped(Ok(())));
    let a2 = a1.push(RepairActionView::AcquireSettings);
    lemma_repair_moves(
        thread,
        recovery,
        e2,
        RepairState::Settings { thread },
        a2,
        RepairEvent::Stepped(Ok(())),
        RepairState::Locks { thread },
        RepairActionView::LockStateAndRepair,
    );
    let e3 = e2.push(RepairEvent::Stepped(Ok(())));
    let a3 = a2.push(RepairActionView::LockStateAndRepair);
    lemma_repair_moves(
        thread,
        recovery,
        e3,
        RepairState::Locks { thread },
        a3,
        RepairEvent::Locked { repair_open: true, writer: false, system_agent: false },
        RepairState::Stored { thread },
        RepairActionView::ReadThread,
    );
    let e4 = e3.push(RepairEvent::Locked { repair_open: true, writer: false, system_agent: false });
    let a4 = a3.push(RepairActionView::ReadThread);
    lemma_repair_moves(
        thread,
        recovery,
        e4,
        RepairState::Stored { thread },
        a4,
        RepairEvent::Stored(Ok(thread.mode)),
        RepairState::Writer { thread },
        RepairActionView::ResumeWriter,
    );
    let e5 = e4.push(RepairEvent::Stored(Ok(thread.mode)));
    let a5 = a4.push(RepairActionView::ResumeWriter);
    lemma_repair_moves(
        thread,
        recovery,
        e5,
        RepairState::Writer { thread },
        a5,
        RepairEvent::Stepped(Ok(())),
        RepairState::Saved { thread },
        RepairActionView::LoadSaved { latest_context_only: true },
    );
    let e6 = e5.push(RepairEvent::Stepped(Ok(())));
    let a6 = a5.push(RepairActionView::LoadSaved { latest_context_only: true });
    lemma_repair_moves(
        thread,
        recovery,
        e6,
        RepairState::Saved { thread },
        a6,
        RepairEvent::Loaded(Ok(saved)),
        RepairState::Comparison { thread, saved },
        RepairActionView::CompareHistories,
    );
    let e7 = e6.push(RepairEvent::Loaded(Ok(saved)));
    let a7 = a6.push(RepairActionView::CompareHistories);
    lemma_repair_moves(
        thread,
        recovery,
        e7,
        RepairState::Comparison { thread, saved },
        a7,
        RepairEvent::Compared(Ok(histories)),
        RepairState::Turns { thread, saved, recovery },
        RepairActionView::LookUpTurns(
            distinct_turns(recovery.presentations@, recovery.presentations@.len()),
        ),
    );
    let e8 = e7.push(RepairEvent::Compared(Ok(histories)));
    let a8 = a7.push(
        RepairActionView::LookUpTurns(
            distinct_turns(recovery.presentations@, recovery.presentations@.len()),
        ),
    );
    lemma_repair_moves(
        thread,
        recovery,
        e8,
        RepairState::Turns { thread, saved, recovery },
        a8,
        RepairEvent::Turns(TurnLookup::Unavailable),
        RepairState::Cleanup { reason: Reason::RepairTurnLookup },
        RepairActionView::DiscardWriter,
    );
    let e9 = e8.push(RepairEvent::Turns(TurnLookup::Unavailable));
    let a9 = a8.push(RepairActionView::DiscardWriter);
    lemma_repair_moves(
        thread,
        recovery,
        e9,
        RepairState::Cleanup { reason: Reason::RepairTurnLookup },
        a9,
        RepairEvent::CleanedUp,
        RepairState::Done,
        RepairActionView::Finish(Err(Reason::RepairTurnLookup)),
    );
    let e10 = e9.push(RepairEvent::CleanedUp);
    let a10 = a9.push(RepairActionView::Finish(Err(Reason::RepairTurnLookup)));
    let all_events = seq![
        RepairEvent::Writer(false),
        RepairEvent::Stepped(Ok(())),
        RepairEvent::Stepped(Ok(())),
        RepairEvent::Locked { repair_open: true, writer: false, system_agent: false },
        RepairEvent::Stored(Ok(thread.mode)),
        RepairEvent::Stepped(Ok(())),
        RepairEvent::Loaded(Ok(saved)),
        RepairEvent::Compared(Ok(histories)),
        RepairEvent::Turns(TurnLookup::Unavailable),
        RepairEvent::CleanedUp,
    ];
    assert(e10 =~= all_events);
    let all_actions = seq![
        RepairActionView::LookForWriter,
        RepairActionView::AcquireAdmission,
        RepairActionView::AcquireSettings,
        RepairActionView::LockStateAndRepair,
        RepairActionView::ReadThread,
        RepairActionView::ResumeWriter,
        RepairActionView::LoadSaved { latest_context_only: true },
        RepairActionView::CompareHistories,
        RepairActionView::LookUpTurns(
            distinct_turns(recovery.presentations@, recovery.presentations@.len()),
        ),
        RepairActionView::DiscardWriter,
        RepairActionView::Finish(Err(Reason::RepairTurnLookup)),
    ];
    assert(a10 =~= all_actions);
    lemma_repair_has_run(thread, recovery, e10, RepairState::Done, a10, all_events, all_actions);
    lemma_repair_moves(
        thread,
        recovery,
        e8,
        RepairState::Turns { thread, saved, recovery },
        a8,
        RepairEvent::Turns(TurnLookup::Failed(reason)),
        RepairState::Cleanup { reason: reason },
        RepairActionView::DiscardWriter,
    );
    let e11 = e8.push(RepairEvent::Turns(TurnLookup::Failed(reason)));
    let a11 = a8.push(RepairActionView::DiscardWriter);
    lemma_repair_moves(
        thread,
        recovery,
        e11,
        RepairState::Cleanup { reason: reason },
        a11,
        RepairEvent::CleanedUp,
        RepairState::Done,
        RepairActionView::Finish(Err(reason)),
    );
    let e12 = e11.push(RepairEvent::CleanedUp);
    let a12 = a11.push(RepairActionView::Finish(Err(reason)));
    let all_events = seq![
        RepairEvent::Writer(false),
        RepairEvent::Stepped(Ok(())),
        RepairEvent::Stepped(Ok(())),
        RepairEvent::Locked { repair_open: true, writer: false, system_agent: false },
        RepairEvent::Stored(Ok(thread.mode)),
        RepairEvent::Stepped(Ok(())),
        RepairEvent::Loaded(Ok(saved)),
        RepairEvent::Compared(Ok(histories)),
        RepairEvent::Turns(TurnLookup::Failed(reason)),
        RepairEvent::CleanedUp,
    ];
    assert(e12 =~= all_events);
    let all_actions = seq![
        RepairActionView::LookForWriter,
        RepairActionView::AcquireAdmission,
        RepairActionView::AcquireSettings,
        RepairActionView::LockStateAndRepair,
        RepairActionView::ReadThread,
        RepairActionView::ResumeWriter,
        RepairActionView::LoadSaved { latest_context_only: true },
        RepairActionView::CompareHistories,
        RepairActionView::LookUpTurns(
            distinct_turns(recovery.presentations@, recovery.presentations@.len()),
        ),
        RepairActionView::DiscardWriter,
        RepairActionView::Finish(Err(reason)),
    ];
    assert(a12 =~= all_actions);
    lemma_repair_has_run(thread, recovery, e12, RepairState::Done, a12, all_events, all_actions);
}

/// A restoration takes an answer exactly where it waits for one of that kind, and none when it is
/// done; the legacy events have to be those of the items that were to be shown, one list each. It
/// is done exactly when its last word is said.
pub proof fn law_restoration_takes_only_awaited_answers(
    state: RepairState,
    event: RepairEvent,
    recovery: Recovery,
)
    ensures
        repair_next(state, event, recovery) is Some <==> {
            ||| state is FirstLook && event is Writer
            ||| state is Admission && event is Stepped
            ||| state is Settings && event is Stepped
            ||| state is Locks && event is Locked
            ||| state is Stored && event is Stored
            ||| state is Writer && event is Stepped
            ||| state is Saved && event is Loaded
            ||| state is Comparison && event is Compared
            ||| state is Turns && event is Turns
            ||| state is Presentation && event is Presented
                && event->legacy_events@.len()
                == state->Presentation_recovery.presentations@.len()
            ||| state is Append && event is Stepped
            ||| state is Flush && event is Stepped
            ||| state is RolloutPath && event is RolloutPath
            ||| state is Database && event is Stepped
            ||| state is Publication && event is Published
            ||| state is Cleanup && event is CleanedUp
        },
        repair_next(state, event, recovery) matches Some((after, action)) ==> (after is Done
            <==> action is Finish || action is CommitAndFinish),
{
}

/// The items that are shown are those of the presentations, one each and in order.
pub proof fn law_every_presentation_is_shown(presentations: Seq<Presentation>, i: int)
    requires
        0 <= i < presentations.len(),
    ensures
        shown_items(presentations).len() == presentations.len(),
        shown_items(presentations)[i] == presentations[i].item,
{
}

/// Persistence is attached once: the first publication makes the session a saved one, and a later
/// one changes nothing.
pub proof fn law_persistence_is_published_once<S>(
    session: Session<S>,
    first: RepairedPersistence,
    second: RepairedPersistence,
)
    requires
        session.repaired_persistence is None,
    ensures
        published(session, first).repaired_persistence == Some(first),
        !published(session, first).ephemeral,
        published(published(session, first), second) == published(session, first),
        published(session, first) == (Session {
            repaired_persistence: Some(first),
            ephemeral: false,
            ..session
        }),
{
}

/// What a comparison finds is what the saved history lacks of the live one, for the thread and the
/// kind of history that are restored.
pub proof fn law_comparison_finds_what_is_missing(
    thread: SavedThread,
    saved: Vec<RolloutItem>,
    histories: Histories,
    recovery: Recovery,
)
    ensures
        finds(
            RepairState::Comparison { thread, saved },
            RepairEvent::Compared(Ok(histories)),
            recovery,
        ) <==> is_recovery(
            thread.thread_id,
            thread.mode,
            histories.saved_keys@,
            histories.live@,
            recovery,
        ),
{
}

/// What a restoration asks for is known by its own name, with the values that it carries.
pub proof fn law_what_is_asked_for_is_what_is_meant(
    latest_context_only: bool,
    turns: Vec<String>,
    items: Vec<TurnItem>,
    batch: Vec<RolloutItem>,
    restored: RepairedPersistence,
    result: Result<(), Reason>,
)
    ensures
        RepairAction::LookForWriter@ == RepairActionView::LookForWriter,
        RepairAction::AcquireAdmission@ == RepairActionView::AcquireAdmission,
        RepairAction::AcquireSettings@ == RepairActionView::AcquireSettings,
        RepairAction::LockStateAndRepair@ == RepairActionView::LockStateAndRepair,
        RepairAction::ReadThread@ == RepairActionView::ReadThread,
        RepairAction::ResumeWriter@ == RepairActionView::ResumeWriter,
        RepairAction::CompareHistories@ == RepairActionView::CompareHistories,
        RepairAction::Flush@ == RepairActionView::Flush,
        RepairAction::ResolveRollout@ == RepairActionView::ResolveRollout,
        RepairAction::OpenDatabase@ == RepairActionView::OpenDatabase,
        RepairAction::CommitAndFinish@ == RepairActionView::CommitAndFinish,
        RepairAction::DiscardWriter@ == RepairActionView::DiscardWriter,
        (RepairAction::LoadSaved { latest_context_only })@ == (RepairActionView::LoadSaved {
            latest_context_only,
        }),
        RepairAction::LookUpTurns(turns)@ == RepairActionView::LookUpTurns(turns@),
        RepairAction::Present(items)@ == RepairActionView::Present(items@),
        RepairAction::Append(batch)@ == RepairActionView::Append(batch@),
        RepairAction::Publish(restored)@ == RepairActionView::Publish(restored),
        RepairAction::Finish(result)@ == RepairActionView::Finish(result),
{
}

/// A restoration begins as its run does.
pub proof fn law_repair_begins_as_its_run_does(
    thread: SavedThread,
    recovery: Recovery,
    res: (RepairState, RepairAction),
)
    requires
        call_ensures(restore_saved_thread_persistence, (thread,), res),
    ensures
        repair_run(thread, Seq::empty(), recovery) == Some((res.0, seq![res.1@])),
{
}

/// A restoration that takes a step goes on as its run does, with what the comparison of the
/// histories finds missing where the step is that comparison; an answer that it does not wait for
/// is handed back, and nothing has changed.
pub proof fn law_repair_goes_on_as_its_run_does(
    thread: SavedThread,
    recovery: Recovery,
    events: Seq<RepairEvent>,
    state: RepairState,
    actions: Seq<RepairActionView>,
    event: RepairEvent,
    res: Result<(RepairState, RepairAction), (RepairState, RepairEvent)>,
)
    requires
        repair_run(thread, events, recovery) == Some((state, actions)),
        !(state is Comparison),
        call_ensures(step_repair, (state, event), res),
    ensures
        match res {
            Ok((next, action)) => repair_run(thread, events.push(event), recovery) == Some(
                (next, actions.push(action@)),
            ),
            Err(back) => back == (state, event) && repair_run(
                thread,
                events.push(event),
                recovery,
            ) is None,
        },
{
    assert(events.push(event).drop_last() =~= events);
    let found = choose|found: Recovery| #[trigger]
        finds(state, event, found) && match repair_next(state, event, found) {
            Some(next) => res is Ok && (res->Ok_0.0, res->Ok_0.1@) == next,
            None => res == Err::<(RepairState, RepairAction), (RepairState, RepairEvent)>(
                (state, event),
            ),
        };
    assert(repair_next(state, event, found) == repair_next(state, event, recovery));
}

/// The comparison of two histories goes on with what the saved one lacks of the live one.
pub proof fn law_comparison_goes_on_with_what_is_missing(
    thread: SavedThread,
    saved: Vec<RolloutItem>,
    histories: Histories,
    res: Result<(RepairState, RepairAction), (RepairState, RepairEvent)>,
)
    requires
        call_ensures(
            step_repair,
            (RepairState::Comparison { thread, saved }, RepairEvent::Compared(Ok(histories))),
            res,
        ),
    ensures
        res is Ok,
        exists|recovery: Recovery|
            #![trigger is_recovery(
                thread.thread_id,
                thread.mode,
                histories.saved_keys@,
                histories.live@,
                recovery,
            )]
            is_recovery(
                thread.thread_id,
                thread.mode,
                histories.saved_keys@,
                histories.live@,
                recovery,
            ) && match res->Ok_0.0 {
                RepairState::Turns { thread: t, saved: s, recovery: r } => t == thread && s == saved
                    && r == recovery,
                RepairState::Presentation { thread: t, saved: s, recovery: r, looked_up } => t
                    == thread && s == saved && r == recovery && looked_up is None,
                _ => false,
            },
{
    let state = RepairState::Comparison { thread, saved };
    let event = RepairEvent::Compared(Ok(histories));
    let found = choose|found: Recovery| #[trigger]
        finds(state, event, found) && match repair_next(state, event, found) {
            Some(next) => res is Ok && (res->Ok_0.0, res->Ok_0.1@) == next,
            None => res == Err::<(RepairState, RepairAction), (RepairState, RepairEvent)>(
                (state, event),
            ),
        };
    assert(is_recovery(
        thread.thread_id,
        thread.mode,
        histories.saved_keys@,
        histories.live@,
        found,
    ));
}

/// A writer is told to make memories exactly where the session does.
pub proof fn law_resumed_writer_keeps_the_memory_mode(
    generate_memories: bool,
    res: ThreadMemoryMode,
)
    requires
        call_ensures(resumed_memory_mode, (generate_memories,), res),
    ensures
        generate_memories <==> res is Enabled,
{
}

/// Only the first persistence that is attached to a session is published; a later one is refused
/// and changes nothing.
pub proof fn law_second_publication_is_refused<S>(
    first: &mut Session<S>,
    second: &mut Session<S>,
    restored: RepairedPersistence,
    other: RepairedPersistence,
    res: bool,
    again: bool,
)
    requires
        old(first).repaired_persistence is None,
        call_ensures(Session::<S>::publish_repaired_persistence, (first, restored), res),
        *old(second) == *final(first),
        call_ensures(Session::<S>::publish_repaired_persistence, (second, other), again),
    ensures
        res,
        final(first).repaired_persistence == Some(restored),
        !final(first).ephemeral,
        !again,
        *final(second) == *final(first),
{
}

} // verus!
