//! Rolling a thread back by a number of turns.
use crate::errors::CodexErrorInfo;
use crate::errors::Reason;
use crate::protocol::Event;
use crate::protocol::EventMsg;
use crate::protocol::RolloutItem;
use vstd::prelude::*;

verus! {

/// How far a rollback has come. Each state names what it waits for.
#[derive(Debug, PartialEq, Eq)]
pub enum RollbackState {
    ActiveTurn { sub_id: String, num_turns: u32 },
    Context { num_turns: u32 },
    StateLock { sub_id: String, num_turns: u32 },
    Writer { sub_id: String, num_turns: u32 },
    Flush { sub_id: String, num_turns: u32 },
    History { sub_id: String, num_turns: u32 },
    Done,
}

/// What has come back.
#[derive(Debug, PartialEq, Eq)]
pub enum RollbackEvent {
    /// The history lock is held; whether a turn is active.
    ActiveTurn(bool),
    /// The submission id of the new turn context, if there is one.
    Context(Option<String>),
    /// The state lock is held; whether the thread has to be restarted first.
    Locked { restart_required: bool },
    /// Whether the thread has a durable writer.
    Writer(bool),
    Flushed(Result<(), String>),
    Loaded(Result<Vec<RolloutItem>, String>),
}

/// What to do next.
#[derive(Debug, PartialEq, Eq)]
pub enum RollbackAction {
    LockHistoryAndReadActiveTurn,
    NewTurnContext(String),
    LockState,
    FindWriter,
    Flush,
    LoadHistory,
    /// Replay the history with the rollback at its end, and publish the outcome.
    Complete { history: Vec<RolloutItem>, num_turns: u32 },
    /// Report the refusal; the report is saved with the thread.
    Refuse(Event),
    /// Report the refusal without saving the report.
    RefuseUnsaved(Event),
    /// The refusal has been reported already.
    Stop,
}

/// The report of a rollback that did not happen.
pub open spec fn rollback_error(id: String, reason: Reason) -> Event {
    Event { id, msg: EventMsg::Error { reason, info: CodexErrorInfo::ThreadRollbackFailed } }
}

pub open spec fn rollback_refused(id: String, reason: Reason) -> (RollbackState, RollbackAction) {
    (RollbackState::Done, RollbackAction::Refuse(rollback_error(id, reason)))
}

/// The first step: at least one turn has to go.
pub open spec fn rollback_first(sub_id: String, num_turns: u32) -> (RollbackState, RollbackAction) {
    if num_turns == 0 {
        rollback_refused(sub_id, Reason::NumTurnsZero)
    } else {
        (
            RollbackState::ActiveTurn { sub_id, num_turns },
            RollbackAction::LockHistoryAndReadActiveTurn,
        )
    }
}

/// The next step, nothing where `event` does not answer what `state` waits for.
pub open spec fn rollback_next(state: RollbackState, event: RollbackEvent) -> Option<
    (RollbackState, RollbackAction),
> {
    match (state, event) {
        (RollbackState::ActiveTurn { sub_id, num_turns }, RollbackEvent::ActiveTurn(active)) => {
            Some(
                if active {
                    rollback_refused(sub_id, Reason::RollbackDuringTurn)
                } else {
                    (
                        RollbackState::Context { num_turns },
                        RollbackAction::NewTurnContext(sub_id),
                    )
                },
            )
        },
        (RollbackState::Context { num_turns }, RollbackEvent::Context(context)) => Some(
            match context {
                Some(sub_id) => (
                    RollbackState::StateLock { sub_id, num_turns },
                    RollbackAction::LockState,
                ),
                None => (RollbackState::Done, RollbackAction::Stop),
            },
        ),
        (
            RollbackState::StateLock { sub_id, num_turns },
            RollbackEvent::Locked { restart_required },
        ) => Some(
            if restart_required {
                (
                    RollbackState::Done,
                    RollbackAction::RefuseUnsaved(
                        rollback_error(sub_id, Reason::RestartBeforeRollback),
                    ),
                )
            } else {
                (RollbackState::Writer { sub_id, num_turns }, RollbackAction::FindWriter)
            },
        ),
        (RollbackState::Writer { sub_id, num_turns }, RollbackEvent::Writer(present)) => Some(
            if present {
                (RollbackState::Flush { sub_id, num_turns }, RollbackAction::Flush)
            } else {
                rollback_refused(sub_id, Reason::RollbackNeedsHistory)
            },
        ),
        (RollbackState::Flush { sub_id, num_turns }, RollbackEvent::Flushed(result)) => Some(
            match result {
                Ok(()) => (
                    RollbackState::History { sub_id, num_turns },
                    RollbackAction::LoadHistory,
                ),
                Err(err) => rollback_refused(sub_id, Reason::RollbackFlush(err)),
            },
        ),
        (RollbackState::History { sub_id, num_turns }, RollbackEvent::Loaded(result)) => Some(
            match result {
                Ok(history) => (
                    RollbackState::Done,
                    RollbackAction::Complete { history, num_turns },
                ),
                Err(err) => rollback_refused(sub_id, Reason::RollbackLoad(err)),
            },
        ),
        _ => None,
    }
}

fn refuse(id: String, reason: Reason) -> (res: (RollbackState, RollbackAction))
    ensures
        res == rollback_refused(id, reason),
{
    (
        RollbackState::Done,
        RollbackAction::Refuse(
            Event { id, msg: EventMsg::Error { reason, info: CodexErrorInfo::ThreadRollbackFailed } },
        ),
    )
}

/// Starts a rollback by `num_turns` turns.
pub fn thread_rollback(sub_id: String, num_turns: u32) -> (res: (RollbackState, RollbackAction))
    ensures
        res == rollback_first(sub_id, num_turns),
{
    if num_turns == 0 {
        refuse(sub_id, Reason::NumTurnsZero)
    } else {
        (
            RollbackState::ActiveTurn { sub_id, num_turns },
            RollbackAction::LockHistoryAndReadActiveTurn,
        )
    }
}

/// Takes the next step. An event that does not answer what the state waits for is handed back.
pub fn step_rollback(state: RollbackState, event: RollbackEvent) -> (res: Result<
    (RollbackState, RollbackAction),
    (RollbackState, RollbackEvent),
>)
    ensures
        res == match rollback_next(state, event) {
            Some(next) => Ok::<(RollbackState, RollbackAction), (RollbackState, RollbackEvent)>(
                next,
            ),
            None => Err((state, event)),
        },
{
    let next: (RollbackState, RollbackAction) = match (state, event) {
        (RollbackState::ActiveTurn { sub_id, num_turns }, RollbackEvent::ActiveTurn(active)) => {
            if active {
                refuse(sub_id, Reason::RollbackDuringTurn)
            } else {
                (RollbackState::Context { num_turns }, RollbackAction::NewTurnContext(sub_id))
            }
        },
        (RollbackState::Context { num_turns }, RollbackEvent::Context(context)) => {
            match context {
                Some(sub_id) => (
                    RollbackState::StateLock { sub_id, num_turns },
                    RollbackAction::LockState,
                ),
                None => (RollbackState::Done, RollbackAction::Stop),
            }
        },
        (
            RollbackState::StateLock { sub_id, num_turns },
            RollbackEvent::Locked { restart_required },
        ) => {
            if restart_required {
                (
                    RollbackState::Done,
                    RollbackAction::RefuseUnsaved(
                        Event {
                            id: sub_id,
                            msg: EventMsg::Error {
                                reason: Reason::RestartBeforeRollback,
                                info: CodexErrorInfo::ThreadRollbackFailed,
                            },
                        },
                    ),
                )
            } else {
                (RollbackState::Writer { sub_id, num_turns }, RollbackAction::FindWriter)
            }
        },
        (RollbackState::Writer { sub_id, num_turns }, RollbackEvent::Writer(present)) => {
            if present {
                (RollbackState::Flush { sub_id, num_turns }, RollbackAction::Flush)
            } else {
                refuse(sub_id, Reason::RollbackNeedsHistory)
            }
        },
        (RollbackState::Flush { sub_id, num_turns }, RollbackEvent::Flushed(result)) => {
            match result {
                Ok(()) => (
                    RollbackState::History { sub_id, num_turns },
                    RollbackAction::LoadHistory,
                ),
                Err(err) => refuse(sub_id, Reason::RollbackFlush(err)),
            }
        },
        (RollbackState::History { sub_id, num_turns }, RollbackEvent::Loaded(result)) => {
            match result {
                Ok(history) => (
                    RollbackState::Done,
                    RollbackAction::Complete { history, num_turns },
                ),
                Err(err) => refuse(sub_id, Reason::RollbackLoad(err)),
            }
        },
        (state, event) => {
            return Err((state, event));
        },
    };
    Ok(next)
}

/// What is replayed: the saved history, then the rollback itself.
pub fn replay_items(history: Vec<RolloutItem>, num_turns: u32) -> (res: Vec<RolloutItem>)
    ensures
        res@ == history@.push(RolloutItem::EventMsg(EventMsg::ThreadRolledBack { num_turns })),
{
    let mut items = history;
    items.push(RolloutItem::EventMsg(EventMsg::ThreadRolledBack { num_turns }));
    items
}

/// Where a rollback stands after `events`, and all that it asked for.
pub open spec fn rollback_run(sub_id: String, num_turns: u32, events: Seq<RollbackEvent>) -> Option<
    (RollbackState, Seq<RollbackAction>),
>
    decreases events.len(),
{
    if events.len() == 0 {
        let first = rollback_first(sub_id, num_turns);
        Some((first.0, seq![first.1]))
    } else {
        match rollback_run(sub_id, num_turns, events.drop_last()) {
            Some((state, actions)) => match rollback_next(state, events.last()) {
                Some((next, action)) => Some((next, actions.push(action))),
                None => None,
            },
            None => None,
        }
    }
}

/// The answers that let a rollback go through.
pub open spec fn rollback_path(turn: String, history: Vec<RolloutItem>) -> Seq<RollbackEvent> {
    seq![
        RollbackEvent::ActiveTurn(false),
        RollbackEvent::Context(Some(turn)),
        RollbackEvent::Locked { restart_required: false },
        RollbackEvent::Writer(true),
        RollbackEvent::Flushed(Ok(())),
        RollbackEvent::Loaded(Ok(history)),
    ]
}

spec fn rollback_progress(
    state: RollbackState,
    num_turns: u32,
    events: Seq<RollbackEvent>,
    actions: Seq<RollbackAction>,
) -> bool {
    &&& !(state is Done) ==> num_turns > 0 && forall|i: int|
        0 <= i < actions.len() ==> !(#[trigger] actions[i] is Complete)
    &&& match state {
        RollbackState::ActiveTurn { num_turns: n, .. } => events.len() == 0 && n == num_turns,
        RollbackState::Context { num_turns: n } => events.len() == 1 && n == num_turns && events[0]
            == RollbackEvent::ActiveTurn(false),
        RollbackState::StateLock { sub_id, num_turns: n } => events.len() == 2 && n == num_turns
            && events[0] == RollbackEvent::ActiveTurn(false) && events[1] == RollbackEvent::Context(
            Some(sub_id),
        ),
        RollbackState::Writer { sub_id, num_turns: n } => events.len() == 3 && n == num_turns
            && events[0] == RollbackEvent::ActiveTurn(false) && events[1] == RollbackEvent::Context(
            Some(sub_id),
        ) && events[2] == (RollbackEvent::Locked { restart_required: false }),
        RollbackState::Flush { sub_id, num_turns: n } => events.len() == 4 && n == num_turns
            && events[0] == RollbackEvent::ActiveTurn(false) && events[1] == RollbackEvent::Context(
            Some(sub_id),
        ) && events[2] == (RollbackEvent::Locked { restart_required: false }) && events[3]
            == RollbackEvent::Writer(true),
        RollbackState::History { sub_id, num_turns: n } => events.len() == 5 && n == num_turns
            && events[0] == RollbackEvent::ActiveTurn(false) && events[1] == RollbackEvent::Context(
            Some(sub_id),
        ) && events[2] == (RollbackEvent::Locked { restart_required: false }) && events[3]
            == RollbackEvent::Writer(true) && events[4] == RollbackEvent::Flushed(Ok(())),
        RollbackState::Done => forall|i: int|
            0 <= i < actions.len() ==> ((#[trigger] actions[i]) matches RollbackAction::Complete {
                history,
                num_turns: n,
            } ==> n == num_turns && num_turns > 0 && exists|turn: String|
                events == #[trigger] rollback_path(turn, history)),
    }
}

proof fn lemma_rollback_progress(sub_id: String, num_turns: u32, events: Seq<RollbackEvent>)
    requires
        rollback_run(sub_id, num_turns, events) is Some,
    ensures
        ({
            let (state, actions) = rollback_run(sub_id, num_turns, events)->Some_0;
            rollback_progress(state, num_turns, events, actions)
        }),
    decreases events.len(),
{
    if events.len() > 0 {
        let head = events.drop_last();
        lemma_rollback_progress(sub_id, num_turns, head);
        let (before, done) = rollback_run(sub_id, num_turns, head)->Some_0;
        let (after, action) = rollback_next(before, events.last())->Some_0;
        let actions = done.push(action);
        assert forall|i: int| 0 <= i < head.len() implies events[i] == head[i] by {}
        assert forall|i: int| 0 <= i < actions.len() && #[trigger] actions[i] is Complete implies i
            == done.len() by {
            if i < done.len() {
                assert(done[i] is Complete);
            }
        }
        if let RollbackEvent::Flushed(Ok(unit)) = events.last() {
            assert(unit == ());
        }
        if let RollbackAction::Complete { history, num_turns: n } = action {
            let turn = before->History_sub_id;
            assert(events =~= rollback_path(turn, history));
            assert forall|i: int| 0 <= i < actions.len() implies ((
            #[trigger] actions[i]) matches RollbackAction::Complete { history: h, num_turns: n }
                ==> n == num_turns && num_turns > 0 && exists|t: String|
                events == #[trigger] rollback_path(t, h)) by {
                if actions[i] is Complete {
                    assert(events == rollback_path(turn, actions[i]->history));
                }
            }
        }
    }
}

/// A rollback is carried out only for at least one turn, on an idle thread that need not be
/// restarted, after its persistence was flushed and its history read; it is carried out on the
/// history that was read and by the number of turns that was asked for.
pub proof fn law_rollback_needs_an_idle_flushed_thread(
    sub_id: String,
    num_turns: u32,
    events: Seq<RollbackEvent>,
    i: int,
)
    requires
        rollback_run(sub_id, num_turns, events) is Some,
        0 <= i < rollback_run(sub_id, num_turns, events)->Some_0.1.len(),
    ensures
        rollback_run(sub_id, num_turns, events)->Some_0.1[i] matches RollbackAction::Complete {
            history,
            num_turns: n,
        } ==> n == num_turns && num_turns > 0 && exists|turn: String|
            events == #[trigger] rollback_path(turn, history),
{
    lemma_rollback_progress(sub_id, num_turns, events);
}

/// Every refusal of a rollback is classed as a failed rollback.
pub proof fn law_refused_rollback_says_so(state: RollbackState, event: RollbackEvent)
    requires
        rollback_next(state, event) is Some,
    ensures
        ({
            let action = rollback_next(state, event)->Some_0.1;
            &&& action matches RollbackAction::Refuse(report) ==> (
            report.msg matches EventMsg::Error { info, .. } && info
                == CodexErrorInfo::ThreadRollbackFailed)
            &&& action matches RollbackAction::RefuseUnsaved(report) ==> (
            report.msg matches EventMsg::Error { info, .. } && info
                == CodexErrorInfo::ThreadRollbackFailed)
        }),
{
}

proof fn lemma_rollback_step(
    sub_id: String,
    num_turns: u32,
    events: Seq<RollbackEvent>,
    event: RollbackEvent,
)
    requires
        rollback_run(sub_id, num_turns, events) is Some,
        rollback_next(rollback_run(sub_id, num_turns, events)->Some_0.0, event) is Some,
    ensures
        ({
            let (state, actions) = rollback_run(sub_id, num_turns, events)->Some_0;
            let (next, action) = rollback_next(state, event)->Some_0;
            rollback_run(
                sub_id,
                num_turns,
                events.push(event),
            ) == Some((next, actions.push(action)))
        }),
{
    assert(events.push(event).drop_last() =~= events);
}

/// A rollback by one turn or more goes through on an idle thread that need not be restarted: once
/// its persistence is flushed and its history read, it is carried out on that history, by the
/// number of turns that was asked for.
pub proof fn law_rollback_of_an_idle_thread_goes_through(
    sub_id: String,
    num_turns: u32,
    turn: String,
    history: Vec<RolloutItem>,
)
    requires
        num_turns >= 1,
    ensures
        ({
            let events: Seq<RollbackEvent> = seq![
                RollbackEvent::ActiveTurn(false),
                RollbackEvent::Context(Some(turn)),
                RollbackEvent::Locked { restart_required: false },
                RollbackEvent::Writer(true),
                RollbackEvent::Flushed(Ok(())),
                RollbackEvent::Loaded(Ok(history)),
            ];
            let run = rollback_run(sub_id, num_turns, events);
            &&& run is Some
            &&& run->Some_0.1 == seq![
                RollbackAction::LockHistoryAndReadActiveTurn,
                RollbackAction::NewTurnContext(sub_id),
                RollbackAction::LockState,
                RollbackAction::FindWriter,
                RollbackAction::Flush,
                RollbackAction::LoadHistory,
                RollbackAction::Complete { history, num_turns },
            ]
        }),
{
    let e0 = Seq::<RollbackEvent>::empty();
    lemma_rollback_step(sub_id, num_turns, e0, RollbackEvent::ActiveTurn(false));
    let e1 = e0.push(RollbackEvent::ActiveTurn(false));
    lemma_rollback_step(sub_id, num_turns, e1, RollbackEvent::Context(Some(turn)));
    let e2 = e1.push(RollbackEvent::Context(Some(turn)));
    lemma_rollback_step(sub_id, num_turns, e2, RollbackEvent::Locked { restart_required: false });
    let e3 = e2.push(RollbackEvent::Locked { restart_required: false });
    lemma_rollback_step(sub_id, num_turns, e3, RollbackEvent::Writer(true));
    let e4 = e3.push(RollbackEvent::Writer(true));
    lemma_rollback_step(sub_id, num_turns, e4, RollbackEvent::Flushed(Ok(())));
    let e5 = e4.push(RollbackEvent::Flushed(Ok(())));
    lemma_rollback_step(sub_id, num_turns, e5, RollbackEvent::Loaded(Ok(history)));
    let e6 = e5.push(RollbackEvent::Loaded(Ok(history)));
    assert(e6 =~= seq![
        RollbackEvent::ActiveTurn(false),
        RollbackEvent::Context(Some(turn)),
        RollbackEvent::Locked { restart_required: false },
        RollbackEvent::Writer(true),
        RollbackEvent::Flushed(Ok(())),
        RollbackEvent::Loaded(Ok(history)),
    ]);
    assert(rollback_run(sub_id, num_turns, e6)->Some_0.1 =~= seq![
        RollbackAction::LockHistoryAndReadActiveTurn,
        RollbackAction::NewTurnContext(sub_id),
        RollbackAction::LockState,
        RollbackAction::FindWriter,
        RollbackAction::Flush,
        RollbackAction::LoadHistory,
        RollbackAction::Complete { history, num_turns },
    ]);
}

/// A rollback by one turn or more is refused for the first thing that stands in its way, and says
/// which; without a turn context it stops without another word, as that was reported.
pub proof fn law_rollback_is_refused_for_its_first_obstacle(
    sub_id: String,
    num_turns: u32,
    turn: String,
    error: String,
)
    requires
        num_turns >= 1,
    ensures
        ({
            let events: Seq<RollbackEvent> = seq![RollbackEvent::ActiveTurn(true)];
            let run = rollback_run(sub_id, num_turns, events);
            &&& run is Some
            &&& run->Some_0.1.last() == (RollbackAction::Refuse(
                Event {
                    id: sub_id,
                    msg: EventMsg::Error {
                        reason: Reason::RollbackDuringTurn,
                        info: CodexErrorInfo::ThreadRollbackFailed,
                    },
                },
            ))
        }),
        ({
            let events: Seq<RollbackEvent> = seq![
                RollbackEvent::ActiveTurn(false),
                RollbackEvent::Context(None),
            ];
            let run = rollback_run(sub_id, num_turns, events);
            &&& run is Some
            &&& run->Some_0.1.last() == (RollbackAction::Stop)
        }),
        ({
            let events: Seq<RollbackEvent> = seq![
                RollbackEvent::ActiveTurn(false),
                RollbackEvent::Context(Some(turn)),
                RollbackEvent::Locked { restart_required: true },
            ];
            let run = rollback_run(sub_id, num_turns, events);
            &&& run is Some
            &&& run->Some_0.1.last() == (RollbackAction::RefuseUnsaved(
                Event {
                    id: turn,
                    msg: EventMsg::Error {
                        reason: Reason::RestartBeforeRollback,
                        info: CodexErrorInfo::ThreadRollbackFailed,
                    },
                },
            ))
        }),
        ({
            let events: Seq<RollbackEvent> = seq![
                RollbackEvent::ActiveTurn(false),
                RollbackEvent::Context(Some(turn)),
                RollbackEvent::Locked { restart_required: false },
                RollbackEvent::Writer(false),
            ];
            let run = rollback_run(sub_id, num_turns, events);
            &&& run is Some
            &&& run->Some_0.1.last() == (RollbackAction::Refuse(
                Event {
                    id: turn,
                    msg: EventMsg::Error {
                        reason: Reason::RollbackNeedsHistory,
                        info: CodexErrorInfo::ThreadRollbackFailed,
                    },
                },
            ))
        }),
        ({
            let events: Seq<RollbackEvent> = seq![
                RollbackEvent::ActiveTurn(false),
                RollbackEvent::Context(Some(turn)),
                RollbackEvent::Locked { restart_required: false },
                RollbackEvent::Writer(true),
                RollbackEvent::Flushed(Err(error)),
            ];
            let run = rollback_run(sub_id, num_turns, events);
            &&& run is Some
            &&& run->Some_0.1.last() == (RollbackAction::Refuse(
                Event {
                    id: turn,
                    msg: EventMsg::Error {
                        reason: Reason::RollbackFlush(error),
                        info: CodexErrorInfo::ThreadRollbackFailed,
                    },
                },
            ))
        }),
        ({
            let events: Seq<RollbackEvent> = seq![
                RollbackEvent::ActiveTurn(false),
                RollbackEvent::Context(Some(turn)),
                RollbackEvent::Locked { restart_required: false },
                RollbackEvent::Writer(true),
                RollbackEvent::Flushed(Ok(())),
                RollbackEvent::Loaded(Err(error)),
            ];
            let run = rollback_run(sub_id, num_turns, events);
            &&& run is Some
            &&& run->Some_0.1.last() == (RollbackAction::Refuse(
                Event {
                    id: turn,
                    msg: EventMsg::Error {
                        reason: Reason::RollbackLoad(error),
                        info: CodexErrorInfo::ThreadRollbackFailed,
                    },
                },
            ))
        }),
{
    let e0 = Seq::<RollbackEvent>::empty();
    lemma_rollback_step(sub_id, num_turns, e0, RollbackEvent::ActiveTurn(true));
    let e1 = e0.push(RollbackEvent::ActiveTurn(true));
    lemma_rollback_step(sub_id, num_turns, e0, RollbackEvent::ActiveTurn(false));
    let e2 = e0.push(RollbackEvent::ActiveTurn(false));
    lemma_rollback_step(sub_id, num_turns, e2, RollbackEvent::Context(None));
    let e3 = e2.push(RollbackEvent::Context(None));
    assert(e3 =~= seq![RollbackEvent::ActiveTurn(false), RollbackEvent::Context(None)]);
    lemma_rollback_step(sub_id, num_turns, e2, RollbackEvent::Context(Some(turn)));
    let e4 = e2.push(RollbackEvent::Context(Some(turn)));
    lemma_rollback_step(sub_id, num_turns, e4, RollbackEvent::Locked { restart_required: true });
    let e5 = e4.push(RollbackEvent::Locked { restart_required: true });
    assert(e5 =~= seq![
        RollbackEvent::ActiveTurn(false),
        RollbackEvent::Context(Some(turn)),
        RollbackEvent::Locked { restart_required: true },
    ]);
    lemma_rollback_step(sub_id, num_turns, e4, RollbackEvent::Locked { restart_required: false });
    let e6 = e4.push(RollbackEvent::Locked { restart_required: false });
    lemma_rollback_step(sub_id, num_turns, e6, RollbackEvent::Writer(false));
    let e7 = e6.push(RollbackEvent::Writer(false));
    assert(e7 =~= seq![
        RollbackEvent::ActiveTurn(false),
        RollbackEvent::Context(Some(turn)),
        RollbackEvent::Locked { restart_required: false },
        RollbackEvent::Writer(false),
    ]);
    lemma_rollback_step(sub_id, num_turns, e6, RollbackEvent::Writer(true));
    let e8 = e6.push(RollbackEvent::Writer(true));
    lemma_rollback_step(sub_id, num_turns, e8, RollbackEvent::Flushed(Err(error)));
    let e9 = e8.push(RollbackEvent::Flushed(Err(error)));
    assert(e9 =~= seq![
        RollbackEvent::ActiveTurn(false),
        RollbackEvent::Context(Some(turn)),
        RollbackEvent::Locked { restart_required: false },
        RollbackEvent::Writer(true),
        RollbackEvent::Flushed(Err(error)),
    ]);
    lemma_rollback_step(sub_id, num_turns, e8, RollbackEvent::Flushed(Ok(())));
    let e10 = e8.push(RollbackEvent::Flushed(Ok(())));
    lemma_rollback_step(sub_id, num_turns, e10, RollbackEvent::Loaded(Err(error)));
    let e11 = e10.push(RollbackEvent::Loaded(Err(error)));
    assert(e11 =~= seq![
        RollbackEvent::ActiveTurn(false),
        RollbackEvent::Context(Some(turn)),
        RollbackEvent::Locked { restart_required: false },
        RollbackEvent::Writer(true),
        RollbackEvent::Flushed(Ok(())),
        RollbackEvent::Loaded(Err(error)),
    ]);
}

/// The first step of a rollback refuses exactly a rollback by no turns.
pub proof fn law_only_a_rollback_by_no_turns_is_refused_at_once(sub_id: String, num_turns: u32)
    ensures
        rollback_first(sub_id, num_turns).0 is Done <==> num_turns == 0,
        num_turns == 0 ==> rollback_first(sub_id, num_turns).1 == RollbackAction::Refuse(
            Event {
                id: sub_id,
                msg: EventMsg::Error {
                    reason: Reason::NumTurnsZero,
                    info: CodexErrorInfo::ThreadRollbackFailed,
                },
            },
        ),
{
}

/// A rollback takes an answer exactly where it waits for one of that kind, and none when it is
/// done. It is done exactly when its last word is said.
pub proof fn law_rollback_takes_only_awaited_answers(
    state: RollbackState,
    event: RollbackEvent,
)
    ensures
        rollback_next(state, event) is Some <==> {
            ||| state is ActiveTurn && event is ActiveTurn
            ||| state is Context && event is Context
            ||| state is StateLock && event is Locked
            ||| state is Writer && event is Writer
            ||| state is Flush && event is Flushed
            ||| state is History && event is Loaded
        },
        rollback_next(state, event) matches Some((after, action)) ==> (after is Done
            <==> action is Complete
                || action is Refuse
                || action is RefuseUnsaved
                || action is Stop),
{
}

/// A rollback begins as its run does.
pub proof fn law_rollback_begins_as_its_run_does(
    sub_id: String,
    num_turns: u32,
    res: (RollbackState, RollbackAction),
)
    requires
        call_ensures(thread_rollback, (sub_id, num_turns), res),
    ensures
        rollback_run(sub_id, num_turns, Seq::<RollbackEvent>::empty()) == Some((res.0, seq![res.1])),
{
}

/// A rollback that takes a step goes on as its run does, with all that it asked for before; an
/// answer that it does not wait for is handed back, and nothing has changed.
pub proof fn law_rollback_goes_on_as_its_run_does(
    sub_id: String,
    num_turns: u32,
    events: Seq<RollbackEvent>,
    state: RollbackState,
    actions: Seq<RollbackAction>,
    event: RollbackEvent,
    res: Result<(RollbackState, RollbackAction), (RollbackState, RollbackEvent)>,
)
    requires
        rollback_run(sub_id, num_turns, events) == Some((state, actions)),
        call_ensures(step_rollback, (state, event), res),
    ensures
        match res {
            Ok((next, action)) => rollback_run(sub_id, num_turns, events.push(event)) == Some(
                (next, actions.push(action)),
            ),
            Err(back) => back == (state, event) && rollback_run(sub_id, num_turns, events.push(event)) is None,
        },
{
    assert(events.push(event).drop_last() =~= events);
}

/// What is replayed is the saved history, whole and in order, with the rollback at its end.
pub proof fn law_replay_ends_with_the_rollback(
    history: Vec<RolloutItem>,
    num_turns: u32,
    res: Vec<RolloutItem>,
)
    requires
        call_ensures(replay_items, (history, num_turns), res),
    ensures
        res@.len() == history@.len() + 1,
        res@.drop_last() == history@,
        res@.last() == RolloutItem::EventMsg(EventMsg::ThreadRolledBack { num_turns }),
{
    assert(res@.drop_last() =~= history@);
}

} // verus!
