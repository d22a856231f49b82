//! Putting response items into a session from outside of a turn.
use crate::errors::CodexErr;
use crate::errors::Reason;
use crate::protocol::ResponseItem;
use crate::protocol::TaskKind;
use crate::session::input_queue::ActiveTurn;
use crate::session::input_queue::InputQueueActivity;
use crate::session::input_queue::MailboxDeliveryPhase;
use crate::session::input_queue::TurnInput;
use crate::session::input_queue::extend_pending_input_and_accept_mailbox_delivery_for_turn_state;
use crate::session::input_queue::same_turn;
use crate::session::input_queue::turn_input;
use crate::session::session::Session;
use vstd::prelude::*;

verus! {

/// Response items as input of a turn.
pub open spec fn item_input(items: Seq<ResponseItem>) -> Seq<TurnInput> {
    Seq::new(items.len(), |i: int| TurnInput::ResponseItem(items[i]))
}

/// Whether `active` runs a turn that input can be added to.
pub open spec fn is_steerable(active: Option<ActiveTurn>) -> bool {
    active matches Some(turn) && turn.task matches Some(task) && task.kind == TaskKind::Regular
}

/// Wraps response items as turn input.
pub(crate) fn into_item_input(items: Vec<ResponseItem>) -> (res: Vec<TurnInput>)
    ensures
        res@ == item_input(items@),
{
    let ghost all = items@;
    let mut items = items;
    let mut res: Vec<TurnInput> = Vec::new();
    while items.len() > 0
        invariant
            res@.len() + items@.len() == all.len(),
            items@ == all.skip(res@.len() as int),
            res@ == item_input(all).take(res@.len() as int),
        decreases items.len(),
    {
        let item: ResponseItem = items.remove(0);
        res.push(TurnInput::ResponseItem(item));
    }
    assert(res@ =~= item_input(all));
    res
}

impl<S> Session<S> {
    /// Queues items for the turn that is running. They are handed back when no regular turn runs
    /// or the thread has to be restarted. The activity is to be published to listeners.
    pub fn inject_if_running(&mut self, input: Vec<ResponseItem>) -> (res: Result<
        InputQueueActivity,
        Vec<ResponseItem>,
    >)
        ensures
            res is Ok <==> is_steerable(old(self).active_turn)
                && !old(self).persistence_restart_required,
            res is Err ==> res->Err_0 == input && *final(self) == *old(self),
            res is Ok ==> {
                &&& res->Ok_0 == InputQueueActivity::Steer
                &&& final(self).active_turn is Some
                &&& same_turn(old(self).active_turn->Some_0, final(self).active_turn->Some_0)
                &&& turn_input(final(self).active_turn) == turn_input(old(self).active_turn)
                    + item_input(input@)
                &&& final(self).active_turn->Some_0.turn_state.mailbox_delivery_phase
                    == MailboxDeliveryPhase::CurrentTurn
                &&& *final(self) == (Session {
                    active_turn: final(self).active_turn,
                    ..*old(self)
                })
            },
    {
        if self.persistence_restart_required {
            return Err(input);
        }
        if let Some(turn) = &mut self.active_turn {
            let steerable: bool = match &turn.task {
                Some(task) => task.kind == TaskKind::Regular,
                None => false,
            };
            if steerable {
                let items: Vec<TurnInput> = into_item_input(input);
                Ok(
                    extend_pending_input_and_accept_mailbox_delivery_for_turn_state(
                        &mut turn.turn_state,
                        items,
                    ),
                )
            } else {
                Err(input)
            }
        } else {
            Err(input)
        }
    }
}

/// What becomes of items that are injected without starting a turn.
#[derive(Clone, Debug, PartialEq, Eq)]
pub enum InjectRoute {
    Refused(CodexErr),
    /// The running turn took them; the activity is to be published to listeners.
    Queued(InputQueueActivity),
    /// They are to be recorded under a turn context, a new one where `new_context` says so.
    Record { items: Vec<ResponseItem>, new_context: bool },
}

/// Gives items to the running turn, or has them recorded without a turn.
pub fn route_injection<S>(
    session: &mut Session<S>,
    items: Vec<ResponseItem>,
    has_context: bool,
) -> (res: InjectRoute)
    ensures
        old(session).persistence_restart_required ==> res == InjectRoute::Refused(
            CodexErr::TurnAborted,
        ) && *final(session) == *old(session),
        !old(session).persistence_restart_required && !is_steerable(old(session).active_turn)
            ==> res == (InjectRoute::Record { items, new_context: !has_context })
            && *final(session) == *old(session),
        !old(session).persistence_restart_required && is_steerable(old(session).active_turn) ==> {
            &&& res == InjectRoute::Queued(InputQueueActivity::Steer)
            &&& final(session).active_turn is Some
            &&& same_turn(old(session).active_turn->Some_0, final(session).active_turn->Some_0)
            &&& final(session).active_turn->Some_0.turn_state.accepts_mail()
            &&& turn_input(final(session).active_turn) == turn_input(old(session).active_turn)
                + item_input(items@)
            &&& *final(session) == (Session {
                active_turn: final(session).active_turn,
                ..*old(session)
            })
        },
{
    if session.persistence_restart_required {
        return InjectRoute::Refused(CodexErr::TurnAborted);
    }
    match session.inject_if_running(items) {
        Ok(activity) => InjectRoute::Queued(activity),
        Err(items) => InjectRoute::Record { items, new_context: !has_context },
    }
}

/// How far an injection of response items has come. Each state names what it waits for.
#[derive(Debug, PartialEq, Eq)]
pub enum InjectState {
    Admission { items: Vec<ResponseItem> },
    ActiveTask { items: Vec<ResponseItem> },
    Injected,
    Context { items: Vec<ResponseItem> },
    Reference { items: Vec<ResponseItem> },
    StepContext { items: Vec<ResponseItem> },
    ContextRecorded { items: Vec<ResponseItem> },
    Recorded,
    Flushed,
    Discarded,
    Done,
}

/// What has come back.
#[derive(Debug, PartialEq, Eq)]
pub enum InjectEvent {
    Admitted(bool),
    /// The history lock is held; the task of the active turn, where there is a turn.
    ActiveTask(Option<Option<TaskKind>>),
    /// The running turn took the items, or handed them back.
    Injected(Result<(), Vec<ResponseItem>>),
    /// How the pending step ended.
    Stepped(Result<(), CodexErr>),
    /// Whether the session has a reference context already.
    Reference(bool),
    /// The operation died before it came to an end.
    Died,
    Discarded,
}

/// What to do next.
#[derive(Debug, PartialEq, Eq)]
pub enum InjectAction {
    AcquireAdmission,
    LockHistoryAndReadActiveTask,
    InjectIfRunning(Vec<ResponseItem>),
    NewTurnContext,
    ReadReferenceContext,
    CaptureStepContext,
    RecordContextUpdates,
    InjectWithoutNewTurn(Vec<ResponseItem>),
    Flush,
    /// Let nothing change until a restart, and discard what the writer holds back.
    RequireRestartAndDiscard,
    Finish(Result<(), CodexErr>),
}

pub open spec fn inject_failed(error: CodexErr) -> (InjectState, InjectAction) {
    (InjectState::Done, InjectAction::Finish(Err(error)))
}

/// The next step, nothing where `event` does not answer what `state` waits for.
pub open spec fn inject_next(state: InjectState, event: InjectEvent) -> Option<
    (InjectState, InjectAction),
> {
    match (state, event) {
        (InjectState::Done, _) => None,
        (InjectState::Discarded, InjectEvent::Discarded) => Some(
            inject_failed(CodexErr::InternalAgentDied),
        ),
        (InjectState::Discarded, _) => None,
        (_, InjectEvent::Died) => Some(
            (InjectState::Discarded, InjectAction::RequireRestartAndDiscard),
        ),
        (InjectState::Admission { items }, InjectEvent::Admitted(admitted)) => Some(
            if admitted {
                (InjectState::ActiveTask { items }, InjectAction::LockHistoryAndReadActiveTask)
            } else {
                inject_failed(CodexErr::TurnAborted)
            },
        ),
        (InjectState::ActiveTask { items }, InjectEvent::ActiveTask(task)) => Some(
            match task {
                None => (InjectState::Context { items }, InjectAction::NewTurnContext),
                Some(Some(TaskKind::Regular)) => (
                    InjectState::Injected,
                    InjectAction::InjectIfRunning(items),
                ),
                _ => inject_failed(CodexErr::InvalidRequest(Reason::NonSteerableTurn)),
            },
        ),
        (InjectState::Injected, InjectEvent::Injected(result)) => Some(
            match result {
                Ok(()) => (InjectState::Flushed, InjectAction::Flush),
                Err(items) => (InjectState::Context { items }, InjectAction::NewTurnContext),
            },
        ),
        (InjectState::Context { items }, InjectEvent::Stepped(result)) => Some(
            match result {
                Ok(()) => (InjectState::Reference { items }, InjectAction::ReadReferenceContext),
                Err(error) => inject_failed(error),
            },
        ),
        (InjectState::Reference { items }, InjectEvent::Reference(present)) => Some(
            if present {
                (InjectState::Recorded, InjectAction::InjectWithoutNewTurn(items))
            } else {
                (InjectState::StepContext { items }, InjectAction::CaptureStepContext)
            },
        ),
        (InjectState::StepContext { items }, InjectEvent::Stepped(result)) => Some(
            match result {
                Ok(()) => (
                    InjectState::ContextRecorded { items },
                    InjectAction::RecordContextUpdates,
                ),
                Err(error) => inject_failed(error),
            },
        ),
        (InjectState::ContextRecorded { items }, InjectEvent::Stepped(result)) => Some(
            match result {
                Ok(()) => (InjectState::Recorded, InjectAction::InjectWithoutNewTurn(items)),
                Err(error) => inject_failed(error),
            },
        ),
        (InjectState::Recorded, InjectEvent::Stepped(result)) => Some(
            match result {
                Ok(()) => (InjectState::Flushed, InjectAction::Flush),
                Err(error) => inject_failed(error),
            },
        ),
        (InjectState::Flushed, InjectEvent::Stepped(result)) => Some(
            (InjectState::Done, InjectAction::Finish(result)),
        ),
        _ => None,
    }
}

/// Starts to inject response items.
pub fn start_injection(items: Vec<ResponseItem>) -> (res: (InjectState, InjectAction))
    ensures
        res == (InjectState::Admission { items }, InjectAction::AcquireAdmission),
{
    (InjectState::Admission { items }, InjectAction::AcquireAdmission)
}

fn fail_injection(error: CodexErr) -> (res: (InjectState, InjectAction))
    ensures
        res == inject_failed(error),
{
    (InjectState::Done, InjectAction::Finish(Err(error)))
}

/// Takes the next step. An event that does not answer what the state waits for is handed back.
pub fn step_injection(state: InjectState, event: InjectEvent) -> (res: Result<
    (InjectState, InjectAction),
    (InjectState, InjectEvent),
>)
    ensures
        res == match inject_next(state, event) {
            Some(next) => Ok::<(InjectState, InjectAction), (InjectState, InjectEvent)>(next),
            None => Err((state, event)),
        },
{
    let next: (InjectState, InjectAction) = match (state, event) {
        (InjectState::Done, event) => {
            return Err((InjectState::Done, event));
        },
        (InjectState::Discarded, InjectEvent::Discarded) => fail_injection(
            CodexErr::InternalAgentDied,
        ),
        (InjectState::Discarded, event) => {
            return Err((InjectState::Discarded, event));
        },
        (_, InjectEvent::Died) => (
            InjectState::Discarded,
            InjectAction::RequireRestartAndDiscard,
        ),
        (InjectState::Admission { items }, InjectEvent::Admitted(admitted)) => {
            if admitted {
                (InjectState::ActiveTask { items }, InjectAction::LockHistoryAndReadActiveTask)
            } else {
                fail_injection(CodexErr::TurnAborted)
            }
        },
        (InjectState::ActiveTask { items }, InjectEvent::ActiveTask(task)) => {
            match task {
                None => (InjectState::Context { items }, InjectAction::NewTurnContext),
                Some(Some(TaskKind::Regular)) => (
                    InjectState::Injected,
                    InjectAction::InjectIfRunning(items),
                ),
                _ => fail_injection(CodexErr::InvalidRequest(Reason::NonSteerableTurn)),
            }
        },
        (InjectState::Injected, InjectEvent::Injected(result)) => {
            match result {
                Ok(()) => (InjectState::Flushed, InjectAction::Flush),
                Err(items) => (InjectState::Context { items }, InjectAction::NewTurnContext),
            }
        },
        (InjectState::Context { items }, InjectEvent::Stepped(result)) => {
            match result {
                Ok(()) => (InjectState::Reference { items }, InjectAction::ReadReferenceContext),
                Err(error) => fail_injection(error),
            }
        },
        (InjectState::Reference { items }, InjectEvent::Reference(present)) => {
            if present {
                (InjectState::Recorded, InjectAction::InjectWithoutNewTurn(items))
            } else {
                (InjectState::StepContext { items }, InjectAction::CaptureStepContext)
            }
        },
        (InjectState::StepContext { items }, InjectEvent::Stepped(result)) => {
            match result {
                Ok(()) => (
                    InjectState::ContextRecorded { items },
                    InjectAction::RecordContextUpdates,
                ),
                Err(error) => fail_injection(error),
            }
        },
        (InjectState::ContextRecorded { items }, InjectEvent::Stepped(result)) => {
            match result {
                Ok(()) => (InjectState::Recorded, InjectAction::InjectWithoutNewTurn(items)),
                Err(error) => fail_injection(error),
            }
        },
        (InjectState::Recorded, InjectEvent::Stepped(result)) => {
            match result {
                Ok(()) => (InjectState::Flushed, InjectAction::Flush),
                Err(error) => fail_injection(error),
            }
        },
        (InjectState::Flushed, InjectEvent::Stepped(result)) => (
            InjectState::Done,
            InjectAction::Finish(result),
        ),
        (state, event) => {
            return Err((state, event));
        },
    };
    Ok(next)
}

/// Where an injection stands after `events`, and all that it asked for.
pub open spec fn inject_run(items: Vec<ResponseItem>, events: Seq<InjectEvent>) -> Option<
    (InjectState, Seq<InjectAction>),
>
    decreases events.len(),
{
    if events.len() == 0 {
        Some((InjectState::Admission { items }, seq![InjectAction::AcquireAdmission]))
    } else {
        match inject_run(items, events.drop_last()) {
            Some((state, actions)) => match inject_next(state, events.last()) {
                Some((next, action)) => Some((next, actions.push(action))),
                None => None,
            },
            None => None,
        }
    }
}

spec fn held_items(state: InjectState) -> Option<Vec<ResponseItem>> {
    match state {
        InjectState::Admission { items } => Some(items),
        InjectState::ActiveTask { items } => Some(items),
        InjectState::Context { items } => Some(items),
        InjectState::Reference { items } => Some(items),
        InjectState::StepContext { items } => Some(items),
        InjectState::ContextRecorded { items } => Some(items),
        _ => None,
    }
}

/// The items that the running turn handed back are the ones that it was given.
pub open spec fn returns_what_it_got(items: Vec<ResponseItem>, events: Seq<InjectEvent>) -> bool {
    forall|i: int|
        0 <= i < events.len() ==> ((#[trigger] events[i]) matches InjectEvent::Injected(Err(back))
            ==> back == items)
}

proof fn lemma_inject_invariant(items: Vec<ResponseItem>, events: Seq<InjectEvent>)
    requires
        inject_run(items, events) is Some,
        returns_what_it_got(items, events),
    ensures
        ({
            let (state, actions) = inject_run(items, events)->Some_0;
            &&& held_items(state) is Some ==> held_items(state)->Some_0 == items
            &&& forall|i: int|
                0 <= i < actions.len() ==> {
                    &&& (#[trigger] actions[i]) matches InjectAction::InjectIfRunning(given)
                        ==> given == items
                    &&& actions[i] matches InjectAction::InjectWithoutNewTurn(given) ==> given
                        == items
                    &&& actions[i] is Finish ==> state is Done
                    &&& actions[i] == InjectAction::Finish(Ok(())) ==> i > 0 && actions[i
                        - 1] is Flush
                }
            &&& state is Flushed ==> actions.last() is Flush
            &&& actions.len() == events.len() + 1
        }),
    decreases events.len(),
{
    if events.len() > 0 {
        let head = events.drop_last();
        assert forall|i: int| 0 <= i < head.len() implies ((
        #[trigger] head[i]) matches InjectEvent::Injected(Err(back)) ==> back == items) by {
            assert(events[i] == head[i]);
        }
        lemma_inject_invariant(items, head);
        let (before, done) = inject_run(items, head)->Some_0;
        let (after, action) = inject_next(before, events.last())->Some_0;
        let actions = done.push(action);
        assert(events[events.len() - 1] == events.last());
        assert forall|i: int| 0 <= i < actions.len() implies {
            &&& (#[trigger] actions[i]) matches InjectAction::InjectIfRunning(given) ==> given
                == items
            &&& actions[i] matches InjectAction::InjectWithoutNewTurn(given) ==> given == items
            &&& actions[i] is Finish ==> after is Done
            &&& actions[i] == InjectAction::Finish(Ok(())) ==> i > 0 && actions[i - 1] is Flush
        } by {
            if i < done.len() {
                assert(actions[i] == done[i]);
            }
        }
    }
}

/// Whatever an injection hands on to the session are exactly the items it was called with, and it
/// reports success only right after a flush.
pub proof fn law_injection_hands_on_its_items_and_ends_flushed(
    items: Vec<ResponseItem>,
    events: Seq<InjectEvent>,
    i: int,
)
    requires
        inject_run(items, events) is Some,
        returns_what_it_got(items, events),
        0 <= i < inject_run(items, events)->Some_0.1.len(),
    ensures
        ({
            let actions = inject_run(items, events)->Some_0.1;
            &&& actions[i] matches InjectAction::InjectIfRunning(given) ==> given == items
            &&& actions[i] matches InjectAction::InjectWithoutNewTurn(given) ==> given == items
            &&& actions[i] == InjectAction::Finish(Ok(())) ==> i > 0 && actions[i - 1] is Flush
        }),
{
    lemma_inject_invariant(items, events);
}

/// A turn that cannot be steered takes nothing: the injection is refused before any item is
/// handed on.
pub proof fn law_non_steerable_turn_refuses_items(
    items: Vec<ResponseItem>,
    task: Option<TaskKind>,
)
    requires
        task != Some(TaskKind::Regular),
    ensures
        inject_next(InjectState::ActiveTask { items }, InjectEvent::ActiveTask(Some(task))) == Some(
            inject_failed(CodexErr::InvalidRequest(Reason::NonSteerableTurn)),
        ),
{
}

/// An injection that dies leaves the thread fenced and is answered with `InternalAgentDied`.
pub proof fn law_dead_injection_fences_the_thread(state: InjectState)
    requires
        !(state is Done),
        !(state is Discarded),
    ensures
        inject_next(state, InjectEvent::Died) == Some(
            (InjectState::Discarded, InjectAction::RequireRestartAndDiscard),
        ),
        inject_next(InjectState::Discarded, InjectEvent::Discarded) == Some(
            inject_failed(CodexErr::InternalAgentDied),
        ),
{
}

proof fn lemma_inject_step(
    items: Vec<ResponseItem>,
    events: Seq<InjectEvent>,
    event: InjectEvent,
)
    requires
        inject_run(items, events) is Some,
        inject_next(inject_run(items, events)->Some_0.0, event) is Some,
    ensures
        ({
            let (state, actions) = inject_run(items, events)->Some_0;
            let (next, action) = inject_next(state, event)->Some_0;
            inject_run(items, events.push(event)) == Some((next, actions.push(action)))
        }),
{
    assert(events.push(event).drop_last() =~= events);
}

/// While idle, the items of an injection are recorded under a new turn context, whether or not the
/// session has a reference context; where it has none, one is captured and recorded first. A
/// running turn is given the items, and where it hands items back, those are recorded instead. The
/// last thing is a flush, and its outcome is the answer.
pub proof fn law_injection_records_its_items(
    items: Vec<ResponseItem>,
    back: Vec<ResponseItem>,
    flushed: Result<(), CodexErr>,
)
    ensures
        ({
            let events: Seq<InjectEvent> = seq![
                InjectEvent::Admitted(true),
                InjectEvent::ActiveTask(None),
                InjectEvent::Stepped(Ok(())),
                InjectEvent::Reference(true),
                InjectEvent::Stepped(Ok(())),
                InjectEvent::Stepped(flushed),
            ];
            let run = inject_run(items, events);
            &&& run is Some
            &&& run->Some_0.1 == seq![
                InjectAction::AcquireAdmission,
                InjectAction::LockHistoryAndReadActiveTask,
                InjectAction::NewTurnContext,
                InjectAction::ReadReferenceContext,
                InjectAction::InjectWithoutNewTurn(items),
                InjectAction::Flush,
                InjectAction::Finish(flushed),
            ]
        }),
        ({
            let events: Seq<InjectEvent> = seq![
                InjectEvent::Admitted(true),
                InjectEvent::ActiveTask(None),
                InjectEvent::Stepped(Ok(())),
                InjectEvent::Reference(false),
                InjectEvent::Stepped(Ok(())),
                InjectEvent::Stepped(Ok(())),
                InjectEvent::Stepped(Ok(())),
                InjectEvent::Stepped(flushed),
            ];
            let run = inject_run(items, events);
            &&& run is Some
            &&& run->Some_0.1 == seq![
                InjectAction::AcquireAdmission,
                InjectAction::LockHistoryAndReadActiveTask,
                InjectAction::NewTurnContext,
                InjectAction::ReadReferenceContext,
                InjectAction::CaptureStepContext,
                InjectAction::RecordContextUpdates,
                InjectAction::InjectWithoutNewTurn(items),
                InjectAction::Flush,
                InjectAction::Finish(flushed),
            ]
        }),
        ({
            let events: Seq<InjectEvent> = seq![
                InjectEvent::Admitted(true),
                InjectEvent::ActiveTask(Some(Some(TaskKind::Regular))),
                InjectEvent::Injected(Ok(())),
                InjectEvent::Stepped(flushed),
            ];
            let run = inject_run(items, events);
            &&& run is Some
            &&& run->Some_0.1 == seq![
                InjectAction::AcquireAdmission,
                InjectAction::LockHistoryAndReadActiveTask,
                InjectAction::InjectIfRunning(items),
                InjectAction::Flush,
                InjectAction::Finish(flushed),
            ]
        }),
        ({
            let events: Seq<InjectEvent> = seq![
                InjectEvent::Admitted(true),
                InjectEvent::ActiveTask(Some(Some(TaskKind::Regular))),
                InjectEvent::Injected(Err(back)),
                InjectEvent::Stepped(Ok(())),
                InjectEvent::Reference(true),
                InjectEvent::Stepped(Ok(())),
                InjectEvent::Stepped(flushed),
            ];
            let run = inject_run(items, events);
            &&& run is Some
            &&& run->Some_0.1 == seq![
                InjectAction::AcquireAdmission,
                InjectAction::LockHistoryAndReadActiveTask,
                InjectAction::InjectIfRunning(items),
                InjectAction::NewTurnContext,
                InjectAction::ReadReferenceContext,
                InjectAction::InjectWithoutNewTurn(back),
                InjectAction::Flush,
                InjectAction::Finish(flushed),
            ]
        }),
{
    let e0 = Seq::<InjectEvent>::empty();
    lemma_inject_step(items, e0, InjectEvent::Admitted(true));
    let e1 = e0.push(InjectEvent::Admitted(true));
    lemma_inject_step(items, e1, InjectEvent::ActiveTask(None));
    let e2 = e1.push(InjectEvent::ActiveTask(None));
    lemma_inject_step(items, e2, InjectEvent::Stepped(Ok(())));
    let e3 = e2.push(InjectEvent::Stepped(Ok(())));
    lemma_inject_step(items, e3, InjectEvent::Reference(true));
    let e4 = e3.push(InjectEvent::Reference(true));
    lemma_inject_step(items, e4, InjectEvent::Stepped(Ok(())));
    let e5 = e4.push(InjectEvent::Stepped(Ok(())));
    lemma_inject_step(items, e5, InjectEvent::Stepped(flushed));
    let e6 = e5.push(InjectEvent::Stepped(flushed));
    assert(e6 =~= seq![
        InjectEvent::Admitted(true),
        InjectEvent::ActiveTask(None),
        InjectEvent::Stepped(Ok(())),
        InjectEvent::Reference(true),
        InjectEvent::Stepped(Ok(())),
        InjectEvent::Stepped(flushed),
    ]);
    assert(inject_run(items, e6)->Some_0.1 =~= seq![
        InjectAction::AcquireAdmission,
        InjectAction::LockHistoryAndReadActiveTask,
        InjectAction::NewTurnContext,
        InjectAction::ReadReferenceContext,
        InjectAction::InjectWithoutNewTurn(items),
        InjectAction::Flush,
        InjectAction::Finish(flushed),
    ]);
    lemma_inject_step(items, e3, InjectEvent::Reference(false));
    let e7 = e3.push(InjectEvent::Reference(false));
    lemma_inject_step(items, e7, InjectEvent::Stepped(Ok(())));
    let e8 = e7.push(InjectEvent::Stepped(Ok(())));
    lemma_inject_step(items, e8, InjectEvent::Stepped(Ok(())));
    let e9 = e8.push(InjectEvent::Stepped(Ok(())));
    lemma_inject_step(items, e9, InjectEvent::Stepped(Ok(())));
    let e10 = e9.push(InjectEvent::Stepped(Ok(())));
    lemma_inject_step(items, e10, InjectEvent::Stepped(flushed));
    let e11 = e10.push(InjectEvent::Stepped(flushed));
    assert(e11 =~= seq![
        InjectEvent::Admitted(true),
        InjectEvent::ActiveTask(None),
        InjectEvent::Stepped(Ok(())),
        InjectEvent::Reference(false),
        InjectEvent::Stepped(Ok(())),
        InjectEvent::Stepped(Ok(())),
        InjectEvent::Stepped(Ok(())),
        InjectEvent::Stepped(flushed),
    ]);
    assert(inject_run(items, e11)->Some_0.1 =~= seq![
        InjectAction::AcquireAdmission,
        InjectAction::LockHistoryAndReadActiveTask,
        InjectAction::NewTurnContext,
        InjectAction::ReadReferenceContext,
        InjectAction::CaptureStepContext,
        InjectAction::RecordContextUpdates,
        InjectAction::InjectWithoutNewTurn(items),
        InjectAction::Flush,
        InjectAction::Finish(flushed),
    ]);
    lemma_inject_step(items, e1, InjectEvent::ActiveTask(Some(Some(TaskKind::Regular))));
    let e12 = e1.push(InjectEvent::ActiveTask(Some(Some(TaskKind::Regular))));
    lemma_inject_step(items, e12, InjectEvent::Injected(Ok(())));
    let e13 = e12.push(InjectEvent::Injected(Ok(())));
    lemma_inject_step(items, e13, InjectEvent::Stepped(flushed));
    let e14 = e13.push(InjectEvent::Stepped(flushed));
    assert(e14 =~= seq![
        InjectEvent::Admitted(true),
        InjectEvent::ActiveTask(Some(Some(TaskKind::Regular))),
        InjectEvent::Injected(Ok(())),
        InjectEvent::Stepped(flushed),
    ]);
    assert(inject_run(items, e14)->Some_0.1 =~= seq![
        InjectAction::AcquireAdmission,
        InjectAction::LockHistoryAndReadActiveTask,
        InjectAction::InjectIfRunning(items),
        InjectAction::Flush,
        InjectAction::Finish(flushed),
    ]);
    lemma_inject_step(items, e12, InjectEvent::Injected(Err(back)));
    let e15 = e12.push(InjectEvent::Injected(Err(back)));
    lemma_inject_step(items, e15, InjectEvent::Stepped(Ok(())));
    let e16 = e15.push(InjectEvent::Stepped(Ok(())));
    lemma_inject_step(items, e16, InjectEvent::Reference(true));
    let e17 = e16.push(InjectEvent::Reference(true));
    lemma_inject_step(items, e17, InjectEvent::Stepped(Ok(())));
    let e18 = e17.push(InjectEvent::Stepped(Ok(())));
    lemma_inject_step(items, e18, InjectEvent::Stepped(flushed));
    let e19 = e18.push(InjectEvent::Stepped(flushed));
    assert(e19 =~= seq![
        InjectEvent::Admitted(true),
        InjectEvent::ActiveTask(Some(Some(TaskKind::Regular))),
        InjectEvent::Injected(Err(back)),
        InjectEvent::Stepped(Ok(())),
        InjectEvent::Reference(true),
        InjectEvent::Stepped(Ok(())),
        InjectEvent::Stepped(flushed),
    ]);
    assert(inject_run(items, e19)->Some_0.1 =~= seq![
        InjectAction::AcquireAdmission,
        InjectAction::LockHistoryAndReadActiveTask,
        InjectAction::InjectIfRunning(items),
        InjectAction::NewTurnContext,
        InjectAction::ReadReferenceContext,
        InjectAction::InjectWithoutNewTurn(back),
        InjectAction::Flush,
        InjectAction::Finish(flushed),
    ]);
}

/// An injection that is not admitted is answered with `TurnAborted`, and one that fails on its way
/// with the error that it met.
pub proof fn law_injection_ends_with_its_first_failure(
    items: Vec<ResponseItem>,
    error: CodexErr,
)
    ensures
        ({
            let events: Seq<InjectEvent> = seq![InjectEvent::Admitted(false)];
            let run = inject_run(items, events);
            &&& run is Some
            &&& run->Some_0.1.last() == (InjectAction::Finish(Err(CodexErr::TurnAborted)))
        }),
        ({
            let events: Seq<InjectEvent> = seq![
                InjectEvent::Admitted(true),
                InjectEvent::ActiveTask(None),
                InjectEvent::Stepped(Err(error)),
            ];
            let run = inject_run(items, events);
            &&& run is Some
            &&& run->Some_0.1.last() == (InjectAction::Finish(Err(error)))
        }),
        ({
            let events: Seq<InjectEvent> = seq![
                InjectEvent::Admitted(true),
                InjectEvent::ActiveTask(None),
                InjectEvent::Stepped(Ok(())),
                InjectEvent::Reference(false),
                InjectEvent::Stepped(Err(error)),
            ];
            let run = inject_run(items, events);
            &&& run is Some
            &&& run->Some_0.1.last() == (InjectAction::Finish(Err(error)))
        }),
        ({
            let events: Seq<InjectEvent> = seq![
                InjectEvent::Admitted(true),
                InjectEvent::ActiveTask(None),
                InjectEvent::Stepped(Ok(())),
                InjectEvent::Reference(false),
                InjectEvent::Stepped(Ok(())),
                InjectEvent::Stepped(Err(error)),
            ];
            let run = inject_run(items, events);
            &&& run is Some
            &&& run->Some_0.1.last() == (InjectAction::Finish(Err(error)))
        }),
        ({
            let events: Seq<InjectEvent> = seq![
                InjectEvent::Admitted(true),
                InjectEvent::ActiveTask(None),
                InjectEvent::Stepped(Ok(())),
                InjectEvent::Reference(true),
                InjectEvent::Stepped(Err(error)),
            ];
            let run = inject_run(items, events);
            &&& run is Some
            &&& run->Some_0.1.last() == (InjectAction::Finish(Err(error)))
        }),
{
    let e0 = Seq::<InjectEvent>::empty();
    lemma_inject_step(items, e0, InjectEvent::Admitted(false));
    let e1 = e0.push(InjectEvent::Admitted(false));
    lemma_inject_step(items, e0, InjectEvent::Admitted(true));
    let e2 = e0.push(InjectEvent::Admitted(true));
    lemma_inject_step(items, e2, InjectEvent::ActiveTask(None));
    let e3 = e2.push(InjectEvent::ActiveTask(None));
    lemma_inject_step(items, e3, InjectEvent::Stepped(Err(error)));
    let e4 = e3.push(InjectEvent::Stepped(Err(error)));
    assert(e4 =~= seq![
        InjectEvent::Admitted(true),
        InjectEvent::ActiveTask(None),
        InjectEvent::Stepped(Err(error)),
    ]);
    lemma_inject_step(items, e3, InjectEvent::Stepped(Ok(())));
    let e5 = e3.push(InjectEvent::Stepped(Ok(())));
    lemma_inject_step(items, e5, InjectEvent::Reference(false));
    let e6 = e5.push(InjectEvent::Reference(false));
    lemma_inject_step(items, e6, InjectEvent::Stepped(Err(error)));
    let e7 = e6.push(InjectEvent::Stepped(Err(error)));
    assert(e7 =~= seq![
        InjectEvent::Admitted(true),
        InjectEvent::ActiveTask(None),
        InjectEvent::Stepped(Ok(())),
        InjectEvent::Reference(false),
        InjectEvent::Stepped(Err(error)),
    ]);
    lemma_inject_step(items, e6, InjectEvent::Stepped(Ok(())));
    let e8 = e6.push(InjectEvent::Stepped(Ok(())));
    lemma_inject_step(items, e8, InjectEvent::Stepped(Err(error)));
    let e9 = e8.push(InjectEvent::Stepped(Err(error)));
    assert(e9 =~= seq![
        InjectEvent::Admitted(true),
        InjectEvent::ActiveTask(None),
        InjectEvent::Stepped(Ok(())),
        InjectEvent::Reference(false),
        InjectEvent::Stepped(Ok(())),
        InjectEvent::Stepped(Err(error)),
    ]);
    lemma_inject_step(items, e5, InjectEvent::Reference(true));
    let e10 = e5.push(InjectEvent::Reference(true));
    lemma_inject_step(items, e10, InjectEvent::Stepped(Err(error)));
    let e11 = e10.push(InjectEvent::Stepped(Err(error)));
    assert(e11 =~= seq![
        InjectEvent::Admitted(true),
        InjectEvent::ActiveTask(None),
        InjectEvent::Stepped(Ok(())),
        InjectEvent::Reference(true),
        InjectEvent::Stepped(Err(error)),
    ]);
}

/// Whether the items of an injection were handed on before the `i`-th action: they were recorded,
/// or the running turn took them.
pub open spec fn were_handed_on(
    items: Vec<ResponseItem>,
    events: Seq<InjectEvent>,
    actions: Seq<InjectAction>,
    i: int,
) -> bool {
    exists|k: int|
        0 <= k < i && k < events.len() && ((#[trigger] actions[k]
            == InjectAction::InjectWithoutNewTurn(items) && events[k] == InjectEvent::Stepped(
            Ok(()),
        )) || (actions[k] == InjectAction::InjectIfRunning(items) && events[k]
            == InjectEvent::Injected(Ok(()))))
}

proof fn lemma_flushed_after_handing_on(items: Vec<ResponseItem>, events: Seq<InjectEvent>)
    requires
        inject_run(items, events) is Some,
        returns_what_it_got(items, events),
    ensures
        ({
            let (state, actions) = inject_run(items, events)->Some_0;
            &&& state is Recorded ==> actions.last() == InjectAction::InjectWithoutNewTurn(items)
            &&& state is Injected ==> actions.last() == InjectAction::InjectIfRunning(items)
            &&& state is Flushed ==> were_handed_on(items, events, actions, events.len() as int)
            &&& forall|i: int|
                0 <= i < actions.len() && #[trigger] actions[i] == InjectAction::Finish(Ok(()))
                    ==> state is Done && were_handed_on(items, events, actions, i)
        }),
    decreases events.len(),
{
    lemma_inject_invariant(items, events);
    if events.len() > 0 {
        let head = events.drop_last();
        assert forall|i: int| 0 <= i < head.len() implies ((
        #[trigger] head[i]) matches InjectEvent::Injected(Err(back)) ==> back == items) by {
            assert(events[i] == head[i]);
        }
        lemma_flushed_after_handing_on(items, head);
        lemma_inject_invariant(items, head);
        let (before, done) = inject_run(items, head)->Some_0;
        let (after, action) = inject_next(before, events.last())->Some_0;
        let actions = done.push(action);
        let last = events.len() - 1;
        assert(events[last] == events.last());
        assert(actions[last] == done.last());
        assert forall|k: int| 0 <= k < head.len() implies #[trigger] events[k] == head[k] by {}
        assert forall|k: int| 0 <= k < done.len() implies #[trigger] actions[k] == done[k] by {}
        if before is Flushed {
            let k = choose|k: int|
                0 <= k < head.len() && ((#[trigger] done[k] == InjectAction::InjectWithoutNewTurn(
                    items,
                ) && head[k] == InjectEvent::Stepped(Ok(()))) || (done[k]
                    == InjectAction::InjectIfRunning(items) && head[k] == InjectEvent::Injected(
                    Ok(()),
                )));
            assert(actions[k] == done[k] && events[k] == head[k]);
            assert(were_handed_on(items, events, actions, events.len() as int));
        }
        if let InjectEvent::Stepped(Ok(unit)) = events.last() {
            assert(unit == ());
        }
        if let InjectEvent::Injected(Ok(unit)) = events.last() {
            assert(unit == ());
        }
        if after is Flushed {
            assert(actions[last] == done.last());
            assert(were_handed_on(items, events, actions, events.len() as int));
        }
        assert forall|i: int|
            0 <= i < actions.len() && #[trigger] actions[i] == InjectAction::Finish(
                Ok(()),
            ) implies after is Done && were_handed_on(items, events, actions, i) by {
            if i < done.len() {
                assert(done[i] == InjectAction::Finish(Ok(())));
            } else {
                assert(before is Flushed);
            }
        }
    }
}

/// An injection reports success only if its items were handed on: they were recorded without a
/// turn, or the running turn took them.
pub proof fn law_successful_injection_handed_its_items_on(
    items: Vec<ResponseItem>,
    events: Seq<InjectEvent>,
    i: int,
)
    requires
        inject_run(items, events) is Some,
        returns_what_it_got(items, events),
        0 <= i < inject_run(items, events)->Some_0.1.len(),
        inject_run(items, events)->Some_0.1[i] == InjectAction::Finish(Ok(())),
    ensures
        were_handed_on(items, events, inject_run(items, events)->Some_0.1, i),
{
    lemma_flushed_after_handing_on(items, events);
}

/// Every injected item becomes one input of the turn, in order.
pub proof fn law_injected_items_keep_their_order(items: Seq<ResponseItem>, item: ResponseItem)
    ensures
        item_input(Seq::empty()).len() == 0,
        item_input(items.push(item)) == item_input(items).push(TurnInput::ResponseItem(item)),
{
    assert(item_input(items.push(item)) =~= item_input(items).push(TurnInput::ResponseItem(item)));
}

/// Input can be added to a turn exactly where it runs a regular task.
pub proof fn law_only_regular_tasks_take_input(turn: ActiveTurn)
    ensures
        !is_steerable(None),
        is_steerable(Some(turn)) <==> match turn.task {
            Some(task) => match task.kind {
                TaskKind::Regular => true,
                TaskKind::Review => false,
                TaskKind::Compact => false,
            },
            None => false,
        },
{
}

/// An injection takes an answer exactly where it waits for one of that kind, and none when it is
/// done; it may die wherever it waits, but for the end of its own cleaning up. It is done exactly
/// when its last word is said.
pub proof fn law_injection_takes_only_awaited_answers(state: InjectState, event: InjectEvent)
    ensures
        inject_next(state, event) is Some <==> {
            ||| event is Died && !(state is Discarded) && !(state is Done)
            ||| state is Admission && event is Admitted
            ||| state is ActiveTask && event is ActiveTask
            ||| state is Injected && event is Injected
            ||| state is Context && event is Stepped
            ||| state is Reference && event is Reference
            ||| state is StepContext && event is Stepped
            ||| state is ContextRecorded && event is Stepped
            ||| state is Recorded && event is Stepped
            ||| state is Flushed && event is Stepped
            ||| state is Discarded && event is Discarded
        },
        inject_next(state, event) matches Some((after, action)) ==> (after is Done
            <==> action is Finish),
{
}

/// An injection begins as its run does.
pub proof fn law_inject_begins_as_its_run_does(
    items: Vec<ResponseItem>,
    res: (InjectState, InjectAction),
)
    requires
        call_ensures(start_injection, (items,), res),
    ensures
        inject_run(items, Seq::<InjectEvent>::empty()) == Some((res.0, seq![res.1])),
{
}

/// An injection that takes a step goes on as its run does, with all that it asked for before; an
/// answer that it does not wait for is handed back, and nothing has changed.
pub proof fn law_inject_goes_on_as_its_run_does(
    items: Vec<ResponseItem>,
    events: Seq<InjectEvent>,
    state: InjectState,
    actions: Seq<InjectAction>,
    event: InjectEvent,
    res: Result<(InjectState, InjectAction), (InjectState, InjectEvent)>,
)
    requires
        inject_run(items, events) == Some((state, actions)),
        call_ensures(step_injection, (state, event), res),
    ensures
        match res {
            Ok((next, action)) => inject_run(items, events.push(event)) == Some(
                (next, actions.push(action)),
            ),
            Err(back) => back == (state, event) && inject_run(items, events.push(event)) is None,
        },
{
    assert(events.push(event).drop_last() =~= events);
}

/// Items that are injected into a session are queued for its regular task behind what is queued,
/// or handed back to be recorded, and never both. On a thread that has to be restarted they are
/// refused, and nothing changes.
pub proof fn law_injected_items_are_queued_or_recorded<S>(
    session: &mut Session<S>,
    items: Vec<ResponseItem>,
    has_context: bool,
    res: InjectRoute,
)
    requires
        call_ensures(route_injection::<S>, (session, items, has_context), res),
    ensures
        old(session).persistence_restart_required <==> res is Refused,
        res is Refused ==> res == InjectRoute::Refused(CodexErr::TurnAborted),
        res is Queued <==> !old(session).persistence_restart_required && is_steerable(
            old(session).active_turn,
        ),
        res is Queued ==> {
            let before = turn_input(old(session).active_turn);
            let after = turn_input(final(session).active_turn);
            &&& after.len() == before.len() + items@.len()
            &&& after.take(before.len() as int) == before
            &&& forall|i: int|
                0 <= i < items@.len() ==> after[before.len() + i] == TurnInput::ResponseItem(
                    #[trigger] items@[i],
                )
        },
        res matches InjectRoute::Record { items: to_record, new_context } ==> to_record == items
            && new_context == !has_context,
        !(res is Queued) ==> *final(session) == *old(session),
{
    if res is Queued {
        let before = turn_input(old(session).active_turn);
        let after = turn_input(final(session).active_turn);
        assert(after.take(before.len() as int) =~= before);
        assert forall|i: int| 0 <= i < items@.len() implies after[before.len() + i]
            == TurnInput::ResponseItem(#[trigger] items@[i]) by {
            assert(after[before.len() + i] == item_input(items@)[i]);
        }
    }
}

} // verus!
