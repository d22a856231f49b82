//! Starting a turn by the session's own account, which happens only while nothing else runs.
use crate::protocol::ModeKind;
use crate::protocol::TaskStartOutcome;
use crate::session::input_queue::TurnInput;
use vstd::prelude::*;

verus! {

/// Why a turn was not started.
#[derive(Clone, Copy, Debug, PartialEq, Eq, Structural)]
pub enum TryStartTurnIfIdleRejectionReason {
    PendingTriggerTurn,
    PlanMode,
    Busy,
    PersistenceFailed,
    TaskEndedBeforePersistence,
}

/// A turn was not started; the input is handed back.
#[derive(Clone, Debug, PartialEq, Eq)]
pub struct TryStartTurnIfIdleError {
    pub reason: TryStartTurnIfIdleRejectionReason,
    pub input: Vec<TurnInput>,
}

/// Whether `input` holds something that a user sent.
pub open spec fn holds_user_input(input: Seq<TurnInput>) -> bool {
    exists|i: int|
        0 <= i < input.len() && ((#[trigger] input[i]) matches TurnInput::UserInput { content, .. }
            && content@.len() > 0)
}

/// Whether `input` holds something that a user sent.
pub fn has_user_input(input: &Vec<TurnInput>) -> (res: bool)
    ensures
        res == holds_user_input(input@),
{
    let mut i: usize = 0;
    while i < input.len()
        invariant
            i <= input.len(),
            forall|k: int|
                0 <= k < i ==> !((#[trigger] input@[k]) matches TurnInput::UserInput { content, .. }
                    && content@.len() > 0),
        decreases input.len() - i,
    {
        if let TurnInput::UserInput { content, .. } = &input[i] {
            if content.len() > 0 {
                return true;
            }
        }
        i = i + 1;
    }
    false
}

/// How far a start has come.
#[derive(Clone, Copy, Debug, PartialEq, Eq, Structural)]
pub enum IdleTurnStage {
    /// Waiting for the checkpoint admission.
    Admission,
    /// Waiting to hear whether other work is pending.
    PendingWork,
    /// Waiting to hear the session's mode.
    Mode,
    /// Waiting for the reservation.
    Reservation,
    /// The session is reserved; waiting to hear again whether other work is pending.
    PendingAfterReservation,
    /// Waiting for a turn context.
    Context,
    /// Waiting for the model warnings to be out.
    Warnings,
    /// Waiting to hear a last time whether other work is pending.
    PendingBeforeStart,
    /// Waiting to hear whether the reservation still stands.
    StillReserved,
    /// Waiting for the task to start.
    Start,
    /// Waiting to hear that the user's input is durable.
    Persistence,
    Done,
}

/// A start in progress. The input stays here until the start is decided.
#[derive(Clone, Debug, PartialEq, Eq)]
pub struct IdleTurnState {
    pub input: Vec<TurnInput>,
    pub user_input: bool,
    pub stage: IdleTurnStage,
}

/// What has come back.
#[derive(Clone, Copy, Debug, PartialEq, Eq)]
pub enum IdleTurnEvent {
    Admitted(bool),
    PendingWork(bool),
    Mode(ModeKind),
    /// Whether the session was idle and is now reserved.
    Reserved(bool),
    /// The mode of the new turn context, if there is one.
    Context(Option<ModeKind>),
    Warned,
    StillReserved(bool),
    Started(TaskStartOutcome),
    /// What the task said of the user's input; nothing where it ended without a word.
    Persisted(Option<Result<(), TryStartTurnIfIdleRejectionReason>>),
}

/// What to do next.
#[derive(Clone, Debug, PartialEq, Eq)]
pub enum IdleTurnAction {
    AcquireAdmission,
    ReadPendingWork,
    ReadMode,
    Reserve,
    NewTurnContext,
    EmitModelWarnings,
    CheckReservation,
    /// Clear the connector selection, log the prompt, and start a task with the state's input
    /// and a receipt for it.
    StartWithUserInput,
    /// Queue the state's input for the reserved turn, and start a task without input.
    QueueInputAndStart,
    AwaitPersistence,
    Started,
    /// Give the reservation up and start what is pending, as far as the flags say, and hand the
    /// error to the caller.
    Reject { clear_reservation: bool, start_pending_work: bool, error: TryStartTurnIfIdleError },
}

/// A refusal that happens at `stage`.
pub open spec fn idle_turn_refused(
    state: IdleTurnState,
    reason: TryStartTurnIfIdleRejectionReason,
    clear_reservation: bool,
    start_pending_work: bool,
) -> (IdleTurnStage, Option<Vec<TurnInput>>, IdleTurnAction) {
    (
        IdleTurnStage::Done,
        None,
        IdleTurnAction::Reject {
            clear_reservation,
            start_pending_work,
            error: TryStartTurnIfIdleError { reason, input: state.input },
        },
    )
}

pub open spec fn idle_turn_goes_on(
    state: IdleTurnState,
    stage: IdleTurnStage,
    action: IdleTurnAction,
) -> (IdleTurnStage, Option<Vec<TurnInput>>, IdleTurnAction) {
    (stage, Some(state.input), action)
}

/// The next stage, the input that is still held there, and what to do; nothing where `event` does
/// not answer what `state` waits for.
pub open spec fn idle_turn_next(state: IdleTurnState, event: IdleTurnEvent) -> Option<
    (IdleTurnStage, Option<Vec<TurnInput>>, IdleTurnAction),
> {
    let plan_forbids = |mode: ModeKind| !state.user_input && mode == ModeKind::Plan;
    match (state.stage, event) {
        (IdleTurnStage::Admission, IdleTurnEvent::Admitted(admitted)) => Some(
            if admitted {
                idle_turn_goes_on(
                    state,
                    IdleTurnStage::PendingWork,
                    IdleTurnAction::ReadPendingWork,
                )
            } else {
                idle_turn_refused(
                    state,
                    TryStartTurnIfIdleRejectionReason::PersistenceFailed,
                    false,
                    false,
                )
            },
        ),
        (IdleTurnStage::PendingWork, IdleTurnEvent::PendingWork(pending)) => Some(
            if pending {
                idle_turn_refused(
                    state,
                    TryStartTurnIfIdleRejectionReason::PendingTriggerTurn,
                    false,
                    false,
                )
            } else if state.user_input {
                idle_turn_goes_on(state, IdleTurnStage::Reservation, IdleTurnAction::Reserve)
            } else {
                idle_turn_goes_on(state, IdleTurnStage::Mode, IdleTurnAction::ReadMode)
            },
        ),
        (IdleTurnStage::Mode, IdleTurnEvent::Mode(mode)) => Some(
            if plan_forbids(mode) {
                idle_turn_refused(
                    state,
                    TryStartTurnIfIdleRejectionReason::PlanMode,
                    false,
                    false,
                )
            } else {
                idle_turn_goes_on(state, IdleTurnStage::Reservation, IdleTurnAction::Reserve)
            },
        ),
        (IdleTurnStage::Reservation, IdleTurnEvent::Reserved(reserved)) => Some(
            if reserved {
                idle_turn_goes_on(
                    state,
                    IdleTurnStage::PendingAfterReservation,
                    IdleTurnAction::ReadPendingWork,
                )
            } else {
                idle_turn_refused(state, TryStartTurnIfIdleRejectionReason::Busy, false, false)
            },
        ),
        (IdleTurnStage::PendingAfterReservation, IdleTurnEvent::PendingWork(pending)) => Some(
            if pending {
                idle_turn_refused(
                    state,
                    TryStartTurnIfIdleRejectionReason::PendingTriggerTurn,
                    true,
                    true,
                )
            } else {
                idle_turn_goes_on(state, IdleTurnStage::Context, IdleTurnAction::NewTurnContext)
            },
        ),
        (IdleTurnStage::Context, IdleTurnEvent::Context(context)) => Some(
            match context {
                None => idle_turn_refused(
                    state,
                    TryStartTurnIfIdleRejectionReason::PersistenceFailed,
                    true,
                    false,
                ),
                Some(mode) => if plan_forbids(mode) {
                    idle_turn_refused(
                        state,
                        TryStartTurnIfIdleRejectionReason::PlanMode,
                        true,
                        true,
                    )
                } else {
                    idle_turn_goes_on(
                        state,
                        IdleTurnStage::Warnings,
                        IdleTurnAction::EmitModelWarnings,
                    )
                },
            },
        ),
        (IdleTurnStage::Warnings, IdleTurnEvent::Warned) => Some(
            idle_turn_goes_on(
                state,
                IdleTurnStage::PendingBeforeStart,
                IdleTurnAction::ReadPendingWork,
            ),
        ),
        (IdleTurnStage::PendingBeforeStart, IdleTurnEvent::PendingWork(pending)) => Some(
            if pending {
                idle_turn_refused(
                    state,
                    TryStartTurnIfIdleRejectionReason::PendingTriggerTurn,
                    true,
                    true,
                )
            } else {
                idle_turn_goes_on(
                    state,
                    IdleTurnStage::StillReserved,
                    IdleTurnAction::CheckReservation,
                )
            },
        ),
        (IdleTurnStage::StillReserved, IdleTurnEvent::StillReserved(reserved)) => Some(
            if !reserved {
                idle_turn_refused(state, TryStartTurnIfIdleRejectionReason::Busy, true, false)
            } else if state.user_input {
                idle_turn_goes_on(
                    state,
                    IdleTurnStage::Start,
                    IdleTurnAction::StartWithUserInput,
                )
            } else {
                idle_turn_goes_on(
                    state,
                    IdleTurnStage::Start,
                    IdleTurnAction::QueueInputAndStart,
                )
            },
        ),
        (IdleTurnStage::Start, IdleTurnEvent::Started(outcome)) => Some(
            match outcome {
                TaskStartOutcome::Started => if state.user_input {
                    idle_turn_goes_on(
                        state,
                        IdleTurnStage::Persistence,
                        IdleTurnAction::AwaitPersistence,
                    )
                } else {
                    idle_turn_goes_on(state, IdleTurnStage::Done, IdleTurnAction::Started)
                },
                TaskStartOutcome::RestartRequired => idle_turn_refused(
                    state,
                    TryStartTurnIfIdleRejectionReason::PersistenceFailed,
                    true,
                    false,
                ),
                TaskStartOutcome::Superseded => idle_turn_refused(
                    state,
                    TryStartTurnIfIdleRejectionReason::Busy,
                    true,
                    false,
                ),
            },
        ),
        (IdleTurnStage::Persistence, IdleTurnEvent::Persisted(outcome)) => Some(
            match outcome {
                Some(Ok(())) => idle_turn_goes_on(
                    state,
                    IdleTurnStage::Done,
                    IdleTurnAction::Started,
                ),
                Some(Err(reason)) => idle_turn_refused(state, reason, false, false),
                None => idle_turn_refused(
                    state,
                    TryStartTurnIfIdleRejectionReason::TaskEndedBeforePersistence,
                    false,
                    false,
                ),
            },
        ),
        _ => None,
    }
}

/// Starts to start a turn. There is nothing to do without input.
pub fn start_idle_turn(input: Vec<TurnInput>) -> (res: (IdleTurnState, IdleTurnAction))
    ensures
        res.0.input == input,
        res.0.user_input == holds_user_input(input@),
        input@.len() == 0 ==> res.0.stage == IdleTurnStage::Done && res.1
            == IdleTurnAction::Started,
        input@.len() > 0 ==> res.0.stage == IdleTurnStage::Admission && res.1
            == IdleTurnAction::AcquireAdmission,
{
    let user_input: bool = has_user_input(&input);
    if input.len() == 0 {
        (
            IdleTurnState { input, user_input, stage: IdleTurnStage::Done },
            IdleTurnAction::Started,
        )
    } else {
        (
            IdleTurnState { input, user_input, stage: IdleTurnStage::Admission },
            IdleTurnAction::AcquireAdmission,
        )
    }
}

fn go_on(state: IdleTurnState, stage: IdleTurnStage, action: IdleTurnAction) -> (res: (
    IdleTurnState,
    IdleTurnAction,
))
    ensures
        res.0.stage == stage,
        res.0.input == state.input,
        res.0.user_input == state.user_input,
        res.1 == action,
{
    (IdleTurnState { input: state.input, user_input: state.user_input, stage }, action)
}

fn refuse(
    state: IdleTurnState,
    reason: TryStartTurnIfIdleRejectionReason,
    clear_reservation: bool,
    start_pending_work: bool,
) -> (res: (IdleTurnState, IdleTurnAction))
    ensures
        res.0.stage == IdleTurnStage::Done,
        res.0.input@.len() == 0,
        res.0.user_input == state.user_input,
        res.1 == idle_turn_refused(state, reason, clear_reservation, start_pending_work).2,
{
    (
        IdleTurnState {
            input: Vec::new(),
            user_input: state.user_input,
            stage: IdleTurnStage::Done,
        },
        IdleTurnAction::Reject {
            clear_reservation,
            start_pending_work,
            error: TryStartTurnIfIdleError { reason, input: state.input },
        },
    )
}

/// Takes the next step. An event that does not answer what the state waits for hands the state
/// back.
pub fn step_idle_turn(state: IdleTurnState, event: IdleTurnEvent) -> (res: Result<
    (IdleTurnState, IdleTurnAction),
    IdleTurnState,
>)
    ensures
        match idle_turn_next(state, event) {
            Some((stage, input, action)) => {
                &&& res is Ok
                &&& res->Ok_0.0.stage == stage
                &&& res->Ok_0.0.user_input == state.user_input
                &&& match input {
                    Some(input) => res->Ok_0.0.input == input,
                    None => res->Ok_0.0.input@.len() == 0,
                }
                &&& res->Ok_0.1 == action
            },
            None => res == Err::<(IdleTurnState, IdleTurnAction), IdleTurnState>(state),
        },
{
    let user_input: bool = state.user_input;
    match (state.stage, event) {
        (IdleTurnStage::Admission, IdleTurnEvent::Admitted(admitted)) => {
            if admitted {
                Ok(go_on(state, IdleTurnStage::PendingWork, IdleTurnAction::ReadPendingWork))
            } else {
                Ok(
                    refuse(
                        state,
                        TryStartTurnIfIdleRejectionReason::PersistenceFailed,
                        false,
                        false,
                    ),
                )
            }
        },
        (IdleTurnStage::PendingWork, IdleTurnEvent::PendingWork(pending)) => {
            if pending {
                Ok(
                    refuse(
                        state,
                        TryStartTurnIfIdleRejectionReason::PendingTriggerTurn,
                        false,
                        false,
                    ),
                )
            } else if user_input {
                Ok(go_on(state, IdleTurnStage::Reservation, IdleTurnAction::Reserve))
            } else {
                Ok(go_on(state, IdleTurnStage::Mode, IdleTurnAction::ReadMode))
            }
        },
        (IdleTurnStage::Mode, IdleTurnEvent::Mode(mode)) => {
            if !user_input && mode == ModeKind::Plan {
                Ok(refuse(state, TryStartTurnIfIdleRejectionReason::PlanMode, false, false))
            } else {
                Ok(go_on(state, IdleTurnStage::Reservation, IdleTurnAction::Reserve))
            }
        },
        (IdleTurnStage::Reservation, IdleTurnEvent::Reserved(reserved)) => {
            if reserved {
                Ok(
                    go_on(
                        state,
                        IdleTurnStage::PendingAfterReservation,
                        IdleTurnAction::ReadPendingWork,
                    ),
                )
            } else {
                Ok(refuse(state, TryStartTurnIfIdleRejectionReason::Busy, false, false))
            }
        },
        (IdleTurnStage::PendingAfterReservation, IdleTurnEvent::PendingWork(pending)) => {
            if pending {
                Ok(
                    refuse(
                        state,
                        TryStartTurnIfIdleRejectionReason::PendingTriggerTurn,
                        true,
                        true,
                    ),
                )
            } else {
                Ok(go_on(state, IdleTurnStage::Context, IdleTurnAction::NewTurnContext))
            }
        },
        (IdleTurnStage::Context, IdleTurnEvent::Context(context)) => {
            match context {
                None => Ok(
                    refuse(
                        state,
                        TryStartTurnIfIdleRejectionReason::PersistenceFailed,
                        true,
                        false,
                    ),
                ),
                Some(mode) => {
                    if !user_input && mode == ModeKind::Plan {
                        Ok(refuse(state, TryStartTurnIfIdleRejectionReason::PlanMode, true, true))
                    } else {
                        Ok(go_on(state, IdleTurnStage::Warnings, IdleTurnAction::EmitModelWarnings))
                    }
                },
            }
        },
        (IdleTurnStage::Warnings, IdleTurnEvent::Warned) => Ok(
            go_on(state, IdleTurnStage::PendingBeforeStart, IdleTurnAction::ReadPendingWork),
        ),
        (IdleTurnStage::PendingBeforeStart, IdleTurnEvent::PendingWork(pending)) => {
            if pending {
                Ok(
                    refuse(
                        state,
                        TryStartTurnIfIdleRejectionReason::PendingTriggerTurn,
                        true,
                        true,
                    ),
                )
            } else {
                Ok(go_on(state, IdleTurnStage::StillReserved, IdleTurnAction::CheckReservation))
            }
        },
        (IdleTurnStage::StillReserved, IdleTurnEvent::StillReserved(reserved)) => {
            if !reserved {
                Ok(refuse(state, TryStartTurnIfIdleRejectionReason::Busy, true, false))
            } else if user_input {
                Ok(go_on(state, IdleTurnStage::Start, IdleTurnAction::StartWithUserInput))
            } else {
                Ok(go_on(state, IdleTurnStage::Start, IdleTurnAction::QueueInputAndStart))
            }
        },
        (IdleTurnStage::Start, IdleTurnEvent::Started(outcome)) => {
            match outcome {
                TaskStartOutcome::Started => {
                    if user_input {
                        Ok(
                            go_on(
                                state,
                                IdleTurnStage::Persistence,
                                IdleTurnAction::AwaitPersistence,
                            ),
                        )
                    } else {
                        Ok(go_on(state, IdleTurnStage::Done, IdleTurnAction::Started))
                    }
                },
                TaskStartOutcome::RestartRequired => Ok(
                    refuse(
                        state,
                        TryStartTurnIfIdleRejectionReason::PersistenceFailed,
                        true,
                        false,
                    ),
                ),
                TaskStartOutcome::Superseded => Ok(
                    refuse(state, TryStartTurnIfIdleRejectionReason::Busy, true, false),
                ),
            }
        },
        (IdleTurnStage::Persistence, IdleTurnEvent::Persisted(outcome)) => {
            match outcome {
                Some(Ok(())) => Ok(go_on(state, IdleTurnStage::Done, IdleTurnAction::Started)),
                Some(Err(reason)) => Ok(refuse(state, reason, false, false)),
                None => Ok(
                    refuse(
                        state,
                        TryStartTurnIfIdleRejectionReason::TaskEndedBeforePersistence,
                        false,
                        false,
                    ),
                ),
            }
        },
        _ => Err(state),
    }
}

/// Where a start stands after `events`, and all that it asked for.
pub open spec fn idle_turn_run(input: Vec<TurnInput>, events: Seq<IdleTurnEvent>) -> Option<
    (IdleTurnStage, Seq<IdleTurnAction>),
>
    decreases events.len(),
{
    if events.len() == 0 {
        if input@.len() == 0 {
            Some((IdleTurnStage::Done, seq![IdleTurnAction::Started]))
        } else {
            Some((IdleTurnStage::Admission, seq![IdleTurnAction::AcquireAdmission]))
        }
    } else {
        match idle_turn_run(input, events.drop_last()) {
            Some((stage, actions)) => match idle_turn_next(
                IdleTurnState { input, user_input: holds_user_input(input@), stage },
                events.last(),
            ) {
                Some((next, _, action)) => Some((next, actions.push(action))),
                None => None,
            },
            None => None,
        }
    }
}

/// Whether the session was reserved for the turn.
pub open spec fn was_reserved(events: Seq<IdleTurnEvent>) -> bool {
    events.contains(IdleTurnEvent::Reserved(true))
}

/// Whether a task was started.
pub open spec fn was_started(events: Seq<IdleTurnEvent>) -> bool {
    events.contains(IdleTurnEvent::Started(TaskStartOutcome::Started))
}

spec fn reserved_stage(stage: IdleTurnStage) -> bool {
    match stage {
        IdleTurnStage::PendingAfterReservation => true,
        IdleTurnStage::Context => true,
        IdleTurnStage::Warnings => true,
        IdleTurnStage::PendingBeforeStart => true,
        IdleTurnStage::StillReserved => true,
        IdleTurnStage::Start => true,
        _ => false,
    }
}

proof fn lemma_contains_push<A>(s: Seq<A>, x: A)
    requires
        s.len() > 0,
    ensures
        s.contains(x) <==> s.drop_last().contains(x) || s.last() == x,
{
    let head = s.drop_last();
    if head.contains(x) {
        let i = choose|i: int| 0 <= i < head.len() && head[i] == x;
        assert(s[i] == x);
    }
    if s.contains(x) {
        let i = choose|i: int| 0 <= i < s.len() && s[i] == x;
        if i < head.len() {
            assert(head[i] == x);
        }
    }
    assert(s[s.len() - 1] == s.last());
}

proof fn lemma_idle_turn_invariant(input: Vec<TurnInput>, events: Seq<IdleTurnEvent>)
    requires
        idle_turn_run(input, events) is Some,
    ensures
        ({
            let (stage, actions) = idle_turn_run(input, events)->Some_0;
            &&& reserved_stage(stage) ==> was_reserved(events) && !was_started(events)
            &&& stage == IdleTurnStage::Persistence ==> was_reserved(events) && was_started(events)
            &&& stage != IdleTurnStage::Done && !reserved_stage(stage) && stage
                != IdleTurnStage::Persistence ==> !was_reserved(events) && !was_started(events)
            &&& forall|i: int|
                0 <= i < actions.len() ==> {
                    &&& (#[trigger] actions[i]) matches IdleTurnAction::Reject {
                        clear_reservation,
                        start_pending_work,
                        error,
                    } ==> {
                        &&& stage == IdleTurnStage::Done
                        &&& error.input == input
                        &&& clear_reservation == (was_reserved(events) && !was_started(events))
                        &&& start_pending_work ==> clear_reservation
                    }
                    &&& actions[i] == IdleTurnAction::Started ==> stage == IdleTurnStage::Done && (
                    input@.len() == 0 || was_started(events))
                    &&& actions[i] == IdleTurnAction::StartWithUserInput || actions[i]
                        == IdleTurnAction::QueueInputAndStart ==> was_reserved(events)
                }
        }),
    decreases events.len(),
{
    if events.len() > 0 {
        let head = events.drop_last();
        lemma_idle_turn_invariant(input, head);
        lemma_contains_push(events, IdleTurnEvent::Reserved(true));
        lemma_contains_push(events, IdleTurnEvent::Started(TaskStartOutcome::Started));
        let (before, done) = idle_turn_run(input, head)->Some_0;
        let (after, actions) = idle_turn_run(input, events)->Some_0;
        assert forall|i: int| 0 <= i < actions.len() implies i < done.len()
            && #[trigger] actions[i] == done[i] || i == done.len() by {}
    }
}

/// A start that is refused hands back the input that it was called with. It gives the reservation
/// up exactly when it had made one and no task took it over, and only then may it start what is
/// pending instead.
pub proof fn law_refused_start_hands_input_back_and_frees_the_session(
    input: Vec<TurnInput>,
    events: Seq<IdleTurnEvent>,
    i: int,
)
    requires
        idle_turn_run(input, events) is Some,
        0 <= i < idle_turn_run(input, events)->Some_0.1.len(),
    ensures
        idle_turn_run(input, events)->Some_0.1[i] matches IdleTurnAction::Reject {
            clear_reservation,
            start_pending_work,
            error,
        } ==> {
            &&& error.input == input
            &&& clear_reservation == (was_reserved(events) && !was_started(events))
            &&& start_pending_work ==> clear_reservation
        },
{
    lemma_idle_turn_invariant(input, events);
}

/// A task is started only on a session that was reserved for it, and success is reported only
/// when a task has started or there was nothing to do.
pub proof fn law_turn_starts_only_on_a_reserved_session(
    input: Vec<TurnInput>,
    events: Seq<IdleTurnEvent>,
    i: int,
)
    requires
        idle_turn_run(input, events) is Some,
        0 <= i < idle_turn_run(input, events)->Some_0.1.len(),
    ensures
        ({
            let action = idle_turn_run(input, events)->Some_0.1[i];
            &&& action == IdleTurnAction::StartWithUserInput || action
                == IdleTurnAction::QueueInputAndStart ==> was_reserved(events)
            &&& action == IdleTurnAction::Started ==> input@.len() == 0 || was_started(events)
        }),
{
    lemma_idle_turn_invariant(input, events);
}

/// Plan mode refuses work without user input, whether the session or the new turn is in it.
pub proof fn law_plan_mode_refuses_work_without_user_input(state: IdleTurnState)
    requires
        !state.user_input,
        state.stage == IdleTurnStage::Mode || state.stage == IdleTurnStage::Context,
    ensures
        ({
            let event = if state.stage == IdleTurnStage::Mode {
                IdleTurnEvent::Mode(ModeKind::Plan)
            } else {
                IdleTurnEvent::Context(Some(ModeKind::Plan))
            };
            &&& idle_turn_next(state, event) matches Some((stage, _, action))
            &&& stage == IdleTurnStage::Done
            &&& action matches IdleTurnAction::Reject { error, .. }
            &&& error.reason == TryStartTurnIfIdleRejectionReason::PlanMode
        }),
{
}

/// Where a start with `input` goes from `stage`, and what it asks for.
spec fn idle_turn_advance(
    input: Vec<TurnInput>,
    stage: IdleTurnStage,
    event: IdleTurnEvent,
) -> Option<(IdleTurnStage, IdleTurnAction)> {
    match idle_turn_next(
        IdleTurnState { input, user_input: holds_user_input(input@), stage },
        event,
    ) {
        Some((next, _, action)) => Some((next, action)),
        None => None,
    }
}

proof fn lemma_idle_turn_step(
    input: Vec<TurnInput>,
    events: Seq<IdleTurnEvent>,
    event: IdleTurnEvent,
)
    requires
        idle_turn_run(input, events) is Some,
        idle_turn_advance(input, idle_turn_run(input, events)->Some_0.0, event) is Some,
    ensures
        ({
            let (state, actions) = idle_turn_run(input, events)->Some_0;
            let (next, action) = idle_turn_advance(input, state, event)->Some_0;
            idle_turn_run(input, events.push(event)) == Some((next, actions.push(action)))
        }),
{
    assert(events.push(event).drop_last() =~= events);
}

/// What a user sent starts a task on an idle session, in any mode, and the start is reported once
/// the input is durable; otherwise the task says why it is not.
pub proof fn law_user_input_starts_an_idle_turn(
    input: Vec<TurnInput>,
    k: int,
    mode: ModeKind,
    reason: TryStartTurnIfIdleRejectionReason,
)
    requires
        0 <= k < input@.len(),
        input@[k] matches TurnInput::UserInput { content, .. } && content@.len() > 0,
    ensures
        ({
            let events: Seq<IdleTurnEvent> = seq![
                IdleTurnEvent::Admitted(true),
                IdleTurnEvent::PendingWork(false),
                IdleTurnEvent::Reserved(true),
                IdleTurnEvent::PendingWork(false),
                IdleTurnEvent::Context(Some(mode)),
                IdleTurnEvent::Warned,
                IdleTurnEvent::PendingWork(false),
                IdleTurnEvent::StillReserved(true),
                IdleTurnEvent::Started(TaskStartOutcome::Started),
                IdleTurnEvent::Persisted(Some(Ok(()))),
            ];
            let run = idle_turn_run(input, events);
            &&& run is Some
            &&& run->Some_0.1 == seq![
                IdleTurnAction::AcquireAdmission,
                IdleTurnAction::ReadPendingWork,
                IdleTurnAction::Reserve,
                IdleTurnAction::ReadPendingWork,
                IdleTurnAction::NewTurnContext,
                IdleTurnAction::EmitModelWarnings,
                IdleTurnAction::ReadPendingWork,
                IdleTurnAction::CheckReservation,
                IdleTurnAction::StartWithUserInput,
                IdleTurnAction::AwaitPersistence,
                IdleTurnAction::Started,
            ]
        }),
        ({
            let events: Seq<IdleTurnEvent> = seq![
                IdleTurnEvent::Admitted(true),
                IdleTurnEvent::PendingWork(false),
                IdleTurnEvent::Reserved(true),
                IdleTurnEvent::PendingWork(false),
                IdleTurnEvent::Context(Some(mode)),
                IdleTurnEvent::Warned,
                IdleTurnEvent::PendingWork(false),
                IdleTurnEvent::StillReserved(true),
                IdleTurnEvent::Started(TaskStartOutcome::Started),
                IdleTurnEvent::Persisted(Some(Err(reason))),
            ];
            let run = idle_turn_run(input, events);
            &&& run is Some
            &&& run->Some_0.1 == seq![
                IdleTurnAction::AcquireAdmission,
                IdleTurnAction::ReadPendingWork,
                IdleTurnAction::Reserve,
                IdleTurnAction::ReadPendingWork,
                IdleTurnAction::NewTurnContext,
                IdleTurnAction::EmitModelWarnings,
                IdleTurnAction::ReadPendingWork,
                IdleTurnAction::CheckReservation,
                IdleTurnAction::StartWithUserInput,
                IdleTurnAction::AwaitPersistence,
                IdleTurnAction::Reject {
                    clear_reservation: false,
                    start_pending_work: false,
                    error: TryStartTurnIfIdleError { reason: reason, input },
                },
            ]
        }),
        ({
            let events: Seq<IdleTurnEvent> = seq![
                IdleTurnEvent::Admitted(true),
                IdleTurnEvent::PendingWork(false),
                IdleTurnEvent::Reserved(true),
                IdleTurnEvent::PendingWork(false),
                IdleTurnEvent::Context(Some(mode)),
                IdleTurnEvent::Warned,
                IdleTurnEvent::PendingWork(false),
                IdleTurnEvent::StillReserved(true),
                IdleTurnEvent::Started(TaskStartOutcome::Started),
                IdleTurnEvent::Persisted(None),
            ];
            let run = idle_turn_run(input, events);
            &&& run is Some
            &&& run->Some_0.1 == seq![
                IdleTurnAction::AcquireAdmission,
                IdleTurnAction::ReadPendingWork,
                IdleTurnAction::Reserve,
                IdleTurnAction::ReadPendingWork,
                IdleTurnAction::NewTurnContext,
                IdleTurnAction::EmitModelWarnings,
                IdleTurnAction::ReadPendingWork,
                IdleTurnAction::CheckReservation,
                IdleTurnAction::StartWithUserInput,
                IdleTurnAction::AwaitPersistence,
                IdleTurnAction::Reject {
                    clear_reservation: false,
                    start_pending_work: false,
                    error: TryStartTurnIfIdleError {
                        reason: TryStartTurnIfIdleRejectionReason::TaskEndedBeforePersistence,
                        input,
                    },
                },
            ]
        }),
{
    let e0 = Seq::<IdleTurnEvent>::empty();
    lemma_idle_turn_step(input, e0, IdleTurnEvent::Admitted(true));
    let e1 = e0.push(IdleTurnEvent::Admitted(true));
    lemma_idle_turn_step(input, e1, IdleTurnEvent::PendingWork(false));
    let e2 = e1.push(IdleTurnEvent::PendingWork(false));
    lemma_idle_turn_step(input, e2, IdleTurnEvent::Reserved(true));
    let e3 = e2.push(IdleTurnEvent::Reserved(true));
    lemma_idle_turn_step(input, e3, IdleTurnEvent::PendingWork(false));
    let e4 = e3.push(IdleTurnEvent::PendingWork(false));
    lemma_idle_turn_step(input, e4, IdleTurnEvent::Context(Some(mode)));
    let e5 = e4.push(IdleTurnEvent::Context(Some(mode)));
    lemma_idle_turn_step(input, e5, IdleTurnEvent::Warned);
    let e6 = e5.push(IdleTurnEvent::Warned);
    lemma_idle_turn_step(input, e6, IdleTurnEvent::PendingWork(false));
    let e7 = e6.push(IdleTurnEvent::PendingWork(false));
    lemma_idle_turn_step(input, e7, IdleTurnEvent::StillReserved(true));
    let e8 = e7.push(IdleTurnEvent::StillReserved(true));
    lemma_idle_turn_step(input, e8, IdleTurnEvent::Started(TaskStartOutcome::Started));
    let e9 = e8.push(IdleTurnEvent::Started(TaskStartOutcome::Started));
    lemma_idle_turn_step(input, e9, IdleTurnEvent::Persisted(Some(Ok(()))));
    let e10 = e9.push(IdleTurnEvent::Persisted(Some(Ok(()))));
    assert(e10 =~= seq![
        IdleTurnEvent::Admitted(true),
        IdleTurnEvent::PendingWork(false),
        IdleTurnEvent::Reserved(true),
        IdleTurnEvent::PendingWork(false),
        IdleTurnEvent::Context(Some(mode)),
        IdleTurnEvent::Warned,
        IdleTurnEvent::PendingWork(false),
        IdleTurnEvent::StillReserved(true),
        IdleTurnEvent::Started(TaskStartOutcome::Started),
        IdleTurnEvent::Persisted(Some(Ok(()))),
    ]);
    assert(idle_turn_run(input, e10)->Some_0.1 =~= seq![
        IdleTurnAction::AcquireAdmission,
        IdleTurnAction::ReadPendingWork,
        IdleTurnAction::Reserve,
        IdleTurnAction::ReadPendingWork,
        IdleTurnAction::NewTurnContext,
        IdleTurnAction::EmitModelWarnings,
        IdleTurnAction::ReadPendingWork,
        IdleTurnAction::CheckReservation,
        IdleTurnAction::StartWithUserInput,
        IdleTurnAction::AwaitPersistence,
        IdleTurnAction::Started,
    ]);
    lemma_idle_turn_step(input, e9, IdleTurnEvent::Persisted(Some(Err(reason))));
    let e11 = e9.push(IdleTurnEvent::Persisted(Some(Err(reason))));
    assert(e11 =~= seq![
        IdleTurnEvent::Admitted(true),
        IdleTurnEvent::PendingWork(false),
        IdleTurnEvent::Reserved(true),
        IdleTurnEvent::PendingWork(false),
        IdleTurnEvent::Context(Some(mode)),
        IdleTurnEvent::Warned,
        IdleTurnEvent::PendingWork(false),
        IdleTurnEvent::StillReserved(true),
        IdleTurnEvent::Started(TaskStartOutcome::Started),
        IdleTurnEvent::Persisted(Some(Err(reason))),
    ]);
    assert(idle_turn_run(input, e11)->Some_0.1 =~= seq![
        IdleTurnAction::AcquireAdmission,
        IdleTurnAction::ReadPendingWork,
        IdleTurnAction::Reserve,
        IdleTurnAction::ReadPendingWork,
        IdleTurnAction::NewTurnContext,
        IdleTurnAction::EmitModelWarnings,
        IdleTurnAction::ReadPendingWork,
        IdleTurnAction::CheckReservation,
        IdleTurnAction::StartWithUserInput,
        IdleTurnAction::AwaitPersistence,
        IdleTurnAction::Reject {
            clear_reservation: false,
            start_pending_work: false,
            error: TryStartTurnIfIdleError { reason: reason, input },
        },
    ]);
    lemma_idle_turn_step(input, e9, IdleTurnEvent::Persisted(None));
    let e12 = e9.push(IdleTurnEvent::Persisted(None));
    assert(e12 =~= seq![
        IdleTurnEvent::Admitted(true),
        IdleTurnEvent::PendingWork(false),
        IdleTurnEvent::Reserved(true),
        IdleTurnEvent::PendingWork(false),
        IdleTurnEvent::Context(Some(mode)),
        IdleTurnEvent::Warned,
        IdleTurnEvent::PendingWork(false),
        IdleTurnEvent::StillReserved(true),
        IdleTurnEvent::Started(TaskStartOutcome::Started),
        IdleTurnEvent::Persisted(None),
    ]);
    assert(idle_turn_run(input, e12)->Some_0.1 =~= seq![
        IdleTurnAction::AcquireAdmission,
        IdleTurnAction::ReadPendingWork,
        IdleTurnAction::Reserve,
        IdleTurnAction::ReadPendingWork,
        IdleTurnAction::NewTurnContext,
        IdleTurnAction::EmitModelWarnings,
        IdleTurnAction::ReadPendingWork,
        IdleTurnAction::CheckReservation,
        IdleTurnAction::StartWithUserInput,
        IdleTurnAction::AwaitPersistence,
        IdleTurnAction::Reject {
            clear_reservation: false,
            start_pending_work: false,
            error: TryStartTurnIfIdleError {
                reason: TryStartTurnIfIdleRejectionReason::TaskEndedBeforePersistence,
                input,
            },
        },
    ]);
}

/// What no user sent is queued for a task that starts on an idle session, unless the session or
/// the new turn is in plan mode.
pub proof fn law_other_input_starts_an_idle_turn_outside_plan_mode(
    input: Vec<TurnInput>,
    before: ModeKind,
    mode: ModeKind,
)
    requires
        input@.len() > 0,
        forall|i: int|
            0 <= i < input@.len() ==> !((#[trigger] input@[i]) matches TurnInput::UserInput {
                content,
                ..
            } && content@.len() > 0),
        before != ModeKind::Plan,
        mode != ModeKind::Plan,
    ensures
        ({
            let events: Seq<IdleTurnEvent> = seq![
                IdleTurnEvent::Admitted(true),
                IdleTurnEvent::PendingWork(false),
                IdleTurnEvent::Mode(before),
                IdleTurnEvent::Reserved(true),
                IdleTurnEvent::PendingWork(false),
                IdleTurnEvent::Context(Some(mode)),
                IdleTurnEvent::Warned,
                IdleTurnEvent::PendingWork(false),
                IdleTurnEvent::StillReserved(true),
                IdleTurnEvent::Started(TaskStartOutcome::Started),
            ];
            let run = idle_turn_run(input, events);
            &&& run is Some
            &&& run->Some_0.1 == seq![
                IdleTurnAction::AcquireAdmission,
                IdleTurnAction::ReadPendingWork,
                IdleTurnAction::ReadMode,
                IdleTurnAction::Reserve,
                IdleTurnAction::ReadPendingWork,
                IdleTurnAction::NewTurnContext,
                IdleTurnAction::EmitModelWarnings,
                IdleTurnAction::ReadPendingWork,
                IdleTurnAction::CheckReservation,
                IdleTurnAction::QueueInputAndStart,
                IdleTurnAction::Started,
            ]
        }),
{
    let e0 = Seq::<IdleTurnEvent>::empty();
    lemma_idle_turn_step(input, e0, IdleTurnEvent::Admitted(true));
    let e1 = e0.push(IdleTurnEvent::Admitted(true));
    lemma_idle_turn_step(input, e1, IdleTurnEvent::PendingWork(false));
    let e2 = e1.push(IdleTurnEvent::PendingWork(false));
    lemma_idle_turn_step(input, e2, IdleTurnEvent::Mode(before));
    let e3 = e2.push(IdleTurnEvent::Mode(before));
    lemma_idle_turn_step(input, e3, IdleTurnEvent::Reserved(true));
    let e4 = e3.push(IdleTurnEvent::Reserved(true));
    lemma_idle_turn_step(input, e4, IdleTurnEvent::PendingWork(false));
    let e5 = e4.push(IdleTurnEvent::PendingWork(false));
    lemma_idle_turn_step(input, e5, IdleTurnEvent::Context(Some(mode)));
    let e6 = e5.push(IdleTurnEvent::Context(Some(mode)));
    lemma_idle_turn_step(input, e6, IdleTurnEvent::Warned);
    let e7 = e6.push(IdleTurnEvent::Warned);
    lemma_idle_turn_step(input, e7, IdleTurnEvent::PendingWork(false));
    let e8 = e7.push(IdleTurnEvent::PendingWork(false));
    lemma_idle_turn_step(input, e8, IdleTurnEvent::StillReserved(true));
    let e9 = e8.push(IdleTurnEvent::StillReserved(true));
    lemma_idle_turn_step(input, e9, IdleTurnEvent::Started(TaskStartOutcome::Started));
    let e10 = e9.push(IdleTurnEvent::Started(TaskStartOutcome::Started));
    assert(e10 =~= seq![
        IdleTurnEvent::Admitted(true),
        IdleTurnEvent::PendingWork(false),
        IdleTurnEvent::Mode(before),
        IdleTurnEvent::Reserved(true),
        IdleTurnEvent::PendingWork(false),
        IdleTurnEvent::Context(Some(mode)),
        IdleTurnEvent::Warned,
        IdleTurnEvent::PendingWork(false),
        IdleTurnEvent::StillReserved(true),
        IdleTurnEvent::Started(TaskStartOutcome::Started),
    ]);
    assert(idle_turn_run(input, e10)->Some_0.1 =~= seq![
        IdleTurnAction::AcquireAdmission,
        IdleTurnAction::ReadPendingWork,
        IdleTurnAction::ReadMode,
        IdleTurnAction::Reserve,
        IdleTurnAction::ReadPendingWork,
        IdleTurnAction::NewTurnContext,
        IdleTurnAction::EmitModelWarnings,
        IdleTurnAction::ReadPendingWork,
        IdleTurnAction::CheckReservation,
        IdleTurnAction::QueueInputAndStart,
        IdleTurnAction::Started,
    ]);
}

/// What no user sent is refused in plan mode: before the session is reserved where the session is
/// in it, and with the reservation given up where only the new turn is.
pub proof fn law_plan_mode_turns_other_input_away(
    input: Vec<TurnInput>,
    before: ModeKind,
)
    requires
        input@.len() > 0,
        forall|i: int|
            0 <= i < input@.len() ==> !((#[trigger] input@[i]) matches TurnInput::UserInput {
                content,
                ..
            } && content@.len() > 0),
        before != ModeKind::Plan,
    ensures
        ({
            let events: Seq<IdleTurnEvent> = seq![
                IdleTurnEvent::Admitted(true),
                IdleTurnEvent::PendingWork(false),
                IdleTurnEvent::Mode(ModeKind::Plan),
            ];
            let run = idle_turn_run(input, events);
            &&& run is Some
            &&& run->Some_0.1 == seq![
                IdleTurnAction::AcquireAdmission,
                IdleTurnAction::ReadPendingWork,
                IdleTurnAction::ReadMode,
                IdleTurnAction::Reject {
                    clear_reservation: false,
                    start_pending_work: false,
                    error: TryStartTurnIfIdleError {
                        reason: TryStartTurnIfIdleRejectionReason::PlanMode,
                        input,
                    },
                },
            ]
        }),
        ({
            let events: Seq<IdleTurnEvent> = seq![
                IdleTurnEvent::Admitted(true),
                IdleTurnEvent::PendingWork(false),
                IdleTurnEvent::Mode(before),
                IdleTurnEvent::Reserved(true),
                IdleTurnEvent::PendingWork(false),
                IdleTurnEvent::Context(Some(ModeKind::Plan)),
            ];
            let run = idle_turn_run(input, events);
            &&& run is Some
            &&& run->Some_0.1 == seq![
                IdleTurnAction::AcquireAdmission,
                IdleTurnAction::ReadPendingWork,
                IdleTurnAction::ReadMode,
                IdleTurnAction::Reserve,
                IdleTurnAction::ReadPendingWork,
                IdleTurnAction::NewTurnContext,
                IdleTurnAction::Reject {
                    clear_reservation: true,
                    start_pending_work: true,
                    error: TryStartTurnIfIdleError {
                        reason: TryStartTurnIfIdleRejectionReason::PlanMode,
                        input,
                    },
                },
            ]
        }),
{
    let e0 = Seq::<IdleTurnEvent>::empty();
    lemma_idle_turn_step(input, e0, IdleTurnEvent::Admitted(true));
    let e1 = e0.push(IdleTurnEvent::Admitted(true));
    lemma_idle_turn_step(input, e1, IdleTurnEvent::PendingWork(false));
    let e2 = e1.push(IdleTurnEvent::PendingWork(false));
    lemma_idle_turn_step(input, e2, IdleTurnEvent::Mode(ModeKind::Plan));
    let e3 = e2.push(IdleTurnEvent::Mode(ModeKind::Plan));
    assert(e3 =~= seq![
        IdleTurnEvent::Admitted(true),
        IdleTurnEvent::PendingWork(false),
        IdleTurnEvent::Mode(ModeKind::Plan),
    ]);
    assert(idle_turn_run(input, e3)->Some_0.1 =~= seq![
        IdleTurnAction::AcquireAdmission,
        IdleTurnAction::ReadPendingWork,
        IdleTurnAction::ReadMode,
        IdleTurnAction::Reject {
            clear_reservation: false,
            start_pending_work: false,
            error: TryStartTurnIfIdleError {
                reason: TryStartTurnIfIdleRejectionReason::PlanMode,
                input,
            },
        },
    ]);
    lemma_idle_turn_step(input, e2, IdleTurnEvent::Mode(before));
    let e4 = e2.push(IdleTurnEvent::Mode(before));
    lemma_idle_turn_step(input, e4, IdleTurnEvent::Reserved(true));
    let e5 = e4.push(IdleTurnEvent::Reserved(true));
    lemma_idle_turn_step(input, e5, IdleTurnEvent::PendingWork(false));
    let e6 = e5.push(IdleTurnEvent::PendingWork(false));
    lemma_idle_turn_step(input, e6, IdleTurnEvent::Context(Some(ModeKind::Plan)));
    let e7 = e6.push(IdleTurnEvent::Context(Some(ModeKind::Plan)));
    assert(e7 =~= seq![
        IdleTurnEvent::Admitted(true),
        IdleTurnEvent::PendingWork(false),
        IdleTurnEvent::Mode(before),
        IdleTurnEvent::Reserved(true),
        IdleTurnEvent::PendingWork(false),
        IdleTurnEvent::Context(Some(ModeKind::Plan)),
    ]);
    assert(idle_turn_run(input, e7)->Some_0.1 =~= seq![
        IdleTurnAction::AcquireAdmission,
        IdleTurnAction::ReadPendingWork,
        IdleTurnAction::ReadMode,
        IdleTurnAction::Reserve,
        IdleTurnAction::ReadPendingWork,
        IdleTurnAction::NewTurnContext,
        IdleTurnAction::Reject {
            clear_reservation: true,
            start_pending_work: true,
            error: TryStartTurnIfIdleError {
                reason: TryStartTurnIfIdleRejectionReason::PlanMode,
                input,
            },
        },
    ]);
}

/// A start with what a user sent is refused for the first thing that stands in its way; other work
/// that is pending comes first.
pub proof fn law_start_with_user_input_is_refused_for_its_first_obstacle(
    input: Vec<TurnInput>,
    k: int,
    mode: ModeKind,
)
    requires
        0 <= k < input@.len(),
        input@[k] matches TurnInput::UserInput { content, .. } && content@.len() > 0,
    ensures
        ({
            let events: Seq<IdleTurnEvent> = seq![IdleTurnEvent::Admitted(false)];
            let run = idle_turn_run(input, events);
            &&& run is Some
            &&& run->Some_0.1 == seq![
                IdleTurnAction::AcquireAdmission,
                IdleTurnAction::Reject {
                    clear_reservation: false,
                    start_pending_work: false,
                    error: TryStartTurnIfIdleError {
                        reason: TryStartTurnIfIdleRejectionReason::PersistenceFailed,
                        input,
                    },
                },
            ]
        }),
        ({
            let events: Seq<IdleTurnEvent> = seq![
                IdleTurnEvent::Admitted(true),
                IdleTurnEvent::PendingWork(true),
            ];
            let run = idle_turn_run(input, events);
            &&& run is Some
            &&& run->Some_0.1 == seq![
                IdleTurnAction::AcquireAdmission,
                IdleTurnAction::ReadPendingWork,
                IdleTurnAction::Reject {
                    clear_reservation: false,
                    start_pending_work: false,
                    error: TryStartTurnIfIdleError {
                        reason: TryStartTurnIfIdleRejectionReason::PendingTriggerTurn,
                        input,
                    },
                },
            ]
        }),
        ({
            let events: Seq<IdleTurnEvent> = seq![
                IdleTurnEvent::Admitted(true),
                IdleTurnEvent::PendingWork(false),
                IdleTurnEvent::Reserved(false),
            ];
            let run = idle_turn_run(input, events);
            &&& run is Some
            &&& run->Some_0.1 == seq![
                IdleTurnAction::AcquireAdmission,
                IdleTurnAction::ReadPendingWork,
                IdleTurnAction::Reserve,
                IdleTurnAction::Reject {
                    clear_reservation: false,
                    start_pending_work: false,
                    error: TryStartTurnIfIdleError {
                        reason: TryStartTurnIfIdleRejectionReason::Busy,
                        input,
                    },
                },
            ]
        }),
        ({
            let events: Seq<IdleTurnEvent> = seq![
                IdleTurnEvent::Admitted(true),
                IdleTurnEvent::PendingWork(false),
                IdleTurnEvent::Reserved(true),
                IdleTurnEvent::PendingWork(true),
            ];
            let run = idle_turn_run(input, events);
            &&& run is Some
            &&& run->Some_0.1 == seq![
                IdleTurnAction::AcquireAdmission,
                IdleTurnAction::ReadPendingWork,
                IdleTurnAction::Reserve,
                IdleTurnAction::ReadPendingWork,
                IdleTurnAction::Reject {
                    clear_reservation: true,
                    start_pending_work: true,
                    error: TryStartTurnIfIdleError {
                        reason: TryStartTurnIfIdleRejectionReason::PendingTriggerTurn,
                        input,
                    },
                },
            ]
        }),
        ({
            let events: Seq<IdleTurnEvent> = seq![
                IdleTurnEvent::Admitted(true),
                IdleTurnEvent::PendingWork(false),
                IdleTurnEvent::Reserved(true),
                IdleTurnEvent::PendingWork(false),
                IdleTurnEvent::Context(None),
            ];
            let run = idle_turn_run(input, events);
            &&& run is Some
            &&& run->Some_0.1 == seq![
                IdleTurnAction::AcquireAdmission,
                IdleTurnAction::ReadPendingWork,
                IdleTurnAction::Reserve,
                IdleTurnAction::ReadPendingWork,
                IdleTurnAction::NewTurnContext,
                IdleTurnAction::Reject {
                    clear_reservation: true,
                    start_pending_work: false,
                    error: TryStartTurnIfIdleError {
                        reason: TryStartTurnIfIdleRejectionReason::PersistenceFailed,
                        input,
                    },
                },
            ]
        }),
        ({
            let events: Seq<IdleTurnEvent> = seq![
                IdleTurnEvent::Admitted(true),
                IdleTurnEvent::PendingWork(false),
                IdleTurnEvent::Reserved(true),
                IdleTurnEvent::PendingWork(false),
                IdleTurnEvent::Context(Some(mode)),
                IdleTurnEvent::Warned,
                IdleTurnEvent::PendingWork(true),
            ];
            let run = idle_turn_run(input, events);
            &&& run is Some
            &&& run->Some_0.1 == seq![
                IdleTurnAction::AcquireAdmission,
                IdleTurnAction::ReadPendingWork,
                IdleTurnAction::Reserve,
                IdleTurnAction::ReadPendingWork,
                IdleTurnAction::NewTurnContext,
                IdleTurnAction::EmitModelWarnings,
                IdleTurnAction::ReadPendingWork,
                IdleTurnAction::Reject {
                    clear_reservation: true,
                    start_pending_work: true,
                    error: TryStartTurnIfIdleError {
                        reason: TryStartTurnIfIdleRejectionReason::PendingTriggerTurn,
                        input,
                    },
                },
            ]
        }),
        ({
            let events: Seq<IdleTurnEvent> = seq![
                IdleTurnEvent::Admitted(true),
                IdleTurnEvent::PendingWork(false),
                IdleTurnEvent::Reserved(true),
                IdleTurnEvent::PendingWork(false),
                IdleTurnEvent::Context(Some(mode)),
                IdleTurnEvent::Warned,
                IdleTurnEvent::PendingWork(false),
                IdleTurnEvent::StillReserved(false),
            ];
            let run = idle_turn_run(input, events);
            &&& run is Some
            &&& run->Some_0.1 == seq![
                IdleTurnAction::AcquireAdmission,
                IdleTurnAction::ReadPendingWork,
                IdleTurnAction::Reserve,
                IdleTurnAction::ReadPendingWork,
                IdleTurnAction::NewTurnContext,
                IdleTurnAction::EmitModelWarnings,
                IdleTurnAction::ReadPendingWork,
                IdleTurnAction::CheckReservation,
                IdleTurnAction::Reject {
                    clear_reservation: true,
                    start_pending_work: false,
                    error: TryStartTurnIfIdleError {
                        reason: TryStartTurnIfIdleRejectionReason::Busy,
                        input,
                    },
                },
            ]
        }),
        ({
            let events: Seq<IdleTurnEvent> = seq![
                IdleTurnEvent::Admitted(true),
                IdleTurnEvent::PendingWork(false),
                IdleTurnEvent::Reserved(true),
                IdleTurnEvent::PendingWork(false),
                IdleTurnEvent::Context(Some(mode)),
                IdleTurnEvent::Warned,
                IdleTurnEvent::PendingWork(false),
                IdleTurnEvent::StillReserved(true),
                IdleTurnEvent::Started(TaskStartOutcome::RestartRequired),
            ];
            let run = idle_turn_run(input, events);
            &&& run is Some
            &&& run->Some_0.1 == seq![
                IdleTurnAction::AcquireAdmission,
                IdleTurnAction::ReadPendingWork,
                IdleTurnAction::Reserve,
                IdleTurnAction::ReadPendingWork,
                IdleTurnAction::NewTurnContext,
                IdleTurnAction::EmitModelWarnings,
                IdleTurnAction::ReadPendingWork,
                IdleTurnAction::CheckReservation,
                IdleTurnAction::StartWithUserInput,
                IdleTurnAction::Reject {
                    clear_reservation: true,
                    start_pending_work: false,
                    error: TryStartTurnIfIdleError {
                        reason: TryStartTurnIfIdleRejectionReason::PersistenceFailed,
                        input,
                    },
                },
            ]
        }),
        ({
            let events: Seq<IdleTurnEvent> = seq![
                IdleTurnEvent::Admitted(true),
                IdleTurnEvent::PendingWork(false),
                IdleTurnEvent::Reserved(true),
                IdleTurnEvent::PendingWork(false),
                IdleTurnEvent::Context(Some(mode)),
                IdleTurnEvent::Warned,
                IdleTurnEvent::PendingWork(false),
                IdleTurnEvent::StillReserved(true),
                IdleTurnEvent::Started(TaskStartOutcome::Superseded),
            ];
            let run = idle_turn_run(input, events);
            &&& run is Some
            &&& run->Some_0.1 == seq![
                IdleTurnAction::AcquireAdmission,
                IdleTurnAction::ReadPendingWork,
                IdleTurnAction::Reserve,
                IdleTurnAction::ReadPendingWork,
                IdleTurnAction::NewTurnContext,
                IdleTurnAction::EmitModelWarnings,
                IdleTurnAction::ReadPendingWork,
                IdleTurnAction::CheckReservation,
                IdleTurnAction::StartWithUserInput,
                IdleTurnAction::Reject {
                    clear_reservation: true,
                    start_pending_work: false,
                    error: TryStartTurnIfIdleError {
                        reason: TryStartTurnIfIdleRejectionReason::Busy,
                        input,
                    },
                },
            ]
        }),
{
    let e0 = Seq::<IdleTurnEvent>::empty();
    lemma_idle_turn_step(input, e0, IdleTurnEvent::Admitted(false));
    let e1 = e0.push(IdleTurnEvent::Admitted(false));
    assert(idle_turn_run(input, e1)->Some_0.1 =~= seq![
        IdleTurnAction::AcquireAdmission,
        IdleTurnAction::Reject {
            clear_reservation: false,
            start_pending_work: false,
            error: TryStartTurnIfIdleError {
                reason: TryStartTurnIfIdleRejectionReason::PersistenceFailed,
                input,
            },
        },
    ]);
    lemma_idle_turn_step(input, e0, IdleTurnEvent::Admitted(true));
    let e2 = e0.push(IdleTurnEvent::Admitted(true));
    lemma_idle_turn_step(input, e2, IdleTurnEvent::PendingWork(true));
    let e3 = e2.push(IdleTurnEvent::PendingWork(true));
    assert(e3 =~= seq![IdleTurnEvent::Admitted(true), IdleTurnEvent::PendingWork(true)]);
    assert(idle_turn_run(input, e3)->Some_0.1 =~= seq![
        IdleTurnAction::AcquireAdmission,
        IdleTurnAction::ReadPendingWork,
        IdleTurnAction::Reject {
            clear_reservation: false,
            start_pending_work: false,
            error: TryStartTurnIfIdleError {
                reason: TryStartTurnIfIdleRejectionReason::PendingTriggerTurn,
                input,
            },
        },
    ]);
    lemma_idle_turn_step(input, e2, IdleTurnEvent::PendingWork(false));
    let e4 = e2.push(IdleTurnEvent::PendingWork(false));
    lemma_idle_turn_step(input, e4, IdleTurnEvent::Reserved(false));
    let e5 = e4.push(IdleTurnEvent::Reserved(false));
    assert(e5 =~= seq![
        IdleTurnEvent::Admitted(true),
        IdleTurnEvent::PendingWork(false),
        IdleTurnEvent::Reserved(false),
    ]);
    assert(idle_turn_run(input, e5)->Some_0.1 =~= seq![
        IdleTurnAction::AcquireAdmission,
        IdleTurnAction::ReadPendingWork,
        IdleTurnAction::Reserve,
        IdleTurnAction::Reject {
            clear_reservation: false,
            start_pending_work: false,
            error: TryStartTurnIfIdleError {
                reason: TryStartTurnIfIdleRejectionReason::Busy,
                input,
            },
        },
    ]);
    lemma_idle_turn_step(input, e4, IdleTurnEvent::Reserved(true));
    let e6 = e4.push(IdleTurnEvent::Reserved(true));
    lemma_idle_turn_step(input, e6, IdleTurnEvent::PendingWork(true));
    let e7 = e6.push(IdleTurnEvent::PendingWork(true));
    assert(e7 =~= seq![
        IdleTurnEvent::Admitted(true),
        IdleTurnEvent::PendingWork(false),
        IdleTurnEvent::Reserved(true),
        IdleTurnEvent::PendingWork(true),
    ]);
    assert(idle_turn_run(input, e7)->Some_0.1 =~= seq![
        IdleTurnAction::AcquireAdmission,
        IdleTurnAction::ReadPendingWork,
        IdleTurnAction::Reserve,
        IdleTurnAction::ReadPendingWork,
        IdleTurnAction::Reject {
            clear_reservation: true,
            start_pending_work: true,
            error: TryStartTurnIfIdleError {
                reason: TryStartTurnIfIdleRejectionReason::PendingTriggerTurn,
                input,
            },
        },
    ]);
    lemma_idle_turn_step(input, e6, IdleTurnEvent::PendingWork(false));
    let e8 = e6.push(IdleTurnEvent::PendingWork(false));
    lemma_idle_turn_step(input, e8, IdleTurnEvent::Context(None));
    let e9 = e8.push(IdleTurnEvent::Context(None));
    assert(e9 =~= seq![
        IdleTurnEvent::Admitted(true),
        IdleTurnEvent::PendingWork(false),
        IdleTurnEvent::Reserved(true),
        IdleTurnEvent::PendingWork(false),
        IdleTurnEvent::Context(None),
    ]);
    assert(idle_turn_run(input, e9)->Some_0.1 =~= seq![
        IdleTurnAction::AcquireAdmission,
        IdleTurnAction::ReadPendingWork,
        IdleTurnAction::Reserve,
        IdleTurnAction::ReadPendingWork,
        IdleTurnAction::NewTurnContext,
        IdleTurnAction::Reject {
            clear_reservation: true,
            start_pending_work: false,
            error: TryStartTurnIfIdleError {
                reason: TryStartTurnIfIdleRejectionReason::PersistenceFailed,
                input,
            },
        },
    ]);
    lemma_idle_turn_step(input, e8, IdleTurnEvent::Context(Some(mode)));
    let e10 = e8.push(IdleTurnEvent::Context(Some(mode)));
    lemma_idle_turn_step(input, e10, IdleTurnEvent::Warned);
    let e11 = e10.push(IdleTurnEvent::Warned);
    lemma_idle_turn_step(input, e11, IdleTurnEvent::PendingWork(true));
    let e12 = e11.push(IdleTurnEvent::PendingWork(true));
    assert(e12 =~= seq![
        IdleTurnEvent::Admitted(true),
        IdleTurnEvent::PendingWork(false),
        IdleTurnEvent::Reserved(true),
        IdleTurnEvent::PendingWork(false),
        IdleTurnEvent::Context(Some(mode)),
        IdleTurnEvent::Warned,
        IdleTurnEvent::PendingWork(true),
    ]);
    assert(idle_turn_run(input, e12)->Some_0.1 =~= seq![
        IdleTurnAction::AcquireAdmission,
        IdleTurnAction::ReadPendingWork,
        IdleTurnAction::Reserve,
        IdleTurnAction::ReadPendingWork,
        IdleTurnAction::NewTurnContext,
        IdleTurnAction::EmitModelWarnings,
        IdleTurnAction::ReadPendingWork,
        IdleTurnAction::Reject {
            clear_reservation: true,
            start_pending_work: true,
            error: TryStartTurnIfIdleError {
                reason: TryStartTurnIfIdleRejectionReason::PendingTriggerTurn,
                input,
            },
        },
    ]);
    lemma_idle_turn_step(input, e11, IdleTurnEvent::PendingWork(false));
    let e13 = e11.push(IdleTurnEvent::PendingWork(false));
    lemma_idle_turn_step(input, e13, IdleTurnEvent::StillReserved(false));
    let e14 = e13.push(IdleTurnEvent::StillReserved(false));
    assert(e14 =~= seq![
        IdleTurnEvent::Admitted(true),
        IdleTurnEvent::PendingWork(false),
        IdleTurnEvent::Reserved(true),
        IdleTurnEvent::PendingWork(false),
        IdleTurnEvent::Context(Some(mode)),
        IdleTurnEvent::Warned,
        IdleTurnEvent::PendingWork(false),
        IdleTurnEvent::StillReserved(false),
    ]);
    assert(idle_turn_run(input, e14)->Some_0.1 =~= seq![
        IdleTurnAction::AcquireAdmission,
        IdleTurnAction::ReadPendingWork,
        IdleTurnAction::Reserve,
        IdleTurnAction::ReadPendingWork,
        IdleTurnAction::NewTurnContext,
        IdleTurnAction::EmitModelWarnings,
        IdleTurnAction::ReadPendingWork,
        IdleTurnAction::CheckReservation,
        IdleTurnAction::Reject {
            clear_reservation: true,
            start_pending_work: false,
            error: TryStartTurnIfIdleError {
                reason: TryStartTurnIfIdleRejectionReason::Busy,
                input,
            },
        },
    ]);
    lemma_idle_turn_step(input, e13, IdleTurnEvent::StillReserved(true));
    let e15 = e13.push(IdleTurnEvent::StillReserved(true));
    lemma_idle_turn_step(input, e15, IdleTurnEvent::Started(TaskStartOutcome::RestartRequired));
    let e16 = e15.push(IdleTurnEvent::Started(TaskStartOutcome::RestartRequired));
    assert(e16 =~= seq![
        IdleTurnEvent::Admitted(true),
        IdleTurnEvent::PendingWork(false),
        IdleTurnEvent::Reserved(true),
        IdleTurnEvent::PendingWork(false),
        IdleTurnEvent::Context(Some(mode)),
        IdleTurnEvent::Warned,
        IdleTurnEvent::PendingWork(false),
        IdleTurnEvent::StillReserved(true),
        IdleTurnEvent::Started(TaskStartOutcome::RestartRequired),
    ]);
    assert(idle_turn_run(input, e16)->Some_0.1 =~= seq![
        IdleTurnAction::AcquireAdmission,
        IdleTurnAction::ReadPendingWork,
        IdleTurnAction::Reserve,
        IdleTurnAction::ReadPendingWork,
        IdleTurnAction::NewTurnContext,
        IdleTurnAction::EmitModelWarnings,
        IdleTurnAction::ReadPendingWork,
        IdleTurnAction::CheckReservation,
        IdleTurnAction::StartWithUserInput,
        IdleTurnAction::Reject {
            clear_reservation: true,
            start_pending_work: false,
            error: TryStartTurnIfIdleError {
                reason: TryStartTurnIfIdleRejectionReason::PersistenceFailed,
                input,
            },
        },
    ]);
    lemma_idle_turn_step(input, e15, IdleTurnEvent::Started(TaskStartOutcome::Superseded));
    let e17 = e15.push(IdleTurnEvent::Started(TaskStartOutcome::Superseded));
    assert(e17 =~= seq![
        IdleTurnEvent::Admitted(true),
        IdleTurnEvent::PendingWork(false),
        IdleTurnEvent::Reserved(true),
        IdleTurnEvent::PendingWork(false),
        IdleTurnEvent::Context(Some(mode)),
        IdleTurnEvent::Warned,
        IdleTurnEvent::PendingWork(false),
        IdleTurnEvent::StillReserved(true),
        IdleTurnEvent::Started(TaskStartOutcome::Superseded),
    ]);
    assert(idle_turn_run(input, e17)->Some_0.1 =~= seq![
        IdleTurnAction::AcquireAdmission,
        IdleTurnAction::ReadPendingWork,
        IdleTurnAction::Reserve,
        IdleTurnAction::ReadPendingWork,
        IdleTurnAction::NewTurnContext,
        IdleTurnAction::EmitModelWarnings,
        IdleTurnAction::ReadPendingWork,
        IdleTurnAction::CheckReservation,
        IdleTurnAction::StartWithUserInput,
        IdleTurnAction::Reject {
            clear_reservation: true,
            start_pending_work: false,
            error: TryStartTurnIfIdleError {
                reason: TryStartTurnIfIdleRejectionReason::Busy,
                input,
            },
        },
    ]);
}

/// A start with what no user sent is refused for the first thing that stands in its way; other
/// work that is pending comes first.
pub proof fn law_start_with_other_input_is_refused_for_its_first_obstacle(
    input: Vec<TurnInput>,
    before: ModeKind,
    mode: ModeKind,
)
    requires
        input@.len() > 0,
        forall|i: int|
            0 <= i < input@.len() ==> !((#[trigger] input@[i]) matches TurnInput::UserInput {
                content,
                ..
            } && content@.len() > 0),
        before != ModeKind::Plan,
        mode != ModeKind::Plan,
    ensures
        ({
            let events: Seq<IdleTurnEvent> = seq![IdleTurnEvent::Admitted(false)];
            let run = idle_turn_run(input, events);
            &&& run is Some
            &&& run->Some_0.1 == seq![
                IdleTurnAction::AcquireAdmission,
                IdleTurnAction::Reject {
                    clear_reservation: false,
                    start_pending_work: false,
                    error: TryStartTurnIfIdleError {
                        reason: TryStartTurnIfIdleRejectionReason::PersistenceFailed,
                        input,
                    },
                },
            ]
        }),
        ({
            let events: Seq<IdleTurnEvent> = seq![
                IdleTurnEvent::Admitted(true),
                IdleTurnEvent::PendingWork(true),
            ];
            let run = idle_turn_run(input, events);
            &&& run is Some
            &&& run->Some_0.1 == seq![
                IdleTurnAction::AcquireAdmission,
                IdleTurnAction::ReadPendingWork,
                IdleTurnAction::Reject {
                    clear_reservation: false,
                    start_pending_work: false,
                    error: TryStartTurnIfIdleError {
                        reason: TryStartTurnIfIdleRejectionReason::PendingTriggerTurn,
                        input,
                    },
                },
            ]
        }),
        ({
            let events: Seq<IdleTurnEvent> = seq![
                IdleTurnEvent::Admitted(true),
                IdleTurnEvent::PendingWork(false),
                IdleTurnEvent::Mode(before),
                IdleTurnEvent::Reserved(false),
            ];
            let run = idle_turn_run(input, events);
            &&& run is Some
            &&& run->Some_0.1 == seq![
                IdleTurnAction::AcquireAdmission,
                IdleTurnAction::ReadPendingWork,
                IdleTurnAction::ReadMode,
                IdleTurnAction::Reserve,
                IdleTurnAction::Reject {
                    clear_reservation: false,
                    start_pending_work: false,
                    error: TryStartTurnIfIdleError {
                        reason: TryStartTurnIfIdleRejectionReason::Busy,
                        input,
                    },
                },
            ]
        }),
        ({
            let events: Seq<IdleTurnEvent> = seq![
                IdleTurnEvent::Admitted(true),
                IdleTurnEvent::PendingWork(false),
                IdleTurnEvent::Mode(before),
                IdleTurnEvent::Reserved(true),
                IdleTurnEvent::PendingWork(true),
            ];
            let run = idle_turn_run(input, events);
            &&& run is Some
            &&& run->Some_0.1 == seq![
                IdleTurnAction::AcquireAdmission,
                IdleTurnAction::ReadPendingWork,
                IdleTurnAction::ReadMode,
                IdleTurnAction::Reserve,
                IdleTurnAction::ReadPendingWork,
                IdleTurnAction::Reject {
                    clear_reservation: true,
                    start_pending_work: true,
                    error: TryStartTurnIfIdleError {
                        reason: TryStartTurnIfIdleRejectionReason::PendingTriggerTurn,
                        input,
                    },
                },
            ]
        }),
        ({
            let events: Seq<IdleTurnEvent> = seq![
                IdleTurnEvent::Admitted(true),
                IdleTurnEvent::PendingWork(false),
                IdleTurnEvent::Mode(before),
                IdleTurnEvent::Reserved(true),
                IdleTurnEvent::PendingWork(false),
                IdleTurnEvent::Context(None),
            ];
            let run = idle_turn_run(input, events);
            &&& run is Some
            &&& run->Some_0.1 == seq![
                IdleTurnAction::AcquireAdmission,
                IdleTurnAction::ReadPendingWork,
                IdleTurnAction::ReadMode,
                IdleTurnAction::Reserve,
                IdleTurnAction::ReadPendingWork,
                IdleTurnAction::NewTurnContext,
                IdleTurnAction::Reject {
                    clear_reservation: true,
                    start_pending_work: false,
                    error: TryStartTurnIfIdleError {
                        reason: TryStartTurnIfIdleRejectionReason::PersistenceFailed,
                        input,
                    },
                },
            ]
        }),
        ({
            let events: Seq<IdleTurnEvent> = seq![
                IdleTurnEvent::Admitted(true),
                IdleTurnEvent::PendingWork(false),
                IdleTurnEvent::Mode(before),
                IdleTurnEvent::Reserved(true),
                IdleTurnEvent::PendingWork(false),
                IdleTurnEvent::Context(Some(mode)),
                IdleTurnEvent::Warned,
                IdleTurnEvent::PendingWork(true),
            ];
            let run = idle_turn_run(input, events);
            &&& run is Some
            &&& run->Some_0.1 == seq![
                IdleTurnAction::AcquireAdmission,
                IdleTurnAction::ReadPendingWork,
                IdleTurnAction::ReadMode,
                IdleTurnAction::Reserve,
                IdleTurnAction::ReadPendingWork,
                IdleTurnAction::NewTurnContext,
                IdleTurnAction::EmitModelWarnings,
                IdleTurnAction::ReadPendingWork,
                IdleTurnAction::Reject {
                    clear_reservation: true,
                    start_pending_work: true,
                    error: TryStartTurnIfIdleError {
                        reason: TryStartTurnIfIdleRejectionReason::PendingTriggerTurn,
                        input,
                    },
                },
            ]
        }),
        ({
            let events: Seq<IdleTurnEvent> = seq![
                IdleTurnEvent::Admitted(true),
                IdleTurnEvent::PendingWork(false),
                IdleTurnEvent::Mode(before),
                IdleTurnEvent::Reserved(true),
                IdleTurnEvent::PendingWork(false),
                IdleTurnEvent::Context(Some(mode)),
                IdleTurnEvent::Warned,
                IdleTurnEvent::PendingWork(false),
                IdleTurnEvent::StillReserved(false),
            ];
            let run = idle_turn_run(input, events);
            &&& run is Some
            &&& run->Some_0.1 == seq![
                IdleTurnAction::AcquireAdmission,
                IdleTurnAction::ReadPendingWork,
                IdleTurnAction::ReadMode,
                IdleTurnAction::Reserve,
                IdleTurnAction::ReadPendingWork,
                IdleTurnAction::NewTurnContext,
                IdleTurnAction::EmitModelWarnings,
                IdleTurnAction::ReadPendingWork,
                IdleTurnAction::CheckReservation,
                IdleTurnAction::Reject {
                    clear_reservation: true,
                    start_pending_work: false,
                    error: TryStartTurnIfIdleError {
                        reason: TryStartTurnIfIdleRejectionReason::Busy,
                        input,
                    },
                },
            ]
        }),
        ({
            let events: Seq<IdleTurnEvent> = seq![
                IdleTurnEvent::Admitted(true),
                IdleTurnEvent::PendingWork(false),
                IdleTurnEvent::Mode(before),
                IdleTurnEvent::Reserved(true),
                IdleTurnEvent::PendingWork(false),
                IdleTurnEvent::Context(Some(mode)),
                IdleTurnEvent::Warned,
                IdleTurnEvent::PendingWork(false),
                IdleTurnEvent::StillReserved(true),
                IdleTurnEvent::Started(TaskStartOutcome::RestartRequired),
            ];
            let run = idle_turn_run(input, events);
            &&& run is Some
            &&& run->Some_0.1 == seq![
                IdleTurnAction::AcquireAdmission,
                IdleTurnAction::ReadPendingWork,
                IdleTurnAction::ReadMode,
                IdleTurnAction::Reserve,
                IdleTurnAction::ReadPendingWork,
                IdleTurnAction::NewTurnContext,
                IdleTurnAction::EmitModelWarnings,
                IdleTurnAction::ReadPendingWork,
                IdleTurnAction::CheckReservation,
                IdleTurnAction::QueueInputAndStart,
                IdleTurnAction::Reject {
                    clear_reservation: true,
                    start_pending_work: false,
                    error: TryStartTurnIfIdleError {
                        reason: TryStartTurnIfIdleRejectionReason::PersistenceFailed,
                        input,
                    },
                },
            ]
        }),
        ({
            let events: Seq<IdleTurnEvent> = seq![
                IdleTurnEvent::Admitted(true),
                IdleTurnEvent::PendingWork(false),
                IdleTurnEvent::Mode(before),
                IdleTurnEvent::Reserved(true),
                IdleTurnEvent::PendingWork(false),
                IdleTurnEvent::Context(Some(mode)),
                IdleTurnEvent::Warned,
                IdleTurnEvent::PendingWork(false),
                IdleTurnEvent::StillReserved(true),
                IdleTurnEvent::Started(TaskStartOutcome::Superseded),
            ];
            let run = idle_turn_run(input, events);
            &&& run is Some
            &&& run->Some_0.1 == seq![
                IdleTurnAction::AcquireAdmission,
                IdleTurnAction::ReadPendingWork,
                IdleTurnAction::ReadMode,
                IdleTurnAction::Reserve,
                IdleTurnAction::ReadPendingWork,
                IdleTurnAction::NewTurnContext,
                IdleTurnAction::EmitModelWarnings,
                IdleTurnAction::ReadPendingWork,
                IdleTurnAction::CheckReservation,
                IdleTurnAction::QueueInputAndStart,
                IdleTurnAction::Reject {
                    clear_reservation: true,
                    start_pending_work: false,
                    error: TryStartTurnIfIdleError {
                        reason: TryStartTurnIfIdleRejectionReason::Busy,
                        input,
                    },
                },
            ]
        }),
{
    let e0 = Seq::<IdleTurnEvent>::empty();
    lemma_idle_turn_step(input, e0, IdleTurnEvent::Admitted(false));
    let e1 = e0.push(IdleTurnEvent::Admitted(false));
    assert(idle_turn_run(input, e1)->Some_0.1 =~= seq![
        IdleTurnAction::AcquireAdmission,
        IdleTurnAction::Reject {
            clear_reservation: false,
            start_pending_work: false,
            error: TryStartTurnIfIdleError {
                reason: TryStartTurnIfIdleRejectionReason::PersistenceFailed,
                input,
            },
        },
    ]);
    lemma_idle_turn_step(input, e0, IdleTurnEvent::Admitted(true));
    let e2 = e0.push(IdleTurnEvent::Admitted(true));
    lemma_idle_turn_step(input, e2, IdleTurnEvent::PendingWork(true));
    let e3 = e2.push(IdleTurnEvent::PendingWork(true));
    assert(e3 =~= seq![IdleTurnEvent::Admitted(true), IdleTurnEvent::PendingWork(true)]);
    assert(idle_turn_run(input, e3)->Some_0.1 =~= seq![
        IdleTurnAction::AcquireAdmission,
        IdleTurnAction::ReadPendingWork,
        IdleTurnAction::Reject {
            clear_reservation: false,
            start_pending_work: false,
            error: TryStartTurnIfIdleError {
                reason: TryStartTurnIfIdleRejectionReason::PendingTriggerTurn,
                input,
            },
        },
    ]);
    lemma_idle_turn_step(input, e2, IdleTurnEvent::PendingWork(false));
    let e4 = e2.push(IdleTurnEvent::PendingWork(false));
    lemma_idle_turn_step(input, e4, IdleTurnEvent::Mode(before));
    let e5 = e4.push(IdleTurnEvent::Mode(before));
    lemma_idle_turn_step(input, e5, IdleTurnEvent::Reserved(false));
    let e6 = e5.push(IdleTurnEvent::Reserved(false));
    assert(e6 =~= seq![
        IdleTurnEvent::Admitted(true),
        IdleTurnEvent::PendingWork(false),
        IdleTurnEvent::Mode(before),
        IdleTurnEvent::Reserved(false),
    ]);
    assert(idle_turn_run(input, e6)->Some_0.1 =~= seq![
        IdleTurnAction::AcquireAdmission,
        IdleTurnAction::ReadPendingWork,
        IdleTurnAction::ReadMode,
        IdleTurnAction::Reserve,
        IdleTurnAction::Reject {
            clear_reservation: false,
            start_pending_work: false,
            error: TryStartTurnIfIdleError {
                reason: TryStartTurnIfIdleRejectionReason::Busy,
                input,
            },
        },
    ]);
    lemma_idle_turn_step(input, e5, IdleTurnEvent::Reserved(true));
    let e7 = e5.push(IdleTurnEvent::Reserved(true));
    lemma_idle_turn_step(input, e7, IdleTurnEvent::PendingWork(true));
    let e8 = e7.push(IdleTurnEvent::PendingWork(true));
    assert(e8 =~= seq![
        IdleTurnEvent::Admitted(true),
        IdleTurnEvent::PendingWork(false),
        IdleTurnEvent::Mode(before),
        IdleTurnEvent::Reserved(true),
        IdleTurnEvent::PendingWork(true),
    ]);
    assert(idle_turn_run(input, e8)->Some_0.1 =~= seq![
        IdleTurnAction::AcquireAdmission,
        IdleTurnAction::ReadPendingWork,
        IdleTurnAction::ReadMode,
        IdleTurnAction::Reserve,
        IdleTurnAction::ReadPendingWork,
        IdleTurnAction::Reject {
            clear_reservation: true,
            start_pending_work: true,
            error: TryStartTurnIfIdleError {
                reason: TryStartTurnIfIdleRejectionReason::PendingTriggerTurn,
                input,
            },
        },
    ]);
    lemma_idle_turn_step(input, e7, IdleTurnEvent::PendingWork(false));
    let e9 = e7.push(IdleTurnEvent::PendingWork(false));
    lemma_idle_turn_step(input, e9, IdleTurnEvent::Context(None));
    let e10 = e9.push(IdleTurnEvent::Context(None));
    assert(e10 =~= seq![
        IdleTurnEvent::Admitted(true),
        IdleTurnEvent::PendingWork(false),
        IdleTurnEvent::Mode(before),
        IdleTurnEvent::Reserved(true),
        IdleTurnEvent::PendingWork(false),
        IdleTurnEvent::Context(None),
    ]);
    assert(idle_turn_run(input, e10)->Some_0.1 =~= seq![
        IdleTurnAction::AcquireAdmission,
        IdleTurnAction::ReadPendingWork,
        IdleTurnAction::ReadMode,
        IdleTurnAction::Reserve,
        IdleTurnAction::ReadPendingWork,
        IdleTurnAction::NewTurnContext,
        IdleTurnAction::Reject {
            clear_reservation: true,
            start_pending_work: false,
            error: TryStartTurnIfIdleError {
                reason: TryStartTurnIfIdleRejectionReason::PersistenceFailed,
                input,
            },
        },
    ]);
    lemma_idle_turn_step(input, e9, IdleTurnEvent::Context(Some(mode)));
    let e11 = e9.push(IdleTurnEvent::Context(Some(mode)));
    lemma_idle_turn_step(input, e11, IdleTurnEvent::Warned);
    let e12 = e11.push(IdleTurnEvent::Warned);
    lemma_idle_turn_step(input, e12, IdleTurnEvent::PendingWork(true));
    let e13 = e12.push(IdleTurnEvent::PendingWork(true));
    assert(e13 =~= seq![
        IdleTurnEvent::Admitted(true),
        IdleTurnEvent::PendingWork(false),
        IdleTurnEvent::Mode(before),
        IdleTurnEvent::Reserved(true),
        IdleTurnEvent::PendingWork(false),
        IdleTurnEvent::Context(Some(mode)),
        IdleTurnEvent::Warned,
        IdleTurnEvent::PendingWork(true),
    ]);
    assert(idle_turn_run(input, e13)->Some_0.1 =~= seq![
        IdleTurnAction::AcquireAdmission,
        IdleTurnAction::ReadPendingWork,
        IdleTurnAction::ReadMode,
        IdleTurnAction::Reserve,
        IdleTurnAction::ReadPendingWork,
        IdleTurnAction::NewTurnContext,
        IdleTurnAction::EmitModelWarnings,
        IdleTurnAction::ReadPendingWork,
        IdleTurnAction::Reject {
            clear_reservation: true,
            start_pending_work: true,
            error: TryStartTurnIfIdleError {
                reason: TryStartTurnIfIdleRejectionReason::PendingTriggerTurn,
                input,
            },
        },
    ]);
    lemma_idle_turn_step(input, e12, IdleTurnEvent::PendingWork(false));
    let e14 = e12.push(IdleTurnEvent::PendingWork(false));
    lemma_idle_turn_step(input, e14, IdleTurnEvent::StillReserved(false));
    let e15 = e14.push(IdleTurnEvent::StillReserved(false));
    assert(e15 =~= seq![
        IdleTurnEvent::Admitted(true),
        IdleTurnEvent::PendingWork(false),
        IdleTurnEvent::Mode(before),
        IdleTurnEvent::Reserved(true),
        IdleTurnEvent::PendingWork(false),
        IdleTurnEvent::Context(Some(mode)),
        IdleTurnEvent::Warned,
        IdleTurnEvent::PendingWork(false),
        IdleTurnEvent::StillReserved(false),
    ]);
    assert(idle_turn_run(input, e15)->Some_0.1 =~= seq![
        IdleTurnAction::AcquireAdmission,
        IdleTurnAction::ReadPendingWork,
        IdleTurnAction::ReadMode,
        IdleTurnAction::Reserve,
        IdleTurnAction::ReadPendingWork,
        IdleTurnAction::NewTurnContext,
        IdleTurnAction::EmitModelWarnings,
        IdleTurnAction::ReadPendingWork,
        IdleTurnAction::CheckReservation,
        IdleTurnAction::Reject {
            clear_reservation: true,
            start_pending_work: false,
            error: TryStartTurnIfIdleError {
                reason: TryStartTurnIfIdleRejectionReason::Busy,
                input,
            },
        },
    ]);
    lemma_idle_turn_step(input, e14, IdleTurnEvent::StillReserved(true));
    let e16 = e14.push(IdleTurnEvent::StillReserved(true));
    lemma_idle_turn_step(input, e16, IdleTurnEvent::Started(TaskStartOutcome::RestartRequired));
    let e17 = e16.push(IdleTurnEvent::Started(TaskStartOutcome::RestartRequired));
    assert(e17 =~= seq![
        IdleTurnEvent::Admitted(true),
        IdleTurnEvent::PendingWork(false),
        IdleTurnEvent::Mode(before),
        IdleTurnEvent::Reserved(true),
        IdleTurnEvent::PendingWork(false),
        IdleTurnEvent::Context(Some(mode)),
        IdleTurnEvent::Warned,
        IdleTurnEvent::PendingWork(false),
        IdleTurnEvent::StillReserved(true),
        IdleTurnEvent::Started(TaskStartOutcome::RestartRequired),
    ]);
    assert(idle_turn_run(input, e17)->Some_0.1 =~= seq![
        IdleTurnAction::AcquireAdmission,
        IdleTurnAction::ReadPendingWork,
        IdleTurnAction::ReadMode,
        IdleTurnAction::Reserve,
        IdleTurnAction::ReadPendingWork,
        IdleTurnAction::NewTurnContext,
        IdleTurnAction::EmitModelWarnings,
        IdleTurnAction::ReadPendingWork,
        IdleTurnAction::CheckReservation,
        IdleTurnAction::QueueInputAndStart,
        IdleTurnAction::Reject {
            clear_reservation: true,
            start_pending_work: false,
            error: TryStartTurnIfIdleError {
                reason: TryStartTurnIfIdleRejectionReason::PersistenceFailed,
                input,
            },
        },
    ]);
    lemma_idle_turn_step(input, e16, IdleTurnEvent::Started(TaskStartOutcome::Superseded));
    let e18 = e16.push(IdleTurnEvent::Started(TaskStartOutcome::Superseded));
    assert(e18 =~= seq![
        IdleTurnEvent::Admitted(true),
        IdleTurnEvent::PendingWork(false),
        IdleTurnEvent::Mode(before),
        IdleTurnEvent::Reserved(true),
        IdleTurnEvent::PendingWork(false),
        IdleTurnEvent::Context(Some(mode)),
        IdleTurnEvent::Warned,
        IdleTurnEvent::PendingWork(false),
        IdleTurnEvent::StillReserved(true),
        IdleTurnEvent::Started(TaskStartOutcome::Superseded),
    ]);
    assert(idle_turn_run(input, e18)->Some_0.1 =~= seq![
        IdleTurnAction::AcquireAdmission,
        IdleTurnAction::ReadPendingWork,
        IdleTurnAction::ReadMode,
        IdleTurnAction::Reserve,
        IdleTurnAction::ReadPendingWork,
        IdleTurnAction::NewTurnContext,
        IdleTurnAction::EmitModelWarnings,
        IdleTurnAction::ReadPendingWork,
        IdleTurnAction::CheckReservation,
        IdleTurnAction::QueueInputAndStart,
        IdleTurnAction::Reject {
            clear_reservation: true,
            start_pending_work: false,
            error: TryStartTurnIfIdleError {
                reason: TryStartTurnIfIdleRejectionReason::Busy,
                input,
            },
        },
    ]);
}

/// An input counts as sent by a user exactly when it holds a message of a user with content.
pub proof fn law_user_input_has_content(input: Seq<TurnInput>, last: TurnInput)
    ensures
        !holds_user_input(Seq::empty()),
        last matches TurnInput::UserInput { content, .. } && content@.len() > 0
            ==> holds_user_input(input.push(last)),
        !(last matches TurnInput::UserInput { content, .. } && content@.len() > 0) ==> (
        holds_user_input(input.push(last)) <==> holds_user_input(input)),
{
    let all = input.push(last);
    assert(all[input.len() as int] == last);
    assert forall|i: int| 0 <= i < input.len() implies #[trigger] all[i] == input[i] by {}
    if holds_user_input(input) {
        let i = choose|i: int|
            0 <= i < input.len() && ((#[trigger] input[i]) matches TurnInput::UserInput {
                content,
                ..
            } && content@.len() > 0);
        assert(all[i] == input[i]);
    }
}

/// A start takes an answer exactly where it waits for one of that kind, and none when it is done.
/// It holds its input until it is refused, and then hands it back.
pub proof fn law_start_takes_only_awaited_answers(state: IdleTurnState, event: IdleTurnEvent)
    ensures
        idle_turn_next(state, event) is Some <==> {
            ||| state.stage is Admission && event is Admitted
            ||| state.stage is PendingWork && event is PendingWork
            ||| state.stage is Mode && event is Mode
            ||| state.stage is Reservation && event is Reserved
            ||| state.stage is PendingAfterReservation && event is PendingWork
            ||| state.stage is Context && event is Context
            ||| state.stage is Warnings && event is Warned
            ||| state.stage is PendingBeforeStart && event is PendingWork
            ||| state.stage is StillReserved && event is StillReserved
            ||| state.stage is Start && event is Started
            ||| state.stage is Persistence && event is Persisted
        },
        idle_turn_next(state, event) matches Some((stage, held, action)) ==> match action {
            IdleTurnAction::Reject { error, .. } => held is None && error.input == state.input
                && stage == IdleTurnStage::Done,
            _ => held == Some(state.input),
        },
        idle_turn_next(state, event) matches Some((stage, _, action)) ==> (stage is Done
            <==> action is Started || action is Reject),
{
}

/// A start begins as its run does: it holds its input, and knows whether a user sent any of it.
pub proof fn law_idle_turn_begins_as_its_run_does(
    input: Vec<TurnInput>,
    res: (IdleTurnState, IdleTurnAction),
)
    requires
        call_ensures(start_idle_turn, (input,), res),
    ensures
        idle_turn_run(input, Seq::empty()) == Some((res.0.stage, seq![res.1])),
        res.0.input == input,
        res.0.user_input == holds_user_input(input@),
{
}

/// A start that takes a step goes on as its run does, with its input held until it is refused; an
/// answer that it does not wait for changes nothing.
pub proof fn law_idle_turn_goes_on_as_its_run_does(
    input: Vec<TurnInput>,
    events: Seq<IdleTurnEvent>,
    state: IdleTurnState,
    actions: Seq<IdleTurnAction>,
    event: IdleTurnEvent,
    res: Result<(IdleTurnState, IdleTurnAction), IdleTurnState>,
)
    requires
        idle_turn_run(input, events) == Some((state.stage, actions)),
        state.input == input,
        state.user_input == holds_user_input(input@),
        call_ensures(step_idle_turn, (state, event), res),
    ensures
        match res {
            Ok((next, action)) => {
                &&& idle_turn_run(input, events.push(event)) == Some(
                    (next.stage, actions.push(action)),
                )
                &&& next.user_input == state.user_input
                &&& if action is Reject {
                    next.input@.len() == 0
                } else {
                    next.input == input
                }
            },
            Err(back) => back == state && idle_turn_run(input, events.push(event)) is None,
        },
{
    assert(events.push(event).drop_last() =~= events);
    assert(state == IdleTurnState {
        input,
        user_input: holds_user_input(input@),
        stage: state.stage,
    });
}

} // verus!
