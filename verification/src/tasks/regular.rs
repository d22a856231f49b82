//! A regular turn: prepared once, then sampled until nothing is pending.
use crate::protocol::TaskKind;
use crate::session::input_queue::TurnInput;
use vstd::prelude::*;

verus! {

/// The task of a regular turn.
#[derive(Clone, Copy, Debug, PartialEq, Eq, Structural)]
pub struct RegularTask;

impl RegularTask {
    pub fn new() -> (res: RegularTask)
        ensures
            res == RegularTask,
    {
        RegularTask
    }

    pub fn kind(&self) -> (res: TaskKind)
        ensures
            res == TaskKind::Regular,
    {
        TaskKind::Regular
    }

    pub fn span_name(&self) -> (res: &'static str)
        ensures
            res@ == "session_task.turn"@,
    {
        "session_task.turn"
    }
}

impl Default for RegularTask {
    fn default() -> (res: RegularTask)
        ensures
            res == RegularTask,
    {
        RegularTask
    }
}

/// When a contributor takes part in the start of a turn.
#[derive(Clone, Copy, Debug, PartialEq, Eq, Structural)]
pub enum TurnStartPhase {
    TurnStart,
    RegularTaskStart,
}

/// Something that takes part in the start of a turn.
#[derive(Clone, Copy, Debug, PartialEq, Eq, Structural)]
pub struct TurnContributor {
    pub phase: TurnStartPhase,
    pub requires_mcp_runtime: bool,
}

/// Whether any of `contributors` changes the tool servers when a regular task starts.
pub fn prepares_mcp(contributors: &Vec<TurnContributor>) -> (res: bool)
    ensures
        res == exists|i: int|
            0 <= i < contributors@.len() && (#[trigger] contributors@[i]).phase
                == TurnStartPhase::RegularTaskStart && contributors@[i].requires_mcp_runtime,
{
    let mut i: usize = 0;
    while i < contributors.len()
        invariant
            i <= contributors.len(),
            forall|k: int|
                0 <= k < i ==> !((#[trigger] contributors@[k]).phase
                    == TurnStartPhase::RegularTaskStart && contributors@[k].requires_mcp_runtime),
        decreases contributors.len() - i,
    {
        if contributors[i].phase == TurnStartPhase::RegularTaskStart
            && contributors[i].requires_mcp_runtime {
            return true;
        }
        i = i + 1;
    }
    false
}

/// The connection to the model that a turn starts with. `C` is one that was warmed up.
#[derive(Clone, Debug, PartialEq, Eq)]
pub enum ProviderStartup<C> {
    Ready(Option<C>),
    DeferredForRoutingCooldown,
}

/// How a warmed up connection was come by.
#[derive(Clone, Debug, PartialEq, Eq)]
pub enum PrewarmResolution<C> {
    Cancelled,
    Unavailable,
    Ready(C),
}

/// How far the task has come. Each state names what it waits for.
#[allow(inconsistent_fields)]
#[derive(Debug, PartialEq, Eq)]
pub enum RegularState {
    Started { input: Vec<TurnInput>, prepares_mcp: bool, routing_cooldown: bool },
    Prepared { input: Vec<TurnInput>, prepares_mcp: bool, routing_cooldown: bool },
    Reprojected { input: Vec<TurnInput>, cancelled: bool, routing_cooldown: bool },
    ReasoningReset { input: Vec<TurnInput>, routing_cooldown: bool },
    Prewarm { input: Vec<TurnInput> },
    InputsRecorded,
    Sampled,
    TerminalError { last_message: Option<String> },
    PendingInput { last_message: Option<String> },
    Done,
}

/// What has come back. `C` is a warmed up connection, `E` an error of the turn.
#[derive(Debug, PartialEq, Eq)]
pub enum RegularEvent<C, E> {
    Emitted,
    /// The contributors have run, or the task was cancelled while they did.
    Prepared { cancelled: bool },
    Reprojected,
    ReasoningReset,
    Prewarm(PrewarmResolution<C>),
    InputsRecorded,
    /// The last message of the agent, if the turn went well.
    Sampled(Result<Option<String>, E>),
    /// Whether the turn has failed for good, which has been reported.
    TerminalError(bool),
    /// Whether input came meanwhile.
    PendingInput(bool),
}

/// What to do next. `C` is a warmed up connection, `E` an error of the turn.
#[derive(Debug, PartialEq, Eq)]
pub enum RegularAction<C, E> {
    EmitTurnStarted,
    /// Run the contributors that take part once the task can be seen and interrupted.
    RunContributors,
    RequestMcpReprojection,
    ResetServerReasoning,
    ConsumePrewarm,
    /// Run the hooks for the input and record it, without asking the model.
    RecordInputs(Vec<TurnInput>),
    RunTurn { input: Vec<TurnInput>, startup: ProviderStartup<C> },
    /// Sample again, without input or connection of its own.
    RunTurnAgain,
    ReadTerminalError,
    ReadPendingInput,
    Finish(Result<Option<String>, E>),
}

/// The contributors are done with: a task that was cancelled only records its input.
pub open spec fn regular_prepared<C, E>(
    input: Vec<TurnInput>,
    cancelled: bool,
    routing_cooldown: bool,
) -> (RegularState, RegularAction<C, E>) {
    if cancelled {
        (RegularState::InputsRecorded, RegularAction::RecordInputs(input))
    } else {
        (
            RegularState::ReasoningReset { input, routing_cooldown },
            RegularAction::ResetServerReasoning,
        )
    }
}

/// The next step, nothing where `event` does not answer what `state` waits for.
pub open spec fn regular_next<C, E>(state: RegularState, event: RegularEvent<C, E>) -> Option<
    (RegularState, RegularAction<C, E>),
> {
    match (state, event) {
        (
            RegularState::Started { input, prepares_mcp, routing_cooldown },
            RegularEvent::Emitted,
        ) => Some(
            (
                RegularState::Prepared { input, prepares_mcp, routing_cooldown },
                RegularAction::RunContributors,
            ),
        ),
        (
            RegularState::Prepared { input, prepares_mcp, routing_cooldown },
            RegularEvent::Prepared { cancelled },
        ) => Some(
            if prepares_mcp {
                (
                    RegularState::Reprojected { input, cancelled, routing_cooldown },
                    RegularAction::RequestMcpReprojection,
                )
            } else {
                regular_prepared(input, cancelled, routing_cooldown)
            },
        ),
        (
            RegularState::Reprojected { input, cancelled, routing_cooldown },
            RegularEvent::Reprojected,
        ) => Some(regular_prepared(input, cancelled, routing_cooldown)),
        (
            RegularState::ReasoningReset { input, routing_cooldown },
            RegularEvent::ReasoningReset,
        ) => Some(
            if routing_cooldown {
                (
                    RegularState::Sampled,
                    RegularAction::RunTurn {
                        input,
                        startup: ProviderStartup::DeferredForRoutingCooldown,
                    },
                )
            } else {
                (RegularState::Prewarm { input }, RegularAction::ConsumePrewarm)
            },
        ),
        (RegularState::Prewarm { input }, RegularEvent::Prewarm(resolution)) => Some(
            match resolution {
                PrewarmResolution::Cancelled => (
                    RegularState::InputsRecorded,
                    RegularAction::RecordInputs(input),
                ),
                PrewarmResolution::Unavailable => (
                    RegularState::Sampled,
                    RegularAction::RunTurn { input, startup: ProviderStartup::Ready(None) },
                ),
                PrewarmResolution::Ready(connection) => (
                    RegularState::Sampled,
                    RegularAction::RunTurn {
                        input,
                        startup: ProviderStartup::Ready(Some(connection)),
                    },
                ),
            },
        ),
        (RegularState::InputsRecorded, RegularEvent::InputsRecorded) => Some(
            (RegularState::Done, RegularAction::Finish(Ok(None))),
        ),
        (RegularState::Sampled, RegularEvent::Sampled(result)) => Some(
            match result {
                Ok(last_message) => (
                    RegularState::TerminalError { last_message },
                    RegularAction::ReadTerminalError,
                ),
                Err(error) => (RegularState::Done, RegularAction::Finish(Err(error))),
            },
        ),
        (RegularState::TerminalError { last_message }, RegularEvent::TerminalError(failed)) => {
            Some(
                if failed {
                    (RegularState::Done, RegularAction::Finish(Ok(last_message)))
                } else {
                    (RegularState::PendingInput { last_message }, RegularAction::ReadPendingInput)
                },
            )
        },
        (RegularState::PendingInput { last_message }, RegularEvent::PendingInput(pending)) => Some(
            if pending {
                (RegularState::Sampled, RegularAction::RunTurnAgain)
            } else {
                (RegularState::Done, RegularAction::Finish(Ok(last_message)))
            },
        ),
        _ => None,
    }
}

/// Starts a regular task.
pub fn run<C, E>(input: Vec<TurnInput>, prepares_mcp: bool, routing_cooldown: bool) -> (res: (
    RegularState,
    RegularAction<C, E>,
))
    ensures
        res == (
            RegularState::Started { input, prepares_mcp, routing_cooldown },
            RegularAction::<C, E>::EmitTurnStarted,
        ),
{
    (
        RegularState::Started { input, prepares_mcp, routing_cooldown },
        RegularAction::EmitTurnStarted,
    )
}

fn after_preparation<C, E>(
    input: Vec<TurnInput>,
    cancelled: bool,
    routing_cooldown: bool,
) -> (res: (RegularState, RegularAction<C, E>))
    ensures
        res == regular_prepared::<C, E>(input, cancelled, routing_cooldown),
{
    if cancelled {
        (RegularState::InputsRecorded, RegularAction::RecordInputs(input))
    } else {
        (
            RegularState::ReasoningReset { input, routing_cooldown },
            RegularAction::ResetServerReasoning,
        )
    }
}

/// Takes the next step. An event that does not answer what the state waits for is handed back.
pub fn step_regular<C, E>(state: RegularState, event: RegularEvent<C, E>) -> (res: Result<
    (RegularState, RegularAction<C, E>),
    (RegularState, RegularEvent<C, E>),
>)
    ensures
        res == match regular_next(state, event) {
            Some(next) => Ok::<
                (RegularState, RegularAction<C, E>),
                (RegularState, RegularEvent<C, E>),
            >(next),
            None => Err((state, event)),
        },
{
    let next: (RegularState, RegularAction<C, E>) = match (state, event) {
        (
            RegularState::Started { input, prepares_mcp, routing_cooldown },
            RegularEvent::Emitted,
        ) => (
            RegularState::Prepared { input, prepares_mcp, routing_cooldown },
            RegularAction::RunContributors,
        ),
        (
            RegularState::Prepared { input, prepares_mcp, routing_cooldown },
            RegularEvent::Prepared { cancelled },
        ) => {
            if prepares_mcp {
                (
                    RegularState::Reprojected { input, cancelled, routing_cooldown },
                    RegularAction::RequestMcpReprojection,
                )
            } else {
                after_preparation(input, cancelled, routing_cooldown)
            }
        },
        (
            RegularState::Reprojected { input, cancelled, routing_cooldown },
            RegularEvent::Reprojected,
        ) => after_preparation(input, cancelled, routing_cooldown),
        (
            RegularState::ReasoningReset { input, routing_cooldown },
            RegularEvent::ReasoningReset,
        ) => {
            if routing_cooldown {
                (
                    RegularState::Sampled,
                    RegularAction::RunTurn {
                        input,
                        startup: ProviderStartup::DeferredForRoutingCooldown,
                    },
                )
            } else {
                (RegularState::Prewarm { input }, RegularAction::ConsumePrewarm)
            }
        },
        (RegularState::Prewarm { input }, RegularEvent::Prewarm(resolution)) => {
            match resolution {
                PrewarmResolution::Cancelled => (
                    RegularState::InputsRecorded,
                    RegularAction::RecordInputs(input),
                ),
                PrewarmResolution::Unavailable => (
                    RegularState::Sampled,
                    RegularAction::RunTurn { input, startup: ProviderStartup::Ready(None) },
                ),
                PrewarmResolution::Ready(connection) => (
                    RegularState::Sampled,
                    RegularAction::RunTurn {
                        input,
                        startup: ProviderStartup::Ready(Some(connection)),
                    },
                ),
            }
        },
        (RegularState::InputsRecorded, RegularEvent::InputsRecorded) => (
            RegularState::Done,
            RegularAction::Finish(Ok(None)),
        ),
        (RegularState::Sampled, RegularEvent::Sampled(result)) => {
            match result {
                Ok(last_message) => (
                    RegularState::TerminalError { last_message },
                    RegularAction::ReadTerminalError,
                ),
                Err(error) => (RegularState::Done, RegularAction::Finish(Err(error))),
            }
        },
        (RegularState::TerminalError { last_message }, RegularEvent::TerminalError(failed)) => {
            if failed {
                (RegularState::Done, RegularAction::Finish(Ok(last_message)))
            } else {
                (RegularState::PendingInput { last_message }, RegularAction::ReadPendingInput)
            }
        },
        (RegularState::PendingInput { last_message }, RegularEvent::PendingInput(pending)) => {
            if pending {
                (RegularState::Sampled, RegularAction::RunTurnAgain)
            } else {
                (RegularState::Done, RegularAction::Finish(Ok(last_message)))
            }
        },
        (state, event) => {
            return Err((state, event));
        },
    };
    Ok(next)
}

/// Where a task stands after `events`, and all that it asked for.
pub open spec fn regular_run<C, E>(
    input: Vec<TurnInput>,
    prepares_mcp: bool,
    routing_cooldown: bool,
    events: Seq<RegularEvent<C, E>>,
) -> Option<(RegularState, Seq<RegularAction<C, E>>)>
    decreases events.len(),
{
    if events.len() == 0 {
        Some(
            (
                RegularState::Started { input, prepares_mcp, routing_cooldown },
                seq![RegularAction::EmitTurnStarted],
            ),
        )
    } else {
        match regular_run(input, prepares_mcp, routing_cooldown, events.drop_last()) {
            Some((state, actions)) => match regular_next(state, events.last()) {
                Some((next, action)) => Some((next, actions.push(action))),
                None => None,
            },
            None => None,
        }
    }
}

spec fn held_input(state: RegularState) -> Option<Vec<TurnInput>> {
    match state {
        RegularState::Started { input, .. } => Some(input),
        RegularState::Prepared { input, .. } => Some(input),
        RegularState::Reprojected { input, .. } => Some(input),
        RegularState::ReasoningReset { input, .. } => Some(input),
        RegularState::Prewarm { input } => Some(input),
        _ => None,
    }
}

/// The input that an action hands to the model or records.
pub open spec fn consumed_input<C, E>(action: RegularAction<C, E>) -> Option<Vec<TurnInput>> {
    match action {
        RegularAction::RunTurn { input, .. } => Some(input),
        RegularAction::RecordInputs(input) => Some(input),
        _ => None,
    }
}

spec fn regular_invariant<C, E>(
    input: Vec<TurnInput>,
    prepares_mcp: bool,
    state: RegularState,
    actions: Seq<RegularAction<C, E>>,
) -> bool {
    &&& actions.len() > 0
    &&& actions[0] is EmitTurnStarted
    &&& forall|i: int| 0 < i < actions.len() ==> !(#[trigger] actions[i] is EmitTurnStarted)
    &&& held_input(state) is Some ==> held_input(state)->Some_0 == input && forall|i: int|
        0 <= i < actions.len() ==> consumed_input(#[trigger] actions[i]) is None
    &&& forall|i: int|
        0 <= i < actions.len() ==> (consumed_input(#[trigger] actions[i]) is Some
            ==> consumed_input(actions[i])->Some_0 == input)
    &&& forall|i: int, j: int|
        0 <= i < j < actions.len() ==> !(consumed_input(#[trigger] actions[i]) is Some
            && consumed_input(#[trigger] actions[j]) is Some)
    &&& match state {
        RegularState::Started { prepares_mcp: p, .. } => p == prepares_mcp,
        RegularState::Prepared { prepares_mcp: p, .. } => p == prepares_mcp,
        _ => prepares_mcp ==> exists|i: int|
            0 <= i < actions.len() && #[trigger] actions[i] is RequestMcpReprojection,
    }
    &&& !prepares_mcp ==> !(state is Reprojected) && forall|i: int|
        0 <= i < actions.len() ==> !(#[trigger] actions[i] is RequestMcpReprojection)
}

proof fn lemma_regular_invariant<C, E>(
    input: Vec<TurnInput>,
    prepares_mcp: bool,
    routing_cooldown: bool,
    events: Seq<RegularEvent<C, E>>,
)
    requires
        regular_run(input, prepares_mcp, routing_cooldown, events) is Some,
    ensures
        ({
            let (state, actions) = regular_run(
                input,
                prepares_mcp,
                routing_cooldown,
                events,
            )->Some_0;
            regular_invariant(input, prepares_mcp, state, actions)
        }),
    decreases events.len(),
{
    if events.len() > 0 {
        let head = events.drop_last();
        lemma_regular_invariant(input, prepares_mcp, routing_cooldown, head);
        let (before, done) = regular_run(input, prepares_mcp, routing_cooldown, head)->Some_0;
        let (after, action) = regular_next(before, events.last())->Some_0;
        let actions = done.push(action);
        assert forall|i: int| 0 <= i < done.len() implies #[trigger] actions[i] == done[i] by {}
        assert(actions[done.len() as int] == action);
        if exists|i: int| 0 <= i < done.len() && #[trigger] done[i] is RequestMcpReprojection {
            let i = choose|i: int|
                0 <= i < done.len() && #[trigger] done[i] is RequestMcpReprojection;
            assert(actions[i] is RequestMcpReprojection);
        }
    }
}

/// A task reports the start of its turn once and first. Its input goes to the model or on record
/// exactly as it was given, and at most once, however often the turn is sampled.
pub proof fn law_task_input_is_consumed_once<C, E>(
    input: Vec<TurnInput>,
    prepares_mcp: bool,
    routing_cooldown: bool,
    events: Seq<RegularEvent<C, E>>,
    i: int,
    j: int,
)
    requires
        regular_run(input, prepares_mcp, routing_cooldown, events) is Some,
        0 <= i < j < regular_run(input, prepares_mcp, routing_cooldown, events)->Some_0.1.len(),
    ensures
        ({
            let actions = regular_run(input, prepares_mcp, routing_cooldown, events)->Some_0.1;
            &&& actions[0] is EmitTurnStarted
            &&& !(actions[j] is EmitTurnStarted)
            &&& consumed_input(actions[j]) is Some ==> consumed_input(actions[j])->Some_0 == input
            &&& !(consumed_input(actions[i]) is Some && consumed_input(actions[j]) is Some)
        }),
{
    lemma_regular_invariant(input, prepares_mcp, routing_cooldown, events);
}

/// The tools are projected anew exactly when a contributor changes the tool servers: a task that
/// has come to its end has asked for that even if it was cancelled meanwhile.
pub proof fn law_cancelled_discovery_still_reprojects_tools<C, E>(
    input: Vec<TurnInput>,
    prepares_mcp: bool,
    routing_cooldown: bool,
    events: Seq<RegularEvent<C, E>>,
)
    requires
        regular_run(input, prepares_mcp, routing_cooldown, events) is Some,
        regular_run(input, prepares_mcp, routing_cooldown, events)->Some_0.0 is Done,
    ensures
        prepares_mcp <==> exists|i: int|
            0 <= i < regular_run(
                input,
                prepares_mcp,
                routing_cooldown,
                events,
            )->Some_0.1.len() && #[trigger] regular_run(
                input,
                prepares_mcp,
                routing_cooldown,
                events,
            )->Some_0.1[i] is RequestMcpReprojection,
{
    lemma_regular_invariant(input, prepares_mcp, routing_cooldown, events);
}

/// A turn that has failed for good is not sampled again, whatever is pending: the task ends with
/// the last message.
pub proof fn law_failed_turn_is_not_sampled_again<C, E>(last_message: Option<String>)
    ensures
        regular_next::<C, E>(
            RegularState::TerminalError { last_message },
            RegularEvent::TerminalError(true),
        ) == Some((RegularState::Done, RegularAction::<C, E>::Finish(Ok(last_message)))),
        forall|event: RegularEvent<C, E>|
            #[trigger] regular_next::<C, E>(RegularState::Done, event) is None,
{
}

proof fn lemma_regular_step<C, E>(
    input: Vec<TurnInput>,
    prepares_mcp: bool,
    routing_cooldown: bool,
    events: Seq<RegularEvent<C, E>>,
    event: RegularEvent<C, E>,
)
    requires
        regular_run(input, prepares_mcp, routing_cooldown, events) is Some,
        regular_next(
            regular_run(input, prepares_mcp, routing_cooldown, events)->Some_0.0,
            event,
        ) is Some,
    ensures
        ({
            let (state, actions) = regular_run(
                input,
                prepares_mcp,
                routing_cooldown,
                events,
            )->Some_0;
            let (next, action) = regular_next(state, event)->Some_0;
            regular_run(
                input,
                prepares_mcp,
                routing_cooldown,
                events.push(event),
            ) == Some((next, actions.push(action)))
        }),
{
    assert(events.push(event).drop_last() =~= events);
}

/// A task hands its input to the model with the connection that was warmed up, if there is one,
/// and ends with the last message once nothing is pending. The tools stay as they are.
pub proof fn law_task_runs_its_turn_with_the_tools_at_hand<C, E>(
    input: Vec<TurnInput>,
    connection: C,
    message: Option<String>,
)
    ensures
        ({
            let events: Seq<RegularEvent<C, E>> = seq![
                RegularEvent::Emitted,
                RegularEvent::Prepared { cancelled: false },
                RegularEvent::ReasoningReset,
                RegularEvent::Prewarm(PrewarmResolution::Ready(connection)),
                RegularEvent::Sampled(Ok(message)),
                RegularEvent::TerminalError(false),
                RegularEvent::PendingInput(false),
            ];
            let run = regular_run(input, false, false, events);
            &&& run is Some
            &&& run->Some_0.1 == seq![
                RegularAction::<C, E>::EmitTurnStarted,
                RegularAction::<C, E>::RunContributors,
                RegularAction::<C, E>::ResetServerReasoning,
                RegularAction::<C, E>::ConsumePrewarm,
                RegularAction::<C, E>::RunTurn {
                    input,
                    startup: ProviderStartup::Ready(Some(connection)),
                },
                RegularAction::<C, E>::ReadTerminalError,
                RegularAction::<C, E>::ReadPendingInput,
                RegularAction::<C, E>::Finish(Ok(message)),
            ]
        }),
        ({
            let events: Seq<RegularEvent<C, E>> = seq![
                RegularEvent::Emitted,
                RegularEvent::Prepared { cancelled: false },
                RegularEvent::ReasoningReset,
                RegularEvent::Prewarm(PrewarmResolution::Unavailable),
                RegularEvent::Sampled(Ok(message)),
                RegularEvent::TerminalError(true),
            ];
            let run = regular_run(input, false, false, events);
            &&& run is Some
            &&& run->Some_0.1 == seq![
                RegularAction::<C, E>::EmitTurnStarted,
                RegularAction::<C, E>::RunContributors,
                RegularAction::<C, E>::ResetServerReasoning,
                RegularAction::<C, E>::ConsumePrewarm,
                RegularAction::<C, E>::RunTurn { input, startup: ProviderStartup::Ready(None) },
                RegularAction::<C, E>::ReadTerminalError,
                RegularAction::<C, E>::Finish(Ok(message)),
            ]
        }),
{
    let e0 = Seq::<RegularEvent<C, E>>::empty();
    lemma_regular_step(input, false, false, e0, RegularEvent::Emitted);
    let e1 = e0.push(RegularEvent::Emitted);
    lemma_regular_step(input, false, false, e1, RegularEvent::Prepared { cancelled: false });
    let e2 = e1.push(RegularEvent::Prepared { cancelled: false });
    lemma_regular_step(input, false, false, e2, RegularEvent::ReasoningReset);
    let e3 = e2.push(RegularEvent::ReasoningReset);
    lemma_regular_step(
        input,
        false,
        false,
        e3,
        RegularEvent::Prewarm(PrewarmResolution::Ready(connection)),
    );
    let e4 = e3.push(RegularEvent::Prewarm(PrewarmResolution::Ready(connection)));
    lemma_regular_step(input, false, false, e4, RegularEvent::Sampled(Ok(message)));
    let e5 = e4.push(RegularEvent::Sampled(Ok(message)));
    lemma_regular_step(input, false, false, e5, RegularEvent::TerminalError(false));
    let e6 = e5.push(RegularEvent::TerminalError(false));
    lemma_regular_step(input, false, false, e6, RegularEvent::PendingInput(false));
    let e7 = e6.push(RegularEvent::PendingInput(false));
    assert(e7 =~= seq![
        RegularEvent::Emitted,
        RegularEvent::Prepared { cancelled: false },
        RegularEvent::ReasoningReset,
        RegularEvent::Prewarm(PrewarmResolution::Ready(connection)),
        RegularEvent::Sampled(Ok(message)),
        RegularEvent::TerminalError(false),
        RegularEvent::PendingInput(false),
    ]);
    assert(regular_run(input, false, false, e7)->Some_0.1 =~= seq![
        RegularAction::<C, E>::EmitTurnStarted,
        RegularAction::<C, E>::RunContributors,
        RegularAction::<C, E>::ResetServerReasoning,
        RegularAction::<C, E>::ConsumePrewarm,
        RegularAction::<C, E>::RunTurn { input, startup: ProviderStartup::Ready(Some(connection)) },
        RegularAction::<C, E>::ReadTerminalError,
        RegularAction::<C, E>::ReadPendingInput,
        RegularAction::<C, E>::Finish(Ok(message)),
    ]);
    lemma_regular_step(
        input,
        false,
        false,
        e3,
        RegularEvent::Prewarm(PrewarmResolution::Unavailable),
    );
    let e8 = e3.push(RegularEvent::Prewarm(PrewarmResolution::Unavailable));
    lemma_regular_step(input, false, false, e8, RegularEvent::Sampled(Ok(message)));
    let e9 = e8.push(RegularEvent::Sampled(Ok(message)));
    lemma_regular_step(input, false, false, e9, RegularEvent::TerminalError(true));
    let e10 = e9.push(RegularEvent::TerminalError(true));
    assert(e10 =~= seq![
        RegularEvent::Emitted,
        RegularEvent::Prepared { cancelled: false },
        RegularEvent::ReasoningReset,
        RegularEvent::Prewarm(PrewarmResolution::Unavailable),
        RegularEvent::Sampled(Ok(message)),
        RegularEvent::TerminalError(true),
    ]);
    assert(regular_run(input, false, false, e10)->Some_0.1 =~= seq![
        RegularAction::<C, E>::EmitTurnStarted,
        RegularAction::<C, E>::RunContributors,
        RegularAction::<C, E>::ResetServerReasoning,
        RegularAction::<C, E>::ConsumePrewarm,
        RegularAction::<C, E>::RunTurn { input, startup: ProviderStartup::Ready(None) },
        RegularAction::<C, E>::ReadTerminalError,
        RegularAction::<C, E>::Finish(Ok(message)),
    ]);
}

/// While the routing cools down the turn is run without looking for a connection, and its failure
/// is what the task ends with. The tools stay as they are.
pub proof fn law_cooling_task_runs_its_turn_with_the_tools_at_hand<C, E>(
    input: Vec<TurnInput>,
    error: E,
)
    ensures
        ({
            let events: Seq<RegularEvent<C, E>> = seq![
                RegularEvent::Emitted,
                RegularEvent::Prepared { cancelled: false },
                RegularEvent::ReasoningReset,
                RegularEvent::Sampled(Err(error)),
            ];
            let run = regular_run(input, false, true, events);
            &&& run is Some
            &&& run->Some_0.1 == seq![
                RegularAction::<C, E>::EmitTurnStarted,
                RegularAction::<C, E>::RunContributors,
                RegularAction::<C, E>::ResetServerReasoning,
                RegularAction::<C, E>::RunTurn {
                    input,
                    startup: ProviderStartup::DeferredForRoutingCooldown,
                },
                RegularAction::<C, E>::Finish(Err(error)),
            ]
        }),
{
    let e0 = Seq::<RegularEvent<C, E>>::empty();
    lemma_regular_step(input, false, true, e0, RegularEvent::Emitted);
    let e1 = e0.push(RegularEvent::Emitted);
    lemma_regular_step(input, false, true, e1, RegularEvent::Prepared { cancelled: false });
    let e2 = e1.push(RegularEvent::Prepared { cancelled: false });
    lemma_regular_step(input, false, true, e2, RegularEvent::ReasoningReset);
    let e3 = e2.push(RegularEvent::ReasoningReset);
    lemma_regular_step(input, false, true, e3, RegularEvent::Sampled(Err(error)));
    let e4 = e3.push(RegularEvent::Sampled(Err(error)));
    assert(e4 =~= seq![
        RegularEvent::Emitted,
        RegularEvent::Prepared { cancelled: false },
        RegularEvent::ReasoningReset,
        RegularEvent::Sampled(Err(error)),
    ]);
    assert(regular_run(input, false, true, e4)->Some_0.1 =~= seq![
        RegularAction::<C, E>::EmitTurnStarted,
        RegularAction::<C, E>::RunContributors,
        RegularAction::<C, E>::ResetServerReasoning,
        RegularAction::<C, E>::RunTurn {
            input,
            startup: ProviderStartup::DeferredForRoutingCooldown,
        },
        RegularAction::<C, E>::Finish(Err(error)),
    ]);
}

/// A task that is cancelled while it is prepared records its input, asks the model nothing and
/// ends without a message. The tools stay as they are.
pub proof fn law_cancelled_task_records_its_input_with_the_tools_at_hand<C, E>(
    input: Vec<TurnInput>,
    routing_cooldown: bool,
)
    ensures
        ({
            let events: Seq<RegularEvent<C, E>> = seq![
                RegularEvent::Emitted,
                RegularEvent::Prepared { cancelled: true },
                RegularEvent::InputsRecorded,
            ];
            let run = regular_run(input, false, routing_cooldown, events);
            &&& run is Some
            &&& run->Some_0.1 == seq![
                RegularAction::<C, E>::EmitTurnStarted,
                RegularAction::<C, E>::RunContributors,
                RegularAction::<C, E>::RecordInputs(input),
                RegularAction::<C, E>::Finish(Ok(None)),
            ]
        }),
{
    let e0 = Seq::<RegularEvent<C, E>>::empty();
    lemma_regular_step(input, false, routing_cooldown, e0, RegularEvent::Emitted);
    let e1 = e0.push(RegularEvent::Emitted);
    lemma_regular_step(
        input,
        false,
        routing_cooldown,
        e1,
        RegularEvent::Prepared { cancelled: true },
    );
    let e2 = e1.push(RegularEvent::Prepared { cancelled: true });
    lemma_regular_step(input, false, routing_cooldown, e2, RegularEvent::InputsRecorded);
    let e3 = e2.push(RegularEvent::InputsRecorded);
    assert(e3 =~= seq![
        RegularEvent::Emitted,
        RegularEvent::Prepared { cancelled: true },
        RegularEvent::InputsRecorded,
    ]);
    assert(regular_run(input, false, routing_cooldown, e3)->Some_0.1 =~= seq![
        RegularAction::<C, E>::EmitTurnStarted,
        RegularAction::<C, E>::RunContributors,
        RegularAction::<C, E>::RecordInputs(input),
        RegularAction::<C, E>::Finish(Ok(None)),
    ]);
}

/// A task that is cancelled while it waits for a connection records its input, asks the model
/// nothing and ends without a message. The tools stay as they are.
pub proof fn law_task_cancelled_at_the_connection_records_its_input_with_the_tools_at_hand<C, E>(
    input: Vec<TurnInput>,
)
    ensures
        ({
            let events: Seq<RegularEvent<C, E>> = seq![
                RegularEvent::Emitted,
                RegularEvent::Prepared { cancelled: false },
                RegularEvent::ReasoningReset,
                RegularEvent::Prewarm(PrewarmResolution::Cancelled),
                RegularEvent::InputsRecorded,
            ];
            let run = regular_run(input, false, false, events);
            &&& run is Some
            &&& run->Some_0.1 == seq![
                RegularAction::<C, E>::EmitTurnStarted,
                RegularAction::<C, E>::RunContributors,
                RegularAction::<C, E>::ResetServerReasoning,
                RegularAction::<C, E>::ConsumePrewarm,
                RegularAction::<C, E>::RecordInputs(input),
                RegularAction::<C, E>::Finish(Ok(None)),
            ]
        }),
{
    let e0 = Seq::<RegularEvent<C, E>>::empty();
    lemma_regular_step(input, false, false, e0, RegularEvent::Emitted);
    let e1 = e0.push(RegularEvent::Emitted);
    lemma_regular_step(input, false, false, e1, RegularEvent::Prepared { cancelled: false });
    let e2 = e1.push(RegularEvent::Prepared { cancelled: false });
    lemma_regular_step(input, false, false, e2, RegularEvent::ReasoningReset);
    let e3 = e2.push(RegularEvent::ReasoningReset);
    lemma_regular_step(
        input,
        false,
        false,
        e3,
        RegularEvent::Prewarm(PrewarmResolution::Cancelled),
    );
    let e4 = e3.push(RegularEvent::Prewarm(PrewarmResolution::Cancelled));
    lemma_regular_step(input, false, false, e4, RegularEvent::InputsRecorded);
    let e5 = e4.push(RegularEvent::InputsRecorded);
    assert(e5 =~= seq![
        RegularEvent::Emitted,
        RegularEvent::Prepared { cancelled: false },
        RegularEvent::ReasoningReset,
        RegularEvent::Prewarm(PrewarmResolution::Cancelled),
        RegularEvent::InputsRecorded,
    ]);
    assert(regular_run(input, false, false, e5)->Some_0.1 =~= seq![
        RegularAction::<C, E>::EmitTurnStarted,
        RegularAction::<C, E>::RunContributors,
        RegularAction::<C, E>::ResetServerReasoning,
        RegularAction::<C, E>::ConsumePrewarm,
        RegularAction::<C, E>::RecordInputs(input),
        RegularAction::<C, E>::Finish(Ok(None)),
    ]);
}

/// A task hands its input to the model with the connection that was warmed up, if there is one,
/// and ends with the last message once nothing is pending. The tools are projected anew first,
/// because a contributor changes the tool servers.
pub proof fn law_task_runs_its_turn_with_new_tools<C, E>(
    input: Vec<TurnInput>,
    connection: C,
    message: Option<String>,
)
    ensures
        ({
            let events: Seq<RegularEvent<C, E>> = seq![
                RegularEvent::Emitted,
                RegularEvent::Prepared { cancelled: false },
                RegularEvent::Reprojected,
                RegularEvent::ReasoningReset,
                RegularEvent::Prewarm(PrewarmResolution::Ready(connection)),
                RegularEvent::Sampled(Ok(message)),
                RegularEvent::TerminalError(false),
                RegularEvent::PendingInput(false),
            ];
            let run = regular_run(input, true, false, events);
            &&& run is Some
            &&& run->Some_0.1 == seq![
                RegularAction::<C, E>::EmitTurnStarted,
                RegularAction::<C, E>::RunContributors,
                RegularAction::<C, E>::RequestMcpReprojection,
                RegularAction::<C, E>::ResetServerReasoning,
                RegularAction::<C, E>::ConsumePrewarm,
                RegularAction::<C, E>::RunTurn {
                    input,
                    startup: ProviderStartup::Ready(Some(connection)),
                },
                RegularAction::<C, E>::ReadTerminalError,
                RegularAction::<C, E>::ReadPendingInput,
                RegularAction::<C, E>::Finish(Ok(message)),
            ]
        }),
        ({
            let events: Seq<RegularEvent<C, E>> = seq![
                RegularEvent::Emitted,
                RegularEvent::Prepared { cancelled: false },
                RegularEvent::Reprojected,
                RegularEvent::ReasoningReset,
                RegularEvent::Prewarm(PrewarmResolution::Unavailable),
                RegularEvent::Sampled(Ok(message)),
                RegularEvent::TerminalError(true),
            ];
            let run = regular_run(input, true, false, events);
            &&& run is Some
            &&& run->Some_0.1 == seq![
                RegularAction::<C, E>::EmitTurnStarted,
                RegularAction::<C, E>::RunContributors,
                RegularAction::<C, E>::RequestMcpReprojection,
                RegularAction::<C, E>::ResetServerReasoning,
                RegularAction::<C, E>::ConsumePrewarm,
                RegularAction::<C, E>::RunTurn { input, startup: ProviderStartup::Ready(None) },
                RegularAction::<C, E>::ReadTerminalError,
                RegularAction::<C, E>::Finish(Ok(message)),
            ]
        }),
{
    let e0 = Seq::<RegularEvent<C, E>>::empty();
    lemma_regular_step(input, true, false, e0, RegularEvent::Emitted);
    let e1 = e0.push(RegularEvent::Emitted);
    lemma_regular_step(input, true, false, e1, RegularEvent::Prepared { cancelled: false });
    let e2 = e1.push(RegularEvent::Prepared { cancelled: false });
    lemma_regular_step(input, true, false, e2, RegularEvent::Reprojected);
    let e3 = e2.push(RegularEvent::Reprojected);
    lemma_regular_step(input, true, false, e3, RegularEvent::ReasoningReset);
    let e4 = e3.push(RegularEvent::ReasoningReset);
    lemma_regular_step(
        input,
        true,
        false,
        e4,
        RegularEvent::Prewarm(PrewarmResolution::Ready(connection)),
    );
    let e5 = e4.push(RegularEvent::Prewarm(PrewarmResolution::Ready(connection)));
    lemma_regular_step(input, true, false, e5, RegularEvent::Sampled(Ok(message)));
    let e6 = e5.push(RegularEvent::Sampled(Ok(message)));
    lemma_regular_step(input, true, false, e6, RegularEvent::TerminalError(false));
    let e7 = e6.push(RegularEvent::TerminalError(false));
    lemma_regular_step(input, true, false, e7, RegularEvent::PendingInput(false));
    let e8 = e7.push(RegularEvent::PendingInput(false));
    assert(e8 =~= seq![
        RegularEvent::Emitted,
        RegularEvent::Prepared { cancelled: false },
        RegularEvent::Reprojected,
        RegularEvent::ReasoningReset,
        RegularEvent::Prewarm(PrewarmResolution::Ready(connection)),
        RegularEvent::Sampled(Ok(message)),
        RegularEvent::TerminalError(false),
        RegularEvent::PendingInput(false),
    ]);
    assert(regular_run(input, true, false, e8)->Some_0.1 =~= seq![
        RegularAction::<C, E>::EmitTurnStarted,
        RegularAction::<C, E>::RunContributors,
        RegularAction::<C, E>::RequestMcpReprojection,
        RegularAction::<C, E>::ResetServerReasoning,
        RegularAction::<C, E>::ConsumePrewarm,
        RegularAction::<C, E>::RunTurn { input, startup: ProviderStartup::Ready(Some(connection)) },
        RegularAction::<C, E>::ReadTerminalError,
        RegularAction::<C, E>::ReadPendingInput,
        RegularAction::<C, E>::Finish(Ok(message)),
    ]);
    lemma_regular_step(
        input,
        true,
        false,
        e4,
        RegularEvent::Prewarm(PrewarmResolution::Unavailable),
    );
    let e9 = e4.push(RegularEvent::Prewarm(PrewarmResolution::Unavailable));
    lemma_regular_step(input, true, false, e9, RegularEvent::Sampled(Ok(message)));
    let e10 = e9.push(RegularEvent::Sampled(Ok(message)));
    lemma_regular_step(input, true, false, e10, RegularEvent::TerminalError(true));
    let e11 = e10.push(RegularEvent::TerminalError(true));
    assert(e11 =~= seq![
        RegularEvent::Emitted,
        RegularEvent::Prepared { cancelled: false },
        RegularEvent::Reprojected,
        RegularEvent::ReasoningReset,
        RegularEvent::Prewarm(PrewarmResolution::Unavailable),
        RegularEvent::Sampled(Ok(message)),
        RegularEvent::TerminalError(true),
    ]);
    assert(regular_run(input, true, false, e11)->Some_0.1 =~= seq![
        RegularAction::<C, E>::EmitTurnStarted,
        RegularAction::<C, E>::RunContributors,
        RegularAction::<C, E>::RequestMcpReprojection,
        RegularAction::<C, E>::ResetServerReasoning,
        RegularAction::<C, E>::ConsumePrewarm,
        RegularAction::<C, E>::RunTurn { input, startup: ProviderStartup::Ready(None) },
        RegularAction::<C, E>::ReadTerminalError,
        RegularAction::<C, E>::Finish(Ok(message)),
    ]);
}

/// While the routing cools down the turn is run without looking for a connection, and its failure
/// is what the task ends with. The tools are projected anew first, because a contributor changes
/// the tool servers.
pub proof fn law_cooling_task_runs_its_turn_with_new_tools<C, E>(
    input: Vec<TurnInput>,
    error: E,
)
    ensures
        ({
            let events: Seq<RegularEvent<C, E>> = seq![
                RegularEvent::Emitted,
                RegularEvent::Prepared { cancelled: false },
                RegularEvent::Reprojected,
                RegularEvent::ReasoningReset,
                RegularEvent::Sampled(Err(error)),
            ];
            let run = regular_run(input, true, true, events);
            &&& run is Some
            &&& run->Some_0.1 == seq![
                RegularAction::<C, E>::EmitTurnStarted,
                RegularAction::<C, E>::RunContributors,
                RegularAction::<C, E>::RequestMcpReprojection,
                RegularAction::<C, E>::ResetServerReasoning,
                RegularAction::<C, E>::RunTurn {
                    input,
                    startup: ProviderStartup::DeferredForRoutingCooldown,
                },
                RegularAction::<C, E>::Finish(Err(error)),
            ]
        }),
{
    let e0 = Seq::<RegularEvent<C, E>>::empty();
    lemma_regular_step(input, true, true, e0, RegularEvent::Emitted);
    let e1 = e0.push(RegularEvent::Emitted);
    lemma_regular_step(input, true, true, e1, RegularEvent::Prepared { cancelled: false });
    let e2 = e1.push(RegularEvent::Prepared { cancelled: false });
    lemma_regular_step(input, true, true, e2, RegularEvent::Reprojected);
    let e3 = e2.push(RegularEvent::Reprojected);
    lemma_regular_step(input, true, true, e3, RegularEvent::ReasoningReset);
    let e4 = e3.push(RegularEvent::ReasoningReset);
    lemma_regular_step(input, true, true, e4, RegularEvent::Sampled(Err(error)));
    let e5 = e4.push(RegularEvent::Sampled(Err(error)));
    assert(e5 =~= seq![
        RegularEvent::Emitted,
        RegularEvent::Prepared { cancelled: false },
        RegularEvent::Reprojected,
        RegularEvent::ReasoningReset,
        RegularEvent::Sampled(Err(error)),
    ]);
    assert(regular_run(input, true, true, e5)->Some_0.1 =~= seq![
        RegularAction::<C, E>::EmitTurnStarted,
        RegularAction::<C, E>::RunContributors,
        RegularAction::<C, E>::RequestMcpReprojection,
        RegularAction::<C, E>::ResetServerReasoning,
        RegularAction::<C, E>::RunTurn {
            input,
            startup: ProviderStartup::DeferredForRoutingCooldown,
        },
        RegularAction::<C, E>::Finish(Err(error)),
    ]);
}

/// A task that is cancelled while it is prepared records its input, asks the model nothing and
/// ends without a message. The tools are projected anew first, because a contributor changes the
/// tool servers.
pub proof fn law_cancelled_task_records_its_input_with_new_tools<C, E>(
    input: Vec<TurnInput>,
    routing_cooldown: bool,
)
    ensures
        ({
            let events: Seq<RegularEvent<C, E>> = seq![
                RegularEvent::Emitted,
                RegularEvent::Prepared { cancelled: true },
                RegularEvent::Reprojected,
                RegularEvent::InputsRecorded,
            ];
            let run = regular_run(input, true, routing_cooldown, events);
            &&& run is Some
            &&& run->Some_0.1 == seq![
                RegularAction::<C, E>::EmitTurnStarted,
                RegularAction::<C, E>::RunContributors,
                RegularAction::<C, E>::RequestMcpReprojection,
                RegularAction::<C, E>::RecordInputs(input),
                RegularAction::<C, E>::Finish(Ok(None)),
            ]
        }),
{
    let e0 = Seq::<RegularEvent<C, E>>::empty();
    lemma_regular_step(input, true, routing_cooldown, e0, RegularEvent::Emitted);
    let e1 = e0.push(RegularEvent::Emitted);
    lemma_regular_step(
        input,
        true,
        routing_cooldown,
        e1,
        RegularEvent::Prepared { cancelled: true },
    );
    let e2 = e1.push(RegularEvent::Prepared { cancelled: true });
    lemma_regular_step(input, true, routing_cooldown, e2, RegularEvent::Reprojected);
    let e3 = e2.push(RegularEvent::Reprojected);
    lemma_regular_step(input, true, routing_cooldown, e3, RegularEvent::InputsRecorded);
    let e4 = e3.push(RegularEvent::InputsRecorded);
    assert(e4 =~= seq![
        RegularEvent::Emitted,
        RegularEvent::Prepared { cancelled: true },
        RegularEvent::Reprojected,
        RegularEvent::InputsRecorded,
    ]);
    assert(regular_run(input, true, routing_cooldown, e4)->Some_0.1 =~= seq![
        RegularAction::<C, E>::EmitTurnStarted,
        RegularAction::<C, E>::RunContributors,
        RegularAction::<C, E>::RequestMcpReprojection,
        RegularAction::<C, E>::RecordInputs(input),
        RegularAction::<C, E>::Finish(Ok(None)),
    ]);
}

/// A task that is cancelled while it waits for a connection records its input, asks the model
/// nothing and ends without a message. The tools are projected anew first, because a contributor
/// changes the tool servers.
pub proof fn law_task_cancelled_at_the_connection_records_its_input_with_new_tools<C, E>(
    input: Vec<TurnInput>,
)
    ensures
        ({
            let events: Seq<RegularEvent<C, E>> = seq![
                RegularEvent::Emitted,
                RegularEvent::Prepared { cancelled: false },
                RegularEvent::Reprojected,
                RegularEvent::ReasoningReset,
                RegularEvent::Prewarm(PrewarmResolution::Cancelled),
                RegularEvent::InputsRecorded,
            ];
            let run = regular_run(input, true, false, events);
            &&& run is Some
            &&& run->Some_0.1 == seq![
                RegularAction::<C, E>::EmitTurnStarted,
                RegularAction::<C, E>::RunContributors,
                RegularAction::<C, E>::RequestMcpReprojection,
                RegularAction::<C, E>::ResetServerReasoning,
                RegularAction::<C, E>::ConsumePrewarm,
                RegularAction::<C, E>::RecordInputs(input),
                RegularAction::<C, E>::Finish(Ok(None)),
            ]
        }),
{
    let e0 = Seq::<RegularEvent<C, E>>::empty();
    lemma_regular_step(input, true, false, e0, RegularEvent::Emitted);
    let e1 = e0.push(RegularEvent::Emitted);
    lemma_regular_step(input, true, false, e1, RegularEvent::Prepared { cancelled: false });
    let e2 = e1.push(RegularEvent::Prepared { cancelled: false });
    lemma_regular_step(input, true, false, e2, RegularEvent::Reprojected);
    let e3 = e2.push(RegularEvent::Reprojected);
    lemma_regular_step(input, true, false, e3, RegularEvent::ReasoningReset);
    let e4 = e3.push(RegularEvent::ReasoningReset);
    lemma_regular_step(input, true, false, e4, RegularEvent::Prewarm(PrewarmResolution::Cancelled));
    let e5 = e4.push(RegularEvent::Prewarm(PrewarmResolution::Cancelled));
    lemma_regular_step(input, true, false, e5, RegularEvent::InputsRecorded);
    let e6 = e5.push(RegularEvent::InputsRecorded);
    assert(e6 =~= seq![
        RegularEvent::Emitted,
        RegularEvent::Prepared { cancelled: false },
        RegularEvent::Reprojected,
        RegularEvent::ReasoningReset,
        RegularEvent::Prewarm(PrewarmResolution::Cancelled),
        RegularEvent::InputsRecorded,
    ]);
    assert(regular_run(input, true, false, e6)->Some_0.1 =~= seq![
        RegularAction::<C, E>::EmitTurnStarted,
        RegularAction::<C, E>::RunContributors,
        RegularAction::<C, E>::RequestMcpReprojection,
        RegularAction::<C, E>::ResetServerReasoning,
        RegularAction::<C, E>::ConsumePrewarm,
        RegularAction::<C, E>::RecordInputs(input),
        RegularAction::<C, E>::Finish(Ok(None)),
    ]);
}

/// Input that comes while the model is at work is answered in the same task: the turn is sampled
/// again, as often as something is pending, and the task ends as the latest sampling does.
pub proof fn law_pending_input_is_sampled_again<C, E>(
    input: Vec<TurnInput>,
    prepares_mcp: bool,
    routing_cooldown: bool,
    events: Seq<RegularEvent<C, E>>,
    message: Option<String>,
    error: E,
)
    requires
        regular_run(input, prepares_mcp, routing_cooldown, events) is Some,
        regular_run(input, prepares_mcp, routing_cooldown, events)->Some_0.0 is Sampled,
    ensures
        ({
            let actions = regular_run(input, prepares_mcp, routing_cooldown, events)->Some_0.1;
            let again = events + seq![
                RegularEvent::Sampled(Ok(message)),
                RegularEvent::TerminalError(false),
                RegularEvent::PendingInput(true),
            ];
            let ended = events + seq![
                RegularEvent::Sampled(Ok(message)),
                RegularEvent::TerminalError(false),
                RegularEvent::PendingInput(false),
            ];
            let failed = events.push(RegularEvent::Sampled(Err(error)));
            &&& regular_run(input, prepares_mcp, routing_cooldown, again) == Some(
                (
                    RegularState::Sampled,
                    actions + seq![
                        RegularAction::ReadTerminalError,
                        RegularAction::ReadPendingInput,
                        RegularAction::RunTurnAgain,
                    ],
                ),
            )
            &&& regular_run(input, prepares_mcp, routing_cooldown, ended) == Some(
                (
                    RegularState::Done,
                    actions + seq![
                        RegularAction::ReadTerminalError,
                        RegularAction::ReadPendingInput,
                        RegularAction::Finish(Ok(message)),
                    ],
                ),
            )
            &&& regular_run(input, prepares_mcp, routing_cooldown, failed) == Some(
                (RegularState::Done, actions.push(RegularAction::Finish(Err(error)))),
            )
        }),
{
    let actions = regular_run(input, prepares_mcp, routing_cooldown, events)->Some_0.1;
    lemma_regular_step(
        input,
        prepares_mcp,
        routing_cooldown,
        events,
        RegularEvent::Sampled(Err(error)),
    );
    lemma_regular_step(
        input,
        prepares_mcp,
        routing_cooldown,
        events,
        RegularEvent::Sampled(Ok(message)),
    );
    let sampled = events.push(RegularEvent::Sampled(Ok(message)));
    lemma_regular_step(
        input,
        prepares_mcp,
        routing_cooldown,
        sampled,
        RegularEvent::TerminalError(false),
    );
    let sound = sampled.push(RegularEvent::TerminalError(false));
    lemma_regular_step(
        input,
        prepares_mcp,
        routing_cooldown,
        sound,
        RegularEvent::PendingInput(true),
    );
    lemma_regular_step(
        input,
        prepares_mcp,
        routing_cooldown,
        sound,
        RegularEvent::PendingInput(false),
    );
    assert(sound.push(RegularEvent::PendingInput(true)) =~= events + seq![
        RegularEvent::Sampled(Ok(message)),
        RegularEvent::TerminalError(false),
        RegularEvent::PendingInput(true),
    ]);
    assert(sound.push(RegularEvent::PendingInput(false)) =~= events + seq![
        RegularEvent::Sampled(Ok(message)),
        RegularEvent::TerminalError(false),
        RegularEvent::PendingInput(false),
    ]);
    let read = actions.push(RegularAction::ReadTerminalError).push(RegularAction::ReadPendingInput);
    assert(read.push(RegularAction::RunTurnAgain) =~= actions + seq![
        RegularAction::ReadTerminalError,
        RegularAction::ReadPendingInput,
        RegularAction::RunTurnAgain,
    ]);
    assert(read.push(RegularAction::Finish(Ok(message))) =~= actions + seq![
        RegularAction::ReadTerminalError,
        RegularAction::ReadPendingInput,
        RegularAction::Finish(Ok(message)),
    ]);
}

/// A task takes an answer exactly where it waits for one of that kind, and none when it is done.
/// It is done exactly when its last word is said.
pub proof fn law_task_takes_only_awaited_answers<C, E>(
    state: RegularState,
    event: RegularEvent<C, E>,
)
    ensures
        regular_next(state, event) is Some <==> {
            ||| state is Started && event is Emitted
            ||| state is Prepared && event is Prepared
            ||| state is Reprojected && event is Reprojected
            ||| state is ReasoningReset && event is ReasoningReset
            ||| state is Prewarm && event is Prewarm
            ||| state is InputsRecorded && event is InputsRecorded
            ||| state is Sampled && event is Sampled
            ||| state is TerminalError && event is TerminalError
            ||| state is PendingInput && event is PendingInput
        },
        regular_next(state, event) matches Some((after, action)) ==> (after is Done
            <==> action is Finish),
{
}

/// A task begins as its run does.
pub proof fn law_regular_begins_as_its_run_does<C, E>(
    input: Vec<TurnInput>,
    prepares_mcp: bool,
    routing_cooldown: bool,
    res: (RegularState, RegularAction<C, E>),
)
    requires
        call_ensures(run::<C, E>, (input, prepares_mcp, routing_cooldown), res),
    ensures
        regular_run(input, prepares_mcp, routing_cooldown, Seq::<RegularEvent<C, E>>::empty()) == Some((res.0, seq![res.1])),
{
}

/// A task that takes a step goes on as its run does, with all that it asked for before; an answer
/// that it does not wait for is handed back, and nothing has changed.
pub proof fn law_regular_goes_on_as_its_run_does<C, E>(
    input: Vec<TurnInput>,
    prepares_mcp: bool,
    routing_cooldown: bool,
    events: Seq<RegularEvent<C, E>>,
    state: RegularState,
    actions: Seq<RegularAction<C, E>>,
    event: RegularEvent<C, E>,
    res: Result<(RegularState, RegularAction<C, E>), (RegularState, RegularEvent<C, E>)>,
)
    requires
        regular_run(input, prepares_mcp, routing_cooldown, events) == Some((state, actions)),
        call_ensures(step_regular::<C, E>, (state, event), res),
    ensures
        match res {
            Ok((next, action)) => regular_run(input, prepares_mcp, routing_cooldown, events.push(event)) == Some(
                (next, actions.push(action)),
            ),
            Err(back) => back == (state, event) && regular_run(input, prepares_mcp, routing_cooldown, events.push(event)) is None,
        },
{
    assert(events.push(event).drop_last() =~= events);
}

/// The tools are prepared exactly where some contributor takes part in the start of a regular task
/// and needs the tool servers.
pub proof fn law_tools_are_prepared_for_those_who_need_them(
    contributors: Vec<TurnContributor>,
    res: bool,
    i: int,
)
    requires
        call_ensures(prepares_mcp, (&contributors,), res),
    ensures
        0 <= i < contributors@.len() && contributors@[i].phase is RegularTaskStart
            && contributors@[i].requires_mcp_runtime ==> res,
        (forall|k: int|
            0 <= k < contributors@.len() ==> (#[trigger] contributors@[k]).phase is TurnStart
                || !contributors@[k].requires_mcp_runtime) ==> !res,
{
}

} // verus!
