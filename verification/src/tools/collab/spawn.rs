//! Spawning agents, and watchdogs that look after their owner.
use crate::errors::Failure;
use crate::ids::ThreadId;
use crate::protocol::AgentStatus;
use crate::protocol::SessionSource;
use crate::protocol::SubAgentSource;
use crate::text::blank;
use crate::text::is_blank;
use crate::tools::collab::handler::collab_spawn_error;
use crate::tools::collab::handler::spawn_refusal;
use crate::tools::collab::handler::thread_spawn_source;
use crate::tools::refusal::FunctionCallError;
use crate::tools::refusal::Refusal;
use vstd::prelude::*;

verus! {

/// How an agent is spawned.
#[derive(Clone, Copy, Debug, PartialEq, Eq, Structural)]
pub enum SpawnMode {
    Spawn,
    /// With the history of its parent.
    Fork,
    /// As a helper that is woken at intervals.
    Watchdog,
}

impl Default for SpawnMode {
    fn default() -> (res: SpawnMode)
        ensures
            res == SpawnMode::Spawn,
    {
        SpawnMode::Spawn
    }
}

/// The arguments of `spawn_agent`. `R` is a role.
#[derive(Clone, Debug, PartialEq, Eq)]
pub struct SpawnAgentArgs<R> {
    pub message: String,
    pub agent_type: Option<R>,
    pub spawn_mode: SpawnMode,
    pub interval_s: Option<i64>,
}

/// What holds wherever agents are spawned from a turn. `R` is a role.
#[derive(Clone, Debug, PartialEq, Eq)]
pub struct SpawnLimits<R> {
    pub default_role: R,
    pub default_interval_s: i64,
    pub max_depth: i32,
    /// How deep the new agent would be, and whether that is too deep.
    pub child_depth: i32,
    pub exceeds_depth: bool,
}

/// A spawn that nothing speaks against.
#[derive(Clone, Debug, PartialEq, Eq)]
pub struct SpawnPlan<R> {
    pub mode: SpawnMode,
    pub role: R,
    pub prompt: String,
    /// The interval of a watchdog.
    pub interval_s: Option<i64>,
    pub child_depth: i32,
    pub source: SessionSource,
}

/// The interval of a watchdog.
pub open spec fn interval_of(interval_s: Option<i64>, default_interval_s: i64) -> i64 {
    match interval_s {
        Some(interval) => interval,
        None => default_interval_s,
    }
}

/// The interval of a watchdog, which has to be positive.
pub fn watchdog_interval(interval_s: Option<i64>, default_interval_s: i64) -> (res: Result<
    i64,
    FunctionCallError,
>)
    ensures
        res == if interval_of(interval_s, default_interval_s) <= 0 {
            Err::<i64, FunctionCallError>(
                FunctionCallError::RespondToModel(Refusal::IntervalNotPositive),
            )
        } else {
            Ok(interval_of(interval_s, default_interval_s))
        },
{
    let interval: i64 = match interval_s {
        Some(interval) => interval,
        None => default_interval_s,
    };
    if interval <= 0 {
        return Err(FunctionCallError::RespondToModel(Refusal::IntervalNotPositive));
    }
    Ok(interval)
}

/// Why a spawn is refused, the first reason where there are several.
pub open spec fn spawn_objection<R>(
    args: SpawnAgentArgs<R>,
    source: SessionSource,
    limits: SpawnLimits<R>,
) -> Option<Refusal> {
    let watchdog = args.spawn_mode == SpawnMode::Watchdog;
    if watchdog && interval_of(args.interval_s, limits.default_interval_s) <= 0 {
        Some(Refusal::IntervalNotPositive)
    } else if blank(args.message@) {
        Some(Refusal::EmptyMessage)
    } else if watchdog && source is SubAgent {
        Some(Refusal::WatchdogOfSubAgent)
    } else if limits.exceeds_depth {
        Some(Refusal::DepthLimit { max_depth: limits.max_depth })
    } else {
        None
    }
}

/// Decides whether and how an agent is spawned from the thread `sender`.
pub fn handle<R>(
    sender: ThreadId,
    source: &SessionSource,
    args: SpawnAgentArgs<R>,
    limits: SpawnLimits<R>,
) -> (res: Result<SpawnPlan<R>, FunctionCallError>)
    ensures
        match spawn_objection(args, *source, limits) {
            Some(refusal) => res == Err::<SpawnPlan<R>, FunctionCallError>(
                FunctionCallError::RespondToModel(refusal),
            ),
            None => res == Ok::<SpawnPlan<R>, FunctionCallError>(
                SpawnPlan {
                    mode: args.spawn_mode,
                    role: match args.agent_type {
                        Some(role) => role,
                        None => limits.default_role,
                    },
                    prompt: args.message,
                    interval_s: if args.spawn_mode == SpawnMode::Watchdog {
                        Some(interval_of(args.interval_s, limits.default_interval_s))
                    } else {
                        None
                    },
                    child_depth: limits.child_depth,
                    source: SessionSource::SubAgent(
                        SubAgentSource::ThreadSpawn {
                            parent_thread_id: sender,
                            depth: limits.child_depth,
                        },
                    ),
                },
            ),
        },
{
    let interval_s: Option<i64> = match args.spawn_mode {
        SpawnMode::Watchdog => match watchdog_interval(args.interval_s, limits.default_interval_s) {
            Ok(interval) => Some(interval),
            Err(error) => {
                return Err(error);
            },
        },
        _ => None,
    };
    if is_blank(args.message.as_str()) {
        return Err(FunctionCallError::RespondToModel(Refusal::EmptyMessage));
    }
    let of_sub_agent: bool = match source {
        SessionSource::SubAgent(_) => true,
        _ => false,
    };
    if args.spawn_mode == SpawnMode::Watchdog && of_sub_agent {
        return Err(FunctionCallError::RespondToModel(Refusal::WatchdogOfSubAgent));
    }
    if limits.exceeds_depth {
        return Err(
            FunctionCallError::RespondToModel(Refusal::DepthLimit { max_depth: limits.max_depth }),
        );
    }
    let role: R = match args.agent_type {
        Some(role) => role,
        None => limits.default_role,
    };
    Ok(
        SpawnPlan {
            mode: args.spawn_mode,
            role,
            prompt: args.message,
            interval_s,
            child_depth: limits.child_depth,
            source: thread_spawn_source(sender, limits.child_depth),
        },
    )
}

/// How far a planned spawn has come. Each state names what it waits for.
#[derive(Debug, PartialEq, Eq)]
pub enum SpawnState {
    Begin { mode: SpawnMode, interval_s: i64 },
    Config { mode: SpawnMode, interval_s: i64 },
    Spawned,
    Status { thread_id: ThreadId },
    End { outcome: Result<ThreadId, FunctionCallError> },
    Done,
}

/// What has come back.
#[derive(Debug, PartialEq, Eq)]
pub enum SpawnEvent {
    Reported,
    /// The configuration of the agent, with its role applied.
    Configured(Result<(), FunctionCallError>),
    /// The new thread, or the error and how it is displayed.
    Spawned(Result<ThreadId, Failure>),
    Status(AgentStatus),
}

/// What to do next.
#[derive(Debug, PartialEq, Eq)]
pub enum SpawnAction {
    ReportBegin,
    BuildConfig,
    SpawnAgent,
    /// Fork with all of the history, so that what the model has cached of it stays of use.
    ForkAgent,
    SpawnWatchdog { interval_s: i64 },
    ReadStatus(ThreadId),
    ReportEnd { new_thread_id: Option<ThreadId>, status: AgentStatus },
    Finish(Result<ThreadId, FunctionCallError>),
}

/// The next step, nothing where `event` does not answer what `state` waits for.
pub open spec fn spawn_next(state: SpawnState, event: SpawnEvent) -> Option<
    (SpawnState, SpawnAction),
> {
    match (state, event) {
        (SpawnState::Begin { mode, interval_s }, SpawnEvent::Reported) => Some(
            (SpawnState::Config { mode, interval_s }, SpawnAction::BuildConfig),
        ),
        (SpawnState::Config { mode, interval_s }, SpawnEvent::Configured(result)) => Some(
            match result {
                Err(error) => (SpawnState::Done, SpawnAction::Finish(Err(error))),
                Ok(()) => (
                    SpawnState::Spawned,
                    match mode {
                        SpawnMode::Spawn => SpawnAction::SpawnAgent,
                        SpawnMode::Fork => SpawnAction::ForkAgent,
                        SpawnMode::Watchdog => SpawnAction::SpawnWatchdog { interval_s },
                    },
                ),
            },
        ),
        (SpawnState::Spawned, SpawnEvent::Spawned(result)) => Some(
            match result {
                Ok(thread_id) => (
                    SpawnState::Status { thread_id },
                    SpawnAction::ReadStatus(thread_id),
                ),
                Err(Failure { error, displayed }) => (
                    SpawnState::End {
                        outcome: Err(
                            FunctionCallError::RespondToModel(spawn_refusal(error, displayed)),
                        ),
                    },
                    SpawnAction::ReportEnd { new_thread_id: None, status: AgentStatus::NotFound },
                ),
            },
        ),
        (SpawnState::Status { thread_id }, SpawnEvent::Status(status)) => Some(
            (
                SpawnState::End { outcome: Ok(thread_id) },
                SpawnAction::ReportEnd { new_thread_id: Some(thread_id), status },
            ),
        ),
        (SpawnState::End { outcome }, SpawnEvent::Reported) => Some(
            (SpawnState::Done, SpawnAction::Finish(outcome)),
        ),
        _ => None,
    }
}

/// Starts to carry a planned spawn out.
pub fn start_spawn<R>(plan: &SpawnPlan<R>, default_interval_s: i64) -> (res: (
    SpawnState,
    SpawnAction,
))
    ensures
        res == (
            SpawnState::Begin {
                mode: plan.mode,
                interval_s: interval_of(plan.interval_s, default_interval_s),
            },
            SpawnAction::ReportBegin,
        ),
{
    let interval_s: i64 = match plan.interval_s {
        Some(interval) => interval,
        None => default_interval_s,
    };
    (SpawnState::Begin { mode: plan.mode, interval_s }, SpawnAction::ReportBegin)
}

/// Takes the next step. An event that does not answer what the state waits for is handed back.
pub fn step_spawn(state: SpawnState, event: SpawnEvent) -> (res: Result<
    (SpawnState, SpawnAction),
    (SpawnState, SpawnEvent),
>)
    ensures
        res == match spawn_next(state, event) {
            Some(next) => Ok::<(SpawnState, SpawnAction), (SpawnState, SpawnEvent)>(next),
            None => Err((state, event)),
        },
{
    let next: (SpawnState, SpawnAction) = match (state, event) {
        (SpawnState::Begin { mode, interval_s }, SpawnEvent::Reported) => (
            SpawnState::Config { mode, interval_s },
            SpawnAction::BuildConfig,
        ),
        (SpawnState::Config { mode, interval_s }, SpawnEvent::Configured(result)) => {
            match result {
                Err(error) => (SpawnState::Done, SpawnAction::Finish(Err(error))),
                Ok(()) => (
                    SpawnState::Spawned,
                    match mode {
                        SpawnMode::Spawn => SpawnAction::SpawnAgent,
                        SpawnMode::Fork => SpawnAction::ForkAgent,
                        SpawnMode::Watchdog => SpawnAction::SpawnWatchdog { interval_s },
                    },
                ),
            }
        },
        (SpawnState::Spawned, SpawnEvent::Spawned(result)) => {
            match result {
                Ok(thread_id) => (
                    SpawnState::Status { thread_id },
                    SpawnAction::ReadStatus(thread_id),
                ),
                Err(Failure { error, displayed }) => (
                    SpawnState::End { outcome: Err(collab_spawn_error(error, displayed)) },
                    SpawnAction::ReportEnd { new_thread_id: None, status: AgentStatus::NotFound },
                ),
            }
        },
        (SpawnState::Status { thread_id }, SpawnEvent::Status(status)) => (
            SpawnState::End { outcome: Ok(thread_id) },
            SpawnAction::ReportEnd { new_thread_id: Some(thread_id), status },
        ),
        (SpawnState::End { outcome }, SpawnEvent::Reported) => (
            SpawnState::Done,
            SpawnAction::Finish(outcome),
        ),
        (state, event) => {
            return Err((state, event));
        },
    };
    Ok(next)
}

/// How far the spawn of a watchdog has come. Each state names what it waits for.
#[derive(Debug, PartialEq, Eq)]
pub enum WatchdogState {
    Handle,
    Unregistered { target: ThreadId },
    OldShutDown { target: ThreadId },
    Registered { target: ThreadId },
    NewShutDown { target: ThreadId },
    TargetShutDown { error: Failure },
    Done,
}

/// What has come back.
#[derive(Debug, PartialEq, Eq)]
pub enum WatchdogEvent {
    /// The thread of the watchdog.
    Handle(Result<ThreadId, Failure>),
    /// The watchdogs of the owner that are no longer registered.
    Unregistered(Vec<ThreadId>),
    /// The watchdogs that the registration has replaced.
    Registered(Result<Vec<ThreadId>, Failure>),
    ShutDown,
}

/// What to do next.
#[derive(Debug, PartialEq, Eq)]
pub enum WatchdogAction {
    SpawnHandle,
    UnregisterOwner,
    /// Shut these agents down, whether or not that works.
    ShutDown(Vec<ThreadId>),
    Register { target: ThreadId },
    /// Shut the new watchdog down, as it could not be registered.
    ShutDownTarget(ThreadId),
    Finish(Result<ThreadId, Failure>),
}

/// The next step, nothing where `event` does not answer what `state` waits for.
pub open spec fn watchdog_next(state: WatchdogState, event: WatchdogEvent) -> Option<
    (WatchdogState, WatchdogAction),
> {
    match (state, event) {
        (WatchdogState::Handle, WatchdogEvent::Handle(result)) => Some(
            match result {
                Ok(target) => (
                    WatchdogState::Unregistered { target },
                    WatchdogAction::UnregisterOwner,
                ),
                Err(error) => (WatchdogState::Done, WatchdogAction::Finish(Err(error))),
            },
        ),
        (WatchdogState::Unregistered { target }, WatchdogEvent::Unregistered(superseded)) => Some(
            (WatchdogState::OldShutDown { target }, WatchdogAction::ShutDown(superseded)),
        ),
        (WatchdogState::OldShutDown { target }, WatchdogEvent::ShutDown) => Some(
            (WatchdogState::Registered { target }, WatchdogAction::Register { target }),
        ),
        (WatchdogState::Registered { target }, WatchdogEvent::Registered(result)) => Some(
            match result {
                Ok(superseded) => (
                    WatchdogState::NewShutDown { target },
                    WatchdogAction::ShutDown(superseded),
                ),
                Err(error) => (
                    WatchdogState::TargetShutDown { error },
                    WatchdogAction::ShutDownTarget(target),
                ),
            },
        ),
        (WatchdogState::NewShutDown { target }, WatchdogEvent::ShutDown) => Some(
            (WatchdogState::Done, WatchdogAction::Finish(Ok(target))),
        ),
        (WatchdogState::TargetShutDown { error }, WatchdogEvent::ShutDown) => Some(
            (WatchdogState::Done, WatchdogAction::Finish(Err(error))),
        ),
        _ => None,
    }
}

/// Starts to spawn a watchdog.
pub fn spawn_watchdog() -> (res: (WatchdogState, WatchdogAction))
    ensures
        res == (WatchdogState::Handle, WatchdogAction::SpawnHandle),
{
    (WatchdogState::Handle, WatchdogAction::SpawnHandle)
}

/// Takes the next step. An event that does not answer what the state waits for is handed back.
pub fn step_watchdog(state: WatchdogState, event: WatchdogEvent) -> (res: Result<
    (WatchdogState, WatchdogAction),
    (WatchdogState, WatchdogEvent),
>)
    ensures
        res == match watchdog_next(state, event) {
            Some(next) => Ok::<(WatchdogState, WatchdogAction), (WatchdogState, WatchdogEvent)>(
                next,
            ),
            None => Err((state, event)),
        },
{
    let next: (WatchdogState, WatchdogAction) = match (state, event) {
        (WatchdogState::Handle, WatchdogEvent::Handle(result)) => {
            match result {
                Ok(target) => (
                    WatchdogState::Unregistered { target },
                    WatchdogAction::UnregisterOwner,
                ),
                Err(error) => (WatchdogState::Done, WatchdogAction::Finish(Err(error))),
            }
        },
        (WatchdogState::Unregistered { target }, WatchdogEvent::Unregistered(superseded)) => (
            WatchdogState::OldShutDown { target },
            WatchdogAction::ShutDown(superseded),
        ),
        (WatchdogState::OldShutDown { target }, WatchdogEvent::ShutDown) => (
            WatchdogState::Registered { target },
            WatchdogAction::Register { target },
        ),
        (WatchdogState::Registered { target }, WatchdogEvent::Registered(result)) => {
            match result {
                Ok(superseded) => (
                    WatchdogState::NewShutDown { target },
                    WatchdogAction::ShutDown(superseded),
                ),
                Err(error) => (
                    WatchdogState::TargetShutDown { error },
                    WatchdogAction::ShutDownTarget(target),
                ),
            }
        },
        (WatchdogState::NewShutDown { target }, WatchdogEvent::ShutDown) => (
            WatchdogState::Done,
            WatchdogAction::Finish(Ok(target)),
        ),
        (WatchdogState::TargetShutDown { error }, WatchdogEvent::ShutDown) => (
            WatchdogState::Done,
            WatchdogAction::Finish(Err(error)),
        ),
        (state, event) => {
            return Err((state, event));
        },
    };
    Ok(next)
}

/// Where the spawn of a watchdog stands after `events`, and all that it asked for.
pub open spec fn watchdog_run(events: Seq<WatchdogEvent>) -> Option<
    (WatchdogState, Seq<WatchdogAction>),
>
    decreases events.len(),
{
    if events.len() == 0 {
        Some((WatchdogState::Handle, seq![WatchdogAction::SpawnHandle]))
    } else {
        match watchdog_run(events.drop_last()) {
            Some((state, actions)) => match watchdog_next(state, events.last()) {
                Some((next, action)) => Some((next, actions.push(action))),
                None => None,
            },
            None => None,
        }
    }
}

/// Every watchdog that `events` say is superseded was asked to shut down by `actions`.
pub open spec fn superseded_are_shut_down(
    events: Seq<WatchdogEvent>,
    actions: Seq<WatchdogAction>,
) -> bool {
    &&& forall|i: int|
        0 <= i < events.len() ==> ((#[trigger] events[i]) matches WatchdogEvent::Unregistered(old)
            ==> actions.contains(WatchdogAction::ShutDown(old)))
    &&& forall|i: int|
        0 <= i < events.len() ==> ((#[trigger] events[i]) matches WatchdogEvent::Registered(Ok(old))
            ==> actions.contains(WatchdogAction::ShutDown(old)))
}

proof fn lemma_contains_push<A>(s: Seq<A>, x: A, y: A)
    ensures
        s.push(x).contains(y) <==> s.contains(y) || x == y,
{
    let all = s.push(x);
    if s.contains(y) {
        let i = choose|i: int| 0 <= i < s.len() && s[i] == y;
        assert(all[i] == y);
    }
    if all.contains(y) {
        let i = choose|i: int| 0 <= i < all.len() && all[i] == y;
        if i < s.len() {
            assert(s[i] == y);
        }
    }
    assert(all[s.len() as int] == x);
}

spec fn watchdog_target(state: WatchdogState) -> Option<ThreadId> {
    match state {
        WatchdogState::Unregistered { target } => Some(target),
        WatchdogState::OldShutDown { target } => Some(target),
        WatchdogState::Registered { target } => Some(target),
        WatchdogState::NewShutDown { target } => Some(target),
        _ => None,
    }
}

/// Whether `target` is the thread that was spawned for the watchdog.
pub open spec fn is_spawned(events: Seq<WatchdogEvent>, target: ThreadId) -> bool {
    events.contains(WatchdogEvent::Handle(Ok(target)))
}

spec fn watchdog_invariant(
    state: WatchdogState,
    events: Seq<WatchdogEvent>,
    actions: Seq<WatchdogAction>,
) -> bool {
    &&& actions.len() > 0
    &&& superseded_are_shut_down(events, actions)
    &&& state is Handle ==> forall|t: ThreadId| !is_spawned(events, t)
    &&& watchdog_target(state) matches Some(target) ==> is_spawned(events, target)
    &&& !(state is Handle) && !(state is Done) && !(state is TargetShutDown) ==> forall|t: ThreadId|
        #[trigger] is_spawned(events, t) ==> watchdog_target(state) == Some(t)
    &&& state is TargetShutDown ==> forall|t: ThreadId| #[trigger]
        is_spawned(events, t) ==> actions.contains(WatchdogAction::ShutDownTarget(t))
    &&& forall|i: int|
        0 <= i < actions.len() ==> ((#[trigger] actions[i]) matches WatchdogAction::Finish(result)
            ==> {
            &&& state is Done
            &&& result matches Ok(target) ==> is_spawned(events, target)
            &&& result is Err ==> forall|t: ThreadId| #[trigger]
                is_spawned(events, t) ==> actions.contains(WatchdogAction::ShutDownTarget(t))
        })
}

proof fn lemma_watchdog_invariant(events: Seq<WatchdogEvent>)
    requires
        watchdog_run(events) is Some,
    ensures
        ({
            let (state, actions) = watchdog_run(events)->Some_0;
            watchdog_invariant(state, events, actions)
        }),
    decreases events.len(),
{
    if events.len() > 0 {
        let head = events.drop_last();
        lemma_watchdog_invariant(head);
        let (before, done) = watchdog_run(head)->Some_0;
        let (after, action) = watchdog_next(before, events.last())->Some_0;
        let actions = done.push(action);
        assert(events =~= head.push(events.last()));
        assert forall|t: ThreadId| #[trigger] is_spawned(events, t) <==> is_spawned(head, t)
            || events.last() == WatchdogEvent::Handle(Ok(t)) by {
            lemma_contains_push(head, events.last(), WatchdogEvent::Handle(Ok(t)));
        }
        assert forall|a: WatchdogAction| #[trigger] actions.contains(a) <==> done.contains(a)
            || action == a by {
            lemma_contains_push(done, action, a);
        }
        assert(superseded_are_shut_down(events, actions)) by {
            assert forall|i: int| 0 <= i < events.len() implies ((
            #[trigger] events[i]) matches WatchdogEvent::Unregistered(old) ==> actions.contains(
                WatchdogAction::ShutDown(old),
            )) by {
                if i < head.len() {
                    assert(events[i] == head[i]);
                }
            }
            assert forall|i: int| 0 <= i < events.len() implies ((
            #[trigger] events[i]) matches WatchdogEvent::Registered(Ok(old)) ==> actions.contains(
                WatchdogAction::ShutDown(old),
            )) by {
                if i < head.len() {
                    assert(events[i] == head[i]);
                }
            }
        }
        assert forall|i: int| 0 <= i < done.len() implies #[trigger] actions[i] == done[i] && !(
        actions[i] is Finish) by {
            assert(actions[i] == done[i]);
        }
    }
}

/// Every watchdog that a new one supersedes is shut down, whether it was found before or after
/// the new one was registered. A new watchdog that cannot be registered is itself shut down, and
/// the one that is reported is the one that was spawned.
pub proof fn law_owner_keeps_only_the_new_watchdog(events: Seq<WatchdogEvent>, i: int)
    requires
        watchdog_run(events) is Some,
        0 <= i < watchdog_run(events)->Some_0.1.len(),
    ensures
        superseded_are_shut_down(events, watchdog_run(events)->Some_0.1),
        watchdog_run(events)->Some_0.1[i] matches WatchdogAction::Finish(result) ==> {
            &&& result matches Ok(target) ==> is_spawned(events, target)
            &&& result is Err ==> forall|t: ThreadId| #[trigger]
                is_spawned(events, t) ==> watchdog_run(events)->Some_0.1.contains(
                    WatchdogAction::ShutDownTarget(t),
                )
        },
{
    lemma_watchdog_invariant(events);
}

/// Where a planned spawn stands after `events`, and all that it asked for.
pub open spec fn spawn_run(
    mode: SpawnMode,
    interval_s: i64,
    events: Seq<SpawnEvent>,
) -> Option<(SpawnState, Seq<SpawnAction>)>
    decreases events.len(),
{
    if events.len() == 0 {
        let first: (SpawnState, SpawnAction) = (
            SpawnState::Begin { mode, interval_s },
            SpawnAction::ReportBegin,
        );
        Some((first.0, seq![first.1]))
    } else {
        match spawn_run(mode, interval_s, events.drop_last()) {
            Some((state, actions)) => match spawn_next(state, events.last()) {
                Some((next, action)) => Some((next, actions.push(action))),
                None => None,
            },
            None => None,
        }
    }
}

proof fn lemma_spawn_step(
    mode: SpawnMode,
    interval_s: i64,
    events: Seq<SpawnEvent>,
    event: SpawnEvent,
)
    requires
        spawn_run(mode, interval_s, events) is Some,
        spawn_next(spawn_run(mode, interval_s, events)->Some_0.0, event) is Some,
    ensures
        ({
            let (state, actions) = spawn_run(mode, interval_s, events)->Some_0;
            let (next, action) = spawn_next(state, event)->Some_0;
            spawn_run(mode, interval_s, events.push(event)) == Some((next, actions.push(action)))
        }),
{
    assert(events.push(event).drop_last() =~= events);
}

/// A plain spawn makes a fresh agent, once the configuration is made. The agent that came of it is
/// the one whose status is read and that is reported and answered; a failure is reported without
/// an agent and answered with its refusal.
pub proof fn law_plain_spawn_makes_a_fresh_agent(
    mode: SpawnMode,
    interval_s: i64,
    thread_id: ThreadId,
    status: AgentStatus,
    failure: Failure,
)
    requires
        mode == SpawnMode::Spawn,
    ensures
        ({
            let events: Seq<SpawnEvent> = seq![
                SpawnEvent::Reported,
                SpawnEvent::Configured(Ok(())),
                SpawnEvent::Spawned(Ok(thread_id)),
                SpawnEvent::Status(status),
                SpawnEvent::Reported,
            ];
            let run = spawn_run(mode, interval_s, events);
            &&& run is Some
            &&& run->Some_0.1 == seq![
                SpawnAction::ReportBegin,
                SpawnAction::BuildConfig,
                SpawnAction::SpawnAgent,
                SpawnAction::ReadStatus(thread_id),
                SpawnAction::ReportEnd { new_thread_id: Some(thread_id), status },
                SpawnAction::Finish(Ok(thread_id)),
            ]
        }),
        ({
            let events: Seq<SpawnEvent> = seq![
                SpawnEvent::Reported,
                SpawnEvent::Configured(Ok(())),
                SpawnEvent::Spawned(Err(failure)),
                SpawnEvent::Reported,
            ];
            let run = spawn_run(mode, interval_s, events);
            &&& run is Some
            &&& run->Some_0.1 == seq![
                SpawnAction::ReportBegin,
                SpawnAction::BuildConfig,
                SpawnAction::SpawnAgent,
                SpawnAction::ReportEnd { new_thread_id: None, status: AgentStatus::NotFound },
                SpawnAction::Finish(
                    Err(
                        FunctionCallError::RespondToModel(
                            spawn_refusal(failure.error, failure.displayed),
                        ),
                    ),
                ),
            ]
        }),
{
    let e0 = Seq::<SpawnEvent>::empty();
    lemma_spawn_step(mode, interval_s, e0, SpawnEvent::Reported);
    let e1 = e0.push(SpawnEvent::Reported);
    lemma_spawn_step(mode, interval_s, e1, SpawnEvent::Configured(Ok(())));
    let e2 = e1.push(SpawnEvent::Configured(Ok(())));
    lemma_spawn_step(mode, interval_s, e2, SpawnEvent::Spawned(Ok(thread_id)));
    let e3 = e2.push(SpawnEvent::Spawned(Ok(thread_id)));
    lemma_spawn_step(mode, interval_s, e3, SpawnEvent::Status(status));
    let e4 = e3.push(SpawnEvent::Status(status));
    lemma_spawn_step(mode, interval_s, e4, SpawnEvent::Reported);
    let e5 = e4.push(SpawnEvent::Reported);
    assert(e5 =~= seq![
        SpawnEvent::Reported,
        SpawnEvent::Configured(Ok(())),
        SpawnEvent::Spawned(Ok(thread_id)),
        SpawnEvent::Status(status),
        SpawnEvent::Reported,
    ]);
    assert(spawn_run(mode, interval_s, e5)->Some_0.1 =~= seq![
        SpawnAction::ReportBegin,
        SpawnAction::BuildConfig,
        SpawnAction::SpawnAgent,
        SpawnAction::ReadStatus(thread_id),
        SpawnAction::ReportEnd { new_thread_id: Some(thread_id), status },
        SpawnAction::Finish(Ok(thread_id)),
    ]);
    lemma_spawn_step(mode, interval_s, e2, SpawnEvent::Spawned(Err(failure)));
    let e6 = e2.push(SpawnEvent::Spawned(Err(failure)));
    lemma_spawn_step(mode, interval_s, e6, SpawnEvent::Reported);
    let e7 = e6.push(SpawnEvent::Reported);
    assert(e7 =~= seq![
        SpawnEvent::Reported,
        SpawnEvent::Configured(Ok(())),
        SpawnEvent::Spawned(Err(failure)),
        SpawnEvent::Reported,
    ]);
    assert(spawn_run(mode, interval_s, e7)->Some_0.1 =~= seq![
        SpawnAction::ReportBegin,
        SpawnAction::BuildConfig,
        SpawnAction::SpawnAgent,
        SpawnAction::ReportEnd { new_thread_id: None, status: AgentStatus::NotFound },
        SpawnAction::Finish(
            Err(FunctionCallError::RespondToModel(spawn_refusal(failure.error, failure.displayed))),
        ),
    ]);
}

/// A fork makes an agent with the history of its parent, once the configuration is made. The agent
/// that came of it is the one whose status is read and that is reported and answered; a failure is
/// reported without an agent and answered with its refusal.
pub proof fn law_fork_makes_an_agent_with_the_history_of_its_parent(
    mode: SpawnMode,
    interval_s: i64,
    thread_id: ThreadId,
    status: AgentStatus,
    failure: Failure,
)
    requires
        mode == SpawnMode::Fork,
    ensures
        ({
            let events: Seq<SpawnEvent> = seq![
                SpawnEvent::Reported,
                SpawnEvent::Configured(Ok(())),
                SpawnEvent::Spawned(Ok(thread_id)),
                SpawnEvent::Status(status),
                SpawnEvent::Reported,
            ];
            let run = spawn_run(mode, interval_s, events);
            &&& run is Some
            &&& run->Some_0.1 == seq![
                SpawnAction::ReportBegin,
                SpawnAction::BuildConfig,
                SpawnAction::ForkAgent,
                SpawnAction::ReadStatus(thread_id),
                SpawnAction::ReportEnd { new_thread_id: Some(thread_id), status },
                SpawnAction::Finish(Ok(thread_id)),
            ]
        }),
        ({
            let events: Seq<SpawnEvent> = seq![
                SpawnEvent::Reported,
                SpawnEvent::Configured(Ok(())),
                SpawnEvent::Spawned(Err(failure)),
                SpawnEvent::Reported,
            ];
            let run = spawn_run(mode, interval_s, events);
            &&& run is Some
            &&& run->Some_0.1 == seq![
                SpawnAction::ReportBegin,
                SpawnAction::BuildConfig,
                SpawnAction::ForkAgent,
                SpawnAction::ReportEnd { new_thread_id: None, status: AgentStatus::NotFound },
                SpawnAction::Finish(
                    Err(
                        FunctionCallError::RespondToModel(
                            spawn_refusal(failure.error, failure.displayed),
                        ),
                    ),
                ),
            ]
        }),
{
    let e0 = Seq::<SpawnEvent>::empty();
    lemma_spawn_step(mode, interval_s, e0, SpawnEvent::Reported);
    let e1 = e0.push(SpawnEvent::Reported);
    lemma_spawn_step(mode, interval_s, e1, SpawnEvent::Configured(Ok(())));
    let e2 = e1.push(SpawnEvent::Configured(Ok(())));
    lemma_spawn_step(mode, interval_s, e2, SpawnEvent::Spawned(Ok(thread_id)));
    let e3 = e2.push(SpawnEvent::Spawned(Ok(thread_id)));
    lemma_spawn_step(mode, interval_s, e3, SpawnEvent::Status(status));
    let e4 = e3.push(SpawnEvent::Status(status));
    lemma_spawn_step(mode, interval_s, e4, SpawnEvent::Reported);
    let e5 = e4.push(SpawnEvent::Reported);
    assert(e5 =~= seq![
        SpawnEvent::Reported,
        SpawnEvent::Configured(Ok(())),
        SpawnEvent::Spawned(Ok(thread_id)),
        SpawnEvent::Status(status),
        SpawnEvent::Reported,
    ]);
    assert(spawn_run(mode, interval_s, e5)->Some_0.1 =~= seq![
        SpawnAction::ReportBegin,
        SpawnAction::BuildConfig,
        SpawnAction::ForkAgent,
        SpawnAction::ReadStatus(thread_id),
        SpawnAction::ReportEnd { new_thread_id: Some(thread_id), status },
        SpawnAction::Finish(Ok(thread_id)),
    ]);
    lemma_spawn_step(mode, interval_s, e2, SpawnEvent::Spawned(Err(failure)));
    let e6 = e2.push(SpawnEvent::Spawned(Err(failure)));
    lemma_spawn_step(mode, interval_s, e6, SpawnEvent::Reported);
    let e7 = e6.push(SpawnEvent::Reported);
    assert(e7 =~= seq![
        SpawnEvent::Reported,
        SpawnEvent::Configured(Ok(())),
        SpawnEvent::Spawned(Err(failure)),
        SpawnEvent::Reported,
    ]);
    assert(spawn_run(mode, interval_s, e7)->Some_0.1 =~= seq![
        SpawnAction::ReportBegin,
        SpawnAction::BuildConfig,
        SpawnAction::ForkAgent,
        SpawnAction::ReportEnd { new_thread_id: None, status: AgentStatus::NotFound },
        SpawnAction::Finish(
            Err(FunctionCallError::RespondToModel(spawn_refusal(failure.error, failure.displayed))),
        ),
    ]);
}

/// A watchdog is spawned with its interval, once the configuration is made. The agent that came of
/// it is the one whose status is read and that is reported and answered; a failure is reported
/// without an agent and answered with its refusal.
pub proof fn law_watchdog_is_spawned_with_its_interval(
    mode: SpawnMode,
    interval_s: i64,
    thread_id: ThreadId,
    status: AgentStatus,
    failure: Failure,
)
    requires
        mode == SpawnMode::Watchdog,
    ensures
        ({
            let events: Seq<SpawnEvent> = seq![
                SpawnEvent::Reported,
                SpawnEvent::Configured(Ok(())),
                SpawnEvent::Spawned(Ok(thread_id)),
                SpawnEvent::Status(status),
                SpawnEvent::Reported,
            ];
            let run = spawn_run(mode, interval_s, events);
            &&& run is Some
            &&& run->Some_0.1 == seq![
                SpawnAction::ReportBegin,
                SpawnAction::BuildConfig,
                SpawnAction::SpawnWatchdog { interval_s },
                SpawnAction::ReadStatus(thread_id),
                SpawnAction::ReportEnd { new_thread_id: Some(thread_id), status },
                SpawnAction::Finish(Ok(thread_id)),
            ]
        }),
        ({
            let events: Seq<SpawnEvent> = seq![
                SpawnEvent::Reported,
                SpawnEvent::Configured(Ok(())),
                SpawnEvent::Spawned(Err(failure)),
                SpawnEvent::Reported,
            ];
            let run = spawn_run(mode, interval_s, events);
            &&& run is Some
            &&& run->Some_0.1 == seq![
                SpawnAction::ReportBegin,
                SpawnAction::BuildConfig,
                SpawnAction::SpawnWatchdog { interval_s },
                SpawnAction::ReportEnd { new_thread_id: None, status: AgentStatus::NotFound },
                SpawnAction::Finish(
                    Err(
                        FunctionCallError::RespondToModel(
                            spawn_refusal(failure.error, failure.displayed),
                        ),
                    ),
                ),
            ]
        }),
{
    let e0 = Seq::<SpawnEvent>::empty();
    lemma_spawn_step(mode, interval_s, e0, SpawnEvent::Reported);
    let e1 = e0.push(SpawnEvent::Reported);
    lemma_spawn_step(mode, interval_s, e1, SpawnEvent::Configured(Ok(())));
    let e2 = e1.push(SpawnEvent::Configured(Ok(())));
    lemma_spawn_step(mode, interval_s, e2, SpawnEvent::Spawned(Ok(thread_id)));
    let e3 = e2.push(SpawnEvent::Spawned(Ok(thread_id)));
    lemma_spawn_step(mode, interval_s, e3, SpawnEvent::Status(status));
    let e4 = e3.push(SpawnEvent::Status(status));
    lemma_spawn_step(mode, interval_s, e4, SpawnEvent::Reported);
    let e5 = e4.push(SpawnEvent::Reported);
    assert(e5 =~= seq![
        SpawnEvent::Reported,
        SpawnEvent::Configured(Ok(())),
        SpawnEvent::Spawned(Ok(thread_id)),
        SpawnEvent::Status(status),
        SpawnEvent::Reported,
    ]);
    assert(spawn_run(mode, interval_s, e5)->Some_0.1 =~= seq![
        SpawnAction::ReportBegin,
        SpawnAction::BuildConfig,
        SpawnAction::SpawnWatchdog { interval_s },
        SpawnAction::ReadStatus(thread_id),
        SpawnAction::ReportEnd { new_thread_id: Some(thread_id), status },
        SpawnAction::Finish(Ok(thread_id)),
    ]);
    lemma_spawn_step(mode, interval_s, e2, SpawnEvent::Spawned(Err(failure)));
    let e6 = e2.push(SpawnEvent::Spawned(Err(failure)));
    lemma_spawn_step(mode, interval_s, e6, SpawnEvent::Reported);
    let e7 = e6.push(SpawnEvent::Reported);
    assert(e7 =~= seq![
        SpawnEvent::Reported,
        SpawnEvent::Configured(Ok(())),
        SpawnEvent::Spawned(Err(failure)),
        SpawnEvent::Reported,
    ]);
    assert(spawn_run(mode, interval_s, e7)->Some_0.1 =~= seq![
        SpawnAction::ReportBegin,
        SpawnAction::BuildConfig,
        SpawnAction::SpawnWatchdog { interval_s },
        SpawnAction::ReportEnd { new_thread_id: None, status: AgentStatus::NotFound },
        SpawnAction::Finish(
            Err(FunctionCallError::RespondToModel(spawn_refusal(failure.error, failure.displayed))),
        ),
    ]);
}

/// A spawn for which no configuration can be made ends with that refusal, and nothing is spawned.
pub proof fn law_spawn_without_configuration_is_refused(
    mode: SpawnMode,
    interval_s: i64,
    error: FunctionCallError,
)
    ensures
        ({
            let events: Seq<SpawnEvent> = seq![
                SpawnEvent::Reported,
                SpawnEvent::Configured(Err(error)),
            ];
            let run = spawn_run(mode, interval_s, events);
            &&& run is Some
            &&& run->Some_0.1 == seq![
                SpawnAction::ReportBegin,
                SpawnAction::BuildConfig,
                SpawnAction::Finish(Err(error)),
            ]
        }),
{
    let e0 = Seq::<SpawnEvent>::empty();
    lemma_spawn_step(mode, interval_s, e0, SpawnEvent::Reported);
    let e1 = e0.push(SpawnEvent::Reported);
    lemma_spawn_step(mode, interval_s, e1, SpawnEvent::Configured(Err(error)));
    let e2 = e1.push(SpawnEvent::Configured(Err(error)));
    assert(e2 =~= seq![SpawnEvent::Reported, SpawnEvent::Configured(Err(error))]);
    assert(spawn_run(mode, interval_s, e2)->Some_0.1 =~= seq![
        SpawnAction::ReportBegin,
        SpawnAction::BuildConfig,
        SpawnAction::Finish(Err(error)),
    ]);
}

proof fn lemma_spawn_mode(mode: SpawnMode, interval_s: i64, events: Seq<SpawnEvent>)
    requires
        spawn_run(mode, interval_s, events) is Some,
    ensures
        ({
            let (state, actions) = spawn_run(mode, interval_s, events)->Some_0;
            &&& state matches SpawnState::Begin { mode: m, interval_s: s } ==> m == mode && s
                == interval_s
            &&& state matches SpawnState::Config { mode: m, interval_s: s } ==> m == mode && s
                == interval_s
            &&& forall|i: int|
                0 <= i < actions.len() ==> {
                    &&& (#[trigger] actions[i]) is ForkAgent ==> mode is Fork
                    &&& actions[i] is SpawnAgent ==> mode is Spawn
                    &&& actions[i] matches SpawnAction::SpawnWatchdog { interval_s: s } ==> mode
                        is Watchdog && s == interval_s
                }
        }),
    decreases events.len(),
{
    if events.len() > 0 {
        let head = events.drop_last();
        lemma_spawn_mode(mode, interval_s, head);
        let (before, done) = spawn_run(mode, interval_s, head)->Some_0;
        let (after, action) = spawn_next(before, events.last())->Some_0;
        let actions = done.push(action);
        assert forall|i: int| 0 <= i < actions.len() implies {
            &&& (#[trigger] actions[i]) is ForkAgent ==> mode is Fork
            &&& actions[i] is SpawnAgent ==> mode is Spawn
            &&& actions[i] matches SpawnAction::SpawnWatchdog { interval_s: s } ==> mode
                is Watchdog && s == interval_s
        } by {
            if i < done.len() {
                assert(actions[i] == done[i]);
            }
        }
    }
}

/// Whatever comes back: an agent is forked only where a fork was planned, spawned afresh only
/// where that was planned, and made a watchdog only where one was planned, with its interval.
pub proof fn law_spawn_keeps_to_its_plan(
    mode: SpawnMode,
    interval_s: i64,
    events: Seq<SpawnEvent>,
    i: int,
)
    requires
        spawn_run(mode, interval_s, events) is Some,
        0 <= i < spawn_run(mode, interval_s, events)->Some_0.1.len(),
    ensures
        ({
            let action = spawn_run(mode, interval_s, events)->Some_0.1[i];
            &&& action is ForkAgent ==> mode is Fork
            &&& action is SpawnAgent ==> mode is Spawn
            &&& action matches SpawnAction::SpawnWatchdog { interval_s: s } ==> mode is Watchdog
                && s == interval_s
        }),
{
    lemma_spawn_mode(mode, interval_s, events);
}

/// A spawn is refused exactly for an interval of a watchdog that is not positive, for a message
/// that says nothing, for a watchdog of a sub-agent, and for too great a depth. An interval that
/// the call names counts before the usual one.
pub proof fn law_spawn_objections_are_the_stated_ones<R>(
    args: SpawnAgentArgs<R>,
    source: SessionSource,
    limits: SpawnLimits<R>,
)
    ensures
        ({
            let watchdog = args.spawn_mode is Watchdog;
            let interval = match args.interval_s {
                Some(interval) => interval,
                None => limits.default_interval_s,
            };
            let objection = spawn_objection(args, source, limits);
            &&& objection is None <==> !(watchdog && interval <= 0) && !blank(args.message@) && !(
            watchdog && source is SubAgent) && !limits.exceeds_depth
            &&& watchdog && interval <= 0 ==> objection == Some(Refusal::IntervalNotPositive)
            &&& !(watchdog && interval <= 0) && blank(args.message@) ==> objection == Some(
                Refusal::EmptyMessage,
            )
            &&& watchdog && interval > 0 && !blank(args.message@) && source is SubAgent
                ==> objection == Some(Refusal::WatchdogOfSubAgent)
            &&& !(watchdog && interval <= 0) && !blank(args.message@) && !(watchdog && source
                is SubAgent) && limits.exceeds_depth ==> objection == Some(
                Refusal::DepthLimit { max_depth: limits.max_depth },
            )
            &&& interval_of(args.interval_s, limits.default_interval_s) == interval
        }),
{
}

proof fn lemma_watchdog_step(
    events: Seq<WatchdogEvent>,
    event: WatchdogEvent,
)
    requires
        watchdog_run(events) is Some,
        watchdog_next(watchdog_run(events)->Some_0.0, event) is Some,
    ensures
        ({
            let (state, actions) = watchdog_run(events)->Some_0;
            let (next, action) = watchdog_next(state, event)->Some_0;
            watchdog_run(events.push(event)) == Some((next, actions.push(action)))
        }),
{
    assert(events.push(event).drop_last() =~= events);
}

/// A watchdog is spawned, the watchdogs that its owner had are unregistered and shut down, and the
/// new one is registered; one that cannot be registered is shut down itself.
pub proof fn law_new_watchdog_takes_the_place_of_the_old(
    target: ThreadId,
    old: Vec<ThreadId>,
    replaced: Vec<ThreadId>,
    error: Failure,
)
    ensures
        ({
            let events: Seq<WatchdogEvent> = seq![
                WatchdogEvent::Handle(Ok(target)),
                WatchdogEvent::Unregistered(old),
                WatchdogEvent::ShutDown,
                WatchdogEvent::Registered(Ok(replaced)),
                WatchdogEvent::ShutDown,
            ];
            let run = watchdog_run(events);
            &&& run is Some
            &&& run->Some_0.1 == seq![
                WatchdogAction::SpawnHandle,
                WatchdogAction::UnregisterOwner,
                WatchdogAction::ShutDown(old),
                WatchdogAction::Register { target },
                WatchdogAction::ShutDown(replaced),
                WatchdogAction::Finish(Ok(target)),
            ]
        }),
        ({
            let events: Seq<WatchdogEvent> = seq![
                WatchdogEvent::Handle(Ok(target)),
                WatchdogEvent::Unregistered(old),
                WatchdogEvent::ShutDown,
                WatchdogEvent::Registered(Err(error)),
                WatchdogEvent::ShutDown,
            ];
            let run = watchdog_run(events);
            &&& run is Some
            &&& run->Some_0.1 == seq![
                WatchdogAction::SpawnHandle,
                WatchdogAction::UnregisterOwner,
                WatchdogAction::ShutDown(old),
                WatchdogAction::Register { target },
                WatchdogAction::ShutDownTarget(target),
                WatchdogAction::Finish(Err(error)),
            ]
        }),
        ({
            let events: Seq<WatchdogEvent> = seq![WatchdogEvent::Handle(Err(error))];
            let run = watchdog_run(events);
            &&& run is Some
            &&& run->Some_0.1 == seq![
                WatchdogAction::SpawnHandle,
                WatchdogAction::Finish(Err(error)),
            ]
        }),
{
    let e0 = Seq::<WatchdogEvent>::empty();
    lemma_watchdog_step(e0, WatchdogEvent::Handle(Ok(target)));
    let e1 = e0.push(WatchdogEvent::Handle(Ok(target)));
    lemma_watchdog_step(e1, WatchdogEvent::Unregistered(old));
    let e2 = e1.push(WatchdogEvent::Unregistered(old));
    lemma_watchdog_step(e2, WatchdogEvent::ShutDown);
    let e3 = e2.push(WatchdogEvent::ShutDown);
    lemma_watchdog_step(e3, WatchdogEvent::Registered(Ok(replaced)));
    let e4 = e3.push(WatchdogEvent::Registered(Ok(replaced)));
    lemma_watchdog_step(e4, WatchdogEvent::ShutDown);
    let e5 = e4.push(WatchdogEvent::ShutDown);
    assert(e5 =~= seq![
        WatchdogEvent::Handle(Ok(target)),
        WatchdogEvent::Unregistered(old),
        WatchdogEvent::ShutDown,
        WatchdogEvent::Registered(Ok(replaced)),
        WatchdogEvent::ShutDown,
    ]);
    assert(watchdog_run(e5)->Some_0.1 =~= seq![
        WatchdogAction::SpawnHandle,
        WatchdogAction::UnregisterOwner,
        WatchdogAction::ShutDown(old),
        WatchdogAction::Register { target },
        WatchdogAction::ShutDown(replaced),
        WatchdogAction::Finish(Ok(target)),
    ]);
    lemma_watchdog_step(e3, WatchdogEvent::Registered(Err(error)));
    let e6 = e3.push(WatchdogEvent::Registered(Err(error)));
    lemma_watchdog_step(e6, WatchdogEvent::ShutDown);
    let e7 = e6.push(WatchdogEvent::ShutDown);
    assert(e7 =~= seq![
        WatchdogEvent::Handle(Ok(target)),
        WatchdogEvent::Unregistered(old),
        WatchdogEvent::ShutDown,
        WatchdogEvent::Registered(Err(error)),
        WatchdogEvent::ShutDown,
    ]);
    assert(watchdog_run(e7)->Some_0.1 =~= seq![
        WatchdogAction::SpawnHandle,
        WatchdogAction::UnregisterOwner,
        WatchdogAction::ShutDown(old),
        WatchdogAction::Register { target },
        WatchdogAction::ShutDownTarget(target),
        WatchdogAction::Finish(Err(error)),
    ]);
    lemma_watchdog_step(e0, WatchdogEvent::Handle(Err(error)));
    let e8 = e0.push(WatchdogEvent::Handle(Err(error)));
    assert(watchdog_run(e8)->Some_0.1 =~= seq![
        WatchdogAction::SpawnHandle,
        WatchdogAction::Finish(Err(error)),
    ]);
}

/// The spawn of a watchdog takes an answer exactly where it waits for one of that kind, and none
/// when it is done. It is done exactly when its last word is said.
pub proof fn law_watchdog_takes_only_awaited_answers(
    state: WatchdogState,
    event: WatchdogEvent,
)
    ensures
        watchdog_next(state, event) is Some <==> {
            ||| state is Handle && event is Handle
            ||| state is Unregistered && event is Unregistered
            ||| state is OldShutDown && event is ShutDown
            ||| state is Registered && event is Registered
            ||| state is NewShutDown && event is ShutDown
            ||| state is TargetShutDown && event is ShutDown
        },
        watchdog_next(state, event) matches Some((after, action)) ==> (after is Done
            <==> action is Finish),
{
}

/// A spawn takes an answer exactly where it waits for one of that kind, and none when it is done.
/// It is done exactly when its last word is said.
pub proof fn law_spawn_takes_only_awaited_answers(
    state: SpawnState,
    event: SpawnEvent,
)
    ensures
        spawn_next(state, event) is Some <==> {
            ||| state is Begin && event is Reported
            ||| state is Config && event is Configured
            ||| state is Spawned && event is Spawned
            ||| state is Status && event is Status
            ||| state is End && event is Reported
        },
        spawn_next(state, event) matches Some((after, action)) ==> (after is Done
            <==> action is Finish),
{
}

/// The interval of a watchdog is the one that is asked for, and the usual one where none is.
pub proof fn law_interval_is_the_one_asked_for(interval_s: i64, default_interval_s: i64)
    ensures
        interval_of(Some(interval_s), default_interval_s) == interval_s,
        interval_of(None, default_interval_s) == default_interval_s,
{
}

/// The spawn of a watchdog begins as its run does.
pub proof fn law_watchdog_begins_as_its_run_does(
    res: (WatchdogState, WatchdogAction),
)
    requires
        call_ensures(spawn_watchdog, (), res),
    ensures
        watchdog_run(Seq::<WatchdogEvent>::empty()) == Some((res.0, seq![res.1])),
{
}

/// The spawn of a watchdog that takes a step goes on as its run does, with all that it asked for
/// before; an answer that it does not wait for is handed back, and nothing has changed.
pub proof fn law_watchdog_goes_on_as_its_run_does(
    events: Seq<WatchdogEvent>,
    state: WatchdogState,
    actions: Seq<WatchdogAction>,
    event: WatchdogEvent,
    res: Result<(WatchdogState, WatchdogAction), (WatchdogState, WatchdogEvent)>,
)
    requires
        watchdog_run(events) == Some((state, actions)),
        call_ensures(step_watchdog, (state, event), res),
    ensures
        match res {
            Ok((next, action)) => watchdog_run(events.push(event)) == Some(
                (next, actions.push(action)),
            ),
            Err(back) => back == (state, event) && watchdog_run(events.push(event)) is None,
        },
{
    assert(events.push(event).drop_last() =~= events);
}

/// A planned spawn begins as its run does, with the mode of its plan and with the interval of its
/// plan, or the usual one where it has none.
pub proof fn law_spawn_begins_as_its_run_does<R>(
    plan: SpawnPlan<R>,
    default_interval_s: i64,
    res: (SpawnState, SpawnAction),
)
    requires
        call_ensures(start_spawn::<R>, (&plan, default_interval_s), res),
    ensures
        ({
            let interval_s = match plan.interval_s {
                Some(interval_s) => interval_s,
                None => default_interval_s,
            };
            spawn_run(plan.mode, interval_s, Seq::empty()) == Some((res.0, seq![res.1]))
        }),
{
}

/// A spawn that takes a step goes on as its run does, with all that it asked for before; an answer
/// that it does not wait for is handed back, and nothing has changed.
pub proof fn law_spawn_goes_on_as_its_run_does(
    mode: SpawnMode,
    interval_s: i64,
    events: Seq<SpawnEvent>,
    state: SpawnState,
    actions: Seq<SpawnAction>,
    event: SpawnEvent,
    res: Result<(SpawnState, SpawnAction), (SpawnState, SpawnEvent)>,
)
    requires
        spawn_run(mode, interval_s, events) == Some((state, actions)),
        call_ensures(step_spawn, (state, event), res),
    ensures
        match res {
            Ok((next, action)) => spawn_run(mode, interval_s, events.push(event)) == Some(
                (next, actions.push(action)),
            ),
            Err(back) => back == (state, event) && spawn_run(mode, interval_s, events.push(event))
                is None,
        },
{
    assert(events.push(event).drop_last() =~= events);
}

/// A spawn that is not objected to is planned as it was asked for: with the mode, the role and the
/// message of the call, for a child of the caller one level down, and with an interval where it is
/// a watchdog. Else the call is refused with the objection.
pub proof fn law_spawn_is_planned_as_asked<R>(
    sender: ThreadId,
    source: SessionSource,
    args: SpawnAgentArgs<R>,
    limits: SpawnLimits<R>,
    res: Result<SpawnPlan<R>, FunctionCallError>,
)
    requires
        call_ensures(handle::<R>, (sender, &source, args, limits), res),
    ensures
        match spawn_objection(args, source, limits) {
            Some(refusal) => res == Err::<SpawnPlan<R>, FunctionCallError>(
                FunctionCallError::RespondToModel(refusal),
            ),
            None => res is Ok && {
                let plan = res->Ok_0;
                &&& plan.mode == args.spawn_mode
                &&& args.agent_type matches Some(role) ==> plan.role == role
                &&& args.agent_type is None ==> plan.role == limits.default_role
                &&& plan.prompt == args.message
                &&& plan.interval_s is Some <==> args.spawn_mode is Watchdog
                &&& plan.interval_s matches Some(interval_s) ==> interval_s > 0 && interval_s
                    == match args.interval_s {
                    Some(asked) => asked,
                    None => limits.default_interval_s,
                }
                &&& plan.child_depth == limits.child_depth
                &&& plan.source == SessionSource::SubAgent(
                    SubAgentSource::ThreadSpawn {
                        parent_thread_id: sender,
                        depth: limits.child_depth,
                    },
                )
            },
        },
{
}

} // verus!
