//! Waiting for agents to come to an end.
use crate::errors::CodexErr;
use crate::ids::ThreadId;
use crate::ids::uuid_read;
use crate::protocol::AgentStatus;
use crate::tools::collab::handler::agent_id;
use crate::tools::collab::handler::agent_refusal;
use crate::tools::collab::handler::collab_agent_error;
use crate::tools::collab::handler::is_agent_id;
use crate::tools::refusal::FunctionCallError;
use crate::tools::refusal::Refusal;
use vstd::prelude::*;

verus! {

pub const DEFAULT_WAIT_TIMEOUT_MS: i64 = 30_000;

pub const MAX_WAIT_TIMEOUT_MS: i64 = 300_000;

/// The arguments of `wait`.
#[derive(Clone, Debug, PartialEq, Eq)]
pub struct WaitArgs {
    pub ids: Vec<String>,
    pub timeout_ms: Option<i64>,
}

/// A wait that nothing speaks against.
#[derive(Clone, Debug, PartialEq, Eq)]
pub struct WaitPlan {
    pub receivers: Vec<ThreadId>,
    pub timeout_ms: i64,
}

/// The time that is asked for.
pub open spec fn asked_timeout(timeout_ms: Option<i64>) -> i64 {
    match timeout_ms {
        Some(ms) => ms,
        None => DEFAULT_WAIT_TIMEOUT_MS,
    }
}

/// Whether every one of `ids` is an agent id.
pub open spec fn all_agent_ids(ids: Seq<String>) -> bool {
    forall|i: int| 0 <= i < ids.len() ==> uuid_read(#[trigger] ids[i]@) is Ok
}

/// `error` is the refusal of the first of `ids` that is not an agent id.
pub open spec fn is_first_bad_id(ids: Seq<String>, error: FunctionCallError) -> bool {
    exists|k: int|
        0 <= k < ids.len() && uuid_read(#[trigger] ids[k]@) is Err && is_agent_id(
            ids[k]@,
            Err(error),
        ) && all_agent_ids(ids.take(k))
}

/// Reads agent ids, up to the first that is not one.
fn read_ids(ids: &Vec<String>) -> (res: Result<Vec<ThreadId>, FunctionCallError>)
    ensures
        match res {
            Ok(threads) => {
                &&& all_agent_ids(ids@)
                &&& threads@.len() == ids@.len()
                &&& forall|i: int|
                    0 <= i < ids@.len() ==> is_agent_id(ids@[i]@, Ok(#[trigger] threads@[i]))
            },
            Err(error) => is_first_bad_id(ids@, error),
        },
{
    let mut threads: Vec<ThreadId> = Vec::new();
    let mut i: usize = 0;
    while i < ids.len()
        invariant
            i <= ids.len(),
            threads@.len() == i,
            forall|k: int| 0 <= k < i ==> uuid_read(#[trigger] ids@[k]@) is Ok,
            forall|k: int| 0 <= k < i ==> is_agent_id(ids@[k]@, Ok(#[trigger] threads@[k])),
        decreases ids.len() - i,
    {
        match agent_id(ids[i].as_str()) {
            Ok(thread_id) => {
                threads.push(thread_id);
            },
            Err(error) => {
                assert(uuid_read(ids@[i as int]@) is Err);
                assert(all_agent_ids(ids@.take(i as int)));
                return Err(error);
            },
        }
        i = i + 1;
    }
    Ok(threads)
}

/// Decides whether and how long to wait: there has to be an agent, all ids have to be ids, and
/// the time has to be positive; it is cut at the longest wait.
pub fn handle(args: WaitArgs) -> (res: Result<WaitPlan, FunctionCallError>)
    ensures
        match res {
            Ok(plan) => {
                &&& args.ids@.len() > 0
                &&& all_agent_ids(args.ids@)
                &&& plan.receivers@.len() == args.ids@.len()
                &&& forall|i: int|
                    0 <= i < args.ids@.len() ==> is_agent_id(
                        args.ids@[i]@,
                        Ok(#[trigger] plan.receivers@[i]),
                    )
                &&& asked_timeout(args.timeout_ms) > 0
                &&& plan.timeout_ms == if asked_timeout(args.timeout_ms) < MAX_WAIT_TIMEOUT_MS {
                    asked_timeout(args.timeout_ms)
                } else {
                    MAX_WAIT_TIMEOUT_MS
                }
            },
            Err(error) => if args.ids@.len() == 0 {
                error == FunctionCallError::RespondToModel(Refusal::NoIds)
            } else if !all_agent_ids(args.ids@) {
                is_first_bad_id(args.ids@, error)
            } else {
                asked_timeout(args.timeout_ms) <= 0 && error == FunctionCallError::RespondToModel(
                    Refusal::TimeoutNotPositive,
                )
            },
        },
{
    if args.ids.len() == 0 {
        return Err(FunctionCallError::RespondToModel(Refusal::NoIds));
    }
    let receivers: Vec<ThreadId> = match read_ids(&args.ids) {
        Ok(receivers) => receivers,
        Err(error) => {
            return Err(error);
        },
    };
    let timeout_ms: i64 = match args.timeout_ms {
        Some(ms) => ms,
        None => DEFAULT_WAIT_TIMEOUT_MS,
    };
    if timeout_ms <= 0 {
        return Err(FunctionCallError::RespondToModel(Refusal::TimeoutNotPositive));
    }
    let timeout_ms: i64 = if timeout_ms < MAX_WAIT_TIMEOUT_MS {
        timeout_ms
    } else {
        MAX_WAIT_TIMEOUT_MS
    };
    Ok(WaitPlan { receivers, timeout_ms })
}

/// What a wait is about.
#[derive(Clone, Copy, Debug, PartialEq, Eq, Structural)]
pub enum WaitPhase {
    /// Asking every agent for its status.
    Subscribing,
    /// Waiting for the first agent to come to an end, or for the time to run out.
    Awaiting,
    /// Collecting the agents that have come to an end meanwhile.
    Draining,
    /// Waiting for the end to be reported.
    Ending,
    Done,
}

/// Where a wait stands.
#[derive(Debug, PartialEq, Eq)]
pub struct WaitState {
    pub receivers: Vec<ThreadId>,
    /// How many of the receivers have been asked.
    pub next: usize,
    /// The agents that have come to an end, in the order in which that was noticed.
    pub statuses: Vec<(ThreadId, AgentStatus)>,
    pub failure: Option<FunctionCallError>,
    pub phase: WaitPhase,
}

/// Where a wait stands, as a mathematical value.
#[verifier::ext_equal]
pub struct WaitView {
    pub receivers: Seq<ThreadId>,
    pub next: int,
    pub statuses: Seq<(ThreadId, AgentStatus)>,
    pub failure: Option<FunctionCallError>,
    pub phase: WaitPhase,
}

impl View for WaitState {
    type V = WaitView;

    open spec fn view(&self) -> WaitView {
        WaitView {
            receivers: self.receivers@,
            next: self.next as int,
            statuses: self.statuses@,
            failure: self.failure,
            phase: self.phase,
        }
    }
}

/// What has come back.
#[derive(Debug, PartialEq, Eq)]
pub enum WaitEvent {
    /// The status of the agent that was asked, and whether it is one that an agent ends with.
    Subscribed { status: AgentStatus, is_final: bool },
    /// The agent that was asked does not exist.
    NotFound,
    /// The agent that was asked cannot be reached: the error, how it is displayed, and what the
    /// status of the agent is said to be.
    Unreachable { error: CodexErr, displayed: String, status: AgentStatus },
    /// An agent has come to an end.
    Final { thread_id: ThreadId, status: AgentStatus },
    /// An agent is gone without having come to an end.
    Lost,
    /// No agent is left to wait for, or the time is up, or none else is ready.
    Nothing,
    Reported,
}

/// What to do next.
#[derive(Clone, Copy, Debug, PartialEq, Eq, Structural)]
pub enum WaitAction {
    Subscribe(ThreadId),
    AwaitAny,
    DrainReady,
    /// Report the end, with the statuses collected so far.
    ReportEnd,
    /// The call is over; see `wait_result`.
    Finish,
}

/// Asks the next agent; after the last one, waits only where none has come to an end.
pub open spec fn wait_advanced(state: WaitView) -> (WaitView, WaitAction) {
    if state.next < state.receivers.len() {
        (state, WaitAction::Subscribe(state.receivers[state.next]))
    } else if state.statuses.len() > 0 {
        (WaitView { phase: WaitPhase::Ending, ..state }, WaitAction::ReportEnd)
    } else {
        (WaitView { phase: WaitPhase::Awaiting, ..state }, WaitAction::AwaitAny)
    }
}

/// The next step, nothing where `event` does not answer what `state` waits for.
pub open spec fn wait_next(state: WaitView, event: WaitEvent) -> Option<(WaitView, WaitAction)> {
    match (state.phase, event) {
        (WaitPhase::Subscribing, WaitEvent::Subscribed { status, is_final }) => if state.next
            < state.receivers.len() {
            Some(
                wait_advanced(
                    WaitView {
                        next: state.next + 1,
                        statuses: if is_final {
                            state.statuses.push((state.receivers[state.next], status))
                        } else {
                            state.statuses
                        },
                        ..state
                    },
                ),
            )
        } else {
            None
        },
        (WaitPhase::Subscribing, WaitEvent::NotFound) => if state.next < state.receivers.len() {
            Some(
                wait_advanced(
                    WaitView {
                        next: state.next + 1,
                        statuses: state.statuses.push(
                            (state.receivers[state.next], AgentStatus::NotFound),
                        ),
                        ..state
                    },
                ),
            )
        } else {
            None
        },
        (
            WaitPhase::Subscribing,
            WaitEvent::Unreachable { error, displayed, status },
        ) => if state.next < state.receivers.len() {
            let id = state.receivers[state.next];
            Some(
                (
                    WaitView {
                        statuses: seq![(id, status)],
                        failure: Some(
                            FunctionCallError::RespondToModel(agent_refusal(id, error, displayed)),
                        ),
                        phase: WaitPhase::Ending,
                        ..state
                    },
                    WaitAction::ReportEnd,
                ),
            )
        } else {
            None
        },
        (WaitPhase::Awaiting, WaitEvent::Final { thread_id, status }) => Some(
            (
                WaitView {
                    statuses: state.statuses.push((thread_id, status)),
                    phase: WaitPhase::Draining,
                    ..state
                },
                WaitAction::DrainReady,
            ),
        ),
        (WaitPhase::Awaiting, WaitEvent::Lost) => Some((state, WaitAction::AwaitAny)),
        (WaitPhase::Awaiting, WaitEvent::Nothing) => Some(
            (WaitView { phase: WaitPhase::Ending, ..state }, WaitAction::ReportEnd),
        ),
        (WaitPhase::Draining, WaitEvent::Final { thread_id, status }) => Some(
            (
                WaitView { statuses: state.statuses.push((thread_id, status)), ..state },
                WaitAction::DrainReady,
            ),
        ),
        (WaitPhase::Draining, WaitEvent::Lost) => Some((state, WaitAction::DrainReady)),
        (WaitPhase::Draining, WaitEvent::Nothing) => Some(
            (WaitView { phase: WaitPhase::Ending, ..state }, WaitAction::ReportEnd),
        ),
        (WaitPhase::Ending, WaitEvent::Reported) => Some(
            (WaitView { phase: WaitPhase::Done, ..state }, WaitAction::Finish),
        ),
        _ => None,
    }
}

/// The wait before any agent was asked.
pub open spec fn wait_first(receivers: Seq<ThreadId>) -> WaitView {
    WaitView {
        receivers,
        next: 0,
        statuses: Seq::empty(),
        failure: None,
        phase: WaitPhase::Subscribing,
    }
}

/// Starts to wait.
pub fn start_wait(receivers: Vec<ThreadId>) -> (res: (WaitState, WaitAction))
    requires
        receivers@.len() > 0,
    ensures
        res.0@ == wait_first(receivers@),
        res.1 == WaitAction::Subscribe(receivers@[0]),
{
    let first: ThreadId = receivers[0];
    let state = WaitState {
        receivers,
        next: 0,
        statuses: Vec::new(),
        failure: None,
        phase: WaitPhase::Subscribing,
    };
    assert(state@ =~= wait_first(receivers@));
    (state, WaitAction::Subscribe(first))
}

fn advance(state: WaitState) -> (res: (WaitState, WaitAction))
    ensures
        (res.0@, res.1) == wait_advanced(state@),
{
    let mut state = state;
    if state.next < state.receivers.len() {
        let id: ThreadId = state.receivers[state.next];
        (state, WaitAction::Subscribe(id))
    } else if state.statuses.len() > 0 {
        state.phase = WaitPhase::Ending;
        (state, WaitAction::ReportEnd)
    } else {
        state.phase = WaitPhase::Awaiting;
        (state, WaitAction::AwaitAny)
    }
}

/// Takes the next step. An event that does not answer what the state waits for is handed back.
pub fn step_wait(state: WaitState, event: WaitEvent) -> (res: Result<
    (WaitState, WaitAction),
    (WaitState, WaitEvent),
>)
    ensures
        match wait_next(state@, event) {
            Some(next) => res is Ok && (res->Ok_0.0@, res->Ok_0.1) == next,
            None => res == Err::<(WaitState, WaitAction), (WaitState, WaitEvent)>((state, event)),
        },
{
    let mut state = state;
    match (state.phase, event) {
        (WaitPhase::Subscribing, WaitEvent::Subscribed { status, is_final }) => {
            if state.next >= state.receivers.len() {
                return Err((state, WaitEvent::Subscribed { status, is_final }));
            }
            let id: ThreadId = state.receivers[state.next];
            if is_final {
                state.statuses.push((id, status));
            }
            state.next = state.next + 1;
            Ok(advance(state))
        },
        (WaitPhase::Subscribing, WaitEvent::NotFound) => {
            if state.next >= state.receivers.len() {
                return Err((state, WaitEvent::NotFound));
            }
            let id: ThreadId = state.receivers[state.next];
            state.statuses.push((id, AgentStatus::NotFound));
            state.next = state.next + 1;
            Ok(advance(state))
        },
        (WaitPhase::Subscribing, WaitEvent::Unreachable { error, displayed, status }) => {
            if state.next >= state.receivers.len() {
                return Err((state, WaitEvent::Unreachable { error, displayed, status }));
            }
            let id: ThreadId = state.receivers[state.next];
            state.statuses = Vec::new();
            state.statuses.push((id, status));
            state.failure = Some(collab_agent_error(id, error, displayed));
            state.phase = WaitPhase::Ending;
            assert(state@.statuses =~= seq![(id, status)]);
            Ok((state, WaitAction::ReportEnd))
        },
        (WaitPhase::Awaiting, WaitEvent::Final { thread_id, status }) => {
            state.statuses.push((thread_id, status));
            state.phase = WaitPhase::Draining;
            Ok((state, WaitAction::DrainReady))
        },
        (WaitPhase::Awaiting, WaitEvent::Lost) => Ok((state, WaitAction::AwaitAny)),
        (WaitPhase::Awaiting, WaitEvent::Nothing) => {
            state.phase = WaitPhase::Ending;
            Ok((state, WaitAction::ReportEnd))
        },
        (WaitPhase::Draining, WaitEvent::Final { thread_id, status }) => {
            state.statuses.push((thread_id, status));
            Ok((state, WaitAction::DrainReady))
        },
        (WaitPhase::Draining, WaitEvent::Lost) => Ok((state, WaitAction::DrainReady)),
        (WaitPhase::Draining, WaitEvent::Nothing) => {
            state.phase = WaitPhase::Ending;
            Ok((state, WaitAction::ReportEnd))
        },
        (WaitPhase::Ending, WaitEvent::Reported) => {
            state.phase = WaitPhase::Done;
            Ok((state, WaitAction::Finish))
        },
        (_, event) => Err((state, event)),
    }
}

/// Statuses by thread; of several for one thread the last counts.
pub open spec fn by_thread(statuses: Seq<(ThreadId, AgentStatus)>) -> Map<ThreadId, AgentStatus>
    decreases statuses.len(),
{
    if statuses.len() == 0 {
        Map::empty()
    } else {
        by_thread(statuses.drop_last()).insert(statuses.last().0, statuses.last().1)
    }
}

/// Whether no thread stands twice among `statuses`.
pub open spec fn distinct_threads(statuses: Seq<(ThreadId, AgentStatus)>) -> bool {
    forall|i: int, j: int|
        0 <= i < j < statuses.len() ==> (#[trigger] statuses[i]).0 != (#[trigger] statuses[j]).0
}

proof fn lemma_by_thread(statuses: Seq<(ThreadId, AgentStatus)>)
    requires
        distinct_threads(statuses),
    ensures
        forall|id: ThreadId|
            #[trigger] by_thread(statuses).dom().contains(id) <==> exists|i: int|
                0 <= i < statuses.len() && (#[trigger] statuses[i]).0 == id,
        forall|i: int|
            0 <= i < statuses.len() ==> by_thread(statuses)[(#[trigger] statuses[i]).0]
                == statuses[i].1,
    decreases statuses.len(),
{
    if statuses.len() > 0 {
        let head = statuses.drop_last();
        assert forall|i: int, j: int| 0 <= i < j < head.len() implies (#[trigger] head[i]).0 != (
        #[trigger] head[j]).0 by {
            assert(statuses[i] == head[i] && statuses[j] == head[j]);
        }
        lemma_by_thread(head);
        let last = statuses.last();
        assert(statuses[statuses.len() - 1] == last);
        assert forall|id: ThreadId| #[trigger] by_thread(statuses).dom().contains(id)
            <==> exists|i: int| 0 <= i < statuses.len() && (#[trigger] statuses[i]).0 == id by {
            if by_thread(head).dom().contains(id) {
                let i = choose|i: int| 0 <= i < head.len() && (#[trigger] head[i]).0 == id;
                assert(statuses[i].0 == id);
            }
            if exists|i: int| 0 <= i < statuses.len() && (#[trigger] statuses[i]).0 == id {
                let i = choose|i: int| 0 <= i < statuses.len() && (#[trigger] statuses[i]).0 == id;
                if i < head.len() {
                    assert(head[i].0 == id);
                }
            }
        }
        assert forall|i: int| 0 <= i < statuses.len() implies by_thread(statuses)[(
        #[trigger] statuses[i]).0] == statuses[i].1 by {
            if i < head.len() {
                assert(head[i] == statuses[i]);
                assert(statuses[i].0 != last.0);
            }
        }
    }
}

/// Collects statuses by thread: every thread once, with the last status that was noticed.
pub fn status_map(statuses: &Vec<(ThreadId, AgentStatus)>) -> (res: Vec<(ThreadId, AgentStatus)>)
    ensures
        distinct_threads(res@),
        by_thread(res@) == by_thread(statuses@),
{
    let mut res: Vec<(ThreadId, AgentStatus)> = Vec::new();
    let mut i: usize = 0;
    assert(statuses@.take(0) =~= Seq::empty());
    while i < statuses.len()
        invariant
            i <= statuses.len(),
            distinct_threads(res@),
            by_thread(res@) == by_thread(statuses@.take(i as int)),
        decreases statuses.len() - i,
    {
        let id: ThreadId = statuses[i].0;
        let status: AgentStatus = statuses[i].1.copy();
        let ghost before = res@;
        let ghost goal = by_thread(before).insert(id, status);
        proof {
            assert(statuses@.take(i + 1).drop_last() =~= statuses@.take(i as int));
            assert(statuses@.take(i + 1).last() == statuses@[i as int]);
            assert(goal == by_thread(statuses@.take(i + 1)));
            lemma_by_thread(before);
        }
        let mut at: usize = 0;
        while at < res.len() && res[at].0 != id
            invariant
                at <= res.len(),
                res@ == before,
                forall|k: int| 0 <= k < at ==> (#[trigger] res@[k]).0 != id,
            decreases res.len() - at,
        {
            at = at + 1;
        }
        if at < res.len() {
            res.set(at, (id, status));
            proof {
                assert(distinct_threads(res@));
                lemma_by_thread(res@);
                assert forall|t: ThreadId| #[trigger] by_thread(res@).dom().contains(t)
                    <==> goal.dom().contains(t) by {
                    if by_thread(res@).dom().contains(t) {
                        let k = choose|k: int| 0 <= k < res@.len() && (#[trigger] res@[k]).0 == t;
                        assert(before[k].0 == t || k == at);
                    }
                    if by_thread(before).dom().contains(t) {
                        let k = choose|k: int| 0 <= k < before.len() && (#[trigger] before[k]).0
                            == t;
                        assert(res@[k].0 == t);
                    }
                    assert(res@[at as int].0 == id);
                }
                assert forall|t: ThreadId| by_thread(res@).dom().contains(t) implies by_thread(
                    res@,
                )[t] == goal[t] by {
                    let k = choose|k: int| 0 <= k < res@.len() && (#[trigger] res@[k]).0 == t;
                    if k != at {
                        assert(before[k] == res@[k]);
                        assert(before[at as int].0 == id);
                    }
                }
                assert(by_thread(res@) =~= goal);
            }
        } else {
            res.push((id, status));
            proof {
                assert(res@.drop_last() =~= before);
                assert(by_thread(res@) =~= goal);
            }
        }
        i = i + 1;
    }
    assert(statuses@.take(statuses.len() as int) =~= statuses@);
    res
}

/// The answer of the tool.
#[derive(Clone, Debug, PartialEq, Eq)]
pub struct WaitResult {
    pub status: Vec<(ThreadId, AgentStatus)>,
    pub timed_out: bool,
}

/// The answer of a wait that is over: the agents that have come to an end, and whether there was
/// none.
pub fn wait_result(state: WaitState) -> (res: Result<WaitResult, FunctionCallError>)
    ensures
        match state.failure {
            Some(error) => res == Err::<WaitResult, FunctionCallError>(error),
            None => {
                &&& res is Ok
                &&& distinct_threads(res->Ok_0.status@)
                &&& by_thread(res->Ok_0.status@) == by_thread(state.statuses@)
                &&& res->Ok_0.timed_out == (state.statuses@.len() == 0)
            },
        },
{
    match state.failure {
        Some(error) => Err(error),
        None => {
            let timed_out: bool = state.statuses.len() == 0;
            Ok(WaitResult { status: status_map(&state.statuses), timed_out })
        },
    }
}

/// Where a wait stands after `events`, and all that it asked for.
pub open spec fn wait_run(receivers: Seq<ThreadId>, events: Seq<WaitEvent>) -> Option<
    (WaitView, Seq<WaitAction>),
>
    decreases events.len(),
{
    if events.len() == 0 {
        Some((wait_first(receivers), seq![WaitAction::Subscribe(receivers[0])]))
    } else {
        match wait_run(receivers, events.drop_last()) {
            Some((state, actions)) => match wait_next(state, events.last()) {
                Some((next, action)) => Some((next, actions.push(action))),
                None => None,
            },
            None => None,
        }
    }
}

/// Agents that come to an end during the wait are ones that it is about.
pub open spec fn ends_are_asked_for(receivers: Seq<ThreadId>, events: Seq<WaitEvent>) -> bool {
    forall|i: int|
        0 <= i < events.len() ==> ((#[trigger] events[i]) matches WaitEvent::Final {
            thread_id,
            ..
        } ==> receivers.contains(thread_id))
}

spec fn wait_invariant(
    receivers: Seq<ThreadId>,
    state: WaitView,
    actions: Seq<WaitAction>,
) -> bool {
    &&& state.receivers == receivers
    &&& 0 <= state.next <= receivers.len()
    &&& forall|i: int|
        0 <= i < state.statuses.len() ==> receivers.contains((#[trigger] state.statuses[i]).0)
    &&& state.phase == WaitPhase::Subscribing ==> state.failure is None && state.next
        < receivers.len() && forall|i: int|
        0 <= i < actions.len() ==> #[trigger] actions[i] != WaitAction::AwaitAny
    &&& state.phase == WaitPhase::Awaiting ==> state.failure is None && state.statuses.len() == 0
        && state.next == receivers.len()
    &&& state.phase == WaitPhase::Draining ==> state.failure is None && state.statuses.len() > 0
    &&& state.failure is Some ==> forall|i: int|
        0 <= i < actions.len() ==> #[trigger] actions[i] != WaitAction::AwaitAny
}

proof fn lemma_wait_invariant(receivers: Seq<ThreadId>, events: Seq<WaitEvent>)
    requires
        receivers.len() > 0,
        ends_are_asked_for(receivers, events),
        wait_run(receivers, events) is Some,
    ensures
        ({
            let (state, actions) = wait_run(receivers, events)->Some_0;
            wait_invariant(receivers, state, actions)
        }),
    decreases events.len(),
{
    if events.len() > 0 {
        let head = events.drop_last();
        assert forall|i: int| 0 <= i < head.len() implies ((
        #[trigger] head[i]) matches WaitEvent::Final { thread_id, .. } ==> receivers.contains(
            thread_id,
        )) by {
            assert(head[i] == events[i]);
        }
        lemma_wait_invariant(receivers, head);
        let (before, done) = wait_run(receivers, head)->Some_0;
        let (after, action) = wait_next(before, events.last())->Some_0;
        let actions = done.push(action);
        assert(events[events.len() - 1] == events.last());
        if before.next < receivers.len() {
            assert(receivers.contains(receivers[before.next]));
        }
        assert forall|i: int| 0 <= i < after.statuses.len() implies receivers.contains((
        #[trigger] after.statuses[i]).0) by {
            if i < before.statuses.len() && after.statuses[i] == before.statuses[i] {
                assert(receivers.contains(before.statuses[i].0));
            }
        }
        assert forall|i: int| 0 <= i < done.len() implies #[trigger] actions[i] == done[i] by {}
    }
}

/// Only agents that were asked for are reported. The wait itself begins only when every agent was
/// asked and none had come to an end, and a failure to reach one ends the call before that.
pub proof fn law_wait_reports_what_it_was_asked_for(
    receivers: Seq<ThreadId>,
    events: Seq<WaitEvent>,
)
    requires
        receivers.len() > 0,
        ends_are_asked_for(receivers, events),
        wait_run(receivers, events) is Some,
    ensures
        ({
            let (state, actions) = wait_run(receivers, events)->Some_0;
            &&& forall|i: int|
                0 <= i < state.statuses.len() ==> receivers.contains(
                    (#[trigger] state.statuses[i]).0,
                )
            &&& state.phase == WaitPhase::Awaiting ==> state.next == receivers.len()
                && state.statuses.len() == 0
            &&& state.failure is Some ==> !actions.contains(WaitAction::AwaitAny)
        }),
{
    lemma_wait_invariant(receivers, events);
}

/// An agent that has come to an end before the wait spares the wait.
pub proof fn law_ended_agent_spares_the_wait(state: WaitView, event: WaitEvent)
    requires
        state.phase == WaitPhase::Subscribing,
        wait_next(state, event) is Some,
        state.statuses.len() > 0 || event is NotFound || (event matches WaitEvent::Subscribed {
            is_final,
            ..
        } && is_final),
    ensures
        wait_next(state, event)->Some_0.1 != WaitAction::AwaitAny,
        wait_next(state, event)->Some_0.0.statuses.len() > 0,
{
}

/// The agents that had come to an end when the first `n` were asked, with how they ended.
pub open spec fn ended_at_start(
    receivers: Seq<ThreadId>,
    events: Seq<WaitEvent>,
    n: nat,
) -> Seq<(ThreadId, AgentStatus)>
    decreases n,
{
    if n == 0 {
        Seq::empty()
    } else {
        let rest = ended_at_start(receivers, events, (n - 1) as nat);
        match events[n - 1] {
            WaitEvent::Subscribed { status, is_final } => if is_final {
                rest.push((receivers[n - 1], status))
            } else {
                rest
            },
            WaitEvent::NotFound => rest.push((receivers[n - 1], AgentStatus::NotFound)),
            _ => rest,
        }
    }
}

/// Whether the `k`-th event said that an agent ended as `entry` says, or that it does not exist.
pub open spec fn says_ended(
    receivers: Seq<ThreadId>,
    event: WaitEvent,
    k: int,
    entry: (ThreadId, AgentStatus),
) -> bool {
    match event {
        WaitEvent::Subscribed { status, is_final } => is_final && 0 <= k < receivers.len() && entry
            == (receivers[k], status),
        WaitEvent::NotFound => 0 <= k < receivers.len() && entry == (
            receivers[k],
            AgentStatus::NotFound,
        ),
        WaitEvent::Final { thread_id, status } => entry == (thread_id, status),
        _ => false,
    }
}

proof fn lemma_ended_at_start_prefix(
    receivers: Seq<ThreadId>,
    head: Seq<WaitEvent>,
    events: Seq<WaitEvent>,
    n: nat,
)
    requires
        n <= head.len() <= events.len(),
        forall|i: int| 0 <= i < head.len() ==> #[trigger] head[i] == events[i],
    ensures
        ended_at_start(receivers, head, n) == ended_at_start(receivers, events, n),
    decreases n,
{
    if n > 0 {
        lemma_ended_at_start_prefix(receivers, head, events, (n - 1) as nat);
        assert(head[n - 1] == events[n - 1]);
    }
}

proof fn lemma_wait_collects_ends(receivers: Seq<ThreadId>, events: Seq<WaitEvent>)
    requires
        receivers.len() > 0,
        wait_run(receivers, events) is Some,
        wait_run(receivers, events)->Some_0.0.failure is None,
    ensures
        ({
            let state = wait_run(receivers, events)->Some_0.0;
            let ended = ended_at_start(receivers, events, receivers.len());
            &&& state.receivers == receivers
            &&& forall|i: int|
                0 <= i < state.statuses.len() ==> exists|k: int|
                    0 <= k < events.len() && says_ended(
                        receivers,
                        #[trigger] events[k],
                        k,
                        #[trigger] state.statuses[i],
                    )
            &&& match state.phase {
                WaitPhase::Subscribing => state.next == events.len() && events.len()
                    < receivers.len() && state.statuses == ended_at_start(
                    receivers,
                    events,
                    events.len(),
                ),
                WaitPhase::Awaiting => events.len() >= receivers.len() && ended.len() == 0
                    && state.statuses.len() == 0,
                WaitPhase::Draining => events.len() >= receivers.len() && ended.len() == 0,
                _ => events.len() >= receivers.len() && (ended.len() > 0 ==> state.statuses
                    == ended),
            }
        }),
    decreases events.len(),
{
    if events.len() > 0 {
        let head = events.drop_last();
        let (before, done) = wait_run(receivers, head)->Some_0;
        let (after, action) = wait_next(before, events.last())->Some_0;
        assert(before.failure is None);
        lemma_wait_collects_ends(receivers, head);
        assert forall|i: int| 0 <= i < head.len() implies #[trigger] head[i] == events[i] by {}
        assert(events[events.len() - 1] == events.last());
        if before.phase == WaitPhase::Subscribing {
            lemma_ended_at_start_prefix(receivers, head, events, head.len());
        } else {
            lemma_ended_at_start_prefix(receivers, head, events, receivers.len());
        }
        assert forall|i: int| 0 <= i < after.statuses.len() implies exists|k: int|
            0 <= k < events.len() && says_ended(
                receivers,
                #[trigger] events[k],
                k,
                #[trigger] after.statuses[i],
            ) by {
            if i < before.statuses.len() {
                assert(after.statuses[i] == before.statuses[i]);
                let k = choose|k: int|
                    0 <= k < head.len() && says_ended(
                        receivers,
                        #[trigger] head[k],
                        k,
                        before.statuses[i],
                    );
                assert(says_ended(receivers, events[k], k, after.statuses[i]));
            } else {
                assert(says_ended(
                    receivers,
                    events[events.len() - 1],
                    events.len() - 1,
                    after.statuses[i],
                ));
            }
        }
    } else {
        assert(wait_first(receivers).statuses =~= ended_at_start(receivers, events, 0));
    }
}

/// Unless the call fails, every status that is reported is one that an agent ended with, or says
/// that the agent does not exist. Where some agents had ended when they were asked, exactly those
/// are reported, in the order in which they were asked.
pub proof fn law_wait_reports_how_agents_ended(receivers: Seq<ThreadId>, events: Seq<WaitEvent>)
    requires
        receivers.len() > 0,
        wait_run(receivers, events) is Some,
        wait_run(receivers, events)->Some_0.0.failure is None,
    ensures
        ({
            let state = wait_run(receivers, events)->Some_0.0;
            let ended = ended_at_start(receivers, events, receivers.len());
            &&& forall|i: int|
                0 <= i < state.statuses.len() ==> exists|k: int|
                    0 <= k < events.len() && says_ended(
                        receivers,
                        #[trigger] events[k],
                        k,
                        #[trigger] state.statuses[i],
                    )
            &&& (state.phase == WaitPhase::Ending || state.phase == WaitPhase::Done) && ended.len()
                > 0 ==> state.statuses == ended
        }),
{
    lemma_wait_collects_ends(receivers, events);
}

/// What was seen of one agent that is waited for; `is_final` says whether an agent ends with it.
#[allow(inconsistent_fields)]
#[derive(Clone, Debug, PartialEq, Eq)]
pub enum Observed {
    Status { status: AgentStatus, is_final: bool },
    /// The status cannot change any more.
    Closed,
    /// The status that was read after it could not change any more.
    Last { status: AgentStatus, is_final: bool },
}

/// What follows for the agent.
#[derive(Clone, Debug, PartialEq, Eq)]
pub enum FinalStatus {
    AwaitChange,
    ReadLast,
    /// The agent has come to an end with this status, or will not.
    Settled(Option<AgentStatus>),
}

/// Decides whether an agent is still waited for.
pub fn wait_for_final_status(observed: Observed) -> (res: FinalStatus)
    ensures
        res == match observed {
            Observed::Status { status, is_final } => if is_final {
                FinalStatus::Settled(Some(status))
            } else {
                FinalStatus::AwaitChange
            },
            Observed::Closed => FinalStatus::ReadLast,
            Observed::Last { status, is_final } => FinalStatus::Settled(
                if is_final {
                    Some(status)
                } else {
                    None
                },
            ),
        },
{
    match observed {
        Observed::Status { status, is_final } => {
            if is_final {
                FinalStatus::Settled(Some(status))
            } else {
                FinalStatus::AwaitChange
            }
        },
        Observed::Closed => FinalStatus::ReadLast,
        Observed::Last { status, is_final } => {
            if is_final {
                FinalStatus::Settled(Some(status))
            } else {
                FinalStatus::Settled(None)
            }
        },
    }
}

/// `next` asks the agent after the one that `state` waits for; after the last, it waits or ends.
pub open spec fn asks_the_next(state: WaitView, next: (WaitView, WaitAction)) -> bool {
    &&& next.0.receivers == state.receivers
    &&& next.0.next == state.next + 1
    &&& next.0.failure == state.failure
    &&& if state.next + 1 < state.receivers.len() {
        &&& next.1 == WaitAction::Subscribe(state.receivers[state.next + 1])
        &&& next.0.phase == WaitPhase::Subscribing
    } else if next.0.statuses.len() > 0 {
        &&& next.1 == WaitAction::ReportEnd
        &&& next.0.phase == WaitPhase::Ending
    } else {
        &&& next.1 == WaitAction::AwaitAny
        &&& next.0.phase == WaitPhase::Awaiting
    }
}

/// The agents are asked one after the other, each once and in the order in which they were named;
/// after the last the wait begins, unless an agent has come to an end already.
pub proof fn law_wait_asks_every_agent_in_turn(state: WaitView, status: AgentStatus, ended: bool)
    requires
        state.phase == WaitPhase::Subscribing,
        0 <= state.next < state.receivers.len(),
    ensures
        ({
            let id = state.receivers[state.next];
            let told = wait_next(state, WaitEvent::Subscribed { status, is_final: ended });
            let missing = wait_next(state, WaitEvent::NotFound);
            &&& told is Some
            &&& missing is Some
            &&& told->Some_0.0.statuses == if ended {
                state.statuses.push((id, status))
            } else {
                state.statuses
            }
            &&& missing->Some_0.0.statuses == state.statuses.push((id, AgentStatus::NotFound))
            &&& asks_the_next(state, told->Some_0)
            &&& asks_the_next(state, missing->Some_0)
        }),
{
}

/// An agent that cannot be reached ends the call: its status alone is reported, and the failure
/// is what the call ends with.
pub proof fn law_unreachable_agent_ends_the_wait(
    state: WaitView,
    error: CodexErr,
    displayed: String,
    status: AgentStatus,
)
    requires
        state.phase == WaitPhase::Subscribing,
        0 <= state.next < state.receivers.len(),
    ensures
        ({
            let id = state.receivers[state.next];
            wait_next(state, WaitEvent::Unreachable { error, displayed, status }) == Some(
                (
                    WaitView {
                        receivers: state.receivers,
                        next: state.next,
                        statuses: seq![(id, status)],
                        failure: Some(
                            FunctionCallError::RespondToModel(agent_refusal(id, error, displayed)),
                        ),
                        phase: WaitPhase::Ending,
                    },
                    WaitAction::ReportEnd,
                ),
            )
        }),
{
}

/// The wait goes on until an agent comes to an end or the time is up; an agent that is lost ends
/// neither the wait nor the collection of those that have come to an end meanwhile. What was
/// collected is kept to the end.
pub proof fn law_wait_lasts_until_an_agent_ends(
    state: WaitView,
    thread_id: ThreadId,
    status: AgentStatus,
)
    ensures
        state.phase == WaitPhase::Awaiting ==> {
            &&& wait_next(state, WaitEvent::Lost) == Some((state, WaitAction::AwaitAny))
            &&& wait_next(state, WaitEvent::Nothing) == Some(
                (WaitView { phase: WaitPhase::Ending, ..state }, WaitAction::ReportEnd),
            )
            &&& wait_next(state, WaitEvent::Final { thread_id, status }) == Some(
                (
                    WaitView {
                        statuses: state.statuses.push((thread_id, status)),
                        phase: WaitPhase::Draining,
                        ..state
                    },
                    WaitAction::DrainReady,
                ),
            )
        },
        state.phase == WaitPhase::Draining ==> {
            &&& wait_next(state, WaitEvent::Lost) == Some((state, WaitAction::DrainReady))
            &&& wait_next(state, WaitEvent::Nothing) == Some(
                (WaitView { phase: WaitPhase::Ending, ..state }, WaitAction::ReportEnd),
            )
            &&& wait_next(state, WaitEvent::Final { thread_id, status }) == Some(
                (
                    WaitView { statuses: state.statuses.push((thread_id, status)), ..state },
                    WaitAction::DrainReady,
                ),
            )
        },
        state.phase == WaitPhase::Ending ==> wait_next(state, WaitEvent::Reported) == Some(
            (WaitView { phase: WaitPhase::Done, ..state }, WaitAction::Finish),
        ),
{
}

/// A wait takes an answer exactly where it waits for one of that kind, and none when it is done.
/// It is done exactly when its last word is said.
pub proof fn law_wait_takes_only_awaited_answers(state: WaitView, event: WaitEvent)
    ensures
        wait_next(state, event) is Some <==> {
            ||| state.phase is Subscribing && state.next < state.receivers.len() && (event
                is Subscribed || event is NotFound || event is Unreachable)
            ||| (state.phase is Awaiting || state.phase is Draining) && (event is Final || event
                is Lost || event is Nothing)
            ||| state.phase is Ending && event is Reported
        },
        wait_next(state, event) matches Some((after, action)) ==> (after.phase is Done
            <==> action is Finish),
{
}

/// The time of a wait is what was asked for, and half a minute where nothing was.
pub proof fn law_wait_lasts_as_long_as_asked(ms: i64)
    ensures
        asked_timeout(Some(ms)) == ms,
        asked_timeout(None) == 30_000,
{
}

/// The first id that is none is the one that is refused, whatever comes after it.
pub proof fn law_first_bad_id_is_refused(ids: Seq<String>, k: int, error: FunctionCallError)
    requires
        0 <= k < ids.len(),
        uuid_read(ids[k]@) is Err,
        forall|i: int| 0 <= i < k ==> uuid_read(#[trigger] ids[i]@) is Ok,
    ensures
        !all_agent_ids(ids),
        is_first_bad_id(ids, error) <==> (error matches FunctionCallError::RespondToModel(
            Refusal::InvalidAgentId { id, error: reason },
        ) && id@ == ids[k]@ && reason@ == uuid_read(ids[k]@)->Err_0),
{
    if is_agent_id(ids[k]@, Err(error)) {
        assert forall|i: int| 0 <= i < ids.take(k).len() implies uuid_read(
            #[trigger] ids.take(k)[i]@,
        ) is Ok by {
            assert(ids.take(k)[i] == ids[i]);
        }
        assert(is_first_bad_id(ids, error));
    }
    if is_first_bad_id(ids, error) {
        let j = choose|j: int|
            0 <= j < ids.len() && uuid_read(#[trigger] ids[j]@) is Err && is_agent_id(
                ids[j]@,
                Err(error),
            ) && all_agent_ids(ids.take(j));
        if k < j {
            assert(ids.take(j)[k] == ids[k]);
        }
        assert(j == k);
    }
}

/// Of several statuses of one thread the last counts; a thread without one has none.
pub proof fn law_last_status_of_a_thread_counts(
    statuses: Seq<(ThreadId, AgentStatus)>,
    id: ThreadId,
    status: AgentStatus,
    other: ThreadId,
)
    requires
        other != id,
    ensures
        by_thread(Seq::empty()) == Map::<ThreadId, AgentStatus>::empty(),
        by_thread(statuses.push((id, status))).dom().contains(id),
        by_thread(statuses.push((id, status)))[id] == status,
        by_thread(statuses.push((id, status))).dom().contains(other) <==> by_thread(
            statuses,
        ).dom().contains(other),
        by_thread(statuses.push((id, status)))[other] == by_thread(statuses)[other],
{
    assert(statuses.push((id, status)).drop_last() =~= statuses);
}

/// A wait begins with the first of its agents, and with nothing collected.
pub proof fn law_wait_begins_with_its_first_agent(receivers: Seq<ThreadId>)
    ensures
        ({
            let run = wait_run(receivers, Seq::empty());
            &&& run is Some
            &&& run->Some_0.1 == seq![WaitAction::Subscribe(receivers[0])]
            &&& run->Some_0.0.receivers == receivers
            &&& run->Some_0.0.next == 0
            &&& run->Some_0.0.statuses.len() == 0
            &&& run->Some_0.0.failure is None
            &&& run->Some_0.0.phase == WaitPhase::Subscribing
        }),
{
}

/// No thread stands twice among statuses exactly when each that is added was not there before.
pub proof fn law_threads_are_told_apart(
    statuses: Seq<(ThreadId, AgentStatus)>,
    id: ThreadId,
    status: AgentStatus,
)
    ensures
        distinct_threads(Seq::empty()),
        distinct_threads(statuses.push((id, status))) <==> distinct_threads(statuses) && forall|
            i: int,
        |
            0 <= i < statuses.len() ==> (#[trigger] statuses[i]).0 != id,
{
    let all = statuses.push((id, status));
    let n = statuses.len() as int;
    assert(all[n] == (id, status));
    assert forall|i: int| 0 <= i < n implies #[trigger] all[i] == statuses[i] by {}
    if distinct_threads(all) {
        assert forall|i: int, j: int| 0 <= i < j < n implies (#[trigger] statuses[i]).0 != (
        #[trigger] statuses[j]).0 by {
            assert(all[i].0 != all[j].0);
        }
        assert forall|i: int| 0 <= i < n implies (#[trigger] statuses[i]).0 != id by {
            assert(all[i].0 != all[n].0);
        }
    }
}

/// Where a wait stands is all that its state holds.
pub proof fn law_wait_stands_where_its_state_says(state: WaitState)
    ensures
        state@.receivers == state.receivers@,
        state@.next == state.next,
        state@.statuses == state.statuses@,
        state@.failure == state.failure,
        state@.phase == state.phase,
{
}

/// A wait begins as its run does.
pub proof fn law_wait_begins_as_its_run_does(
    receivers: Vec<ThreadId>,
    res: (WaitState, WaitAction),
)
    requires
        receivers@.len() > 0,
        call_ensures(start_wait, (receivers,), res),
    ensures
        wait_run(receivers@, Seq::empty()) == Some((res.0@, seq![res.1])),
{
}

/// A wait that takes a step goes on as its run does; an answer that it does not wait for is handed
/// back, and nothing has changed.
pub proof fn law_wait_goes_on_as_its_run_does(
    receivers: Seq<ThreadId>,
    events: Seq<WaitEvent>,
    state: WaitState,
    actions: Seq<WaitAction>,
    event: WaitEvent,
    res: Result<(WaitState, WaitAction), (WaitState, WaitEvent)>,
)
    requires
        wait_run(receivers, events) == Some((state@, actions)),
        call_ensures(step_wait, (state, event), res),
    ensures
        match res {
            Ok((next, action)) => wait_run(receivers, events.push(event)) == Some(
                (next@, actions.push(action)),
            ),
            Err(back) => back == (state, event) && wait_run(receivers, events.push(event)) is None,
        },
{
    assert(events.push(event).drop_last() =~= events);
}

/// A wait that is over answers with its failure where it has one; else with every agent that was
/// collected, once and with its last status, and with whether there was none.
pub proof fn law_wait_answers_with_what_was_collected(
    state: WaitState,
    res: Result<WaitResult, FunctionCallError>,
    id: ThreadId,
)
    requires
        call_ensures(wait_result, (state,), res),
    ensures
        state.failure matches Some(error) ==> res == Err::<WaitResult, FunctionCallError>(error),
        state.failure is None ==> {
            &&& res is Ok
            &&& res->Ok_0.timed_out <==> state.statuses@.len() == 0
            &&& by_thread(state.statuses@).dom().contains(id) <==> exists|k: int|
                0 <= k < res->Ok_0.status@.len() && (#[trigger] res->Ok_0.status@[k]).0 == id
            &&& forall|k: int|
                0 <= k < res->Ok_0.status@.len() ==> by_thread(state.statuses@)[(
                #[trigger] res->Ok_0.status@[k]).0] == res->Ok_0.status@[k].1
            &&& forall|k: int, l: int|
                0 <= k < l < res->Ok_0.status@.len() ==> (#[trigger] res->Ok_0.status@[k]).0 != (
                #[trigger] res->Ok_0.status@[l]).0
        },
{
    if state.failure is None {
        lemma_by_thread(res->Ok_0.status@);
    }
}

/// A call of `wait` is planned for all agents that it names, in order, and for the time that it
/// asks for, which is cut at five minutes. It is refused, in this order, where it names no agent,
/// where a name is no id, and where the time is not positive.
pub proof fn law_wait_is_planned_as_asked(
    args: WaitArgs,
    res: Result<WaitPlan, FunctionCallError>,
)
    requires
        call_ensures(handle, (args,), res),
    ensures
        ({
            let asked = match args.timeout_ms {
                Some(ms) => ms,
                None => 30_000i64,
            };
            let ids = args.ids@;
            let all_read = forall|i: int| 0 <= i < ids.len() ==> uuid_read(#[trigger] ids[i]@) is Ok;
            &&& res is Ok <==> ids.len() > 0 && all_read && asked > 0
            &&& res matches Ok(plan) ==> {
                &&& plan.receivers@.len() == ids.len()
                &&& forall|i: int|
                    0 <= i < ids.len() ==> uuid_read(ids[i]@) == Ok::<u128, Seq<char>>(
                        (#[trigger] plan.receivers@[i]).value,
                    )
                &&& plan.timeout_ms == if asked < 300_000 {
                    asked
                } else {
                    300_000
                }
            }
            &&& ids.len() == 0 ==> res == Err::<WaitPlan, FunctionCallError>(
                FunctionCallError::RespondToModel(Refusal::NoIds),
            )
            &&& ids.len() > 0 && all_read && asked <= 0 ==> res == Err::<
                WaitPlan,
                FunctionCallError,
            >(FunctionCallError::RespondToModel(Refusal::TimeoutNotPositive))
        }),
{
}

/// An agent is waited for until its status is one that it ends with; once the status cannot change
/// any more, the last one decides.
pub proof fn law_agent_is_awaited_until_its_status_is_final(
    status: AgentStatus,
    is_final: bool,
    res: FinalStatus,
)
    ensures
        call_ensures(wait_for_final_status, (Observed::Status { status, is_final },), res) ==> if is_final {
            res == FinalStatus::Settled(Some(status))
        } else {
            res is AwaitChange
        },
        call_ensures(wait_for_final_status, (Observed::Closed,), res) ==> res is ReadLast,
        call_ensures(wait_for_final_status, (Observed::Last { status, is_final },), res)
            ==> if is_final {
            res == FinalStatus::Settled(Some(status))
        } else {
            res == FinalStatus::Settled(None)
        },
{
}

} // verus!
