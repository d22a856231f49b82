//! The loop that takes submissions in: ordinary ones one by one under the checkpoint admission,
//! control ones at any time.
use crate::session::dispatch::Op;
use crate::session::dispatch::Submission;
use vstd::prelude::*;

verus! {

/// What the loop waits for.
#[allow(inconsistent_fields)]
#[derive(Clone, Copy, Debug, PartialEq, Eq, Structural)]
pub enum LoopPhase {
    Receiving,
    /// An ordinary submission waits for the admission.
    Admitting,
    /// A control submission is dispatched; then an ordinary one is waited for, or its admission.
    DispatchingControl { admitting: bool },
    /// An ordinary submission is dispatched; it may be a shutdown.
    DispatchingOrdinary { shutdown: bool },
    /// A shutdown that came as a control submission runs, while control is served or not.
    ShuttingDown { admitting: bool, serving: bool },
    /// A control submission is dispatched beside the shutdown.
    ServingControl { admitting: bool },
    TearingDown,
    Ended,
}

/// Where the loop stands.
#[derive(Debug, PartialEq, Eq)]
pub struct LoopState<P> {
    pub ordinary_open: bool,
    pub control_open: bool,
    pub pending: Option<Submission<P>>,
    pub shutdown_received: bool,
    pub phase: LoopPhase,
}

/// What has come in. A closed channel sends `None`.
#[derive(Debug, PartialEq, Eq)]
pub enum LoopEvent<P> {
    Control(Option<Submission<P>>),
    Ordinary(Option<Submission<P>>),
    Admitted,
    /// Whether the dispatched submission asked the loop to end.
    Dispatched { exit: bool },
    ShutdownFinished { exit: bool },
    TornDown,
}

/// What to do next. Where several things are waited for, control comes before the rest, except
/// that the end of a shutdown comes before control.
#[derive(Debug, PartialEq, Eq)]
pub enum LoopAction<P> {
    Receive { control: bool, ordinary: bool },
    AwaitAdmission { control: bool },
    Dispatch { sub: Submission<P>, with_admission: bool },
    /// Dispatch the shutdown without an admission, and serve control while it runs.
    StartShutdown { sub: Submission<P> },
    AwaitShutdown { control: bool },
    /// Tear the session down, as no shutdown did.
    TearDown,
    Exit,
}

pub open spec fn at_phase<P>(state: LoopState<P>, phase: LoopPhase) -> LoopState<P> {
    LoopState { phase, ..state }
}

/// The loop is left.
pub open spec fn loop_end<P>(state: LoopState<P>) -> (LoopState<P>, LoopAction<P>) {
    if state.shutdown_received {
        (at_phase(state, LoopPhase::Ended), LoopAction::Exit)
    } else {
        (at_phase(state, LoopPhase::TearingDown), LoopAction::TearDown)
    }
}

/// The loop goes round, as long as anything can still come in or waits for its admission.
pub open spec fn loop_proceed<P>(state: LoopState<P>) -> (LoopState<P>, LoopAction<P>) {
    if state.pending is Some {
        (
            at_phase(state, LoopPhase::Admitting),
            LoopAction::AwaitAdmission { control: state.control_open },
        )
    } else if state.ordinary_open || state.control_open {
        (
            at_phase(state, LoopPhase::Receiving),
            LoopAction::Receive { control: state.control_open, ordinary: state.ordinary_open },
        )
    } else {
        loop_end(state)
    }
}

/// A control submission came in.
pub open spec fn loop_control<P>(state: LoopState<P>, sub: Submission<P>, admitting: bool) -> (
    LoopState<P>,
    LoopAction<P>,
) {
    if sub.op is Shutdown {
        (
            at_phase(state, LoopPhase::ShuttingDown { admitting, serving: true }),
            LoopAction::StartShutdown { sub },
        )
    } else {
        (
            at_phase(state, LoopPhase::DispatchingControl { admitting }),
            LoopAction::Dispatch { sub, with_admission: false },
        )
    }
}

/// The next step, nothing where `event` is not one that the loop waits for.
pub open spec fn loop_next<P>(state: LoopState<P>, event: LoopEvent<P>) -> Option<
    (LoopState<P>, LoopAction<P>),
> {
    match (state.phase, event) {
        (LoopPhase::Receiving, LoopEvent::Control(control)) => if state.control_open {
            Some(
                match control {
                    Some(sub) => loop_control(state, sub, false),
                    None => loop_proceed(LoopState { control_open: false, ..state }),
                },
            )
        } else {
            None
        },
        (LoopPhase::Receiving, LoopEvent::Ordinary(ordinary)) => if state.ordinary_open
            && state.pending is None {
            Some(
                match ordinary {
                    Some(sub) => loop_proceed(LoopState { pending: Some(sub), ..state }),
                    None => loop_proceed(LoopState { ordinary_open: false, ..state }),
                },
            )
        } else {
            None
        },
        (LoopPhase::Admitting, LoopEvent::Control(control)) => if state.control_open {
            Some(
                match control {
                    Some(sub) => loop_control(state, sub, true),
                    None => (
                        LoopState { control_open: false, ..state },
                        LoopAction::AwaitAdmission { control: false },
                    ),
                },
            )
        } else {
            None
        },
        (LoopPhase::Admitting, LoopEvent::Admitted) => Some(
            match state.pending {
                Some(sub) => (
                    LoopState {
                        pending: None,
                        phase: LoopPhase::DispatchingOrdinary { shutdown: sub.op is Shutdown },
                        ..state
                    },
                    LoopAction::Dispatch { sub, with_admission: true },
                ),
                None => loop_proceed(state),
            },
        ),
        (LoopPhase::DispatchingControl { admitting }, LoopEvent::Dispatched { .. }) => Some(
            if admitting {
                (
                    at_phase(state, LoopPhase::Admitting),
                    LoopAction::AwaitAdmission { control: state.control_open },
                )
            } else {
                loop_proceed(state)
            },
        ),
        (LoopPhase::DispatchingOrdinary { shutdown }, LoopEvent::Dispatched { exit }) => Some(
            if shutdown && exit {
                loop_end(LoopState { shutdown_received: true, ..state })
            } else {
                loop_proceed(state)
            },
        ),
        (
            LoopPhase::ShuttingDown { admitting, .. },
            LoopEvent::ShutdownFinished { exit },
        ) => Some(
            if exit {
                loop_end(LoopState { shutdown_received: true, ..state })
            } else if admitting {
                loop_proceed(state)
            } else {
                loop_end(state)
            },
        ),
        (
            LoopPhase::ShuttingDown { admitting, serving },
            LoopEvent::Control(control),
        ) => if serving {
            Some(
                match control {
                    Some(sub) => if sub.op is ResolveElicitation {
                        (
                            at_phase(state, LoopPhase::ServingControl { admitting }),
                            LoopAction::Dispatch { sub, with_admission: false },
                        )
                    } else {
                        (state, LoopAction::AwaitShutdown { control: true })
                    },
                    None => (
                        at_phase(state, LoopPhase::ShuttingDown { admitting, serving: false }),
                        LoopAction::AwaitShutdown { control: false },
                    ),
                },
            )
        } else {
            None
        },
        (LoopPhase::ServingControl { admitting }, LoopEvent::Dispatched { .. }) => Some(
            (
                at_phase(state, LoopPhase::ShuttingDown { admitting, serving: true }),
                LoopAction::AwaitShutdown { control: true },
            ),
        ),
        (LoopPhase::TearingDown, LoopEvent::TornDown) => Some(
            (at_phase(state, LoopPhase::Ended), LoopAction::Exit),
        ),
        _ => None,
    }
}

/// The loop before anything has come in.
pub open spec fn loop_first<P>() -> (LoopState<P>, LoopAction<P>) {
    (
        LoopState {
            ordinary_open: true,
            control_open: true,
            pending: None,
            shutdown_received: false,
            phase: LoopPhase::Receiving,
        },
        LoopAction::Receive { control: true, ordinary: true },
    )
}

/// Starts the loop.
pub fn start_loop<P>() -> (res: (LoopState<P>, LoopAction<P>))
    ensures
        res == loop_first::<P>(),
{
    (
        LoopState {
            ordinary_open: true,
            control_open: true,
            pending: None,
            shutdown_received: false,
            phase: LoopPhase::Receiving,
        },
        LoopAction::Receive { control: true, ordinary: true },
    )
}

fn end<P>(state: LoopState<P>) -> (res: (LoopState<P>, LoopAction<P>))
    ensures
        res == loop_end(state),
{
    let mut state = state;
    if state.shutdown_received {
        state.phase = LoopPhase::Ended;
        (state, LoopAction::Exit)
    } else {
        state.phase = LoopPhase::TearingDown;
        (state, LoopAction::TearDown)
    }
}

fn proceed<P>(state: LoopState<P>) -> (res: (LoopState<P>, LoopAction<P>))
    ensures
        res == loop_proceed(state),
{
    let mut state = state;
    let control: bool = state.control_open;
    let ordinary: bool = state.ordinary_open;
    if state.pending.is_some() {
        state.phase = LoopPhase::Admitting;
        (state, LoopAction::AwaitAdmission { control })
    } else if ordinary || control {
        state.phase = LoopPhase::Receiving;
        (state, LoopAction::Receive { control, ordinary })
    } else {
        end(state)
    }
}

fn is_shutdown<P>(op: &Op<P>) -> (res: bool)
    ensures
        res == (*op is Shutdown),
{
    match op {
        Op::Shutdown => true,
        _ => false,
    }
}

fn control<P>(state: LoopState<P>, sub: Submission<P>, admitting: bool) -> (res: (
    LoopState<P>,
    LoopAction<P>,
))
    ensures
        res == loop_control(state, sub, admitting),
{
    let mut state = state;
    if is_shutdown(&sub.op) {
        state.phase = LoopPhase::ShuttingDown { admitting, serving: true };
        (state, LoopAction::StartShutdown { sub })
    } else {
        state.phase = LoopPhase::DispatchingControl { admitting };
        (state, LoopAction::Dispatch { sub, with_admission: false })
    }
}

/// Takes the next step. An event that the loop does not wait for is handed back.
pub fn step_loop<P>(state: LoopState<P>, event: LoopEvent<P>) -> (res: Result<
    (LoopState<P>, LoopAction<P>),
    (LoopState<P>, LoopEvent<P>),
>)
    ensures
        res == match loop_next(state, event) {
            Some(next) => Ok::<(LoopState<P>, LoopAction<P>), (LoopState<P>, LoopEvent<P>)>(next),
            None => Err((state, event)),
        },
{
    let mut state = state;
    match (state.phase, event) {
        (LoopPhase::Receiving, LoopEvent::Control(message)) => {
            if !state.control_open {
                return Err((state, LoopEvent::Control(message)));
            }
            match message {
                Some(sub) => Ok(control(state, sub, false)),
                None => {
                    state.control_open = false;
                    Ok(proceed(state))
                },
            }
        },
        (LoopPhase::Receiving, LoopEvent::Ordinary(message)) => {
            if !state.ordinary_open || state.pending.is_some() {
                return Err((state, LoopEvent::Ordinary(message)));
            }
            match message {
                Some(sub) => {
                    state.pending = Some(sub);
                    Ok(proceed(state))
                },
                None => {
                    state.ordinary_open = false;
                    Ok(proceed(state))
                },
            }
        },
        (LoopPhase::Admitting, LoopEvent::Control(message)) => {
            if !state.control_open {
                return Err((state, LoopEvent::Control(message)));
            }
            match message {
                Some(sub) => Ok(control(state, sub, true)),
                None => {
                    state.control_open = false;
                    Ok((state, LoopAction::AwaitAdmission { control: false }))
                },
            }
        },
        (LoopPhase::Admitting, LoopEvent::Admitted) => {
            match state.pending.take() {
                Some(sub) => {
                    state.phase = LoopPhase::DispatchingOrdinary {
                        shutdown: is_shutdown(&sub.op),
                    };
                    Ok((state, LoopAction::Dispatch { sub, with_admission: true }))
                },
                None => Ok(proceed(state)),
            }
        },
        (LoopPhase::DispatchingControl { admitting }, LoopEvent::Dispatched { .. }) => {
            if admitting {
                state.phase = LoopPhase::Admitting;
                let control: bool = state.control_open;
                Ok((state, LoopAction::AwaitAdmission { control }))
            } else {
                Ok(proceed(state))
            }
        },
        (LoopPhase::DispatchingOrdinary { shutdown }, LoopEvent::Dispatched { exit }) => {
            if shutdown && exit {
                state.shutdown_received = true;
                Ok(end(state))
            } else {
                Ok(proceed(state))
            }
        },
        (LoopPhase::ShuttingDown { admitting, .. }, LoopEvent::ShutdownFinished { exit }) => {
            if exit {
                state.shutdown_received = true;
                Ok(end(state))
            } else if admitting {
                Ok(proceed(state))
            } else {
                Ok(end(state))
            }
        },
        (LoopPhase::ShuttingDown { admitting, serving }, LoopEvent::Control(message)) => {
            if !serving {
                return Err((state, LoopEvent::Control(message)));
            }
            match message {
                Some(sub) => {
                    let elicitation: bool = match &sub.op {
                        Op::ResolveElicitation { .. } => true,
                        _ => false,
                    };
                    if elicitation {
                        state.phase = LoopPhase::ServingControl { admitting };
                        Ok((state, LoopAction::Dispatch { sub, with_admission: false }))
                    } else {
                        Ok((state, LoopAction::AwaitShutdown { control: true }))
                    }
                },
                None => {
                    state.phase = LoopPhase::ShuttingDown { admitting, serving: false };
                    Ok((state, LoopAction::AwaitShutdown { control: false }))
                },
            }
        },
        (LoopPhase::ServingControl { admitting }, LoopEvent::Dispatched { .. }) => {
            state.phase = LoopPhase::ShuttingDown { admitting, serving: true };
            Ok((state, LoopAction::AwaitShutdown { control: true }))
        },
        (LoopPhase::TearingDown, LoopEvent::TornDown) => {
            state.phase = LoopPhase::Ended;
            Ok((state, LoopAction::Exit))
        },
        (_, event) => Err((state, event)),
    }
}

/// Where the loop stands after `events`, and all that it asked for.
pub open spec fn loop_run<P>(events: Seq<LoopEvent<P>>) -> Option<
    (LoopState<P>, Seq<LoopAction<P>>),
>
    decreases events.len(),
{
    if events.len() == 0 {
        let first = loop_first::<P>();
        Some((first.0, seq![first.1]))
    } else {
        match loop_run(events.drop_last()) {
            Some((state, actions)) => match loop_next(state, events.last()) {
                Some((next, action)) => Some((next, actions.push(action))),
                None => None,
            },
            None => None,
        }
    }
}

/// The ordinary submissions that came in, in order.
pub open spec fn ordinary_received<P>(events: Seq<LoopEvent<P>>) -> Seq<Submission<P>>
    decreases events.len(),
{
    if events.len() == 0 {
        Seq::empty()
    } else {
        let rest = ordinary_received(events.drop_last());
        match events.last() {
            LoopEvent::Ordinary(Some(sub)) => rest.push(sub),
            _ => rest,
        }
    }
}

/// The submissions that were dispatched with an admission, in order.
pub open spec fn admitted<P>(actions: Seq<LoopAction<P>>) -> Seq<Submission<P>>
    decreases actions.len(),
{
    if actions.len() == 0 {
        Seq::empty()
    } else {
        let rest = admitted(actions.drop_last());
        match actions.last() {
            LoopAction::Dispatch { sub, with_admission: true } => rest.push(sub),
            _ => rest,
        }
    }
}

/// The submission that waits for its admission, as a sequence.
pub open spec fn waiting<P>(pending: Option<Submission<P>>) -> Seq<Submission<P>> {
    match pending {
        Some(sub) => seq![sub],
        None => Seq::empty(),
    }
}

/// Ordinary submissions are dispatched under the admission, in the order in which they came in,
/// and at most the last of them is not dispatched yet.
pub proof fn law_ordinary_submissions_keep_their_order<P>(events: Seq<LoopEvent<P>>)
    requires
        loop_run(events) is Some,
    ensures
        ordinary_received(events) == admitted(loop_run(events)->Some_0.1) + waiting(
            loop_run(events)->Some_0.0.pending,
        ),
    decreases events.len(),
{
    if events.len() == 0 {
        assert(seq![loop_first::<P>().1].drop_last() =~= Seq::<LoopAction<P>>::empty());
        assert(admitted(Seq::<LoopAction<P>>::empty()) =~= Seq::empty());
        assert(admitted(seq![loop_first::<P>().1]) =~= Seq::empty());
        assert(admitted(seq![loop_first::<P>().1]) + waiting(None) =~= Seq::empty());
    } else {
        let head = events.drop_last();
        law_ordinary_submissions_keep_their_order(head);
        let (before, done) = loop_run(head)->Some_0;
        let (after, action) = loop_next(before, events.last())->Some_0;
        assert(done.push(action).drop_last() =~= done);
        let kept = admitted(done);
        if let LoopAction::Dispatch { sub, with_admission: true } = action {
            assert(before.pending == Some(sub));
            assert(kept + seq![sub] =~= kept.push(sub) + Seq::empty());
        }
        if let LoopEvent::Ordinary(Some(sub)) = events.last() {
            assert(after.pending == Some(sub));
            assert(before.pending is None);
            assert((kept + Seq::empty()).push(sub) =~= kept + seq![sub]);
        }
    }
}

/// While a shutdown runs, only answers to elicitations are still dispatched.
pub proof fn law_shutdown_serves_only_elicitations<P>(state: LoopState<P>, event: LoopEvent<P>)
    requires
        state.phase is ShuttingDown || state.phase is ServingControl,
        loop_next(state, event) is Some,
    ensures
        ({
            let (after, action) = loop_next(state, event)->Some_0;
            &&& action matches LoopAction::Dispatch { sub, with_admission } ==> sub.op
                is ResolveElicitation && !with_admission
            &&& !(action is StartShutdown)
            &&& after.phase is ShuttingDown || after.phase is ServingControl || event
                is ShutdownFinished
        }),
{
}

/// Whether the session was torn down.
pub open spec fn tore_down<P>(actions: Seq<LoopAction<P>>) -> bool {
    exists|i: int| 0 <= i < actions.len() && #[trigger] actions[i] is TearDown
}

proof fn lemma_tore_down_push<P>(actions: Seq<LoopAction<P>>, action: LoopAction<P>)
    ensures
        tore_down(actions.push(action)) <==> tore_down(actions) || action is TearDown,
{
    let all = actions.push(action);
    if tore_down(actions) {
        let i = choose|i: int| 0 <= i < actions.len() && #[trigger] actions[i] is TearDown;
        assert(all[i] is TearDown);
    }
    if tore_down(all) {
        let i = choose|i: int| 0 <= i < all.len() && #[trigger] all[i] is TearDown;
        if i < actions.len() {
            assert(actions[i] is TearDown);
        }
    }
    assert(all[actions.len() as int] == action);
}

/// A loop that has ended has either run a shutdown or torn the session down, never both; and
/// before it ends it has done neither.
pub proof fn law_loop_ends_after_exactly_one_teardown<P>(events: Seq<LoopEvent<P>>)
    requires
        loop_run(events) is Some,
    ensures
        ({
            let (state, actions) = loop_run(events)->Some_0;
            &&& state.phase is Ended ==> (state.shutdown_received <==> !tore_down(actions))
            &&& state.phase is TearingDown ==> !state.shutdown_received && tore_down(actions)
            &&& !(state.phase is Ended || state.phase is TearingDown)
                ==> !state.shutdown_received && !tore_down(actions)
        }),
    decreases events.len(),
{
    if events.len() > 0 {
        let head = events.drop_last();
        law_loop_ends_after_exactly_one_teardown(head);
        let (before, done) = loop_run(head)->Some_0;
        let (after, action) = loop_next(before, events.last())->Some_0;
        lemma_tore_down_push(done, action);
    }
}

proof fn lemma_loop_step<P>(
    events: Seq<LoopEvent<P>>,
    event: LoopEvent<P>,
)
    requires
        loop_run(events) is Some,
        loop_next(loop_run(events)->Some_0.0, event) is Some,
    ensures
        ({
            let (state, actions) = loop_run(events)->Some_0;
            let (next, action) = loop_next(state, event)->Some_0;
            loop_run(events.push(event)) == Some((next, actions.push(action)))
        }),
{
    assert(events.push(event).drop_last() =~= events);
}

/// An ordinary submission waits for the admission and is dispatched under it; unless it is a
/// shutdown that asks the loop to end, the loop goes round.
pub proof fn law_ordinary_submission_is_dispatched_under_admission<P>(
    sub: Submission<P>,
    exit: bool,
)
    requires
        !(sub.op is Shutdown) || !exit,
    ensures
        ({
            let events: Seq<LoopEvent<P>> = seq![
                LoopEvent::Ordinary(Some(sub)),
                LoopEvent::Admitted,
                LoopEvent::Dispatched { exit: exit },
            ];
            let run = loop_run(events);
            &&& run is Some
            &&& run->Some_0.1 == seq![
                LoopAction::<P>::Receive { control: true, ordinary: true },
                LoopAction::<P>::AwaitAdmission { control: true },
                LoopAction::<P>::Dispatch { sub: sub, with_admission: true },
                LoopAction::<P>::Receive { control: true, ordinary: true },
            ]
        }),
{
    let e0 = Seq::<LoopEvent<P>>::empty();
    lemma_loop_step(e0, LoopEvent::Ordinary(Some(sub)));
    let e1 = e0.push(LoopEvent::Ordinary(Some(sub)));
    lemma_loop_step(e1, LoopEvent::Admitted);
    let e2 = e1.push(LoopEvent::Admitted);
    lemma_loop_step(e2, LoopEvent::Dispatched { exit: exit });
    let e3 = e2.push(LoopEvent::Dispatched { exit: exit });
    assert(e3 =~= seq![
        LoopEvent::Ordinary(Some(sub)),
        LoopEvent::Admitted,
        LoopEvent::Dispatched { exit: exit },
    ]);
    assert(loop_run(e3)->Some_0.1 =~= seq![
        LoopAction::<P>::Receive { control: true, ordinary: true },
        LoopAction::<P>::AwaitAdmission { control: true },
        LoopAction::<P>::Dispatch { sub: sub, with_admission: true },
        LoopAction::<P>::Receive { control: true, ordinary: true },
    ]);
}

/// A shutdown that came among the ordinary submissions ends the loop without a further teardown.
pub proof fn law_ordinary_shutdown_ends_the_loop<P>(
    sub: Submission<P>,
)
    requires
        sub.op is Shutdown,
    ensures
        ({
            let events: Seq<LoopEvent<P>> = seq![
                LoopEvent::Ordinary(Some(sub)),
                LoopEvent::Admitted,
                LoopEvent::Dispatched { exit: true },
            ];
            let run = loop_run(events);
            &&& run is Some
            &&& run->Some_0.1 == seq![
                LoopAction::<P>::Receive { control: true, ordinary: true },
                LoopAction::<P>::AwaitAdmission { control: true },
                LoopAction::<P>::Dispatch { sub: sub, with_admission: true },
                LoopAction::<P>::Exit,
            ]
        }),
{
    let e0 = Seq::<LoopEvent<P>>::empty();
    lemma_loop_step(e0, LoopEvent::Ordinary(Some(sub)));
    let e1 = e0.push(LoopEvent::Ordinary(Some(sub)));
    lemma_loop_step(e1, LoopEvent::Admitted);
    let e2 = e1.push(LoopEvent::Admitted);
    lemma_loop_step(e2, LoopEvent::Dispatched { exit: true });
    let e3 = e2.push(LoopEvent::Dispatched { exit: true });
    assert(e3 =~= seq![
        LoopEvent::Ordinary(Some(sub)),
        LoopEvent::Admitted,
        LoopEvent::Dispatched { exit: true },
    ]);
    assert(loop_run(e3)->Some_0.1 =~= seq![
        LoopAction::<P>::Receive { control: true, ordinary: true },
        LoopAction::<P>::AwaitAdmission { control: true },
        LoopAction::<P>::Dispatch { sub: sub, with_admission: true },
        LoopAction::<P>::Exit,
    ]);
}

/// A control submission is dispatched without an admission, also while an ordinary one waits for
/// its own, which is dispatched afterwards.
pub proof fn law_control_submission_is_dispatched_at_once<P>(
    sub: Submission<P>,
    waiting: Submission<P>,
    exit: bool,
)
    requires
        !(sub.op is Shutdown),
    ensures
        ({
            let events: Seq<LoopEvent<P>> = seq![
                LoopEvent::Control(Some(sub)),
                LoopEvent::Dispatched { exit: exit },
            ];
            let run = loop_run(events);
            &&& run is Some
            &&& run->Some_0.1 == seq![
                LoopAction::<P>::Receive { control: true, ordinary: true },
                LoopAction::<P>::Dispatch { sub: sub, with_admission: false },
                LoopAction::<P>::Receive { control: true, ordinary: true },
            ]
        }),
        ({
            let events: Seq<LoopEvent<P>> = seq![
                LoopEvent::Ordinary(Some(waiting)),
                LoopEvent::Control(Some(sub)),
                LoopEvent::Dispatched { exit: exit },
                LoopEvent::Admitted,
            ];
            let run = loop_run(events);
            &&& run is Some
            &&& run->Some_0.1 == seq![
                LoopAction::<P>::Receive { control: true, ordinary: true },
                LoopAction::<P>::AwaitAdmission { control: true },
                LoopAction::<P>::Dispatch { sub: sub, with_admission: false },
                LoopAction::<P>::AwaitAdmission { control: true },
                LoopAction::<P>::Dispatch { sub: waiting, with_admission: true },
            ]
        }),
{
    let e0 = Seq::<LoopEvent<P>>::empty();
    lemma_loop_step(e0, LoopEvent::Control(Some(sub)));
    let e1 = e0.push(LoopEvent::Control(Some(sub)));
    lemma_loop_step(e1, LoopEvent::Dispatched { exit: exit });
    let e2 = e1.push(LoopEvent::Dispatched { exit: exit });
    assert(e2 =~= seq![LoopEvent::Control(Some(sub)), LoopEvent::Dispatched { exit: exit }]);
    assert(loop_run(e2)->Some_0.1 =~= seq![
        LoopAction::<P>::Receive { control: true, ordinary: true },
        LoopAction::<P>::Dispatch { sub: sub, with_admission: false },
        LoopAction::<P>::Receive { control: true, ordinary: true },
    ]);
    lemma_loop_step(e0, LoopEvent::Ordinary(Some(waiting)));
    let e3 = e0.push(LoopEvent::Ordinary(Some(waiting)));
    lemma_loop_step(e3, LoopEvent::Control(Some(sub)));
    let e4 = e3.push(LoopEvent::Control(Some(sub)));
    lemma_loop_step(e4, LoopEvent::Dispatched { exit: exit });
    let e5 = e4.push(LoopEvent::Dispatched { exit: exit });
    lemma_loop_step(e5, LoopEvent::Admitted);
    let e6 = e5.push(LoopEvent::Admitted);
    assert(e6 =~= seq![
        LoopEvent::Ordinary(Some(waiting)),
        LoopEvent::Control(Some(sub)),
        LoopEvent::Dispatched { exit: exit },
        LoopEvent::Admitted,
    ]);
    assert(loop_run(e6)->Some_0.1 =~= seq![
        LoopAction::<P>::Receive { control: true, ordinary: true },
        LoopAction::<P>::AwaitAdmission { control: true },
        LoopAction::<P>::Dispatch { sub: sub, with_admission: false },
        LoopAction::<P>::AwaitAdmission { control: true },
        LoopAction::<P>::Dispatch { sub: waiting, with_admission: true },
    ]);
}

/// A shutdown that came as control is started at once, and the loop ends with it. One that does
/// not go through leaves a waiting submission its turn; without one the session is torn down.
pub proof fn law_control_shutdown_runs_beside_control<P>(
    sub: Submission<P>,
    waiting: Submission<P>,
)
    requires
        sub.op is Shutdown,
    ensures
        ({
            let events: Seq<LoopEvent<P>> = seq![
                LoopEvent::Control(Some(sub)),
                LoopEvent::ShutdownFinished { exit: true },
            ];
            let run = loop_run(events);
            &&& run is Some
            &&& run->Some_0.1 == seq![
                LoopAction::<P>::Receive { control: true, ordinary: true },
                LoopAction::<P>::StartShutdown { sub },
                LoopAction::<P>::Exit,
            ]
        }),
        ({
            let events: Seq<LoopEvent<P>> = seq![
                LoopEvent::Control(Some(sub)),
                LoopEvent::ShutdownFinished { exit: false },
                LoopEvent::TornDown,
            ];
            let run = loop_run(events);
            &&& run is Some
            &&& run->Some_0.1 == seq![
                LoopAction::<P>::Receive { control: true, ordinary: true },
                LoopAction::<P>::StartShutdown { sub },
                LoopAction::<P>::TearDown,
                LoopAction::<P>::Exit,
            ]
        }),
        ({
            let events: Seq<LoopEvent<P>> = seq![
                LoopEvent::Ordinary(Some(waiting)),
                LoopEvent::Control(Some(sub)),
                LoopEvent::ShutdownFinished { exit: true },
            ];
            let run = loop_run(events);
            &&& run is Some
            &&& run->Some_0.1 == seq![
                LoopAction::<P>::Receive { control: true, ordinary: true },
                LoopAction::<P>::AwaitAdmission { control: true },
                LoopAction::<P>::StartShutdown { sub },
                LoopAction::<P>::Exit,
            ]
        }),
        ({
            let events: Seq<LoopEvent<P>> = seq![
                LoopEvent::Ordinary(Some(waiting)),
                LoopEvent::Control(Some(sub)),
                LoopEvent::ShutdownFinished { exit: false },
                LoopEvent::Admitted,
            ];
            let run = loop_run(events);
            &&& run is Some
            &&& run->Some_0.1 == seq![
                LoopAction::<P>::Receive { control: true, ordinary: true },
                LoopAction::<P>::AwaitAdmission { control: true },
                LoopAction::<P>::StartShutdown { sub },
                LoopAction::<P>::AwaitAdmission { control: true },
                LoopAction::<P>::Dispatch { sub: waiting, with_admission: true },
            ]
        }),
{
    let e0 = Seq::<LoopEvent<P>>::empty();
    lemma_loop_step(e0, LoopEvent::Control(Some(sub)));
    let e1 = e0.push(LoopEvent::Control(Some(sub)));
    lemma_loop_step(e1, LoopEvent::ShutdownFinished { exit: true });
    let e2 = e1.push(LoopEvent::ShutdownFinished { exit: true });
    assert(e2 =~= seq![LoopEvent::Control(Some(sub)), LoopEvent::ShutdownFinished { exit: true }]);
    assert(loop_run(e2)->Some_0.1 =~= seq![
        LoopAction::<P>::Receive { control: true, ordinary: true },
        LoopAction::<P>::StartShutdown { sub },
        LoopAction::<P>::Exit,
    ]);
    lemma_loop_step(e1, LoopEvent::ShutdownFinished { exit: false });
    let e3 = e1.push(LoopEvent::ShutdownFinished { exit: false });
    lemma_loop_step(e3, LoopEvent::TornDown);
    let e4 = e3.push(LoopEvent::TornDown);
    assert(e4 =~= seq![
        LoopEvent::Control(Some(sub)),
        LoopEvent::ShutdownFinished { exit: false },
        LoopEvent::TornDown,
    ]);
    assert(loop_run(e4)->Some_0.1 =~= seq![
        LoopAction::<P>::Receive { control: true, ordinary: true },
        LoopAction::<P>::StartShutdown { sub },
        LoopAction::<P>::TearDown,
        LoopAction::<P>::Exit,
    ]);
    lemma_loop_step(e0, LoopEvent::Ordinary(Some(waiting)));
    let e5 = e0.push(LoopEvent::Ordinary(Some(waiting)));
    lemma_loop_step(e5, LoopEvent::Control(Some(sub)));
    let e6 = e5.push(LoopEvent::Control(Some(sub)));
    lemma_loop_step(e6, LoopEvent::ShutdownFinished { exit: true });
    let e7 = e6.push(LoopEvent::ShutdownFinished { exit: true });
    assert(e7 =~= seq![
        LoopEvent::Ordinary(Some(waiting)),
        LoopEvent::Control(Some(sub)),
        LoopEvent::ShutdownFinished { exit: true },
    ]);
    assert(loop_run(e7)->Some_0.1 =~= seq![
        LoopAction::<P>::Receive { control: true, ordinary: true },
        LoopAction::<P>::AwaitAdmission { control: true },
        LoopAction::<P>::StartShutdown { sub },
        LoopAction::<P>::Exit,
    ]);
    lemma_loop_step(e6, LoopEvent::ShutdownFinished { exit: false });
    let e8 = e6.push(LoopEvent::ShutdownFinished { exit: false });
    lemma_loop_step(e8, LoopEvent::Admitted);
    let e9 = e8.push(LoopEvent::Admitted);
    assert(e9 =~= seq![
        LoopEvent::Ordinary(Some(waiting)),
        LoopEvent::Control(Some(sub)),
        LoopEvent::ShutdownFinished { exit: false },
        LoopEvent::Admitted,
    ]);
    assert(loop_run(e9)->Some_0.1 =~= seq![
        LoopAction::<P>::Receive { control: true, ordinary: true },
        LoopAction::<P>::AwaitAdmission { control: true },
        LoopAction::<P>::StartShutdown { sub },
        LoopAction::<P>::AwaitAdmission { control: true },
        LoopAction::<P>::Dispatch { sub: waiting, with_admission: true },
    ]);
}

/// While a shutdown runs an answer to an elicitation is dispatched; other control is passed over,
/// and a closed control channel is not asked again.
pub proof fn law_elicitations_are_answered_during_a_shutdown<P>(
    sub: Submission<P>,
    answer: Submission<P>,
    other: Submission<P>,
    exit: bool,
)
    requires
        sub.op is Shutdown,
        answer.op is ResolveElicitation,
        !(other.op is ResolveElicitation),
    ensures
        ({
            let events: Seq<LoopEvent<P>> = seq![
                LoopEvent::Control(Some(sub)),
                LoopEvent::Control(Some(answer)),
                LoopEvent::Dispatched { exit: exit },
                LoopEvent::ShutdownFinished { exit: true },
            ];
            let run = loop_run(events);
            &&& run is Some
            &&& run->Some_0.1 == seq![
                LoopAction::<P>::Receive { control: true, ordinary: true },
                LoopAction::<P>::StartShutdown { sub },
                LoopAction::<P>::Dispatch { sub: answer, with_admission: false },
                LoopAction::<P>::AwaitShutdown { control: true },
                LoopAction::<P>::Exit,
            ]
        }),
        ({
            let events: Seq<LoopEvent<P>> = seq![
                LoopEvent::Control(Some(sub)),
                LoopEvent::Control(Some(other)),
                LoopEvent::ShutdownFinished { exit: true },
            ];
            let run = loop_run(events);
            &&& run is Some
            &&& run->Some_0.1 == seq![
                LoopAction::<P>::Receive { control: true, ordinary: true },
                LoopAction::<P>::StartShutdown { sub },
                LoopAction::<P>::AwaitShutdown { control: true },
                LoopAction::<P>::Exit,
            ]
        }),
        ({
            let events: Seq<LoopEvent<P>> = seq![
                LoopEvent::Control(Some(sub)),
                LoopEvent::Control(None),
                LoopEvent::ShutdownFinished { exit: true },
            ];
            let run = loop_run(events);
            &&& run is Some
            &&& run->Some_0.1 == seq![
                LoopAction::<P>::Receive { control: true, ordinary: true },
                LoopAction::<P>::StartShutdown { sub },
                LoopAction::<P>::AwaitShutdown { control: false },
                LoopAction::<P>::Exit,
            ]
        }),
{
    let e0 = Seq::<LoopEvent<P>>::empty();
    lemma_loop_step(e0, LoopEvent::Control(Some(sub)));
    let e1 = e0.push(LoopEvent::Control(Some(sub)));
    lemma_loop_step(e1, LoopEvent::Control(Some(answer)));
    let e2 = e1.push(LoopEvent::Control(Some(answer)));
    lemma_loop_step(e2, LoopEvent::Dispatched { exit: exit });
    let e3 = e2.push(LoopEvent::Dispatched { exit: exit });
    lemma_loop_step(e3, LoopEvent::ShutdownFinished { exit: true });
    let e4 = e3.push(LoopEvent::ShutdownFinished { exit: true });
    assert(e4 =~= seq![
        LoopEvent::Control(Some(sub)),
        LoopEvent::Control(Some(answer)),
        LoopEvent::Dispatched { exit: exit },
        LoopEvent::ShutdownFinished { exit: true },
    ]);
    assert(loop_run(e4)->Some_0.1 =~= seq![
        LoopAction::<P>::Receive { control: true, ordinary: true },
        LoopAction::<P>::StartShutdown { sub },
        LoopAction::<P>::Dispatch { sub: answer, with_admission: false },
        LoopAction::<P>::AwaitShutdown { control: true },
        LoopAction::<P>::Exit,
    ]);
    lemma_loop_step(e1, LoopEvent::Control(Some(other)));
    let e5 = e1.push(LoopEvent::Control(Some(other)));
    lemma_loop_step(e5, LoopEvent::ShutdownFinished { exit: true });
    let e6 = e5.push(LoopEvent::ShutdownFinished { exit: true });
    assert(e6 =~= seq![
        LoopEvent::Control(Some(sub)),
        LoopEvent::Control(Some(other)),
        LoopEvent::ShutdownFinished { exit: true },
    ]);
    assert(loop_run(e6)->Some_0.1 =~= seq![
        LoopAction::<P>::Receive { control: true, ordinary: true },
        LoopAction::<P>::StartShutdown { sub },
        LoopAction::<P>::AwaitShutdown { control: true },
        LoopAction::<P>::Exit,
    ]);
    lemma_loop_step(e1, LoopEvent::Control(None));
    let e7 = e1.push(LoopEvent::Control(None));
    lemma_loop_step(e7, LoopEvent::ShutdownFinished { exit: true });
    let e8 = e7.push(LoopEvent::ShutdownFinished { exit: true });
    assert(e8 =~= seq![
        LoopEvent::Control(Some(sub)),
        LoopEvent::Control(None),
        LoopEvent::ShutdownFinished { exit: true },
    ]);
    assert(loop_run(e8)->Some_0.1 =~= seq![
        LoopAction::<P>::Receive { control: true, ordinary: true },
        LoopAction::<P>::StartShutdown { sub },
        LoopAction::<P>::AwaitShutdown { control: false },
        LoopAction::<P>::Exit,
    ]);
}

/// A closed channel is not asked again, what waits is still dispatched, and once both are closed
/// the session is torn down.
pub proof fn law_closed_channels_end_the_loop<P>(
    sub: Submission<P>,
)
    ensures
        ({
            let events: Seq<LoopEvent<P>> = seq![
                LoopEvent::Ordinary(None),
                LoopEvent::Control(None),
                LoopEvent::TornDown,
            ];
            let run = loop_run(events);
            &&& run is Some
            &&& run->Some_0.1 == seq![
                LoopAction::<P>::Receive { control: true, ordinary: true },
                LoopAction::<P>::Receive { control: true, ordinary: false },
                LoopAction::<P>::TearDown,
                LoopAction::<P>::Exit,
            ]
        }),
        ({
            let events: Seq<LoopEvent<P>> = seq![
                LoopEvent::Control(None),
                LoopEvent::Ordinary(None),
                LoopEvent::TornDown,
            ];
            let run = loop_run(events);
            &&& run is Some
            &&& run->Some_0.1 == seq![
                LoopAction::<P>::Receive { control: true, ordinary: true },
                LoopAction::<P>::Receive { control: false, ordinary: true },
                LoopAction::<P>::TearDown,
                LoopAction::<P>::Exit,
            ]
        }),
        ({
            let events: Seq<LoopEvent<P>> = seq![
                LoopEvent::Ordinary(Some(sub)),
                LoopEvent::Control(None),
                LoopEvent::Admitted,
            ];
            let run = loop_run(events);
            &&& run is Some
            &&& run->Some_0.1 == seq![
                LoopAction::<P>::Receive { control: true, ordinary: true },
                LoopAction::<P>::AwaitAdmission { control: true },
                LoopAction::<P>::AwaitAdmission { control: false },
                LoopAction::<P>::Dispatch { sub: sub, with_admission: true },
            ]
        }),
{
    let e0 = Seq::<LoopEvent<P>>::empty();
    lemma_loop_step(e0, LoopEvent::Ordinary(None));
    let e1 = e0.push(LoopEvent::Ordinary(None));
    lemma_loop_step(e1, LoopEvent::Control(None));
    let e2 = e1.push(LoopEvent::Control(None));
    lemma_loop_step(e2, LoopEvent::TornDown);
    let e3 = e2.push(LoopEvent::TornDown);
    assert(e3 =~= seq![LoopEvent::Ordinary(None), LoopEvent::Control(None), LoopEvent::TornDown]);
    assert(loop_run(e3)->Some_0.1 =~= seq![
        LoopAction::<P>::Receive { control: true, ordinary: true },
        LoopAction::<P>::Receive { control: true, ordinary: false },
        LoopAction::<P>::TearDown,
        LoopAction::<P>::Exit,
    ]);
    lemma_loop_step(e0, LoopEvent::Control(None));
    let e4 = e0.push(LoopEvent::Control(None));
    lemma_loop_step(e4, LoopEvent::Ordinary(None));
    let e5 = e4.push(LoopEvent::Ordinary(None));
    lemma_loop_step(e5, LoopEvent::TornDown);
    let e6 = e5.push(LoopEvent::TornDown);
    assert(e6 =~= seq![LoopEvent::Control(None), LoopEvent::Ordinary(None), LoopEvent::TornDown]);
    assert(loop_run(e6)->Some_0.1 =~= seq![
        LoopAction::<P>::Receive { control: true, ordinary: true },
        LoopAction::<P>::Receive { control: false, ordinary: true },
        LoopAction::<P>::TearDown,
        LoopAction::<P>::Exit,
    ]);
    lemma_loop_step(e0, LoopEvent::Ordinary(Some(sub)));
    let e7 = e0.push(LoopEvent::Ordinary(Some(sub)));
    lemma_loop_step(e7, LoopEvent::Control(None));
    let e8 = e7.push(LoopEvent::Control(None));
    lemma_loop_step(e8, LoopEvent::Admitted);
    let e9 = e8.push(LoopEvent::Admitted);
    assert(
        e9 =~= seq![LoopEvent::Ordinary(Some(sub)), LoopEvent::Control(None), LoopEvent::Admitted]
    );
    assert(loop_run(e9)->Some_0.1 =~= seq![
        LoopAction::<P>::Receive { control: true, ordinary: true },
        LoopAction::<P>::AwaitAdmission { control: true },
        LoopAction::<P>::AwaitAdmission { control: false },
        LoopAction::<P>::Dispatch { sub: sub, with_admission: true },
    ]);
}

/// The loop takes an event exactly where it waits for one of that kind, and none when it has
/// ended.
pub proof fn law_loop_takes_only_awaited_events<P>(state: LoopState<P>, event: LoopEvent<P>)
    ensures
        loop_next(state, event) is Some <==> {
            ||| state.phase is Receiving && event is Control && state.control_open
            ||| state.phase is Receiving && event is Ordinary && state.ordinary_open
                && state.pending is None
            ||| state.phase is Admitting && event is Control && state.control_open
            ||| state.phase is Admitting && event is Admitted
            ||| state.phase is DispatchingControl && event is Dispatched
            ||| state.phase is DispatchingOrdinary && event is Dispatched
            ||| state.phase is ShuttingDown && event is ShutdownFinished
            ||| state.phase is ShuttingDown && state.phase->ShuttingDown_serving && event
                is Control
            ||| state.phase is ServingControl && event is Dispatched
            ||| state.phase is TearingDown && event is TornDown
        },
{
}

/// Wherever the loop stands, a channel stays open until it says that it is closed, and what the
/// loop then waits for are the open channels. It is left only by a shutdown or when nothing can
/// come in any more.
pub proof fn law_loop_listens_to_its_open_channels<P>(state: LoopState<P>, event: LoopEvent<P>)
    requires
        loop_next(state, event) is Some,
    ensures
        ({
            let (after, action) = loop_next(state, event)->Some_0;
            &&& after.ordinary_open == (state.ordinary_open && event != LoopEvent::<P>::Ordinary(
                None,
            ))
            &&& after.control_open == (state.control_open && (event != LoopEvent::<P>::Control(
                None,
            ) || state.phase is ShuttingDown))
            &&& after.shutdown_received == (state.shutdown_received || match event {
                LoopEvent::ShutdownFinished { exit } => exit,
                LoopEvent::Dispatched { exit } => exit && (
                state.phase matches LoopPhase::DispatchingOrdinary { shutdown } && shutdown),
                _ => false,
            })
            &&& after.pending == match event {
                LoopEvent::Ordinary(Some(sub)) => Some(sub),
                LoopEvent::Admitted => None,
                _ => state.pending,
            }
            &&& match action {
                LoopAction::Receive { control, ordinary } => {
                    &&& after.phase is Receiving
                    &&& after.pending is None
                    &&& control == after.control_open
                    &&& ordinary == after.ordinary_open
                    &&& control || ordinary
                },
                LoopAction::AwaitAdmission { control } => {
                    &&& after.phase is Admitting
                    &&& control == after.control_open
                },
                LoopAction::Dispatch { sub, with_admission } => if with_admission {
                    &&& event is Admitted
                    &&& state.pending == Some(sub)
                    &&& after.phase == (LoopPhase::DispatchingOrdinary {
                        shutdown: sub.op is Shutdown,
                    })
                } else {
                    &&& event == LoopEvent::Control(Some(sub))
                    &&& !(sub.op is Shutdown)
                    &&& after.phase == match state.phase {
                        LoopPhase::ShuttingDown { admitting, .. } => LoopPhase::ServingControl {
                            admitting,
                        },
                        phase => LoopPhase::DispatchingControl { admitting: phase is Admitting },
                    }
                },
                LoopAction::StartShutdown { sub } => {
                    &&& event == LoopEvent::Control(Some(sub))
                    &&& sub.op is Shutdown
                    &&& after.phase == (LoopPhase::ShuttingDown {
                        admitting: state.phase is Admitting,
                        serving: true,
                    })
                },
                LoopAction::AwaitShutdown { control } => after.phase is ShuttingDown
                    && after.phase->ShuttingDown_serving == control && control == (event
                    != LoopEvent::<P>::Control(None)),
                LoopAction::TearDown => {
                    &&& after.phase is TearingDown
                    &&& !after.shutdown_received
                    &&& event is ShutdownFinished || !after.ordinary_open && !after.control_open
                        && after.pending is None
                },
                LoopAction::Exit => after.phase is Ended && (state.phase is TearingDown
                    || after.shutdown_received),
            }
        }),
{
}

/// The loop begins as its run does.
pub proof fn law_loop_begins_as_its_run_does<P>(
    res: (LoopState<P>, LoopAction<P>),
)
    requires
        call_ensures(start_loop::<P>, (), res),
    ensures
        loop_run(Seq::<LoopEvent<P>>::empty()) == Some((res.0, seq![res.1])),
{
}

/// The loop that takes a step goes on as its run does, with all that it asked for before; an
/// answer that it does not wait for is handed back, and nothing has changed.
pub proof fn law_loop_goes_on_as_its_run_does<P>(
    events: Seq<LoopEvent<P>>,
    state: LoopState<P>,
    actions: Seq<LoopAction<P>>,
    event: LoopEvent<P>,
    res: Result<(LoopState<P>, LoopAction<P>), (LoopState<P>, LoopEvent<P>)>,
)
    requires
        loop_run(events) == Some((state, actions)),
        call_ensures(step_loop::<P>, (state, event), res),
    ensures
        match res {
            Ok((next, action)) => loop_run(events.push(event)) == Some(
                (next, actions.push(action)),
            ),
            Err(back) => back == (state, event) && loop_run(events.push(event)) is None,
        },
{
    assert(events.push(event).drop_last() =~= events);
}

} // verus!
