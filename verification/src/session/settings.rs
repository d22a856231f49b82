//! Changing the settings of a thread.
use crate::errors::CodexErrorInfo;
use crate::errors::Reason;
use crate::protocol::Event;
use crate::protocol::EventMsg;
use crate::session::input_queue::ActiveTurn;
use crate::text::option_text;
use vstd::prelude::*;

verus! {

/// The settings that a turn is executed with.
#[derive(Clone, Debug, PartialEq, Eq)]
pub struct ExecutionSettings {
    pub model: String,
    pub reasoning_effort: Option<String>,
    pub service_tier: Option<String>,
}

impl ExecutionSettings {
    /// Whether two settings execute a turn alike.
    pub open spec fn same(self, other: ExecutionSettings) -> bool {
        &&& self.model@ == other.model@
        &&& option_text(self.reasoning_effort) == option_text(other.reasoning_effort)
        &&& option_text(self.service_tier) == option_text(other.service_tier)
    }

    /// Whether two settings execute a turn alike.
    pub fn is_same(&self, other: &ExecutionSettings) -> (res: bool)
        ensures
            res == self.same(*other),
    {
        self.model == other.model && same_option(&self.reasoning_effort, &other.reasoning_effort)
            && same_option(&self.service_tier, &other.service_tier)
    }
}

fn same_option(a: &Option<String>, b: &Option<String>) -> (res: bool)
    ensures
        res == (option_text(*a) == option_text(*b)),
{
    match (a, b) {
        (Some(a), Some(b)) => *a == *b,
        (None, None) => true,
        _ => false,
    }
}

/// Settings that a client overrides. `P` stands for what is only handed on.
#[derive(Clone, Debug, PartialEq, Eq)]
pub struct ThreadSettingsOverrides<P> {
    pub environments: Option<P>,
    pub profile_workspace_roots: Option<P>,
    pub approval_policy: Option<P>,
    pub approvals_reviewer: Option<P>,
    pub sandbox_policy: Option<P>,
    pub permission_profile: Option<P>,
    pub active_permission_profile: Option<P>,
    pub windows_sandbox_level: Option<P>,
    pub model: Option<P>,
    pub effort: Option<P>,
    pub summary: Option<P>,
    pub service_tier: Option<P>,
    pub collaboration_mode: Option<P>,
    pub personality: Option<P>,
}

/// A change of the session's settings.
#[derive(Clone, Debug, PartialEq, Eq)]
pub struct SessionSettingsUpdate<P> {
    pub environments: Option<P>,
    pub profile_workspace_roots: Option<P>,
    pub approval_policy: Option<P>,
    pub approvals_reviewer: Option<P>,
    pub sandbox_policy: Option<P>,
    pub permission_profile: Option<P>,
    pub active_permission_profile: Option<P>,
    pub windows_sandbox_level: Option<P>,
    pub collaboration_mode: Option<P>,
    pub reasoning_summary: Option<P>,
    pub service_tier: Option<P>,
    pub personality: Option<P>,
}

impl<P> ThreadSettingsOverrides<P> {
    /// Whether nothing is overridden.
    pub open spec fn is_default(self) -> bool {
        &&& self.environments is None
        &&& self.profile_workspace_roots is None
        &&& self.approval_policy is None
        &&& self.approvals_reviewer is None
        &&& self.sandbox_policy is None
        &&& self.permission_profile is None
        &&& self.active_permission_profile is None
        &&& self.windows_sandbox_level is None
        &&& self.model is None
        &&& self.effort is None
        &&& self.summary is None
        &&& self.service_tier is None
        &&& self.collaboration_mode is None
        &&& self.personality is None
    }

    /// Whether anything is overridden.
    pub fn overrides_anything(&self) -> (res: bool)
        ensures
            res == !self.is_default(),
    {
        self.environments.is_some() || self.profile_workspace_roots.is_some()
            || self.approval_policy.is_some() || self.approvals_reviewer.is_some()
            || self.sandbox_policy.is_some() || self.permission_profile.is_some()
            || self.active_permission_profile.is_some() || self.windows_sandbox_level.is_some()
            || self.model.is_some() || self.effort.is_some() || self.summary.is_some()
            || self.service_tier.is_some() || self.collaboration_mode.is_some()
            || self.personality.is_some()
    }
}

/// The change that overrides ask for. Model and effort belong to the collaboration mode: without
/// a mode of its own an override refreshes them in the active mode, which `refreshed_mode` is.
pub fn thread_settings_update<P>(
    thread_settings: ThreadSettingsOverrides<P>,
    refreshed_mode: P,
) -> (res: SessionSettingsUpdate<P>)
    ensures
        res == (SessionSettingsUpdate {
            environments: thread_settings.environments,
            profile_workspace_roots: thread_settings.profile_workspace_roots,
            approval_policy: thread_settings.approval_policy,
            approvals_reviewer: thread_settings.approvals_reviewer,
            sandbox_policy: thread_settings.sandbox_policy,
            permission_profile: thread_settings.permission_profile,
            active_permission_profile: thread_settings.active_permission_profile,
            windows_sandbox_level: thread_settings.windows_sandbox_level,
            collaboration_mode: match thread_settings.collaboration_mode {
                Some(mode) => Some(mode),
                None => Some(refreshed_mode),
            },
            reasoning_summary: thread_settings.summary,
            service_tier: thread_settings.service_tier,
            personality: thread_settings.personality,
        }),
{
    let collaboration_mode: P = match thread_settings.collaboration_mode {
        Some(mode) => mode,
        None => refreshed_mode,
    };
    SessionSettingsUpdate {
        environments: thread_settings.environments,
        profile_workspace_roots: thread_settings.profile_workspace_roots,
        approval_policy: thread_settings.approval_policy,
        approvals_reviewer: thread_settings.approvals_reviewer,
        sandbox_policy: thread_settings.sandbox_policy,
        permission_profile: thread_settings.permission_profile,
        active_permission_profile: thread_settings.active_permission_profile,
        windows_sandbox_level: thread_settings.windows_sandbox_level,
        collaboration_mode: Some(collaboration_mode),
        reasoning_summary: thread_settings.summary,
        service_tier: thread_settings.service_tier,
        personality: thread_settings.personality,
    }
}

/// Asks the active turn, if there is one, to take its execution settings anew.
pub fn request_execution_settings_refresh(active: &mut Option<ActiveTurn>)
    ensures
        old(active).is_none() ==> final(active).is_none(),
        old(active).is_some() ==> *final(active) == Some(
            ActiveTurn {
                execution_settings_refresh_requested: true,
                ..old(active)->Some_0
            },
        ),
{
    if let Some(turn) = active {
        turn.execution_settings_refresh_requested = true;
    }
}

/// How far a change has come. Each state names what it waits for.
#[derive(Debug, PartialEq, Eq)]
pub enum SettingsState {
    Admission { sub_id: String },
    Before { sub_id: String },
    Update { sub_id: String, before: ExecutionSettings },
    After { sub_id: String, before: ExecutionSettings },
    Refresh { sub_id: String },
    Done,
}

/// What has come back.
#[derive(Debug, PartialEq, Eq)]
pub enum SettingsEvent {
    Admitted(bool),
    Execution(ExecutionSettings),
    Updated(Result<(), String>),
    Refreshed,
}

/// What to do next.
#[derive(Debug, PartialEq, Eq)]
pub enum SettingsAction {
    AcquireAdmission,
    ReadExecutionSettings,
    UpdateSettings,
    /// Ask the active turn to refresh, and restart the helper that watches over the goal.
    RefreshTurnAndHelper,
    /// Report the settings that now hold, without bringing the rollout into being.
    ReportApplied { sub_id: String },
    /// Report the refusal; the report is saved with the thread.
    Refuse(Event),
    /// Report the refusal without saving the report.
    RefuseUnsaved(Event),
}

/// The next step, nothing where `event` does not answer what `state` waits for.
pub open spec fn settings_next(state: SettingsState, event: SettingsEvent) -> Option<
    (SettingsState, SettingsAction),
> {
    match (state, event) {
        (SettingsState::Admission { sub_id }, SettingsEvent::Admitted(admitted)) => Some(
            if admitted {
                (SettingsState::Before { sub_id }, SettingsAction::ReadExecutionSettings)
            } else {
                (
                    SettingsState::Done,
                    SettingsAction::RefuseUnsaved(
                        Event {
                            id: sub_id,
                            msg: EventMsg::Error {
                                reason: Reason::RestartBeforeSettings,
                                info: CodexErrorInfo::Other,
                            },
                        },
                    ),
                )
            },
        ),
        (SettingsState::Before { sub_id }, SettingsEvent::Execution(before)) => Some(
            (SettingsState::Update { sub_id, before }, SettingsAction::UpdateSettings),
        ),
        (SettingsState::Update { sub_id, before }, SettingsEvent::Updated(result)) => Some(
            match result {
                Ok(()) => (
                    SettingsState::After { sub_id, before },
                    SettingsAction::ReadExecutionSettings,
                ),
                Err(err) => (
                    SettingsState::Done,
                    SettingsAction::Refuse(
                        Event {
                            id: sub_id,
                            msg: EventMsg::Error {
                                reason: Reason::InvalidThreadSettings(err),
                                info: CodexErrorInfo::BadRequest,
                            },
                        },
                    ),
                ),
            },
        ),
        (SettingsState::After { sub_id, before }, SettingsEvent::Execution(after)) => Some(
            if before.same(after) {
                (SettingsState::Done, SettingsAction::ReportApplied { sub_id })
            } else {
                (SettingsState::Refresh { sub_id }, SettingsAction::RefreshTurnAndHelper)
            },
        ),
        (SettingsState::Refresh { sub_id }, SettingsEvent::Refreshed) => Some(
            (SettingsState::Done, SettingsAction::ReportApplied { sub_id }),
        ),
        _ => None,
    }
}

/// Starts to change the settings of a thread.
pub fn update_thread_settings(sub_id: String) -> (res: (SettingsState, SettingsAction))
    ensures
        res == (SettingsState::Admission { sub_id }, SettingsAction::AcquireAdmission),
{
    (SettingsState::Admission { sub_id }, SettingsAction::AcquireAdmission)
}

/// Takes the next step. An event that does not answer what the state waits for is handed back.
pub fn step_settings(state: SettingsState, event: SettingsEvent) -> (res: Result<
    (SettingsState, SettingsAction),
    (SettingsState, SettingsEvent),
>)
    ensures
        res == match settings_next(state, event) {
            Some(next) => Ok::<(SettingsState, SettingsAction), (SettingsState, SettingsEvent)>(
                next,
            ),
            None => Err((state, event)),
        },
{
    let next: (SettingsState, SettingsAction) = match (state, event) {
        (SettingsState::Admission { sub_id }, SettingsEvent::Admitted(admitted)) => {
            if admitted {
                (SettingsState::Before { sub_id }, SettingsAction::ReadExecutionSettings)
            } else {
                (
                    SettingsState::Done,
                    SettingsAction::RefuseUnsaved(
                        Event {
                            id: sub_id,
                            msg: EventMsg::Error {
                                reason: Reason::RestartBeforeSettings,
                                info: CodexErrorInfo::Other,
                            },
                        },
                    ),
                )
            }
        },
        (SettingsState::Before { sub_id }, SettingsEvent::Execution(before)) => (
            SettingsState::Update { sub_id, before },
            SettingsAction::UpdateSettings,
        ),
        (SettingsState::Update { sub_id, before }, SettingsEvent::Updated(result)) => {
            match result {
                Ok(()) => (
                    SettingsState::After { sub_id, before },
                    SettingsAction::ReadExecutionSettings,
                ),
                Err(err) => (
                    SettingsState::Done,
                    SettingsAction::Refuse(
                        Event {
                            id: sub_id,
                            msg: EventMsg::Error {
                                reason: Reason::InvalidThreadSettings(err),
                                info: CodexErrorInfo::BadRequest,
                            },
                        },
                    ),
                ),
            }
        },
        (SettingsState::After { sub_id, before }, SettingsEvent::Execution(after)) => {
            if before.is_same(&after) {
                (SettingsState::Done, SettingsAction::ReportApplied { sub_id })
            } else {
                (SettingsState::Refresh { sub_id }, SettingsAction::RefreshTurnAndHelper)
            }
        },
        (SettingsState::Refresh { sub_id }, SettingsEvent::Refreshed) => (
            SettingsState::Done,
            SettingsAction::ReportApplied { sub_id },
        ),
        (state, event) => {
            return Err((state, event));
        },
    };
    Ok(next)
}

/// The report of the settings that now hold.
pub fn thread_settings_applied_event(sub_id: String, thread_settings: String) -> (res: Event)
    ensures
        res == (Event { id: sub_id, msg: EventMsg::ThreadSettingsApplied { thread_settings } }),
{
    Event { id: sub_id, msg: EventMsg::ThreadSettingsApplied { thread_settings } }
}

/// Without admission no setting is touched: the change is refused before anything is read.
pub proof fn law_settings_change_needs_admission(sub_id: String)
    ensures
        settings_next(SettingsState::Admission { sub_id }, SettingsEvent::Admitted(false)) == Some(
            (
                SettingsState::Done,
                SettingsAction::RefuseUnsaved(
                    Event {
                        id: sub_id,
                        msg: EventMsg::Error {
                            reason: Reason::RestartBeforeSettings,
                            info: CodexErrorInfo::Other,
                        },
                    },
                ),
            ),
        ),
{
}

/// The running turn is refreshed exactly when the change altered what a turn is executed with.
pub proof fn law_turn_is_refreshed_only_on_changed_execution(
    sub_id: String,
    before: ExecutionSettings,
    after: ExecutionSettings,
)
    ensures
        settings_next(SettingsState::After { sub_id, before }, SettingsEvent::Execution(after))
            is Some,
        settings_next(
            SettingsState::After { sub_id, before },
            SettingsEvent::Execution(after),
        )->Some_0.1 is RefreshTurnAndHelper <==> !before.same(after),
{
}

/// Where a change of settings stands after `events`, and all that it asked for.
pub open spec fn settings_run(
    sub_id: String,
    events: Seq<SettingsEvent>,
) -> Option<(SettingsState, Seq<SettingsAction>)>
    decreases events.len(),
{
    if events.len() == 0 {
        let first: (SettingsState, SettingsAction) = (
            SettingsState::Admission { sub_id },
            SettingsAction::AcquireAdmission,
        );
        Some((first.0, seq![first.1]))
    } else {
        match settings_run(sub_id, events.drop_last()) {
            Some((state, actions)) => match settings_next(state, events.last()) {
                Some((next, action)) => Some((next, actions.push(action))),
                None => None,
            },
            None => None,
        }
    }
}

proof fn lemma_settings_step(
    sub_id: String,
    events: Seq<SettingsEvent>,
    event: SettingsEvent,
)
    requires
        settings_run(sub_id, events) is Some,
        settings_next(settings_run(sub_id, events)->Some_0.0, event) is Some,
    ensures
        ({
            let (state, actions) = settings_run(sub_id, events)->Some_0;
            let (next, action) = settings_next(state, event)->Some_0;
            settings_run(sub_id, events.push(event)) == Some((next, actions.push(action)))
        }),
{
    assert(events.push(event).drop_last() =~= events);
}

/// A change that leaves the model, the effort and the service tier as they were is made and
/// reported; the running turn goes on as it was.
pub proof fn law_settings_change_without_effect_on_turns_is_only_reported(
    sub_id: String,
    before: ExecutionSettings,
    after: ExecutionSettings,
)
    requires
        before.model@ == after.model@,
        match (before.reasoning_effort, after.reasoning_effort) {
            (Some(a), Some(b)) => a@ == b@,
            (None, None) => true,
            _ => false,
        },
        match (before.service_tier, after.service_tier) {
            (Some(a), Some(b)) => a@ == b@,
            (None, None) => true,
            _ => false,
        },
    ensures
        ({
            let events: Seq<SettingsEvent> = seq![
                SettingsEvent::Admitted(true),
                SettingsEvent::Execution(before),
                SettingsEvent::Updated(Ok(())),
                SettingsEvent::Execution(after),
            ];
            let run = settings_run(sub_id, events);
            &&& run is Some
            &&& run->Some_0.1 == seq![
                SettingsAction::AcquireAdmission,
                SettingsAction::ReadExecutionSettings,
                SettingsAction::UpdateSettings,
                SettingsAction::ReadExecutionSettings,
                SettingsAction::ReportApplied { sub_id },
            ]
        }),
{
    let e0 = Seq::<SettingsEvent>::empty();
    lemma_settings_step(sub_id, e0, SettingsEvent::Admitted(true));
    let e1 = e0.push(SettingsEvent::Admitted(true));
    lemma_settings_step(sub_id, e1, SettingsEvent::Execution(before));
    let e2 = e1.push(SettingsEvent::Execution(before));
    lemma_settings_step(sub_id, e2, SettingsEvent::Updated(Ok(())));
    let e3 = e2.push(SettingsEvent::Updated(Ok(())));
    lemma_settings_step(sub_id, e3, SettingsEvent::Execution(after));
    let e4 = e3.push(SettingsEvent::Execution(after));
    assert(e4 =~= seq![
        SettingsEvent::Admitted(true),
        SettingsEvent::Execution(before),
        SettingsEvent::Updated(Ok(())),
        SettingsEvent::Execution(after),
    ]);
    assert(settings_run(sub_id, e4)->Some_0.1 =~= seq![
        SettingsAction::AcquireAdmission,
        SettingsAction::ReadExecutionSettings,
        SettingsAction::UpdateSettings,
        SettingsAction::ReadExecutionSettings,
        SettingsAction::ReportApplied { sub_id },
    ]);
}

/// A change of the model, the effort or the service tier refreshes the running turn and its helper
/// before it is reported.
pub proof fn law_settings_change_with_effect_on_turns_refreshes_them(
    sub_id: String,
    before: ExecutionSettings,
    after: ExecutionSettings,
)
    requires
        before.model@ != after.model@ || match (before.reasoning_effort, after.reasoning_effort) {
            (Some(a), Some(b)) => a@ != b@,
            (None, None) => false,
            _ => true,
        } || match (before.service_tier, after.service_tier) {
            (Some(a), Some(b)) => a@ != b@,
            (None, None) => false,
            _ => true,
        },
    ensures
        ({
            let events: Seq<SettingsEvent> = seq![
                SettingsEvent::Admitted(true),
                SettingsEvent::Execution(before),
                SettingsEvent::Updated(Ok(())),
                SettingsEvent::Execution(after),
                SettingsEvent::Refreshed,
            ];
            let run = settings_run(sub_id, events);
            &&& run is Some
            &&& run->Some_0.1 == seq![
                SettingsAction::AcquireAdmission,
                SettingsAction::ReadExecutionSettings,
                SettingsAction::UpdateSettings,
                SettingsAction::ReadExecutionSettings,
                SettingsAction::RefreshTurnAndHelper,
                SettingsAction::ReportApplied { sub_id },
            ]
        }),
{
    let e0 = Seq::<SettingsEvent>::empty();
    lemma_settings_step(sub_id, e0, SettingsEvent::Admitted(true));
    let e1 = e0.push(SettingsEvent::Admitted(true));
    lemma_settings_step(sub_id, e1, SettingsEvent::Execution(before));
    let e2 = e1.push(SettingsEvent::Execution(before));
    lemma_settings_step(sub_id, e2, SettingsEvent::Updated(Ok(())));
    let e3 = e2.push(SettingsEvent::Updated(Ok(())));
    lemma_settings_step(sub_id, e3, SettingsEvent::Execution(after));
    let e4 = e3.push(SettingsEvent::Execution(after));
    lemma_settings_step(sub_id, e4, SettingsEvent::Refreshed);
    let e5 = e4.push(SettingsEvent::Refreshed);
    assert(e5 =~= seq![
        SettingsEvent::Admitted(true),
        SettingsEvent::Execution(before),
        SettingsEvent::Updated(Ok(())),
        SettingsEvent::Execution(after),
        SettingsEvent::Refreshed,
    ]);
    assert(settings_run(sub_id, e5)->Some_0.1 =~= seq![
        SettingsAction::AcquireAdmission,
        SettingsAction::ReadExecutionSettings,
        SettingsAction::UpdateSettings,
        SettingsAction::ReadExecutionSettings,
        SettingsAction::RefreshTurnAndHelper,
        SettingsAction::ReportApplied { sub_id },
    ]);
}

/// A change that is refused ends with the report of why: without admission before anything is
/// read, and with a bad request where the settings are not valid.
pub proof fn law_refused_settings_change_is_not_reported_as_applied(
    sub_id: String,
    before: ExecutionSettings,
    error: String,
)
    ensures
        ({
            let events: Seq<SettingsEvent> = seq![SettingsEvent::Admitted(false)];
            let run = settings_run(sub_id, events);
            &&& run is Some
            &&& run->Some_0.1 == seq![
                SettingsAction::AcquireAdmission,
                SettingsAction::RefuseUnsaved(
                    Event {
                        id: sub_id,
                        msg: EventMsg::Error {
                            reason: Reason::RestartBeforeSettings,
                            info: CodexErrorInfo::Other,
                        },
                    },
                ),
            ]
        }),
        ({
            let events: Seq<SettingsEvent> = seq![
                SettingsEvent::Admitted(true),
                SettingsEvent::Execution(before),
                SettingsEvent::Updated(Err(error)),
            ];
            let run = settings_run(sub_id, events);
            &&& run is Some
            &&& run->Some_0.1 == seq![
                SettingsAction::AcquireAdmission,
                SettingsAction::ReadExecutionSettings,
                SettingsAction::UpdateSettings,
                SettingsAction::Refuse(
                    Event {
                        id: sub_id,
                        msg: EventMsg::Error {
                            reason: Reason::InvalidThreadSettings(error),
                            info: CodexErrorInfo::BadRequest,
                        },
                    },
                ),
            ]
        }),
{
    let e0 = Seq::<SettingsEvent>::empty();
    lemma_settings_step(sub_id, e0, SettingsEvent::Admitted(false));
    let e1 = e0.push(SettingsEvent::Admitted(false));
    assert(settings_run(sub_id, e1)->Some_0.1 =~= seq![
        SettingsAction::AcquireAdmission,
        SettingsAction::RefuseUnsaved(
            Event {
                id: sub_id,
                msg: EventMsg::Error {
                    reason: Reason::RestartBeforeSettings,
                    info: CodexErrorInfo::Other,
                },
            },
        ),
    ]);
    lemma_settings_step(sub_id, e0, SettingsEvent::Admitted(true));
    let e2 = e0.push(SettingsEvent::Admitted(true));
    lemma_settings_step(sub_id, e2, SettingsEvent::Execution(before));
    let e3 = e2.push(SettingsEvent::Execution(before));
    lemma_settings_step(sub_id, e3, SettingsEvent::Updated(Err(error)));
    let e4 = e3.push(SettingsEvent::Updated(Err(error)));
    assert(e4 =~= seq![
        SettingsEvent::Admitted(true),
        SettingsEvent::Execution(before),
        SettingsEvent::Updated(Err(error)),
    ]);
    assert(settings_run(sub_id, e4)->Some_0.1 =~= seq![
        SettingsAction::AcquireAdmission,
        SettingsAction::ReadExecutionSettings,
        SettingsAction::UpdateSettings,
        SettingsAction::Refuse(
            Event {
                id: sub_id,
                msg: EventMsg::Error {
                    reason: Reason::InvalidThreadSettings(error),
                    info: CodexErrorInfo::BadRequest,
                },
            },
        ),
    ]);
}

/// A change of settings takes an answer exactly where it waits for one of that kind, and none when
/// it is done. It is done exactly when its last word is said.
pub proof fn law_settings_change_takes_only_awaited_answers(
    state: SettingsState,
    event: SettingsEvent,
)
    ensures
        settings_next(state, event) is Some <==> {
            ||| state is Admission && event is Admitted
            ||| state is Before && event is Execution
            ||| state is Update && event is Updated
            ||| state is After && event is Execution
            ||| state is Refresh && event is Refreshed
        },
        settings_next(state, event) matches Some((after, action)) ==> (after is Done
            <==> action is ReportApplied || action is Refuse || action is RefuseUnsaved),
{
}

/// Overrides override nothing exactly when no setting of any kind is given.
pub proof fn law_any_single_setting_is_an_override<P>(
    settings: ThreadSettingsOverrides<P>,
    value: P,
)
    ensures
        !(ThreadSettingsOverrides { environments: Some(value), ..settings }).is_default(),
        !(ThreadSettingsOverrides {
            profile_workspace_roots: Some(value),
            ..settings
        }).is_default(),
        !(ThreadSettingsOverrides { approval_policy: Some(value), ..settings }).is_default(),
        !(ThreadSettingsOverrides { approvals_reviewer: Some(value), ..settings }).is_default(),
        !(ThreadSettingsOverrides { sandbox_policy: Some(value), ..settings }).is_default(),
        !(ThreadSettingsOverrides { permission_profile: Some(value), ..settings }).is_default(),
        !(ThreadSettingsOverrides {
            active_permission_profile: Some(value),
            ..settings
        }).is_default(),
        !(ThreadSettingsOverrides { windows_sandbox_level: Some(value), ..settings }).is_default(),
        !(ThreadSettingsOverrides { model: Some(value), ..settings }).is_default(),
        !(ThreadSettingsOverrides { effort: Some(value), ..settings }).is_default(),
        !(ThreadSettingsOverrides { summary: Some(value), ..settings }).is_default(),
        !(ThreadSettingsOverrides { service_tier: Some(value), ..settings }).is_default(),
        !(ThreadSettingsOverrides { collaboration_mode: Some(value), ..settings }).is_default(),
        !(ThreadSettingsOverrides { personality: Some(value), ..settings }).is_default(),
        (ThreadSettingsOverrides::<P> {
            environments: None,
            profile_workspace_roots: None,
            approval_policy: None,
            approvals_reviewer: None,
            sandbox_policy: None,
            permission_profile: None,
            active_permission_profile: None,
            windows_sandbox_level: None,
            model: None,
            effort: None,
            summary: None,
            service_tier: None,
            collaboration_mode: None,
            personality: None,
        }).is_default(),
{
}

/// A change of settings begins as its run does.
pub proof fn law_settings_begins_as_its_run_does(
    sub_id: String,
    res: (SettingsState, SettingsAction),
)
    requires
        call_ensures(update_thread_settings, (sub_id,), res),
    ensures
        settings_run(sub_id, Seq::<SettingsEvent>::empty()) == Some((res.0, seq![res.1])),
{
}

/// A change of settings that takes a step goes on as its run does, with all that it asked for
/// before; an answer that it does not wait for is handed back, and nothing has changed.
pub proof fn law_settings_goes_on_as_its_run_does(
    sub_id: String,
    events: Seq<SettingsEvent>,
    state: SettingsState,
    actions: Seq<SettingsAction>,
    event: SettingsEvent,
    res: Result<(SettingsState, SettingsAction), (SettingsState, SettingsEvent)>,
)
    requires
        settings_run(sub_id, events) == Some((state, actions)),
        call_ensures(step_settings, (state, event), res),
    ensures
        match res {
            Ok((next, action)) => settings_run(sub_id, events.push(event)) == Some(
                (next, actions.push(action)),
            ),
            Err(back) => back == (state, event) && settings_run(sub_id, events.push(event)) is None,
        },
{
    assert(events.push(event).drop_last() =~= events);
}

/// A change of settings changes what is overridden and nothing else. The collaboration mode is the
/// one exception: where none is given, the active mode is refreshed.
pub proof fn law_only_overridden_settings_change<P>(
    settings: ThreadSettingsOverrides<P>,
    refreshed_mode: P,
    res: SessionSettingsUpdate<P>,
)
    requires
        call_ensures(thread_settings_update::<P>, (settings, refreshed_mode), res),
    ensures
        res.environments == settings.environments,
        res.profile_workspace_roots == settings.profile_workspace_roots,
        res.approval_policy == settings.approval_policy,
        res.approvals_reviewer == settings.approvals_reviewer,
        res.sandbox_policy == settings.sandbox_policy,
        res.permission_profile == settings.permission_profile,
        res.active_permission_profile == settings.active_permission_profile,
        res.windows_sandbox_level == settings.windows_sandbox_level,
        settings.collaboration_mode is Some ==> res.collaboration_mode
            == settings.collaboration_mode,
        settings.collaboration_mode is None ==> res.collaboration_mode == Some(refreshed_mode),
        res.reasoning_summary == settings.summary,
        res.service_tier == settings.service_tier,
        res.personality == settings.personality,
{
}

/// The report of settings is given under the id of the submission that changed them.
pub proof fn law_applied_settings_are_reported_under_their_submission(
    sub_id: String,
    thread_settings: String,
    res: Event,
)
    requires
        call_ensures(thread_settings_applied_event, (sub_id, thread_settings), res),
    ensures
        res.id == sub_id,
        res.msg == (EventMsg::ThreadSettingsApplied { thread_settings }),
{
}

/// A turn that runs is asked to take its settings anew, and nothing else of it changes; without a
/// turn nothing happens.
pub proof fn law_running_turn_is_asked_to_refresh(active: &mut Option<ActiveTurn>)
    requires
        call_ensures(request_execution_settings_refresh, (active,), ()),
    ensures
        *old(active) is None ==> *final(active) is None,
        *old(active) is Some ==> {
            &&& *final(active) is Some
            &&& final(active)->Some_0.execution_settings_refresh_requested
            &&& final(active)->Some_0.task == old(active)->Some_0.task
            &&& final(active)->Some_0.turn_state == old(active)->Some_0.turn_state
        },
{
}

} // verus!
