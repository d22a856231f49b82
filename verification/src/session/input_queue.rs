//! Pending input of a session: the mailbox, the input queued for the active turn, and the
//! receipts of response items that wait to become durable.
use crate::protocol::InterAgentCommunication;
use crate::protocol::ResponseItem;
use crate::protocol::TaskKind;
use crate::protocol::UserInput;
use crate::text::blank;
use crate::text::is_blank;
use crate::text::option_text;
use crate::text::same_text;
use vstd::prelude::*;

verus! {

/// Input consumed by a regular turn.
#[derive(Clone, Debug, PartialEq, Eq)]
pub enum TurnInput {
    UserInput { content: Vec<UserInput>, client_id: Option<String> },
    ResponseItem(ResponseItem),
    InterAgentCommunication(InterAgentCommunication),
}

/// What a listener of the queue is told about.
#[derive(Clone, Copy, Debug, PartialEq, Eq, Structural)]
pub enum InputQueueActivity {
    Mailbox,
    Steer,
}

/// Whether mail may still reach the turn that is running.
#[derive(Clone, Copy, Debug, PartialEq, Eq, Structural)]
pub enum MailboxDeliveryPhase {
    CurrentTurn,
    NextTurn,
}

/// Input that waits for the turn that it was queued for.
#[derive(Clone, Debug, PartialEq, Eq)]
pub struct TurnInputQueue {
    pub items: Vec<TurnInput>,
}

/// What a turn holds while it runs.
#[derive(Clone, Debug, PartialEq, Eq)]
pub struct TurnState {
    /// Tells this turn from every other turn of the session.
    pub identity: u64,
    pub pending_input: TurnInputQueue,
    pub mailbox_delivery_phase: MailboxDeliveryPhase,
    /// Requests that wait for an answer from the user.
    pub pending_waiters: Vec<String>,
}

/// The task of an active turn.
#[derive(Clone, Debug, PartialEq, Eq)]
pub struct ActiveTask {
    pub kind: TaskKind,
    pub sub_id: String,
}

/// The turn that a session runs, or has reserved while it has no task yet.
#[derive(Clone, Debug, PartialEq, Eq)]
pub struct ActiveTurn {
    pub task: Option<ActiveTask>,
    pub turn_state: TurnState,
    pub execution_settings_refresh_requested: bool,
}

/// A message in the mailbox, with the turn that sent it where that is known.
#[derive(Clone, Debug, PartialEq, Eq)]
pub struct PendingMailboxCommunication {
    pub communication: InterAgentCommunication,
    pub parent_turn_id: Option<String>,
}

/// A party that waits to hear whether a response item became durable.
#[derive(Clone, Debug, PartialEq, Eq)]
pub struct DurableWaiter<S> {
    pub item_id: String,
    pub sender: S,
}

/// The answer that a waiting party is owed.
#[derive(Debug, PartialEq, Eq)]
pub struct Completion<S> {
    pub sender: S,
    pub result: Result<(), PersistenceFailure>,
}

/// Why a response item did not become durable.
#[derive(Clone, Debug, PartialEq, Eq)]
pub enum PersistenceFailure {
    TurnCleared,
    TaskEnded,
    Other(String),
}

impl PersistenceFailure {
    pub open spec fn text(self) -> Seq<char> {
        match self {
            PersistenceFailure::TurnCleared =>
                "active turn cleared before durable response item persistence"@,
            PersistenceFailure::TaskEnded =>
                "active task ended during durable response item persistence"@,
            PersistenceFailure::Other(message) => message@,
        }
    }

    pub fn message(&self) -> (res: String)
        ensures
            res@ == self.text(),
    {
        match self {
            PersistenceFailure::TurnCleared =>
                "active turn cleared before durable response item persistence".to_owned(),
            PersistenceFailure::TaskEnded =>
                "active task ended during durable response item persistence".to_owned(),
            PersistenceFailure::Other(message) => message.clone(),
        }
    }
}

/// Session-scoped pending input. `S` is what an answer to a waiting party is sent through.
#[derive(Clone, Debug, PartialEq, Eq)]
pub struct InputQueue<S> {
    pub mailbox: Vec<PendingMailboxCommunication>,
    pub waiters: Vec<DurableWaiter<S>>,
}

/// Whether an input asks the running turn for a follow-up: everything but mail that does not
/// trigger a turn.
pub open spec fn is_steer(input: TurnInput) -> bool {
    !(input matches TurnInput::InterAgentCommunication(mail) && !mail.trigger_turn)
}

/// Whether any of `items` asks for a follow-up.
pub open spec fn any_steer(items: Seq<TurnInput>) -> bool {
    exists|i: int| 0 <= i < items.len() && is_steer(#[trigger] items[i])
}

/// The turns that the triggering messages of a mailbox came from, in order.
pub open spec fn trigger_parents(mails: Seq<PendingMailboxCommunication>) -> Seq<
    Option<Seq<char>>,
>
    decreases mails.len(),
{
    if mails.len() == 0 {
        Seq::empty()
    } else {
        let rest = trigger_parents(mails.drop_last());
        if mails.last().communication.trigger_turn {
            rest.push(option_text(mails.last().parent_turn_id))
        } else {
            rest
        }
    }
}

/// The one turn that all of `parents` name, unless there is none or its name is blank.
pub open spec fn common_parent(parents: Seq<Option<Seq<char>>>) -> Option<Seq<char>> {
    if parents.len() > 0 && (forall|i: int|
        0 <= i < parents.len() ==> #[trigger] parents[i] == parents[0]) && parents[0] is Some
        && !blank(parents[0]->Some_0) {
        parents[0]
    } else {
        None
    }
}

/// The turn input that a mailbox holds, in delivery order.
pub open spec fn mail_input(mails: Seq<PendingMailboxCommunication>) -> Seq<TurnInput> {
    Seq::new(
        mails.len(),
        |i: int| TurnInput::InterAgentCommunication(mails[i].communication),
    )
}

/// Whether a receipt for `id` is open.
pub open spec fn awaits<S>(waiters: Seq<DurableWaiter<S>>, id: Seq<char>) -> bool {
    exists|i: int| 0 <= i < waiters.len() && #[trigger] waiters[i].item_id@ == id
}

/// The position of the receipt for `id`, the number of receipts where there is none.
pub open spec fn receipt_position<S>(waiters: Seq<DurableWaiter<S>>, id: Seq<char>) -> int
    decreases waiters.len(),
{
    if waiters.len() == 0 {
        0
    } else if waiters[0].item_id@ == id {
        0
    } else {
        1 + receipt_position(waiters.drop_first(), id)
    }
}

/// `waiters` without the receipts for `ids`.
pub open spec fn released<S>(waiters: Seq<DurableWaiter<S>>, ids: Seq<Seq<char>>) -> Seq<
    DurableWaiter<S>,
>
    decreases ids.len(),
{
    if ids.len() == 0 {
        waiters
    } else {
        let rest = released(waiters, ids.drop_last());
        if awaits(rest, ids.last()) {
            rest.remove(receipt_position(rest, ids.last()))
        } else {
            rest
        }
    }
}

/// The answers that are owed when the receipts for `ids` are given up, in the order of `ids`.
pub open spec fn release_answers<S>(waiters: Seq<DurableWaiter<S>>, ids: Seq<Seq<char>>) -> Seq<
    Completion<S>,
>
    decreases ids.len(),
{
    if ids.len() == 0 {
        Seq::empty()
    } else {
        let rest = released(waiters, ids.drop_last());
        let answers = release_answers(waiters, ids.drop_last());
        if awaits(rest, ids.last()) {
            answers.push(
                Completion {
                    sender: rest[receipt_position(rest, ids.last())].sender,
                    result: Err(PersistenceFailure::TurnCleared),
                },
            )
        } else {
            answers
        }
    }
}

/// No two receipts are for the same response item.
pub open spec fn distinct_receipts<S>(waiters: Seq<DurableWaiter<S>>) -> bool {
    forall|i: int, j: int|
        0 <= i < j < waiters.len() ==> #[trigger] waiters[i].item_id@
            != #[trigger] waiters[j].item_id@
}

proof fn lemma_receipt_position<S>(waiters: Seq<DurableWaiter<S>>, id: Seq<char>)
    ensures
        0 <= receipt_position(waiters, id) <= waiters.len(),
        awaits(waiters, id) <==> receipt_position(waiters, id) < waiters.len(),
        awaits(waiters, id) ==> waiters[receipt_position(waiters, id)].item_id@ == id,
        forall|i: int|
            0 <= i < receipt_position(waiters, id) ==> #[trigger] waiters[i].item_id@ != id,
    decreases waiters.len(),
{
    if waiters.len() > 0 && waiters[0].item_id@ != id {
        let rest = waiters.drop_first();
        lemma_receipt_position(rest, id);
        assert forall|i: int| 0 <= i < receipt_position(waiters, id) implies #[trigger] waiters[i].item_id@
            != id by {
            if i > 0 {
                assert(rest[i - 1] == waiters[i]);
            }
        }
        if awaits(waiters, id) {
            let k = choose|k: int| 0 <= k < waiters.len() && #[trigger] waiters[k].item_id@ == id;
            assert(rest[k - 1].item_id@ == id);
        }
        if receipt_position(rest, id) < rest.len() {
            assert(waiters[1 + receipt_position(rest, id)] == rest[receipt_position(rest, id)]);
        }
    }
}

/// Giving up the receipts for `ids` leaves every other receipt as it was and closes those for
/// `ids`; each closed receipt is answered, and always with the same refusal.
pub proof fn law_clearing_closes_exactly_the_queued_receipts<S>(
    waiters: Seq<DurableWaiter<S>>,
    ids: Seq<Seq<char>>,
)
    requires
        distinct_receipts(waiters),
    ensures
        distinct_receipts(released(waiters, ids)),
        forall|id: Seq<char>|
            #[trigger] awaits(released(waiters, ids), id) <==> awaits(waiters, id)
                && !ids.contains(id),
        forall|i: int|
            0 <= i < released(waiters, ids).len() ==> waiters.contains(
                #[trigger] released(waiters, ids)[i],
            ),
        released(waiters, ids).len() + release_answers(waiters, ids).len() == waiters.len(),
        forall|i: int|
            0 <= i < release_answers(waiters, ids).len() ==> (#[trigger] release_answers(
                waiters,
                ids,
            )[i]).result == Err::<(), PersistenceFailure>(PersistenceFailure::TurnCleared),
    decreases ids.len(),
{
    if ids.len() == 0 {
        assert forall|i: int| 0 <= i < waiters.len() implies waiters.contains(
            #[trigger] waiters[i],
        ) by {}
    } else {
        let head = ids.drop_last();
        law_clearing_closes_exactly_the_queued_receipts(waiters, head);
        let rest = released(waiters, head);
        let last = ids.last();
        lemma_receipt_position(rest, last);
        let at = receipt_position(rest, last);
        assert forall|id: Seq<char>| head.contains(id) implies #[trigger] ids.contains(id) by {
            let k = choose|k: int| 0 <= k < head.len() && head[k] == id;
            assert(ids[k] == id);
        }
        assert forall|id: Seq<char>| #[trigger] ids.contains(id) implies head.contains(id) || id
            == last by {
            let k = choose|k: int| 0 <= k < ids.len() && ids[k] == id;
            if k < head.len() {
                assert(head[k] == id);
            }
        }
        assert(ids[ids.len() - 1] == last);
        assert(ids.contains(last));
        if awaits(rest, last) {
            let after = rest.remove(at);
            assert(forall|i: int| 0 <= i < at ==> after[i] == rest[i]);
            assert(forall|i: int| at <= i < after.len() ==> after[i] == rest[i + 1]);
            assert forall|id: Seq<char>| #[trigger] awaits(after, id) <==> awaits(rest, id) && id
                != last by {
                if awaits(after, id) {
                    let k = choose|k: int|
                        0 <= k < after.len() && #[trigger] after[k].item_id@ == id;
                    if k < at {
                        assert(rest[k].item_id@ == id);
                    } else {
                        assert(rest[k + 1].item_id@ == id);
                        assert(rest[at].item_id@ != rest[k + 1].item_id@);
                    }
                }
                if awaits(rest, id) && id != last {
                    let k = choose|k: int| 0 <= k < rest.len() && #[trigger] rest[k].item_id@ == id;
                    if k < at {
                        assert(after[k].item_id@ == id);
                    } else {
                        assert(after[k - 1].item_id@ == id);
                    }
                }
            }
        }
    }
}

/// The response item identities among `items`, in order.
pub open spec fn queued_item_ids(items: Seq<TurnInput>) -> Seq<Seq<char>>
    decreases items.len(),
{
    if items.len() == 0 {
        Seq::empty()
    } else {
        let rest = queued_item_ids(items.drop_last());
        match items.last() {
            TurnInput::ResponseItem(item) => match item.spec_id() {
                Some(id) => rest.push(id@),
                None => rest,
            },
            _ => rest,
        }
    }
}

impl TurnInputQueue {
    pub fn is_empty(&self) -> (res: bool)
        ensures
            res == (self.items@.len() == 0),
    {
        self.items.len() == 0
    }

    /// Whether anything here asks for a follow-up in the running turn.
    pub fn has_steer_input(&self) -> (res: bool)
        ensures
            res == any_steer(self.items@),
    {
        let mut i: usize = 0;
        while i < self.items.len()
            invariant
                i <= self.items.len(),
                forall|k: int| 0 <= k < i ==> !is_steer(#[trigger] self.items@[k]),
            decreases self.items.len() - i,
        {
            let steer: bool = match &self.items[i] {
                TurnInput::InterAgentCommunication(mail) => mail.trigger_turn,
                _ => true,
            };
            if steer {
                assert(is_steer(self.items@[i as int]));
                return true;
            }
            i = i + 1;
        }
        false
    }
}

impl TurnState {
    /// A turn state with nothing pending, which mail may still reach.
    pub fn new(identity: u64) -> (res: TurnState)
        ensures
            res.identity == identity,
            res.pending_input.items@.len() == 0,
            res.pending_waiters@.len() == 0,
            res.mailbox_delivery_phase == MailboxDeliveryPhase::CurrentTurn,
    {
        TurnState {
            identity,
            pending_input: TurnInputQueue { items: Vec::new() },
            mailbox_delivery_phase: MailboxDeliveryPhase::CurrentTurn,
            pending_waiters: Vec::new(),
        }
    }

    /// Whether mail may reach the running turn.
    pub open spec fn accepts_mail(self) -> bool {
        self.mailbox_delivery_phase == MailboxDeliveryPhase::CurrentTurn
    }
}

/// Whether mail may be delivered now: always while idle, else as the running turn says.
pub open spec fn delivery_open(active: Option<ActiveTurn>) -> bool {
    active matches Some(turn) ==> turn.turn_state.accepts_mail()
}

/// The input queued for the active turn, nothing while idle.
pub open spec fn turn_input(active: Option<ActiveTurn>) -> Seq<TurnInput> {
    match active {
        Some(turn) => turn.turn_state.pending_input.items@,
        None => Seq::empty(),
    }
}

/// Whether `active` runs the task that `sub_id` started.
pub open spec fn runs_sub_id(active: Option<ActiveTurn>, sub_id: Seq<char>) -> bool {
    active matches Some(turn) && turn.task matches Some(task) && task.sub_id@ == sub_id
}

/// `before` and `after` agree on all but what is queued and whether mail is accepted.
pub open spec fn same_turn(before: ActiveTurn, after: ActiveTurn) -> bool {
    &&& after.task == before.task
    &&& after.execution_settings_refresh_requested == before.execution_settings_refresh_requested
    &&& after.turn_state.identity == before.turn_state.identity
    &&& after.turn_state.pending_waiters == before.turn_state.pending_waiters
}

fn runs(active: &Option<ActiveTurn>, sub_id: &str) -> (res: bool)
    ensures
        res == runs_sub_id(*active, sub_id@),
{
    match active {
        Some(turn) => match &turn.task {
            Some(task) => same_text(task.sub_id.as_str(), sub_id),
            None => false,
        },
        None => false,
    }
}

/// The turn state of the task that `sub_id` started, if that task is the active one.
pub fn turn_state_for_sub_id<'a>(active: &'a Option<ActiveTurn>, sub_id: &str) -> (res: Option<
    &'a TurnState,
>)
    ensures
        res is Some <==> runs_sub_id(*active, sub_id@),
        res is Some ==> *res->Some_0 == active->Some_0.turn_state,
{
    if runs(active, sub_id) {
        match active {
            Some(turn) => Some(&turn.turn_state),
            None => None,
        }
    } else {
        None
    }
}

/// Leaves mail for the next turn, unless the running turn still has work that needs a follow-up.
pub fn defer_mailbox_delivery_to_next_turn(active: &mut Option<ActiveTurn>, sub_id: &str)
    ensures
        *final(active) is Some <==> *old(active) is Some,
        *old(active) is Some ==> {
            let before = old(active)->Some_0;
            let after = final(active)->Some_0;
            &&& same_turn(before, after)
            &&& after.turn_state.pending_input == before.turn_state.pending_input
            &&& after.turn_state.mailbox_delivery_phase == if runs_sub_id(*old(active), sub_id@)
                && !any_steer(before.turn_state.pending_input.items@) {
                MailboxDeliveryPhase::NextTurn
            } else {
                before.turn_state.mailbox_delivery_phase
            }
        },
{
    if runs(active, sub_id) {
        if let Some(turn) = active {
            if !turn.turn_state.pending_input.has_steer_input() {
                turn.turn_state.mailbox_delivery_phase = MailboxDeliveryPhase::NextTurn;
            }
        }
    }
}

/// Lets mail reach the running turn again.
pub fn accept_mailbox_delivery_for_current_turn(active: &mut Option<ActiveTurn>, sub_id: &str)
    ensures
        *final(active) is Some <==> *old(active) is Some,
        *old(active) is Some ==> {
            let before = old(active)->Some_0;
            let after = final(active)->Some_0;
            &&& same_turn(before, after)
            &&& after.turn_state.pending_input == before.turn_state.pending_input
            &&& after.turn_state.mailbox_delivery_phase == if runs_sub_id(*old(active), sub_id@) {
                MailboxDeliveryPhase::CurrentTurn
            } else {
                before.turn_state.mailbox_delivery_phase
            }
        },
{
    if runs(active, sub_id) {
        if let Some(turn) = active {
            accept_mailbox_delivery_for_turn_state(&mut turn.turn_state);
        }
    }
}

/// Lets mail reach the turn that `turn_state` belongs to.
pub fn accept_mailbox_delivery_for_turn_state(turn_state: &mut TurnState)
    ensures
        *final(turn_state) == (TurnState {
            mailbox_delivery_phase: MailboxDeliveryPhase::CurrentTurn,
            ..*old(turn_state)
        }),
{
    turn_state.mailbox_delivery_phase = MailboxDeliveryPhase::CurrentTurn;
}

/// Queues input behind what is queued for a turn.
pub fn extend_pending_input_for_turn_state(turn_state: &mut TurnState, input: Vec<TurnInput>)
    ensures
        final(turn_state).pending_input.items@ == old(turn_state).pending_input.items@ + input@,
        final(turn_state).identity == old(turn_state).identity,
        final(turn_state).mailbox_delivery_phase == old(turn_state).mailbox_delivery_phase,
        final(turn_state).pending_waiters == old(turn_state).pending_waiters,
{
    let mut input = input;
    turn_state.pending_input.items.append(&mut input);
}

/// Queues input for a turn and lets mail reach it. The result is to be published to listeners.
pub fn extend_pending_input_and_accept_mailbox_delivery_for_turn_state(
    turn_state: &mut TurnState,
    input: Vec<TurnInput>,
) -> (res: InputQueueActivity)
    ensures
        res == InputQueueActivity::Steer,
        final(turn_state).pending_input.items@ == old(turn_state).pending_input.items@ + input@,
        final(turn_state).identity == old(turn_state).identity,
        final(turn_state).mailbox_delivery_phase == MailboxDeliveryPhase::CurrentTurn,
        final(turn_state).pending_waiters == old(turn_state).pending_waiters,
{
    extend_pending_input_for_turn_state(turn_state, input);
    accept_mailbox_delivery_for_turn_state(turn_state);
    InputQueueActivity::Steer
}

/// Takes everything that is queued for a turn.
pub fn take_pending_input_for_turn_state(turn_state: &mut TurnState) -> (res: Vec<TurnInput>)
    ensures
        res@ == old(turn_state).pending_input.items@,
        final(turn_state).pending_input.items@.len() == 0,
        final(turn_state).identity == old(turn_state).identity,
        final(turn_state).mailbox_delivery_phase == old(turn_state).mailbox_delivery_phase,
        final(turn_state).pending_waiters == old(turn_state).pending_waiters,
{
    let res: Vec<TurnInput> = turn_state.pending_input.items.split_off(0);
    assert(res@ =~= old(turn_state).pending_input.items@);
    res
}

/// The turn that all triggering messages name.
fn shared_parent(mails: &Vec<PendingMailboxCommunication>) -> (res: Option<String>)
    ensures
        option_text(res) == common_parent(trigger_parents(mails@)),
{
    let mut seen: bool = false;
    let mut shared: Option<String> = None;
    let mut i: usize = 0;
    while i < mails.len()
        invariant
            i <= mails.len(),
            ({
                let parents = trigger_parents(mails@.take(i as int));
                &&& seen == (parents.len() > 0)
                &&& !seen ==> shared is None
                &&& shared is Some ==> forall|k: int|
                    0 <= k < parents.len() ==> #[trigger] parents[k] == option_text(shared)
                &&& seen && shared is None ==> parents[0] is None || exists|k: int|
                    0 <= k < parents.len() && #[trigger] parents[k] != parents[0]
            }),
        decreases mails.len() - i,
    {
        let ghost before = trigger_parents(mails@.take(i as int));
        proof {
            assert(mails@.take(i + 1).drop_last() =~= mails@.take(i as int));
            assert(mails@.take(i + 1).last() == mails@[i as int]);
        }
        if mails[i].communication.trigger_turn {
            let ghost after = before.push(option_text(mails@[i as int].parent_turn_id));
            assert(after == trigger_parents(mails@.take(i + 1)));
            assert(after.last() == option_text(mails@[i as int].parent_turn_id));
            proof {
                assert forall|k: int| 0 <= k < before.len() implies after[k] == before[k] by {}
            }
            if !seen {
                seen = true;
                shared = match &mails[i].parent_turn_id {
                    Some(id) => Some(id.clone()),
                    None => None,
                };
            } else {
                let keep: bool = match (&shared, &mails[i].parent_turn_id) {
                    (Some(expected), Some(candidate)) => same_text(
                        expected.as_str(),
                        candidate.as_str(),
                    ),
                    _ => false,
                };
                proof {
                    if !keep {
                        if shared is Some {
                            assert(after[0] == before[0]);
                            assert(after[before.len() as int] != after[0]);
                        } else if !(before[0] is None) {
                            let k = choose|k: int|
                                0 <= k < before.len() && #[trigger] before[k] != before[0];
                            assert(after[k] != after[0]);
                        }
                    }
                }
                if !keep {
                    shared = None;
                }
            }
        }
        i = i + 1;
    }
    assert(mails@.take(mails.len() as int) =~= mails@);
    let named: bool = match &shared {
        Some(id) => !is_blank(id.as_str()),
        None => false,
    };
    if named {
        shared
    } else {
        None
    }
}

/// Turns messages into turn input, in order.
fn into_turn_input(mails: Vec<PendingMailboxCommunication>) -> (res: Vec<TurnInput>)
    ensures
        res@ == mail_input(mails@),
{
    let ghost all = mails@;
    let mut mails = mails;
    let mut res: Vec<TurnInput> = Vec::new();
    while mails.len() > 0
        invariant
            res@.len() + mails@.len() == all.len(),
            mails@ == all.skip(res@.len() as int),
            res@ == mail_input(all).take(res@.len() as int),
        decreases mails.len(),
    {
        let mail: PendingMailboxCommunication = mails.remove(0);
        res.push(TurnInput::InterAgentCommunication(mail.communication));
    }
    assert(res@ =~= mail_input(all));
    res
}

impl<S> InputQueue<S> {
    pub fn new() -> (res: InputQueue<S>)
        ensures
            res.mailbox@.len() == 0,
            res.waiters@.len() == 0,
            res.well_formed(),
    {
        InputQueue { mailbox: Vec::new(), waiters: Vec::new() }
    }

    /// Every open receipt belongs to another response item.
    pub open spec fn well_formed(self) -> bool {
        distinct_receipts(self.waiters@)
    }

    /// What a new listener has missed: input that steers the turn comes before mail.
    pub fn pending_activity(&self, turn_state: Option<&TurnState>) -> (res: Option<
        InputQueueActivity,
    >)
        ensures
            res == if turn_state is Some && any_steer(
                turn_state->Some_0.pending_input.items@,
            ) {
                Some(InputQueueActivity::Steer)
            } else if self.mailbox@.len() > 0 {
                Some(InputQueueActivity::Mailbox)
            } else {
                None
            },
    {
        let steer: bool = match turn_state {
            Some(turn_state) => turn_state.pending_input.has_steer_input(),
            None => false,
        };
        if steer {
            Some(InputQueueActivity::Steer)
        } else if self.has_pending_mailbox_items() {
            Some(InputQueueActivity::Mailbox)
        } else {
            None
        }
    }

    /// Puts a message at the end of the mailbox. The result is to be published to listeners.
    pub fn enqueue_mailbox_communication(
        &mut self,
        communication: InterAgentCommunication,
        parent_turn_id: Option<String>,
    ) -> (res: InputQueueActivity)
        ensures
            res == InputQueueActivity::Mailbox,
            final(self).mailbox@ == old(self).mailbox@.push(
                PendingMailboxCommunication { communication, parent_turn_id },
            ),
            final(self).waiters == old(self).waiters,
    {
        self.mailbox.push(PendingMailboxCommunication { communication, parent_turn_id });
        InputQueueActivity::Mailbox
    }

    pub fn has_pending_mailbox_items(&self) -> (res: bool)
        ensures
            res == (self.mailbox@.len() > 0),
    {
        self.mailbox.len() > 0
    }

    /// Whether any message in the mailbox asks for a turn.
    pub fn has_trigger_turn_mailbox_items(&self) -> (res: bool)
        ensures
            res == exists|i: int|
                0 <= i < self.mailbox@.len() && (
                #[trigger] self.mailbox@[i]).communication.trigger_turn,
    {
        let mut i: usize = 0;
        while i < self.mailbox.len()
            invariant
                i <= self.mailbox.len(),
                forall|k: int|
                    0 <= k < i ==> !(#[trigger] self.mailbox@[k]).communication.trigger_turn,
            decreases self.mailbox.len() - i,
        {
            if self.mailbox[i].communication.trigger_turn {
                return true;
            }
            i = i + 1;
        }
        false
    }

    /// Empties the mailbox: its messages in delivery order, and the turn that all of its
    /// triggering messages came from.
    pub fn drain_mailbox_input_items(&mut self) -> (res: (Vec<TurnInput>, Option<String>))
        ensures
            res.0@ == mail_input(old(self).mailbox@),
            option_text(res.1) == common_parent(trigger_parents(old(self).mailbox@)),
            final(self).mailbox@.len() == 0,
            final(self).waiters == old(self).waiters,
    {
        let mails: Vec<PendingMailboxCommunication> = self.mailbox.split_off(0);
        assert(mails@ =~= old(self).mailbox@);
        let parent_turn_id: Option<String> = shared_parent(&mails);
        (into_turn_input(mails), parent_turn_id)
    }

    /// Takes the input that the next sampling of a turn consumes: what is queued for the turn,
    /// then the mailbox. Nothing is taken while mail is deferred to the next turn.
    pub fn get_pending_input(&mut self, active: &mut Option<ActiveTurn>) -> (res: (
        Vec<TurnInput>,
        Option<String>,
    ))
        ensures
            final(self).waiters == old(self).waiters,
            !delivery_open(*old(active)) ==> {
                &&& res.0@.len() == 0
                &&& res.1 is None
                &&& final(self).mailbox == old(self).mailbox
                &&& *final(active) == *old(active)
            },
            delivery_open(*old(active)) ==> {
                &&& res.0@ == turn_input(*old(active)) + mail_input(old(self).mailbox@)
                &&& option_text(res.1) == common_parent(trigger_parents(old(self).mailbox@))
                &&& final(self).mailbox@.len() == 0
                &&& turn_input(*final(active)).len() == 0
                &&& *final(active) is Some <==> *old(active) is Some
                &&& *old(active) is Some ==> same_turn(old(active)->Some_0, final(active)->Some_0)
                    && final(active)->Some_0.turn_state.accepts_mail()
            },
    {
        let open: bool = match &*active {
            Some(turn) => turn.turn_state.mailbox_delivery_phase
                == MailboxDeliveryPhase::CurrentTurn,
            None => true,
        };
        if !open {
            return (Vec::new(), None);
        }
        let mut pending_input: Vec<TurnInput> = match active {
            Some(turn) => take_pending_input_for_turn_state(&mut turn.turn_state),
            None => Vec::new(),
        };
        let (mut mailbox_items, parent_turn_id) = self.drain_mailbox_input_items();
        pending_input.append(&mut mailbox_items);
        (pending_input, parent_turn_id)
    }

    /// Whether `get_pending_input` would hand out anything.
    pub fn has_pending_input(&self, active: &Option<ActiveTurn>) -> (res: bool)
        ensures
            res == (delivery_open(*active) && (turn_input(*active).len() > 0
                || self.mailbox@.len() > 0)),
    {
        match active {
            Some(turn) => {
                if turn.turn_state.mailbox_delivery_phase != MailboxDeliveryPhase::CurrentTurn {
                    return false;
                }
                if !turn.turn_state.pending_input.is_empty() {
                    return true;
                }
            },
            None => {},
        }
        self.has_pending_mailbox_items()
    }

    /// Queues a response item for the next history boundary of the active turn and opens its
    /// receipt. An item without an identity, one whose receipt is open already, and any item
    /// while no task runs is handed back.
    pub fn enqueue_durable_response_item_for_active_turn(
        &mut self,
        active: &mut Option<ActiveTurn>,
        item: ResponseItem,
        sender: S,
    ) -> (res: Result<InputQueueActivity, (ResponseItem, S)>)
        requires
            old(self).well_formed(),
        ensures
            final(self).well_formed(),
            final(self).mailbox == old(self).mailbox,
            res is Ok <==> {
                &&& item.spec_id() is Some
                &&& old(active).is_some() && old(active)->Some_0.task is Some
                &&& !awaits(old(self).waiters@, item.spec_id()->Some_0@)
            },
            res is Err ==> {
                &&& res->Err_0 == (item, sender)
                &&& final(self).waiters == old(self).waiters
                &&& *final(active) == *old(active)
            },
            res is Ok ==> {
                &&& res->Ok_0 == InputQueueActivity::Steer
                &&& final(self).waiters@ == old(self).waiters@.push(
                    DurableWaiter { item_id: item.spec_id()->Some_0, sender },
                )
                &&& final(active).is_some()
                &&& same_turn(old(active)->Some_0, final(active)->Some_0)
                &&& turn_input(*final(active)) == turn_input(*old(active)).push(
                    TurnInput::ResponseItem(item),
                )
                &&& final(active)->Some_0.turn_state.accepts_mail()
            },
    {
        let item_id: String = match item.id() {
            Some(id) => id.clone(),
            None => {
                return Err((item, sender));
            },
        };
        let has_task: bool = match &*active {
            Some(turn) => turn.task.is_some(),
            None => false,
        };
        if !has_task || self.has_durable_response_item_waiter(item_id.as_str()) {
            return Err((item, sender));
        }
        if let Some(turn) = active {
            self.waiters.push(DurableWaiter { item_id, sender });
            turn.turn_state.pending_input.items.push(TurnInput::ResponseItem(item));
            accept_mailbox_delivery_for_turn_state(&mut turn.turn_state);
            Ok(InputQueueActivity::Steer)
        } else {
            Err((item, sender))
        }
    }

    /// Whether the receipt for `item_id` is open.
    pub fn has_durable_response_item_waiter(&self, item_id: &str) -> (res: bool)
        ensures
            res == awaits(self.waiters@, item_id@),
    {
        self.find_waiter(item_id) < self.waiters.len()
    }

    fn find_waiter(&self, item_id: &str) -> (res: usize)
        ensures
            res == receipt_position(self.waiters@, item_id@),
            res <= self.waiters@.len(),
            awaits(self.waiters@, item_id@) <==> res < self.waiters@.len(),
    {
        proof {
            lemma_receipt_position(self.waiters@, item_id@);
        }
        let mut i: usize = 0;
        while i < self.waiters.len()
            invariant
                i <= self.waiters.len(),
                i <= receipt_position(self.waiters@, item_id@) <= self.waiters@.len(),
                forall|k: int|
                    0 <= k < receipt_position(self.waiters@, item_id@)
                        ==> #[trigger] self.waiters@[k].item_id@ != item_id@,
                awaits(self.waiters@, item_id@) <==> receipt_position(self.waiters@, item_id@)
                    < self.waiters@.len(),
                awaits(self.waiters@, item_id@) ==> self.waiters@[receipt_position(
                    self.waiters@,
                    item_id@,
                )].item_id@ == item_id@,
            decreases self.waiters.len() - i,
        {
            if same_text(self.waiters[i].item_id.as_str(), item_id) {
                return i;
            }
            i = i + 1;
        }
        i
    }

    /// Claims the receipt for `item_id`, if it is open.
    pub fn durable_response_item_persistence(&self, item_id: String) -> (res: Option<
        DurableResponseItemPersistence,
    >)
        ensures
            res is Some <==> awaits(self.waiters@, item_id@),
            res is Some ==> res->Some_0 == (DurableResponseItemPersistence {
                item_id,
                completed: false,
            }),
    {
        if self.has_durable_response_item_waiter(item_id.as_str()) {
            Some(DurableResponseItemPersistence { item_id, completed: false })
        } else {
            None
        }
    }

    /// Closes the receipt for `item_id`. What comes back is to be sent to the party that waits.
    pub fn complete_durable_response_item(
        &mut self,
        item_id: &str,
        result: Result<(), PersistenceFailure>,
    ) -> (res: Option<Completion<S>>)
        ensures
            old(self).well_formed() ==> final(self).well_formed(),
            final(self).mailbox == old(self).mailbox,
            res is Some <==> awaits(old(self).waiters@, item_id@),
            res is None ==> final(self).waiters == old(self).waiters,
            res is Some ==> {
                let at = receipt_position(old(self).waiters@, item_id@);
                &&& res->Some_0 == (Completion { sender: old(self).waiters@[at].sender, result })
                &&& final(self).waiters@ == old(self).waiters@.remove(at)
            },
    {
        let at: usize = self.find_waiter(item_id);
        if at < self.waiters.len() {
            let waiter: DurableWaiter<S> = self.waiters.remove(at);
            Some(Completion { sender: waiter.sender, result })
        } else {
            None
        }
    }

    /// Drops what an active turn still waits for: requests to the user, and queued input, whose
    /// receipts are answered with a refusal.
    pub fn clear_pending(&mut self, active_turn: &mut ActiveTurn) -> (res: Vec<Completion<S>>)
        ensures
            old(self).well_formed() ==> final(self).well_formed(),
            final(self).mailbox == old(self).mailbox,
            final(self).waiters@ == released(
                old(self).waiters@,
                queued_item_ids(old(active_turn).turn_state.pending_input.items@),
            ),
            res@ == release_answers(
                old(self).waiters@,
                queued_item_ids(old(active_turn).turn_state.pending_input.items@),
            ),
            final(active_turn).task == old(active_turn).task,
            final(active_turn).execution_settings_refresh_requested == old(
                active_turn,
            ).execution_settings_refresh_requested,
            final(active_turn).turn_state.identity == old(active_turn).turn_state.identity,
            final(active_turn).turn_state.mailbox_delivery_phase == old(
                active_turn,
            ).turn_state.mailbox_delivery_phase,
            final(active_turn).turn_state.pending_input.items@.len() == 0,
            final(active_turn).turn_state.pending_waiters@.len() == 0,
    {
        active_turn.turn_state.pending_waiters.clear();
        let items: Vec<TurnInput> = take_pending_input_for_turn_state(&mut active_turn.turn_state);
        let ghost waiters = self.waiters@;
        let mut answers: Vec<Completion<S>> = Vec::new();
        let mut i: usize = 0;
        assert(items@.take(0) =~= Seq::empty());
        while i < items.len()
            invariant
                i <= items.len(),
                old(self).well_formed() ==> self.well_formed(),
                self.mailbox == old(self).mailbox,
                waiters == old(self).waiters@,
                self.waiters@ == released(waiters, queued_item_ids(items@.take(i as int))),
                answers@ == release_answers(waiters, queued_item_ids(items@.take(i as int))),
            decreases items.len() - i,
        {
            let ghost ids = queued_item_ids(items@.take(i as int));
            assert(items@.take(i + 1).drop_last() =~= items@.take(i as int));
            assert(items@.take(i + 1).last() == items@[i as int]);
            if let TurnInput::ResponseItem(item) = &items[i] {
                if let Some(id) = item.id() {
                    assert(ids.push(id@).drop_last() =~= ids);
                    assert(ids.push(id@).last() == id@);
                    let answer: Option<Completion<S>> = self.complete_durable_response_item(
                        id.as_str(),
                        Err(PersistenceFailure::TurnCleared),
                    );
                    if let Some(answer) = answer {
                        answers.push(answer);
                    }
                }
            }
            i = i + 1;
        }
        assert(items@.take(items.len() as int) =~= items@);
        answers
    }
}

/// A claimed receipt of a response item that is being made durable.
#[derive(Clone, Debug, PartialEq, Eq)]
pub struct DurableResponseItemPersistence {
    pub item_id: String,
    pub completed: bool,
}

impl DurableResponseItemPersistence {
    /// Answers the receipt with the outcome of the persistence.
    pub fn complete<S>(
        &mut self,
        queue: &mut InputQueue<S>,
        result: Result<(), PersistenceFailure>,
    ) -> (res: Option<Completion<S>>)
        ensures
            *final(self) == (DurableResponseItemPersistence { completed: true, ..*old(self) }),
            old(queue).well_formed() ==> final(queue).well_formed(),
            final(queue).mailbox == old(queue).mailbox,
            res is Some <==> awaits(old(queue).waiters@, old(self).item_id@),
            res is None ==> final(queue).waiters == old(queue).waiters,
            res is Some ==> {
                let at = receipt_position(old(queue).waiters@, old(self).item_id@);
                &&& res->Some_0 == (Completion { sender: old(queue).waiters@[at].sender, result })
                &&& final(queue).waiters@ == old(queue).waiters@.remove(at)
            },
    {
        self.completed = true;
        queue.complete_durable_response_item(self.item_id.as_str(), result)
    }

    /// Gives the claim up: a receipt that was not answered is answered with a refusal.
    pub fn release<S>(&self, queue: &mut InputQueue<S>) -> (res: Option<Completion<S>>)
        ensures
            old(queue).well_formed() ==> final(queue).well_formed(),
            final(queue).mailbox == old(queue).mailbox,
            res is Some <==> !self.completed && awaits(old(queue).waiters@, self.item_id@),
            res is None ==> final(queue).waiters == old(queue).waiters,
            res is Some ==> {
                let at = receipt_position(old(queue).waiters@, self.item_id@);
                &&& res->Some_0.sender == old(queue).waiters@[at].sender
                &&& res->Some_0.result == Err::<(), PersistenceFailure>(
                    PersistenceFailure::TaskEnded,
                )
                &&& final(queue).waiters@ == old(queue).waiters@.remove(at)
            },
    {
        if self.completed {
            None
        } else {
            queue.complete_durable_response_item(
                self.item_id.as_str(),
                Err(PersistenceFailure::TaskEnded),
            )
        }
    }
}

/// Messages leave the mailbox in the order in which they came.
pub proof fn law_mail_is_delivered_in_order(
    mails: Seq<PendingMailboxCommunication>,
    mail: PendingMailboxCommunication,
)
    ensures
        mail_input(mails.push(mail)) == mail_input(mails).push(
            TurnInput::InterAgentCommunication(mail.communication),
        ),
{
    assert(mail_input(mails.push(mail)) =~= mail_input(mails).push(
        TurnInput::InterAgentCommunication(mail.communication),
    ));
}

/// A message that does not trigger a turn has no say in which turn the drained input belongs to.
pub proof fn law_quiet_mail_names_no_parent(
    mails: Seq<PendingMailboxCommunication>,
    mail: PendingMailboxCommunication,
)
    requires
        !mail.communication.trigger_turn,
    ensures
        trigger_parents(mails.push(mail)) == trigger_parents(mails),
{
    assert(mails.push(mail).drop_last() =~= mails);
}

/// Two triggering messages that name different turns leave the drained input without a parent.
pub proof fn law_disagreeing_triggers_name_no_parent(
    mails: Seq<PendingMailboxCommunication>,
    i: int,
    j: int,
)
    requires
        0 <= i < trigger_parents(mails).len(),
        0 <= j < trigger_parents(mails).len(),
        trigger_parents(mails)[i] != trigger_parents(mails)[j],
    ensures
        common_parent(trigger_parents(mails)) is None,
{
}

/// Whatever a user or the session queues for a turn asks for a follow-up; mail does exactly where
/// it triggers a turn.
pub proof fn law_only_quiet_mail_asks_for_no_follow_up(
    content: Vec<UserInput>,
    client_id: Option<String>,
    item: ResponseItem,
    mail: InterAgentCommunication,
)
    ensures
        is_steer(TurnInput::UserInput { content, client_id }),
        is_steer(TurnInput::ResponseItem(item)),
        is_steer(TurnInput::InterAgentCommunication(mail)) <==> mail.trigger_turn,
{
}

/// Input asks for a follow-up exactly when one of its items does.
pub proof fn law_one_item_is_enough_for_a_follow_up(items: Seq<TurnInput>, last: TurnInput)
    ensures
        !any_steer(Seq::empty()),
        any_steer(items.push(last)) <==> any_steer(items) || is_steer(last),
{
    let all = items.push(last);
    assert(all[items.len() as int] == last);
    assert forall|i: int| 0 <= i < items.len() implies #[trigger] all[i] == items[i] by {}
    if any_steer(items) {
        let i = choose|i: int| 0 <= i < items.len() && is_steer(#[trigger] items[i]);
        assert(is_steer(all[i]));
    }
    if any_steer(all) {
        let i = choose|i: int| 0 <= i < all.len() && is_steer(#[trigger] all[i]);
        if i < items.len() {
            assert(is_steer(items[i]));
        }
    }
}

spec fn triggers_for(mail: PendingMailboxCommunication, parent: Option<Seq<char>>) -> bool {
    mail.communication.trigger_turn && option_text(mail.parent_turn_id) == parent
}

proof fn lemma_trigger_parents(mails: Seq<PendingMailboxCommunication>)
    ensures
        forall|i: int|
            0 <= i < mails.len() && (#[trigger] mails[i]).communication.trigger_turn
                ==> trigger_parents(mails).contains(option_text(mails[i].parent_turn_id)),
        forall|k: int|
            0 <= k < trigger_parents(mails).len() ==> exists|i: int|
                0 <= i < mails.len() && triggers_for(
                    #[trigger] mails[i],
                    #[trigger] trigger_parents(mails)[k],
                ),
    decreases mails.len(),
{
    if mails.len() > 0 {
        let head = mails.drop_last();
        lemma_trigger_parents(head);
        let rest = trigger_parents(head);
        let all = trigger_parents(mails);
        assert forall|i: int| 0 <= i < mails.len() && (
        #[trigger] mails[i]).communication.trigger_turn implies all.contains(
            option_text(mails[i].parent_turn_id),
        ) by {
            if i < head.len() {
                assert(head[i] == mails[i]);
                let k = choose|k: int|
                    0 <= k < rest.len() && rest[k] == option_text(mails[i].parent_turn_id);
                assert(all[k] == rest[k]);
            } else {
                assert(all[rest.len() as int] == option_text(mails[i].parent_turn_id));
            }
        }
        assert forall|k: int| 0 <= k < all.len() implies exists|i: int|
            0 <= i < mails.len() && triggers_for(#[trigger] mails[i], #[trigger] all[k]) by {
            if k < rest.len() {
                assert(all[k] == rest[k]);
                let i = choose|i: int|
                    0 <= i < head.len() && triggers_for(#[trigger] head[i], rest[k]);
                assert(mails[i] == head[i]);
            } else {
                let last = mails[mails.len() - 1];
                assert(last == mails.last());
                assert(triggers_for(last, all[k]));
            }
        }
    } else {
        assert(trigger_parents(mails).len() == 0);
    }
}

/// The drained input belongs to a turn exactly when the mailbox holds triggering messages that
/// all name that turn, and its name is not blank.
pub proof fn law_drained_input_belongs_to_the_turn_that_all_triggers_name(
    mails: Seq<PendingMailboxCommunication>,
    id: Seq<char>,
)
    ensures
        common_parent(trigger_parents(mails)) == Some(id) <==> {
            &&& !blank(id)
            &&& exists|i: int|
                0 <= i < mails.len() && (#[trigger] mails[i]).communication.trigger_turn
            &&& forall|i: int|
                0 <= i < mails.len() && (#[trigger] mails[i]).communication.trigger_turn
                    ==> match mails[i].parent_turn_id {
                    Some(own) => own@ == id,
                    None => false,
                }
        },
{
    lemma_trigger_parents(mails);
    let parents = trigger_parents(mails);
    let triggers = exists|i: int|
        0 <= i < mails.len() && (#[trigger] mails[i]).communication.trigger_turn;
    let agree = forall|i: int|
        0 <= i < mails.len() && (#[trigger] mails[i]).communication.trigger_turn
            ==> match mails[i].parent_turn_id {
            Some(own) => own@ == id,
            None => false,
        };
    if common_parent(parents) == Some(id) {
        assert(parents[0] == Some(id));
        let i = choose|i: int|
            0 <= i < mails.len() && triggers_for(#[trigger] mails[i], parents[0]);
        assert(mails[i].communication.trigger_turn);
        assert forall|i: int| 0 <= i < mails.len() && (
        #[trigger] mails[i]).communication.trigger_turn implies match mails[i].parent_turn_id {
            Some(own) => own@ == id,
            None => false,
        } by {
            assert(parents.contains(option_text(mails[i].parent_turn_id)));
            let k = choose|k: int|
                0 <= k < parents.len() && parents[k] == option_text(mails[i].parent_turn_id);
            assert(parents[k] == parents[0]);
        }
    }
    if !blank(id) && triggers && agree {
        let i = choose|i: int|
            0 <= i < mails.len() && (#[trigger] mails[i]).communication.trigger_turn;
        assert(parents.contains(option_text(mails[i].parent_turn_id)));
        assert forall|k: int| 0 <= k < parents.len() implies #[trigger] parents[k] == Some(id) by {
            let j = choose|j: int|
                0 <= j < mails.len() && triggers_for(#[trigger] mails[j], parents[k]);
            assert(mails[j].communication.trigger_turn);
        }
        assert(parents[0] == Some(id));
    }
}

/// The receipt for an item is the first that is open under its identity.
pub proof fn law_receipt_is_the_first_of_its_identity<S>(
    waiters: Seq<DurableWaiter<S>>,
    id: Seq<char>,
    k: int,
)
    requires
        0 <= k < waiters.len(),
        waiters[k].item_id@ == id,
        forall|i: int| 0 <= i < k ==> (#[trigger] waiters[i]).item_id@ != id,
    ensures
        awaits(waiters, id),
        receipt_position(waiters, id) == k,
{
    lemma_receipt_position(waiters, id);
}

/// A receipt that is given up is taken out of its place and its own sender is answered; the
/// receipts before and after it stay in order, and so do the answers.
pub proof fn law_given_up_receipt_leaves_the_others_in_order<S>(
    waiters: Seq<DurableWaiter<S>>,
    ids: Seq<Seq<char>>,
    id: Seq<char>,
    k: int,
)
    requires
        0 <= k < released(waiters, ids).len(),
        released(waiters, ids)[k].item_id@ == id,
        forall|i: int| 0 <= i < k ==> (#[trigger] released(waiters, ids)[i]).item_id@ != id,
    ensures
        released(waiters, Seq::empty()) == waiters,
        release_answers(waiters, Seq::empty()).len() == 0,
        released(waiters, ids.push(id)) == released(waiters, ids).remove(k),
        release_answers(waiters, ids.push(id)) == release_answers(waiters, ids).push(
            Completion {
                sender: released(waiters, ids)[k].sender,
                result: Err(PersistenceFailure::TurnCleared),
            },
        ),
{
    assert(ids.push(id).drop_last() =~= ids);
    law_receipt_is_the_first_of_its_identity(released(waiters, ids), id, k);
}

/// Only queued response items with an identity have receipts to give up, in the order of the
/// queue.
pub proof fn law_queued_receipts_are_those_of_response_items(
    items: Seq<TurnInput>,
    item: ResponseItem,
    content: Vec<UserInput>,
    client_id: Option<String>,
    mail: InterAgentCommunication,
)
    ensures
        queued_item_ids(Seq::empty()).len() == 0,
        queued_item_ids(items.push(TurnInput::ResponseItem(item))) == match item.spec_id() {
            Some(id) => queued_item_ids(items).push(id@),
            None => queued_item_ids(items),
        },
        queued_item_ids(items.push(TurnInput::UserInput { content, client_id }))
            == queued_item_ids(items),
        queued_item_ids(items.push(TurnInput::InterAgentCommunication(mail)))
            == queued_item_ids(items),
{
    assert(items.push(TurnInput::ResponseItem(item)).drop_last() =~= items);
    assert(items.push(TurnInput::UserInput { content, client_id }).drop_last() =~= items);
    assert(items.push(TurnInput::InterAgentCommunication(mail)).drop_last() =~= items);
}

/// Mail may be delivered while nothing runs, and to a running turn until that leaves it to the
/// next; what is queued is queued for the running turn.
pub proof fn law_running_turn_decides_on_its_input(turn: ActiveTurn, sub_id: Seq<char>)
    ensures
        delivery_open(None),
        delivery_open(Some(turn)) <==> turn.turn_state.mailbox_delivery_phase
            == MailboxDeliveryPhase::CurrentTurn,
        turn_input(None).len() == 0,
        turn_input(Some(turn)) == turn.turn_state.pending_input.items@,
        !runs_sub_id(None, sub_id),
        runs_sub_id(Some(turn), sub_id) <==> match turn.task {
            Some(task) => task.sub_id@ == sub_id,
            None => false,
        },
{
}

/// Two turns are the same turn where they differ at most in what is queued and whether mail is
/// accepted.
pub proof fn law_same_turn_differs_only_in_its_queue(before: ActiveTurn, after: ActiveTurn)
    ensures
        same_turn(before, after) <==> after == (ActiveTurn {
            turn_state: TurnState {
                pending_input: after.turn_state.pending_input,
                mailbox_delivery_phase: after.turn_state.mailbox_delivery_phase,
                ..before.turn_state
            },
            ..before
        }),
{
}

/// An empty mailbox delivers nothing.
pub proof fn law_empty_mailbox_delivers_nothing()
    ensures
        mail_input(Seq::empty()).len() == 0,
{
}

/// A receipt is open exactly when a party waits for its item, and no two are for one item as long
/// as a receipt is opened only where none is open.
pub proof fn law_receipts_are_told_apart<S>(
    waiters: Seq<DurableWaiter<S>>,
    waiter: DurableWaiter<S>,
    id: Seq<char>,
)
    ensures
        !awaits(Seq::<DurableWaiter<S>>::empty(), id),
        awaits(waiters.push(waiter), id) <==> awaits(waiters, id) || waiter.item_id@ == id,
        distinct_receipts(Seq::<DurableWaiter<S>>::empty()),
        distinct_receipts(waiters.push(waiter)) <==> distinct_receipts(waiters) && !awaits(
            waiters,
            waiter.item_id@,
        ),
{
    let all = waiters.push(waiter);
    let n = waiters.len() as int;
    assert(all[n] == waiter);
    assert forall|i: int| 0 <= i < n implies #[trigger] all[i] == waiters[i] by {}
    if awaits(waiters, id) {
        let i = choose|i: int| 0 <= i < n && #[trigger] waiters[i].item_id@ == id;
        assert(all[i].item_id@ == id);
    }
    if awaits(all, id) {
        let i = choose|i: int| 0 <= i < all.len() && #[trigger] all[i].item_id@ == id;
        if i < n {
            assert(waiters[i].item_id@ == id);
        }
    }
    if distinct_receipts(all) {
        assert forall|i: int, j: int| 0 <= i < j < n implies #[trigger] waiters[i].item_id@
            != #[trigger] waiters[j].item_id@ by {
            assert(all[i].item_id@ != all[j].item_id@);
        }
        if awaits(waiters, waiter.item_id@) {
            let i = choose|i: int| 0 <= i < n && #[trigger] waiters[i].item_id@ == waiter.item_id@;
            assert(all[i].item_id@ != all[n].item_id@);
        }
    }
}

/// A message that comes into the mailbox is delivered, after those that were there before it, and
/// the mailbox is empty then.
pub proof fn law_mail_that_comes_in_is_delivered<S>(
    first: &mut InputQueue<S>,
    second: &mut InputQueue<S>,
    mail: InterAgentCommunication,
    parent_turn_id: Option<String>,
    activity: InputQueueActivity,
    res: (Vec<TurnInput>, Option<String>),
)
    requires
        call_ensures(
            InputQueue::<S>::enqueue_mailbox_communication,
            (first, mail, parent_turn_id),
            activity,
        ),
        *old(second) == *final(first),
        call_ensures(InputQueue::<S>::drain_mailbox_input_items, (second,), res),
    ensures
        activity is Mailbox,
        res.0@.len() == old(first).mailbox@.len() + 1,
        res.0@.last() == TurnInput::InterAgentCommunication(mail),
        forall|i: int|
            0 <= i < old(first).mailbox@.len() ==> #[trigger] res.0@[i]
                == TurnInput::InterAgentCommunication(old(first).mailbox@[i].communication),
        final(second).mailbox@.len() == 0,
        final(second).waiters == old(first).waiters,
{
}

/// Input that was taken is not taken again. While the running turn leaves mail to the next,
/// nothing is taken and nothing changes.
pub proof fn law_pending_input_is_taken_once<S>(
    first: &mut InputQueue<S>,
    first_turn: &mut Option<ActiveTurn>,
    second: &mut InputQueue<S>,
    second_turn: &mut Option<ActiveTurn>,
    taken: (Vec<TurnInput>, Option<String>),
    again: (Vec<TurnInput>, Option<String>),
)
    requires
        call_ensures(InputQueue::<S>::get_pending_input, (first, first_turn), taken),
        *old(second) == *final(first),
        *old(second_turn) == *final(first_turn),
        call_ensures(InputQueue::<S>::get_pending_input, (second, second_turn), again),
    ensures
        again.0@.len() == 0,
        delivery_open(*old(first_turn)) ==> taken.0@ == turn_input(*old(first_turn)) + mail_input(
            old(first).mailbox@,
        ),
        !delivery_open(*old(first_turn)) ==> taken.0@.len() == 0 && *final(first_turn) == *old(
            first_turn,
        ) && final(first).mailbox == old(first).mailbox,
{
}

/// Mail that was left to the next turn can be let in again, and the turn has then lost nothing.
pub proof fn law_deferred_mail_is_let_in_again(
    first: &mut Option<ActiveTurn>,
    second: &mut Option<ActiveTurn>,
    sub_id: &str,
)
    requires
        runs_sub_id(*old(first), sub_id@),
        call_ensures(defer_mailbox_delivery_to_next_turn, (first, sub_id), ()),
        *old(second) == *final(first),
        call_ensures(accept_mailbox_delivery_for_current_turn, (second, sub_id), ()),
    ensures
        delivery_open(*final(first)) <==> delivery_open(*old(first)) && any_steer(
            turn_input(*old(first)),
        ),
        delivery_open(*final(second)),
        turn_input(*final(second)) == turn_input(*old(first)),
        final(second)->Some_0.task == old(first)->Some_0.task,
{
}

/// Input that is queued for a turn comes after what was queued, and is all taken at once.
pub proof fn law_queued_input_is_taken_in_order(
    first: &mut TurnState,
    second: &mut TurnState,
    input: Vec<TurnInput>,
    activity: InputQueueActivity,
    taken: Vec<TurnInput>,
)
    requires
        call_ensures(
            extend_pending_input_and_accept_mailbox_delivery_for_turn_state,
            (first, input),
            activity,
        ),
        *old(second) == *final(first),
        call_ensures(take_pending_input_for_turn_state, (second,), taken),
    ensures
        activity is Steer,
        taken@ == old(first).pending_input.items@ + input@,
        final(second).pending_input.items@.len() == 0,
        final(second).accepts_mail(),
        final(second).identity == old(first).identity,
        final(second).pending_waiters == old(first).pending_waiters,
{
}

/// The party that waits for an item is answered with what became of it, and only once: the receipt
/// that was opened last is closed again, and the others stay.
pub proof fn law_waiting_party_is_answered_once<S>(
    first: &mut InputQueue<S>,
    active: &mut Option<ActiveTurn>,
    second: &mut InputQueue<S>,
    item: ResponseItem,
    sender: S,
    opened: Result<InputQueueActivity, (ResponseItem, S)>,
    id: &str,
    result: Result<(), PersistenceFailure>,
    answer: Option<Completion<S>>,
)
    requires
        old(first).well_formed(),
        item.spec_id() matches Some(own) && own@ == id@,
        call_ensures(
            InputQueue::<S>::enqueue_durable_response_item_for_active_turn,
            (first, active, item, sender),
            opened,
        ),
        opened is Ok,
        *old(second) == *final(first),
        call_ensures(InputQueue::<S>::complete_durable_response_item, (second, id, result), answer),
    ensures
        turn_input(*final(active)) == turn_input(*old(active)).push(TurnInput::ResponseItem(item)),
        answer == Some(Completion { sender, result }),
        final(second).waiters@ == old(first).waiters@,
        !awaits(final(second).waiters@, id@),
{
    let before = old(first).waiters@;
    let opened_with = final(first).waiters@;
    assert(opened_with[before.len() as int].item_id@ == id@);
    assert forall|i: int| 0 <= i < before.len() implies (#[trigger] opened_with[i]).item_id@ != id@ by {
        assert(opened_with[i] == before[i]);
    }
    law_receipt_is_the_first_of_its_identity(opened_with, id@, before.len() as int);
    assert(opened_with.remove(before.len() as int) =~= before);
}

/// A claim that was answered owes nothing when it is given up; one that was not is answered with a
/// refusal.
pub proof fn law_unanswered_claim_is_refused<S>(
    claim: DurableResponseItemPersistence,
    queue: &mut InputQueue<S>,
    answer: Option<Completion<S>>,
)
    requires
        call_ensures(DurableResponseItemPersistence::release::<S>, (&claim, queue), answer),
    ensures
        claim.completed ==> answer is None && final(queue).waiters == old(queue).waiters,
        !claim.completed && awaits(old(queue).waiters@, claim.item_id@) ==> (
        answer matches Some(completion) && completion.result == Err::<(), PersistenceFailure>(
            PersistenceFailure::TaskEnded,
        )),
        final(queue).mailbox == old(queue).mailbox,
{
}

} // verus!
