//! The part of a session that its operations share.
use crate::ids::ThreadId;
use crate::session::input_queue::ActiveTurn;
use crate::session::input_queue::InputQueue;
use crate::session::input_queue::TurnState;
use crate::text::copy_option;
use vstd::prelude::*;

verus! {

/// Whether a writer may still be attached to the session.
#[derive(Clone, Copy, Debug, PartialEq, Eq, Structural)]
pub enum PersistenceRepairState {
    Active,
    ShuttingDown,
}

/// Persistence that was attached to a session after it had started without any.
#[derive(Clone, Debug, PartialEq, Eq)]
pub struct RepairedPersistence {
    pub rollout_path: Option<String>,
}

/// A running session. `S` is what an answer to a party that waits for durability is sent through.
pub struct Session<S> {
    pub thread_id: ThreadId,
    pub active_turn: Option<ActiveTurn>,
    pub input_queue: InputQueue<S>,
    /// Persistence may have lost track of what is saved: nothing may change until a restart.
    pub persistence_restart_required: bool,
    pub persistence_repair: PersistenceRepairState,
    pub repaired_persistence: Option<RepairedPersistence>,
    /// Whether the session is configured not to be saved.
    pub ephemeral: bool,
    /// The identity that the next turn gets.
    pub next_turn_identity: u64,
}

/// Whether `active` is the turn `identity`, reserved and without a task.
pub open spec fn is_reserved(active: Option<ActiveTurn>, identity: u64) -> bool {
    active matches Some(turn) && turn.task is None && turn.turn_state.identity == identity
}

impl<S> Session<S> {
    /// A session with nothing to do.
    pub fn new(thread_id: ThreadId, ephemeral: bool) -> (res: Session<S>)
        ensures
            res.thread_id == thread_id,
            res.active_turn is None,
            res.input_queue.mailbox@.len() == 0,
            res.input_queue.waiters@.len() == 0,
            !res.persistence_restart_required,
            res.persistence_repair == PersistenceRepairState::Active,
            res.repaired_persistence is None,
            res.ephemeral == ephemeral,
            res.next_turn_identity == 0,
    {
        Session {
            thread_id,
            active_turn: None,
            input_queue: InputQueue::new(),
            persistence_restart_required: false,
            persistence_repair: PersistenceRepairState::Active,
            repaired_persistence: None,
            ephemeral,
            next_turn_identity: 0,
        }
    }

    /// Lets no writer be attached any more.
    pub fn close_persistence_repair(&mut self)
        ensures
            *final(self) == (Session {
                persistence_repair: PersistenceRepairState::ShuttingDown,
                ..*old(self)
            }),
    {
        self.persistence_repair = PersistenceRepairState::ShuttingDown;
    }

    /// Where the rollout of attached persistence lies, if it lies in a file.
    pub fn repaired_rollout_path(&self) -> (res: Option<String>)
        ensures
            res == match self.repaired_persistence {
                Some(persistence) => persistence.rollout_path,
                None => None,
            },
    {
        match &self.repaired_persistence {
            Some(persistence) => copy_option(&persistence.rollout_path),
            None => None,
        }
    }

    /// Reserves the session for a turn that has no task yet, unless a turn is active. The result
    /// is the identity of the reserved turn.
    pub fn reserve_idle_turn(&mut self) -> (res: Option<u64>)
        ensures
            res is Some <==> old(self).active_turn is None,
            res is None ==> *final(self) == *old(self),
            res is Some ==> {
                &&& res->Some_0 == old(self).next_turn_identity
                &&& is_reserved(final(self).active_turn, res->Some_0)
                &&& final(self).active_turn->Some_0.turn_state.pending_input.items@.len() == 0
                &&& final(self).active_turn->Some_0.turn_state.accepts_mail()
                &&& final(self).active_turn->Some_0.turn_state.pending_waiters@.len() == 0
                &&& !final(self).active_turn->Some_0.execution_settings_refresh_requested
                &&& final(self).next_turn_identity == (old(self).next_turn_identity + 1) % (
                u64::MAX + 1)
                &&& *final(self) == (Session {
                    active_turn: final(self).active_turn,
                    next_turn_identity: final(self).next_turn_identity,
                    ..*old(self)
                })
            },
    {
        if self.active_turn.is_some() {
            return None;
        }
        let identity: u64 = self.next_turn_identity;
        self.active_turn = Some(
            ActiveTurn {
                task: None,
                turn_state: TurnState::new(identity),
                execution_settings_refresh_requested: false,
            },
        );
        self.next_turn_identity = if identity == u64::MAX {
            0
        } else {
            identity + 1
        };
        Some(identity)
    }

    /// Whether the session still is reserved for the turn `identity`.
    pub fn holds_reservation(&self, identity: u64) -> (res: bool)
        ensures
            res == is_reserved(self.active_turn, identity),
    {
        match &self.active_turn {
            Some(turn) => turn.task.is_none() && turn.turn_state.identity == identity,
            None => false,
        }
    }

    /// Gives up the reservation for the turn `identity`. Another turn, and a turn that has a task
    /// by now, is left alone.
    pub fn clear_reserved_idle_turn(&mut self, identity: u64)
        ensures
            *final(self) == (Session {
                active_turn: if is_reserved(old(self).active_turn, identity) {
                    None
                } else {
                    old(self).active_turn
                },
                ..*old(self)
            }),
    {
        if self.holds_reservation(identity) {
            self.active_turn = None;
        }
    }
}

/// Only a turn without a task is a reservation, and only its own identity names it.
pub proof fn law_reservation_is_an_idle_turn_of_its_own(turn: ActiveTurn, identity: u64)
    ensures
        !is_reserved(None, identity),
        is_reserved(Some(turn), identity) ==> turn.task is None && turn.turn_state.identity
            == identity,
        turn.task is None ==> is_reserved(Some(turn), turn.turn_state.identity),
{
}

/// An idle session can be reserved, and is then not idle: a second reservation is refused and
/// changes nothing. The reserved turn has nothing queued and takes mail.
pub proof fn law_session_is_reserved_once<S>(
    first: &mut Session<S>,
    second: &mut Session<S>,
    identity: Option<u64>,
    again: Option<u64>,
)
    requires
        old(first).active_turn is None,
        call_ensures(Session::<S>::reserve_idle_turn, (first,), identity),
        *old(second) == *final(first),
        call_ensures(Session::<S>::reserve_idle_turn, (second,), again),
    ensures
        identity == Some(old(first).next_turn_identity),
        final(first).active_turn matches Some(turn) && turn.task is None
            && turn.turn_state.identity == old(first).next_turn_identity
            && turn.turn_state.pending_input.items@.len() == 0 && turn.turn_state.accepts_mail(),
        again is None,
        *final(second) == *final(first),
{
}

/// A reservation that is given up leaves the session as idle as before, and its identity is not
/// given out again at once. Giving up another identity leaves the reservation alone.
pub proof fn law_given_up_reservation_frees_the_session<S>(
    first: &mut Session<S>,
    second: &mut Session<S>,
    identity: u64,
    given_up: u64,
)
    requires
        call_ensures(Session::<S>::reserve_idle_turn, (first,), Some(identity)),
        *old(second) == *final(first),
        call_ensures(Session::<S>::clear_reserved_idle_turn, (second, given_up), ()),
    ensures
        given_up == identity ==> *final(second) == (Session {
            next_turn_identity: final(first).next_turn_identity,
            ..*old(first)
        }),
        given_up != identity ==> *final(second) == *final(first),
        final(first).next_turn_identity != identity,
{
}

/// Once no writer may be attached any more, nothing else of the session has changed.
pub proof fn law_closed_repair_changes_nothing_else<S>(session: &mut Session<S>)
    requires
        call_ensures(Session::<S>::close_persistence_repair, (session,), ()),
    ensures
        final(session).persistence_repair is ShuttingDown,
        final(session).active_turn == old(session).active_turn,
        final(session).input_queue == old(session).input_queue,
        final(session).repaired_persistence == old(session).repaired_persistence,
        final(session).persistence_restart_required == old(session).persistence_restart_required,
        final(session).ephemeral == old(session).ephemeral,
{
}

} // verus!
