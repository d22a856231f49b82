//! Faults that are put into checkpointing on purpose, by thread.
use crate::ids::ThreadId;
use std::collections::HashMap;
use std::collections::HashSet;
use vstd::prelude::*;

verus! {

broadcast use vstd::std_specs::hash::group_hash_axioms;

/// The threads that a kind of fault is installed for.
pub struct CheckpointFaults {
    pub threads: HashSet<u128>,
}

impl View for CheckpointFaults {
    type V = Set<u128>;

    open spec fn view(&self) -> Set<u128> {
        self.threads@
    }
}

impl CheckpointFaults {
    pub fn new() -> (res: CheckpointFaults)
        ensures
            res@ == Set::<u128>::empty(),
    {
        CheckpointFaults { threads: HashSet::new() }
    }

    /// Installs the fault for a thread, which must not have it yet.
    pub fn install(&mut self, thread_id: ThreadId)
        requires
            !old(self)@.contains(thread_id.value),
        ensures
            final(self)@ == old(self)@.insert(thread_id.value),
    {
        self.threads.insert(thread_id.value);
    }

    /// Takes the fault away again.
    pub fn remove(&mut self, thread_id: ThreadId)
        ensures
            final(self)@ == old(self)@.remove(thread_id.value),
    {
        self.threads.remove(&thread_id.value);
    }

    /// Whether the fault strikes a thread.
    pub fn strikes(&self, thread_id: ThreadId) -> (res: bool)
        ensures
            res == self@.contains(thread_id.value),
    {
        self.threads.contains(&thread_id.value)
    }
}

/// Pauses between the capture of a checkpoint and what follows, by thread. Each pause has a
/// token, which tells it from a later pause of the same thread.
pub struct CapturePauses {
    pub pauses: HashMap<u128, u64>,
}

impl View for CapturePauses {
    type V = Map<u128, u64>;

    open spec fn view(&self) -> Map<u128, u64> {
        self.pauses@
    }
}

impl CapturePauses {
    pub fn new() -> (res: CapturePauses)
        ensures
            res@ == Map::<u128, u64>::empty(),
    {
        CapturePauses { pauses: HashMap::new() }
    }

    /// Installs a pause for a thread, which must not have one yet.
    pub fn install(&mut self, thread_id: ThreadId, token: u64)
        requires
            !old(self)@.contains_key(thread_id.value),
        ensures
            final(self)@ == old(self)@.insert(thread_id.value, token),
    {
        self.pauses.insert(thread_id.value, token);
    }

    /// The pause that a thread has to make.
    pub fn pause_of(&self, thread_id: ThreadId) -> (res: Option<u64>)
        ensures
            match res {
                Some(token) => self@.contains_key(thread_id.value) && self@[thread_id.value]
                    == token,
                None => !self@.contains_key(thread_id.value),
            },
    {
        match self.pauses.get(&thread_id.value) {
            Some(token) => Some(*token),
            None => None,
        }
    }

    /// Takes a pause away; a later pause of the same thread is left alone.
    pub fn remove(&mut self, thread_id: ThreadId, token: u64)
        ensures
            final(self)@ == if old(self)@.contains_key(thread_id.value) && old(
                self,
            )@[thread_id.value] == token {
                old(self)@.remove(thread_id.value)
            } else {
                old(self)@
            },
    {
        let installed: bool = match self.pauses.get(&thread_id.value) {
            Some(current) => *current == token,
            None => false,
        };
        if installed {
            self.pauses.remove(&thread_id.value);
        }
    }
}

/// A fault that is taken away leaves no trace: the threads that it strikes are those from before
/// it was installed.
pub proof fn law_removed_fault_leaves_no_trace(threads: Set<u128>, thread_id: ThreadId)
    requires
        !threads.contains(thread_id.value),
    ensures
        threads.insert(thread_id.value).remove(thread_id.value) == threads,
{
    assert(threads.insert(thread_id.value).remove(thread_id.value) =~= threads);
}

/// A fault that is installed strikes its thread, until it is taken away; other threads are struck
/// as before.
pub proof fn law_installed_fault_strikes_until_removed(
    first: &mut CheckpointFaults,
    second: &mut CheckpointFaults,
    thread_id: ThreadId,
    other: ThreadId,
)
    requires
        !old(first)@.contains(thread_id.value),
        call_ensures(CheckpointFaults::install, (first, thread_id), ()),
        *old(second) == *final(first),
        call_ensures(CheckpointFaults::remove, (second, thread_id), ()),
        other != thread_id,
    ensures
        final(first)@.contains(thread_id.value),
        final(first)@.contains(other.value) <==> old(first)@.contains(other.value),
        !final(second)@.contains(thread_id.value),
        final(second)@.contains(other.value) <==> old(first)@.contains(other.value),
{
}

/// A pause is taken away only by its own token, so that a later pause of the same thread stays.
pub proof fn law_pause_is_taken_away_by_its_own_token(
    first: &mut CapturePauses,
    second: &mut CapturePauses,
    thread_id: ThreadId,
    token: u64,
    tried: u64,
)
    requires
        !old(first)@.contains_key(thread_id.value),
        call_ensures(CapturePauses::install, (first, thread_id, token), ()),
        *old(second) == *final(first),
        call_ensures(CapturePauses::remove, (second, thread_id, tried), ()),
    ensures
        final(first)@.contains_key(thread_id.value),
        final(first)@[thread_id.value] == token,
        tried == token ==> final(second)@ == old(first)@,
        tried != token ==> final(second)@ == final(first)@,
{
    if tried == token {
        assert(final(second)@ =~= old(first)@);
    }
}

} // verus!
