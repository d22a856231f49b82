//! The sessions of a process, by conversation.
use crate::ids::ThreadId;
use std::collections::HashMap;
use vstd::prelude::*;

verus! {

broadcast use vstd::std_specs::hash::group_hash_axioms;

/// Sessions by conversation. `W` is a handle on a session that does not keep it alive.
pub struct SessionIndex<W> {
    pub map: HashMap<u128, W>,
}

impl<W> View for SessionIndex<W> {
    type V = Map<u128, W>;

    open spec fn view(&self) -> Map<u128, W> {
        self.map@
    }
}

impl<W> SessionIndex<W> {
    pub fn new() -> (res: SessionIndex<W>)
        ensures
            res@ == Map::<u128, W>::empty(),
    {
        SessionIndex { map: HashMap::new() }
    }

    /// Enters a session; it takes the place of an earlier one of the same conversation.
    pub fn register(&mut self, conversation_id: ThreadId, session: W)
        ensures
            final(self)@ == old(self)@.insert(conversation_id.value, session),
    {
        self.map.insert(conversation_id.value, session);
    }

    /// The session of a conversation.
    pub fn get(&self, conversation_id: ThreadId) -> (res: Option<&W>)
        ensures
            match res {
                Some(session) => self@.contains_key(conversation_id.value)
                    && self@[conversation_id.value] == *session,
                None => !self@.contains_key(conversation_id.value),
            },
    {
        self.map.get(&conversation_id.value)
    }
}

/// A session is found under its conversation, and entering it changes no other.
pub proof fn law_registered_session_is_found<W>(
    index: Map<u128, W>,
    conversation_id: ThreadId,
    session: W,
    other: ThreadId,
)
    requires
        other != conversation_id,
    ensures
        index.insert(conversation_id.value, session).contains_key(conversation_id.value),
        index.insert(conversation_id.value, session)[conversation_id.value] == session,
        index.insert(conversation_id.value, session).contains_key(other.value)
            == index.contains_key(other.value),
        index.insert(conversation_id.value, session)[other.value] == index[other.value],
{
}

/// A session that is entered is found under its conversation, in place of an earlier one; what is
/// found under another conversation does not change.
pub proof fn law_entered_session_takes_the_place_of_an_earlier_one<W>(
    index: &mut SessionIndex<W>,
    conversation_id: ThreadId,
    session: W,
    other: ThreadId,
)
    requires
        call_ensures(SessionIndex::<W>::register, (index, conversation_id, session), ()),
        other != conversation_id,
    ensures
        final(index)@.contains_key(conversation_id.value),
        final(index)@[conversation_id.value] == session,
        final(index)@.contains_key(other.value) <==> old(index)@.contains_key(other.value),
        final(index)@[other.value] == old(index)@[other.value],
{
}

} // verus!
