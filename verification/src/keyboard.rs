//! The keyboard tracker: the state in which each key was last seen.

use crate::key::{Key, KeyState};
use std::collections::HashMap;
use vstd::prelude::*;

verus! {

broadcast use vstd::std_specs::hash::group_hash_axioms;

/// The state that a record of keys gives to `key`: the recorded one, and
/// `Released` for a key that the record does not hold.
pub open spec fn state_in(recorded: Map<Key, KeyState>, key: Key) -> KeyState {
    if recorded.contains_key(key) {
        recorded[key]
    } else {
        KeyState::Released
    }
}

/// The record that results from `recorded` when the writes are made in order,
/// each a key and the state seen for it.
pub open spec fn record_all(recorded: Map<Key, KeyState>, writes: Seq<(Key, KeyState)>) -> Map<
    Key,
    KeyState,
>
    decreases writes.len(),
{
    if writes.len() == 0 {
        recorded
    } else {
        record_all(recorded, writes.drop_last()).insert(writes.last().0, writes.last().1)
    }
}

/// Tracks the last state seen of every key. A key that was never seen counts
/// as released; nothing is stored for it.
pub struct Keyboard {
    /// The recorded states, by the code of their key.
    keys: HashMap<u32, KeyState>,
}

impl View for Keyboard {
    type V = Map<Key, KeyState>;

    /// The keys recorded so far, each with its last state.
    closed spec fn view(&self) -> Map<Key, KeyState> {
        Map::new(
            |key: Key| self.keys@.contains_key(key.spec_code()),
            |key: Key| self.keys@[key.spec_code()],
        )
    }
}

impl Keyboard {
    /// A tracker that has seen no key yet.
    pub fn new() -> (keyboard: Keyboard)
        ensures
            keyboard@ == Map::<Key, KeyState>::empty(),
    {
        let keyboard = Keyboard { keys: HashMap::new() };
        assert(keyboard@ =~= Map::<Key, KeyState>::empty());
        keyboard
    }

    /// The last state recorded for `key`, or `Released` if none was.
    pub fn get_key_state(&self, key: Key) -> (state: KeyState)
        ensures
            state == state_in(self@, key),
    {
        let code: u32 = key.code();
        match self.keys.get(&code) {
            Some(state) => *state,
            None => KeyState::Released,
        }
    }

    /// Records `state` as the last state seen of `key`, in place of any
    /// earlier one. The other keys keep theirs.
    pub fn set_key_state(&mut self, key: Key, state: KeyState)
        ensures
            final(self)@ == old(self)@.insert(key, state),
    {
        let code: u32 = key.code();
        self.keys.insert(code, state);
        assert(self@ =~= old(self)@.insert(key, state));
    }
}

/// A write decides the state of its key and of no other key.
pub proof fn lemma_write_then_read(recorded: Map<Key, KeyState>, key: Key, state: KeyState)
    ensures
        state_in(recorded.insert(key, state), key) == state,
        forall|other: Key|
            other != key ==> #[trigger] state_in(recorded.insert(key, state), other) == state_in(
                recorded,
                other,
            ),
{
}

/// Writes to other keys leave the state of `key` as it was.
pub proof fn lemma_other_writes_keep_state(
    recorded: Map<Key, KeyState>,
    writes: Seq<(Key, KeyState)>,
    key: Key,
)
    requires
        forall|i: int| 0 <= i < writes.len() ==> (#[trigger] writes[i]).0 != key,
    ensures
        state_in(record_all(recorded, writes), key) == state_in(recorded, key),
    decreases writes.len(),
{
    if writes.len() > 0 {
        let earlier = writes.drop_last();
        assert forall|i: int| 0 <= i < earlier.len() implies (#[trigger] earlier[i]).0 != key by {
            assert(earlier[i] == writes[i]);
        }
        lemma_other_writes_keep_state(recorded, earlier, key);
        assert(writes.last() == writes[writes.len() - 1]);
    }
}

/// A key that was never written is released, whatever was written to the
/// other keys of a tracker that started empty.
pub proof fn lemma_unwritten_key_is_released(writes: Seq<(Key, KeyState)>, key: Key)
    requires
        forall|i: int| 0 <= i < writes.len() ==> (#[trigger] writes[i]).0 != key,
    ensures
        state_in(record_all(Map::empty(), writes), key) == KeyState::Released,
{
    lemma_other_writes_keep_state(Map::empty(), writes, key);
}

/// The most recent write to a key wins: after the writes, the key of write
/// `at` has the state of that write, if no later write names the key again.
pub proof fn lemma_last_write_wins(
    recorded: Map<Key, KeyState>,
    writes: Seq<(Key, KeyState)>,
    at: int,
)
    requires
        0 <= at < writes.len(),
        forall|later: int| at < later < writes.len() ==> (#[trigger] writes[later]).0 != writes[at].0,
    ensures
        state_in(record_all(recorded, writes), writes[at].0) == writes[at].1,
    decreases writes.len(),
{
    let earlier = writes.drop_last();
    if at < writes.len() - 1 {
        assert(earlier[at] == writes[at]);
        assert forall|later: int| at < later < earlier.len() implies (#[trigger] earlier[later]).0
            != earlier[at].0 by {
            assert(earlier[later] == writes[later]);
        }
        lemma_last_write_wins(recorded, earlier, at);
        assert(writes.last() == writes[writes.len() - 1]);
    }
}

} // verus!
