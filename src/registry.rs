use std::collections::HashMap;
use vstd::prelude::*;

verus! {

broadcast use vstd::std_specs::hash::group_hash_axioms;

/// The process-wide map from conversation id to that conversation's fan-out
/// channel. Entries are created on first use and never removed.
pub struct ConversationRegistry<C> {
    channels: HashMap<u128, C>,
}

impl<C> View for ConversationRegistry<C> {
    type V = Map<u128, C>;

    closed spec fn view(&self) -> Map<u128, C> {
        self.channels@
    }
}

/// The registry after one get-or-create of `id` that offered `fresh`: an
/// existing channel stays, otherwise `fresh` is added.
pub open spec fn after_get_or_create<C>(m: Map<u128, C>, id: u128, fresh: C) -> Map<u128, C> {
    if m.contains_key(id) {
        m
    } else {
        m.insert(id, fresh)
    }
}

/// The registry after get-or-create calls for `id`, one after the other,
/// offering the channels of `offers` in turn.
pub open spec fn after_all<C>(m: Map<u128, C>, id: u128, offers: Seq<C>) -> Map<u128, C>
    decreases offers.len(),
{
    if offers.len() == 0 {
        m
    } else {
        after_get_or_create(after_all(m, id, offers.drop_last()), id, offers.last())
    }
}

/// The one channel that survives get-or-create calls for `id` offering `offers`.
pub open spec fn survivor<C>(m: Map<u128, C>, id: u128, offers: Seq<C>) -> C
    recommends
        m.contains_key(id) || offers.len() > 0,
{
    if m.contains_key(id) {
        m[id]
    } else {
        offers[0]
    }
}

impl<C> ConversationRegistry<C> {
    /// An empty registry.
    pub fn new() -> (r: Self)
        ensures
            r@ == Map::<u128, C>::empty(),
    {
        ConversationRegistry { channels: HashMap::new() }
    }

    /// Makes sure that conversation `id` has a channel, adding `fresh` where
    /// it has none. Returns whether `fresh` was added; where it was not, the
    /// caller uses the existing channel and drops its own.
    pub fn get_or_create(&mut self, id: u128, fresh: C) -> (created: bool)
        ensures
            created == !old(self)@.contains_key(id),
            final(self)@ == after_get_or_create(old(self)@, id, fresh),
    {
        if self.channels.contains_key(&id) {
            false
        } else {
            self.channels.insert(id, fresh);
            true
        }
    }

    /// The channel of conversation `id`, if it has one.
    pub fn channel(&self, id: u128) -> (r: Option<&C>)
        ensures
            match r {
                Some(c) => self@.contains_key(id) && *c == self@[id],
                None => !self@.contains_key(id),
            },
    {
        self.channels.get(&id)
    }

    /// Whether conversation `id` has a channel.
    pub fn contains(&self, id: u128) -> (r: bool)
        ensures
            r == self@.contains_key(id),
    {
        self.channels.contains_key(&id)
    }

    /// The number of conversations that have a channel.
    pub fn len(&self) -> (r: usize)
        ensures
            r == self@.len(),
    {
        self.channels.len()
    }
}

/// However many get-or-create calls for one conversation id are made, one
/// after the other, exactly one channel survives for it: the one that was
/// there before, or else the first one offered. Every caller, each right
/// after its own call, finds that same channel, and no other id changes.
pub proof fn lemma_single_survivor<C>(m: Map<u128, C>, id: u128, offers: Seq<C>)
    requires
        offers.len() > 0,
    ensures
        after_all(m, id, offers).contains_key(id),
        after_all(m, id, offers)[id] == survivor(m, id, offers),
        forall|i: int|
            0 <= i < offers.len() ==> #[trigger] after_all(m, id, offers.take(i + 1))[id]
                == survivor(m, id, offers),
        forall|k: u128| k != id ==> (#[trigger] after_all(m, id, offers).contains_key(k)
            == m.contains_key(k)),
        after_all(m, id, offers).remove(id) == m.remove(id),
    decreases offers.len(),
{
    let prev = offers.drop_last();
    if prev.len() == 0 {
        assert(prev == offers.take(0));
        assert(after_all(m, id, prev) == m);
    } else {
        lemma_single_survivor(m, id, prev);
        assert(survivor(m, id, prev) == survivor(m, id, offers));
    }
    assert(offers.take(offers.len() as int) == offers);
    assert forall|i: int| 0 <= i < offers.len() implies #[trigger] after_all(
        m,
        id,
        offers.take(i + 1),
    )[id] == survivor(m, id, offers) by {
        if i + 1 < offers.len() {
            assert(offers.take(i + 1) == prev.take(i + 1));
        }
    }
    assert(after_all(m, id, offers).remove(id) =~= m.remove(id));
}

} // verus!
