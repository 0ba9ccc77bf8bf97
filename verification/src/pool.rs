//! Pool storage and the selection of an available object.
use crate::checkout::{sync_decision, Budget, SyncAction, SyncEvent};
use crate::config::{is_default_config, AutoPoolConfig, PickStrategy};
use vstd::prelude::*;

verus! {

broadcast use vstd::seq_lib::group_to_multiset_ensures;

/// `rand::rngs::ThreadRng`, the thread-local generator's handle.
#[verifier::external_type_specification]
#[verifier::external_body]
pub struct ExThreadRng(rand::rngs::ThreadRng);

/// Calls `rand::rng`, which hands out the thread-local generator. It panics
/// only if the operating system cannot seed the generator.
#[verifier::external_body]
fn thread_rng() -> rand::rngs::ThreadRng {
    rand::rng()
}

/// Calls `Rng::next_u64` on the generator. Nothing is stated of the number,
/// which rests on chance.
#[verifier::external_body]
fn next_random(rng: &mut rand::rngs::ThreadRng) -> u64 {
    rand::Rng::next_u64(rng)
}

/// Calls `Vec::shrink_to_fit`, which lowers the capacity and keeps the
/// elements as they are.
#[verifier::external_body]
fn shrink_storage<T>(storage: &mut Vec<T>)
    ensures
        final(storage)@ == old(storage)@,
{
    storage.shrink_to_fit();
}

/// The index that a random draw selects among `len` available objects.
pub open spec fn random_index(len: nat, random: u64) -> int {
    (random as usize) as int % (len as int)
}

/// What one checkout from `items` hands out, and what stays available.
///
/// LIFO takes the last object. RANDOM takes the object at
/// `random_index`, and the last object moves into its place.
pub open spec fn extraction<T>(items: Seq<T>, strategy: PickStrategy, random: u64) -> (Option<T>, Seq<T>) {
    if items.len() == 0 {
        (None, items)
    } else {
        match strategy {
            PickStrategy::LIFO => (Some(items.last()), items.drop_last()),
            PickStrategy::RANDOM => {
                let i = random_index(items.len(), random);
                (Some(items[i]), items.update(i, items.last()).drop_last())
            },
        }
    }
}

/// A pool of caller-supplied objects: its checkout policy and the objects
/// that are available now. Checked-out objects are not held here; the pool
/// never creates replacement objects.
pub struct AutoPool<T> {
    config: AutoPoolConfig,
    storage: Vec<T>,
}

impl<T> View for AutoPool<T> {
    type V = Seq<T>;

    /// The available objects, in the order in which they were supplied or
    /// returned (up to RANDOM's swaps).
    closed spec fn view(&self) -> Seq<T> {
        self.storage@
    }
}

impl<T> AutoPool<T> {
    /// The checkout policy that the pool was made with.
    pub closed spec fn settings(&self) -> AutoPoolConfig {
        self.config
    }

    /// Create a pool with unlimited waiting and LIFO selection.
    pub fn new(items: Vec<T>) -> (pool: Self)
        ensures
            pool@ == items@,
            is_default_config(pool.settings()),
    {
        Self::new_with_config(AutoPoolConfig::default(), items)
    }

    /// Create a pool with the supplied checkout policy and initial objects.
    pub fn new_with_config(config: AutoPoolConfig, items: Vec<T>) -> (pool: Self)
        ensures
            pool@ == items@,
            pool.settings() == config,
    {
        AutoPool { config, storage: items }
    }

    /// The checkout policy.
    pub fn config(&self) -> (config: AutoPoolConfig)
        ensures
            config == self.settings(),
    {
        self.config
    }

    /// Add or return an object: it becomes the last available object.
    pub fn add(&mut self, item: T)
        ensures
            final(self)@ == old(self)@.push(item),
            final(self).settings() == old(self).settings(),
    {
        self.storage.push(item);
    }

    /// Return the number of available objects.
    pub fn size(&self) -> (n: usize)
        ensures
            n == self@.len(),
    {
        self.storage.len()
    }

    /// Shrink storage to the number of currently available objects; the
    /// available objects stay as they are.
    pub fn shrink_to_fit(&mut self)
        ensures
            final(self)@ == old(self)@,
            final(self).settings() == old(self).settings(),
    {
        shrink_storage(&mut self.storage);
    }

    /// Take one available object as the policy selects it, drawing a random
    /// number only where RANDOM chooses among two or more objects.
    pub fn extract_object(&mut self) -> (item: Option<T>)
        ensures
            final(self).settings() == old(self).settings(),
            item is None <==> old(self)@.len() == 0,
            exists|random: u64| #[trigger] extraction(old(self)@, old(self).settings().pick_strategy, random)
                == (item, final(self)@),
            old(self).settings().pick_strategy == PickStrategy::LIFO ==> (item, final(self)@)
                == extraction(old(self)@, PickStrategy::LIFO, 0),
    {
        let random = match self.config.pick_strategy {
            PickStrategy::RANDOM if self.storage.len() >= 2 => next_random(&mut thread_rng()),
            _ => 0,
        };
        self.extract_with(random)
    }

    /// Take one available object as the policy selects it, with `random`
    /// standing for the random draw that RANDOM selection uses.
    pub fn extract_with(&mut self, random: u64) -> (item: Option<T>)
        ensures
            final(self).settings() == old(self).settings(),
            (item, final(self)@) == extraction(old(self)@, old(self).settings().pick_strategy, random),
    {
        let len = self.storage.len();
        if len == 0 {
            return None;
        }
        match self.config.pick_strategy {
            PickStrategy::LIFO => self.storage.pop(),
            PickStrategy::RANDOM => {
                let index = (random as usize) % len;
                Some(self.storage.swap_remove(index))
            },
        }
    }
}

/// The objects that checkouts with the successive `draws` hand out of
/// `items`, one checkout per draw, in order.
pub open spec fn drained<T>(items: Seq<T>, strategy: PickStrategy, draws: Seq<u64>) -> Seq<T>
    decreases draws.len(),
{
    if draws.len() == 0 {
        Seq::empty()
    } else {
        let (item, rest) = extraction(items, strategy, draws[0]);
        match item {
            Some(x) => seq![x].add(drained(rest, strategy, draws.drop_first())),
            None => Seq::empty(),
        }
    }
}

/// A checkout hands out one of the available objects and keeps all the
/// others: no object is lost or duplicated, whatever the policy and the draw.
pub proof fn lemma_checkout_conserves_objects<T>(items: Seq<T>, strategy: PickStrategy, random: u64)
    requires
        items.len() > 0,
    ensures
        extraction(items, strategy, random).0 is Some,
        items.contains(extraction(items, strategy, random).0->0),
        extraction(items, strategy, random).1.len() == items.len() - 1,
        items.to_multiset() == extraction(items, strategy, random).1.to_multiset().insert(
            extraction(items, strategy, random).0->0,
        ),
{
    match strategy {
        PickStrategy::LIFO => {
            assert(items =~= items.drop_last().push(items.last()));
            assert(items.drop_last().push(items.last()).to_multiset()
                == items.drop_last().to_multiset().insert(items.last()));
        },
        PickStrategy::RANDOM => {
            let i = random_index(items.len(), random);
            let upd = items.update(i, items.last());
            let rest = upd.drop_last();
            assert(upd =~= rest.push(items.last()));
            assert(upd.to_multiset() == items.to_multiset().insert(items.last()).remove(items[i]));
            assert(rest.push(items.last()).to_multiset() == rest.to_multiset().insert(items.last()));
            assert(items.to_multiset().count(items[i]) > 0);
            let m = items.to_multiset();
            let r = rest.to_multiset();
            assert forall|v: T| #[trigger] m.count(v) == r.insert(items[i]).count(v) by {
                broadcast use vstd::multiset::group_multiset_axioms;

                assert(m.insert(items.last()).remove(items[i]).count(v) == r.insert(items.last()).count(v));
            }
            assert(m =~= r.insert(items[i]));
        },
    }
}

/// With LIFO selection, the next checkout hands out the object that was
/// added or returned last, and leaves the pool as it was before.
pub proof fn lemma_lifo_returns_last_added<T>(items: Seq<T>, item: T, random: u64)
    ensures
        extraction(items.push(item), PickStrategy::LIFO, random) == (Some(item), items),
{
    assert(items.push(item).drop_last() =~= items);
}

/// Checking out an object and returning it leaves the same objects
/// available; with LIFO selection, in the same order.
pub proof fn lemma_checkout_then_return<T>(items: Seq<T>, strategy: PickStrategy, random: u64)
    requires
        items.len() > 0,
    ensures
        ({
            let (item, rest) = extraction(items, strategy, random);
            &&& rest.push(item->0).to_multiset() == items.to_multiset()
            &&& strategy == PickStrategy::LIFO ==> rest.push(item->0) == items
        }),
{
    lemma_checkout_conserves_objects(items, strategy, random);
    if strategy == PickStrategy::LIFO {
        assert(items.drop_last().push(items.last()) =~= items);
    }
}

/// A blocking checkout that decides to take an object, having observed the
/// available objects under the lock, always receives one.
pub proof fn lemma_decided_extraction_delivers<T>(
    budget: Budget,
    event: SyncEvent,
    items: Seq<T>,
    strategy: PickStrategy,
    random: u64,
)
    requires
        sync_decision(budget, event) == SyncAction::Extract,
        event matches SyncEvent::LockAttempted { empty, .. } ==> empty == (items.len() == 0),
        event matches SyncEvent::Woken { empty, .. } ==> empty == (items.len() == 0),
    ensures
        extraction(items, strategy, random).0 is Some,
{
}

/// Checking out as many times as there are available objects hands out
/// every one of them exactly once, whatever the policy and the draws.
pub proof fn lemma_drain_hands_out_every_object<T>(items: Seq<T>, strategy: PickStrategy, draws: Seq<u64>)
    requires
        draws.len() == items.len(),
    ensures
        drained(items, strategy, draws).len() == items.len(),
        drained(items, strategy, draws).to_multiset() == items.to_multiset(),
    decreases draws.len(),
{
    if draws.len() == 0 {
        assert(items.to_multiset() =~= vstd::multiset::Multiset::empty()) by {
            assert(items =~= Seq::<T>::empty());
        }
    } else {
        lemma_checkout_conserves_objects(items, strategy, draws[0]);
        let (item, rest) = extraction(items, strategy, draws[0]);
        lemma_drain_hands_out_every_object(rest, strategy, draws.drop_first());
        let tail = drained(rest, strategy, draws.drop_first());
        vstd::seq_lib::lemma_seq_union_to_multiset_commutative(seq![item->0], tail);
        assert(tail.push(item->0) =~= tail + seq![item->0]);
    }
}

} // verus!
