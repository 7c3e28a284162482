//! The handler table shared by the command bus and the query bus.
//!
//! A registry maps a message-type key to the handler registered for it. The
//! keys are routed through a `dashmap::DashMap` to a slot number; the handler
//! objects themselves live in a slot vector. Re-registering a key overwrites
//! its slot, so the old handler is dropped and the slot vector never holds more
//! handlers than there are registered keys.

use dashmap::DashMap;
use vstd::prelude::*;

verus! {

/// `dashmap::DashMap`, carried opaquely; what it holds is named by `slot_table`.
#[verifier::external_type_specification]
#[verifier::external_body]
#[verifier::reject_recursive_types(K)]
#[verifier::reject_recursive_types(V)]
#[verifier::reject_recursive_types(S)]
pub struct ExDashMap<K, V, S>(DashMap<K, V, S>);

/// The key/value pairs held by a `DashMap<u64, usize>`.
pub uninterp spec fn slot_table(m: DashMap<u64, usize>) -> Map<u64, usize>;

/// Calls `DashMap::new`, which builds a map that holds no entry.
#[verifier::external_body]
fn table_new() -> (m: DashMap<u64, usize>)
    ensures
        slot_table(m).dom() == Set::<u64>::empty(),
{
    DashMap::new()
}

/// Calls `DashMap::get` and copies the value out of the returned guard, which
/// is released before this function returns. `get` finds the entry whose key
/// equals `key`, if there is one.
#[verifier::external_body]
fn table_get(m: &DashMap<u64, usize>, key: u64) -> (r: Option<usize>)
    ensures
        r == (if slot_table(*m).contains_key(key) {
            Some(slot_table(*m)[key])
        } else {
            None
        }),
{
    m.get(&key).map(|entry| *entry.value())
}

/// Calls `DashMap::insert`: the entry for `key` now holds `value` (replacing
/// the entry that was there, if any), every other entry is untouched, and the
/// value that was replaced is returned.
#[verifier::external_body]
fn table_insert(m: &mut DashMap<u64, usize>, key: u64, value: usize) -> (r: Option<usize>)
    ensures
        slot_table(*final(m)) == slot_table(*old(m)).insert(key, value),
        r == (if slot_table(*old(m)).contains_key(key) {
            Some(slot_table(*old(m))[key])
        } else {
            None
        }),
{
    m.insert(key, value)
}

/// The handler that a bus whose routes are `routes` dispatches a message with
/// type key `key` to, or `None` when no handler is registered for it.
pub open spec fn route_of<H>(routes: Map<u64, H>, key: u64) -> Option<H> {
    if routes.contains_key(key) {
        Some(routes[key])
    } else {
        None
    }
}

/// Registering a handler for a key makes that key dispatch to exactly that
/// handler.
pub proof fn lemma_dispatch_after_register<H>(routes: Map<u64, H>, key: u64, handler: H)
    ensures
        route_of(routes.insert(key, handler), key) == Some(handler),
{
}

/// Registering a handler for one key leaves the dispatch of every other key
/// as it was: distinct message types do not collide.
pub proof fn lemma_register_keeps_other_keys<H>(
    routes: Map<u64, H>,
    key: u64,
    handler: H,
    other: u64,
)
    requires
        other != key,
    ensures
        route_of(routes.insert(key, handler), other) == route_of(routes, other),
{
}

/// A bus with nothing registered dispatches no key.
pub proof fn lemma_empty_dispatches_nothing<H>(key: u64)
    ensures
        route_of(Map::<u64, H>::empty(), key) is None,
{
}

/// Registering twice under one key is the same as registering only the
/// second handler: the later registration replaces the earlier one.
pub proof fn lemma_register_replaces<H>(routes: Map<u64, H>, key: u64, first: H, second: H)
    ensures
        routes.insert(key, first).insert(key, second) == routes.insert(key, second),
{
    assert(routes.insert(key, first).insert(key, second) =~= routes.insert(key, second));
}

/// Registrations under distinct keys commute.
pub proof fn lemma_registrations_commute<H>(
    routes: Map<u64, H>,
    key1: u64,
    handler1: H,
    key2: u64,
    handler2: H,
)
    requires
        key1 != key2,
    ensures
        routes.insert(key1, handler1).insert(key2, handler2) == routes.insert(key2, handler2).insert(
            key1,
            handler1,
        ),
{
    assert(routes.insert(key1, handler1).insert(key2, handler2) =~= routes.insert(
        key2,
        handler2,
    ).insert(key1, handler1));
}

/// A table from message-type keys to handlers.
pub struct HandlerRegistry<H> {
    slots: DashMap<u64, usize>,
    handlers: Vec<H>,
}

impl<H> HandlerRegistry<H> {
    /// The slot number that each registered key is routed to.
    pub closed spec fn table(&self) -> Map<u64, usize> {
        slot_table(self.slots)
    }

    /// Every registered key owns a distinct slot, every slot belongs to a
    /// registered key, and there are as many slots as keys.
    pub closed spec fn wf(&self) -> bool {
        &&& self.table().dom().finite()
        &&& forall|k: u64| #[trigger]
            self.table().contains_key(k) ==> self.table()[k] < self.handlers@.len()
        &&& forall|k1: u64, k2: u64|
            #![trigger self.table()[k1], self.table()[k2]]
            self.table().contains_key(k1) && self.table().contains_key(k2) && self.table()[k1]
                == self.table()[k2] ==> k1 == k2
        &&& self.handlers@.len() == self.table().dom().len()
    }

    /// The handler registered for each key.
    pub closed spec fn routes(&self) -> Map<u64, H> {
        Map::new(
            |k: u64| self.table().contains_key(k),
            |k: u64| self.handlers@[self.table()[k] as int],
        )
    }

    /// An empty registry.
    pub fn new() -> (r: Self)
        ensures
            r.wf(),
            r.routes() == Map::<u64, H>::empty(),
    {
        let r = HandlerRegistry { slots: table_new(), handlers: Vec::new() };
        assert(r.routes() =~= Map::<u64, H>::empty());
        r
    }

    /// The handler registered for `key`, if any.
    pub fn get(&self, key: u64) -> (r: Option<&H>)
        requires
            self.wf(),
        ensures
            r == (if self.routes().contains_key(key) {
                Some(&self.routes()[key])
            } else {
                None
            }),
    {
        match table_get(&self.slots, key) {
            Some(slot) => Some(&self.handlers[slot]),
            None => None,
        }
    }

    /// Registers `handler` for `key`, replacing (and dropping) the handler
    /// that was registered for it before, if any.
    pub fn register(&mut self, key: u64, handler: H)
        requires
            old(self).wf(),
        ensures
            final(self).wf(),
            final(self).routes() == old(self).routes().insert(key, handler),
    {
        let ghost before = self.routes();
        match table_get(&self.slots, key) {
            Some(slot) => {
                self.handlers.set(slot, handler);
                assert forall|k: u64| #[trigger]
                    self.table().contains_key(k) && k != key implies self.table()[k] != slot by {
                    assert(self.table()[key] == slot);
                }
            },
            None => {
                let slot = self.handlers.len();
                self.handlers.push(handler);
                table_insert(&mut self.slots, key, slot);
                let ghost old_table = self.table().remove(key);
                assert(old_table.dom().insert(key) =~= self.table().dom());
            },
        }
        assert(self.routes() =~= before.insert(key, handler));
    }
}

} // verus!
