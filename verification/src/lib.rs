//! A handler map: a structure that maps message types to handlers that can
//! be called with them.
//!
//! `HandlerMap` stores one handler per message type and dispatches an
//! incoming message to the handler filed under its type. Each type is stood
//! for by a [`TypeKey`], an identifier handed out by a type-identity service
//! outside this library; the key carries the type it stands for as a phantom
//! parameter, so a handler registered for one type can never be handed a
//! message of another.

use vstd::prelude::*;

use std::collections::HashMap;

mod boxfn;

pub use boxfn::BoxFn;
pub use boxfn::ErasedFn;

verus! {

broadcast use vstd::std_specs::hash::group_hash_axioms;

/// A key standing for one message type `T`.
///
/// Keys are issued by a type-identity service that the library consumes but
/// does not implement. That service owes two things: the same type is always
/// given the same identifier, and distinct types are given distinct
/// identifiers. The phantom parameter ties each key value to the one type it
/// was issued for.
pub struct TypeKey<T> {
    id: u64,
    _t: core::marker::PhantomData<T>,
}

impl<T> TypeKey<T> {
    /// The identifier this key carries.
    pub closed spec fn id_spec(self) -> u64 {
        self.id
    }

    /// Makes the key for type `T` out of the identifier the identity service
    /// assigned to `T`.
    pub fn new(id: u64) -> (r: Self)
        ensures
            r.id_spec() == id,
    {
        TypeKey { id, _t: core::marker::PhantomData }
    }

    /// The identifier this key carries.
    pub fn id(&self) -> (r: u64)
        ensures
            r == self.id_spec(),
    {
        self.id
    }
}

/// Maps message types, stood for by their keys, to handlers that can be
/// called with them.
///
/// At most one handler is registered per key at any time; registering under
/// a key that already has a handler releases the old handler first. Dropping
/// the map releases every handler still registered, each exactly once.
pub struct HandlerMap {
    table: HashMap<u64, ErasedFn>,
}

impl HandlerMap {
    /// The set of key identifiers that currently have a registered handler.
    pub closed spec fn registered(self) -> Set<u64> {
        self.table@.dom()
    }

    /// Creates a new map with no handlers.
    pub fn new() -> (r: HandlerMap)
        ensures
            r.registered() == Set::<u64>::empty(),
    {
        let m = HandlerMap { table: HashMap::new() };
        proof {
            assert(m.registered() =~= Set::<u64>::empty());
        }
        m
    }

    /// Registers a new handler into the map, for messages of the type the
    /// key stands for.
    ///
    /// A handler already registered under the same key is released and
    /// replaced: the last registration wins. The handler must accept every
    /// message of its type, since a later dispatch may hand it any one.
    pub fn insert<T: 'static, F: Fn(T) + 'static>(&mut self, key: &TypeKey<T>, handler: F)
        requires
            forall|m: T| call_requires(handler, (m,)),
        ensures
            final(self).registered() == old(self).registered().insert(key.id_spec()),
    {
        let wrapped = BoxFn::new(handler);
        let erased = wrapped.erase();
        self.table.insert(key.id(), erased);
    }

    /// Un-registers the handler for the given key from this map, releasing
    /// it; no effect if none is registered.
    pub fn remove<T>(&mut self, key: &TypeKey<T>)
        ensures
            final(self).registered() == old(self).registered().remove(key.id_spec()),
    {
        self.table.remove(&key.id());
    }

    /// Returns true if the given key currently has a handler registered in
    /// the map.
    pub fn is_registered<T>(&self, key: &TypeKey<T>) -> (r: bool)
        ensures
            r == self.registered().contains(key.id_spec()),
    {
        self.table.contains_key(&key.id())
    }

    /// Returns true if the given message has a handler registered in this
    /// map.
    ///
    /// This is the same operation as `is_registered`, but allows calling it
    /// with a value rather than having to supply the type.
    pub fn val_is_registered<T>(&self, key: &TypeKey<T>, _msg: &T) -> (r: bool)
        ensures
            r == self.registered().contains(key.id_spec()),
    {
        self.is_registered(key)
    }

    /// Calls the handler registered for the message's type, returning
    /// whether one was registered.
    ///
    /// On a hit the handler runs exactly once with the message and the call
    /// returns true; on a miss the message is dropped with no effect and the
    /// call returns false. The key's phantom parameter guarantees the stored
    /// handler is only ever handed the type it was registered for.
    pub fn call<T: 'static>(&self, key: &TypeKey<T>, msg: T) -> (r: bool)
        ensures
            r == self.registered().contains(key.id_spec()),
    {
        match self.table.get(&key.id()) {
            Some(act) => {
                act.call_erased(msg);
                true
            },
            None => false,
        }
    }
}

impl Default for HandlerMap {
    /// Creates a new map with no handlers.
    fn default() -> (r: HandlerMap)
        ensures
            r.registered() == Set::<u64>::empty(),
    {
        HandlerMap::new()
    }
}

/// After a handler is registered for a key, that key is registered, whatever
/// was registered before: a `call` for it then reports a hit, and
/// `is_registered` reports true. `pre` and `post` are the map's states before
/// and after the registration.
pub proof fn lemma_insert_registers(pre: HandlerMap, post: HandlerMap, k: u64)
    requires
        post.registered() == pre.registered().insert(k),
    ensures
        post.registered().contains(k),
{
}

/// Registering twice under one key leaves the map exactly as one
/// registration does: the second write is the one that stands. `once` and
/// `twice` are the map's states after one and after two registrations under
/// `k`, from the same starting state `pre`.
pub proof fn lemma_insert_overwrites(pre: HandlerMap, once: HandlerMap, twice: HandlerMap, k: u64)
    requires
        once.registered() == pre.registered().insert(k),
        twice.registered() == once.registered().insert(k),
    ensures
        twice.registered() == once.registered(),
        twice.registered().contains(k),
{
    assert(pre.registered().insert(k).insert(k) =~= pre.registered().insert(k));
}

/// Removing a key after registering it leaves the key unregistered: a `call`
/// for it then reports a miss. `mid` is the state after the registration,
/// `post` the state after the removal.
pub proof fn lemma_remove_unregisters(pre: HandlerMap, mid: HandlerMap, post: HandlerMap, k: u64)
    requires
        mid.registered() == pre.registered().insert(k),
        post.registered() == mid.registered().remove(k),
    ensures
        !post.registered().contains(k),
{
}

/// Registrations under distinct keys are independent: registering or
/// removing under one key leaves every other key registered exactly as it
/// was, so dispatching one type never reaches another type's handler.
/// `inserted` and `removed` are the states after registering and after
/// removing under `k1`, both from `pre`.
pub proof fn lemma_distinct_keys_independent(
    pre: HandlerMap,
    inserted: HandlerMap,
    removed: HandlerMap,
    k1: u64,
    k2: u64,
)
    requires
        k1 != k2,
        inserted.registered() == pre.registered().insert(k1),
        removed.registered() == pre.registered().remove(k1),
    ensures
        inserted.registered().contains(k2) == pre.registered().contains(k2),
        removed.registered().contains(k2) == pre.registered().contains(k2),
{
}

} // verus!
