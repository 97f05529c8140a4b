//! The service registry: a map from type identifiers to construction
//! strategies.

use std::collections::HashMap;
use std::sync::Arc;
use vstd::prelude::*;

verus! {

broadcast use vstd::std_specs::hash::group_hash_axioms;

/// Identifier of a service type. Each concrete service type owns one value.
pub type TypeKey = u64;

/// How the container obtains a service of one type.
pub enum Entry<V, F> {
    /// A value built before registration; every resolution shares it.
    Instance(Arc<V>),
    /// A zero-argument constructor, run anew by every resolution.
    Factory(F),
}

/// Failure of a resolution: no entry exists for the requested type.
#[derive(Clone, Copy, PartialEq, Eq, Structural, Debug)]
pub struct NotRegistered {
    pub requested_type: TypeKey,
}

/// Whether `handle` is a possible outcome of resolving `entry`: the stored
/// value itself for an instance, any value that the constructor may return for
/// a factory.
pub open spec fn yields<V, F: Fn() -> V>(entry: Entry<V, F>, handle: Arc<V>) -> bool {
    match entry {
        Entry::Instance(stored) => handle == stored,
        Entry::Factory(make) => call_ensures(make, (), *handle),
    }
}

/// Whether `outcome` is a possible result of resolving `key` against
/// `registry`: a handle that the entry yields, or, exactly when there is no
/// entry, the failure that names `key`.
pub open spec fn resolution<V, F: Fn() -> V>(
    registry: Map<TypeKey, Entry<V, F>>,
    key: TypeKey,
    outcome: Result<Arc<V>, NotRegistered>,
) -> bool {
    match outcome {
        Ok(handle) => registry.contains_key(key) && yields(registry[key], handle),
        Err(e) => !registry.contains_key(key) && e == (NotRegistered { requested_type: key }),
    }
}

/// What a resolution of `key` returns once the handle has been downcast:
/// the recovered value, or the failure for `key` where there is none.
pub open spec fn recovered<T>(key: TypeKey, found: Option<T>) -> Result<T, NotRegistered> {
    match found {
        Some(value) => Ok(value),
        None => Err(NotRegistered { requested_type: key }),
    }
}

/// Whether `outcome` is a possible result of resolving `key` against
/// `registry` and downcasting the handle with `downcast`: what `downcast`
/// made of a handle that the entry yields, or, without an entry, the failure
/// that names `key`.
pub open spec fn resolution_as<V, F: Fn() -> V, T, D: Fn(Arc<V>) -> Option<T>>(
    registry: Map<TypeKey, Entry<V, F>>,
    key: TypeKey,
    downcast: D,
    outcome: Result<T, NotRegistered>,
) -> bool {
    if registry.contains_key(key) {
        exists|handle: Arc<V>, found: Option<T>|
            #![trigger call_ensures(downcast, (handle,), found)]
            yields(registry[key], handle) && call_ensures(downcast, (handle,), found) && outcome
                == recovered(key, found)
    } else {
        outcome == Err::<T, NotRegistered>(NotRegistered { requested_type: key })
    }
}

/// Turns the outcome of a downcast into the outcome of the resolution.
pub fn from_downcast<T>(key: TypeKey, found: Option<T>) -> (r: Result<T, NotRegistered>)
    ensures
        r == recovered(key, found),
{
    match found {
        Some(value) => Ok(value),
        None => Err(NotRegistered { requested_type: key }),
    }
}

/// The registry. Holds at most one entry per type identifier.
#[verifier::reject_recursive_types(V)]
pub struct Container<V, F: Fn() -> V> {
    entries: HashMap<TypeKey, Entry<V, F>>,
}

impl<V, F: Fn() -> V> Container<V, F> {
    #[verifier::type_invariant]
    spec fn well_formed(self) -> bool {
        forall|key: TypeKey| #[trigger]
            self.entries@.contains_key(key) ==> (self.entries@[key] matches Entry::Factory(make)
                ==> call_requires(make, ()))
    }

    /// The registry as a map from type identifier to entry.
    pub closed spec fn view(self) -> Map<TypeKey, Entry<V, F>> {
        self.entries@
    }

    /// An empty registry.
    pub fn new() -> (c: Self)
        ensures
            c@ == Map::<TypeKey, Entry<V, F>>::empty(),
    {
        Container { entries: HashMap::new() }
    }

    /// Stores `entry` under `key`, in place of any entry that was there.
    fn store(&mut self, key: TypeKey, entry: Entry<V, F>)
        requires
            entry matches Entry::Factory(make) ==> call_requires(make, ()),
        ensures
            final(self)@ == old(self)@.insert(key, entry),
    {
        proof {
            use_type_invariant(&*self);
        }
        let mut taken = Container::new();
        std::mem::swap(self, &mut taken);
        let Container { mut entries } = taken;
        entries.insert(key, entry);
        *self = Container { entries };
    }

    /// Registers a ready-made value for `key`. Any earlier entry for `key`
    /// is replaced; entries of other types are untouched.
    pub fn register_instance(&mut self, key: TypeKey, value: V)
        ensures
            final(self)@ == old(self)@.insert(key, Entry::Instance(Arc::new(value))),
    {
        self.store(key, Entry::Instance(Arc::new(value)));
    }

    /// Registers a deferred constructor for `key`. Any earlier entry for `key`
    /// is replaced; entries of other types are untouched. The constructor is
    /// not run here.
    pub fn register_factory(&mut self, key: TypeKey, factory: F)
        requires
            call_requires(factory, ()),
        ensures
            final(self)@ == old(self)@.insert(key, Entry::Factory(factory)),
    {
        self.store(key, Entry::Factory(factory));
    }

    /// Looks up the entry for `key` and produces a handle from it.
    ///
    /// An instance entry hands out a new handle to the stored value. A factory
    /// entry runs its constructor once and hands out the value just built;
    /// nothing is kept, so the next resolution builds again. Without an entry
    /// the call fails and names the type that was asked for.
    pub fn resolve(&self, key: TypeKey) -> (r: Result<Arc<V>, NotRegistered>)
        ensures
            resolution(self@, key, r),
    {
        proof {
            use_type_invariant(self);
        }
        match self.entries.get(&key) {
            Some(entry) => match entry {
                Entry::Instance(stored) => Ok(stored.clone()),
                Entry::Factory(make) => Ok(Arc::new(make())),
            },
            None => Err(NotRegistered { requested_type: key }),
        }
    }

    /// Resolves `key` and recovers a value of the caller's type from the
    /// handle with `downcast`.
    ///
    /// A handle that `downcast` does not accept counts as no registration at
    /// all: the call fails as it does for a type without an entry.
    pub fn resolve_as<T, D: Fn(Arc<V>) -> Option<T>>(&self, key: TypeKey, downcast: D) -> (r: Result<
        T,
        NotRegistered,
    >)
        requires
            forall|handle: Arc<V>| call_requires(downcast, (handle,)),
        ensures
            resolution_as(self@, key, downcast, r),
    {
        match self.resolve(key) {
            Ok(handle) => {
                let found = downcast(handle);
                from_downcast(key, found)
            },
            Err(e) => Err(e),
        }
    }
}

} // verus!
