//! Registries of singleton services: at most one address for each actor
//! type.
//!
//! A registry maps the identity of an actor type to the address of the one
//! instance that serves it. The process-wide registry and the registry of a
//! single thread are two values of the same type; the caller keeps them
//! apart, guards the first with a lock, and creates it on first use.

use crate::error::ActorError;
use fnv::FnvHasher;
use std::collections::HashMap;
use std::hash::BuildHasherDefault;
use std::hash::Hash;
use vstd::prelude::*;
use vstd::std_specs::hash::obeys_key_model;

verus! {

/// `fnv::FnvHasher`, the hasher of the registry's map. Nothing of its inside
/// is used here.
#[verifier::external_type_specification]
#[verifier::external_body]
pub struct ExFnvHasher(FnvHasher);

/// `std::hash::BuildHasherDefault`, which makes a hasher with `H::default()`.
/// Nothing of its inside is used here.
#[verifier::external_type_specification]
#[verifier::external_body]
#[verifier::reject_recursive_types(H)]
pub struct ExBuildHasherDefault<H>(BuildHasherDefault<H>);

/// Looks `key` up with `HashMap::get`, in a map that hashes with
/// `fnv::FnvHasher`. That hasher starts every hash from one fixed state and
/// folds the written bytes into it, so equal keys always meet in the same
/// bucket and the map finds exactly what was stored under `key`. This is
/// claimed, not proved, and only of keys that hash and compare as values.
#[verifier::external_body]
fn table_get<'a, K: Hash + Eq, V>(
    table: &'a HashMap<K, V, BuildHasherDefault<FnvHasher>>,
    key: &K,
) -> (found: Option<&'a V>)
    requires
        obeys_key_model::<K>(),
    ensures
        found == (if table@.contains_key(*key) {
            Some(&table@[*key])
        } else {
            None
        }),
{
    table.get(key)
}

/// Stores `value` under `key` with `HashMap::insert`, in a map that hashes
/// with `fnv::FnvHasher`. The map afterwards holds `value` under `key` and is
/// otherwise unchanged; the value that stood under `key` before comes back.
/// This is claimed, not proved, and only of keys that hash and compare as
/// values.
#[verifier::external_body]
fn table_insert<K: Hash + Eq, V>(
    table: &mut HashMap<K, V, BuildHasherDefault<FnvHasher>>,
    key: K,
    value: V,
) -> (before: Option<V>)
    requires
        obeys_key_model::<K>(),
    ensures
        final(table)@ == old(table)@.insert(key, value),
        before == (if old(table)@.contains_key(key) {
            Some(old(table)@[key])
        } else {
            None
        }),
{
    table.insert(key, value)
}

/// Takes what stands under `key` out with `HashMap::remove`, in a map that
/// hashes with `fnv::FnvHasher`. The map afterwards holds nothing under `key`
/// and is otherwise unchanged; the value that stood under `key` comes back.
/// This is claimed, not proved, and only of keys that hash and compare as
/// values.
#[verifier::external_body]
fn table_remove<K: Hash + Eq, V>(
    table: &mut HashMap<K, V, BuildHasherDefault<FnvHasher>>,
    key: &K,
) -> (taken: Option<V>)
    requires
        obeys_key_model::<K>(),
    ensures
        final(table)@ == old(table)@.remove(*key),
        taken == (if old(table)@.contains_key(*key) {
            Some(old(table)@[*key])
        } else {
            None
        }),
{
    table.remove(key)
}

/// The registry after a service asked to be started under `key` with the
/// address `candidate`: a key that is taken keeps its address.
pub open spec fn registered<K, V>(table: Map<K, V>, key: K, candidate: V) -> Map<K, V> {
    if table.contains_key(key) {
        table
    } else {
        table.insert(key, candidate)
    }
}

/// What a lookup of `key` gives.
pub open spec fn resolved<K, V, E>(table: Map<K, V>, key: K) -> Result<V, ActorError<E>> {
    if table.contains_key(key) {
        Ok(table[key])
    } else {
        Err(ActorError::ServiceNotFound)
    }
}

/// What a lookup of `key` gives in a registry that may not exist yet.
pub open spec fn resolved_global<K, V, E>(table: Option<Map<K, V>>, key: K) -> Result<
    V,
    ActorError<E>,
> {
    match table {
        Some(table) => resolved(table, key),
        None => Err(ActorError::RegistryUninitialized),
    }
}

/// The addresses of the running services, by actor type. `K` identifies an
/// actor type and `V` is an address with its type erased. The keys must hash
/// and compare as values, which `obeys_key_model` says of a type.
pub struct Registry<K, V> {
    table: HashMap<K, V, BuildHasherDefault<FnvHasher>>,
}

impl<K, V> Registry<K, V> {
    /// The registered addresses, by actor type.
    pub closed spec fn view(&self) -> Map<K, V> {
        self.table@
    }
}

impl<K: Hash + Eq + Copy, V> Registry<K, V> {
    /// A registry without services.
    pub fn new() -> (registry: Self)
        ensures
            registry@ == Map::<K, V>::empty(),
    {
        Registry { table: HashMap::default() }
    }

    /// Registers `candidate` as the address of the service `key`, unless the
    /// service has an address already. Returns the address that the registry
    /// holds for `key` afterwards, and whether that is the candidate. Only
    /// then is the actor behind the candidate to be started; otherwise it is
    /// to be dropped unstarted.
    pub fn start_service(&mut self, key: K, candidate: V) -> (outcome: (&V, bool))
        requires
            obeys_key_model::<K>(),
        ensures
            final(self)@ == registered(old(self)@, key, candidate),
            *outcome.0 == final(self)@[key],
            outcome.1 == !old(self)@.contains_key(key),
    {
        let fresh = table_get(&self.table, &key).is_none();
        if fresh {
            let _ = table_insert(&mut self.table, key, candidate);
        }
        (table_get(&self.table, &key).unwrap(), fresh)
    }

    /// As `start_service`, for a candidate that is costly to have: `make`
    /// builds it, and is called only where the service has no address yet.
    /// Returns the address that the registry holds for `key` afterwards, and
    /// whether that is the one just made.
    pub fn start_service_with<F: FnOnce() -> V>(&mut self, key: K, make: F) -> (outcome: (
        &V,
        bool,
    ))
        requires
            obeys_key_model::<K>(),
            call_requires(make, ()),
        ensures
            final(self)@ == registered(old(self)@, key, *outcome.0),
            *outcome.0 == final(self)@[key],
            outcome.1 == !old(self)@.contains_key(key),
            outcome.1 ==> call_ensures(make, (), *outcome.0),
    {
        let fresh = table_get(&self.table, &key).is_none();
        if fresh {
            let candidate = make();
            let _ = table_insert(&mut self.table, key, candidate);
        }
        (table_get(&self.table, &key).unwrap(), fresh)
    }

    /// Takes the address of the service `key` back out of the registry, for
    /// a service whose startup failed after its address was registered. The
    /// service is unknown afterwards and can be started anew. Returns the
    /// address that was registered, or `None` where there was none.
    pub fn withdraw(&mut self, key: K) -> (taken: Option<V>)
        requires
            obeys_key_model::<K>(),
        ensures
            final(self)@ == old(self)@.remove(key),
            taken == (if old(self)@.contains_key(key) {
                Some(old(self)@[key])
            } else {
                None
            }),
    {
        table_remove(&mut self.table, &key)
    }

    /// The address of the service `key`, or `ServiceNotFound` where none is
    /// registered.
    pub fn from_registry<E>(&self, key: K) -> (found: Result<&V, ActorError<E>>)
        requires
            obeys_key_model::<K>(),
        ensures
            match found {
                Ok(address) => resolved::<K, V, E>(self@, key) == Ok::<V, ActorError<E>>(*address),
                Err(error) => resolved::<K, V, E>(self@, key) == Err::<V, ActorError<E>>(error),
            },
    {
        match table_get(&self.table, &key) {
            Some(address) => Ok(address),
            None => Err(ActorError::ServiceNotFound),
        }
    }
}

/// The address of the service `key` in the process-wide registry, which
/// exists only once a service has been started: `RegistryUninitialized`
/// where there is no registry yet, `ServiceNotFound` where the registry holds
/// nothing under `key`.
pub fn from_global<'a, K: Hash + Eq + Copy, V, E>(
    registry: Option<&'a Registry<K, V>>,
    key: K,
) -> (found: Result<&'a V, ActorError<E>>)
    requires
        obeys_key_model::<K>(),
    ensures
        match found {
            Ok(address) => resolved_global::<K, V, E>(
                match registry {
                    Some(registry) => Some(registry@),
                    None => None,
                },
                key,
            ) == Ok::<V, ActorError<E>>(*address),
            Err(error) => resolved_global::<K, V, E>(
                match registry {
                    Some(registry) => Some(registry@),
                    None => None,
                },
                key,
            ) == Err::<V, ActorError<E>>(error),
        },
{
    match registry {
        Some(registry) => registry.from_registry(key),
        None => Err(ActorError::RegistryUninitialized),
    }
}

/// One instance for each type: a service that is started a second time gets
/// the address that the first start registered, the registry does not change,
/// and a lookup resolves to that same address. No start ever replaces an
/// address that is registered.
pub proof fn lemma_registry_singleton<K, V, E>(table: Map<K, V>, key: K, first: V, second: V)
    ensures
        registered(registered(table, key, first), key, second) == registered(table, key, first),
        registered(table, key, first).contains_key(key),
        resolved::<K, V, E>(registered(registered(table, key, first), key, second), key) == Ok::<
            V,
            ActorError<E>,
        >(registered(table, key, first)[key]),
        forall|other: K| #[trigger]
            table.contains_key(other) ==> registered(table, key, first).contains_key(other)
                && registered(table, key, first)[other] == table[other],
{
}

/// A failed start leaves no trace. Where a service is registered under a
/// free key and its address is then withdrawn, the registry is what it was:
/// a lookup does not find the service, and a later start registers its own
/// candidate as the first one would have.
pub proof fn lemma_failed_start_leaves_no_trace<K, V, E>(
    table: Map<K, V>,
    key: K,
    failed: V,
    later: V,
)
    requires
        !table.contains_key(key),
    ensures
        registered(table, key, failed).remove(key) == table,
        resolved::<K, V, E>(registered(table, key, failed).remove(key), key) == Err::<
            V,
            ActorError<E>,
        >(ActorError::ServiceNotFound),
        registered(registered(table, key, failed).remove(key), key, later) == registered(
            table,
            key,
            later,
        ),
        registered(registered(table, key, failed).remove(key), key, later)[key] == later,
{
    assert(registered(table, key, failed).remove(key) =~= table);
}

} // verus!
