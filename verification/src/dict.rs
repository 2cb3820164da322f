//! The expiring store: a hash map from key to value and expiry.
//!
//! The store is seen as the map of its entries. What the operations do to that
//! map is stated for key types whose hashing and equality follow vstd's model
//! of a hash-table key (`obeys_key_model`), as vstd states it of `HashMap`
//! itself.
//!
//! An expiry is the point that the time domain computes for the time of
//! insertion moved forward by `ttl`. Where the time domain ends before that
//! point the entry is stored with `Expiry::Never`, and no sweep removes it.

use crate::clock::{duration_nanos, nanos_of, TimeNow};
use std::borrow::Borrow;
use std::collections::HashMap;
use std::hash::Hash;
use std::time::{Duration, SystemTime};
use vstd::prelude::*;
use vstd::std_specs::hash::{
    contains_borrowed_key, maps_borrowed_key_to_value, obeys_key_model,
};

verus! {

broadcast use vstd::std_specs::hash::group_hash_axioms;

/// When an entry's time is up.
pub enum Expiry<T> {
    /// At this point of the time domain.
    At(T),
    /// At a point beyond the end of the time domain, which no clock reading
    /// ever reaches.
    Never,
}

/// What the store holds: each key with its value and expiry.
pub type Entries<K, V, T> = Map<K, (V, Expiry<T>)>;

/// Whether an entry with expiry `e` is still alive at `now`: its expiry lies
/// strictly after `now`.
pub open spec fn outlives<T: TimeNow>(e: Expiry<T>, now: T) -> bool {
    match e {
        Expiry::At(t) => t.position() > now.position(),
        Expiry::Never => true,
    }
}

/// Whether `e` is the expiry of an entry inserted at `now` with a lifetime of
/// `ttl`: the point that the time domain computes for `now` moved forward by
/// `ttl`, which is not before `now` and not more than `ttl` after it, or `Never`
/// where the time domain ends before that point.
pub open spec fn deadline_is<T: TimeNow>(e: Expiry<T>, now: T, ttl: Duration) -> bool {
    match e {
        Expiry::At(t) => {
            &&& now.reaches(ttl)
            &&& t.position() == now.sum(ttl)
            &&& now.position() <= t.position() <= now.position() + duration_nanos(ttl)
        },
        Expiry::Never => !now.reaches(ttl),
    }
}

/// The value stored under `k`, if there is one.
pub open spec fn lookup<K, V, T>(m: Entries<K, V, T>, k: K) -> Option<V> {
    if m.contains_key(k) {
        Some(m[k].0)
    } else {
        None
    }
}

/// Whether `r` is a right answer to a lookup of the borrowed key `k`: a value
/// that `m` holds under it, or nothing where `m` has no such key.
pub open spec fn found<K, V, T, Q: ?Sized>(m: Entries<K, V, T>, k: &Q, r: Option<&V>) -> bool {
    match r {
        Some(v) => exists|e: Expiry<T>| #[trigger] maps_borrowed_key_to_value(m, k, (*v, e)),
        None => !contains_borrowed_key(m, k),
    }
}

/// `after` is `before` with `k` bound to `v`, expiring `ttl` after `now`.
pub open spec fn inserted_at<K, V, T: TimeNow>(
    before: Entries<K, V, T>,
    after: Entries<K, V, T>,
    k: K,
    v: V,
    now: T,
    ttl: Duration,
) -> bool {
    exists|e: Expiry<T>| #[trigger] deadline_is(e, now, ttl) && after == before.insert(k, (v, e))
}

/// What a sweep at `now` leaves of `m`: the entries that outlive `now`,
/// untouched.
pub open spec fn swept<K, V, T: TimeNow>(m: Entries<K, V, T>, now: T) -> Entries<K, V, T> {
    m.restrict(Set::new(|k: K| m.contains_key(k) && outlives(m[k].1, now)))
}

/// The expiry of an entry inserted at `now` with a lifetime of `ttl`.
pub fn deadline<T: TimeNow>(now: &T, ttl: Duration) -> (e: Expiry<T>)
    ensures
        deadline_is(e, *now, ttl),
{
    match now.later(ttl) {
        Some(t) => Expiry::At(t),
        None => Expiry::Never,
    }
}

/// Whether an entry with expiry `e` is still alive at `now`.
pub fn survives<T: TimeNow>(e: &Expiry<T>, now: &T) -> (alive: bool)
    ensures
        alive == outlives(*e, *now),
{
    match e {
        Expiry::At(t) => t.is_after(now),
        Expiry::Never => true,
    }
}

/// `HashMap::retain`, keeping the entries that are alive at `now`. Trusted: the
/// call visits every entry once, removes those for which the closure answers
/// `false`, and leaves the others as they were.
#[verifier::external_body]
fn retain_alive<K, V, T: TimeNow>(container: &mut HashMap<K, (V, Expiry<T>)>, now: &T)
    ensures
        obeys_key_model::<K>() ==> final(container)@ == swept(old(container)@, *now),
{
    container.retain(|_k, entry| survives(&entry.1, now));
}

/// A map from keys to values in which every entry has an expiry in the time
/// domain `T`. Expired entries stay until `expire` sweeps them out.
pub struct ExpiringDict<K, V, T = SystemTime> {
    default_ttl: Duration,
    container: HashMap<K, (V, Expiry<T>)>,
}

impl<K, V, T> View for ExpiringDict<K, V, T> {
    type V = Entries<K, V, T>;

    closed spec fn view(&self) -> Self::V {
        self.container@
    }
}

impl<K: Hash + Eq, V, T: TimeNow> ExpiringDict<K, V, T> {
    /// The lifetime given to entries that are inserted without one of their own.
    pub closed spec fn default_ttl(&self) -> Duration {
        self.default_ttl
    }

    /// An empty store whose entries live for `default_ttl` unless told otherwise.
    pub fn new(default_ttl: Duration) -> (d: Self)
        ensures
            d@ == Entries::<K, V, T>::empty(),
            d.default_ttl() == default_ttl,
    {
        Self { default_ttl, container: HashMap::new() }
    }

    /// The default lifetime in nanoseconds.
    pub fn default_ttl_nanos(&self) -> (n: u128)
        ensures
            n == duration_nanos(self.default_ttl()),
    {
        nanos_of(self.default_ttl)
    }

    /// The value stored under `k`, whether or not its time is up.
    pub fn get<Q>(&self, k: &Q) -> (r: Option<&V>) where K: Borrow<Q>, Q: Hash + Eq + ?Sized
        ensures
            obeys_key_model::<K>() ==> found(self@, k, r),
    {
        let hit = self.container.get(k);
        let r = match hit {
            Some(entry) => Some(&entry.0),
            None => None,
        };
        proof {
            if obeys_key_model::<K>() {
                if let Some(entry) = hit {
                    assert(r matches Some(v) && maps_borrowed_key_to_value(
                        self@,
                        k,
                        (*v, entry.1),
                    ));
                }
            }
        }
        r
    }

    /// Binds `k` to `v` as of the time `now`, with a lifetime of `ttl`, and
    /// returns the value that `k` was bound to before.
    pub fn insert_at(&mut self, k: K, v: V, now: &T, ttl: Duration) -> (r: Option<V>)
        ensures
            final(self).default_ttl() == old(self).default_ttl(),
            obeys_key_model::<K>() ==> r == lookup(old(self)@, k) && inserted_at(
                old(self)@,
                final(self)@,
                k,
                v,
                *now,
                ttl,
            ),
    {
        let e = deadline(now, ttl);
        match self.container.insert(k, (v, e)) {
            Some(entry) => Some(entry.0),
            None => None,
        }
    }

    /// Removes every entry that is not alive at `now`.
    pub fn expire_at(&mut self, now: &T)
        ensures
            final(self).default_ttl() == old(self).default_ttl(),
            obeys_key_model::<K>() ==> final(self)@ == swept(old(self)@, *now),
    {
        retain_alive(&mut self.container, now);
    }

    /// Binds `k` to `v` as of the current time, with the default lifetime, and
    /// returns the value that `k` was bound to before.
    pub fn insert(&mut self, k: K, v: V) -> (r: Option<V>)
        ensures
            final(self).default_ttl() == old(self).default_ttl(),
            obeys_key_model::<K>() ==> r == lookup(old(self)@, k) && exists|now: T| #[trigger]
                inserted_at(old(self)@, final(self)@, k, v, now, old(self).default_ttl()),
    {
        let now = T::now();
        let ttl = self.default_ttl;
        self.insert_at(k, v, &now, ttl)
    }

    /// Binds `k` to `v` as of the current time, with a lifetime of `ttl` in
    /// place of the default one, and returns the value that `k` was bound to
    /// before.
    pub fn insert_with_ttl(&mut self, k: K, v: V, ttl: Duration) -> (r: Option<V>)
        ensures
            final(self).default_ttl() == old(self).default_ttl(),
            obeys_key_model::<K>() ==> r == lookup(old(self)@, k) && exists|now: T| #[trigger]
                inserted_at(old(self)@, final(self)@, k, v, now, ttl),
    {
        let now = T::now();
        self.insert_at(k, v, &now, ttl)
    }

    /// Samples the current time once and removes every entry that is not alive
    /// at it.
    pub fn expire(&mut self)
        ensures
            final(self).default_ttl() == old(self).default_ttl(),
            obeys_key_model::<K>() ==> exists|now: T|
                final(self)@ == #[trigger] swept(old(self)@, now),
            obeys_key_model::<K>() ==> final(self)@.submap_of(old(self)@),
    {
        let now = T::now();
        self.expire_at(&now);
    }
}

} // verus!
