//! What holds of the store's operations taken together, stated over the maps
//! that their contracts speak of.

use crate::clock::{adds_exactly, duration_nanos, TimeNow};
use crate::dict::{deadline_is, found, inserted_at, lookup, outlives, swept, Entries, Expiry};
use std::time::Duration;
use vstd::prelude::*;

verus! {

broadcast use vstd::std_specs::hash::group_hash_axioms;

/// A lookup by a key of the stored key type answers with the value that the
/// store holds under that key, and with nothing exactly where the key is absent.
pub proof fn law_get_agrees_with_lookup<K, V, T>(m: Entries<K, V, T>, k: &K, r: Option<&V>)
    requires
        found(m, k, r),
    ensures
        match r {
            Some(v) => lookup(m, *k) == Some(*v),
            None => lookup(m, *k) is None,
        },
{
}

/// A lookup of a key that the store does not hold finds nothing.
pub proof fn law_absent_key_is_not_found<K, V, T>(m: Entries<K, V, T>, k: &K, r: Option<&V>)
    requires
        !m.contains_key(*k),
        found(m, k, r),
    ensures
        r is None,
{
}

/// Inserting under a key that was not there displaces nothing, and the key is
/// then found with the inserted value.
pub proof fn law_fresh_insert<K, V, T: TimeNow>(
    before: Entries<K, V, T>,
    after: Entries<K, V, T>,
    k: K,
    v: V,
    now: T,
    ttl: Duration,
)
    requires
        !before.contains_key(k),
        inserted_at(before, after, k, v, now, ttl),
    ensures
        lookup(before, k) is None,
        lookup(after, k) == Some(v),
{
}

/// Inserting twice under one key displaces the first value with the second: the
/// second insertion finds the first value there, and afterwards the key is
/// found with the second.
pub proof fn law_overwrite<K, V, T: TimeNow>(
    start: Entries<K, V, T>,
    middle: Entries<K, V, T>,
    end: Entries<K, V, T>,
    k: K,
    v1: V,
    v2: V,
    now1: T,
    ttl1: Duration,
    now2: T,
    ttl2: Duration,
)
    requires
        inserted_at(start, middle, k, v1, now1, ttl1),
        inserted_at(middle, end, k, v2, now2, ttl2),
    ensures
        lookup(middle, k) == Some(v1),
        lookup(end, k) == Some(v2),
        exists|e: Expiry<T>| #[trigger] deadline_is(e, now2, ttl2) && end[k] == (v2, e),
{
}

/// A sweep keeps exactly the entries whose expiry lies strictly after the
/// sampled time, and keeps them as they were.
pub proof fn law_sweep_keeps_the_living<K, V, T: TimeNow>(m: Entries<K, V, T>, now: T, k: K)
    ensures
        swept(m, now).contains_key(k) <==> m.contains_key(k) && outlives(m[k].1, now),
        swept(m, now).contains_key(k) ==> swept(m, now)[k] == m[k],
{
}

/// An entry inserted at `born` with a lifetime of `ttl`, where the time domain
/// reaches that far, outlasts every sweep at a time strictly before the expiry
/// that the domain computes for it, and is removed by a sweep at that expiry or
/// later. A sweep at `born + ttl` or later always removes it.
pub proof fn law_expiry_boundary<K, V, T: TimeNow>(
    before: Entries<K, V, T>,
    after: Entries<K, V, T>,
    k: K,
    v: V,
    born: T,
    ttl: Duration,
    now: T,
)
    requires
        born.reaches(ttl),
        inserted_at(before, after, k, v, born, ttl),
    ensures
        now.position() < born.sum(ttl) ==> lookup(swept(after, now), k) == Some(v),
        now.position() >= born.sum(ttl) ==> lookup(swept(after, now), k) is None,
        now.position() >= born.position() + duration_nanos(ttl) ==> lookup(swept(after, now), k)
            is None,
{
}

/// In a time domain that moves `born` forward by the whole of `ttl`, an entry
/// inserted at `born` with that lifetime outlasts every sweep at a time
/// strictly before `born + ttl` and is removed by a sweep at that time or
/// later.
pub proof fn law_exact_expiry_boundary<K, V, T: TimeNow>(
    before: Entries<K, V, T>,
    after: Entries<K, V, T>,
    k: K,
    v: V,
    born: T,
    ttl: Duration,
    now: T,
)
    requires
        born.reaches(ttl),
        adds_exactly(born, ttl),
        inserted_at(before, after, k, v, born, ttl),
    ensures
        now.position() < born.position() + duration_nanos(ttl) ==> lookup(swept(after, now), k)
            == Some(v),
        now.position() >= born.position() + duration_nanos(ttl) ==> lookup(swept(after, now), k)
            is None,
{
}

/// An entry whose lifetime runs past the end of the time domain outlasts every
/// sweep.
pub proof fn law_unreachable_expiry_never_comes<K, V, T: TimeNow>(
    before: Entries<K, V, T>,
    after: Entries<K, V, T>,
    k: K,
    v: V,
    born: T,
    ttl: Duration,
    now: T,
)
    requires
        !born.reaches(ttl),
        inserted_at(before, after, k, v, born, ttl),
    ensures
        lookup(swept(after, now), k) == Some(v),
{
}

/// The lifetime given at an insertion governs the inserted entry alone: that
/// entry expires `ttl` after the insertion, and every other entry keeps its
/// value and its expiry.
pub proof fn law_ttl_is_per_entry<K, V, T: TimeNow>(
    before: Entries<K, V, T>,
    after: Entries<K, V, T>,
    k: K,
    v: V,
    now: T,
    ttl: Duration,
    other: K,
)
    requires
        inserted_at(before, after, k, v, now, ttl),
        other != k,
    ensures
        after.contains_key(k) && deadline_is(after[k].1, now, ttl),
        after.contains_key(other) == before.contains_key(other),
        before.contains_key(other) ==> after[other] == before[other],
{
}

/// Two time domains agree on expiry: entries given the same lifetime, each in a
/// domain that reaches that far and adds the whole of it, and swept after the
/// same delay, are both kept or both removed.
pub proof fn law_domains_agree<A: TimeNow, B: TimeNow>(
    born_a: A,
    expiry_a: Expiry<A>,
    now_a: A,
    born_b: B,
    expiry_b: Expiry<B>,
    now_b: B,
    ttl: Duration,
)
    requires
        born_a.reaches(ttl),
        born_b.reaches(ttl),
        adds_exactly(born_a, ttl),
        adds_exactly(born_b, ttl),
        deadline_is(expiry_a, born_a, ttl),
        deadline_is(expiry_b, born_b, ttl),
        now_a.position() - born_a.position() == now_b.position() - born_b.position(),
    ensures
        outlives(expiry_a, now_a) == outlives(expiry_b, now_b),
{
}

/// Whether two expiries, each in its own time domain, mark the same moment
/// when the first domain's clock reads `lead` nanoseconds more than the
/// second's: both never come, or both come at points that lie `lead` apart.
pub open spec fn expiries_in_step<A: TimeNow, B: TimeNow>(
    a: Expiry<A>,
    b: Expiry<B>,
    lead: int,
) -> bool {
    match (a, b) {
        (Expiry::At(x), Expiry::At(y)) => x.position() - y.position() == lead,
        (Expiry::Never, Expiry::Never) => true,
        _ => false,
    }
}

/// Whether two stores over different time domains hold the same keys with the
/// same values and with expiries that mark the same moments, when the first
/// domain's clock reads `lead` nanoseconds more than the second's.
pub open spec fn in_step<K, V, A: TimeNow, B: TimeNow>(
    a: Entries<K, V, A>,
    b: Entries<K, V, B>,
    lead: int,
) -> bool {
    forall|k: K|
        #![trigger a.contains_key(k)]
        #![trigger b.contains_key(k)]
        {
            &&& a.contains_key(k) == b.contains_key(k)
            &&& a.contains_key(k) ==> a[k].0 == b[k].0 && expiries_in_step(a[k].1, b[k].1, lead)
        }
}

/// Two stores that hold nothing are in step, whatever the clocks read.
pub proof fn law_empty_stores_are_in_step<K, V, A: TimeNow, B: TimeNow>(lead: int)
    ensures
        in_step(Entries::<K, V, A>::empty(), Entries::<K, V, B>::empty(), lead),
{
}

/// Two stores in step hold the same value under every key.
pub proof fn law_stores_in_step_answer_alike<K, V, A: TimeNow, B: TimeNow>(
    a: Entries<K, V, A>,
    b: Entries<K, V, B>,
    lead: int,
    k: K,
)
    requires
        in_step(a, b, lead),
    ensures
        lookup(a, k) == lookup(b, k),
{
    assert(a.contains_key(k) == b.contains_key(k));
}

/// Two stores in step stay in step under the same insertion made in both at
/// the same moment, where both domains reach the lifetime and add the whole of
/// it, or neither reaches it.
pub proof fn law_insert_keeps_stores_in_step<K, V, A: TimeNow, B: TimeNow>(
    a: Entries<K, V, A>,
    a_after: Entries<K, V, A>,
    now_a: A,
    b: Entries<K, V, B>,
    b_after: Entries<K, V, B>,
    now_b: B,
    lead: int,
    k: K,
    v: V,
    ttl: Duration,
)
    requires
        in_step(a, b, lead),
        now_a.position() - now_b.position() == lead,
        now_a.reaches(ttl) == now_b.reaches(ttl),
        now_a.reaches(ttl) ==> adds_exactly(now_a, ttl) && adds_exactly(now_b, ttl),
        inserted_at(a, a_after, k, v, now_a, ttl),
        inserted_at(b, b_after, k, v, now_b, ttl),
    ensures
        in_step(a_after, b_after, lead),
{
    assert forall|j: K|
        #![trigger a_after.contains_key(j)]
        #![trigger b_after.contains_key(j)]
        {
            &&& a_after.contains_key(j) == b_after.contains_key(j)
            &&& a_after.contains_key(j) ==> a_after[j].0 == b_after[j].0 && expiries_in_step(
                a_after[j].1,
                b_after[j].1,
                lead,
            )
        } by {
        if j != k {
            assert(a.contains_key(j) == b.contains_key(j));
        }
    }
}

/// Two stores in step, swept at the same moment, are in step afterwards: every
/// entry is removed from both or kept in both, and a lookup then answers alike
/// in both.
pub proof fn law_sweep_keeps_stores_in_step<K, V, A: TimeNow, B: TimeNow>(
    a: Entries<K, V, A>,
    now_a: A,
    b: Entries<K, V, B>,
    now_b: B,
    lead: int,
)
    requires
        in_step(a, b, lead),
        now_a.position() - now_b.position() == lead,
    ensures
        in_step(swept(a, now_a), swept(b, now_b), lead),
        forall|k: K| #[trigger] lookup(swept(a, now_a), k) == lookup(swept(b, now_b), k),
{
    let sa = swept(a, now_a);
    let sb = swept(b, now_b);
    assert forall|k: K|
        #![trigger sa.contains_key(k)]
        #![trigger sb.contains_key(k)]
        {
            &&& sa.contains_key(k) == sb.contains_key(k)
            &&& sa.contains_key(k) ==> sa[k].0 == sb[k].0 && expiries_in_step(
                sa[k].1,
                sb[k].1,
                lead,
            )
        } by {
        assert(a.contains_key(k) == b.contains_key(k));
    }
    assert forall|k: K| #[trigger] lookup(sa, k) == lookup(sb, k) by {
        assert(sa.contains_key(k) == sb.contains_key(k));
    }
}

/// Sweeping a store that holds nothing leaves it holding nothing.
pub proof fn law_sweep_of_nothing<K, V, T: TimeNow>(now: T)
    ensures
        swept(Entries::<K, V, T>::empty(), now) == Entries::<K, V, T>::empty(),
{
    assert(swept(Entries::<K, V, T>::empty(), now) =~= Entries::<K, V, T>::empty());
}

} // verus!
