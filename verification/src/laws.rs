//! The registry's laws, stated over the resolution model of
//! [`crate::table`] and proved once for every key type and every starting
//! state. Each law is what one or more resolutions do to the map from keys
//! to primitive serial numbers; [`crate::table::LockTable::get_or_insert`]
//! ensures that each call performs exactly one such resolution step.

use vstd::prelude::*;
use crate::table::{registry_inv, resolved_created, resolved_id, resolved_map};

verus! {

/// The map after `n` resolutions of the same key, each with the same fresh
/// serial number to hand to a created primitive.
pub open spec fn resolved_map_n<KV>(m: Map<KV, usize>, k: KV, fresh: usize, n: nat) -> Map<
    KV,
    usize,
>
    decreases n,
{
    if n == 0 {
        m
    } else {
        resolved_map(resolved_map_n(m, k, fresh, (n - 1) as nat), k, fresh)
    }
}

/// The creation count after `n` resolutions of the same key.
pub open spec fn resolved_created_n<KV>(
    m: Map<KV, usize>,
    created: nat,
    k: KV,
    fresh: usize,
    n: nat,
) -> nat
    decreases n,
{
    if n == 0 {
        created
    } else {
        resolved_created(
            resolved_map_n(m, k, fresh, (n - 1) as nat),
            resolved_created_n(m, created, k, fresh, (n - 1) as nat),
            k,
        )
    }
}

/// Same-key identity: a second resolution of a key returns the serial
/// number the first one did — the same primitive instance — and leaves the
/// registry exactly as the first left it, whatever fresh serial number the
/// second resolution had at hand.
pub proof fn lemma_same_key_identity<KV>(m: Map<KV, usize>, k: KV, f1: usize, f2: usize)
    ensures
        resolved_id(resolved_map(m, k, f1), k, f2) == resolved_id(m, k, f1),
        resolved_map(resolved_map(m, k, f1), k, f2) == resolved_map(m, k, f1),
{
}

/// Distinct keys hold distinct primitives: under the registry invariant,
/// which every well-formed table satisfies, two different registered keys
/// never resolve to the same serial number — so acquiring one key's
/// primitive cannot block a holder of the other's.
pub proof fn lemma_distinct_keys_distinct_primitives<KV>(
    m: Map<KV, usize>,
    created: nat,
    k1: KV,
    k2: KV,
)
    requires
        registry_inv(m, created),
        m.contains_key(k1),
        m.contains_key(k2),
        k1 != k2,
    ensures
        m[k1] != m[k2],
{
}

/// Distinct-key independence: resolving one key neither removes nor
/// replaces the primitive registered under any other key.
pub proof fn lemma_distinct_key_independence<KV>(m: Map<KV, usize>, k1: KV, k2: KV, fresh: usize)
    requires
        k1 != k2,
        m.contains_key(k1),
    ensures
        resolved_map(m, k2, fresh).contains_key(k1),
        resolved_map(m, k2, fresh)[k1] == m[k1],
{
}

/// One resolution step preserves the registry invariant when the fresh
/// serial number is the creation count, as it is in
/// [`crate::table::LockTable::get_or_insert`].
pub proof fn lemma_resolution_preserves_inv<KV>(m: Map<KV, usize>, created: nat, k: KV)
    requires
        registry_inv(m, created),
        created <= usize::MAX,
    ensures
        registry_inv(
            resolved_map(m, k, created as usize),
            resolved_created(m, created, k),
        ),
{
}

/// No double creation: however many times a previously unseen key is
/// resolved, exactly one primitive is created — the map gains the one
/// entry the first resolution inserted, and the creation count rises by
/// exactly one.
pub proof fn lemma_no_double_creation<KV>(
    m: Map<KV, usize>,
    created: nat,
    k: KV,
    fresh: usize,
    n: nat,
)
    requires
        1 <= n,
        !m.contains_key(k),
    ensures
        resolved_map_n(m, k, fresh, n) == m.insert(k, fresh),
        resolved_created_n(m, created, k, fresh, n) == created + 1,
    decreases n,
{
    if n == 1 {
        assert(resolved_map_n(m, k, fresh, 0) == m);
        assert(resolved_created_n(m, created, k, fresh, 0) == created);
    } else {
        lemma_no_double_creation(m, created, k, fresh, (n - 1) as nat);
        assert(resolved_map_n(m, k, fresh, n) == resolved_map(
            resolved_map_n(m, k, fresh, (n - 1) as nat),
            k,
            fresh,
        ));
        assert(resolved_created_n(m, created, k, fresh, n) == resolved_created(
            resolved_map_n(m, k, fresh, (n - 1) as nat),
            resolved_created_n(m, created, k, fresh, (n - 1) as nat),
            k,
        ));
        assert(m.insert(k, fresh).contains_key(k));
    }
}

} // verus!
