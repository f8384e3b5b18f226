//! The vault's behaviour as mathematics: what an allocation, a release and
//! a pass of the reclaimer do to the map of active keys.

use vstd::prelude::*;
use crate::key_vault::code::splits_into;
use crate::key_vault::words::WordPool;

verus! {

/// How many random draws an allocation makes before it scans the whole grid.
pub const RANDOM_ATTEMPTS: usize = 100;

/// The time-to-live in seconds: an unreleased key older than this is taken
/// back.
pub const KEY_TTL_SECS: u64 = 3600;

/// The seconds between two passes of the reclaimer.
pub const CLEANUP_PERIOD_SECS: u64 = 3600;

/// Whether `a` comes before `b` in row-major order.
pub open spec fn row_major_before(a: (usize, usize), b: (usize, usize)) -> bool {
    a.0 < b.0 || (a.0 == b.0 && a.1 < b.1)
}

/// One allocation: `key` is a key of the pool that was free in `before`, and
/// `after` is `before` with that key stamped `now`.
pub open spec fn allocates(
    pool: WordPool,
    before: Map<(usize, usize), u64>,
    after: Map<(usize, usize), u64>,
    key: (usize, usize),
    now: u64,
) -> bool {
    &&& pool.valid_key(key)
    &&& !before.dom().contains(key)
    &&& after == before.insert(key, now)
}

/// Whether every key of the pool is active.
pub open spec fn is_full(pool: WordPool, active: Map<(usize, usize), u64>) -> bool {
    forall|k: (usize, usize)| pool.valid_key(k) ==> active.dom().contains(k)
}

/// Whether `key` is the first free key of the pool in row-major order.
pub open spec fn is_first_free(
    pool: WordPool,
    active: Map<(usize, usize), u64>,
    key: (usize, usize),
) -> bool {
    &&& pool.valid_key(key)
    &&& !active.dom().contains(key)
    &&& forall|k: (usize, usize)|
        pool.valid_key(k) && row_major_before(k, key) ==> active.dom().contains(k)
}

/// Whether `key` is a key of the pool that is not active.
pub open spec fn is_free(
    pool: WordPool,
    active: Map<(usize, usize), u64>,
    key: (usize, usize),
) -> bool {
    pool.valid_key(key) && !active.dom().contains(key)
}

/// Whether the draw at place `at` is the first free key among the draws that
/// an allocation looks at: the first `RANDOM_ATTEMPTS` of them.
pub open spec fn is_first_free_draw(
    pool: WordPool,
    active: Map<(usize, usize), u64>,
    draws: Seq<(usize, usize)>,
    at: int,
) -> bool {
    &&& 0 <= at < draws.len()
    &&& at < RANDOM_ATTEMPTS
    &&& is_free(pool, active, draws[at])
    &&& forall|j: int| 0 <= j < at ==> !is_free(pool, active, #[trigger] draws[j])
}

/// The key that an allocation takes when the draws are given: the first free
/// key among the draws it looks at, and the first free key in row-major
/// order when none of them is free.
pub open spec fn is_chosen(
    pool: WordPool,
    active: Map<(usize, usize), u64>,
    draws: Seq<(usize, usize)>,
    key: (usize, usize),
) -> bool {
    ||| exists|at: int| is_first_free_draw(pool, active, draws, at) && key == draws[at]
    ||| (forall|at: int| !is_first_free_draw(pool, active, draws, at)) && is_first_free(
        pool,
        active,
        key,
    )
}

/// Whether a key allocated at second `stamp` is older than the time-to-live
/// at second `now`. A key whose age is exactly the time-to-live is not.
pub open spec fn expired(stamp: u64, now: u64) -> bool {
    stamp + KEY_TTL_SECS < now
}

/// The entries of `active` that have not expired at second `now`.
pub open spec fn unexpired_part(active: Map<(usize, usize), u64>, now: u64) -> Map<
    (usize, usize),
    u64,
> {
    Map::new(
        |k: (usize, usize)| active.dom().contains(k) && !expired(active[k], now),
        |k: (usize, usize)| active[k],
    )
}

/// The keys of `active` that have expired at second `now`.
pub open spec fn expired_keys(active: Map<(usize, usize), u64>, now: u64) -> Set<(usize, usize)> {
    Set::new(|k: (usize, usize)| active.dom().contains(k) && expired(active[k], now))
}

/// Every active key has either expired or not: the two parts are finite and
/// their sizes add up to the number of active keys.
pub proof fn lemma_expired_count(active: Map<(usize, usize), u64>, now: u64)
    requires
        active.dom().finite(),
    ensures
        expired_keys(active, now).finite(),
        unexpired_part(active, now).dom().finite(),
        active.len() == unexpired_part(active, now).len() + expired_keys(active, now).len(),
{
    let gone = expired_keys(active, now);
    let kept = unexpired_part(active, now).dom();
    assert(gone.subset_of(active.dom()));
    assert(kept.subset_of(active.dom()));
    vstd::set_lib::lemma_set_subset_finite(active.dom(), gone);
    vstd::set_lib::lemma_set_subset_finite(active.dom(), kept);
    assert(kept.disjoint(gone));
    vstd::set_lib::lemma_set_disjoint_lens(kept, gone);
    assert(kept + gone =~= active.dom());
}

/// One release of the key that the two words name: that key leaves, and
/// where the words name no key nothing changes.
pub open spec fn releases(
    pool: WordPool,
    before: Map<(usize, usize), u64>,
    after: Map<(usize, usize), u64>,
    prefix: Seq<char>,
    suffix: Seq<char>,
) -> bool {
    &&& forall|k: (usize, usize)| pool.names_key(k, prefix, suffix) ==> after == before.remove(k)
    &&& (forall|k: (usize, usize)| !pool.names_key(k, prefix, suffix)) ==> after == before
}

/// One release by join code: the key that the two words of the code name
/// leaves.
pub open spec fn releases_code(
    pool: WordPool,
    before: Map<(usize, usize), u64>,
    after: Map<(usize, usize), u64>,
    code: Seq<char>,
) -> bool {
    forall|prefix: Seq<char>, suffix: Seq<char>|
        splits_into(code, prefix, suffix) ==> releases(pool, before, after, prefix, suffix)
}

/// Whether the registry's bookkeeping fits the pool: finitely many active
/// keys, each of them a key of the pool.
pub open spec fn registry_fits(pool: WordPool, active: Map<(usize, usize), u64>) -> bool {
    &&& pool.wf()
    &&& active.dom().finite()
    &&& forall|k: (usize, usize)| active.dom().contains(k) ==> pool.valid_key(k)
}

/// A registry that fits its pool never holds more keys than the pool has, and
/// holds exactly that many when, and only when, every key is active.
pub proof fn lemma_full_iff_at_capacity(pool: WordPool, active: Map<(usize, usize), u64>)
    requires
        registry_fits(pool, active),
    ensures
        active.len() <= pool.capacity_spec(),
        is_full(pool, active) <==> active.len() == pool.capacity_spec(),
{
    pool.lemma_all_keys();
    assert forall|k: (usize, usize)| active.dom().contains(k) implies pool.all_keys().contains(
        k,
    ) by {
        assert(pool.valid_key(k));
    }
    assert(active.dom().subset_of(pool.all_keys()));
    vstd::set_lib::lemma_len_subset(active.dom(), pool.all_keys());
    if is_full(pool, active) {
        assert forall|k: (usize, usize)| pool.all_keys().contains(k) implies active.dom().contains(
            k,
        ) by {
            assert(pool.valid_key(k));
        }
        assert(active.dom() =~= pool.all_keys());
    }
    if active.len() == pool.capacity_spec() {
        vstd::set_lib::lemma_subset_equality(active.dom(), pool.all_keys());
    }
}

} // verus!
