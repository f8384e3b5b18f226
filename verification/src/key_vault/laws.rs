//! What holds of every run of the vault, proved from the contracts'
//! own vocabulary.

use vstd::prelude::*;
use crate::key_vault::code::{lemma_split_unique, splits_into, well_formed_code};
use crate::key_vault::model::{
    allocates,
    is_chosen,
    is_first_free,
    is_first_free_draw,
    is_free,
    is_full,
    lemma_expired_count,
    lemma_full_iff_at_capacity,
    registry_fits,
    releases,
    releases_code,
    unexpired_part,
};
use crate::key_vault::words::WordPool;

verus! {

/// One step of the vault: an allocation, a release, a pass of the reclaimer,
/// or a call that changes nothing. The registry changes in no other way.
pub open spec fn vault_step(
    pool: WordPool,
    before: Map<(usize, usize), u64>,
    after: Map<(usize, usize), u64>,
) -> bool {
    ||| after == before
    ||| exists|key: (usize, usize), now: u64| allocates(pool, before, after, key, now)
    ||| exists|prefix: Seq<char>, suffix: Seq<char>| releases(pool, before, after, prefix, suffix)
    ||| exists|now: u64| after == unexpired_part(before, now)
}

/// The invariant of the registry: whatever step the vault takes, the active
/// keys stay keys of the pool, and they never outnumber its capacity.
pub proof fn lemma_step_keeps_fit(
    pool: WordPool,
    before: Map<(usize, usize), u64>,
    after: Map<(usize, usize), u64>,
)
    requires
        registry_fits(pool, before),
        vault_step(pool, before, after),
    ensures
        registry_fits(pool, after),
        after.len() <= pool.capacity_spec(),
{
    if exists|prefix: Seq<char>, suffix: Seq<char>| releases(pool, before, after, prefix, suffix) {
        let (prefix, suffix) = choose|prefix: Seq<char>, suffix: Seq<char>|
            releases(pool, before, after, prefix, suffix);
        if exists|k: (usize, usize)| pool.names_key(k, prefix, suffix) {
            let k = choose|k: (usize, usize)| pool.names_key(k, prefix, suffix);
            assert(after == before.remove(k));
        }
    }
    if exists|now: u64| after == unexpired_part(before, now) {
        let now = choose|now: u64| after == unexpired_part(before, now);
        lemma_expired_count(before, now);
    }
    lemma_full_iff_at_capacity(pool, after);
}

/// With the draws given, an allocation has one outcome: the chosen key is
/// determined by the pool, the active keys and the draws.
pub proof fn lemma_chosen_key_unique(
    pool: WordPool,
    active: Map<(usize, usize), u64>,
    draws: Seq<(usize, usize)>,
    a: (usize, usize),
    b: (usize, usize),
)
    requires
        is_chosen(pool, active, draws, a),
        is_chosen(pool, active, draws, b),
    ensures
        a == b,
{
    if exists|at: int| is_first_free_draw(pool, active, draws, at) {
        let at_a = choose|at: int| is_first_free_draw(pool, active, draws, at) && a == draws[at];
        let at_b = choose|at: int| is_first_free_draw(pool, active, draws, at) && b == draws[at];
        if at_a < at_b {
            assert(!is_free(pool, active, draws[at_a]));
        }
        if at_b < at_a {
            assert(!is_free(pool, active, draws[at_b]));
        }
    } else {
        assert(is_first_free(pool, active, a));
        assert(is_first_free(pool, active, b));
    }
}

/// A run of allocations with no release in between: each state comes from the
/// one before it by the allocation of the key at the same place.
pub open spec fn allocation_run(
    pool: WordPool,
    states: Seq<Map<(usize, usize), u64>>,
    keys: Seq<(usize, usize)>,
    stamps: Seq<u64>,
) -> bool {
    &&& states.len() == keys.len() + 1
    &&& stamps.len() == keys.len()
    &&& forall|i: int|
        0 <= i < keys.len() ==> allocates(pool, #[trigger] states[i], states[i + 1], keys[i], stamps[i])
}

/// Whether no word holds a space and no word stands twice in its vocabulary.
pub open spec fn unambiguous(pool: WordPool) -> bool {
    &&& forall|i: int, j: int|
        0 <= i < j < pool.prefix_words().len() ==> pool.prefix_words()[i] != pool.prefix_words()[j]
    &&& forall|i: int, j: int|
        0 <= i < j < pool.suffix_words().len() ==> pool.suffix_words()[i] != pool.suffix_words()[j]
    &&& forall|i: int, t: int|
        0 <= i < pool.prefix_words().len() && 0 <= t < pool.prefix_words()[i].len()
            ==> pool.prefix_words()[i][t] != ' '
    &&& forall|i: int, t: int|
        0 <= i < pool.suffix_words().len() && 0 <= t < pool.suffix_words()[i].len()
            ==> pool.suffix_words()[i][t] != ' '
}

/// In a run of allocations, a key once allocated is active in every later
/// state.
pub proof fn lemma_allocated_stays_active(
    pool: WordPool,
    states: Seq<Map<(usize, usize), u64>>,
    keys: Seq<(usize, usize)>,
    stamps: Seq<u64>,
    i: int,
    j: int,
)
    requires
        allocation_run(pool, states, keys, stamps),
        0 <= i < j <= keys.len(),
    ensures
        states[j].dom().contains(keys[i]),
    decreases j - i,
{
    assert(allocates(pool, states[j - 1], states[j], keys[j - 1], stamps[j - 1]));
    if i < j - 1 {
        lemma_allocated_stays_active(pool, states, keys, stamps, i, j - 1);
    }
}

/// Uniqueness: the keys of a run of successful allocations are pairwise
/// distinct.
pub proof fn lemma_allocated_keys_distinct(
    pool: WordPool,
    states: Seq<Map<(usize, usize), u64>>,
    keys: Seq<(usize, usize)>,
    stamps: Seq<u64>,
)
    requires
        allocation_run(pool, states, keys, stamps),
    ensures
        forall|i: int, j: int| 0 <= i < j < keys.len() ==> keys[i] != keys[j],
{
    assert forall|i: int, j: int| 0 <= i < j < keys.len() implies keys[i] != keys[j] by {
        lemma_allocated_stays_active(pool, states, keys, stamps, i, j);
        assert(allocates(pool, states[j], states[j + 1], keys[j], stamps[j]));
    }
}

/// Two keys of an unambiguous pool that render as the same join code are the
/// same key.
pub proof fn lemma_code_names_one_key(pool: WordPool, a: (usize, usize), b: (usize, usize))
    requires
        unambiguous(pool),
        pool.valid_key(a),
        pool.valid_key(b),
        pool.code_of(a) == pool.code_of(b),
    ensures
        a == b,
{
    let code = pool.code_of(a);
    let pa = pool.prefix_words()[a.0 as int];
    let sa = pool.suffix_words()[a.1 as int];
    let pb = pool.prefix_words()[b.0 as int];
    let sb = pool.suffix_words()[b.1 as int];
    assert(splits_into(code, pa, sa));
    assert(splits_into(code, pb, sb));
    lemma_split_unique(code, pa, sa, pb, sb);
}

/// Uniqueness of the codes: with an unambiguous pool, the join codes that a
/// run of successful allocations returns are pairwise distinct.
pub proof fn lemma_allocated_codes_distinct(
    pool: WordPool,
    states: Seq<Map<(usize, usize), u64>>,
    keys: Seq<(usize, usize)>,
    stamps: Seq<u64>,
)
    requires
        unambiguous(pool),
        allocation_run(pool, states, keys, stamps),
    ensures
        forall|i: int, j: int|
            0 <= i < j < keys.len() ==> pool.code_of(keys[i]) != pool.code_of(keys[j]),
{
    lemma_allocated_keys_distinct(pool, states, keys, stamps);
    assert forall|i: int, j: int| 0 <= i < j < keys.len() implies pool.code_of(keys[i])
        != pool.code_of(keys[j]) by {
        assert(allocates(pool, states[i], states[i + 1], keys[i], stamps[i]));
        assert(allocates(pool, states[j], states[j + 1], keys[j], stamps[j]));
        if pool.code_of(keys[i]) == pool.code_of(keys[j]) {
            lemma_code_names_one_key(pool, keys[i], keys[j]);
        }
    }
}

/// After `n` allocations, `n` more keys are active than at the start, and the
/// registry still fits the pool.
pub proof fn lemma_run_counts(
    pool: WordPool,
    states: Seq<Map<(usize, usize), u64>>,
    keys: Seq<(usize, usize)>,
    stamps: Seq<u64>,
    n: int,
)
    requires
        registry_fits(pool, states[0]),
        allocation_run(pool, states, keys, stamps),
        0 <= n <= keys.len(),
    ensures
        registry_fits(pool, states[n]),
        states[n].len() == states[0].len() + n,
    decreases n,
{
    if n > 0 {
        lemma_run_counts(pool, states, keys, stamps, n - 1);
        assert(allocates(pool, states[n - 1], states[n], keys[n - 1], stamps[n - 1]));
    }
}

/// Exhaustion boundary: on a registry that starts empty, a run of successful
/// allocations is never longer than the capacity, and the registry is full,
/// so that the next allocation fails, exactly when the run is as long as the
/// capacity.
pub proof fn lemma_exhaustion_boundary(
    pool: WordPool,
    states: Seq<Map<(usize, usize), u64>>,
    keys: Seq<(usize, usize)>,
    stamps: Seq<u64>,
)
    requires
        pool.wf(),
        allocation_run(pool, states, keys, stamps),
        states[0] == Map::<(usize, usize), u64>::empty(),
    ensures
        keys.len() <= pool.capacity_spec(),
        is_full(pool, states.last()) <==> keys.len() == pool.capacity_spec(),
{
    lemma_run_counts(pool, states, keys, stamps, keys.len() as int);
    lemma_full_iff_at_capacity(pool, states.last());
}

/// Room for every caller: each call owns the vault for its whole step, so
/// callers that arrive together still take their turns one after another, in
/// some order. Whatever that order, while the callers served so far are fewer
/// than the keys that were free at the start, the vault is not full, so the
/// next caller is served too.
pub proof fn lemma_room_for_next_caller(
    pool: WordPool,
    states: Seq<Map<(usize, usize), u64>>,
    keys: Seq<(usize, usize)>,
    stamps: Seq<u64>,
)
    requires
        registry_fits(pool, states[0]),
        allocation_run(pool, states, keys, stamps),
        states[0].len() + keys.len() < pool.capacity_spec(),
    ensures
        registry_fits(pool, states.last()),
        !is_full(pool, states.last()),
{
    lemma_run_counts(pool, states, keys, stamps, keys.len() as int);
    lemma_full_iff_at_capacity(pool, states.last());
}

/// On a full vault, the release of one key leaves that key as the only one
/// that the next allocation can return.
pub proof fn lemma_only_released_key_is_free(
    pool: WordPool,
    before: Map<(usize, usize), u64>,
    after: Map<(usize, usize), u64>,
    released: (usize, usize),
    next: (usize, usize),
    now: u64,
)
    requires
        is_full(pool, before),
        allocates(pool, before.remove(released), after, next, now),
    ensures
        next == released,
{
    assert(before.dom().contains(next));
}

/// Release frees capacity: the release of an active key lowers the number of
/// active keys by exactly one, and afterwards the key is free, so that the
/// vault is not full and an allocation may return that key again.
pub proof fn lemma_release_frees_one(
    pool: WordPool,
    before: Map<(usize, usize), u64>,
    after: Map<(usize, usize), u64>,
    key: (usize, usize),
    prefix: Seq<char>,
    suffix: Seq<char>,
    now: u64,
)
    requires
        registry_fits(pool, before),
        pool.names_key(key, prefix, suffix),
        before.dom().contains(key),
        releases(pool, before, after, prefix, suffix),
    ensures
        registry_fits(pool, after),
        after.len() == before.len() - 1,
        !is_full(pool, after),
        allocates(pool, after, after.insert(key, now), key, now),
{
    assert(after == before.remove(key));
    assert(pool.valid_key(key));
}

/// A join code that an unambiguous pool rendered is well formed, so its
/// release is never refused, and the release takes back exactly the key that
/// was rendered.
pub proof fn lemma_code_releases_its_key(
    pool: WordPool,
    before: Map<(usize, usize), u64>,
    after: Map<(usize, usize), u64>,
    key: (usize, usize),
)
    requires
        unambiguous(pool),
        pool.valid_key(key),
        releases_code(pool, before, after, pool.code_of(key)),
    ensures
        well_formed_code(pool.code_of(key)),
        after == before.remove(key),
{
    let prefix = pool.prefix_words()[key.0 as int];
    let suffix = pool.suffix_words()[key.1 as int];
    assert(splits_into(pool.code_of(key), prefix, suffix));
    assert(pool.names_key(key, prefix, suffix));
    assert(releases(pool, before, after, prefix, suffix));
}

/// Idempotent release: a second release of the same words changes nothing, so
/// the number of active keys does not fall twice.
pub proof fn lemma_release_idempotent(
    pool: WordPool,
    before: Map<(usize, usize), u64>,
    between: Map<(usize, usize), u64>,
    after: Map<(usize, usize), u64>,
    prefix: Seq<char>,
    suffix: Seq<char>,
)
    requires
        releases(pool, before, between, prefix, suffix),
        releases(pool, between, after, prefix, suffix),
    ensures
        after == between,
        after.len() == between.len(),
{
    if exists|k: (usize, usize)| pool.names_key(k, prefix, suffix) {
        let k = choose|k: (usize, usize)| pool.names_key(k, prefix, suffix);
        assert(between == before.remove(k));
        assert(after == between.remove(k));
        assert(after =~= between);
    }
}

/// Idempotent release by join code: a second release of the same well-formed
/// code changes nothing.
pub proof fn lemma_release_by_code_idempotent(
    pool: WordPool,
    before: Map<(usize, usize), u64>,
    between: Map<(usize, usize), u64>,
    after: Map<(usize, usize), u64>,
    code: Seq<char>,
)
    requires
        well_formed_code(code),
        releases_code(pool, before, between, code),
        releases_code(pool, between, after, code),
    ensures
        after == between,
        after.len() == between.len(),
{
    let (prefix, suffix) = choose|prefix: Seq<char>, suffix: Seq<char>|
        splits_into(code, prefix, suffix);
    lemma_release_idempotent(pool, before, between, after, prefix, suffix);
}

} // verus!
