//! The vault itself: allocation, release and reclamation of join keys.

use vstd::prelude::*;
use rand_chacha::ChaCha8Rng;
use crate::key_vault::audit::{
    clock_failure_event,
    exhausted_event,
    failure_event,
    is_clock_failure_event,
    is_exhausted_event,
    is_reclaimed_event,
    reclaimed_event,
    AuditEvent,
};
use crate::key_vault::code::{lemma_split_unique, split_code, splits_into, well_formed_code};
use crate::key_vault::error::KeyVaultError;
use crate::key_vault::model::{
    allocates,
    expired_keys,
    is_chosen,
    is_first_free,
    is_first_free_draw,
    is_free,
    is_full,
    lemma_expired_count,
    lemma_full_iff_at_capacity,
    registry_fits,
    releases,
    releases_code,
    unexpired_part,
    KEY_TTL_SECS,
    RANDOM_ATTEMPTS,
};
use crate::key_vault::registry::{stamped_after_part, ActiveKeys};
use crate::key_vault::rng::{draw_below, entropy_seeded};
use crate::key_vault::words::WordPool;

verus! {

/// The join-key vault: a word pool and the registry of the keys in use.
pub struct KeyVault {
    words: WordPool,
    active: ActiveKeys,
}

impl KeyVault {
    /// The vocabularies of the vault.
    pub closed spec fn pool(&self) -> WordPool {
        self.words
    }

    /// The active keys, each with the second of its allocation.
    pub closed spec fn active(&self) -> Map<(usize, usize), u64> {
        self.active@
    }

    /// The vault's invariant: the registry fits the pool.
    pub open spec fn wf(&self) -> bool {
        registry_fits(self.pool(), self.active())
    }

    /// Builds a vault with no active key from the two word lists. Fails when a
    /// list is empty; the lists need not be of one length. The words are taken
    /// as they come: a word that stands twice in its list, or that holds a
    /// space, is accepted, and two keys may then render as one join code (see
    /// `laws::unambiguous`).
    pub fn load_words(prefix: Vec<String>, suffix: Vec<String>) -> (res: Result<
        KeyVault,
        KeyVaultError,
    >)
        ensures
            res is Ok <==> prefix@.len() > 0 && suffix@.len() > 0,
            match res {
                Ok(vault) => {
                    &&& vault.wf()
                    &&& vault.active() == Map::<(usize, usize), u64>::empty()
                    &&& vault.pool().prefix_words() == Seq::new(
                        prefix@.len(),
                        |i: int| prefix@[i]@,
                    )
                    &&& vault.pool().suffix_words() == Seq::new(
                        suffix@.len(),
                        |i: int| suffix@[i]@,
                    )
                },
                Err(e) => e == KeyVaultError::EmptyVocabulary,
            },
    {
        match WordPool::new(prefix, suffix) {
            Ok(words) => Ok(KeyVault { words, active: ActiveKeys::new() }),
            Err(e) => Err(e),
        }
    }

    /// The word pool of the vault.
    pub fn words(&self) -> (pool: &WordPool)
        ensures
            *pool == self.pool(),
    {
        &self.words
    }

    /// The number of keys that the vault can hold.
    pub fn capacity(&self) -> (n: u128)
        ensures
            n == self.pool().capacity_spec(),
    {
        self.words.capacity()
    }

    /// The number of active keys.
    pub fn active_count(&self) -> (n: usize)
        requires
            self.wf(),
        ensures
            n == self.active().len(),
            n <= self.pool().capacity_spec(),
    {
        proof {
            lemma_full_iff_at_capacity(self.pool(), self.active());
        }
        self.active.len()
    }

    /// The number of keys that are still free.
    pub fn available(&self) -> (n: u128)
        requires
            self.wf(),
        ensures
            n == self.pool().capacity_spec() - self.active().len(),
    {
        proof {
            lemma_full_iff_at_capacity(self.pool(), self.active());
        }
        self.words.capacity() - (self.active.len() as u128)
    }

    /// Draws a key of the pool at random, from a generator seeded by the
    /// operating system. Gives nothing when the system has no entropy to seed
    /// it with.
    pub fn random_idx(&self) -> (res: Option<(usize, usize)>)
        requires
            self.pool().wf(),
        ensures
            res matches Some(key) ==> self.pool().valid_key(key),
    {
        self.draw_key(entropy_seeded())
    }

    /// Draws a key of the pool from the generator that was seeded: a prefix
    /// index below the number of prefix words, then a suffix index below the
    /// number of suffix words. With a generator a key is always drawn; without
    /// one nothing is.
    pub fn draw_key(&self, seeded: Option<ChaCha8Rng>) -> (res: Option<(usize, usize)>)
        requires
            self.pool().wf(),
        ensures
            res is Some <==> seeded is Some,
            res matches Some(key) ==> self.pool().valid_key(key),
    {
        match seeded {
            None => None,
            Some(mut rng) => {
                let prefix_idx = draw_below(&mut rng, self.words.prefix_count());
                let suffix_idx = draw_below(&mut rng, self.words.suffix_count());
                Some((prefix_idx, suffix_idx))
            },
        }
    }

    /// Claims the given key if it is free: stamps it `now` and returns its
    /// join code. An active key is left as it is and nothing is returned.
    pub fn try_claim(&mut self, key: (usize, usize), now: u64) -> (res: Option<String>)
        requires
            old(self).wf(),
            old(self).pool().valid_key(key),
        ensures
            final(self).wf(),
            final(self).pool() == old(self).pool(),
            res is Some <==> !old(self).active().dom().contains(key),
            match res {
                Some(code) => {
                    &&& allocates(old(self).pool(), old(self).active(), final(self).active(), key, now)
                    &&& code@ == old(self).pool().code_of(key)
                },
                None => final(self).active() == old(self).active(),
            },
    {
        if self.active.insert_if_absent(key, now) {
            Some(self.words.render(key))
        } else {
            None
        }
    }

    /// Claims the first free key in row-major order, prefix by prefix and
    /// suffix by suffix, and returns its join code; nothing when every key is
    /// active.
    pub fn claim_first_free(&mut self, now: u64) -> (res: Option<String>)
        requires
            old(self).wf(),
        ensures
            final(self).wf(),
            final(self).pool() == old(self).pool(),
            res is None <==> is_full(old(self).pool(), old(self).active()),
            match res {
                Some(code) => exists|key: (usize, usize)|
                    {
                        &&& is_first_free(old(self).pool(), old(self).active(), key)
                        &&& allocates(
                            old(self).pool(),
                            old(self).active(),
                            final(self).active(),
                            key,
                            now,
                        )
                        &&& code@ == old(self).pool().code_of(key)
                    },
                None => final(self).active() == old(self).active(),
            },
    {
        let prefix_count = self.words.prefix_count();
        let suffix_count = self.words.suffix_count();
        let mut i: usize = 0;
        while i < prefix_count
            invariant
                i <= prefix_count,
                prefix_count == self.pool().prefix_words().len(),
                suffix_count == self.pool().suffix_words().len(),
                self.wf(),
                self.pool() == old(self).pool(),
                self.active() == old(self).active(),
                forall|k: (usize, usize)|
                    k.0 < i && k.1 < suffix_count ==> self.active().dom().contains(k),
            decreases prefix_count - i,
        {
            let mut j: usize = 0;
            while j < suffix_count
                invariant
                    i < prefix_count,
                    j <= suffix_count,
                    prefix_count == self.pool().prefix_words().len(),
                    suffix_count == self.pool().suffix_words().len(),
                    self.wf(),
                    self.pool() == old(self).pool(),
                    self.active() == old(self).active(),
                    forall|k: (usize, usize)|
                        k.0 < i && k.1 < suffix_count ==> self.active().dom().contains(k),
                    forall|k: (usize, usize)| k.0 == i && k.1 < j ==> self.active().dom().contains(k),
                decreases suffix_count - j,
            {
                match self.try_claim((i, j), now) {
                    Some(code) => {
                        assert(is_first_free(old(self).pool(), old(self).active(), (i, j)));
                        return Some(code);
                    },
                    None => {},
                }
                j += 1;
            }
            i += 1;
        }
        None
    }

    /// Allocates a free key from given draws and returns its join code: the
    /// allocation that `create_key` makes, with the random keys handed in.
    ///
    /// The first `RANDOM_ATTEMPTS` draws are tried in order and the first free
    /// key among them is taken; a draw that is no key of the pool is passed
    /// over. When none is free the grid is scanned in row-major order and the
    /// first free key is taken. Only when every key is active does the call
    /// fail, with `FullCapasity`, and then the registry is unchanged.
    pub fn allocate_from(&mut self, draws: &Vec<(usize, usize)>, now: u64) -> (res: Result<
        String,
        KeyVaultError,
    >)
        requires
            old(self).wf(),
        ensures
            final(self).wf(),
            final(self).pool() == old(self).pool(),
            res is Err <==> is_full(old(self).pool(), old(self).active()),
            match res {
                Ok(code) => exists|key: (usize, usize)|
                    {
                        &&& is_chosen(old(self).pool(), old(self).active(), draws@, key)
                        &&& allocates(
                            old(self).pool(),
                            old(self).active(),
                            final(self).active(),
                            key,
                            now,
                        )
                        &&& code@ == old(self).pool().code_of(key)
                    },
                Err(e) => e == KeyVaultError::FullCapasity && final(self).active() == old(
                    self,
                ).active(),
            },
    {
        let prefix_count = self.words.prefix_count();
        let suffix_count = self.words.suffix_count();
        let mut at: usize = 0;
        while at < draws.len() && at < RANDOM_ATTEMPTS
            invariant
                at <= draws@.len(),
                at <= RANDOM_ATTEMPTS,
                prefix_count == self.pool().prefix_words().len(),
                suffix_count == self.pool().suffix_words().len(),
                self.wf(),
                self.pool() == old(self).pool(),
                self.active() == old(self).active(),
                forall|j: int|
                    0 <= j < at ==> !is_free(old(self).pool(), old(self).active(), #[trigger] draws@[j]),
            decreases draws@.len() - at,
        {
            let key = draws[at];
            if key.0 < prefix_count && key.1 < suffix_count {
                match self.try_claim(key, now) {
                    Some(code) => {
                        proof {
                            assert(is_first_free_draw(
                                old(self).pool(),
                                old(self).active(),
                                draws@,
                                at as int,
                            ));
                            assert(is_chosen(old(self).pool(), old(self).active(), draws@, key));
                        }
                        return Ok(code);
                    },
                    None => {},
                }
            }
            at += 1;
        }
        match self.claim_first_free(now) {
            Some(code) => {
                proof {
                    let key = choose|key: (usize, usize)|
                        {
                            &&& is_first_free(old(self).pool(), old(self).active(), key)
                            &&& allocates(
                                old(self).pool(),
                                old(self).active(),
                                final(self).active(),
                                key,
                                now,
                            )
                            &&& code@ == old(self).pool().code_of(key)
                        };
                    assert forall|j: int|
                        !is_first_free_draw(old(self).pool(), old(self).active(), draws@, j) by {
                        if 0 <= j < at {
                            assert(!is_free(old(self).pool(), old(self).active(), draws@[j]));
                        }
                    }
                    assert(is_chosen(old(self).pool(), old(self).active(), draws@, key));
                }
                Ok(code)
            },
            None => Err(KeyVaultError::FullCapasity),
        }
    }

    /// Draws the random keys of one allocation: key after key until one is
    /// free, at most `RANDOM_ATTEMPTS` of them, and none once no generator
    /// could be seeded. Every draw is a key of the pool, and every draw but
    /// the last is active.
    pub fn draw_attempts(&self) -> (draws: Vec<(usize, usize)>)
        requires
            self.pool().wf(),
        ensures
            draws@.len() <= RANDOM_ATTEMPTS,
            forall|i: int| 0 <= i < draws@.len() ==> self.pool().valid_key(#[trigger] draws@[i]),
            forall|i: int|
                0 <= i < draws@.len() - 1 ==> self.active().dom().contains(#[trigger] draws@[i]),
    {
        let mut draws: Vec<(usize, usize)> = Vec::new();
        let mut open = true;
        while open && draws.len() < RANDOM_ATTEMPTS
            invariant
                self.pool().wf(),
                draws@.len() <= RANDOM_ATTEMPTS,
                forall|i: int|
                    0 <= i < draws@.len() ==> self.pool().valid_key(#[trigger] draws@[i]),
                forall|i: int|
                    0 <= i < draws@.len() - 1 ==> self.active().dom().contains(
                        #[trigger] draws@[i],
                    ),
                open && draws@.len() > 0 ==> self.active().dom().contains(draws@.last()),
            decreases RANDOM_ATTEMPTS - draws@.len(), (if open { 1int } else { 0int }),
        {
            match self.random_idx() {
                None => {
                    open = false;
                },
                Some(key) => {
                    open = self.active.contains(key);
                    draws.push(key);
                },
            }
        }
        draws
    }

    /// Allocates a free key and returns its join code.
    ///
    /// Up to `RANDOM_ATTEMPTS` random keys are drawn and the first free one
    /// among them is taken. When each of them is active, or no generator could
    /// be seeded, the grid is scanned in row-major order and the first free
    /// key is taken. Only when every key is active does the call fail, with
    /// `FullCapasity`, and then the registry is unchanged.
    pub fn create_key(&mut self, now: u64) -> (res: Result<String, KeyVaultError>)
        requires
            old(self).wf(),
        ensures
            final(self).wf(),
            final(self).pool() == old(self).pool(),
            res is Err <==> is_full(old(self).pool(), old(self).active()),
            res is Err <==> old(self).active().len() == old(self).pool().capacity_spec(),
            match res {
                Ok(code) => exists|key: (usize, usize)|
                    {
                        &&& allocates(
                            old(self).pool(),
                            old(self).active(),
                            final(self).active(),
                            key,
                            now,
                        )
                        &&& code@ == old(self).pool().code_of(key)
                    },
                Err(e) => e == KeyVaultError::FullCapasity && final(self).active() == old(
                    self,
                ).active(),
            },
    {
        proof {
            lemma_full_iff_at_capacity(self.pool(), self.active());
        }
        let draws = self.draw_attempts();
        self.allocate_from(&draws, now)
    }

    /// Allocates a free key as `create_key` does and pairs the outcome with
    /// what goes to the audit log: the one critical event of an exhausted
    /// vault when the allocation fails, and nothing when it succeeds.
    pub fn create_key_audited(&mut self, now: u64) -> (out: (
        Result<String, KeyVaultError>,
        Option<AuditEvent>,
    ))
        requires
            old(self).wf(),
        ensures
            final(self).wf(),
            final(self).pool() == old(self).pool(),
            out.0 is Err <==> is_full(old(self).pool(), old(self).active()),
            out.0 is Err <==> old(self).active().len() == old(self).pool().capacity_spec(),
            match out.0 {
                Ok(code) => exists|key: (usize, usize)|
                    {
                        &&& allocates(
                            old(self).pool(),
                            old(self).active(),
                            final(self).active(),
                            key,
                            now,
                        )
                        &&& code@ == old(self).pool().code_of(key)
                    },
                Err(e) => e == KeyVaultError::FullCapasity && final(self).active() == old(
                    self,
                ).active(),
            },
            out.1 is Some <==> out.0 is Err,
            out.1 matches Some(event) ==> is_exhausted_event(event),
    {
        let res = self.create_key(now);
        let event = match &res {
            Ok(_) => None,
            Err(failure) => failure_event(*failure),
        };
        (res, event)
    }

    /// Allocates a free key with the clock as it was read, and pairs the
    /// outcome with what goes to the audit log. The second is needed only to
    /// stamp a key: a full vault fails with `FullCapasity` and its critical
    /// event whatever the clock says. A vault with a free key allocates when
    /// the second is at hand, and fails with `ClockUnreadable`, unchanged and
    /// without an event, when it is not.
    pub fn create_key_at(&mut self, clock: Option<u64>) -> (out: (
        Result<String, KeyVaultError>,
        Option<AuditEvent>,
    ))
        requires
            old(self).wf(),
        ensures
            final(self).wf(),
            final(self).pool() == old(self).pool(),
            out.0 is Ok <==> clock is Some && !is_full(old(self).pool(), old(self).active()),
            match out.0 {
                Ok(code) => exists|key: (usize, usize)|
                    {
                        &&& clock matches Some(now) && allocates(
                            old(self).pool(),
                            old(self).active(),
                            final(self).active(),
                            key,
                            now,
                        )
                        &&& code@ == old(self).pool().code_of(key)
                    },
                Err(e) => {
                    &&& final(self).active() == old(self).active()
                    &&& e == if is_full(old(self).pool(), old(self).active()) {
                        KeyVaultError::FullCapasity
                    } else {
                        KeyVaultError::ClockUnreadable
                    }
                },
            },
            out.1 is Some <==> is_full(old(self).pool(), old(self).active()),
            out.1 matches Some(event) ==> is_exhausted_event(event),
    {
        match clock {
            Some(now) => self.create_key_audited(now),
            None => {
                proof {
                    lemma_full_iff_at_capacity(self.pool(), self.active());
                }
                if self.active.len() as u128 == self.words.capacity() {
                    (Err(KeyVaultError::FullCapasity), Some(exhausted_event()))
                } else {
                    (Err(KeyVaultError::ClockUnreadable), None)
                }
            },
        }
    }

    /// Whether the key that the two words name is active.
    pub fn key_active(&self, key: &(String, String)) -> (active: bool)
        ensures
            active == exists|k: (usize, usize)|
                self.pool().names_key(k, key.0@, key.1@) && self.active().dom().contains(k),
    {
        match self.words.locate(&key.0, &key.1) {
            None => false,
            Some(k) => {
                let active = self.active.contains(k);
                proof {
                    if active {
                        assert(self.pool().names_key(k, key.0@, key.1@)
                            && self.active().dom().contains(k));
                    } else {
                        assert forall|other: (usize, usize)|
                            !(self.pool().names_key(other, key.0@, key.1@)
                                && self.active().dom().contains(other)) by {
                            if self.pool().names_key(other, key.0@, key.1@) {
                                self.pool().lemma_named_key_unique(other, k, key.0@, key.1@);
                            }
                        }
                    }
                }
                active
            },
        }
    }

    /// Releases the key that the two words name. Words that name no key, and
    /// a key that is not active, change nothing.
    pub fn remove_key(&mut self, key: (String, String))
        requires
            old(self).wf(),
        ensures
            final(self).wf(),
            final(self).pool() == old(self).pool(),
            releases(old(self).pool(), old(self).active(), final(self).active(), key.0@, key.1@),
    {
        match self.words.locate(&key.0, &key.1) {
            None => {},
            Some(k) => {
                self.active.remove(k);
                proof {
                    assert forall|other: (usize, usize)|
                        self.pool().names_key(other, key.0@, key.1@) implies other == k by {
                        self.pool().lemma_named_key_unique(other, k, key.0@, key.1@);
                    }
                }
            },
        }
    }

    /// Releases the key of a join code. A text that is not two words with one
    /// space between them is refused as malformed, and nothing changes.
    pub fn release_key(&mut self, code: &str) -> (res: Result<(), KeyVaultError>)
        requires
            old(self).wf(),
        ensures
            final(self).wf(),
            final(self).pool() == old(self).pool(),
            res is Ok <==> well_formed_code(code@),
            match res {
                Ok(_) => releases_code(
                    old(self).pool(),
                    old(self).active(),
                    final(self).active(),
                    code@,
                ),
                Err(e) => e == KeyVaultError::MalformedCode && final(self).active() == old(
                    self,
                ).active(),
            },
    {
        match split_code(code) {
            None => Err(KeyVaultError::MalformedCode),
            Some(words) => {
                let ghost prefix = words.0@;
                let ghost suffix = words.1@;
                self.remove_key(words);
                proof {
                    assert forall|p: Seq<char>, s: Seq<char>| splits_into(code@, p, s) implies releases(
                        old(self).pool(),
                        old(self).active(),
                        final(self).active(),
                        p,
                        s,
                    ) by {
                        lemma_split_unique(code@, p, s, prefix, suffix);
                    }
                }
                Ok(())
            },
        }
    }

    /// Takes back every key that is older than the time-to-live at second `now`
    /// and returns how many keys left.
    pub fn reclaim(&mut self, now: u64) -> (removed: usize)
        requires
            old(self).wf(),
        ensures
            final(self).wf(),
            final(self).pool() == old(self).pool(),
            final(self).active() == unexpired_part(old(self).active(), now),
            removed == old(self).active().len() - final(self).active().len(),
            removed == expired_keys(old(self).active(), now).len(),
    {
        proof {
            lemma_expired_count(self.active(), now);
        }
        if now <= KEY_TTL_SECS {
            proof {
                assert(unexpired_part(self.active(), now) =~= self.active());
            }
            return 0;
        }
        let before = self.active.len();
        self.active.retain_after(now - KEY_TTL_SECS - 1);
        let after = self.active.len();
        proof {
            assert(stamped_after_part(old(self).active(), (now - KEY_TTL_SECS - 1) as u64)
                =~= unexpired_part(old(self).active(), now));
            assert(final(self).active().dom().subset_of(old(self).active().dom()));
            vstd::set_lib::lemma_len_subset(
                final(self).active().dom(),
                old(self).active().dom(),
            );
        }
        before - after
    }

    /// One pass of the reclaimer: takes back the expired keys and, when any
    /// left, returns the one warning for the audit log with their number.
    pub fn cleanup_pass(&mut self, now: u64) -> (res: Option<AuditEvent>)
        requires
            old(self).wf(),
        ensures
            final(self).wf(),
            final(self).pool() == old(self).pool(),
            final(self).active() == unexpired_part(old(self).active(), now),
            res is Some <==> expired_keys(old(self).active(), now).len() > 0,
            res matches Some(event) ==> is_reclaimed_event(
                event,
                expired_keys(old(self).active(), now).len(),
            ),
    {
        let removed = self.reclaim(now);
        reclaimed_event(removed)
    }

    /// One tick of the reclaimer's timer, with the clock as it was read. With
    /// the second at hand the tick is a pass of the reclaimer. Without it
    /// nothing is taken back, and the tick answers with the critical event of
    /// a clock that could not be read.
    pub fn cleanup_tick(&mut self, clock: Option<u64>) -> (res: Option<AuditEvent>)
        requires
            old(self).wf(),
        ensures
            final(self).wf(),
            final(self).pool() == old(self).pool(),
            match clock {
                Some(now) => {
                    &&& final(self).active() == unexpired_part(old(self).active(), now)
                    &&& res is Some <==> expired_keys(old(self).active(), now).len() > 0
                    &&& res matches Some(event) ==> is_reclaimed_event(
                        event,
                        expired_keys(old(self).active(), now).len(),
                    )
                },
                None => {
                    &&& final(self).active() == old(self).active()
                    &&& res matches Some(event) && is_clock_failure_event(event)
                },
            },
    {
        match clock {
            Some(now) => self.cleanup_pass(now),
            None => Some(clock_failure_event()),
        }
    }
}

} // verus!
