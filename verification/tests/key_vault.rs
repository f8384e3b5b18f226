use std::collections::HashSet;

use rand::SeedableRng;
use rand_chacha::ChaCha8Rng;

use tero::key_vault::error::KeyVaultError;
use tero::key_vault::model::{CLEANUP_PERIOD_SECS, KEY_TTL_SECS, RANDOM_ATTEMPTS};
use tero::key_vault::vault::KeyVault;

fn words(list: &[&str]) -> Vec<String> {
    list.iter().map(|w| w.to_string()).collect()
}

fn numbered(stem: &str, count: usize) -> Vec<String> {
    (0..count).map(|i| format!("{}{}", stem, i)).collect()
}

fn small_vault() -> KeyVault {
    KeyVault::load_words(words(&["Red", "Blue"]), words(&["Fox", "Owl"])).unwrap()
}

#[test]
fn max_limit_keys() {
    let mut vault = KeyVault::load_words(numbered("p", 100), numbered("s", 100)).unwrap();
    assert_eq!(vault.capacity(), 10_000);

    for num in 0..10_000 {
        let word = vault.create_key(num as u64).unwrap();
        assert!(!word.is_empty());
    }

    let result = vault.create_key(10_000);
    assert!(result.is_err());

    let error = result.err().unwrap();
    match error {
        KeyVaultError::FullCapasity => assert!(true),
        _ => assert!(false, "Failed with: {}", error.message()),
    }
}

#[test]
fn four_keys_then_full_then_release() {
    let mut vault = small_vault();
    assert_eq!(vault.capacity(), 4);

    let all: HashSet<String> =
        words(&["Red Fox", "Red Owl", "Blue Fox", "Blue Owl"]).into_iter().collect();
    let mut seen = HashSet::new();
    for i in 0..4 {
        let code = vault.create_key(i).unwrap();
        assert!(all.contains(&code));
        assert!(seen.insert(code));
    }
    assert_eq!(seen, all);
    assert_eq!(vault.active_count(), 4);
    assert_eq!(vault.available(), 0);

    assert_eq!(vault.create_key(5), Err(KeyVaultError::FullCapasity));
    assert_eq!(vault.active_count(), 4);

    assert_eq!(vault.release_key("Red Fox"), Ok(()));
    assert_eq!(vault.active_count(), 3);
    assert_eq!(vault.create_key(6), Ok("Red Fox".to_string()));
    assert_eq!(vault.create_key(7), Err(KeyVaultError::FullCapasity));
}

#[test]
fn lists_of_different_length_give_the_product() {
    let mut vault =
        KeyVault::load_words(words(&["A", "B", "C"]), words(&["x", "y"])).unwrap();
    assert_eq!(vault.capacity(), 6);
    let mut seen = HashSet::new();
    for _ in 0..6 {
        assert!(seen.insert(vault.create_key(0).unwrap()));
    }
    assert_eq!(vault.create_key(0), Err(KeyVaultError::FullCapasity));
}

#[test]
fn empty_word_list_is_refused() {
    assert_eq!(
        KeyVault::load_words(Vec::new(), words(&["Fox"])).err(),
        Some(KeyVaultError::EmptyVocabulary)
    );
    assert_eq!(
        KeyVault::load_words(words(&["Red"]), Vec::new()).err(),
        Some(KeyVaultError::EmptyVocabulary)
    );
    assert_eq!(
        KeyVault::load_words(Vec::new(), Vec::new()).err(),
        Some(KeyVaultError::EmptyVocabulary)
    );
}

#[test]
fn first_free_key_comes_in_row_major_order() {
    let mut vault = small_vault();
    assert_eq!(vault.claim_first_free(1), Some("Red Fox".to_string()));
    assert_eq!(vault.claim_first_free(1), Some("Red Owl".to_string()));
    assert_eq!(vault.claim_first_free(1), Some("Blue Fox".to_string()));
    assert_eq!(vault.claim_first_free(1), Some("Blue Owl".to_string()));
    assert_eq!(vault.claim_first_free(1), None);
    vault.remove_key(("Red".to_string(), "Owl".to_string()));
    vault.remove_key(("Blue".to_string(), "Owl".to_string()));
    assert_eq!(vault.claim_first_free(1), Some("Red Owl".to_string()));
}

#[test]
fn a_claimed_key_cannot_be_claimed_again() {
    let mut vault = small_vault();
    assert_eq!(vault.try_claim((1, 0), 9), Some("Blue Fox".to_string()));
    assert_eq!(vault.try_claim((1, 0), 10), None);
    assert_eq!(vault.active_count(), 1);
    assert!(vault.key_active(&("Blue".to_string(), "Fox".to_string())));
    assert!(!vault.key_active(&("Red".to_string(), "Fox".to_string())));
    assert!(!vault.key_active(&("Green".to_string(), "Fox".to_string())));
}

#[test]
fn random_draws_stay_inside_the_pool() {
    let vault = KeyVault::load_words(words(&["A", "B", "C"]), words(&["x", "y"])).unwrap();
    for _ in 0..200 {
        if let Some((i, j)) = vault.random_idx() {
            assert!(i < 3);
            assert!(j < 2);
        }
    }
    let single = KeyVault::load_words(words(&["A"]), words(&["x"])).unwrap();
    if let Some(key) = single.random_idx() {
        assert_eq!(key, (0, 0));
    }
}

#[test]
fn release_is_idempotent() {
    let mut vault = small_vault();
    let code = vault.create_key(0).unwrap();
    let other = vault.create_key(0).unwrap();
    assert_ne!(code, other);
    assert_eq!(vault.available(), 2);
    assert_eq!(vault.release_key(&code), Ok(()));
    assert_eq!(vault.available(), 3);
    assert_eq!(vault.release_key(&code), Ok(()));
    assert_eq!(vault.available(), 3);
    assert_eq!(vault.active_count(), 1);
}

#[test]
fn release_of_unknown_words_changes_nothing() {
    let mut vault = small_vault();
    vault.create_key(0).unwrap();
    assert_eq!(vault.release_key("Green Cat"), Ok(()));
    assert_eq!(vault.release_key("Red Cat"), Ok(()));
    assert_eq!(vault.active_count(), 1);
}

#[test]
fn malformed_codes_are_refused() {
    let mut vault = small_vault();
    assert_eq!(vault.try_claim((0, 0), 0), Some("Red Fox".to_string()));
    for text in ["", "RedFox", "Red  Fox", "Red Fox Owl", " Red Fox", "Red Fox "] {
        assert_eq!(vault.release_key(text), Err(KeyVaultError::MalformedCode));
    }
    assert_eq!(vault.active_count(), 1);
}

#[test]
fn reclaim_takes_back_what_is_older_than_the_ttl() {
    assert_eq!(KEY_TTL_SECS, 3600);
    let mut vault = small_vault();
    assert_eq!(vault.try_claim((0, 0), 1000), Some("Red Fox".to_string()));
    assert_eq!(vault.try_claim((0, 1), 1001), Some("Red Owl".to_string()));
    assert_eq!(vault.try_claim((1, 1), 5000), Some("Blue Owl".to_string()));

    assert_eq!(vault.reclaim(4599), 0);
    // at 4600 the first key is exactly as old as the time-to-live: it stays
    assert_eq!(vault.reclaim(4600), 0);
    assert_eq!(vault.active_count(), 3);
    assert!(vault.key_active(&("Red".to_string(), "Fox".to_string())));

    assert_eq!(vault.reclaim(4601), 1);
    assert!(!vault.key_active(&("Red".to_string(), "Fox".to_string())));
    assert!(vault.key_active(&("Red".to_string(), "Owl".to_string())));

    assert_eq!(vault.reclaim(8600), 1);
    assert!(vault.key_active(&("Blue".to_string(), "Owl".to_string())));
    assert_eq!(vault.reclaim(8601), 1);
    assert_eq!(vault.active_count(), 0);
    assert_eq!(vault.reclaim(u64::MAX), 0);
}

#[test]
fn reclaim_within_the_first_ttl_removes_nothing() {
    let mut vault = small_vault();
    assert_eq!(vault.try_claim((0, 0), 0), Some("Red Fox".to_string()));
    assert_eq!(vault.reclaim(0), 0);
    assert_eq!(vault.reclaim(3599), 0);
    assert_eq!(vault.reclaim(3600), 0);
    assert_eq!(vault.active_count(), 1);
    assert_eq!(vault.reclaim(3601), 1);
    assert_eq!(vault.active_count(), 0);
}

#[test]
fn reclaim_at_the_end_of_time_keeps_what_is_young() {
    let mut vault = small_vault();
    assert_eq!(vault.try_claim((0, 0), u64::MAX - 3600), Some("Red Fox".to_string()));
    assert_eq!(vault.try_claim((0, 1), u64::MAX - 3601), Some("Red Owl".to_string()));
    assert_eq!(vault.try_claim((1, 0), u64::MAX), Some("Blue Fox".to_string()));
    assert_eq!(vault.reclaim(u64::MAX), 1);
    assert!(vault.key_active(&("Red".to_string(), "Fox".to_string())));
    assert!(!vault.key_active(&("Red".to_string(), "Owl".to_string())));
    assert!(vault.key_active(&("Blue".to_string(), "Fox".to_string())));
}

#[test]
fn reclaimed_key_can_be_allocated_again() {
    let mut vault = KeyVault::load_words(words(&["Red"]), words(&["Fox"])).unwrap();
    assert_eq!(vault.create_key(10), Ok("Red Fox".to_string()));
    assert_eq!(vault.create_key(11), Err(KeyVaultError::FullCapasity));
    assert!(vault.cleanup_pass(10 + KEY_TTL_SECS).is_none());
    assert_eq!(vault.create_key(3611), Err(KeyVaultError::FullCapasity));
    assert!(vault.cleanup_pass(11 + KEY_TTL_SECS).is_some());
    assert_eq!(vault.create_key(4000), Ok("Red Fox".to_string()));
}

#[test]
fn given_draws_are_tried_in_order_before_the_scan() {
    let mut vault = small_vault();
    // the first draw is free
    assert_eq!(vault.allocate_from(&vec![(1, 1), (0, 0)], 1), Ok("Blue Owl".to_string()));
    // the first draw is active, the second is no key of the pool, the third is free
    assert_eq!(
        vault.allocate_from(&vec![(1, 1), (2, 0), (1, 0), (0, 0)], 1),
        Ok("Blue Fox".to_string())
    );
    // no draw is free: the scan takes the first free key in row-major order
    assert_eq!(vault.allocate_from(&vec![(1, 1), (1, 0)], 1), Ok("Red Fox".to_string()));
    // no draw at all
    assert_eq!(vault.allocate_from(&Vec::new(), 1), Ok("Red Owl".to_string()));
    assert_eq!(vault.allocate_from(&vec![(0, 0)], 1), Err(KeyVaultError::FullCapasity));
    assert_eq!(vault.active_count(), 4);
}

#[test]
fn only_the_first_hundred_draws_are_looked_at() {
    let mut vault = small_vault();
    assert_eq!(vault.try_claim((0, 0), 1), Some("Red Fox".to_string()));
    let mut draws = vec![(0, 0); 100];
    draws.push((1, 1));
    // the free draw stands behind the hundredth: the scan decides
    assert_eq!(vault.allocate_from(&draws, 1), Ok("Red Owl".to_string()));
    let mut draws = vec![(0, 0); 99];
    draws.push((1, 1));
    assert_eq!(vault.allocate_from(&draws, 1), Ok("Blue Owl".to_string()));
}

#[test]
fn a_seeded_generator_always_gives_a_key_of_the_pool() {
    let vault = KeyVault::load_words(words(&["A", "B", "C"]), words(&["x", "y"])).unwrap();
    assert_eq!(vault.draw_key(None), None);
    let mut seen = HashSet::new();
    for seed in 0..200u64 {
        let (i, j) = vault.draw_key(Some(ChaCha8Rng::seed_from_u64(seed))).unwrap();
        assert!(i < 3);
        assert!(j < 2);
        seen.insert((i, j));
    }
    // two hundred seeds on six keys: more than one key comes up
    assert!(seen.len() > 1);
    let single = KeyVault::load_words(words(&["A"]), words(&["x"])).unwrap();
    assert_eq!(single.draw_key(Some(ChaCha8Rng::seed_from_u64(1))), Some((0, 0)));
}

#[test]
fn exhaustion_is_paired_with_its_one_critical_event() {
    let mut vault = KeyVault::load_words(words(&["Red"]), words(&["Fox"])).unwrap();
    let (result, event) = vault.create_key_audited(1);
    assert_eq!(result, Ok("Red Fox".to_string()));
    assert!(event.is_none());

    let (result, event) = vault.create_key_audited(2);
    assert_eq!(result, Err(KeyVaultError::FullCapasity));
    let event = event.unwrap();
    assert_eq!(event.function, "create_key");
    assert_eq!(event.description, "vault exhausted");
    assert_eq!(vault.active_count(), 1);

    assert_eq!(vault.release_key("Red Fox"), Ok(()));
    let (result, event) = vault.create_key_audited(3);
    assert_eq!(result, Ok("Red Fox".to_string()));
    assert!(event.is_none());
}

#[test]
fn the_clock_matters_only_where_a_key_is_free() {
    let mut vault = KeyVault::load_words(words(&["Red"]), words(&["Fox"])).unwrap();
    // a free key and no second to stamp it with
    let (result, event) = vault.create_key_at(None);
    assert_eq!(result, Err(KeyVaultError::ClockUnreadable));
    assert!(event.is_none());
    assert_eq!(vault.active_count(), 0);

    let (result, event) = vault.create_key_at(Some(7));
    assert_eq!(result, Ok("Red Fox".to_string()));
    assert!(event.is_none());
    assert_eq!(vault.reclaim(7 + KEY_TTL_SECS), 0);
    assert_eq!(vault.active_count(), 1);

    // a full vault is exhausted whatever the clock says
    let (result, event) = vault.create_key_at(None);
    assert_eq!(result, Err(KeyVaultError::FullCapasity));
    assert_eq!(event.unwrap().description, "vault exhausted");
    let (result, event) = vault.create_key_at(Some(8));
    assert_eq!(result, Err(KeyVaultError::FullCapasity));
    assert_eq!(event.unwrap().description, "vault exhausted");
    assert_eq!(vault.active_count(), 1);
}

#[test]
fn random_attempts_stop_at_the_first_free_key() {
    assert_eq!(RANDOM_ATTEMPTS, 100);
    assert_eq!(CLEANUP_PERIOD_SECS, 3600);
    let mut vault = KeyVault::load_words(words(&["Red"]), words(&["Fox"])).unwrap();
    // the one key is free: the first draw ends the attempts
    let draws = vault.draw_attempts();
    assert!(draws.len() <= 1);
    assert!(draws.iter().all(|key| *key == (0, 0)));
    assert_eq!(vault.try_claim((0, 0), 1), Some("Red Fox".to_string()));
    // the one key is active: every attempt hits it
    let draws = vault.draw_attempts();
    assert!(draws.len() <= 100);
    assert!(draws.iter().all(|key| *key == (0, 0)));

    let mut vault = small_vault();
    assert_eq!(vault.try_claim((0, 0), 1), Some("Red Fox".to_string()));
    let draws = vault.draw_attempts();
    for (i, key) in draws.iter().enumerate() {
        assert!(key.0 < 2 && key.1 < 2);
        if i + 1 < draws.len() {
            assert_eq!(*key, (0, 0));
        }
    }
}
