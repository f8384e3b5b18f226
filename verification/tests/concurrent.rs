use std::collections::HashSet;
use std::sync::{Arc, Mutex};

use tero::key_vault::error::KeyVaultError;
use tero::key_vault::vault::KeyVault;

fn numbered(stem: &str, count: usize) -> Vec<String> {
    (0..count).map(|i| format!("{}{}", stem, i)).collect()
}

// Spawns the callers on four worker threads at once and collects what each
// was given, in the order in which the callers were spawned.
fn create_at_once(vault: KeyVault, callers: u64) -> (Vec<Result<String, KeyVaultError>>, KeyVault) {
    let vault = Arc::new(Mutex::new(vault));

    let runtime = tokio::runtime::Builder::new_multi_thread()
        .worker_threads(4)
        .build()
        .unwrap();

    let results = runtime.block_on(async {
        let mut handles = Vec::new();
        for caller in 0..callers {
            let vault = Arc::clone(&vault);
            handles.push(tokio::spawn(async move {
                vault.lock().unwrap().create_key(caller)
            }));
        }
        let mut results = Vec::new();
        for handle in handles {
            results.push(handle.await.unwrap());
        }
        results
    });
    drop(runtime);

    let vault = match Arc::try_unwrap(vault) {
        Ok(vault) => vault.into_inner().unwrap(),
        Err(_) => panic!("a caller still holds the vault"),
    };
    (results, vault)
}

#[test]
fn test_concurrent_key_creation() {
    let vault = KeyVault::load_words(numbered("p", 100), numbered("s", 100)).unwrap();
    let (results, vault) = create_at_once(vault, 10001);

    let mut successful_keys: Vec<String> = Vec::new();
    let mut failed_count = 0;

    for result in results {
        match result {
            Ok(key) => successful_keys.push(key),
            Err(_) => failed_count += 1,
        }
    }

    let mut unique_keys = HashSet::new();
    for key in &successful_keys {
        assert!(unique_keys.insert(key.clone()), "duplicate key: {}", key);
    }

    assert!(successful_keys.len() > 0, "no key was created");
    assert_eq!(successful_keys.len(), unique_keys.len(), "duplicate keys");
    assert_eq!(successful_keys.len(), 10_000);
    assert_eq!(failed_count, 1);
    assert_eq!(vault.active_count(), 10_000);
}

#[test]
fn simultaneous_callers_within_capacity_all_succeed() {
    let vault = KeyVault::load_words(numbered("p", 30), numbered("s", 30)).unwrap();
    let (results, vault) = create_at_once(vault, 900);

    let mut unique_keys = HashSet::new();
    for result in results {
        let key = result.unwrap();
        assert!(unique_keys.insert(key.clone()), "duplicate key: {}", key);
    }
    assert_eq!(unique_keys.len(), 900);
    assert_eq!(vault.available(), 0);
}
