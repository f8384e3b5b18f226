use tero::key_vault::audit::{decimal_text, exhausted_event, failure_event, reclaimed_event};
use tero::key_vault::code::split_code;
use tero::key_vault::error::KeyVaultError;
use tero::key_vault::registry::{stamped_after, ActiveKeys};
use tero::key_vault::vault::KeyVault;
use tero::key_vault::words::WordPool;
use tero::system_log::models::{Action, LogCeverity, SubjectType};

fn words(list: &[&str]) -> Vec<String> {
    list.iter().map(|w| w.to_string()).collect()
}

#[test]
fn decimal_numerals() {
    assert_eq!(decimal_text(0), "0");
    assert_eq!(decimal_text(7), "7");
    assert_eq!(decimal_text(10), "10");
    assert_eq!(decimal_text(109), "109");
    assert_eq!(decimal_text(12345), "12345");
    assert_eq!(decimal_text(usize::MAX), usize::MAX.to_string());
}

#[test]
fn exhaustion_is_a_critical_event() {
    let event = exhausted_event();
    assert_eq!(event.action, Action::Create);
    assert_eq!(event.ceverity, LogCeverity::Critical);
    assert_eq!(event.function, "create_key");
    assert_eq!(event.description, "vault exhausted");
    assert_eq!(event.warning, None);
}

#[test]
fn only_exhaustion_is_mirrored_to_the_audit_log() {
    let event = failure_event(KeyVaultError::FullCapasity).unwrap();
    assert_eq!(event.ceverity, LogCeverity::Critical);
    assert_eq!(event.function, "create_key");
    assert_eq!(event.description, "vault exhausted");
    assert!(failure_event(KeyVaultError::MalformedCode).is_none());
    assert!(failure_event(KeyVaultError::EmptyVocabulary).is_none());
    assert!(failure_event(KeyVaultError::ClockUnreadable).is_none());
}

#[test]
fn reclamation_is_a_warning_with_the_count() {
    assert!(reclaimed_event(0).is_none());
    let event = reclaimed_event(12).unwrap();
    assert_eq!(event.action, Action::Delete);
    assert_eq!(event.ceverity, LogCeverity::Warning);
    assert_eq!(event.function, "spawn_vault_cleanup");
    assert_eq!(event.description, "Cleaned up 12 expired keys");
    assert_eq!(
        event.warning.as_deref(),
        Some("Indicates game crash or unexpected exit - keys should be freed on game start.")
    );
}

#[test]
fn cleanup_pass_reports_once_with_the_count() {
    let mut vault = KeyVault::load_words(words(&["Red", "Blue"]), words(&["Fox", "Owl"])).unwrap();
    assert!(vault.try_claim((0, 0), 100).is_some());
    assert!(vault.try_claim((0, 1), 200).is_some());
    assert!(vault.try_claim((1, 0), 9000).is_some());
    assert!(vault.cleanup_pass(3000).is_none());
    // at 3800 the second key is exactly as old as the time-to-live
    assert!(vault.cleanup_pass(3700).is_none());
    let event = vault.cleanup_pass(3801).unwrap();
    assert_eq!(event.description, "Cleaned up 2 expired keys");
    assert_eq!(event.ceverity, LogCeverity::Warning);
    assert_eq!(vault.active_count(), 1);
    assert!(vault.cleanup_pass(3801).is_none());
    assert!(vault.cleanup_pass(12600).is_none());
    let event = vault.cleanup_pass(12601).unwrap();
    assert_eq!(event.description, "Cleaned up 1 expired keys");
    assert_eq!(vault.active_count(), 0);
}

#[test]
fn a_tick_without_a_clock_takes_nothing_back() {
    let mut vault = KeyVault::load_words(words(&["Red"]), words(&["Fox"])).unwrap();
    assert!(vault.try_claim((0, 0), 0).is_some());
    let event = vault.cleanup_tick(None).unwrap();
    assert_eq!(event.action, Action::Other);
    assert_eq!(event.ceverity, LogCeverity::Critical);
    assert_eq!(event.function, "spawn_vault_cleanup");
    assert_eq!(event.description, "Failed to obtain system time");
    assert_eq!(event.warning, None);
    assert_eq!(vault.active_count(), 1);

    assert!(vault.cleanup_tick(Some(3599)).is_none());
    assert!(vault.cleanup_tick(Some(3600)).is_none());
    assert_eq!(vault.active_count(), 1);
    let event = vault.cleanup_tick(Some(3601)).unwrap();
    assert_eq!(event.description, "Cleaned up 1 expired keys");
    assert_eq!(vault.active_count(), 0);
}

#[test]
fn codes_split_at_their_one_space() {
    assert_eq!(split_code("Red Fox"), Some(("Red".to_string(), "Fox".to_string())));
    assert_eq!(split_code(" "), Some((String::new(), String::new())));
    assert_eq!(split_code("a "), Some(("a".to_string(), String::new())));
    assert_eq!(split_code("Rød Ørn"), Some(("Rød".to_string(), "Ørn".to_string())));
    assert_eq!(split_code(""), None);
    assert_eq!(split_code("RedFox"), None);
    assert_eq!(split_code("Red  Fox"), None);
    assert_eq!(split_code("Red Fox Owl"), None);
}

#[test]
fn pool_renders_and_locates() {
    let pool = WordPool::new(words(&["Red", "Blue", "Red"]), words(&["Fox", "Owl"])).ok().unwrap();
    assert_eq!(pool.prefix_count(), 3);
    assert_eq!(pool.suffix_count(), 2);
    assert_eq!(pool.capacity(), 6);
    assert_eq!(pool.render((1, 1)), "Blue Owl");
    assert_eq!(pool.render((2, 0)), "Red Fox");
    assert_eq!(pool.prefix_word(1), "Blue");
    assert_eq!(pool.suffix_word(0), "Fox");
    assert_eq!(pool.locate(&"Blue".to_string(), &"Owl".to_string()), Some((1, 1)));
    assert_eq!(pool.locate(&"Red".to_string(), &"Fox".to_string()), Some((0, 0)));
    assert_eq!(pool.locate(&"Red".to_string(), &"Cat".to_string()), None);
    assert_eq!(pool.locate(&"Green".to_string(), &"Fox".to_string()), None);
}

#[test]
fn registry_inserts_once_and_removes_in_silence() {
    let mut active = ActiveKeys::new();
    assert_eq!(active.len(), 0);
    assert!(!active.contains((3, 4)));
    assert!(active.insert_if_absent((3, 4), 50));
    assert!(!active.insert_if_absent((3, 4), 60));
    assert!(active.insert_if_absent((4, 3), 70));
    assert!(active.contains((3, 4)));
    assert_eq!(active.len(), 2);
    active.remove((9, 9));
    assert_eq!(active.len(), 2);
    active.remove((3, 4));
    active.remove((3, 4));
    assert_eq!(active.len(), 1);
    assert!(!active.contains((3, 4)));
    assert!(active.contains((4, 3)));
}

#[test]
fn registry_keeps_what_is_stamped_after_the_threshold() {
    let mut active = ActiveKeys::new();
    assert!(active.insert_if_absent((0, 0), 10));
    assert!(active.insert_if_absent((0, 1), 20));
    assert!(active.insert_if_absent((0, 2), 30));
    active.retain_after(20);
    assert_eq!(active.len(), 1);
    assert!(active.contains((0, 2)));
    // the second of the first allocation stays: a later one does not replace it
    assert!(!active.insert_if_absent((0, 2), 5));
    active.retain_after(29);
    assert!(active.contains((0, 2)));
    assert!(stamped_after(21, 20));
    assert!(!stamped_after(20, 20));
}

#[test]
fn messages_and_labels() {
    assert_eq!(KeyVaultError::FullCapasity.message(), "No more available words");
    assert_eq!(KeyVaultError::MalformedCode.message(), "Key word in invalid format");
    assert_eq!(KeyVaultError::ClockUnreadable.message(), "Failed to get created at time");
    assert_eq!(
        KeyVaultError::EmptyVocabulary.message(),
        "Failed to load words: a word set is empty"
    );
    assert_eq!(LogCeverity::Critical.label(), "critical");
    assert_eq!(LogCeverity::Warning.label(), "warning");
    assert_eq!(LogCeverity::Info.label(), "info");
    assert_eq!(Action::Create.label(), "write");
    assert_eq!(Action::Read.label(), "read");
    assert_eq!(Action::Update.label(), "update");
    assert_eq!(Action::Delete.label(), "delete");
    assert_eq!(Action::Sync.label(), "sync");
    assert_eq!(Action::Other.label(), "other");
    assert_eq!(SubjectType::RegisteredUser.label(), "registered");
    assert_eq!(SubjectType::GuestUser.label(), "guest");
    assert_eq!(SubjectType::Integration.label(), "integration");
    assert_eq!(SubjectType::System.label(), "system");
}
