//! The events that the vault hands to the audit log.

use vstd::prelude::*;
use vstd::string::StringExecFns;
use crate::key_vault::error::KeyVaultError;
use crate::system_log::models::{Action, LogCeverity};

verus! {

/// The character of a decimal digit.
pub open spec fn digit_char(d: nat) -> char {
    if d == 0 {
        '0'
    } else if d == 1 {
        '1'
    } else if d == 2 {
        '2'
    } else if d == 3 {
        '3'
    } else if d == 4 {
        '4'
    } else if d == 5 {
        '5'
    } else if d == 6 {
        '6'
    } else if d == 7 {
        '7'
    } else if d == 8 {
        '8'
    } else {
        '9'
    }
}

/// The decimal numeral of a number, without leading zeros.
pub open spec fn decimal(n: nat) -> Seq<char>
    decreases n,
{
    if n < 10 {
        seq![digit_char(n)]
    } else {
        decimal(n / 10).push(digit_char(n % 10))
    }
}

/// The text of one decimal digit.
fn digit_text(d: usize) -> (text: &'static str)
    requires
        d < 10,
    ensures
        text@ == seq![digit_char(d as nat)],
{
    proof {
        reveal_strlit("0");
        reveal_strlit("1");
        reveal_strlit("2");
        reveal_strlit("3");
        reveal_strlit("4");
        reveal_strlit("5");
        reveal_strlit("6");
        reveal_strlit("7");
        reveal_strlit("8");
        reveal_strlit("9");
    }
    let text = if d == 0 {
        "0"
    } else if d == 1 {
        "1"
    } else if d == 2 {
        "2"
    } else if d == 3 {
        "3"
    } else if d == 4 {
        "4"
    } else if d == 5 {
        "5"
    } else if d == 6 {
        "6"
    } else if d == 7 {
        "7"
    } else if d == 8 {
        "8"
    } else {
        "9"
    };
    assert(text@ =~= seq![digit_char(d as nat)]);
    text
}

/// Appends the decimal numeral of `n` to `out`.
fn push_decimal(out: &mut String, n: usize)
    ensures
        final(out)@ == old(out)@ + decimal(n as nat),
    decreases n,
{
    if n >= 10 {
        push_decimal(out, n / 10);
    }
    out.append(digit_text(n % 10));
    assert(final(out)@ =~= old(out)@ + decimal(n as nat));
}

/// The decimal numeral of `n`, as text.
pub fn decimal_text(n: usize) -> (text: String)
    ensures
        text@ == decimal(n as nat),
{
    let mut text = String::new();
    push_decimal(&mut text, n);
    assert(text@ =~= decimal(n as nat));
    text
}

/// An event for the audit log.
#[derive(Debug, Clone)]
pub struct AuditEvent {
    pub action: Action,
    pub ceverity: LogCeverity,
    pub function: String,
    pub description: String,
    pub warning: Option<String>,
}

/// What a reclamation that removed `removed` keys is described as.
pub open spec fn reclaimed_description(removed: nat) -> Seq<char> {
    "Cleaned up "@ + decimal(removed) + " expired keys"@
}

/// Whether `event` is the critical event of an exhausted vault.
pub open spec fn is_exhausted_event(event: AuditEvent) -> bool {
    &&& event.action == Action::Create
    &&& event.ceverity == LogCeverity::Critical
    &&& event.function@ == "create_key"@
    &&& event.description@ == "vault exhausted"@
    &&& event.warning is None
}

/// Whether `event` is the warning of a reclamation that took back `removed`
/// keys.
pub open spec fn is_reclaimed_event(event: AuditEvent, removed: nat) -> bool {
    &&& event.action == Action::Delete
    &&& event.ceverity == LogCeverity::Warning
    &&& event.function@ == "spawn_vault_cleanup"@
    &&& event.description@ == reclaimed_description(removed)
    &&& event.warning matches Some(text) && text@
        == "Indicates game crash or unexpected exit - keys should be freed on game start."@
}

/// Whether `event` is the critical event of a reclaimer that could not read
/// the clock.
pub open spec fn is_clock_failure_event(event: AuditEvent) -> bool {
    &&& event.action == Action::Other
    &&& event.ceverity == LogCeverity::Critical
    &&& event.function@ == "spawn_vault_cleanup"@
    &&& event.description@ == "Failed to obtain system time"@
    &&& event.warning is None
}

/// The critical event of a reclaimer that could not read the clock.
pub fn clock_failure_event() -> (event: AuditEvent)
    ensures
        is_clock_failure_event(event),
{
    AuditEvent {
        action: Action::Other,
        ceverity: LogCeverity::Critical,
        function: String::from_str("spawn_vault_cleanup"),
        description: String::from_str("Failed to obtain system time"),
        warning: None,
    }
}

/// The critical event that goes with an exhausted vault.
pub fn exhausted_event() -> (event: AuditEvent)
    ensures
        is_exhausted_event(event),
{
    AuditEvent {
        action: Action::Create,
        ceverity: LogCeverity::Critical,
        function: String::from_str("create_key"),
        description: String::from_str("vault exhausted"),
        warning: None,
    }
}

/// The event that a failure of the vault is mirrored with: exhaustion is
/// always paired with its critical event, the other failures with none.
pub fn failure_event(failure: KeyVaultError) -> (res: Option<AuditEvent>)
    ensures
        res is Some <==> failure == KeyVaultError::FullCapasity,
        res matches Some(event) ==> is_exhausted_event(event),
{
    match failure {
        KeyVaultError::FullCapasity => Some(exhausted_event()),
        _ => None,
    }
}

/// The warning that goes with a reclamation: one event that carries the
/// number of keys taken back, or nothing when none was.
pub fn reclaimed_event(removed: usize) -> (res: Option<AuditEvent>)
    ensures
        res is Some <==> removed > 0,
        res matches Some(event) ==> is_reclaimed_event(event, removed as nat),
{
    if removed == 0 {
        return None;
    }
    let mut description = String::from_str("Cleaned up ");
    push_decimal(&mut description, removed);
    description.append(" expired keys");
    Some(
        AuditEvent {
            action: Action::Delete,
            ceverity: LogCeverity::Warning,
            function: String::from_str("spawn_vault_cleanup"),
            description,
            warning: Some(
                String::from_str(
                    "Indicates game crash or unexpected exit - keys should be freed on game start.",
                ),
            ),
        },
    )
}

} // verus!
