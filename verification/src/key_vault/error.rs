//! What the vault reports to its callers.

use vstd::prelude::*;
use vstd::string::StringExecFns;

verus! {

/// The failures of the vault.
#[derive(Debug, Clone, Copy, PartialEq, Eq, Structural)]
pub enum KeyVaultError {
    /// Every combination of the two vocabularies is active.
    FullCapasity,
    /// A vocabulary came back without a single word.
    EmptyVocabulary,
    /// A join code that is not two words with one space between them.
    MalformedCode,
    /// A key was free, but the clock gave no second to stamp it with.
    ClockUnreadable,
}

impl KeyVaultError {
    /// The message of each failure.
    pub open spec fn message_spec(self) -> Seq<char> {
        match self {
            KeyVaultError::FullCapasity => "No more available words"@,
            KeyVaultError::EmptyVocabulary => "Failed to load words: a word set is empty"@,
            KeyVaultError::MalformedCode => "Key word in invalid format"@,
            KeyVaultError::ClockUnreadable => "Failed to get created at time"@,
        }
    }

    /// The message of this failure, as text.
    pub fn message(&self) -> (text: String)
        ensures
            text@ == self.message_spec(),
    {
        match self {
            KeyVaultError::FullCapasity => String::from_str("No more available words"),
            KeyVaultError::EmptyVocabulary => String::from_str(
                "Failed to load words: a word set is empty",
            ),
            KeyVaultError::MalformedCode => String::from_str("Key word in invalid format"),
            KeyVaultError::ClockUnreadable => String::from_str("Failed to get created at time"),
        }
    }
}

} // verus!
