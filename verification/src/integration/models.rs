//! The names of the known integrations.

use vstd::prelude::*;
use vstd::string::StringExecFns;

verus! {

/// A service that calls the backend machine to machine.
#[derive(Debug, Clone, Copy, PartialEq, Eq, Structural, Hash)]
pub enum IntegrationName {
    Auth0,
    Session,
}

impl IntegrationName {
    /// The lower-case name of the integration.
    pub open spec fn label_spec(self) -> Seq<char> {
        match self {
            IntegrationName::Auth0 => "auth0"@,
            IntegrationName::Session => "session"@,
        }
    }

    /// The lower-case name of the integration, as text.
    pub fn label(&self) -> (text: String)
        ensures
            text@ == self.label_spec(),
    {
        match self {
            IntegrationName::Auth0 => String::from_str("auth0"),
            IntegrationName::Session => String::from_str("session"),
        }
    }
}

} // verus!
