//! Severity, action and subject of an audit-log entry.

use vstd::prelude::*;
use vstd::string::StringExecFns;

verus! {

/// How grave an entry is.
#[derive(Debug, Clone, Copy, PartialEq, Eq, Structural, Hash)]
pub enum LogCeverity {
    Critical,
    Warning,
    Info,
}

impl LogCeverity {
    /// The lower-case name of the severity.
    pub open spec fn label_spec(self) -> Seq<char> {
        match self {
            LogCeverity::Critical => "critical"@,
            LogCeverity::Warning => "warning"@,
            LogCeverity::Info => "info"@,
        }
    }

    /// The lower-case name of the severity, as text.
    pub fn label(&self) -> (text: String)
        ensures
            text@ == self.label_spec(),
    {
        match self {
            LogCeverity::Critical => String::from_str("critical"),
            LogCeverity::Warning => String::from_str("warning"),
            LogCeverity::Info => String::from_str("info"),
        }
    }
}

/// What was done.
#[derive(Debug, Clone, Copy, PartialEq, Eq, Structural, Hash)]
pub enum Action {
    Create,
    Read,
    Update,
    Delete,
    Sync,
    Other,
}

impl Action {
    /// The lower-case name of the action; a creation is logged as a write.
    pub open spec fn label_spec(self) -> Seq<char> {
        match self {
            Action::Create => "write"@,
            Action::Read => "read"@,
            Action::Update => "update"@,
            Action::Delete => "delete"@,
            Action::Sync => "sync"@,
            Action::Other => "other"@,
        }
    }

    /// The lower-case name of the action, as text.
    pub fn label(&self) -> (text: String)
        ensures
            text@ == self.label_spec(),
    {
        match self {
            Action::Create => String::from_str("write"),
            Action::Read => String::from_str("read"),
            Action::Update => String::from_str("update"),
            Action::Delete => String::from_str("delete"),
            Action::Sync => String::from_str("sync"),
            Action::Other => String::from_str("other"),
        }
    }
}

/// Who acted.
#[derive(Debug, Clone, Copy, PartialEq, Eq, Structural, Hash)]
pub enum SubjectType {
    RegisteredUser,
    GuestUser,
    Integration,
    System,
}

impl SubjectType {
    /// The lower-case name of the kind of subject.
    pub open spec fn label_spec(self) -> Seq<char> {
        match self {
            SubjectType::RegisteredUser => "registered"@,
            SubjectType::GuestUser => "guest"@,
            SubjectType::Integration => "integration"@,
            SubjectType::System => "system"@,
        }
    }

    /// The lower-case name of the kind of subject, as text.
    pub fn label(&self) -> (text: String)
        ensures
            text@ == self.label_spec(),
    {
        match self {
            SubjectType::RegisteredUser => String::from_str("registered"),
            SubjectType::GuestUser => String::from_str("guest"),
            SubjectType::Integration => String::from_str("integration"),
            SubjectType::System => String::from_str("system"),
        }
    }
}

/// A request for one page of the audit log, with optional filters.
#[derive(Debug)]
pub struct SyslogPageQuery {
    pub page_num: u16,
    pub subject_type: Option<SubjectType>,
    pub action: Option<Action>,
    pub ceverity: Option<LogCeverity>,
}

} // verus!
