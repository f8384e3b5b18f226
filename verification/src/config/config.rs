//! The settings of the backend and their defaults.

use vstd::prelude::*;
use vstd::string::StringExecFns;

verus! {

/// Every setting of the backend.
#[derive(Debug)]
pub struct AppConfig {
    pub server: ServerConfig,
    pub auth0: Auth0Config,
    pub database_url: String,
}

/// The address the server listens on when none is set.
pub fn default_address() -> (address: String)
    ensures
        address@ == "127.0.0.1"@,
{
    String::from_str("127.0.0.1")
}

/// The port the server listens on when none is set.
pub fn default_port() -> (port: String)
    ensures
        port@ == "3000"@,
{
    String::from_str("3000")
}

/// The number of items on a page when none is set.
pub fn default_page_size() -> (size: u8)
    ensures
        size == 20,
{
    20
}

/// The settings of the server itself.
#[derive(Debug)]
pub struct ServerConfig {
    pub address: String,
    pub port: String,
    pub gs_domain: String,
    pub page_size: u8,
}

/// The settings of the identity provider.
#[derive(Debug)]
pub struct Auth0Config {
    pub domain: String,
    pub audience: String,
    pub webhook_key: String,
}

/// Where the backend runs.
#[derive(Debug, Clone, Copy, PartialEq, Eq, Structural)]
pub enum RunTime {
    Development,
    Production,
}

impl RunTime {
    /// The lower-case name of the runtime, which names its settings file.
    pub open spec fn label_spec(self) -> Seq<char> {
        match self {
            RunTime::Development => "development"@,
            RunTime::Production => "production"@,
        }
    }

    /// The lower-case name of the runtime, as text.
    pub fn label(&self) -> (text: String)
        ensures
            text@ == self.label_spec(),
    {
        match self {
            RunTime::Development => String::from_str("development"),
            RunTime::Production => String::from_str("production"),
        }
    }

    /// The runtime that the environment names: `DEVELOPMENT` or `PRODUCTION`,
    /// and nothing for any other text.
    pub fn from_environment(name: &str) -> (res: Option<RunTime>)
        ensures
            res == if name@ == "DEVELOPMENT"@ {
                Some(RunTime::Development)
            } else if name@ == "PRODUCTION"@ {
                Some(RunTime::Production)
            } else {
                None::<RunTime>
            },
    {
        let name = String::from_str(name);
        if name == String::from_str("DEVELOPMENT") {
            Some(RunTime::Development)
        } else if name == String::from_str("PRODUCTION") {
            Some(RunTime::Production)
        } else {
            None
        }
    }

    /// The path of the settings file of the runtime.
    pub fn settings_file(&self) -> (path: String)
        ensures
            path@ == "src/config/"@ + self.label_spec() + ".toml"@,
    {
        let mut path = String::from_str("src/config/");
        path.append(self.label().as_str());
        path.append(".toml");
        path
    }
}

} // verus!
