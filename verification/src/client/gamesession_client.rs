//! The game-session service as the application state addresses it.

use vstd::prelude::*;
use vstd::string::StringExecFns;

verus! {

/// What a client needs to join an interactive game.
#[derive(Debug)]
pub struct InteractiveGameResponse {
    pub join_word: String,
    pub hub_address: String,
}

/// The game-session service, known by its domain. The domain is expected to
/// come without a closing slash.
#[derive(Debug, Clone)]
pub struct GameSessionClient {
    domain: String,
}

impl GameSessionClient {
    /// The domain under which the service is reached.
    pub closed spec fn domain_spec(&self) -> Seq<char> {
        self.domain@
    }

    /// A client for the service at the given domain.
    pub fn new(domain: &str) -> (client: Self)
        ensures
            client.domain_spec() == domain@,
    {
        GameSessionClient { domain: String::from_str(domain) }
    }

    /// The domain under which the service is reached.
    pub fn domain(&self) -> (text: &str)
        ensures
            text@ == self.domain_spec(),
    {
        self.domain.as_str()
    }

    /// Where the service answers a health check.
    pub fn health_url(&self) -> (url: String)
        ensures
            url@ == self.domain_spec() + "/health"@,
    {
        let mut url = self.domain.clone();
        url.append("/health");
        url
    }

    /// The address to which a request for the given path is sent: the domain,
    /// a slash and the path.
    pub fn request_url(&self, uri: &str) -> (url: String)
        ensures
            url@ == self.domain_spec() + "/"@ + uri@,
    {
        let mut url = self.domain.clone();
        url.append("/");
        url.append(uri);
        url
    }
}

} // verus!
