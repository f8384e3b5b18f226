//! The game-session service as the game handlers address it.

use vstd::prelude::*;
use vstd::string::StringExecFns;

verus! {

/// What a client needs to join an interactive game.
#[derive(Debug)]
pub struct InteractiveGameResponse {
    pub key_word: String,
    pub hub_address: String,
}

/// The game-session service, known by its domain. The domain is expected to
/// end in a slash.
#[derive(Debug, Clone)]
pub struct GSClient {
    domain: String,
}

impl GSClient {
    /// The domain under which the service is reached.
    pub closed spec fn domain_spec(&self) -> Seq<char> {
        self.domain@
    }

    /// A client for the service at the given domain.
    pub fn new(domain: &str) -> (client: Self)
        ensures
            client.domain_spec() == domain@,
    {
        GSClient { domain: String::from_str(domain) }
    }

    /// The domain under which the service is reached.
    pub fn domain(&self) -> (text: &str)
        ensures
            text@ == self.domain_spec(),
    {
        self.domain.as_str()
    }

    /// Where the service answers a health check.
    pub fn health_url(&self) -> (url: String)
        ensures
            url@ == self.domain_spec() + "health"@,
    {
        let mut url = self.domain.clone();
        url.append("health");
        url
    }

    /// The path under which an interactive game is created.
    pub fn create_uri(&self) -> (uri: String)
        ensures
            uri@ == self.domain_spec() + "session/create"@,
    {
        let mut uri = self.domain.clone();
        uri.append("session/create");
        uri
    }

    /// The path under which a game session is initiated.
    pub fn initiate_uri(&self) -> (uri: String)
        ensures
            uri@ == "/games/initiate"@,
    {
        String::from_str("/games/initiate")
    }

    /// The address to which a request for the given path is sent: the domain,
    /// a slash and the path.
    pub fn request_url(&self, uri: &str) -> (url: String)
        ensures
            url@ == self.domain_spec() + "/"@ + uri@,
    {
        let mut url = self.domain.clone();
        url.append("/");
        url.append(uri);
        url
    }
}

} // verus!
