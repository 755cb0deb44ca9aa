//! The client's configuration: the server it talks to.

use vstd::prelude::*;

use vstd::string::StringExecFns;

verus! {

/// The persisted configuration.
#[derive(Debug, Clone, PartialEq, Eq)]
pub struct TootConfig {
    /// The server's host name, without a scheme.
    pub server: String,
}

impl Default for TootConfig {
    /// A configuration with no server chosen yet.
    fn default() -> (r: TootConfig)
        ensures
            r.server@ == Seq::<char>::empty(),
    {
        TootConfig { server: String::new() }
    }
}

impl TootConfig {
    /// The configured server's base URL.
    pub fn url(&self) -> (r: String)
        ensures
            r@ == "https://"@ + self.server@,
    {
        String::from_str("https://").concat(self.server.as_str())
    }
}

/// The base URL for a server name: the well-known default server when the
/// name is empty, the name behind the scheme otherwise.
pub fn instance(server: String) -> (r: String)
    ensures
        server@.len() == 0 ==> r@ == "https://"@ + "mastodon.social"@,
        server@.len() > 0 ==> r@ == "https://"@ + server@,
{
    if server.as_str().is_empty() {
        String::from_str("https://").concat("mastodon.social")
    } else {
        String::from_str("https://").concat(server.as_str())
    }
}

} // verus!
