//! Provider client configuration: process-wide settings plus the
//! per-request redirect URL, assembled into the endpoints of one
//! authorization-code exchange.

use vstd::prelude::*;
use vstd::string::StringExecFns;

verus! {

/// Process-wide configuration, read once at startup and immutable after.
pub struct Config {
    /// The OAuth application's client id.
    pub client_id: String,
    /// The OAuth application's client secret; it never leaves the server.
    pub client_secret: String,
    /// Comma-separated origin patterns that the result page may relay to.
    pub origins: String,
    /// Optional provider hostname override, for self-hosted providers.
    pub hostname: Option<String>,
}

/// The client configuration of one request: endpoints and credentials,
/// with the redirect URL bound in verbatim.
pub struct ProviderConfig {
    pub client_id: String,
    pub client_secret: String,
    pub authorize_url: String,
    pub token_url: String,
    pub redirect_url: String,
}

/// The provider identity embedded in the relay messages.
pub open spec fn spec_provider() -> Seq<char> {
    "github"@
}

/// The scope used when the request names none.
pub open spec fn spec_default_scope() -> Seq<char> {
    "repo"@
}

/// The provider hostname: the configured override, or the canonical one.
pub open spec fn spec_provider_hostname(cfg: Config) -> Seq<char> {
    match cfg.hostname {
        Some(h) => h@,
        None => "https://github.com"@,
    }
}

/// The provider's authorize endpoint under the resolved hostname.
pub open spec fn spec_authorize_url(cfg: Config) -> Seq<char> {
    spec_provider_hostname(cfg) + "/login/oauth/authorize"@
}

/// The provider's token endpoint under the resolved hostname.
pub open spec fn spec_token_url(cfg: Config) -> Seq<char> {
    spec_provider_hostname(cfg) + "/login/oauth/access_token"@
}

/// The redirect URL derived from the request's `Host` header.
pub open spec fn spec_redirect_url(host: Seq<char>) -> Seq<char> {
    "https://"@ + host + "/callback"@
}

pub fn provider_name() -> (r: &'static str)
    ensures
        r@ == spec_provider(),
{
    "github"
}

pub fn default_scope() -> (r: &'static str)
    ensures
        r@ == spec_default_scope(),
{
    "repo"
}

/// `https://{host}/callback`: the same derivation serves the authorize leg
/// and the callback leg, so the provider sees one redirect URL per host.
pub fn redirect_url_for_host(host: &str) -> (r: String)
    ensures
        r@ == spec_redirect_url(host@),
{
    let mut r = String::from_str("https://");
    r.append(host);
    r.append("/callback");
    proof {
        assert(r@ =~= spec_redirect_url(host@));
    }
    r
}

/// Assembles the client configuration of one request: fixed provider paths
/// under the resolved hostname, the configured credentials, and the given
/// redirect URL bound in verbatim.
pub fn build(cfg: &Config, redirect_url: String) -> (p: ProviderConfig)
    ensures
        p.client_id@ == cfg.client_id@,
        p.client_secret@ == cfg.client_secret@,
        p.authorize_url@ == spec_authorize_url(*cfg),
        p.token_url@ == spec_token_url(*cfg),
        p.redirect_url@ == redirect_url@,
{
    let hostname: String = match &cfg.hostname {
        Some(h) => h.clone(),
        None => String::from_str("https://github.com"),
    };
    let mut authorize_url = hostname.clone();
    authorize_url.append("/login/oauth/authorize");
    let mut token_url = hostname.clone();
    token_url.append("/login/oauth/access_token");
    ProviderConfig {
        client_id: cfg.client_id.clone(),
        client_secret: cfg.client_secret.clone(),
        authorize_url,
        token_url,
        redirect_url,
    }
}

} // verus!
