//! The authorize leg: resolving the requested scope, building the
//! provider-bound authorization URL, and the `/auth` handler's reply.

use vstd::prelude::*;
use vstd::string::StringExecFns;
use crate::encoding::{form_encode, spec_form_encoded};
use crate::provider::{
    build,
    default_scope,
    redirect_url_for_host,
    spec_authorize_url,
    spec_default_scope,
    spec_redirect_url,
    Config,
    ProviderConfig,
};

verus! {

/// The scope a request resolves to: the `scope` query parameter when given,
/// else the provider's default scope.
pub open spec fn spec_resolved_scope(scope_param: Option<String>) -> Seq<char> {
    match scope_param {
        Some(s) => s@,
        None => spec_default_scope(),
    }
}

pub fn resolve_scope(scope_param: &Option<String>) -> (r: String)
    ensures
        r@ == spec_resolved_scope(*scope_param),
{
    match scope_param {
        Some(s) => s.clone(),
        None => String::from_str(default_scope()),
    }
}

/// The full authorize URL: the authorize endpoint followed by the standard
/// authorization-code query, each value form-urlencoded.
pub open spec fn spec_authorize_location(
    cfg: Config,
    host: Seq<char>,
    scope: Seq<char>,
    state: Seq<char>,
) -> Seq<char> {
    spec_authorize_url(cfg) + "?"@ + "response_type=code"@ + "&"@ + "client_id="@
        + spec_form_encoded(cfg.client_id@) + "&"@ + "state="@ + spec_form_encoded(state) + "&"@
        + "redirect_uri="@ + spec_form_encoded(spec_redirect_url(host)) + "&"@ + "scope="@
        + spec_form_encoded(scope)
}

/// Builds the authorize URL from an assembled client configuration, a
/// resolved scope, and a fresh anti-forgery token.
pub fn authorize_location(p: &ProviderConfig, scope: &str, state: &str) -> (r: String)
    ensures
        r@ == p.authorize_url@ + "?"@ + "response_type=code"@ + "&"@ + "client_id="@
            + spec_form_encoded(p.client_id@) + "&"@ + "state="@ + spec_form_encoded(state@) + "&"@
            + "redirect_uri="@ + spec_form_encoded(p.redirect_url@) + "&"@ + "scope="@
            + spec_form_encoded(scope@),
{
    let mut r = p.authorize_url.clone();
    r.append("?");
    r.append("response_type=code");
    r.append("&");
    r.append("client_id=");
    let enc_client_id = form_encode(p.client_id.as_str());
    r.append(enc_client_id.as_str());
    r.append("&");
    r.append("state=");
    let enc_state = form_encode(state);
    r.append(enc_state.as_str());
    r.append("&");
    r.append("redirect_uri=");
    let enc_redirect = form_encode(p.redirect_url.as_str());
    r.append(enc_redirect.as_str());
    r.append("&");
    r.append("scope=");
    let enc_scope = form_encode(scope);
    r.append(enc_scope.as_str());
    r
}

/// The `/auth` handler's reply: a client error or a redirect to the
/// provider.
pub enum AuthReply {
    BadRequest { body: String },
    SeeOther { location: String },
}

impl AuthReply {
    /// The HTTP status the reply carries.
    pub open spec fn spec_status(self) -> int {
        match self {
            AuthReply::BadRequest { .. } => 400,
            AuthReply::SeeOther { .. } => 303,
        }
    }

    pub fn status(&self) -> (s: u16)
        ensures
            s as int == self.spec_status(),
    {
        match self {
            AuthReply::BadRequest { .. } => 400,
            AuthReply::SeeOther { .. } => 303,
        }
    }
}

/// Relies on `oauth2::CsrfToken::new_random`: a fresh anti-forgery token of
/// 16 random bytes, base64-url encoded, hence never empty. Nothing more is
/// assumed of its value.
#[verifier::external_body]
fn fresh_state() -> (r: String)
    ensures
        r@.len() > 0,
{
    oauth2::CsrfToken::new_random().secret().clone()
}

/// The authorize handler. Without a `Host` header the request is rejected
/// before any work; otherwise the reply redirects to the authorize URL
/// built for this host, with a fresh non-empty anti-forgery token. No
/// provider contact happens on either path.
pub fn auth(cfg: &Config, scope_param: &Option<String>, host: &Option<String>) -> (r: AuthReply)
    ensures
        (*host) is None ==> (r matches AuthReply::BadRequest { body } && body@
            == "No host header"@),
        (*host) matches Some(h) ==> (r matches AuthReply::SeeOther { location } && exists|
            st: Seq<char>,
        |
            st.len() > 0 && location@ == #[trigger] spec_authorize_location(
                *cfg,
                h@,
                spec_resolved_scope(*scope_param),
                st,
            )),
{
    let scope = resolve_scope(scope_param);
    match host {
        None => AuthReply::BadRequest { body: String::from_str("No host header") },
        Some(h) => {
            let redirect_url = redirect_url_for_host(h.as_str());
            let p = build(cfg, redirect_url);
            let state = fresh_state();
            let location = authorize_location(&p, scope.as_str(), state.as_str());
            proof {
                assert(location@ == spec_authorize_location(
                    *cfg,
                    h@,
                    spec_resolved_scope(*scope_param),
                    state@,
                ));
            }
            AuthReply::SeeOther { location }
        },
    }
}

} // verus!
