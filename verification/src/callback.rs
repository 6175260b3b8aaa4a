//! The callback leg: validating the provider's callback, framing the
//! token exchange, and turning the exchange's outcome into the reply.
//!
//! The exchange itself is a network round trip that the caller performs:
//! `callback` decides whether one is owed and frames it, `callback_finish`
//! turns what came back into the reply. A rejected request produces no
//! exchange request, so no provider contact can follow it.

use vstd::prelude::*;
use vstd::string::StringExecFns;
use crate::encoding::spec_form_encoded;
use crate::page::{login_response, spec_login_page};
use crate::provider::{
    build,
    redirect_url_for_host,
    spec_provider,
    spec_redirect_url,
    spec_token_url,
    Config,
};
use crate::token::{
    build_token_request,
    exchange,
    spec_exchange_detail,
    spec_token_of_outcome,
    ExchangeResult,
    HttpOutcome,
    TokenRequest,
};

verus! {

/// The `/callback` handler's reply.
pub enum CallbackReply {
    BadRequest { body: String },
    Success { body: String },
    Failure { body: String },
}

impl CallbackReply {
    /// The HTTP status the reply carries.
    pub open spec fn spec_status(self) -> int {
        match self {
            CallbackReply::BadRequest { .. } => 400,
            CallbackReply::Success { .. } => 200,
            CallbackReply::Failure { .. } => 500,
        }
    }

    pub fn status(&self) -> (s: u16)
        ensures
            s as int == self.spec_status(),
    {
        match self {
            CallbackReply::BadRequest { .. } => 400,
            CallbackReply::Success { .. } => 200,
            CallbackReply::Failure { .. } => 500,
        }
    }
}

/// What the callback handler decides: reject the request outright, or
/// perform this one token exchange.
pub enum CallbackStep {
    Reject { reply: CallbackReply },
    Exchange { request: TokenRequest },
}

/// The grant parameters of the exchange a callback for `host` and `code`
/// owes, over the process configuration.
pub open spec fn spec_exchange_body(cfg: Config, host: Seq<char>, code: Seq<char>) -> Seq<char> {
    "grant_type=authorization_code"@ + "&"@ + "code="@ + spec_form_encoded(code) + "&"@
        + "client_id="@ + spec_form_encoded(cfg.client_id@) + "&"@ + "client_secret="@
        + spec_form_encoded(cfg.client_secret@) + "&"@ + "redirect_uri="@ + spec_form_encoded(
        spec_redirect_url(host),
    )
}

/// The callback handler's first half. A missing `code` is a client error
/// before anything else; a missing `Host` header likewise; otherwise the
/// one owed exchange is framed, against the same redirect URL that the
/// authorize leg derives for this host. No provider contact happens here.
pub fn callback(cfg: &Config, code_param: &Option<String>, host: &Option<String>) -> (r:
    CallbackStep)
    ensures
        (*code_param) is None ==> (r matches CallbackStep::Reject { reply } && reply
            matches CallbackReply::BadRequest { body } && body@ == "Code is required"@),
        (*code_param) is Some && (*host) is None ==> (r matches CallbackStep::Reject { reply }
            && reply matches CallbackReply::BadRequest { body } && body@ == "No host header"@),
        (*code_param) matches Some(code) ==> ((*host) matches Some(h) ==> (r
            matches CallbackStep::Exchange { request } && request.url@ == spec_token_url(*cfg)
            && request.body@ == spec_exchange_body(*cfg, h@, code@))),
{
    let code = match code_param {
        Some(c) => c,
        None => {
            return CallbackStep::Reject {
                reply: CallbackReply::BadRequest {
                    body: String::from_str("Code is required"),
                },
            };
        },
    };
    let h = match host {
        Some(h) => h,
        None => {
            return CallbackStep::Reject {
                reply: CallbackReply::BadRequest { body: String::from_str("No host header") },
            };
        },
    };
    let redirect_url = redirect_url_for_host(h.as_str());
    let p = build(cfg, redirect_url);
    let request = build_token_request(&p, code.as_str());
    CallbackStep::Exchange { request }
}

/// The callback handler's second half: the reply for what the exchange's
/// round trip handed back. A yielded token renders the success result
/// page for the configured origins; anything else surfaces the failure
/// detail with a server error status.
pub fn callback_finish(cfg: &Config, outcome: &HttpOutcome) -> (r: CallbackReply)
    ensures
        spec_token_of_outcome(*outcome) matches Some(tok) ==> (r matches CallbackReply::Success {
            body,
        } && body@ == spec_login_page(cfg.origins@, spec_provider(), "success"@, tok)),
        spec_token_of_outcome(*outcome) is None ==> (r matches CallbackReply::Failure { body }
            && body@ == spec_exchange_detail(*outcome)),
{
    match exchange(outcome) {
        ExchangeResult::Token { access_token } => CallbackReply::Success {
            body: login_response(cfg.origins.as_str(), "success", access_token.as_str()),
        },
        ExchangeResult::Error { detail } => CallbackReply::Failure { body: detail },
    }
}

} // verus!
