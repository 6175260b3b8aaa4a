//! The protocol-level guarantees that span several functions, stated over
//! the same spec functions that the handlers' contracts use.

use vstd::prelude::*;
use crate::authorize::spec_authorize_location;
use crate::callback::spec_exchange_body;
use crate::encoding::{spec_encoded_char, spec_form_encoded, spec_utf8_bytes, spec_percent_bytes};
use crate::provider::{spec_authorize_url, spec_redirect_url, Config};

verus! {

/// `p` is a prefix of `s`.
pub open spec fn spec_starts_with(s: Seq<char>, p: Seq<char>) -> bool {
    p.len() <= s.len() && s.subrange(0, p.len() as int) == p
}

/// `sub` occurs in `s`.
pub open spec fn spec_contains(s: Seq<char>, sub: Seq<char>) -> bool {
    exists|i: int|
        0 <= i && i + sub.len() <= s.len() && #[trigger] s.subrange(i, i + sub.len()) == sub
}

proof fn lemma_concat_contains(a: Seq<char>, b: Seq<char>, c: Seq<char>)
    ensures
        spec_contains(a + b + c, b),
{
    let s = a + b + c;
    assert(s.subrange(a.len() as int, a.len() + b.len() as int) =~= b);
}

proof fn lemma_starts_with_concat(a: Seq<char>, rest: Seq<char>)
    ensures
        spec_starts_with(a + rest, a),
{
    assert((a + rest).subrange(0, a.len() as int) =~= a);
}

proof fn lemma_encoded_char_nonempty(c: char)
    ensures
        spec_encoded_char(c).len() > 0,
{
    if !crate::encoding::spec_is_unreserved(c) && c != ' ' {
        let bs = spec_utf8_bytes(c);
        assert(bs.len() > 0);
        assert(spec_percent_bytes(bs).len() >= 3);
    }
}

proof fn lemma_form_encoded_nonempty(s: Seq<char>)
    requires
        s.len() > 0,
    ensures
        spec_form_encoded(s).len() > 0,
{
    lemma_encoded_char_nonempty(s[0]);
}

/// Every authorize location starts with the provider's authorize endpoint
/// and carries the standard grant query: `response_type=code`, the
/// configured client id, the redirect URI derived from the request's host,
/// the resolved scope, and the anti-forgery token, which encodes to
/// something non-empty whenever it is non-empty.
#[verifier::rlimit(80)]
#[verifier::spinoff_prover]
pub proof fn lemma_authorize_location_shape(
    cfg: Config,
    host: Seq<char>,
    scope: Seq<char>,
    state: Seq<char>,
)
    requires
        state.len() > 0,
    ensures
        spec_starts_with(
            spec_authorize_location(cfg, host, scope, state),
            spec_authorize_url(cfg),
        ),
        spec_contains(spec_authorize_location(cfg, host, scope, state), "response_type=code"@),
        spec_contains(
            spec_authorize_location(cfg, host, scope, state),
            "client_id="@ + spec_form_encoded(cfg.client_id@),
        ),
        spec_contains(
            spec_authorize_location(cfg, host, scope, state),
            "redirect_uri="@ + spec_form_encoded(spec_redirect_url(host)),
        ),
        spec_contains(
            spec_authorize_location(cfg, host, scope, state),
            "scope="@ + spec_form_encoded(scope),
        ),
        spec_contains(
            spec_authorize_location(cfg, host, scope, state),
            "state="@ + spec_form_encoded(state),
        ),
        spec_form_encoded(state).len() > 0,
{
    let loc = spec_authorize_location(cfg, host, scope, state);
    let a1 = spec_authorize_url(cfg);
    let enc_cid = spec_form_encoded(cfg.client_id@);
    let enc_state = spec_form_encoded(state);
    let enc_redirect = spec_form_encoded(spec_redirect_url(host));
    let enc_scope = spec_form_encoded(scope);
    lemma_form_encoded_nonempty(state);

    let rest = "?"@ + "response_type=code"@ + "&"@ + "client_id="@ + enc_cid + "&"@ + "state="@
        + enc_state + "&"@ + "redirect_uri="@ + enc_redirect + "&"@ + "scope="@ + enc_scope;
    assert(loc =~= a1 + rest);
    lemma_starts_with_concat(a1, rest);

    let pre1 = a1 + "?"@;
    let suf1 = "&"@ + "client_id="@ + enc_cid + "&"@ + "state="@ + enc_state + "&"@
        + "redirect_uri="@ + enc_redirect + "&"@ + "scope="@ + enc_scope;
    assert(loc =~= pre1 + "response_type=code"@ + suf1);
    lemma_concat_contains(pre1, "response_type=code"@, suf1);

    let pre2 = a1 + "?"@ + "response_type=code"@ + "&"@;
    let mid2 = "client_id="@ + enc_cid;
    let suf2 = "&"@ + "state="@ + enc_state + "&"@ + "redirect_uri="@ + enc_redirect + "&"@
        + "scope="@ + enc_scope;
    assert(loc =~= pre2 + mid2 + suf2);
    lemma_concat_contains(pre2, mid2, suf2);

    let pre3 = pre2 + mid2 + "&"@;
    let mid3 = "state="@ + enc_state;
    let suf3 = "&"@ + "redirect_uri="@ + enc_redirect + "&"@ + "scope="@ + enc_scope;
    assert(loc =~= pre3 + mid3 + suf3);
    lemma_concat_contains(pre3, mid3, suf3);

    let pre4 = pre3 + mid3 + "&"@;
    let mid4 = "redirect_uri="@ + enc_redirect;
    let suf4 = "&"@ + "scope="@ + enc_scope;
    assert(loc =~= pre4 + mid4 + suf4);
    lemma_concat_contains(pre4, mid4, suf4);

    let pre5 = pre4 + mid4 + "&"@;
    let mid5 = "scope="@ + enc_scope;
    let suf5 = Seq::<char>::empty();
    assert(loc =~= pre5 + mid5 + suf5);
    lemma_concat_contains(pre5, mid5, suf5);
}

/// Round trip: for one host, the redirect URI the authorize location
/// embeds and the redirect URI the callback's exchange request carries are
/// the same sequence, `redirect_uri=` followed by the form-urlencoded
/// `https://{host}/callback`.
pub proof fn lemma_redirect_round_trip(
    cfg: Config,
    host: Seq<char>,
    scope: Seq<char>,
    state: Seq<char>,
    code: Seq<char>,
)
    ensures
        spec_contains(
            spec_authorize_location(cfg, host, scope, state),
            "redirect_uri="@ + spec_form_encoded(spec_redirect_url(host)),
        ),
        spec_contains(
            spec_exchange_body(cfg, host, code),
            "redirect_uri="@ + spec_form_encoded(spec_redirect_url(host)),
        ),
{
    let enc_redirect = spec_form_encoded(spec_redirect_url(host));
    let mid = "redirect_uri="@ + enc_redirect;

    let loc = spec_authorize_location(cfg, host, scope, state);
    let pre_a = spec_authorize_url(cfg) + "?"@ + "response_type=code"@ + "&"@ + "client_id="@
        + spec_form_encoded(cfg.client_id@) + "&"@ + "state="@ + spec_form_encoded(state) + "&"@;
    let suf_a = "&"@ + "scope="@ + spec_form_encoded(scope);
    assert(loc =~= pre_a + mid + suf_a);
    lemma_concat_contains(pre_a, mid, suf_a);

    let body = spec_exchange_body(cfg, host, code);
    let pre_b = "grant_type=authorization_code"@ + "&"@ + "code="@ + spec_form_encoded(code)
        + "&"@ + "client_id="@ + spec_form_encoded(cfg.client_id@) + "&"@ + "client_secret="@
        + spec_form_encoded(cfg.client_secret@) + "&"@;
    let suf_b = Seq::<char>::empty();
    assert(body =~= pre_b + mid + suf_b);
    lemma_concat_contains(pre_b, mid, suf_b);
}

} // verus!
