//! The token exchange: framing the authorization-code grant request and
//! reading the provider's answer.
//!
//! The provider answers a well-formed exchange with a flat JSON object
//! whose members are string keys bound to string or bare scalar values
//! (numbers, booleans, null). The scanner below walks that shape one
//! character at a time; an escape sequence, a nested value, or any other
//! departure from the shape makes the response malformed, which the
//! exchange reports as an error rather than a token.

use vstd::prelude::*;
use vstd::string::StringExecFns;
use crate::encoding::{form_encode, spec_form_encoded};
use crate::provider::ProviderConfig;
use crate::strutil::push_char;

verus! {

/// A token-exchange request, ready for the outbound transport: the token
/// endpoint and the form-urlencoded grant parameters.
pub struct TokenRequest {
    pub url: String,
    pub body: String,
}

/// Frames the authorization-code grant request: the token endpoint of the
/// assembled configuration, and the standard grant parameters with each
/// value form-urlencoded.
pub fn build_token_request(p: &ProviderConfig, code: &str) -> (r: TokenRequest)
    ensures
        r.url@ == p.token_url@,
        r.body@ == "grant_type=authorization_code"@ + "&"@ + "code="@ + spec_form_encoded(code@)
            + "&"@ + "client_id="@ + spec_form_encoded(p.client_id@) + "&"@ + "client_secret="@
            + spec_form_encoded(p.client_secret@) + "&"@ + "redirect_uri="@ + spec_form_encoded(
            p.redirect_url@,
        ),
{
    let mut body = String::from_str("grant_type=authorization_code");
    body.append("&");
    body.append("code=");
    let enc_code = form_encode(code);
    body.append(enc_code.as_str());
    body.append("&");
    body.append("client_id=");
    let enc_client_id = form_encode(p.client_id.as_str());
    body.append(enc_client_id.as_str());
    body.append("&");
    body.append("client_secret=");
    let enc_secret = form_encode(p.client_secret.as_str());
    body.append(enc_secret.as_str());
    body.append("&");
    body.append("redirect_uri=");
    let enc_redirect = form_encode(p.redirect_url.as_str());
    body.append(enc_redirect.as_str());
    TokenRequest { url: p.token_url.clone(), body }
}

/// Where the scanner stands in the token-response object.
#[derive(Clone, Copy)]
pub enum ScanMode {
    /// Before the opening brace.
    Start,
    /// After the opening brace: a first key or the closing brace may come.
    BeforeFirstKey,
    /// After a comma: a key must come.
    BeforeKey,
    /// Inside a key.
    InKey,
    /// After a key's closing quote, before the colon.
    AfterKey,
    /// After the colon, before the value.
    BeforeValue,
    /// Inside a string value.
    InStr,
    /// Inside a bare scalar value.
    InBare,
    /// After a member's value.
    AfterValue,
    /// After the closing brace.
    Done,
    /// The input left the shape; absorbing.
    Fail,
}

/// The scanner's whole state: the mode, the member being read, and what
/// the walked prefix has established.
#[verifier::ext_equal]
pub ghost struct ScanState {
    pub mode: ScanMode,
    pub key: Seq<char>,
    pub val: Seq<char>,
    pub token: Option<Seq<char>>,
    pub has_type: bool,
}

pub open spec fn spec_is_ws(c: char) -> bool {
    c == ' ' || c == '\t' || c == '\n' || c == '\r'
}

/// Characters a bare scalar value may consist of.
pub open spec fn spec_is_bareword(c: char) -> bool {
    ('a' <= c && c <= 'z') || ('A' <= c && c <= 'Z') || ('0' <= c && c <= '9') || c == '.' || c
        == '+' || c == '-'
}

/// Closes the member being read: an `access_token` member with a string
/// value yields the token, and a `token_type` member of any value marks
/// the token type as present.
pub open spec fn spec_record(st: ScanState, string_val: bool) -> ScanState {
    ScanState {
        token: if st.key == "access_token"@ && string_val {
            Some(st.val)
        } else {
            st.token
        },
        has_type: st.has_type || st.key == "token_type"@,
        ..st
    }
}

/// One character of the walk.
pub open spec fn spec_step(st: ScanState, c: char) -> ScanState {
    match st.mode {
        ScanMode::Start => if spec_is_ws(c) {
            st
        } else if c == '{' {
            ScanState { mode: ScanMode::BeforeFirstKey, ..st }
        } else {
            ScanState { mode: ScanMode::Fail, ..st }
        },
        ScanMode::BeforeFirstKey => if spec_is_ws(c) {
            st
        } else if c == '"' {
            ScanState { mode: ScanMode::InKey, key: Seq::<char>::empty(), ..st }
        } else if c == '}' {
            ScanState { mode: ScanMode::Done, ..st }
        } else {
            ScanState { mode: ScanMode::Fail, ..st }
        },
        ScanMode::BeforeKey => if spec_is_ws(c) {
            st
        } else if c == '"' {
            ScanState { mode: ScanMode::InKey, key: Seq::<char>::empty(), ..st }
        } else {
            ScanState { mode: ScanMode::Fail, ..st }
        },
        ScanMode::InKey => if c == '"' {
            ScanState { mode: ScanMode::AfterKey, ..st }
        } else if c == '\\' {
            ScanState { mode: ScanMode::Fail, ..st }
        } else {
            ScanState { key: st.key.push(c), ..st }
        },
        ScanMode::AfterKey => if spec_is_ws(c) {
            st
        } else if c == ':' {
            ScanState { mode: ScanMode::BeforeValue, ..st }
        } else {
            ScanState { mode: ScanMode::Fail, ..st }
        },
        ScanMode::BeforeValue => if spec_is_ws(c) {
            st
        } else if c == '"' {
            ScanState { mode: ScanMode::InStr, val: Seq::<char>::empty(), ..st }
        } else if spec_is_bareword(c) {
            ScanState { mode: ScanMode::InBare, ..st }
        } else {
            ScanState { mode: ScanMode::Fail, ..st }
        },
        ScanMode::InStr => if c == '"' {
            ScanState { mode: ScanMode::AfterValue, ..spec_record(st, true) }
        } else if c == '\\' {
            ScanState { mode: ScanMode::Fail, ..st }
        } else {
            ScanState { val: st.val.push(c), ..st }
        },
        ScanMode::InBare => if spec_is_bareword(c) {
            st
        } else if spec_is_ws(c) {
            ScanState { mode: ScanMode::AfterValue, ..spec_record(st, false) }
        } else if c == ',' {
            ScanState { mode: ScanMode::BeforeKey, ..spec_record(st, false) }
        } else if c == '}' {
            ScanState { mode: ScanMode::Done, ..spec_record(st, false) }
        } else {
            ScanState { mode: ScanMode::Fail, ..st }
        },
        ScanMode::AfterValue => if spec_is_ws(c) {
            st
        } else if c == ',' {
            ScanState { mode: ScanMode::BeforeKey, ..st }
        } else if c == '}' {
            ScanState { mode: ScanMode::Done, ..st }
        } else {
            ScanState { mode: ScanMode::Fail, ..st }
        },
        ScanMode::Done => if spec_is_ws(c) {
            st
        } else {
            ScanState { mode: ScanMode::Fail, ..st }
        },
        ScanMode::Fail => st,
    }
}

/// The walk over a whole character sequence.
pub open spec fn spec_scan(st: ScanState, s: Seq<char>) -> ScanState
    decreases s.len(),
{
    if s.len() == 0 {
        st
    } else {
        spec_scan(spec_step(st, s[0]), s.drop_first())
    }
}

pub open spec fn spec_scan_init() -> ScanState {
    ScanState {
        mode: ScanMode::Start,
        key: Seq::<char>::empty(),
        val: Seq::<char>::empty(),
        token: None,
        has_type: false,
    }
}

/// The access token the response carries: present exactly when the whole
/// input is an object of the expected shape holding an `access_token`
/// member with a string value and a `token_type` member.
pub open spec fn spec_parse_token(s: Seq<char>) -> Option<Seq<char>> {
    let fin = spec_scan(spec_scan_init(), s);
    if fin.mode is Done && fin.has_type && fin.token is Some {
        fin.token
    } else {
        None
    }
}

pub proof fn lemma_scan_push(st: ScanState, s: Seq<char>, c: char)
    ensures
        spec_scan(st, s.push(c)) == spec_step(spec_scan(st, s), c),
    decreases s.len(),
{
    if s.len() == 0 {
        assert(s.push(c).drop_first() =~= Seq::<char>::empty());
        assert(spec_scan(spec_step(st, c), Seq::<char>::empty()) == spec_step(st, c));
        assert(s.push(c)[0] == c);
    } else {
        lemma_scan_push(spec_step(st, s[0]), s.drop_first(), c);
        assert(s.push(c).drop_first() =~= s.drop_first().push(c));
        assert(s.push(c)[0] == s[0]);
    }
}

/// The scanner as executable state, mirroring `ScanState`.
pub struct Scanner {
    pub mode: ScanMode,
    pub key: String,
    pub val: String,
    pub token: Option<String>,
    pub has_type: bool,
}

impl View for Scanner {
    type V = ScanState;

    open spec fn view(&self) -> ScanState {
        ScanState {
            mode: self.mode,
            key: self.key@,
            val: self.val@,
            token: match self.token {
                Some(t) => Some(t@),
                None => None,
            },
            has_type: self.has_type,
        }
    }
}

fn is_ws(c: char) -> (r: bool)
    ensures
        r == spec_is_ws(c),
{
    c == ' ' || c == '\t' || c == '\n' || c == '\r'
}

fn is_bareword(c: char) -> (r: bool)
    ensures
        r == spec_is_bareword(c),
{
    ('a' <= c && c <= 'z') || ('A' <= c && c <= 'Z') || ('0' <= c && c <= '9') || c == '.' || c
        == '+' || c == '-'
}

fn record_member(sc: &mut Scanner, string_val: bool)
    ensures
        final(sc)@ == spec_record(old(sc)@, string_val),
{
    let access_key = String::from_str("access_token");
    let type_key = String::from_str("token_type");
    if sc.key == access_key && string_val {
        sc.token = Some(sc.val.clone());
    }
    if sc.key == type_key {
        sc.has_type = true;
    }
    proof {
        assert(sc@ =~= spec_record(old(sc)@, string_val));
    }
}

fn scan_step(sc: &mut Scanner, c: char)
    ensures
        final(sc)@ == spec_step(old(sc)@, c),
{
    match sc.mode {
        ScanMode::Start => {
            if is_ws(c) {
            } else if c == '{' {
                sc.mode = ScanMode::BeforeFirstKey;
            } else {
                sc.mode = ScanMode::Fail;
            }
        },
        ScanMode::BeforeFirstKey => {
            if is_ws(c) {
            } else if c == '"' {
                sc.mode = ScanMode::InKey;
                sc.key = String::new();
            } else if c == '}' {
                sc.mode = ScanMode::Done;
            } else {
                sc.mode = ScanMode::Fail;
            }
        },
        ScanMode::BeforeKey => {
            if is_ws(c) {
            } else if c == '"' {
                sc.mode = ScanMode::InKey;
                sc.key = String::new();
            } else {
                sc.mode = ScanMode::Fail;
            }
        },
        ScanMode::InKey => {
            if c == '"' {
                sc.mode = ScanMode::AfterKey;
            } else if c == '\\' {
                sc.mode = ScanMode::Fail;
            } else {
                push_char(&mut sc.key, c);
            }
        },
        ScanMode::AfterKey => {
            if is_ws(c) {
            } else if c == ':' {
                sc.mode = ScanMode::BeforeValue;
            } else {
                sc.mode = ScanMode::Fail;
            }
        },
        ScanMode::BeforeValue => {
            if is_ws(c) {
            } else if c == '"' {
                sc.mode = ScanMode::InStr;
                sc.val = String::new();
            } else if is_bareword(c) {
                sc.mode = ScanMode::InBare;
            } else {
                sc.mode = ScanMode::Fail;
            }
        },
        ScanMode::InStr => {
            if c == '"' {
                record_member(sc, true);
                sc.mode = ScanMode::AfterValue;
            } else if c == '\\' {
                sc.mode = ScanMode::Fail;
            } else {
                push_char(&mut sc.val, c);
            }
        },
        ScanMode::InBare => {
            if is_bareword(c) {
            } else if is_ws(c) {
                record_member(sc, false);
                sc.mode = ScanMode::AfterValue;
            } else if c == ',' {
                record_member(sc, false);
                sc.mode = ScanMode::BeforeKey;
            } else if c == '}' {
                record_member(sc, false);
                sc.mode = ScanMode::Done;
            } else {
                sc.mode = ScanMode::Fail;
            }
        },
        ScanMode::AfterValue => {
            if is_ws(c) {
            } else if c == ',' {
                sc.mode = ScanMode::BeforeKey;
            } else if c == '}' {
                sc.mode = ScanMode::Done;
            } else {
                sc.mode = ScanMode::Fail;
            }
        },
        ScanMode::Done => {
            if is_ws(c) {
            } else {
                sc.mode = ScanMode::Fail;
            }
        },
        ScanMode::Fail => {},
    }
    proof {
        assert(sc@ =~= spec_step(old(sc)@, c));
    }
}

/// Reads the access token out of a token-response body, exactly when
/// `spec_parse_token` finds one.
pub fn parse_token(s: &str) -> (r: Option<String>)
    ensures
        r matches Some(t) ==> spec_parse_token(s@) == Some(t@),
        r is None ==> spec_parse_token(s@) is None,
{
    let n = s.unicode_len();
    let mut sc = Scanner {
        mode: ScanMode::Start,
        key: String::new(),
        val: String::new(),
        token: None,
        has_type: false,
    };
    proof {
        assert(sc@ =~= spec_scan_init());
        assert(s@.take(0) =~= Seq::<char>::empty());
    }
    let mut i: usize = 0;
    while i < n
        invariant
            i <= n,
            n == s@.len(),
            sc@ == spec_scan(spec_scan_init(), s@.take(i as int)),
        decreases n - i,
    {
        let c = s.get_char(i);
        proof {
            assert(s@.take(i + 1) =~= s@.take(i as int).push(s@[i as int]));
            lemma_scan_push(spec_scan_init(), s@.take(i as int), s@[i as int]);
        }
        scan_step(&mut sc, c);
        i += 1;
    }
    proof {
        assert(s@.take(n as int) =~= s@);
    }
    let done = match sc.mode {
        ScanMode::Done => true,
        _ => false,
    };
    if done && sc.has_type {
        sc.token
    } else {
        None
    }
}

/// What the outbound transport handed back: the provider's HTTP answer,
/// or a transport failure with its description.
pub enum HttpOutcome {
    Response { status: u16, body: String },
    Transport { detail: String },
}

/// The token an outcome yields: present exactly when the provider
/// answered with a success status and a well-formed token response.
pub open spec fn spec_token_of_outcome(o: HttpOutcome) -> Option<Seq<char>> {
    match o {
        HttpOutcome::Response { status, body } => if 200 <= status && status < 300 {
            spec_parse_token(body@)
        } else {
            None
        },
        HttpOutcome::Transport { .. } => None,
    }
}

/// The failure detail surfaced when an outcome yields no token.
pub open spec fn spec_exchange_detail(o: HttpOutcome) -> Seq<char> {
    match o {
        HttpOutcome::Response { status, body } => if 200 <= status && status < 300 {
            "provider response is not a valid token response"@
        } else {
            "provider returned an error response: "@ + body@
        },
        HttpOutcome::Transport { detail } => detail@,
    }
}

/// The exchange's result: a sum of the parsed access token and the
/// failure detail.
pub enum ExchangeResult {
    Token { access_token: String },
    Error { detail: String },
}

/// Reads the exchange's result out of the transport's outcome: the access
/// token exactly when the outcome yields one, else the failure detail.
pub fn exchange(o: &HttpOutcome) -> (r: ExchangeResult)
    ensures
        spec_token_of_outcome(*o) matches Some(tok) ==> (r matches ExchangeResult::Token {
            access_token,
        } && access_token@ == tok),
        spec_token_of_outcome(*o) is None ==> (r matches ExchangeResult::Error { detail }
            && detail@ == spec_exchange_detail(*o)),
{
    match o {
        HttpOutcome::Transport { detail } => ExchangeResult::Error { detail: detail.clone() },
        HttpOutcome::Response { status, body } => {
            if 200 <= *status && *status < 300 {
                match parse_token(body.as_str()) {
                    Some(t) => ExchangeResult::Token { access_token: t },
                    None => ExchangeResult::Error {
                        detail: String::from_str(
                            "provider response is not a valid token response",
                        ),
                    },
                }
            } else {
                let mut detail = String::from_str("provider returned an error response: ");
                detail.append(body.as_str());
                ExchangeResult::Error { detail }
            }
        },
    }
}

} // verus!
