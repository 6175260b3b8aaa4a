use decap_cms_oauth::authorize::{auth, resolve_scope, AuthReply};
use decap_cms_oauth::callback::{callback, callback_finish, CallbackReply, CallbackStep};
use decap_cms_oauth::encoding::form_encode;
use decap_cms_oauth::page::login_response;
use decap_cms_oauth::provider::{build, redirect_url_for_host, Config};
use decap_cms_oauth::token::{build_token_request, exchange, parse_token, ExchangeResult, HttpOutcome};

fn test_config() -> Config {
    Config {
        client_id: String::from("1234"),
        client_secret: String::from("5678"),
        origins: String::from("test.com"),
        hostname: None,
    }
}

fn auth_location(reply: AuthReply) -> String {
    match reply {
        AuthReply::SeeOther { location } => location,
        AuthReply::BadRequest { .. } => panic!("expected a redirect"),
    }
}

#[test]
fn test_auth() {
    let cfg = test_config();
    let reply = auth(&cfg, &None, &Some(String::from("test.com")));
    assert_eq!(reply.status(), 303);
    let location = auth_location(reply);
    assert!(location.starts_with("https://github.com/login/oauth/authorize?"));
    assert!(location.contains("response_type=code"));
    assert!(location.contains("client_id=1234"));
    assert!(location.contains("redirect_uri=https%3A%2F%2Ftest.com%2Fcallback"));
    assert!(location.contains("scope=repo"));
    assert!(location.contains("state="));
}

#[test]
fn test_auth_with_scope() {
    let cfg = test_config();
    let reply = auth(
        &cfg,
        &Some(String::from("custom_scope")),
        &Some(String::from("test.com")),
    );
    assert_eq!(reply.status(), 303);
    let location = auth_location(reply);
    assert!(location.starts_with("https://github.com/login/oauth/authorize?"));
    assert!(location.contains("response_type=code"));
    assert!(location.contains("client_id=1234"));
    assert!(location.contains("redirect_uri=https%3A%2F%2Ftest.com%2Fcallback"));
    assert!(location.contains("scope=custom_scope"));
    assert!(location.contains("state="));
}

#[test]
fn test_callback_no_code() {
    let cfg = test_config();
    let step = callback(&cfg, &None, &Some(String::from("test.com")));
    match step {
        CallbackStep::Reject { reply } => {
            assert_eq!(reply.status(), 400);
            match reply {
                CallbackReply::BadRequest { body } => assert_eq!(body, "Code is required"),
                _ => panic!("expected a client error"),
            }
        }
        CallbackStep::Exchange { .. } => panic!("no exchange may be framed without a code"),
    }
}

#[test]
fn test_callback_with_code() {
    let cfg = test_config();
    let step = callback(
        &cfg,
        &Some(String::from("test_code")),
        &Some(String::from("test.com")),
    );
    let request = match step {
        CallbackStep::Exchange { request } => request,
        CallbackStep::Reject { .. } => panic!("expected an exchange"),
    };
    assert_eq!(request.url, "https://github.com/login/oauth/access_token");
    assert!(request.body.contains("grant_type=authorization_code"));
    assert!(request.body.contains("code=test_code"));

    let outcome = HttpOutcome::Response {
        status: 200,
        body: String::from("{\"access_token\":\"test_token\",\"token_type\":\"bearer\"}"),
    };
    let reply = callback_finish(&cfg, &outcome);
    assert_eq!(reply.status(), 200);
    match reply {
        CallbackReply::Success { body } => {
            assert!(body.contains(
                "authorization:github:success:{\"token\":\"test_token\",\"provider\":\"github\"}"
            ));
        }
        _ => panic!("expected the success page"),
    }
}

#[test]
fn test_callback_with_error() {
    let cfg = test_config();
    let outcome = HttpOutcome::Transport {
        detail: String::from("connection refused"),
    };
    let reply = callback_finish(&cfg, &outcome);
    assert_eq!(reply.status(), 500);
    match reply {
        CallbackReply::Failure { body } => assert_eq!(body, "connection refused"),
        _ => panic!("expected a server error"),
    }
}

#[test]
fn auth_without_host_is_rejected() {
    let cfg = test_config();
    let reply = auth(&cfg, &None, &None);
    assert_eq!(reply.status(), 400);
    match reply {
        AuthReply::BadRequest { body } => assert_eq!(body, "No host header"),
        _ => panic!("expected a client error"),
    }
}

#[test]
fn callback_without_host_is_rejected() {
    let cfg = test_config();
    let step = callback(&cfg, &Some(String::from("test_code")), &None);
    match step {
        CallbackStep::Reject { reply } => {
            assert_eq!(reply.status(), 400);
            match reply {
                CallbackReply::BadRequest { body } => assert_eq!(body, "No host header"),
                _ => panic!("expected a client error"),
            }
        }
        CallbackStep::Exchange { .. } => panic!("no exchange may be framed without a host"),
    }
}

#[test]
fn resolved_scope_defaults_to_repo() {
    assert_eq!(resolve_scope(&None), "repo");
    assert_eq!(resolve_scope(&Some(String::from("user:email"))), "user:email");
}

#[test]
fn auth_state_is_nonempty() {
    let cfg = test_config();
    let location = auth_location(auth(&cfg, &None, &Some(String::from("test.com"))));
    let state = location
        .split("state=")
        .nth(1)
        .expect("the location carries a state parameter")
        .split('&')
        .next()
        .unwrap();
    assert!(!state.is_empty());
}

#[test]
fn redirect_uri_round_trips_between_legs() {
    let cfg = test_config();
    let location = auth_location(auth(&cfg, &None, &Some(String::from("test.com"))));
    let step = callback(
        &cfg,
        &Some(String::from("test_code")),
        &Some(String::from("test.com")),
    );
    let request = match step {
        CallbackStep::Exchange { request } => request,
        CallbackStep::Reject { .. } => panic!("expected an exchange"),
    };
    let embedded = "redirect_uri=https%3A%2F%2Ftest.com%2Fcallback";
    assert!(location.contains(embedded));
    assert!(request.body.contains(embedded));
}

#[test]
fn form_encoding_exact_values() {
    assert_eq!(form_encode("https://test.com/callback"), "https%3A%2F%2Ftest.com%2Fcallback");
    assert_eq!(form_encode("a b*c-d._"), "a+b*c-d._");
    assert_eq!(form_encode("A9z"), "A9z");
    assert_eq!(form_encode("é"), "%C3%A9");
    assert_eq!(form_encode("€"), "%E2%82%AC");
    assert_eq!(form_encode("🦀"), "%F0%9F%A6%80");
    assert_eq!(form_encode(""), "");
}

#[test]
fn redirect_url_derivation() {
    assert_eq!(redirect_url_for_host("test.com"), "https://test.com/callback");
    assert_eq!(redirect_url_for_host("oauth.mysite.com"), "https://oauth.mysite.com/callback");
}

#[test]
fn provider_config_uses_hostname_override() {
    let mut cfg = test_config();
    cfg.hostname = Some(String::from("https://ghe.example.com"));
    let p = build(&cfg, redirect_url_for_host("test.com"));
    assert_eq!(p.authorize_url, "https://ghe.example.com/login/oauth/authorize");
    assert_eq!(p.token_url, "https://ghe.example.com/login/oauth/access_token");
    assert_eq!(p.redirect_url, "https://test.com/callback");
    assert_eq!(p.client_id, "1234");
    assert_eq!(p.client_secret, "5678");
}

#[test]
fn token_request_carries_grant_parameters() {
    let cfg = test_config();
    let p = build(&cfg, redirect_url_for_host("test.com"));
    let request = build_token_request(&p, "test code");
    assert_eq!(request.url, "https://github.com/login/oauth/access_token");
    assert_eq!(
        request.body,
        "grant_type=authorization_code&code=test+code&client_id=1234&client_secret=5678\
         &redirect_uri=https%3A%2F%2Ftest.com%2Fcallback"
    );
}

#[test]
fn parse_token_accepts_the_standard_response() {
    assert_eq!(
        parse_token("{\"access_token\":\"test_token\",\"token_type\":\"bearer\"}"),
        Some(String::from("test_token"))
    );
    assert_eq!(
        parse_token(" { \"token_type\" : \"bearer\" , \"access_token\" : \"abc\" } "),
        Some(String::from("abc"))
    );
    assert_eq!(
        parse_token("{\"access_token\":\"t\",\"expires_in\":3600,\"token_type\":\"bearer\"}"),
        Some(String::from("t"))
    );
}

#[test]
fn parse_token_rejects_malformed_responses() {
    assert_eq!(parse_token(""), None);
    assert_eq!(parse_token("{}"), None);
    assert_eq!(parse_token("{\"access_token\":\"t\"}"), None);
    assert_eq!(parse_token("{\"token_type\":\"bearer\"}"), None);
    assert_eq!(parse_token("{\"access_token\":42,\"token_type\":\"bearer\"}"), None);
    assert_eq!(
        parse_token("{\"access_token\":\"a\\\"b\",\"token_type\":\"bearer\"}"),
        None
    );
    assert_eq!(
        parse_token("{\"access_token\":\"t\",\"token_type\":\"bearer\"} trailing"),
        None
    );
    assert_eq!(parse_token("[\"access_token\"]"), None);
    assert_eq!(parse_token("{\"access_token\":{\"v\":\"t\"},\"token_type\":\"b\"}"), None);
}

#[test]
fn exchange_reports_each_failure_kind() {
    let http_error = HttpOutcome::Response {
        status: 500,
        body: String::from("bad_verification_code"),
    };
    match exchange(&http_error) {
        ExchangeResult::Error { detail } => {
            assert_eq!(detail, "provider returned an error response: bad_verification_code");
        }
        _ => panic!("expected an error"),
    }

    let malformed = HttpOutcome::Response {
        status: 200,
        body: String::from("not json"),
    };
    match exchange(&malformed) {
        ExchangeResult::Error { detail } => {
            assert_eq!(detail, "provider response is not a valid token response");
        }
        _ => panic!("expected an error"),
    }

    let ok = HttpOutcome::Response {
        status: 200,
        body: String::from("{\"access_token\":\"tok\",\"token_type\":\"bearer\"}"),
    };
    match exchange(&ok) {
        ExchangeResult::Token { access_token } => assert_eq!(access_token, "tok"),
        _ => panic!("expected the token"),
    }
}

#[test]
fn login_response_exact_text() {
    let body = login_response("a.com,b.com", "success", "tok");
    let expected = format!(
        "\n    <script>\n      const receiveMessage = (e) => {{\n        let matches = false;\n\n        for(const origin of '{}'.split(',')) {{\n          if (e.origin.match(origin)) {{\n              matches = true;\n              break;\n          }}\n        }}\n\n        if (!matches) {{\n          return;\n        }}\n\n        window.opener.postMessage(\n          'authorization:{}:{}:{{\"token\":\"{}\",\"provider\":\"{}\"}}',\n          e.origin\n        );\n\n        window.removeEventListener('message', receiveMessage, false);\n      }}\n      window.addEventListener('message', receiveMessage, false);\n\n      window.opener.postMessage('authorizing:{}', '*');\n    </script>\n    ",
        "a.com,b.com", "github", "success", "tok", "github", "github"
    );
    assert_eq!(body, expected);
}
