//! The result page: an HTML document holding only a script that relays
//! the outcome to the opener window. The script first posts a readiness
//! ping to any origin, then waits for one incoming message; when that
//! message's origin matches one of the configured patterns, it posts the
//! framed outcome back to exactly that origin and unregisters itself, so
//! at most one successful relay happens per page load.

use vstd::prelude::*;
use vstd::string::StringExecFns;
use crate::provider::{provider_name, spec_provider};

verus! {

/// The page text: the configured origin patterns, the provider identity,
/// the outcome's status, and the token, spliced into the fixed script.
pub open spec fn spec_login_page(
    origins: Seq<char>,
    provider: Seq<char>,
    status: Seq<char>,
    token: Seq<char>,
) -> Seq<char> {
    "\n    <script>\n      const receiveMessage = (e) => {\n        let matches = false;\n\n        for(const origin of '"@
        + origins
        + "'.split(',')) {\n          if (e.origin.match(origin)) {\n              matches = true;\n              break;\n          }\n        }\n\n        if (!matches) {\n          return;\n        }\n\n        window.opener.postMessage(\n          'authorization:"@
        + provider + ":"@ + status + ":{\"token\":\""@ + token + "\",\"provider\":\""@ + provider
        + "\"}',\n          e.origin\n        );\n\n        window.removeEventListener('message', receiveMessage, false);\n      }\n      window.addEventListener('message', receiveMessage, false);\n\n      window.opener.postMessage('authorizing:"@
        + provider + "', '*');\n    </script>\n    "@
}

/// Renders the result page for this deployment's origin patterns and the
/// given status and token.
pub fn login_response(origins: &str, status: &str, token: &str) -> (r: String)
    ensures
        r@ == spec_login_page(origins@, spec_provider(), status@, token@),
{
    let mut r = String::from_str(
        "\n    <script>\n      const receiveMessage = (e) => {\n        let matches = false;\n\n        for(const origin of '",
    );
    r.append(origins);
    r.append(
        "'.split(',')) {\n          if (e.origin.match(origin)) {\n              matches = true;\n              break;\n          }\n        }\n\n        if (!matches) {\n          return;\n        }\n\n        window.opener.postMessage(\n          'authorization:",
    );
    r.append(provider_name());
    r.append(":");
    r.append(status);
    r.append(":{\"token\":\"");
    r.append(token);
    r.append("\",\"provider\":\"");
    r.append(provider_name());
    r.append(
        "\"}',\n          e.origin\n        );\n\n        window.removeEventListener('message', receiveMessage, false);\n      }\n      window.addEventListener('message', receiveMessage, false);\n\n      window.opener.postMessage('authorizing:",
    );
    r.append(provider_name());
    r.append("', '*');\n    </script>\n    ");
    r
}

} // verus!
