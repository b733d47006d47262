//! Routing of the local HTTP endpoint.
//!
//! One path is served: a GET on the token path issues a token; everything
//! else gets a structured not-found body. The listener itself (socket,
//! connections) runs outside this crate and hands in the method and path
//! of each request as plain strings.

use vstd::prelude::*;
use vstd::string::StringExecFns;
use vstd::string::StringSliceAdditionalSpecFns;

use crate::jsonfmt::str_eq;
use crate::token::TOKEN_EXPIRY;
use crate::token::issue_token;
use crate::token::issued_response_view;
use crate::token::jwt_token_of;
use crate::token::render_token_response;
use crate::token::token_body_view;

verus! {

/// Everything the listener needs to send one response: plain values.
pub struct ResponsePlan {
    pub status: u16,
    pub content_type: String,
    pub body: String,
}

/// The mathematical content of a response plan.
#[verifier::ext_equal]
pub struct ResponsePlanView {
    pub status: u16,
    pub content_type: Seq<char>,
    pub body: Seq<char>,
}

impl View for ResponsePlan {
    type V = ResponsePlanView;

    open spec fn view(&self) -> ResponsePlanView {
        ResponsePlanView {
            status: self.status,
            content_type: self.content_type@,
            body: self.body@,
        }
    }
}

/// Whether a request is the one known route: a GET on the token path.
pub open spec fn is_token_route(method: Seq<char>, path: Seq<char>) -> bool {
    method == "GET"@ && path == "/my-token"@
}

/// The body every unknown route gets.
pub open spec fn not_found_body_view() -> Seq<char> {
    "{\"error\":\"Endpoint not found\",\"message\":\"Use /token to get a JWT\",\"status\":404}"@
}

/// The structured not-found response.
pub fn not_found_response() -> (r: ResponsePlan)
    ensures
        r@.status == 404,
        r@.content_type == "application/json"@,
        r@.body == not_found_body_view(),
{
    ResponsePlan {
        status: 404,
        content_type: String::from_str("application/json"),
        body: String::from_str(
            "{\"error\":\"Endpoint not found\",\"message\":\"Use /token to get a JWT\",\"status\":404}",
        ),
    }
}

/// Serves one inbound request.
///
/// A GET on the token path issues a token for the fixed demo subject and
/// returns it as JSON with status 200 — the signer accepts every secret,
/// so the 200 answer is owed on every such request, and two requests with
/// equal method, path and secret get identical responses. The status 500
/// arm keeps the request-scoped error shape a signing failure would get,
/// and is proved unreachable. Any other method or path gets the
/// structured not-found body with status 404. Every response is JSON.
pub fn handle_request(method: &str, path: &str, secret: &str) -> (r: ResponsePlan)
    ensures
        r@.content_type == "application/json"@,
        is_token_route(method@, path@) ==> r@.status == 200 && r@.body == token_body_view(
            issued_response_view(
                jwt_token_of("user123"@, TOKEN_EXPIRY, secret.spec_bytes()),
                "user123"@,
            ),
        ),
        !is_token_route(method@, path@) ==> r@.status == 404 && r@.body == not_found_body_view(),
{
    if str_eq(method, "GET") && str_eq(path, "/my-token") {
        match issue_token("user123", secret) {
            Ok(t) => ResponsePlan {
                status: 200,
                content_type: String::from_str("application/json"),
                body: render_token_response(&t),
            },
            Err(_) => {
                proof {
                    assert(false);  // issue_token promises success
                }
                ResponsePlan {
                    status: 500,
                    content_type: String::from_str("application/json"),
                    body: String::from_str(
                        "{\"error\":\"Internal server error\",\"message\":\"Token signing failed\",\"status\":500}",
                    ),
                }
            },
        }
    } else {
        not_found_response()
    }
}

} // verus!
