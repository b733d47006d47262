//! Token issuance: claims, signing, and the response around the token.
//!
//! Signing itself is the one outside operation of this module: the token
//! for given claims and secret is an opaque, deterministic value, named by
//! `jwt_token_of`. Everything around the call — the fixed expiry policy,
//! the secret fallback, and the assembly and rendering of the response —
//! is verified.

use vstd::prelude::*;
use vstd::string::StringExecFns;
use vstd::string::StringSliceAdditionalSpecFns;

use crate::errors::TokenError;
use crate::jsonfmt::dec_str;
use crate::jsonfmt::escape_json_fragment;
use crate::jsonfmt::json_escape;

verus! {

/// jsonwebtoken's error type, declared so the signing wrapper can return
/// it; verified code maps it to the crate's own error and looks no deeper.
#[verifier::external_type_specification]
#[verifier::external_body]
pub struct ExJwtError(jsonwebtoken::errors::Error);

/// The signed token for a subject, an expiry and a secret. The value is
/// determined by those three alone; nothing further is assumed of it.
pub uninterp spec fn jwt_token_of(sub: Seq<char>, exp: u64, secret: Seq<u8>) -> Seq<char>;

/// Relies on jsonwebtoken::encode with the default header (HS256): the
/// token is built from the serialized header and claims and an HMAC
/// signature, so it depends on the claims and the secret alone. The call
/// succeeds for every input: the HMAC signer accepts a secret of any
/// length, string-keyed claims always serialize, and HMAC signing itself
/// is unconditional.
#[verifier::external_body]
fn sign_claims(sub: &str, exp: u64, secret: &[u8]) -> (r: Result<
    String,
    jsonwebtoken::errors::Error,
>)
    ensures
        r is Ok,
        r matches Ok(t) ==> t@ == jwt_token_of(sub@, exp, secret@),
{
    let mut claims = serde_json::Map::new();
    claims.insert("sub".to_string(), serde_json::Value::String(sub.to_string()));
    claims.insert("exp".to_string(), serde_json::Value::Number(serde_json::Number::from(exp)));
    jsonwebtoken::encode(
        &jsonwebtoken::Header::default(),
        &serde_json::Value::Object(claims),
        &jsonwebtoken::EncodingKey::from_secret(secret),
    )
}

/// The fixed, far-future expiry the demo policy stamps on every token.
pub const TOKEN_EXPIRY: u64 = 2000000000;

/// The signing secret: the externally supplied value when present, else a
/// fixed fallback. The fallback is an insecure default, acceptable for
/// demonstration only.
pub fn signing_secret(configured: Option<String>) -> (s: String)
    ensures
        (configured matches Some(v) ==> s@ == v@),
        configured is None ==> s@ == "super_secret"@,
{
    match configured {
        Some(v) => v,
        None => String::from_str("super_secret"),
    }
}

/// What one issued token's response carries.
pub struct TokenResponse {
    pub token: String,
    pub expires_at: u64,
    pub user_id: String,
    pub message: String,
}

/// The mathematical content of a token response.
#[verifier::ext_equal]
pub struct TokenResponseView {
    pub token: Seq<char>,
    pub expires_at: u64,
    pub user_id: Seq<char>,
    pub message: Seq<char>,
}

impl View for TokenResponse {
    type V = TokenResponseView;

    open spec fn view(&self) -> TokenResponseView {
        TokenResponseView {
            token: self.token@,
            expires_at: self.expires_at,
            user_id: self.user_id@,
            message: self.message@,
        }
    }
}

/// The response built around a freshly issued token for a subject.
pub open spec fn issued_response_view(token: Seq<char>, subject: Seq<char>) -> TokenResponseView {
    TokenResponseView {
        token: token,
        expires_at: TOKEN_EXPIRY,
        user_id: subject,
        message: "JWT token generated successfully"@,
    }
}

/// Assembles the response for a subject around whatever token the signer
/// returned.
pub fn build_token_response(token: String, subject: &str) -> (t: TokenResponse)
    ensures
        t@ == issued_response_view(token@, subject@),
{
    let t = TokenResponse {
        token,
        expires_at: TOKEN_EXPIRY,
        user_id: subject.to_owned(),
        message: String::from_str("JWT token generated successfully"),
    };
    proof {
        assert(t@ =~= issued_response_view(t.token@, subject@));
    }
    t
}

/// The JSON rendering of a token response, fields in their fixed order.
pub open spec fn token_body_view(t: TokenResponseView) -> Seq<char> {
    "{\"token\":\""@ + json_escape(t.token) + "\",\"expires_at\":"@ + dec_str(
        t.expires_at as nat,
    ) + ",\"user_id\":\""@ + json_escape(t.user_id) + "\",\"message\":\""@ + json_escape(t.message)
        + "\"}"@
}

/// Renders a token response as its JSON body.
pub fn render_token_response(t: &TokenResponse) -> (body: String)
    ensures
        body@ == token_body_view(t@),
{
    let mut body = String::from_str("{\"token\":\"");
    body.append(escape_json_fragment(t.token.as_str()).as_str());
    body.append("\",\"expires_at\":");
    body.append(crate::jsonfmt::u64_to_string(t.expires_at).as_str());
    body.append(",\"user_id\":\"");
    body.append(escape_json_fragment(t.user_id.as_str()).as_str());
    body.append("\",\"message\":\"");
    body.append(escape_json_fragment(t.message.as_str()).as_str());
    body.append("\"}");
    proof {
        assert(body@ =~= token_body_view(t@));
    }
    body
}

/// Issues a signed token for a subject: claims of the subject and the
/// fixed expiry, signed with the secret, wrapped in the response the
/// endpoint serves. The signer accepts every secret, so issuance always
/// succeeds; the error shape remains for the request-scoped policy — a
/// signing failure would be reported to the caller, never swallowed.
pub fn issue_token(subject: &str, secret: &str) -> (r: Result<TokenResponse, TokenError>)
    ensures
        r is Ok,
        (r matches Ok(t) ==> t@ == issued_response_view(
            jwt_token_of(subject@, TOKEN_EXPIRY, secret.spec_bytes()),
            subject@,
        )),
{
    match sign_claims(subject, TOKEN_EXPIRY, secret.as_bytes()) {
        Ok(token) => Ok(build_token_response(token, subject)),
        Err(_) => Err(TokenError::SigningFailed),
    }
}

} // verus!
