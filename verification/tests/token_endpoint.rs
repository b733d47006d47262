use lambda_sidecar::server::handle_request;
use lambda_sidecar::token::build_token_response;
use lambda_sidecar::token::issue_token;
use lambda_sidecar::token::render_token_response;
use lambda_sidecar::token::signing_secret;

#[test]
fn token_endpoint_round_trip() {
    let r = handle_request("GET", "/my-token", "test_secret_value");
    assert_eq!(r.status, 200);
    assert_eq!(r.content_type, "application/json");

    let v: serde_json::Value = serde_json::from_str(&r.body).unwrap();
    let token = v.get("token").unwrap().as_str().unwrap();
    let expires = v.get("expires_at").unwrap().as_u64().unwrap();
    assert_eq!(v.get("user_id").unwrap().as_str().unwrap(), "user123");
    assert_eq!(
        v.get("message").unwrap().as_str().unwrap(),
        "JWT token generated successfully"
    );
    assert_eq!(expires, 2000000000);

    let decoded = jsonwebtoken::decode::<serde_json::Value>(
        token,
        &jsonwebtoken::DecodingKey::from_secret(b"test_secret_value"),
        &jsonwebtoken::Validation::new(jsonwebtoken::Algorithm::HS256),
    )
    .unwrap();
    assert_eq!(decoded.claims.get("sub").unwrap().as_str().unwrap(), "user123");
    assert_eq!(decoded.claims.get("exp").unwrap().as_u64().unwrap(), expires);
}

#[test]
fn token_rejects_wrong_secret() {
    let r = handle_request("GET", "/my-token", "secret_a");
    assert_eq!(r.status, 200);
    let v: serde_json::Value = serde_json::from_str(&r.body).unwrap();
    let token = v.get("token").unwrap().as_str().unwrap();
    let rejected = jsonwebtoken::decode::<serde_json::Value>(
        token,
        &jsonwebtoken::DecodingKey::from_secret(b"secret_b"),
        &jsonwebtoken::Validation::new(jsonwebtoken::Algorithm::HS256),
    );
    assert!(rejected.is_err());
}

#[test]
fn issue_token_fills_response() {
    let t = issue_token("alice", "some-key").unwrap();
    assert_eq!(t.user_id, "alice");
    assert_eq!(t.expires_at, 2000000000);
    assert_eq!(t.message, "JWT token generated successfully");
    assert!(!t.token.is_empty());
}

#[test]
fn signing_secret_prefers_configured_value() {
    assert_eq!(signing_secret(Some("configured-key".to_string())), "configured-key");
}

#[test]
fn signing_secret_falls_back_to_insecure_default() {
    assert_eq!(signing_secret(None), "super_secret");
}

#[test]
fn render_token_response_exact_body() {
    let t = build_token_response("abc.def.ghi".to_string(), "user123");
    let body = render_token_response(&t);
    assert_eq!(
        body,
        "{\"token\":\"abc.def.ghi\",\"expires_at\":2000000000,\"user_id\":\"user123\",\"message\":\"JWT token generated successfully\"}"
    );
}
