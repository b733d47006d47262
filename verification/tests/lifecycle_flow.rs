use lambda_sidecar::errors::FatalError;
use lambda_sidecar::lifecycle::extension_id;
use lambda_sidecar::lifecycle::find_extension_name;
use lambda_sidecar::lifecycle::make_uri;
use lambda_sidecar::lifecycle::register_request;
use lambda_sidecar::lifecycle::IdentityCell;
use lambda_sidecar::lifecycle::LifecycleClient;
use lambda_sidecar::lifecycle::LifecyclePhase;
use lambda_sidecar::lifecycle::RegisterOutcome;

#[test]
fn identity_set_twice_fails() {
    let mut cell = IdentityCell::new();
    assert!(!cell.is_set());
    assert!(cell.set("id-1".to_string()).is_ok());
    assert!(cell.is_set());
    assert_eq!(cell.set("id-2".to_string()), Err(FatalError::IdentityAlreadySet));
    assert_eq!(extension_id(&cell).as_str(), "id-1");
}

#[test]
fn extension_name_is_fixed() {
    assert_eq!(find_extension_name(), "rust-demo-lambda-extension");
}

#[test]
fn make_uri_builds_versioned_endpoint() {
    assert_eq!(
        make_uri("127.0.0.1:9001", "/register"),
        "http://127.0.0.1:9001/2020-01-01/extension/register"
    );
    assert_eq!(
        make_uri("sandbox:80", "/event/next"),
        "http://sandbox:80/2020-01-01/extension/event/next"
    );
}

#[test]
fn register_request_shape() {
    let plan = register_request("127.0.0.1:9001");
    assert_eq!(plan.method, "POST");
    assert_eq!(plan.uri, "http://127.0.0.1:9001/2020-01-01/extension/register");
    assert_eq!(plan.header_name, "Lambda-Extension-Name");
    assert_eq!(plan.header_value, "rust-demo-lambda-extension");
    assert_eq!(plan.body, "{\"events\":[\"INVOKE\"]}");
}

#[test]
fn register_then_poll_carries_identity() {
    let mut client = LifecycleClient::new();
    assert_eq!(client.phase(), LifecyclePhase::Unregistered);
    let outcome = RegisterOutcome::Response(Some("my-identity".to_string()));
    assert!(client.complete_registration(outcome).is_ok());
    assert_eq!(client.phase(), LifecyclePhase::Registered);

    let next = client.poll_request("127.0.0.1:9001");
    assert_eq!(next.method, "GET");
    assert_eq!(next.uri, "http://127.0.0.1:9001/2020-01-01/extension/event/next");
    assert_eq!(next.header_name, "Lambda-Extension-Identifier");
    assert_eq!(next.header_value, "my-identity");
    assert_eq!(next.body, "");
    assert_eq!(client.phase(), LifecyclePhase::Polling);
}

#[test]
fn registration_missing_header_is_fatal() {
    let mut client = LifecycleClient::new();
    let r = client.complete_registration(RegisterOutcome::Response(None));
    assert_eq!(r, Err(FatalError::MissingIdentityHeader));
    assert_eq!(client.phase(), LifecyclePhase::Unregistered);
}

#[test]
fn registration_transport_failure_is_fatal() {
    let mut client = LifecycleClient::new();
    let r = client.complete_registration(RegisterOutcome::TransportFailed);
    assert_eq!(r, Err(FatalError::RegistrationFailed));
    assert_eq!(client.phase(), LifecyclePhase::Unregistered);
}

#[test]
fn second_registration_fails_loudly() {
    let mut client = LifecycleClient::new();
    let first = RegisterOutcome::Response(Some("first-id".to_string()));
    assert!(client.complete_registration(first).is_ok());
    let second = RegisterOutcome::Response(Some("second-id".to_string()));
    assert_eq!(client.complete_registration(second), Err(FatalError::IdentityAlreadySet));
    let next = client.poll_request("h:1");
    assert_eq!(next.header_value, "first-id");
}

#[test]
fn poll_loop_survives_failure() {
    let mut client = LifecycleClient::new();
    let outcome = RegisterOutcome::Response(Some("poll-id".to_string()));
    assert!(client.complete_registration(outcome).is_ok());

    let first = client.poll_request("h:1");
    assert_eq!(first.header_value, "poll-id");
    client.on_poll_complete(false);
    assert_eq!(client.phase(), LifecyclePhase::Polling);

    let second = client.poll_request("h:1");
    assert_eq!(second.header_value, "poll-id");
    assert_eq!(second.uri, "http://h:1/2020-01-01/extension/event/next");
    client.on_poll_complete(true);
    assert_eq!(client.phase(), LifecyclePhase::Polling);
}
