use lambda_sidecar::errors::FatalError;

#[test]
fn diagnostics_name_the_prerequisite() {
    assert_eq!(
        FatalError::OriginMissing.diagnostic(),
        "AWS_LAMBDA_RUNTIME_API not found"
    );
    assert_eq!(
        FatalError::OriginAlreadyLatched.diagnostic(),
        "runtime API origin was already latched"
    );
    assert_eq!(
        FatalError::IdentityAlreadySet.diagnostic(),
        "extension identity was already set"
    );
    assert_eq!(
        FatalError::MissingIdentityHeader.diagnostic(),
        "registration response missing 'lambda-extension-identifier' header"
    );
    assert_eq!(
        FatalError::RegistrationFailed.diagnostic(),
        "cannot send registration request"
    );
}
