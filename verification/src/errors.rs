//! Error taxonomy of the sidecar.
//!
//! Fatal startup conditions terminate the process (the host restarts the
//! environment); a token-signing failure is reported to the single request
//! that triggered it.

use vstd::prelude::*;

verus! {

/// A condition under which the sidecar cannot safely continue and the
/// process must terminate with a diagnostic.
#[derive(Clone, Copy, Debug, PartialEq, Eq, Structural)]
pub enum FatalError {
    /// The runtime API origin was not configured in the environment.
    OriginMissing,
    /// The origin cell was asked to latch a value a second time.
    OriginAlreadyLatched,
    /// A registration was attempted while an identity was already assigned.
    IdentityAlreadySet,
    /// The registration response carried no identity header.
    MissingIdentityHeader,
    /// The registration request could not be sent or got no response.
    RegistrationFailed,
}

impl FatalError {
    /// A human-readable diagnostic naming the missing prerequisite.
    pub fn diagnostic(&self) -> (msg: String)
        ensures
            *self is OriginMissing ==> msg@ == "AWS_LAMBDA_RUNTIME_API not found"@,
            *self is OriginAlreadyLatched ==> msg@
                == "runtime API origin was already latched"@,
            *self is IdentityAlreadySet ==> msg@ == "extension identity was already set"@,
            *self is MissingIdentityHeader ==> msg@
                == "registration response missing 'lambda-extension-identifier' header"@,
            *self is RegistrationFailed ==> msg@ == "cannot send registration request"@,
    {
        match self {
            FatalError::OriginMissing => String::from_str("AWS_LAMBDA_RUNTIME_API not found"),
            FatalError::OriginAlreadyLatched => String::from_str(
                "runtime API origin was already latched",
            ),
            FatalError::IdentityAlreadySet => String::from_str(
                "extension identity was already set",
            ),
            FatalError::MissingIdentityHeader => String::from_str(
                "registration response missing 'lambda-extension-identifier' header",
            ),
            FatalError::RegistrationFailed => String::from_str("cannot send registration request"),
        }
    }
}

/// A failure while serving one token request; never crashes the listener.
#[derive(Clone, Copy, Debug, PartialEq, Eq, Structural)]
pub enum TokenError {
    /// The signing operation rejected the claims or the secret.
    SigningFailed,
}

} // verus!
