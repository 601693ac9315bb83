//! Failure taxonomy of the delivery engine. Disabled federation is not an
//! error: the sending entry points short-circuit to success instead.

use vstd::prelude::*;

verus! {

/// Why an activity, or one destination of it, could not be delivered.
#[derive(Clone, Copy, Debug, PartialEq, Eq, Structural)]
pub enum FederationError {
    /// A local actor record has no private key; fatal, never retried.
    MissingKeyMaterial,
    /// A destination failed the policy pre-check; only that destination is skipped.
    InvalidDestination,
    /// Canonicalization or cryptographic failure while signing; retryable.
    SigningError,
    /// Network failure, timeout or non-2xx response; retryable with backoff.
    DeliveryFailure,
}

impl FederationError {
    /// Whether a failed attempt with this error may be scheduled again.
    pub open spec fn spec_retryable(self) -> bool {
        match self {
            FederationError::MissingKeyMaterial => false,
            FederationError::InvalidDestination => false,
            FederationError::SigningError => true,
            FederationError::DeliveryFailure => true,
        }
    }

    /// Retrying fixes neither missing key material nor a policy rejection,
    /// while signing and network failures are assumed transient.
    pub fn retryable(&self) -> (r: bool)
        ensures
            r == self.spec_retryable(),
    {
        match self {
            FederationError::MissingKeyMaterial => false,
            FederationError::InvalidDestination => false,
            FederationError::SigningError => true,
            FederationError::DeliveryFailure => true,
        }
    }

    /// A short diagnostic label, for logs kept outside the engine.
    pub fn label(&self) -> (r: String)
        ensures
            self is MissingKeyMaterial ==> r@ == "missing key material"@,
            self is InvalidDestination ==> r@ == "invalid destination"@,
            self is SigningError ==> r@ == "signing error"@,
            self is DeliveryFailure ==> r@ == "delivery failure"@,
    {
        match self {
            FederationError::MissingKeyMaterial => String::from_str("missing key material"),
            FederationError::InvalidDestination => String::from_str("invalid destination"),
            FederationError::SigningError => String::from_str("signing error"),
            FederationError::DeliveryFailure => String::from_str("delivery failure"),
        }
    }
}

} // verus!
