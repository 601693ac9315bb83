//! Actors and their signing capability. An actor is a person or a
//! community, local or remote; only local actors may carry a private key.

use vstd::prelude::*;
use crate::errors::FederationError;
use crate::urls::url_text;

verus! {

/// Whether an identity is a single person or a community.
#[derive(Clone, Copy, Debug, PartialEq, Eq, Structural)]
pub enum ActorKind {
    Person,
    Community,
}

/// One actor record, as the capability provider hands it out:
/// identity URL, locality, and private key material for local actors.
pub struct Actor {
    /// Person or community.
    pub kind: ActorKind,
    /// True when this actor lives on this instance.
    pub local: bool,
    /// Globally unique identity URL of the actor.
    pub actor_id: String,
    /// PEM private key; only a local actor may have one. A local actor
    /// without one is a data-integrity fault surfaced as an error on send.
    pub private_key: Option<String>,
}

impl Actor {
    /// Record validity: the identity is URL text and remote actors never
    /// carry key material.
    pub open spec fn wf(self) -> bool {
        &&& url_text(self.actor_id@)
        &&& self.actor_id@.len() > 0
        &&& !self.local ==> self.private_key is None
    }

    /// Whether a signed send may be requested of this actor.
    pub open spec fn spec_has_key(self) -> bool {
        self.private_key is Some
    }

    /// The identity URL of the actor.
    pub fn actor_id(&self) -> (r: &String)
        ensures
            r@ == self.actor_id@,
    {
        &self.actor_id
    }

    /// The signing capability lookup: yields the private key of a local
    /// actor, and fails with `MissingKeyMaterial` exactly when the record
    /// holds no key — an error, never a panic, since it marks a local
    /// actor row without key material.
    pub fn signing_key(&self) -> (r: Result<String, FederationError>)
        ensures
            r is Ok <==> self.spec_has_key(),
            r is Ok ==> r->Ok_0@ == self.private_key->0@,
            r is Err ==> r == Err::<String, FederationError>(FederationError::MissingKeyMaterial),
    {
        match &self.private_key {
            Some(k) => Ok(k.clone()),
            None => Err(FederationError::MissingKeyMaterial),
        }
    }
}

} // verus!
