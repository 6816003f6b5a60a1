//! The auth gate: validates an inbound request's credential/identity pair
//! against the client registry.
//!
//! A pure function of the request metadata and the registry snapshot: no side
//! effects, no state retained between calls, no locking needed.

use vstd::prelude::*;
use crate::errors::AuthError;
use crate::registry::ClientRegistry;

verus! {

/// The request metadata carries exactly one credential value and exactly one
/// identity value.
pub open spec fn well_formed_headers(keys: Seq<String>, agents: Seq<String>) -> bool {
    keys.len() == 1 && agents.len() == 1
}

/// The registry knows this identity, and with exactly this credential.
pub open spec fn credentials_match(
    registry: Map<Seq<char>, Seq<char>>,
    identity: Seq<char>,
    credential: Seq<char>,
) -> bool {
    registry.contains_key(identity) && registry[identity] == credential
}

/// Validates a request's presented credentials against the registry.
///
/// Zero or more than one credential or identity value is `BadCount`,
/// independent of the registry's contents. With exactly one of each, an
/// identity the registry holds with the presented credential authenticates;
/// an unknown identity or a mismatched credential is `Invalid`.
pub fn validate(
    registry: &ClientRegistry,
    keys: &Vec<String>,
    agents: &Vec<String>,
) -> (r: Result<String, AuthError>)
    ensures
        !well_formed_headers(keys@, agents@) ==> r == Err::<String, AuthError>(
            AuthError::BadCount,
        ),
        well_formed_headers(keys@, agents@) && credentials_match(
            registry@,
            agents@[0]@,
            keys@[0]@,
        ) ==> r is Ok && r.unwrap()@ == agents@[0]@,
        well_formed_headers(keys@, agents@) && !credentials_match(
            registry@,
            agents@[0]@,
            keys@[0]@,
        ) ==> r == Err::<String, AuthError>(AuthError::Invalid),
{
    if keys.len() != 1 || agents.len() != 1 {
        return Err(AuthError::BadCount);
    }
    let identity = &agents[0];
    match registry.lookup(identity) {
        Some(credential) => {
            if *credential == keys[0] {
                Ok(identity.clone())
            } else {
                Err(AuthError::Invalid)
            }
        },
        None => Err(AuthError::Invalid),
    }
}

} // verus!
