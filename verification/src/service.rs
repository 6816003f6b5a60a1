//! The classification service: orchestrates the auth gate and the model store
//! for the two use cases, check and train, and shapes results and errors for
//! the boundary.
//!
//! Orchestration only: each call validates the message text, authenticates
//! the caller, then hands over to the store; every component failure is
//! mapped one to one, never reinterpreted. No state is held at this layer.
//!
//! A train call runs in two steps around the caller's durable write:
//! [`handle_train_prepare`] and then, with the write's outcome,
//! [`handle_train_commit`]. The caller must keep whole train calls mutually
//! exclusive; checks need no such section.

use vstd::prelude::*;
use crate::auth;
use crate::auth::credentials_match;
use crate::auth::well_formed_headers;
use crate::errors::AuthError;
use crate::errors::ServiceError;
use crate::errors::StorageError;
use crate::errors::ValidationError;
use crate::registry::ClientRegistry;
use crate::store::ModelStore;
use crate::store::Rating;
use crate::store::TrainUpdate;
use crate::store::trained_of;
use crate::model::score_bits_of;
use crate::model::spam_verdict_of;

verus! {

/// The auth failure a request's metadata earns against a registry, or `None`
/// where it authenticates.
pub open spec fn auth_outcome(
    registry: Map<Seq<char>, Seq<char>>,
    keys: Seq<String>,
    agents: Seq<String>,
) -> Option<AuthError> {
    if !well_formed_headers(keys, agents) {
        Some(AuthError::BadCount)
    } else if !credentials_match(registry, agents[0]@, keys[0]@) {
        Some(AuthError::Invalid)
    } else {
        None
    }
}

/// Handles a check request: non-empty text, then authentication, then a
/// classification of the text against the current committed model.
///
/// Empty text is `MalformedInput` before any authentication; an
/// unauthenticated request fails exactly as the auth gate says; an
/// authenticated one is answered from the committed model, which this call
/// cannot mutate (the store is taken by shared reference).
pub fn handle_check(
    registry: &ClientRegistry,
    store: &ModelStore,
    keys: &Vec<String>,
    agents: &Vec<String>,
    text: &str,
) -> (r: Result<Rating, ServiceError>)
    ensures
        text@.len() == 0 ==> r == Err::<Rating, ServiceError>(
            ServiceError::Validation(ValidationError::MalformedInput),
        ),
        text@.len() > 0 ==> match auth_outcome(registry@, keys@, agents@) {
            Some(e) => r == Err::<Rating, ServiceError>(ServiceError::Auth(e)),
            None => r is Ok && r.unwrap().spam == spam_verdict_of(store.state(), text@)
                && r.unwrap().score_bits == score_bits_of(store.state(), text@),
        },
{
    if text.is_empty() {
        return Err(ServiceError::Validation(ValidationError::MalformedInput));
    }
    match auth::validate(registry, keys, agents) {
        Err(e) => Err(ServiceError::Auth(e)),
        Ok(_identity) => Ok(store.check(text)),
    }
}

/// Handles the compute half of a train request: non-empty text, then
/// authentication, then a training update prepared from the current committed
/// model and the labeled example.
///
/// Empty text and auth failures map exactly as for a check. For an
/// authenticated request success is owed: the prepared update holds the
/// committed model plus this one example, together with the byte image the
/// caller must now write durably. The committed state is untouched in every
/// case.
pub fn handle_train_prepare(
    registry: &ClientRegistry,
    store: &ModelStore,
    keys: &Vec<String>,
    agents: &Vec<String>,
    text: &str,
    is_spam: bool,
) -> (r: Result<TrainUpdate, ServiceError>)
    requires
        store.wf(),
    ensures
        text@.len() == 0 ==> r == Err::<TrainUpdate, ServiceError>(
            ServiceError::Validation(ValidationError::MalformedInput),
        ),
        text@.len() > 0 ==> match auth_outcome(registry@, keys@, agents@) {
            Some(e) => r == Err::<TrainUpdate, ServiceError>(ServiceError::Auth(e)),
            None => match r {
                Ok(update) => update.wf() && update.state() == trained_of(
                    store.state(),
                    text@,
                    is_spam,
                ),
                Err(_) => false,
            },
        },
{
    if text.is_empty() {
        return Err(ServiceError::Validation(ValidationError::MalformedInput));
    }
    match auth::validate(registry, keys, agents) {
        Err(e) => Err(ServiceError::Auth(e)),
        Ok(_identity) => Ok(store.prepare_train(text, is_spam)),
    }
}

/// Handles the publish half of a train request, given whether the update's
/// byte image was written durably.
///
/// A successful write publishes the update as the new committed model in one
/// atomic step and acknowledges the call. A failed write discards the update,
/// leaves the previously committed model and its durable image exactly as
/// they were, and reports a `WriteFailure` for the caller to decide about:
/// train is not idempotent and is never retried here.
pub fn handle_train_commit(
    store: &mut ModelStore,
    update: TrainUpdate,
    write_committed: bool,
) -> (r: Result<(), ServiceError>)
    requires
        old(store).wf(),
        update.wf(),
    ensures
        final(store).wf(),
        write_committed ==> r is Ok && final(store).state() == update.state()
            && final(store).durable() == update.image_spec(),
        !write_committed ==> r == Err::<(), ServiceError>(
            ServiceError::Storage(StorageError::WriteFailure),
        ) && *final(store) == *old(store),
{
    match store.complete_train(update, write_committed) {
        Ok(()) => Ok(()),
        Err(e) => Err(ServiceError::Storage(e)),
    }
}

} // verus!
