//! One-time selection or creation of the service's own author identity.
//!
//! At startup, before the service accepts connections, it must hold exactly
//! one durable identity with which the underlying store attributes its
//! writes. The caller enumerates the store's identities lazily and hands
//! the first element (if any) to [`choose_author`]; when the store is
//! empty, the caller performs the single creation the decision asks for and
//! hands its outcome to [`adopt_created`]. Every store failure on this path
//! is fatal: the service must not start without a usable identity.

use vstd::prelude::*;

verus! {

/// The durable author identity the store reports, carried as its raw key
/// bytes. Opaque to this crate: it is only selected and held.
#[derive(Clone, Debug, PartialEq, Eq)]
pub struct AuthorId {
    pub bytes: Vec<u8>,
}

/// A store failure during identity enumeration or creation. Always fatal
/// at startup.
#[derive(Clone, Debug, PartialEq, Eq)]
pub struct StoreError {
    pub detail: String,
}

/// What bootstrap does after seeing the head of the identity listing: keep
/// the first existing identity, or ask the store for exactly one new one.
#[derive(Clone, Debug, PartialEq, Eq)]
pub enum BootstrapAction {
    UseExisting(AuthorId),
    CreateNew,
}

/// What [`choose_author`] decides for the head of the identity listing.
pub open spec fn chosen_action(first_listed: Option<Result<AuthorId, StoreError>>) -> Result<
    BootstrapAction,
    StoreError,
> {
    match first_listed {
        None => Ok(BootstrapAction::CreateNew),
        Some(Ok(a)) => Ok(BootstrapAction::UseExisting(a)),
        Some(Err(e)) => Err(e),
    }
}

/// The identity a whole bootstrap run settles on, as a function of the head
/// of the store's listing and of the creation outcome (the latter
/// meaningful only when the listing was empty).
pub open spec fn bootstrap_model(
    first_listed: Option<Result<AuthorId, StoreError>>,
    created: Result<AuthorId, StoreError>,
) -> Result<AuthorId, StoreError> {
    match first_listed {
        None => created,
        Some(Ok(a)) => Ok(a),
        Some(Err(e)) => Err(e),
    }
}

/// Decides the service identity from the head of the store's identity
/// listing: reuse the first enumerated identity when one exists, create
/// exactly one when the store is empty, and abort startup on an enumeration
/// failure.
pub fn choose_author(first_listed: Option<Result<AuthorId, StoreError>>) -> (r: Result<
    BootstrapAction,
    StoreError,
>)
    ensures
        r == chosen_action(first_listed),
{
    match first_listed {
        None => Ok(BootstrapAction::CreateNew),
        Some(Ok(a)) => Ok(BootstrapAction::UseExisting(a)),
        Some(Err(e)) => Err(e),
    }
}

/// Adopts the outcome of the single identity creation that
/// [`choose_author`] asked for on an empty store: the created identity
/// becomes the service identity, and a creation failure aborts startup.
pub fn adopt_created(created: Result<AuthorId, StoreError>) -> (r: Result<AuthorId, StoreError>)
    ensures
        r == created,
        r == bootstrap_model(None, created),
{
    created
}

/// Law: once the store holds at least one identity, bootstrap is idempotent
/// across restarts — every run reuses the first enumerated identity, never
/// asks for a creation, and two runs settle on the same identity.
pub proof fn lemma_bootstrap_idempotent(
    a: AuthorId,
    created_one: Result<AuthorId, StoreError>,
    created_two: Result<AuthorId, StoreError>,
)
    ensures
        chosen_action(Some(Ok(a))) == Ok::<BootstrapAction, StoreError>(
            BootstrapAction::UseExisting(a),
        ),
        bootstrap_model(Some(Ok(a)), created_one) == Ok::<AuthorId, StoreError>(a),
        bootstrap_model(Some(Ok(a)), created_one) == bootstrap_model(Some(Ok(a)), created_two),
{
}

/// Law: on an empty store, bootstrap asks for exactly one creation and the
/// created identity is the one the run settles on; a creation failure
/// aborts startup.
pub proof fn lemma_bootstrap_creates_one(created: Result<AuthorId, StoreError>)
    ensures
        chosen_action(None) == Ok::<BootstrapAction, StoreError>(BootstrapAction::CreateNew),
        bootstrap_model(None, created) == created,
{
}

/// Law: an enumeration failure is fatal — bootstrap surfaces it and neither
/// selects nor creates an identity.
pub proof fn lemma_bootstrap_listing_failure_fatal(
    e: StoreError,
    created: Result<AuthorId, StoreError>,
)
    ensures
        chosen_action(Some(Err(e))) == Err::<BootstrapAction, StoreError>(e),
        bootstrap_model(Some(Err(e)), created) == Err::<AuthorId, StoreError>(e),
{
}

} // verus!
