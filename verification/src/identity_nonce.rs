//! Which check the nonce of a state transition gets, given what storage holds
//! for the identity that owns it.

use vstd::prelude::*;

verus! {

/// Nonce of an identity: a counter that each of its state transitions moves on.
pub type IdentityNonce = u64;

/// Validates the nonce `revision_nonce` of a state transition of the identity
/// `identity_id`.
///
/// The nonce that storage holds for the identity is fetched once. A failure of
/// the fetch is the failure of the validation. Where storage holds a nonce, the
/// verdict is that of `validate_update` on that nonce, the new one and the
/// identity; where it holds none, that of `validate_new` on the new nonce and
/// the identity.
pub fn validate_nonce_v0<R, E, FF, UF, NF>(
    revision_nonce: IdentityNonce,
    identity_id: [u8; 32],
    fetch_identity_nonce: FF,
    validate_update: UF,
    validate_new: NF,
) -> (verdict: Result<R, E>) where
    FF: FnOnce([u8; 32]) -> Result<Option<IdentityNonce>, E>,
    UF: FnOnce(IdentityNonce, IdentityNonce, [u8; 32]) -> R,
    NF: FnOnce(IdentityNonce, [u8; 32]) -> R,

    requires
        call_requires(fetch_identity_nonce, (identity_id,)),
        forall|existing_nonce: IdentityNonce|
            call_requires(validate_update, (existing_nonce, revision_nonce, identity_id)),
        call_requires(validate_new, (revision_nonce, identity_id)),
    ensures
        exists|fetched: Result<Option<IdentityNonce>, E>|
            call_ensures(fetch_identity_nonce, (identity_id,), fetched) && (match fetched {
                Err(error) => verdict == Err::<R, E>(error),
                Ok(Some(existing_nonce)) => verdict is Ok && call_ensures(
                    validate_update,
                    (existing_nonce, revision_nonce, identity_id),
                    verdict->Ok_0,
                ),
                Ok(None) => verdict is Ok && call_ensures(
                    validate_new,
                    (revision_nonce, identity_id),
                    verdict->Ok_0,
                ),
            }),
{
    let fetched = fetch_identity_nonce(identity_id);
    let ghost returned = fetched;
    let existing_nonce = match fetched {
        Ok(existing_nonce) => existing_nonce,
        Err(error) => {
            assert(call_ensures(fetch_identity_nonce, (identity_id,), returned));
            return Err(error);
        },
    };

    let result = if let Some(existing_nonce) = existing_nonce {
        validate_update(existing_nonce, revision_nonce, identity_id)
    } else {
        validate_new(revision_nonce, identity_id)
    };
    assert(call_ensures(fetch_identity_nonce, (identity_id,), returned));

    Ok(result)
}

} // verus!
