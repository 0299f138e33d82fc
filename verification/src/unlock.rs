//! The unlock engine: generating a random challenge and validating the
//! credential that answers it with the product unlock key.

use vstd::prelude::*;
use crate::codec::certificate_signed_data;
use crate::codec::challenge_bytes;
use crate::codec::permanent_attributes_bytes;
use crate::codec::bytes_eq;
use crate::codec::spec_certificate_signed_data;
use crate::codec::spec_challenge_bytes;
use crate::errors::IoError;
use crate::errors::IoResult;
use crate::ops::device_model_eq;
use crate::ops::AtxOps;
use crate::ops::Ops;
use crate::types::AtxPermanentAttributes;
use crate::types::AtxUnlockChallenge;
use crate::types::AtxUnlockCredential;
use crate::types::ChallengeView;
use crate::types::CredentialView;
use crate::types::PermanentAttributesView;
use crate::types::ATX_PIK_VERSION_LOCATION;
use crate::types::ATX_UNLOCK_CHALLENGE_SIZE;
use crate::types::ATX_VERSION;
use crate::validate::attrs_verified;

verus! {

/// Whether generating an unlock challenge succeeds on a device: the
/// permanent attributes can be read, and the random-byte provider works. A
/// device without randomness does not support authenticated unlock, an
/// expected, non-fatal policy outcome.
pub open spec fn challenge_outcome<A: AtxOps>(ops: A) -> Result<(), IoError> {
    match ops.attrs_result() {
        Result::Err(e) => Result::Err(e),
        Result::Ok(attrs) => ops.random_result(),
    }
}

/// What a successfully generated challenge looks like: the format version
/// this library produces, the hash of the issuing device's product
/// identifier, and a token of the fixed size. The token's bytes come from
/// the random provider and are promised nothing — every call draws them
/// fresh.
pub open spec fn generated_challenge_wf<A: AtxOps>(ops: A, challenge: ChallengeView) -> bool {
    &&& challenge.version == ATX_VERSION
    &&& challenge.product_id_hash == ops.sha(ops.attrs_result()->Ok_0.product_id)
    &&& challenge.challenge.len() == ATX_UNLOCK_CHALLENGE_SIZE
}

/// Generates a challenge for authenticated unlock: a fresh random token to
/// be signed with the product unlock key (PUK), bound to this device by the
/// hash of its product identifier.
///
/// The random component comes exclusively from the device's random-byte
/// provider; when that provider is unimplemented the device does not support
/// authenticated unlock and this stops with [`IoError::NotImplemented`]. The
/// hash comes from the general capability, which is why the full [`Ops`]
/// contract is asked for.
pub fn atx_generate_unlock_challenge<O: Ops>(atx_ops: &mut O) -> (r: IoResult<AtxUnlockChallenge>)
    ensures
        device_model_eq(*final(atx_ops), *old(atx_ops)),
        final(atx_ops).key_version_cache() == old(atx_ops).key_version_cache(),
        match challenge_outcome(*old(atx_ops)) {
            Result::Err(e) => r == Result::<AtxUnlockChallenge, IoError>::Err(e),
            Result::Ok(u) => r matches Result::Ok(c) && generated_challenge_wf(*old(atx_ops), c@),
        },
{
    let mut attrs = AtxPermanentAttributes::new();
    match atx_ops.read_permanent_attributes(&mut attrs) {
        Result::Err(e) => {
            return Result::Err(e);
        },
        Result::Ok(u) => {},
    }
    let product_id_hash = atx_ops.sha256(attrs.product_id.as_slice());
    let mut token: Vec<u8> = Vec::new();
    while token.len() < ATX_UNLOCK_CHALLENGE_SIZE
        invariant
            token@.len() <= ATX_UNLOCK_CHALLENGE_SIZE,
        decreases ATX_UNLOCK_CHALLENGE_SIZE - token.len(),
    {
        token.push(0);
    }
    match atx_ops.get_random(&mut token) {
        Result::Err(e) => {
            return Result::Err(e);
        },
        Result::Ok(u) => {},
    }
    Result::Ok(AtxUnlockChallenge { version: ATX_VERSION, product_id_hash, challenge: token })
}

/// Whether a credential's key chain resolves to the given root key: the
/// credential and both embedded certificates carry the format version this
/// library understands, the PRK signed the PIK certificate, and the PIK
/// signed the PUK certificate. The PUK is a key of its own — possession of
/// it does not confer the ability to sign images.
pub open spec fn credential_chain_verified<A: AtxOps>(
    ops: A,
    root_key: Seq<u8>,
    credential: CredentialView,
) -> bool {
    &&& credential.version == ATX_VERSION
    &&& credential.product_intermediate_key_certificate.version == ATX_VERSION
    &&& credential.product_unlock_key_certificate.version == ATX_VERSION
    &&& ops.sig_ok(
        root_key,
        spec_certificate_signed_data(credential.product_intermediate_key_certificate),
        credential.product_intermediate_key_certificate.signature,
    )
    &&& ops.sig_ok(
        credential.product_intermediate_key_certificate.public_key,
        spec_certificate_signed_data(credential.product_unlock_key_certificate),
        credential.product_unlock_key_certificate.signature,
    )
}

/// Whether a credential answers the challenge the device currently holds:
/// the challenge carries the understood format version, it names this
/// device's product identity, and the PUK's signature covers exactly the
/// challenge's bytes. A credential signed over any other challenge — in
/// particular an earlier, superseded one — fails here.
pub open spec fn challenge_bound<A: AtxOps>(
    ops: A,
    attrs: PermanentAttributesView,
    credential: CredentialView,
    challenge: ChallengeView,
) -> bool {
    &&& challenge.version == ATX_VERSION
    &&& challenge.product_id_hash == ops.sha(attrs.product_id)
    &&& ops.sig_ok(
        credential.product_unlock_key_certificate.public_key,
        spec_challenge_bytes(challenge),
        credential.challenge_signature,
    )
}

/// What validating an unlock credential returns, read off the device state
/// the validation starts from.
///
/// The chain is checked exactly as for a signing key, and the PIK's declared
/// version is compared against the durable rollback store; the PUK itself has
/// no rollback location — unlock-key compromise is mitigated by device
/// policy, not rollback state. Signature and binding failures are the
/// definite answer `false`; collaborator failures are errors.
pub open spec fn credential_result<A: AtxOps>(
    ops: A,
    credential: CredentialView,
    challenge: ChallengeView,
) -> Result<bool, IoError> {
    if !ops.atx_supported() {
        Result::Err(IoError::NotImplemented)
    } else {
        match ops.attrs_result() {
            Result::Err(e) => Result::Err(e),
            Result::Ok(attrs) => match ops.attrs_hash_result() {
                Result::Err(e) => Result::Err(e),
                Result::Ok(stored_hash) => if !attrs_verified(ops, attrs, stored_hash) {
                    Result::Ok(false)
                } else if !credential_chain_verified(
                    ops,
                    attrs.product_root_public_key,
                    credential,
                ) {
                    Result::Ok(false)
                } else {
                    match ops.latched_result(ATX_PIK_VERSION_LOCATION) {
                        Result::Err(e) => Result::Err(e),
                        Result::Ok(pik_minimum) => Result::Ok(
                            credential.product_intermediate_key_certificate.key_version
                                >= pik_minimum && challenge_bound(
                                ops,
                                attrs,
                                credential,
                                challenge,
                            ),
                        ),
                    }
                },
            },
        }
    }
}

/// Validates a signed credential for authenticated unlock against the
/// challenge the device most recently issued.
///
/// Returns `Ok(true)` when the credential's chain resolves to the recorded
/// product root key, the PIK is not stale, and the PUK's signature covers the
/// given challenge; `Ok(false)` when the check ran to completion and
/// rejected; `Err(IoError::NotImplemented)` when the device does not supply
/// the callbacks; and any other error exactly as the failing collaborator
/// read reported it. The device state is left untouched: no key version is
/// reported on this path.
pub fn atx_validate_unlock_credential<O: Ops>(
    ops: &mut O,
    credential: &AtxUnlockCredential,
    challenge: &AtxUnlockChallenge,
) -> (r: IoResult<bool>)
    ensures
        r == credential_result(*old(ops), credential@, challenge@),
        *final(ops) == *old(ops),
{
    // Both the general and the ATX-specific callbacks are needed.
    if !ops.has_atx_ops() {
        return Result::Err(IoError::NotImplemented);
    }
    // Fetch the permanent attributes and trust them only against their
    // protected hash, exactly as for key validation.
    let mut attrs = AtxPermanentAttributes::new();
    match ops.read_permanent_attributes(&mut attrs) {
        Result::Err(e) => {
            return Result::Err(e);
        },
        Result::Ok(u) => {},
    }
    let stored_hash = match ops.read_permanent_attributes_hash() {
        Result::Err(e) => {
            return Result::Err(e);
        },
        Result::Ok(h) => h,
    };
    let serialized = permanent_attributes_bytes(&attrs);
    let digest = ops.sha256(serialized.as_slice());
    let mut hash_matches = attrs.version == ATX_VERSION;
    if hash_matches {
        hash_matches = bytes_eq(digest.as_slice(), stored_hash.as_slice());
    }
    if !hash_matches {
        return Result::Ok(false);
    }
    // Resolve the chain: PRK signs the PIK certificate, PIK signs the PUK
    // certificate.
    let mut chain_ok = credential.version == ATX_VERSION
        && credential.product_intermediate_key_certificate.version == ATX_VERSION
        && credential.product_unlock_key_certificate.version == ATX_VERSION;
    if chain_ok {
        let pik_signed = certificate_signed_data(&credential.product_intermediate_key_certificate);
        chain_ok = ops.verify_signature(
            attrs.product_root_public_key.as_slice(),
            pik_signed.as_slice(),
            credential.product_intermediate_key_certificate.signature.as_slice(),
        );
    }
    if chain_ok {
        let puk_signed = certificate_signed_data(&credential.product_unlock_key_certificate);
        chain_ok = ops.verify_signature(
            credential.product_intermediate_key_certificate.public_key.as_slice(),
            puk_signed.as_slice(),
            credential.product_unlock_key_certificate.signature.as_slice(),
        );
    }
    if !chain_ok {
        return Result::Ok(false);
    }
    // The PIK is rotateable: compare its declared version against the durable
    // store. The PUK has no rollback location.
    let pik_minimum = match ops.read_rollback_index(ATX_PIK_VERSION_LOCATION) {
        Result::Err(e) => {
            return Result::Err(e);
        },
        Result::Ok(v) => v,
    };
    let pik_fresh = credential.product_intermediate_key_certificate.key_version >= pik_minimum;
    // The credential must answer the challenge the device holds right now,
    // and that challenge must name this device's identity.
    let mut bound = challenge.version == ATX_VERSION;
    if bound {
        let expected_id_hash = ops.sha256(attrs.product_id.as_slice());
        bound = bytes_eq(challenge.product_id_hash.as_slice(), expected_id_hash.as_slice());
    }
    if bound {
        let signed = challenge_bytes(challenge);
        bound = ops.verify_signature(
            credential.product_unlock_key_certificate.public_key.as_slice(),
            signed.as_slice(),
            credential.challenge_signature.as_slice(),
        );
    }
    Result::Ok(pik_fresh && bound)
}

/// Law: a credential can only validate against the challenge the device
/// currently holds. When the PUK's signature does not cover the presented
/// challenge's bytes — as for a credential signed over an earlier challenge,
/// after a fresh one with a different random token superseded it — the check
/// runs to completion and answers `false`, never `true` and never an error.
/// That two successively drawn tokens differ is the randomness source's part
/// and stays outside the proof; this law supplies the rest.
pub proof fn lemma_superseded_challenge_rejected<A: AtxOps>(
    ops: A,
    credential: CredentialView,
    challenge: ChallengeView,
)
    requires
        ops.atx_supported(),
        ops.attrs_result() is Ok,
        ops.attrs_hash_result() is Ok,
        ops.latched_result(ATX_PIK_VERSION_LOCATION) is Ok,
        !ops.sig_ok(
            credential.product_unlock_key_certificate.public_key,
            spec_challenge_bytes(challenge),
            credential.challenge_signature,
        ),
    ensures
        credential_result(ops, credential, challenge) == Result::<bool, IoError>::Ok(false),
{
}

/// Law, round trip: a credential whose chain resolves to the same permanent
/// attributes the device holds, whose PIK is not stale, and whose PUK signed
/// the freshly generated challenge — one that names this device's identity,
/// as [`atx_generate_unlock_challenge`] produces it — validates as `true`.
pub proof fn lemma_credential_round_trip<A: AtxOps>(
    ops: A,
    credential: CredentialView,
    challenge: ChallengeView,
)
    requires
        ops.atx_supported(),
        ops.attrs_result() is Ok,
        ops.attrs_hash_result() is Ok,
        attrs_verified(ops, ops.attrs_result()->Ok_0, ops.attrs_hash_result()->Ok_0),
        credential_chain_verified(
            ops,
            ops.attrs_result()->Ok_0.product_root_public_key,
            credential,
        ),
        ops.latched_result(ATX_PIK_VERSION_LOCATION) is Ok,
        credential.product_intermediate_key_certificate.key_version >= ops.latched_result(
            ATX_PIK_VERSION_LOCATION,
        )->Ok_0,
        challenge_bound(ops, ops.attrs_result()->Ok_0, credential, challenge),
    ensures
        credential_result(ops, credential, challenge) == Result::<bool, IoError>::Ok(true),
{
}

/// Law, the other half of the round trip: the identical credential and
/// challenge replayed against a device with different permanent attributes —
/// one whose product identity hashes to something else — validate as
/// `false`, whatever else that device's state looks like.
pub proof fn lemma_foreign_device_rejected<A: AtxOps>(
    ops: A,
    credential: CredentialView,
    challenge: ChallengeView,
)
    requires
        ops.atx_supported(),
        ops.attrs_result() is Ok,
        ops.attrs_hash_result() is Ok,
        ops.latched_result(ATX_PIK_VERSION_LOCATION) is Ok,
        challenge.product_id_hash != ops.sha(ops.attrs_result()->Ok_0.product_id),
    ensures
        credential_result(ops, credential, challenge) == Result::<bool, IoError>::Ok(false),
{
}

} // verus!
