//! The key hierarchy validator: deciding whether a candidate signing key is
//! currently trusted by the device.

use vstd::prelude::*;
use vstd::slice::slice_subrange;
use crate::codec::bytes_eq;
use crate::codec::permanent_attributes_bytes;
use crate::codec::spec_permanent_attributes_bytes;
use crate::errors::IoError;
use crate::errors::IoResult;
use crate::metadata::metadata_wf;
use crate::metadata::metadata_well_formed;
use crate::metadata::pik_key_version;
use crate::metadata::pik_public_key;
use crate::metadata::pik_signature;
use crate::metadata::pik_signed_data;
use crate::metadata::psk_key_version;
use crate::metadata::psk_public_key;
use crate::metadata::psk_signature;
use crate::metadata::psk_signed_data;
use crate::ops::device_model_eq;
use crate::ops::observed_cache;
use crate::ops::AtxOps;
use crate::ops::Ops;
use crate::types::AtxPermanentAttributes;
use crate::types::PermanentAttributesView;
use crate::types::ATX_PIK_VERSION_LOCATION;
use crate::types::ATX_PSK_VERSION_LOCATION;
use crate::types::ATX_VERSION;

verus! {

/// Whether the permanent attributes the device handed out are to be trusted:
/// they carry the format version this library understands, and the protected
/// hash read from secure storage equals the hash of their serialization.
pub open spec fn attrs_verified<A: AtxOps>(
    ops: A,
    attrs: PermanentAttributesView,
    stored_hash: Seq<u8>,
) -> bool {
    &&& attrs.version == ATX_VERSION
    &&& stored_hash == ops.sha(spec_permanent_attributes_bytes(attrs))
}

/// Whether the candidate public key's chain resolves to the given root key:
/// the metadata is well formed, the PRK signed the PIK certificate, the PIK
/// signed the PSK certificate, and the candidate key is exactly the PSK the
/// chain certifies.
pub open spec fn chain_verified<A: AtxOps>(
    ops: A,
    root_key: Seq<u8>,
    public_key: Seq<u8>,
    metadata: Seq<u8>,
) -> bool {
    &&& metadata_wf(metadata)
    &&& ops.sig_ok(root_key, pik_signed_data(metadata), pik_signature(metadata))
    &&& ops.sig_ok(pik_public_key(metadata), psk_signed_data(metadata), psk_signature(metadata))
    &&& public_key == psk_public_key(metadata)
}

/// Whether both rotateable keys declare versions at least as large as the
/// versions latched in their reserved rollback locations. Each stage is
/// checked independently: a fresh PIK does not excuse a stale PSK.
pub open spec fn versions_fresh(metadata: Seq<u8>, pik_minimum: u64, psk_minimum: u64) -> bool {
    &&& pik_key_version(metadata) >= pik_minimum
    &&& psk_key_version(metadata) >= psk_minimum
}

/// What validating a candidate key returns, read off the device state the
/// validation starts from.
///
/// Errors are kept apart from rejections: a missing capability or a failed
/// collaborator read stops the operation with an error, while a broken chain
/// or a stale key version is the definite answer `false`. The freshness
/// comparison reads the durable rollback store (`latched_result`), never the
/// in-memory cache.
pub open spec fn validate_result<A: AtxOps>(
    ops: A,
    public_key: Seq<u8>,
    metadata: Seq<u8>,
) -> Result<bool, IoError> {
    if !ops.atx_supported() {
        Result::Err(IoError::NotImplemented)
    } else {
        match ops.attrs_result() {
            Result::Err(e) => Result::Err(e),
            Result::Ok(attrs) => match ops.attrs_hash_result() {
                Result::Err(e) => Result::Err(e),
                Result::Ok(stored_hash) => if !attrs_verified(ops, attrs, stored_hash) {
                    Result::Ok(false)
                } else if !chain_verified(
                    ops,
                    attrs.product_root_public_key,
                    public_key,
                    metadata,
                ) {
                    Result::Ok(false)
                } else {
                    match ops.latched_result(ATX_PIK_VERSION_LOCATION) {
                        Result::Err(e) => Result::Err(e),
                        Result::Ok(pik_minimum) => match ops.latched_result(
                            ATX_PSK_VERSION_LOCATION,
                        ) {
                            Result::Err(e) => Result::Err(e),
                            Result::Ok(psk_minimum) => Result::Ok(
                                versions_fresh(metadata, pik_minimum, psk_minimum),
                            ),
                        },
                    }
                },
            },
        }
    }
}

/// Whether a validation run gets as far as reporting the observed key
/// versions: everything up to and including the chain checks and the durable
/// rollback reads succeeded. The freshness comparison itself comes after the
/// reports and cannot stop them.
pub open spec fn reports_reached<A: AtxOps>(ops: A, public_key: Seq<u8>, metadata: Seq<u8>) -> bool {
    &&& ops.atx_supported()
    &&& ops.attrs_result() is Ok
    &&& ops.attrs_hash_result() is Ok
    &&& attrs_verified(ops, ops.attrs_result()->Ok_0, ops.attrs_hash_result()->Ok_0)
    &&& chain_verified(
        ops,
        ops.attrs_result()->Ok_0.product_root_public_key,
        public_key,
        metadata,
    )
    &&& ops.latched_result(ATX_PIK_VERSION_LOCATION) is Ok
    &&& ops.latched_result(ATX_PSK_VERSION_LOCATION) is Ok
}

/// The in-memory key version cache after one validation run: when the run
/// reached the reports, the PIK and PSK locations have observed the declared
/// versions; otherwise the cache is untouched.
pub open spec fn cache_after_validate<A: AtxOps>(
    ops: A,
    public_key: Seq<u8>,
    metadata: Seq<u8>,
) -> Map<usize, u64> {
    if reports_reached(ops, public_key, metadata) {
        observed_cache(
            observed_cache(
                ops.key_version_cache(),
                ATX_PIK_VERSION_LOCATION,
                pik_key_version(metadata),
            ),
            ATX_PSK_VERSION_LOCATION,
            psk_key_version(metadata),
        )
    } else {
        ops.key_version_cache()
    }
}

/// The candidate metadata as bytes: an absent blob is the same empty — but
/// never skipped — buffer as a present empty one.
pub open spec fn metadata_view(metadata: Option<&[u8]>) -> Seq<u8> {
    match metadata {
        Option::Some(md) => md@,
        Option::None => Seq::<u8>::empty(),
    }
}

/// Validates a candidate vbmeta signing key against the device's permanent
/// attributes and rollback state.
///
/// Returns `Ok(true)` when the key's whole chain resolves to the recorded
/// product root key and no rotateable key is stale, `Ok(false)` when the
/// check ran to completion and rejected, `Err(IoError::NotImplemented)` when
/// the device does not supply the callbacks, and any other error exactly as
/// the failing collaborator read reported it.
///
/// Along the way the declared PIK and PSK versions are reported to the
/// caller's in-memory cache; the freshness comparison itself reads only the
/// durable store.
pub fn atx_validate_vbmeta_public_key<O: Ops>(
    ops: &mut O,
    public_key: &[u8],
    public_key_metadata: Option<&[u8]>,
) -> (r: IoResult<bool>)
    ensures
        r == validate_result(*old(ops), public_key@, metadata_view(public_key_metadata)),
        device_model_eq(*final(ops), *old(ops)),
        final(ops).key_version_cache() == cache_after_validate(
            *old(ops),
            public_key@,
            metadata_view(public_key_metadata),
        ),
{
    match public_key_metadata {
        Option::Some(md) => validate_key(ops, public_key, md),
        Option::None => {
            let empty: Vec<u8> = Vec::new();
            let r = validate_key(ops, public_key, empty.as_slice());
            proof {
                assert(empty@ =~= metadata_view(public_key_metadata));
            }
            r
        },
    }
}

/// The validation itself, on the metadata as a plain byte string.
fn validate_key<O: Ops>(ops: &mut O, public_key: &[u8], metadata: &[u8]) -> (r: IoResult<bool>)
    ensures
        r == validate_result(*old(ops), public_key@, metadata@),
        device_model_eq(*final(ops), *old(ops)),
        final(ops).key_version_cache() == cache_after_validate(*old(ops), public_key@, metadata@),
{
    // Both the general and the ATX-specific callbacks are needed.
    if !ops.has_atx_ops() {
        return Result::Err(IoError::NotImplemented);
    }
    // Fetch the permanent attributes; a failure here is an I/O error, not a
    // verdict about the key.
    let mut attrs = AtxPermanentAttributes::new();
    match ops.read_permanent_attributes(&mut attrs) {
        Result::Err(e) => {
            return Result::Err(e);
        },
        Result::Ok(u) => {},
    }
    let stored_hash = match ops.read_permanent_attributes_hash() {
        Result::Err(e) => {
            return Result::Err(e);
        },
        Result::Ok(h) => h,
    };
    // Trust the attribute blob only if its hash equals the protected hash.
    let serialized = permanent_attributes_bytes(&attrs);
    let digest = ops.sha256(serialized.as_slice());
    let mut hash_matches = attrs.version == ATX_VERSION;
    if hash_matches {
        hash_matches = bytes_eq(digest.as_slice(), stored_hash.as_slice());
    }
    if !hash_matches {
        return Result::Ok(false);
    }
    // Verify the chain embedded in the metadata: PRK signs PIK, PIK signs
    // PSK, and the candidate key is the certified PSK.
    if !metadata_well_formed(metadata) {
        return Result::Ok(false);
    }
    let pik_signed = slice_subrange(metadata, 4, 1080);
    let pik_sig = slice_subrange(metadata, 1080, 1592);
    if !ops.verify_signature(attrs.product_root_public_key.as_slice(), pik_signed, pik_sig) {
        return Result::Ok(false);
    }
    let pik_pub = slice_subrange(metadata, 8, 1040);
    let psk_signed = slice_subrange(metadata, 1592, 2668);
    let psk_sig = slice_subrange(metadata, 2668, 3180);
    if !ops.verify_signature(pik_pub, psk_signed, psk_sig) {
        return Result::Ok(false);
    }
    let psk_pub = slice_subrange(metadata, 1596, 2628);
    if !bytes_eq(public_key, psk_pub) {
        return Result::Ok(false);
    }
    // Read the latched versions from the durable store before anything is
    // reported, so the fresh observations cannot short-circuit the
    // comparison.
    let declared_pik_version = vstd::bytes::u64_from_le_bytes(slice_subrange(metadata, 1072, 1080));
    let declared_psk_version = vstd::bytes::u64_from_le_bytes(slice_subrange(metadata, 2660, 2668));
    let pik_minimum = match ops.read_rollback_index(ATX_PIK_VERSION_LOCATION) {
        Result::Err(e) => {
            return Result::Err(e);
        },
        Result::Ok(v) => v,
    };
    let psk_minimum = match ops.read_rollback_index(ATX_PSK_VERSION_LOCATION) {
        Result::Err(e) => {
            return Result::Err(e);
        },
        Result::Ok(v) => v,
    };
    // Report the observed versions: a notification into caller state, not a
    // gate.
    ops.set_key_version(ATX_PIK_VERSION_LOCATION, declared_pik_version);
    ops.set_key_version(ATX_PSK_VERSION_LOCATION, declared_psk_version);
    // Reject a stale stage even when the other one is fresh.
    Result::Ok(declared_pik_version >= pik_minimum && declared_psk_version >= psk_minimum)
}

/// Law: every key whose full chain resolves to the recorded product root key
/// and whose rotateable stages are at least as fresh as the latched rollback
/// versions is accepted — validation returns `Ok(true)`, never a spurious
/// rejection or error.
pub proof fn lemma_full_chain_accepted<A: AtxOps>(ops: A, public_key: Seq<u8>, metadata: Seq<u8>)
    requires
        ops.atx_supported(),
        ops.attrs_result() is Ok,
        ops.attrs_hash_result() is Ok,
        attrs_verified(ops, ops.attrs_result()->Ok_0, ops.attrs_hash_result()->Ok_0),
        chain_verified(
            ops,
            ops.attrs_result()->Ok_0.product_root_public_key,
            public_key,
            metadata,
        ),
        ops.latched_result(ATX_PIK_VERSION_LOCATION) is Ok,
        ops.latched_result(ATX_PSK_VERSION_LOCATION) is Ok,
        versions_fresh(
            metadata,
            ops.latched_result(ATX_PIK_VERSION_LOCATION)->Ok_0,
            ops.latched_result(ATX_PSK_VERSION_LOCATION)->Ok_0,
        ),
    ensures
        validate_result(ops, public_key, metadata) == Result::<bool, IoError>::Ok(true),
{
}

/// Law: a stale PSK rejects the whole key even when the PIK stage is fine —
/// each rotateable stage is checked independently, and the outcome is the
/// definite answer `false`, not an error.
pub proof fn lemma_stale_psk_rejected<A: AtxOps>(ops: A, public_key: Seq<u8>, metadata: Seq<u8>)
    requires
        ops.atx_supported(),
        ops.attrs_result() is Ok,
        ops.attrs_hash_result() is Ok,
        attrs_verified(ops, ops.attrs_result()->Ok_0, ops.attrs_hash_result()->Ok_0),
        chain_verified(
            ops,
            ops.attrs_result()->Ok_0.product_root_public_key,
            public_key,
            metadata,
        ),
        ops.latched_result(ATX_PIK_VERSION_LOCATION) is Ok,
        ops.latched_result(ATX_PSK_VERSION_LOCATION) is Ok,
        psk_key_version(metadata) < ops.latched_result(ATX_PSK_VERSION_LOCATION)->Ok_0,
    ensures
        validate_result(ops, public_key, metadata) == Result::<bool, IoError>::Ok(false),
{
}

/// Law: without the attribute-reading capability, validation stops with the
/// `NotImplemented` error — it never answers `true` or `false`, because it
/// must never decide without the root of trust.
pub proof fn lemma_missing_capability_not_implemented<A: AtxOps>(
    ops: A,
    public_key: Seq<u8>,
    metadata: Seq<u8>,
)
    requires
        !ops.atx_supported(),
    ensures
        validate_result(ops, public_key, metadata) == Result::<bool, IoError>::Err(
            IoError::NotImplemented,
        ),
{
}

/// Law: the trust decision defers entirely to the durable rollback store.
/// Two device states that agree on everything but the in-memory key version
/// cache — in particular, a state before and after any number of version
/// observations — validate every key identically.
pub proof fn lemma_decision_ignores_cache<A: AtxOps>(
    a: A,
    b: A,
    public_key: Seq<u8>,
    metadata: Seq<u8>,
)
    requires
        device_model_eq(a, b),
    ensures
        validate_result(a, public_key, metadata) == validate_result(b, public_key, metadata),
{
    match a.attrs_result() {
        Result::Err(e) => {},
        Result::Ok(attrs) => {
            assert(a.sha(spec_permanent_attributes_bytes(attrs)) == b.sha(
                spec_permanent_attributes_bytes(attrs),
            ));
            assert(a.sig_ok(
                attrs.product_root_public_key,
                pik_signed_data(metadata),
                pik_signature(metadata),
            ) == b.sig_ok(
                attrs.product_root_public_key,
                pik_signed_data(metadata),
                pik_signature(metadata),
            ));
            assert(a.sig_ok(
                pik_public_key(metadata),
                psk_signed_data(metadata),
                psk_signature(metadata),
            ) == b.sig_ok(
                pik_public_key(metadata),
                psk_signed_data(metadata),
                psk_signature(metadata),
            ));
            assert(a.latched_result(ATX_PIK_VERSION_LOCATION) == b.latched_result(
                ATX_PIK_VERSION_LOCATION,
            ));
            assert(a.latched_result(ATX_PSK_VERSION_LOCATION) == b.latched_result(
                ATX_PSK_VERSION_LOCATION,
            ));
        },
    }
}

/// Law: tampering with a chain signature flips acceptance into the definite
/// answer `false`, never into an error. `tampered` differs from `metadata`
/// in a single byte inside one of the two signature fields; that the
/// verification primitive then rejects the altered signature is the
/// cryptographic assumption, stated as the last premise.
pub proof fn lemma_tampered_signature_rejected<A: AtxOps>(
    ops: A,
    public_key: Seq<u8>,
    metadata: Seq<u8>,
    tampered: Seq<u8>,
    i: int,
)
    requires
        validate_result(ops, public_key, metadata) == Result::<bool, IoError>::Ok(true),
        tampered.len() == metadata.len(),
        0 <= i < metadata.len(),
        forall|j: int| 0 <= j < metadata.len() && j != i ==> tampered[j] == metadata[j],
        tampered[i] != metadata[i],
        (1080 <= i < 1592 && !ops.sig_ok(
            ops.attrs_result()->Ok_0.product_root_public_key,
            pik_signed_data(tampered),
            pik_signature(tampered),
        )) || (2668 <= i < 3180 && !ops.sig_ok(
            pik_public_key(tampered),
            psk_signed_data(tampered),
            psk_signature(tampered),
        )),
    ensures
        validate_result(ops, public_key, tampered) == Result::<bool, IoError>::Ok(false),
{
    let attrs = ops.attrs_result()->Ok_0;
    assert(ops.atx_supported());
    assert(ops.attrs_result() is Ok);
    assert(ops.attrs_hash_result() is Ok);
    assert(attrs_verified(ops, attrs, ops.attrs_hash_result()->Ok_0));
    assert(!chain_verified(ops, attrs.product_root_public_key, public_key, tampered));
}

} // verus!
