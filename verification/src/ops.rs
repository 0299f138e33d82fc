//! The collaborator contracts: the device callbacks the validator and the
//! unlock engine are given, and the model of the device they are specified
//! against.

use vstd::prelude::*;
use crate::errors::IoError;
use crate::errors::IoResult;
use crate::types::AtxPermanentAttributes;
use crate::types::PermanentAttributesView;
use crate::types::SHA256_DIGEST_SIZE;

verus! {

/// The device callbacks this library validates keys and credentials with.
///
/// The spec functions model the device as the contracts see it:
///
/// * `atx_supported` says whether the device offers these callbacks at all;
///   when it does not, every operation that needs them stops with
///   [`IoError::NotImplemented`] rather than silently approving or denying.
/// * `attrs_result` and `attrs_hash_result` are what reading the permanent
///   attributes, respectively their protected hash, yields.
/// * `latched_result` is the version a rollback index location currently
///   holds in the durable store.
/// * `key_version_cache` is the in-memory record of key versions observed
///   through [`AtxOps::set_key_version`]; it is caller state, kept apart from
///   the durable store, and never consulted by the comparisons this library
///   makes.
/// * `random_result` says whether the random-byte provider works; the bytes
///   it yields are promised nothing.
/// * `sig_ok` is the device's signature-verification primitive as a
///   predicate, and `sha` its hash primitive; both are capabilities this
///   library consumes, not implementations it owns.
///
/// An implementation is the caller's: this library only relies on the
/// contracts below, which say that reads leave the device unchanged and that
/// the two writes touch nothing but what they are for.
pub trait AtxOps: Sized {
    /// Whether the device supplies these callbacks.
    spec fn atx_supported(&self) -> bool;

    /// What reading the permanent attributes yields.
    spec fn attrs_result(&self) -> Result<PermanentAttributesView, IoError>;

    /// What reading the protected hash of the permanent attributes yields.
    spec fn attrs_hash_result(&self) -> Result<Seq<u8>, IoError>;

    /// The versions latched in the durable rollback index store.
    spec fn latched_result(&self, location: usize) -> Result<u64, IoError>;

    /// The in-memory cache of key versions observed so far.
    spec fn key_version_cache(&self) -> Map<usize, u64>;

    /// Whether the random-byte provider works.
    spec fn random_result(&self) -> Result<(), IoError>;

    /// The signature-verification primitive: whether `signature` is a valid
    /// signature by the key `key` over `data`.
    spec fn sig_ok(&self, key: Seq<u8>, data: Seq<u8>, signature: Seq<u8>) -> bool;

    /// The hash primitive: the digest of `data`.
    spec fn sha(&self, data: Seq<u8>) -> Seq<u8>;

    /// Reads the device's permanent attributes into `attributes`.
    ///
    /// The full permanent attributes are not required to be securely stored;
    /// corruption of this data makes verification fail, but cannot change the
    /// signing keys or let improperly signed images pass: the blob is checked
    /// against its protected hash before it is trusted.
    fn read_permanent_attributes(&mut self, attributes: &mut AtxPermanentAttributes) -> (r:
        IoResult<()>)
        ensures
            *final(self) == *old(self),
            match old(self).attrs_result() {
                Result::Ok(a) => r == Result::<(), IoError>::Ok(()) && final(attributes)@ == a,
                Result::Err(e) => r == Result::<(), IoError>::Err(e),
            },
    ;

    /// Reads the SHA-256 hash of the device's permanent attributes.
    ///
    /// This hash must come from secure storage whenever the device is locked:
    /// it is what protects the attribute blob's integrity.
    fn read_permanent_attributes_hash(&mut self) -> (r: IoResult<[u8; SHA256_DIGEST_SIZE]>)
        ensures
            *final(self) == *old(self),
            match old(self).attrs_hash_result() {
                Result::Ok(h) => r matches Result::Ok(d) && d@ == h,
                Result::Err(e) => r == Result::<[u8; SHA256_DIGEST_SIZE], IoError>::Err(e),
            },
    ;

    /// Reports that the key at the given rollback index location declares the
    /// given version.
    ///
    /// This is a notification, not a gate, and cannot fail: the value is only
    /// cached here, and written to the durable rollback storage by the caller
    /// once the consuming image is known to be good — a device with A/B slots
    /// must not latch a new key version before the new image has proven
    /// itself, or it could no longer fall back. The cache records the maximum
    /// version observed per location, so a later, smaller observation never
    /// regresses it; the durable store, which the freshness comparisons read,
    /// is not touched at all.
    fn set_key_version(&mut self, rollback_index_location: usize, key_version: u64)
        ensures
            final(self).atx_supported() == old(self).atx_supported(),
            final(self).attrs_result() == old(self).attrs_result(),
            final(self).attrs_hash_result() == old(self).attrs_hash_result(),
            final(self).random_result() == old(self).random_result(),
            forall|location: usize| #[trigger]
                final(self).latched_result(location) == old(self).latched_result(location),
            forall|key: Seq<u8>, data: Seq<u8>, signature: Seq<u8>| #[trigger]
                final(self).sig_ok(key, data, signature) == old(self).sig_ok(
                    key,
                    data,
                    signature,
                ),
            forall|data: Seq<u8>| #[trigger] final(self).sha(data) == old(self).sha(data),
            final(self).key_version_cache() == observed_cache(
                old(self).key_version_cache(),
                rollback_index_location,
                key_version,
            ),
    ;

    /// Fills `bytes` completely with cryptographically random bytes.
    ///
    /// This is only used for authenticated unlock. A device that does not
    /// support it fails with [`IoError::NotImplemented`]; nothing at all is
    /// promised about the bytes a successful call produces.
    fn get_random(&mut self, bytes: &mut Vec<u8>) -> (r: IoResult<()>)
        ensures
            final(self).atx_supported() == old(self).atx_supported(),
            final(self).attrs_result() == old(self).attrs_result(),
            final(self).attrs_hash_result() == old(self).attrs_hash_result(),
            final(self).random_result() == old(self).random_result(),
            forall|location: usize| #[trigger]
                final(self).latched_result(location) == old(self).latched_result(location),
            forall|key: Seq<u8>, data: Seq<u8>, signature: Seq<u8>| #[trigger]
                final(self).sig_ok(key, data, signature) == old(self).sig_ok(
                    key,
                    data,
                    signature,
                ),
            forall|data: Seq<u8>| #[trigger] final(self).sha(data) == old(self).sha(data),
            final(self).key_version_cache() == old(self).key_version_cache(),
            final(bytes)@.len() == old(bytes)@.len(),
            match old(self).random_result() {
                Result::Ok(u) => r == Result::<(), IoError>::Ok(()),
                Result::Err(e) => r == Result::<(), IoError>::Err(e),
            },
    ;
}

/// The general device capability: it optionally supplies the [`AtxOps`]
/// callbacks, reads the durable rollback index store, and supplies the
/// signature and hash primitives the chain checks are delegated to.
pub trait Ops: AtxOps {
    /// Whether the device supplies the [`AtxOps`] callbacks. When it does
    /// not, the operations that need them stop with
    /// [`IoError::NotImplemented`].
    fn has_atx_ops(&self) -> (r: bool)
        ensures
            r == self.atx_supported(),
    ;

    /// Reads the version currently latched at a rollback index location, from
    /// the durable store — never from the in-memory cache that
    /// [`AtxOps::set_key_version`] writes.
    fn read_rollback_index(&mut self, location: usize) -> (r: IoResult<u64>)
        ensures
            *final(self) == *old(self),
            r == old(self).latched_result(location),
    ;

    /// Decides whether `signature` is a valid signature by the key `key` over
    /// `data`, with the device's signature-verification primitive.
    fn verify_signature(&self, key: &[u8], data: &[u8], signature: &[u8]) -> (r: bool)
        ensures
            r == self.sig_ok(key@, data@, signature@),
    ;

    /// Computes the SHA-256 digest of `data` with the device's hash
    /// primitive.
    fn sha256(&self, data: &[u8]) -> (r: Vec<u8>)
        ensures
            r@ == self.sha(data@),
            r@.len() == SHA256_DIGEST_SIZE,
    ;
}

/// Whether two device states agree on everything but the in-memory key
/// version cache: same capabilities, same permanent attributes and protected
/// hash, same durable rollback store, same randomness availability, same
/// signature and hash primitives.
///
/// The two operations that change a device — observing a key version and
/// drawing random bytes — promise to preserve this, which is what lets every
/// trust decision be read off the state the operation started from.
pub open spec fn device_model_eq<A: AtxOps>(a: A, b: A) -> bool {
    &&& a.atx_supported() == b.atx_supported()
    &&& a.attrs_result() == b.attrs_result()
    &&& a.attrs_hash_result() == b.attrs_hash_result()
    &&& a.random_result() == b.random_result()
    &&& forall|location: usize| #[trigger] a.latched_result(location) == b.latched_result(location)
    &&& forall|key: Seq<u8>, data: Seq<u8>, signature: Seq<u8>| #[trigger] a.sig_ok(
        key,
        data,
        signature,
    ) == b.sig_ok(key, data, signature)
    &&& forall|data: Seq<u8>| #[trigger] a.sha(data) == b.sha(data)
}

/// The key version cache after one observation: the location records the
/// maximum of what it held and the newly observed version, and no other
/// location changes.
pub open spec fn observed_cache(cache: Map<usize, u64>, location: usize, version: u64) -> Map<
    usize,
    u64,
> {
    cache.insert(
        location,
        if cache.dom().contains(location) && cache[location] >= version {
            cache[location]
        } else {
            version
        },
    )
}

/// Law: the in-memory cache never regresses. Once a location has recorded a
/// version, observing any further version — in particular a strictly smaller
/// one — leaves the record at least as large.
pub proof fn lemma_observed_cache_never_regresses(
    cache: Map<usize, u64>,
    location: usize,
    version: u64,
)
    requires
        cache.dom().contains(location),
    ensures
        observed_cache(cache, location, version)[location] >= cache[location],
        observed_cache(cache, location, version).dom().contains(location),
{
}

/// Law: within one validator lifetime, observing version `v_high` and then
/// any `v_low <= v_high` — such as `v_high - 1` — for the same location
/// leaves the cache at `v_high`: it records only the maximum observed.
pub proof fn lemma_observed_cache_keeps_maximum(
    cache: Map<usize, u64>,
    location: usize,
    v_high: u64,
    v_low: u64,
)
    requires
        v_low <= v_high,
    ensures
        observed_cache(observed_cache(cache, location, v_high), location, v_low)[location]
            >= v_high,
{
}

} // verus!
