//! Fixed-layout serializations: the byte strings that signatures and the
//! attributes hash are taken over, with the helpers that build and compare
//! them.

use vstd::prelude::*;
use vstd::bytes::spec_u32_to_le_bytes;
use vstd::bytes::spec_u64_to_le_bytes;
use vstd::bytes::u32_to_le_bytes;
use vstd::bytes::u64_to_le_bytes;
use vstd::slice::slice_index_get;
use crate::types::AtxCertificate;
use crate::types::AtxPermanentAttributes;
use crate::types::AtxUnlockChallenge;
use crate::types::CertificateView;
use crate::types::ChallengeView;
use crate::types::PermanentAttributesView;

verus! {

/// Appends every byte of `bytes` to `out`, in order.
pub fn append_bytes(out: &mut Vec<u8>, bytes: &[u8])
    ensures
        final(out)@ == old(out)@ + bytes@,
{
    let n = bytes.len();
    let mut i: usize = 0;
    while i < n
        invariant
            i <= n,
            n == bytes@.len(),
            out@ == old(out)@ + bytes@.subrange(0, i as int),
        decreases n - i,
    {
        out.push(*slice_index_get(bytes, i));
        i = i + 1;
    }
    proof {
        assert(bytes@.subrange(0, n as int) =~= bytes@);
    }
}

/// Compares two byte strings for equality, byte by byte.
pub fn bytes_eq(a: &[u8], b: &[u8]) -> (r: bool)
    ensures
        r == (a@ == b@),
{
    if a.len() != b.len() {
        return false;
    }
    let n = a.len();
    let mut i: usize = 0;
    while i < n
        invariant
            i <= n,
            n == a@.len(),
            n == b@.len(),
            forall|j: int| 0 <= j < i ==> a@[j] == b@[j],
        decreases n - i,
    {
        if *slice_index_get(a, i) != *slice_index_get(b, i) {
            return false;
        }
        i = i + 1;
    }
    proof {
        assert(a@ =~= b@);
    }
    true
}

/// The fixed-layout serialization of the permanent attributes, over which
/// their protected hash is taken: the format version in little-endian order,
/// then the product root key material, then the product identifier.
pub open spec fn spec_permanent_attributes_bytes(a: PermanentAttributesView) -> Seq<u8> {
    spec_u32_to_le_bytes(a.version) + a.product_root_public_key + a.product_id
}

/// Serializes the permanent attributes into their fixed layout.
pub fn permanent_attributes_bytes(attrs: &AtxPermanentAttributes) -> (r: Vec<u8>)
    ensures
        r@ == spec_permanent_attributes_bytes(attrs@),
{
    let mut out = u32_to_le_bytes(attrs.version);
    append_bytes(&mut out, attrs.product_root_public_key.as_slice());
    append_bytes(&mut out, attrs.product_id.as_slice());
    out
}

/// The fixed-layout serialization of the signed fields of a certificate: the
/// certificate format version and the key version in little-endian order, the
/// public key material and the usage digest in between. The issuer's
/// signature is taken over exactly these bytes.
pub open spec fn spec_certificate_signed_data(c: CertificateView) -> Seq<u8> {
    spec_u32_to_le_bytes(c.version) + c.public_key + c.usage + spec_u64_to_le_bytes(c.key_version)
}

/// Serializes the signed fields of a certificate into their fixed layout.
pub fn certificate_signed_data(cert: &AtxCertificate) -> (r: Vec<u8>)
    ensures
        r@ == spec_certificate_signed_data(cert@),
{
    let mut out = u32_to_le_bytes(cert.version);
    append_bytes(&mut out, cert.public_key.as_slice());
    append_bytes(&mut out, cert.usage.as_slice());
    let key_version = u64_to_le_bytes(cert.key_version);
    append_bytes(&mut out, key_version.as_slice());
    out
}

/// The fixed-layout serialization of an unlock challenge: the format version
/// in little-endian order, the product identifier hash, then the random
/// token. An unlock credential's challenge signature is taken over exactly
/// these bytes.
pub open spec fn spec_challenge_bytes(c: ChallengeView) -> Seq<u8> {
    spec_u32_to_le_bytes(c.version) + c.product_id_hash + c.challenge
}

/// Serializes an unlock challenge into its fixed layout.
pub fn challenge_bytes(challenge: &AtxUnlockChallenge) -> (r: Vec<u8>)
    ensures
        r@ == spec_challenge_bytes(challenge@),
{
    let mut out = u32_to_le_bytes(challenge.version);
    append_bytes(&mut out, challenge.product_id_hash.as_slice());
    append_bytes(&mut out, challenge.challenge.as_slice());
    out
}

} // verus!
