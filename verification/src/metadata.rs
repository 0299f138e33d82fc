//! The layout of the public key metadata blob: the PIK and PSK
//! certificates, each a fixed-size signed region followed by its signature.

use vstd::prelude::*;
use vstd::bytes::spec_u32_from_le_bytes;
use vstd::bytes::spec_u64_from_le_bytes;
use vstd::bytes::u32_from_le_bytes;
use vstd::slice::slice_subrange;
use crate::types::ATX_VERSION;

verus! {

/// Size in bytes of the signed fields of a certificate inside the public key
/// metadata: format version (4), public key material (1032), usage digest
/// (32), key version (8).
pub const CERTIFICATE_SIGNED_DATA_SIZE: usize = 1076;

/// Size in bytes of one certificate inside the public key metadata: the
/// signed fields followed by the issuer's signature (512).
pub const CERTIFICATE_SIZE: usize = 1588;

/// Size in bytes of the public key metadata: its format version (4), the PIK
/// certificate, then the PSK certificate.
pub const ATX_PUBLIC_KEY_METADATA_SIZE: usize = 3180;

/// Whether a byte string is a well-formed public key metadata blob: exactly
/// the fixed size, with the format version this library understands stamped
/// on the blob and on both embedded certificates.
pub open spec fn metadata_wf(md: Seq<u8>) -> bool {
    &&& md.len() == ATX_PUBLIC_KEY_METADATA_SIZE
    &&& spec_u32_from_le_bytes(md.subrange(0, 4)) == ATX_VERSION
    &&& spec_u32_from_le_bytes(md.subrange(4, 8)) == ATX_VERSION
    &&& spec_u32_from_le_bytes(md.subrange(1592, 1596)) == ATX_VERSION
}

/// The signed fields of the PIK certificate, as raw bytes. The PRK's
/// signature is checked over exactly these bytes.
pub open spec fn pik_signed_data(md: Seq<u8>) -> Seq<u8> {
    md.subrange(4, 1080)
}

/// The PRK's signature over the PIK certificate.
pub open spec fn pik_signature(md: Seq<u8>) -> Seq<u8> {
    md.subrange(1080, 1592)
}

/// The PIK's public key material, as declared by its certificate.
pub open spec fn pik_public_key(md: Seq<u8>) -> Seq<u8> {
    md.subrange(8, 1040)
}

/// The PIK's declared key version, compared against the PIK rollback
/// location.
pub open spec fn pik_key_version(md: Seq<u8>) -> u64 {
    spec_u64_from_le_bytes(md.subrange(1072, 1080))
}

/// The signed fields of the PSK certificate, as raw bytes. The PIK's
/// signature is checked over exactly these bytes.
pub open spec fn psk_signed_data(md: Seq<u8>) -> Seq<u8> {
    md.subrange(1592, 2668)
}

/// The PIK's signature over the PSK certificate.
pub open spec fn psk_signature(md: Seq<u8>) -> Seq<u8> {
    md.subrange(2668, 3180)
}

/// The PSK's public key material, as declared by its certificate. A candidate
/// vbmeta key is trusted only if it equals these bytes.
pub open spec fn psk_public_key(md: Seq<u8>) -> Seq<u8> {
    md.subrange(1596, 2628)
}

/// The PSK's declared key version, compared against the PSK rollback
/// location.
pub open spec fn psk_key_version(md: Seq<u8>) -> u64 {
    spec_u64_from_le_bytes(md.subrange(2660, 2668))
}

/// Decides [`metadata_wf`] on a metadata blob.
pub fn metadata_well_formed(md: &[u8]) -> (r: bool)
    ensures
        r == metadata_wf(md@),
{
    if md.len() != ATX_PUBLIC_KEY_METADATA_SIZE {
        return false;
    }
    let blob_version = u32_from_le_bytes(slice_subrange(md, 0, 4));
    let pik_version = u32_from_le_bytes(slice_subrange(md, 4, 8));
    let psk_version = u32_from_le_bytes(slice_subrange(md, 1592, 1596));
    blob_version == ATX_VERSION && pik_version == ATX_VERSION && psk_version == ATX_VERSION
}

} // verus!
