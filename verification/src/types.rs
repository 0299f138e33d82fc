//! The fixed-size data structures of the trust model and their mathematical
//! views.

use vstd::prelude::*;

verus! {

/// Size in bytes of a SHA-256 digest.
pub const SHA256_DIGEST_SIZE: usize = 32;

/// Size in bytes of the raw public key material of one key in the hierarchy.
pub const ATX_PUBLIC_KEY_SIZE: usize = 1032;

/// Size in bytes of the product identifier held in the permanent attributes.
pub const ATX_PRODUCT_ID_SIZE: usize = 16;

/// Size in bytes of a signature in the chain of trust.
pub const ATX_SIGNATURE_SIZE: usize = 512;

/// Size in bytes of the random token inside an unlock challenge.
pub const ATX_UNLOCK_CHALLENGE_SIZE: usize = 16;

/// Format version stamped on every fixed-layout structure this library reads.
pub const ATX_VERSION: u32 = 1;

/// Product intermediate key (PIK) rollback index location.
///
/// This slot is reserved for the PIK: no unrelated rollback consumer may use
/// it.
pub const ATX_PIK_VERSION_LOCATION: usize = 0x1000;

/// Product signing key (PSK) rollback index location.
///
/// This slot is reserved for the PSK: no unrelated rollback consumer may use
/// it.
pub const ATX_PSK_VERSION_LOCATION: usize = 0x1001;

/// The device's permanent attributes: the immutable root-of-trust blob that
/// binds the device to one product root key.
///
/// The attributes are provisioned once at manufacture and read on every
/// validation. They need not be tamper-proof in full; only their hash must be
/// integrity-protected, and [`crate::validate`] checks the blob against that
/// hash before trusting it.
#[derive(Clone, Debug, PartialEq, Eq)]
pub struct AtxPermanentAttributes {
    /// Format version of the attribute blob; this library understands
    /// [`ATX_VERSION`].
    pub version: u32,
    /// Raw public key material of the product root key (PRK),
    /// [`ATX_PUBLIC_KEY_SIZE`] bytes.
    pub product_root_public_key: Vec<u8>,
    /// Identifier of the product, [`ATX_PRODUCT_ID_SIZE`] bytes.
    pub product_id: Vec<u8>,
}

/// The mathematical value of [`AtxPermanentAttributes`].
pub struct PermanentAttributesView {
    pub version: u32,
    pub product_root_public_key: Seq<u8>,
    pub product_id: Seq<u8>,
}

impl View for AtxPermanentAttributes {
    type V = PermanentAttributesView;

    open spec fn view(&self) -> PermanentAttributesView {
        PermanentAttributesView {
            version: self.version,
            product_root_public_key: self.product_root_public_key@,
            product_id: self.product_id@,
        }
    }
}

impl AtxPermanentAttributes {
    /// An all-empty value, handed to the attribute reader to fill.
    pub fn new() -> (r: Self)
        ensures
            r@ == (PermanentAttributesView {
                version: 0u32,
                product_root_public_key: Seq::<u8>::empty(),
                product_id: Seq::<u8>::empty(),
            }),
    {
        AtxPermanentAttributes {
            version: 0,
            product_root_public_key: Vec::new(),
            product_id: Vec::new(),
        }
    }
}

/// One certificate of the key hierarchy: the fields the issuer signed, plus
/// the issuer's signature over their fixed-layout serialization
/// ([`crate::codec::spec_certificate_signed_data`]).
#[derive(Clone, Debug, PartialEq, Eq)]
pub struct AtxCertificate {
    /// Format version of the certificate; this library understands
    /// [`ATX_VERSION`].
    pub version: u32,
    /// Raw public key material of the certified key, [`ATX_PUBLIC_KEY_SIZE`]
    /// bytes.
    pub public_key: Vec<u8>,
    /// Digest naming the purpose the certified key is bound to,
    /// [`SHA256_DIGEST_SIZE`] bytes.
    pub usage: Vec<u8>,
    /// Declared version of the certified key, compared against the rollback
    /// index store for the rotateable keys that have a reserved location.
    pub key_version: u64,
    /// The issuer's signature over the signed fields, [`ATX_SIGNATURE_SIZE`]
    /// bytes.
    pub signature: Vec<u8>,
}

/// The mathematical value of [`AtxCertificate`].
pub struct CertificateView {
    pub version: u32,
    pub public_key: Seq<u8>,
    pub usage: Seq<u8>,
    pub key_version: u64,
    pub signature: Seq<u8>,
}

impl View for AtxCertificate {
    type V = CertificateView;

    open spec fn view(&self) -> CertificateView {
        CertificateView {
            version: self.version,
            public_key: self.public_key@,
            usage: self.usage@,
            key_version: self.key_version,
            signature: self.signature@,
        }
    }
}

/// An authenticated-unlock challenge: a fresh random token plus the identity
/// of the device that issued it.
///
/// A challenge is created on demand by
/// [`crate::unlock::atx_generate_unlock_challenge`] and has no persisted
/// state: validity of the eventual credential is decided entirely by the
/// signature over the challenge the device currently holds.
#[derive(Clone, Debug, PartialEq, Eq)]
pub struct AtxUnlockChallenge {
    /// Format version of the challenge; this library produces
    /// [`ATX_VERSION`].
    pub version: u32,
    /// Hash of the issuing device's product identifier,
    /// [`SHA256_DIGEST_SIZE`] bytes.
    pub product_id_hash: Vec<u8>,
    /// The random token, [`ATX_UNLOCK_CHALLENGE_SIZE`] bytes.
    pub challenge: Vec<u8>,
}

/// The mathematical value of [`AtxUnlockChallenge`].
pub struct ChallengeView {
    pub version: u32,
    pub product_id_hash: Seq<u8>,
    pub challenge: Seq<u8>,
}

impl View for AtxUnlockChallenge {
    type V = ChallengeView;

    open spec fn view(&self) -> ChallengeView {
        ChallengeView {
            version: self.version,
            product_id_hash: self.product_id_hash@,
            challenge: self.challenge@,
        }
    }
}

/// A signed authenticated-unlock credential, produced by an external signing
/// tool from a challenge and the product unlock key (PUK).
///
/// It carries enough key material to let the device re-derive the PUK's trust
/// chain: the PIK certificate signed by the PRK, the PUK certificate signed
/// by the PIK, and the PUK's signature over the challenge.
#[derive(Clone, Debug, PartialEq, Eq)]
pub struct AtxUnlockCredential {
    /// Format version of the credential; this library understands
    /// [`ATX_VERSION`].
    pub version: u32,
    /// The PIK certificate, signed by the PRK.
    pub product_intermediate_key_certificate: AtxCertificate,
    /// The PUK certificate, signed by the PIK.
    pub product_unlock_key_certificate: AtxCertificate,
    /// The PUK's signature over the challenge's serialization
    /// ([`crate::codec::spec_challenge_bytes`]), [`ATX_SIGNATURE_SIZE`]
    /// bytes.
    pub challenge_signature: Vec<u8>,
}

/// The mathematical value of [`AtxUnlockCredential`].
pub struct CredentialView {
    pub version: u32,
    pub product_intermediate_key_certificate: CertificateView,
    pub product_unlock_key_certificate: CertificateView,
    pub challenge_signature: Seq<u8>,
}

impl View for AtxUnlockCredential {
    type V = CredentialView;

    open spec fn view(&self) -> CredentialView {
        CredentialView {
            version: self.version,
            product_intermediate_key_certificate: self.product_intermediate_key_certificate@,
            product_unlock_key_certificate: self.product_unlock_key_certificate@,
            challenge_signature: self.challenge_signature@,
        }
    }
}

} // verus!
