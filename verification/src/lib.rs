//! Key management and authenticated unlock on top of an image-verification
//! trust model.
//!
//! Two cooperating subsystems share one root of trust, the device's permanent
//! attributes:
//!
//! * the key hierarchy validator decides whether a candidate signing key is
//!   currently trusted, by resolving its signature chain to the product root
//!   key (PRK) recorded in the permanent attributes and by comparing the
//!   declared versions of the rotateable keys (PIK, PSK) against the versions
//!   latched in the rollback index store;
//! * the unlock engine generates a random challenge and validates a credential
//!   that proves possession of the product unlock key (PUK) by a signature
//!   over that challenge.
//!
//! Storage access, randomness and the signature and hash primitives are
//! external collaborators reached through trait contracts; this library owns
//! only the validation logic itself.

pub mod codec;
pub mod errors;
pub mod metadata;
pub mod ops;
pub mod types;
pub mod unlock;
pub mod validate;

pub use errors::IoError;
pub use errors::IoResult;
pub use ops::AtxOps;
pub use ops::Ops;
pub use types::AtxCertificate;
pub use types::AtxPermanentAttributes;
pub use types::AtxUnlockChallenge;
pub use types::AtxUnlockCredential;
pub use types::ATX_PIK_VERSION_LOCATION;
pub use types::ATX_PSK_VERSION_LOCATION;
pub use types::SHA256_DIGEST_SIZE;
pub use unlock::atx_generate_unlock_challenge;
pub use unlock::atx_validate_unlock_credential;
pub use validate::atx_validate_vbmeta_public_key;
