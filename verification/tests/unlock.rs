use avb_atx::codec::challenge_bytes;
use vstd::map::Map;
use vstd::seq::Seq;

use avb_atx::errors::IoError;
use avb_atx::ops::AtxOps;
use avb_atx::ops::Ops;
use avb_atx::types::AtxCertificate;
use avb_atx::types::AtxPermanentAttributes;
use avb_atx::types::AtxUnlockChallenge;
use avb_atx::types::AtxUnlockCredential;
use avb_atx::types::ATX_PIK_VERSION_LOCATION;
use avb_atx::types::ATX_PRODUCT_ID_SIZE;
use avb_atx::types::ATX_PSK_VERSION_LOCATION;
use avb_atx::types::ATX_PUBLIC_KEY_SIZE;
use avb_atx::types::ATX_UNLOCK_CHALLENGE_SIZE;
use avb_atx::types::ATX_VERSION;
use avb_atx::types::PermanentAttributesView;
use avb_atx::types::SHA256_DIGEST_SIZE;
use avb_atx::unlock::atx_generate_unlock_challenge;
use avb_atx::unlock::atx_validate_unlock_credential;

/// A deterministic stand-in for the device's hash primitive.
fn toy_digest(data: &[u8]) -> Vec<u8> {
    let mut out = Vec::new();
    for i in 0..32u64 {
        let mut h: u64 = 1469598103934665603u64.wrapping_add(i.wrapping_mul(977));
        for &b in data {
            h ^= b as u64;
            h = h.wrapping_mul(1099511628211);
        }
        out.push((h >> ((i % 8) * 8)) as u8);
    }
    out
}

/// A deterministic stand-in for the signing primitive: a signature is valid
/// exactly when it equals this function of the key and the signed bytes.
fn toy_sign(key: &[u8], data: &[u8]) -> Vec<u8> {
    let mut joined = Vec::new();
    joined.extend_from_slice(key);
    joined.push(0x5a);
    joined.extend_from_slice(data);
    let digest = toy_digest(&joined);
    let mut signature = vec![0u8; 512];
    signature[..32].copy_from_slice(&digest);
    signature
}

struct TestOps {
    atx: bool,
    attrs: Result<AtxPermanentAttributes, IoError>,
    attrs_hash: Result<[u8; SHA256_DIGEST_SIZE], IoError>,
    pik_latched: Result<u64, IoError>,
    psk_latched: Result<u64, IoError>,
    random: Result<(), IoError>,
    rng_counter: u8,
    cache: Vec<(usize, u64)>,
}

impl AtxOps for TestOps {
    fn atx_supported(&self) -> bool {
        panic!("ghost model item, never called at run time")
    }

    fn attrs_result(&self) -> Result<PermanentAttributesView, IoError> {
        panic!("ghost model item, never called at run time")
    }

    fn attrs_hash_result(&self) -> Result<Seq<u8>, IoError> {
        panic!("ghost model item, never called at run time")
    }

    fn latched_result(&self, _location: usize) -> Result<u64, IoError> {
        panic!("ghost model item, never called at run time")
    }

    fn key_version_cache(&self) -> Map<usize, u64> {
        panic!("ghost model item, never called at run time")
    }

    fn random_result(&self) -> Result<(), IoError> {
        panic!("ghost model item, never called at run time")
    }

    fn sig_ok(&self, _key: Seq<u8>, _data: Seq<u8>, _signature: Seq<u8>) -> bool {
        panic!("ghost model item, never called at run time")
    }

    fn sha(&self, _data: Seq<u8>) -> Seq<u8> {
        panic!("ghost model item, never called at run time")
    }

    fn read_permanent_attributes(
        &mut self,
        attributes: &mut AtxPermanentAttributes,
    ) -> Result<(), IoError> {
        match &self.attrs {
            Ok(a) => {
                *attributes = a.clone();
                Ok(())
            }
            Err(e) => Err(*e),
        }
    }

    fn read_permanent_attributes_hash(&mut self) -> Result<[u8; SHA256_DIGEST_SIZE], IoError> {
        self.attrs_hash
    }

    fn set_key_version(&mut self, rollback_index_location: usize, key_version: u64) {
        for entry in self.cache.iter_mut() {
            if entry.0 == rollback_index_location {
                if key_version > entry.1 {
                    entry.1 = key_version;
                }
                return;
            }
        }
        self.cache.push((rollback_index_location, key_version));
    }

    fn get_random(&mut self, bytes: &mut Vec<u8>) -> Result<(), IoError> {
        self.random?;
        self.rng_counter = self.rng_counter.wrapping_add(1);
        let n = bytes.len();
        for i in 0..n {
            bytes[i] = self.rng_counter.wrapping_mul(37).wrapping_add(i as u8);
        }
        Ok(())
    }
}

impl Ops for TestOps {
    fn has_atx_ops(&self) -> bool {
        self.atx
    }

    fn read_rollback_index(&mut self, location: usize) -> Result<u64, IoError> {
        if location == ATX_PIK_VERSION_LOCATION {
            self.pik_latched
        } else if location == ATX_PSK_VERSION_LOCATION {
            self.psk_latched
        } else {
            Err(IoError::Io)
        }
    }

    fn verify_signature(&self, key: &[u8], data: &[u8], signature: &[u8]) -> bool {
        signature == toy_sign(key, data).as_slice()
    }

    fn sha256(&self, data: &[u8]) -> Vec<u8> {
        toy_digest(data)
    }
}

fn patterned(n: usize, seed: u8) -> Vec<u8> {
    (0..n).map(|i| (i as u8).wrapping_mul(31).wrapping_add(seed)).collect()
}

fn test_attrs() -> AtxPermanentAttributes {
    AtxPermanentAttributes {
        version: ATX_VERSION,
        product_root_public_key: patterned(ATX_PUBLIC_KEY_SIZE, 3),
        product_id: patterned(ATX_PRODUCT_ID_SIZE, 9),
    }
}

fn attrs_blob(a: &AtxPermanentAttributes) -> Vec<u8> {
    let mut v = a.version.to_le_bytes().to_vec();
    v.extend_from_slice(&a.product_root_public_key);
    v.extend_from_slice(&a.product_id);
    v
}

fn attrs_hash(a: &AtxPermanentAttributes) -> [u8; SHA256_DIGEST_SIZE] {
    let d = toy_digest(&attrs_blob(a));
    let mut out = [0u8; SHA256_DIGEST_SIZE];
    out.copy_from_slice(&d);
    out
}

fn good_ops(attrs: &AtxPermanentAttributes) -> TestOps {
    TestOps {
        atx: true,
        attrs: Ok(attrs.clone()),
        attrs_hash: Ok(attrs_hash(attrs)),
        pik_latched: Ok(1),
        psk_latched: Ok(1),
        random: Ok(()),
        rng_counter: 0,
        cache: Vec::new(),
    }
}

fn cert_signed_data_blob(cert: &AtxCertificate) -> Vec<u8> {
    let mut v = cert.version.to_le_bytes().to_vec();
    v.extend_from_slice(&cert.public_key);
    v.extend_from_slice(&cert.usage);
    v.extend_from_slice(&cert.key_version.to_le_bytes());
    v
}

fn signed_cert(signer: &[u8], public_key: &[u8], key_version: u64) -> AtxCertificate {
    let mut cert = AtxCertificate {
        version: ATX_VERSION,
        public_key: public_key.to_vec(),
        usage: vec![0u8; 32],
        key_version,
        signature: Vec::new(),
    };
    cert.signature = toy_sign(signer, &cert_signed_data_blob(&cert));
    cert
}

fn pik_pub() -> Vec<u8> {
    patterned(ATX_PUBLIC_KEY_SIZE, 17)
}

fn puk_pub() -> Vec<u8> {
    patterned(ATX_PUBLIC_KEY_SIZE, 41)
}

/// A credential signed over `challenge` with the PUK, whose chain resolves
/// to the product root key in `attrs`.
fn signed_credential(
    attrs: &AtxPermanentAttributes,
    pik_version: u64,
    challenge: &AtxUnlockChallenge,
) -> AtxUnlockCredential {
    let pik_cert = signed_cert(&attrs.product_root_public_key, &pik_pub(), pik_version);
    let puk_cert = signed_cert(&pik_pub(), &puk_pub(), 1);
    let challenge_signature = toy_sign(&puk_pub(), &challenge_bytes(challenge));
    AtxUnlockCredential {
        version: ATX_VERSION,
        product_intermediate_key_certificate: pik_cert,
        product_unlock_key_certificate: puk_cert,
        challenge_signature,
    }
}

#[test]
fn generated_challenge_names_the_device() {
    let attrs = test_attrs();
    let mut ops = good_ops(&attrs);
    let challenge = atx_generate_unlock_challenge(&mut ops).unwrap();
    assert_eq!(challenge.version, ATX_VERSION);
    assert_eq!(challenge.product_id_hash, toy_digest(&attrs.product_id));
    assert_eq!(challenge.challenge.len(), ATX_UNLOCK_CHALLENGE_SIZE);
}

#[test]
fn generate_without_randomness_not_implemented() {
    let attrs = test_attrs();
    let mut ops = good_ops(&attrs);
    ops.random = Err(IoError::NotImplemented);
    let r = atx_generate_unlock_challenge(&mut ops);
    assert_eq!(r, Err(IoError::NotImplemented));
}

#[test]
fn generate_attrs_error_is_io_error() {
    let attrs = test_attrs();
    let mut ops = good_ops(&attrs);
    ops.attrs = Err(IoError::Io);
    let r = atx_generate_unlock_challenge(&mut ops);
    assert_eq!(r, Err(IoError::Io));
}

#[test]
fn successive_challenges_differ() {
    let attrs = test_attrs();
    let mut ops = good_ops(&attrs);
    let first = atx_generate_unlock_challenge(&mut ops).unwrap();
    let second = atx_generate_unlock_challenge(&mut ops).unwrap();
    assert_ne!(first.challenge, second.challenge);
}

#[test]
fn credential_round_trip_accepted() {
    let attrs = test_attrs();
    let mut ops = good_ops(&attrs);
    let challenge = atx_generate_unlock_challenge(&mut ops).unwrap();
    let credential = signed_credential(&attrs, 2, &challenge);
    let r = atx_validate_unlock_credential(&mut ops, &credential, &challenge);
    assert_eq!(r, Ok(true));
}

#[test]
fn superseded_challenge_rejected() {
    let attrs = test_attrs();
    let mut ops = good_ops(&attrs);
    let first = atx_generate_unlock_challenge(&mut ops).unwrap();
    let credential = signed_credential(&attrs, 2, &first);
    assert_eq!(atx_validate_unlock_credential(&mut ops, &credential, &first), Ok(true));
    let second = atx_generate_unlock_challenge(&mut ops).unwrap();
    assert_eq!(atx_validate_unlock_credential(&mut ops, &credential, &second), Ok(false));
}

#[test]
fn foreign_device_rejected() {
    let attrs = test_attrs();
    let mut ops = good_ops(&attrs);
    let challenge = atx_generate_unlock_challenge(&mut ops).unwrap();
    let credential = signed_credential(&attrs, 2, &challenge);
    let mut foreign_attrs = attrs.clone();
    foreign_attrs.product_id = patterned(ATX_PRODUCT_ID_SIZE, 99);
    let mut foreign_ops = good_ops(&foreign_attrs);
    let r = atx_validate_unlock_credential(&mut foreign_ops, &credential, &challenge);
    assert_eq!(r, Ok(false));
}

#[test]
fn credential_missing_atx_ops_not_implemented() {
    let attrs = test_attrs();
    let mut ops = good_ops(&attrs);
    let challenge = atx_generate_unlock_challenge(&mut ops).unwrap();
    let credential = signed_credential(&attrs, 2, &challenge);
    ops.atx = false;
    let r = atx_validate_unlock_credential(&mut ops, &credential, &challenge);
    assert_eq!(r, Err(IoError::NotImplemented));
}

#[test]
fn credential_tampered_challenge_signature_rejected() {
    let attrs = test_attrs();
    let mut ops = good_ops(&attrs);
    let challenge = atx_generate_unlock_challenge(&mut ops).unwrap();
    let mut credential = signed_credential(&attrs, 2, &challenge);
    credential.challenge_signature[3] ^= 0x01;
    let r = atx_validate_unlock_credential(&mut ops, &credential, &challenge);
    assert_eq!(r, Ok(false));
}

#[test]
fn credential_wrong_chain_rejected() {
    let attrs = test_attrs();
    let mut ops = good_ops(&attrs);
    let challenge = atx_generate_unlock_challenge(&mut ops).unwrap();
    let mut credential = signed_credential(&attrs, 2, &challenge);
    // Re-sign the PUK certificate with a key that is not the certified PIK.
    let stray = patterned(ATX_PUBLIC_KEY_SIZE, 55);
    credential.product_unlock_key_certificate = signed_cert(&stray, &puk_pub(), 1);
    let r = atx_validate_unlock_credential(&mut ops, &credential, &challenge);
    assert_eq!(r, Ok(false));
}

#[test]
fn credential_stale_pik_rejected() {
    let attrs = test_attrs();
    let mut ops = good_ops(&attrs);
    ops.pik_latched = Ok(9);
    let challenge = atx_generate_unlock_challenge(&mut ops).unwrap();
    let credential = signed_credential(&attrs, 3, &challenge);
    let r = atx_validate_unlock_credential(&mut ops, &credential, &challenge);
    assert_eq!(r, Ok(false));
}

#[test]
fn credential_rollback_error_is_io_error() {
    let attrs = test_attrs();
    let mut ops = good_ops(&attrs);
    let challenge = atx_generate_unlock_challenge(&mut ops).unwrap();
    let credential = signed_credential(&attrs, 2, &challenge);
    ops.pik_latched = Err(IoError::Io);
    let r = atx_validate_unlock_credential(&mut ops, &credential, &challenge);
    assert_eq!(r, Err(IoError::Io));
}

#[test]
fn credential_attrs_hash_mismatch_rejected() {
    let attrs = test_attrs();
    let mut ops = good_ops(&attrs);
    let challenge = atx_generate_unlock_challenge(&mut ops).unwrap();
    let credential = signed_credential(&attrs, 2, &challenge);
    ops.attrs_hash = Ok([0u8; SHA256_DIGEST_SIZE]);
    let r = atx_validate_unlock_credential(&mut ops, &credential, &challenge);
    assert_eq!(r, Ok(false));
}
