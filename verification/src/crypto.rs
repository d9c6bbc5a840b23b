//! Asymmetric signing and verification over whole byte buffers, as this core
//! consumes them: ECDSA P-256 with SHA-256 and fixed-length signatures.

use vstd::prelude::*;

verus! {

#[verifier::external_type_specification]
#[verifier::external_body]
pub struct ExEcdsaKeyPair(ring::signature::EcdsaKeyPair);

#[verifier::external_type_specification]
#[verifier::external_body]
pub struct ExSystemRandom(ring::rand::SystemRandom);

/// Whether ECDSA P-256 / SHA-256 fixed-length verification accepts
/// `signature` for `message` under the public key `key`: the result of
/// `ring::signature::UnparsedPublicKey::verify`, a function of its arguments
/// alone.
pub uninterp spec fn ecdsa_verifies(key: Seq<u8>, message: Seq<u8>, signature: Seq<u8>) -> bool;

/// The public half an ECDSA key pair holds, as uncompressed point bytes:
/// what `ring::signature::KeyPair::public_key` exposes of it.
pub uninterp spec fn signer_public_key(key: ring::signature::EcdsaKeyPair) -> Seq<u8>;

/// A public key whose holder's signatures this core accepts; for one
/// `generate_validation_share` call, the ingestor's known public key, against
/// which both signatures of an ingestion batch must verify before any packet
/// is processed.
pub struct PublicVerificationKey {
    pub key_bytes: Vec<u8>,
}

impl PublicVerificationKey {
    pub fn new(key_bytes: Vec<u8>) -> (r: PublicVerificationKey)
        ensures
            r.key_bytes@ == key_bytes@,
    {
        PublicVerificationKey { key_bytes }
    }

    /// Relies on ring::signature::UnparsedPublicKey::verify with the
    /// ECDSA_P256_SHA256_FIXED algorithm: deterministic in (key, message,
    /// signature), and Ok exactly when the signature verifies.
    #[verifier::external_body]
    pub fn verify(&self, message: &[u8], signature: &[u8]) -> (r: bool)
        ensures
            r == ecdsa_verifies(self.key_bytes@, message@, signature@),
    {
        ring::signature::UnparsedPublicKey::new(
            &ring::signature::ECDSA_P256_SHA256_FIXED,
            self.key_bytes.as_slice(),
        ).verify(message, signature).is_ok()
    }
}

/// Relies on ring::signature::EcdsaKeyPair::from_pkcs8 (P-256, SHA-256,
/// fixed-length signatures): parses a PKCS#8 v1 document into a signing key,
/// or rejects it.
#[verifier::external_body]
fn ecdsa_key_pair_from_pkcs8(pkcs8: &[u8]) -> (r: Option<ring::signature::EcdsaKeyPair>) {
    ring::signature::EcdsaKeyPair::from_pkcs8(
        &ring::signature::ECDSA_P256_SHA256_FIXED_SIGNING,
        pkcs8,
    ).ok()
}

/// Relies on ring::rand::SystemRandom::new: a handle to the system's secure
/// random generator.
#[verifier::external_body]
fn system_random_new() -> (r: ring::rand::SystemRandom) {
    ring::rand::SystemRandom::new()
}

/// Relies on ring::signature::EcdsaKeyPair::sign: produces a fixed-length
/// ECDSA signature over the message, or fails. Signing is randomized, so
/// nothing is assumed of the signature's value beyond what signing is for:
/// the signature verifies over the message under the pair's public key.
#[verifier::external_body]
fn ecdsa_sign(
    key: &ring::signature::EcdsaKeyPair,
    rng: &ring::rand::SystemRandom,
    message: &[u8],
) -> (r: Option<Vec<u8>>)
    ensures
        r matches Some(s) ==> ecdsa_verifies(signer_public_key(*key), message@, s@),
{
    match key.sign(rng, message) {
        Ok(s) => Some(s.as_ref().to_vec()),
        Err(_) => None,
    }
}

/// Relies on ring::signature::KeyPair::public_key: the pair's public half.
#[verifier::external_body]
fn ecdsa_public_key(key: &ring::signature::EcdsaKeyPair) -> (r: Vec<u8>)
    ensures
        r@ == signer_public_key(*key),
{
    ring::signature::KeyPair::public_key(key).as_ref().to_vec()
}

/// This processor's signing identity: an ECDSA P-256 key pair and the random
/// source its signatures draw from.
pub struct BatchSigner {
    key: ring::signature::EcdsaKeyPair,
    rng: ring::rand::SystemRandom,
}

impl BatchSigner {
    /// The public key under which this signer's signatures verify.
    pub closed spec fn spec_public_key(&self) -> Seq<u8> {
        signer_public_key(self.key)
    }

    /// Builds a signer from a PKCS#8-encoded private key; `None` reports a
    /// rejected document.
    pub fn from_pkcs8(pkcs8: &[u8]) -> (r: Option<BatchSigner>) {
        match ecdsa_key_pair_from_pkcs8(pkcs8) {
            Some(key) => Some(BatchSigner { key, rng: system_random_new() }),
            None => None,
        }
    }

    /// This signer's public key bytes, for distribution to verifiers.
    pub fn public_key(&self) -> (r: Vec<u8>)
        ensures
            r@ == self.spec_public_key(),
    {
        ecdsa_public_key(&self.key)
    }

    /// Signs `message`; `None` reports a signing failure. Signing may be
    /// randomized, so two calls on one message need not agree; every
    /// signature handed back verifies over `message` under this signer's
    /// public key.
    pub fn sign(&self, message: &[u8]) -> (r: Option<Vec<u8>>)
        ensures
            r matches Some(s) ==> ecdsa_verifies(self.spec_public_key(), message@, s@),
    {
        ecdsa_sign(&self.key, &self.rng, message)
    }
}

} // verus!
