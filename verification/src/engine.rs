//! The secret-share engine: per-packet field-arithmetic cryptography
//! supplied by the prio library. One engine is scoped to one batch — it is
//! constructed with the batch's bin count, this processor's role flag and
//! its decryption key, and discarded afterwards.

use vstd::prelude::*;

verus! {

#[verifier::external_type_specification]
#[verifier::external_body]
pub struct ExPrivateKey(prio::encrypt::PrivateKey);

#[verifier::external_type_specification]
#[verifier::external_body]
#[verifier::reject_recursive_types(F)]
pub struct ExServer<F>(prio::server::Server<F>);

#[verifier::external_type_specification]
#[verifier::external_body]
pub struct ExFieldPrio2(prio::field::FieldPrio2);

/// The key material a prio ECIES private key holds (an X9.62 uncompressed
/// public point concatenated with the secret scalar).
pub uninterp spec fn private_key_bytes(key: prio::encrypt::PrivateKey) -> Seq<u8>;

/// The byte length of a well-formed ECIES private key: a 65-byte X9.62
/// uncompressed P-256 point followed by the 32-byte secret scalar. prio's
/// decryption slices the key at exactly these offsets, so a key of any other
/// length must never reach the engine.
pub const PRIVATE_KEY_LENGTH: usize = 97;

/// The largest bin count the engine accepts. The proof polynomials for
/// `bins` bins need `2 * (bins + 1).next_power_of_two()` distinct
/// power-of-two roots of unity, and the engine's 32-bit field has `2^20` of
/// them; beyond this the roots degenerate, and far beyond it the root
/// computation overflows.
pub const MAX_BINS: i32 = 524287;

/// Relies on prio::encrypt::PrivateKey::from_base64 fed a standard base64
/// encoding of the given bytes: the decoded key holds exactly those bytes.
/// Encoding then decoding is total, so this constructor cannot fail.
#[verifier::external_body]
fn private_key_from_encoded(bytes: &Vec<u8>) -> (r: prio::encrypt::PrivateKey)
    ensures
        private_key_bytes(r) == bytes@,
{
    let encoded = base64::Engine::encode(&base64::engine::general_purpose::STANDARD, bytes);
    prio::encrypt::PrivateKey::from_base64(&encoded).unwrap()
}

/// Builds this processor's ECIES decryption key from its raw bytes,
/// validating the X9.62 layout's length so that every key handed to the
/// engine is well-formed.
pub fn private_key_from_bytes(bytes: &Vec<u8>) -> (r: Option<prio::encrypt::PrivateKey>)
    ensures
        r is Some <==> bytes@.len() == PRIVATE_KEY_LENGTH,
        r matches Some(k) ==> private_key_bytes(k) == bytes@,
{
    if bytes.len() == PRIVATE_KEY_LENGTH {
        Some(private_key_from_encoded(bytes))
    } else {
        None
    }
}

/// What a secret-share engine was constructed with.
pub struct EngineConfig {
    pub bins: i32,
    pub is_first: bool,
    pub key: Seq<u8>,
}

/// The configuration a prio server holds: its aggregation vector dimension,
/// role flag and decryption key.
pub uninterp spec fn server_config(server: prio::server::Server<prio::field::FieldPrio2>) -> EngineConfig;

/// The verification message prio's server computes for a packet: ECIES
/// decryption with a fixed key followed by polynomial evaluation at the
/// field-embedded `r_pit`, a deterministic function of the server's
/// configuration, the selector and the payload alone. `None` stands for the
/// server's error.
pub uninterp spec fn verification_message(
    config: EngineConfig,
    r_pit: u32,
    payload: Seq<u8>,
) -> Option<(u32, u32, u32)>;

/// Relies on prio::server::Server::new: constructs a Prio v2 server over the
/// 32-bit field for `bins` bins; `None` reports its failure to seed the
/// internal generator it keeps for choosing evaluation points. The bin bound
/// keeps the root-of-unity tables within the field's `2^20` power-of-two
/// roots, where their computation neither overflows nor degenerates.
#[verifier::external_body]
fn server_new(bins: i32, is_first: bool, key: &prio::encrypt::PrivateKey) -> (r: Option<
    prio::server::Server<prio::field::FieldPrio2>,
>)
    requires
        0 < bins <= MAX_BINS,
    ensures
        r matches Some(s) ==> server_config(s) == (EngineConfig {
            bins,
            is_first,
            key: private_key_bytes(*key),
        }),
{
    match prio::server::Server::new(bins as usize, is_first, key.clone()) {
        Ok(s) => Some(s),
        Err(_) => None,
    }
}

/// Relies on prio::server::Server::generate_verification_message: decrypts
/// the packet's payload with the server's key and evaluates the proof
/// polynomials at the given point — deterministic in the server's
/// configuration and its arguments, and leaves that configuration unchanged.
/// The field elements convert to and from `u32` without loss. Decryption
/// slices the key at the X9.62 offsets, so the key must have its exact
/// well-formed length, or the call would not return.
#[verifier::external_body]
fn server_generate_verification_message(
    server: &mut prio::server::Server<prio::field::FieldPrio2>,
    r_pit: u32,
    payload: &[u8],
) -> (r: Option<(u32, u32, u32)>)
    requires
        server_config(*old(server)).key.len() == PRIVATE_KEY_LENGTH,
    ensures
        server_config(*final(server)) == server_config(*old(server)),
        r == verification_message(server_config(*old(server)), r_pit, payload@),
{
    match server.generate_verification_message(prio::field::FieldPrio2::from(r_pit), payload) {
        Ok(m) => Some((u32::from(m.f_r), u32::from(m.g_r), u32::from(m.h_r))),
        Err(_) => None,
    }
}

/// One batch's secret-share engine.
pub struct SecretShareEngine {
    server: prio::server::Server<prio::field::FieldPrio2>,
}

impl SecretShareEngine {
    pub closed spec fn config(&self) -> EngineConfig {
        server_config(self.server)
    }

    pub fn new(bins: i32, is_first: bool, key: &prio::encrypt::PrivateKey) -> (r: Option<
        SecretShareEngine,
    >)
        requires
            0 < bins <= MAX_BINS,
            private_key_bytes(*key).len() == PRIVATE_KEY_LENGTH,
        ensures
            r matches Some(e) ==> e.config() == (EngineConfig {
                bins,
                is_first,
                key: private_key_bytes(*key),
            }),
    {
        match server_new(bins, is_first, key) {
            Some(server) => Some(SecretShareEngine { server }),
            None => None,
        }
    }

    /// Computes the verification message `(f_r, g_r, h_r)` for one packet;
    /// `None` reports the engine's inability to construct it (a decryption
    /// or field-consistency failure), fatal for the whole batch.
    pub fn generate(&mut self, r_pit: u32, payload: &[u8]) -> (r: Option<(u32, u32, u32)>)
        requires
            old(self).config().key.len() == PRIVATE_KEY_LENGTH,
        ensures
            final(self).config() == old(self).config(),
            r == verification_message(old(self).config(), r_pit, payload@),
    {
        server_generate_verification_message(&mut self.server, r_pit, payload)
    }
}

/// Engines alike in configuration produce the same verification message for
/// the same packet: the verification-message computation is deterministic,
/// unlike signing.
pub fn verification_messages_agree(
    a: &mut SecretShareEngine,
    b: &mut SecretShareEngine,
    r_pit: u32,
    payload: &[u8],
) -> (agree: bool)
    requires
        old(a).config() == old(b).config(),
        old(a).config().key.len() == PRIVATE_KEY_LENGTH,
    ensures
        agree,
{
    let ma = a.generate(r_pit, payload);
    let mb = b.generate(r_pit, payload);
    match (ma, mb) {
        (Some(x), Some(y)) => x.0 == y.0 && x.1 == y.1 && x.2 == y.2,
        (None, None) => true,
        _ => false,
    }
}

} // verus!
