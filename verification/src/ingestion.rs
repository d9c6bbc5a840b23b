//! The batch ingestor: fetches one ingestion batch, authenticates it against
//! the ingestor's public key, drives the secret-share engine over every
//! packet, and publishes the signed validation batch.

use crate::codec::push_bytes;
use crate::crypto::{ecdsa_verifies, BatchSigner, PublicVerificationKey};
use crate::engine::{
    private_key_bytes, verification_message, EngineConfig, SecretShareEngine, MAX_BINS,
    PRIVATE_KEY_LENGTH,
};
use crate::idl::{
    spec_dec_header, spec_dec_packet_at, spec_dec_signature, spec_enc_header, spec_enc_signature,
    spec_enc_val_packets, HeaderView, IngestionDataSharePacket, IngestionHeader,
    IngestionSignature, PacketView, SignatureView, ValidationHeader, ValidationPacket,
};
use crate::transport::{SidecarWriter, Transport, VecSink};
use crate::{Error, Stage};
use vstd::prelude::*;

verus! {

pub const SLASH: u8 = 47;

pub const DOT: u8 = 46;

pub open spec fn spec_hex_char(n: u8) -> u8 {
    if n < 10 {
        (48 + n) as u8
    } else {
        (87 + n) as u8
    }
}

pub open spec fn spec_uuid_nibble(u: u128, k: int) -> u8 {
    ((u >> ((4 * (31 - k)) as u128)) & 0xf) as u8
}

/// The character at position `i` of a UUID's canonical hyphenated form:
/// 32 lowercase hex digits with dashes after the 8th, 12th, 16th and 20th.
pub open spec fn spec_uuid_char(u: u128, i: int) -> u8 {
    if i == 8 || i == 13 || i == 18 || i == 23 {
        45u8
    } else {
        let k = if i < 8 {
            i
        } else if i < 13 {
            i - 1
        } else if i < 18 {
            i - 2
        } else if i < 23 {
            i - 3
        } else {
            i - 4
        };
        spec_hex_char(spec_uuid_nibble(u, k))
    }
}

pub open spec fn spec_uuid_hyphenated(u: u128) -> Seq<u8> {
    Seq::new(36, |i: int| spec_uuid_char(u, i))
}

fn hex_char(n: u8) -> (r: u8)
    requires
        n < 16,
    ensures
        r == spec_hex_char(n),
{
    if n < 10 {
        48 + n
    } else {
        87 + n
    }
}

fn uuid_nibble(u: u128, k: usize) -> (r: u8)
    requires
        k < 32,
    ensures
        r == spec_uuid_nibble(u, k as int),
        r < 16,
{
    let sh: u128 = (4 * (31 - k)) as u128;
    let v: u128 = (u >> sh) & 0xf;
    assert(v < 16) by (bit_vector)
        requires
            v == (u >> sh) & 0xf,
    ;
    v as u8
}

/// Formats a UUID in its canonical hyphenated lowercase form, as the batch
/// naming convention requires.
pub fn uuid_hyphenated(u: u128) -> (r: Vec<u8>)
    ensures
        r@ == spec_uuid_hyphenated(u),
{
    let mut out: Vec<u8> = Vec::new();
    let mut i: usize = 0;
    while i < 36
        invariant
            i <= 36,
            out@.len() == i,
            forall|j: int| 0 <= j < i ==> out@[j] == spec_uuid_char(u, j),
        decreases 36 - i,
    {
        if i == 8 || i == 13 || i == 18 || i == 23 {
            out.push(45);
        } else {
            let k = if i < 8 {
                i
            } else if i < 13 {
                i - 1
            } else if i < 18 {
                i - 2
            } else if i < 23 {
                i - 3
            } else {
                i - 4
            };
            out.push(hex_char(uuid_nibble(u, k)));
        }
        i = i + 1;
    }
    assert(out@ =~= spec_uuid_hyphenated(u));
    out
}

/// The three storage keys of one batch.
pub struct BatchView {
    pub header_key: Seq<u8>,
    pub packet_file_key: Seq<u8>,
    pub signature_key: Seq<u8>,
}

/// The common path stem `collection/date/uuid` all three keys share.
pub open spec fn spec_batch_stem(aggregation_name: Seq<u8>, date: Seq<u8>, uuid: u128) -> Seq<u8> {
    aggregation_name + seq![SLASH] + date + seq![SLASH] + spec_uuid_hyphenated(uuid)
}

/// `"batch"`: the role-independent suffix of an ingestion batch's keys.
pub open spec fn spec_ingestion_filename() -> Seq<u8> {
    seq![98u8, 97u8, 116u8, 99u8, 104u8]
}

/// `"validity_0"` or `"validity_1"`, selected by the first-processor role.
pub open spec fn spec_validation_filename(is_first: bool) -> Seq<u8> {
    seq![118u8, 97u8, 108u8, 105u8, 100u8, 105u8, 116u8, 121u8, 95u8, if is_first {
        48u8
    } else {
        49u8
    }]
}

/// `".avro"`, the packet-file key's extra extension.
pub open spec fn spec_avro_ext() -> Seq<u8> {
    seq![DOT, 97u8, 118u8, 114u8, 111u8]
}

/// `".sig"`, the signature key's extra extension.
pub open spec fn spec_sig_ext() -> Seq<u8> {
    seq![DOT, 115u8, 105u8, 103u8]
}

pub open spec fn spec_batch(
    aggregation_name: Seq<u8>,
    date: Seq<u8>,
    uuid: u128,
    filename: Seq<u8>,
) -> BatchView {
    let base = spec_batch_stem(aggregation_name, date, uuid) + seq![DOT] + filename;
    BatchView {
        header_key: base,
        packet_file_key: base + spec_avro_ext(),
        signature_key: base + spec_sig_ext(),
    }
}

pub open spec fn spec_ingestion_batch(aggregation_name: Seq<u8>, date: Seq<u8>, uuid: u128) -> BatchView {
    spec_batch(aggregation_name, date, uuid, spec_ingestion_filename())
}

pub open spec fn spec_validation_batch(
    aggregation_name: Seq<u8>,
    date: Seq<u8>,
    uuid: u128,
    is_first: bool,
) -> BatchView {
    spec_batch(aggregation_name, date, uuid, spec_validation_filename(is_first))
}

/// One batch's identity resolved to its three storage keys. Immutable once
/// constructed; purely a naming convention shared by writer and reader, which
/// must be reproduced exactly for interoperability.
pub struct Batch {
    header_path: Vec<u8>,
    packet_file_path: Vec<u8>,
    signature_path: Vec<u8>,
}

impl View for Batch {
    type V = BatchView;

    closed spec fn view(&self) -> BatchView {
        BatchView {
            header_key: self.header_path@,
            packet_file_key: self.packet_file_path@,
            signature_key: self.signature_path@,
        }
    }
}

impl Batch {
    pub fn new_ingestion(aggregation_name: Vec<u8>, uuid: u128, date: Vec<u8>) -> (r: Batch)
        ensures
            r@ == spec_ingestion_batch(aggregation_name@, date@, uuid),
    {
        let mut filename: Vec<u8> = Vec::new();
        filename.push(98);  // "batch"
        filename.push(97);
        filename.push(116);
        filename.push(99);
        filename.push(104);
        assert(filename@ =~= spec_ingestion_filename());
        Batch::new(aggregation_name, uuid, date, filename)
    }

    pub fn new_validation(aggregation_name: Vec<u8>, uuid: u128, date: Vec<u8>, is_first: bool) -> (r:
        Batch)
        ensures
            r@ == spec_validation_batch(aggregation_name@, date@, uuid, is_first),
    {
        let mut filename: Vec<u8> = Vec::new();
        filename.push(118);  // "validity_"
        filename.push(97);
        filename.push(108);
        filename.push(105);
        filename.push(100);
        filename.push(105);
        filename.push(116);
        filename.push(121);
        filename.push(95);
        filename.push(if is_first { 48 } else { 49 });
        assert(filename@ =~= spec_validation_filename(is_first));
        Batch::new(aggregation_name, uuid, date, filename)
    }

    fn new(aggregation_name: Vec<u8>, uuid: u128, date: Vec<u8>, filename: Vec<u8>) -> (r: Batch)
        ensures
            r@ == spec_batch(aggregation_name@, date@, uuid, filename@),
    {
        let mut base: Vec<u8> = Vec::new();
        push_bytes(&mut base, aggregation_name.as_slice());
        base.push(SLASH);
        push_bytes(&mut base, date.as_slice());
        base.push(SLASH);
        let uu = uuid_hyphenated(uuid);
        push_bytes(&mut base, uu.as_slice());
        base.push(DOT);
        push_bytes(&mut base, filename.as_slice());
        assert(base@ =~= spec_batch_stem(aggregation_name@, date@, uuid) + seq![DOT] + filename@);

        let mut header_path: Vec<u8> = Vec::new();
        push_bytes(&mut header_path, base.as_slice());

        let mut packet_file_path: Vec<u8> = Vec::new();
        push_bytes(&mut packet_file_path, base.as_slice());
        packet_file_path.push(DOT);  // ".avro"
        packet_file_path.push(97);
        packet_file_path.push(118);
        packet_file_path.push(114);
        packet_file_path.push(111);
        assert(packet_file_path@ =~= base@ + spec_avro_ext());

        let mut signature_path: Vec<u8> = Vec::new();
        push_bytes(&mut signature_path, base.as_slice());
        signature_path.push(DOT);  // ".sig"
        signature_path.push(115);
        signature_path.push(105);
        signature_path.push(103);
        assert(signature_path@ =~= base@ + spec_sig_ext());

        Batch { header_path, packet_file_path, signature_path }
    }

    pub fn header_key(&self) -> (r: &Vec<u8>)
        ensures
            r@ == self@.header_key,
    {
        &self.header_path
    }

    pub fn packet_file_key(&self) -> (r: &Vec<u8>)
        ensures
            r@ == self@.packet_file_key,
    {
        &self.packet_file_path
    }

    pub fn signature_key(&self) -> (r: &Vec<u8>)
        ensures
            r@ == self@.signature_key,
    {
        &self.signature_path
    }
}

/// Converts a widened transit `r_pit` back to its unsigned 32-bit value; a
/// value outside that range is a malformed-data-packet error naming the
/// offending value, never a silent truncation.
pub fn r_pit_to_u32(r_pit: i64) -> (r: Result<u32, Error>)
    ensures
        match r {
            Ok(v) => 0 <= r_pit <= u32::MAX as i64 && v == r_pit as u32,
            Err(e) => e == Error::MalformedDataPacketError(r_pit) && !(0 <= r_pit <= u32::MAX
                as i64),
        },
{
    if 0 <= r_pit && r_pit <= 0xffff_ffffi64 {
        Ok(r_pit as u32)
    } else {
        Err(Error::MalformedDataPacketError(r_pit))
    }
}

/// What the per-packet loop computes from a trusted packet-file buffer, from
/// offset `i` on: the validation packets for every remaining packet, or the
/// first fatal error, in file order.
pub open spec fn run_packets(config: EngineConfig, s: Seq<u8>, i: int) -> Result<
    Seq<ValidationPacket>,
    Error,
>
    decreases s.len() - i,
{
    if i < 0 || i > s.len() {
        Err(Error::AvroError(Stage::PacketDecode))
    } else if i == s.len() {
        Ok(Seq::empty())
    } else {
        match spec_dec_packet_at(s, i) {
            None => Err(Error::AvroError(Stage::PacketDecode)),
            Some((p, j)) => if !(i < j <= s.len()) {
                Err(Error::AvroError(Stage::PacketDecode))
            } else if !(0 <= p.r_pit <= u32::MAX as i64) {
                Err(Error::MalformedDataPacketError(p.r_pit))
            } else {
                match verification_message(config, p.r_pit as u32, p.encrypted_payload) {
                    None => Err(Error::LibPrioError),
                    Some(m) => match run_packets(config, s, j) {
                        Err(e) => Err(e),
                        Ok(rest) => Ok(
                            seq![
                                ValidationPacket {
                                    uuid: p.uuid,
                                    f_r: m.0 as i64,
                                    g_r: m.1 as i64,
                                    h_r: m.2 as i64,
                                },
                            ] + rest,
                        ),
                    },
                }
            },
        }
    }
}

/// The outcome the thirteen-step workflow is bound to when every transport
/// read succeeds and hands back the stored objects `m`: the first fatal
/// error in step order, or the input header's parameters and the validation
/// packets.
pub open spec fn ideal_outcome(
    m: Map<Seq<u8>, Seq<u8>>,
    ib: BatchView,
    pubkey: Seq<u8>,
    is_first: bool,
    key: Seq<u8>,
) -> Result<(HeaderView, Seq<ValidationPacket>), Error> {
    if !m.contains_key(ib.signature_key) {
        Err(Error::IoError(Stage::SignatureRead))
    } else {
        match spec_dec_signature(m[ib.signature_key]) {
            None => Err(Error::AvroError(Stage::SignatureRead)),
            Some(sig) => if !m.contains_key(ib.header_key) {
                Err(Error::IoError(Stage::HeaderRead))
            } else if !ecdsa_verifies(pubkey, m[ib.header_key], sig.batch_header_signature) {
                Err(Error::CryptographyError(Stage::HeaderVerify))
            } else {
                match spec_dec_header(m[ib.header_key]) {
                    None => Err(Error::AvroError(Stage::HeaderRead)),
                    Some(h) => if h.bins <= 0 || h.bins > MAX_BINS {
                        Err(Error::MalformedHeaderError(h.bins))
                    } else if !m.contains_key(ib.packet_file_key) {
                        Err(Error::IoError(Stage::PacketFileRead))
                    } else if !ecdsa_verifies(
                        pubkey,
                        m[ib.packet_file_key],
                        sig.signature_of_packets,
                    ) {
                        Err(Error::CryptographyError(Stage::PacketFileVerify))
                    } else {
                        match run_packets(
                            EngineConfig { bins: h.bins, is_first, key },
                            m[ib.packet_file_key],
                            0,
                        ) {
                            Err(e) => Err(e),
                            Ok(vps) => Ok((h, vps)),
                        }
                    },
                }
            },
        }
    }
}

/// The errors whose cause lies in the stored batch alone, so that the ideal
/// outcome is bound to agree with them.
pub open spec fn classified_error(e: Error) -> bool {
    match e {
        Error::AvroError(_) => true,
        Error::MalformedHeaderError(_) => true,
        Error::MalformedDataPacketError(_) => true,
        Error::CryptographyError(st) => st == Stage::HeaderVerify || st == Stage::PacketFileVerify,
        _ => false,
    }
}

/// The errors raised before anything is written to the validation transport.
pub open spec fn pre_output_error(e: Error) -> bool {
    ||| classified_error(e)
    ||| e == Error::LibPrioError
    ||| e == Error::IoError(Stage::SignatureRead)
    ||| e == Error::IoError(Stage::HeaderRead)
    ||| e == Error::IoError(Stage::PacketFileRead)
}

/// The failures the environment decides — transport reads and writes,
/// signing, and the engine's random seeding — as opposed to those the stored
/// batch causes. On a batch whose ideal outcome is success, only these may
/// come back.
pub open spec fn environment_error(e: Error) -> bool {
    ||| e is IoError
    ||| e == Error::LibPrioError
    ||| e == Error::CryptographyError(Stage::PacketFileSign)
    ||| e == Error::CryptographyError(Stage::HeaderSign)
}

/// The orchestrating component: validates one ingestion batch end-to-end and
/// emits one signed validation batch. All inputs are fixed at construction;
/// nothing persists across calls.
pub struct BatchIngestor<I: Transport, V: Transport> {
    pub ingestion_transport: I,
    pub validation_transport: V,
    pub ingestion_batch: Batch,
    pub validation_batch: Batch,
    pub is_first: bool,
    pub share_processor_ecies_key: prio::encrypt::PrivateKey,
    pub share_processor_signing_key: BatchSigner,
    pub ingestor_key: PublicVerificationKey,
}

impl<I: Transport, V: Transport> BatchIngestor<I, V> {
    /// A well-configured ingestor: its decryption key carries the exact
    /// X9.62 layout the engine's decryption demands.
    pub open spec fn wf(&self) -> bool {
        private_key_bytes(self.share_processor_ecies_key).len() == PRIVATE_KEY_LENGTH
    }

    pub fn new(
        aggregation_name: Vec<u8>,
        uuid: u128,
        date: Vec<u8>,
        ingestion_transport: I,
        validation_transport: V,
        is_first: bool,
        share_processor_ecies_key: prio::encrypt::PrivateKey,
        share_processor_signing_key: BatchSigner,
        ingestor_key: PublicVerificationKey,
    ) -> (r: BatchIngestor<I, V>)
        requires
            private_key_bytes(share_processor_ecies_key).len() == PRIVATE_KEY_LENGTH,
        ensures
            r.wf(),
            r.ingestion_transport == ingestion_transport,
            r.validation_transport == validation_transport,
            r.ingestion_batch@ == spec_ingestion_batch(aggregation_name@, date@, uuid),
            r.validation_batch@ == spec_validation_batch(aggregation_name@, date@, uuid, is_first),
            r.is_first == is_first,
            r.share_processor_ecies_key == share_processor_ecies_key,
            r.share_processor_signing_key == share_processor_signing_key,
            r.ingestor_key == ingestor_key,
    {
        let mut name2: Vec<u8> = Vec::new();
        push_bytes(&mut name2, aggregation_name.as_slice());
        let mut date2: Vec<u8> = Vec::new();
        push_bytes(&mut date2, date.as_slice());
        assert(name2@ =~= aggregation_name@);
        assert(date2@ =~= date@);
        BatchIngestor {
            ingestion_transport,
            validation_transport,
            ingestion_batch: Batch::new_ingestion(aggregation_name, uuid, date),
            validation_batch: Batch::new_validation(name2, uuid, date2, is_first),
            is_first,
            share_processor_ecies_key,
            share_processor_signing_key,
            ingestor_key,
        }
    }

    /// Validates the ingestion batch end-to-end and emits the signed
    /// validation batch, aborting on the first fatal error.
    ///
    /// On success the ideal outcome was success, and the validation
    /// transport holds exactly the three output artifacts: the packet file
    /// encoding the computed validation packets, the header carrying the
    /// input header's parameters field-for-field, and a signature record
    /// over the other two. An error whose cause lies in the stored batch is
    /// exactly the ideal outcome's error, and any error raised before the
    /// output stage leaves the validation transport untouched.
    pub fn generate_validation_share(&mut self) -> (r: Result<(), Error>)
        requires
            old(self).wf(),
        ensures
            final(self).ingestion_transport.objects() == old(self).ingestion_transport.objects(),
            ({
                let m0 = old(self).ingestion_transport.objects();
                let v0 = old(self).validation_transport.objects();
                let ib = old(self).ingestion_batch@;
                let vb = old(self).validation_batch@;
                let pk = old(self).share_processor_signing_key.spec_public_key();
                let ideal = ideal_outcome(
                    m0,
                    ib,
                    old(self).ingestor_key.key_bytes@,
                    old(self).is_first,
                    private_key_bytes(old(self).share_processor_ecies_key),
                );
                &&& match r {
                    Ok(()) => ideal matches Ok((h, vps)) && (exists|hs: Seq<u8>, ps: Seq<u8>|
                        {
                            &&& final(self).validation_transport.objects() == v0.insert(
                                vb.packet_file_key,
                                spec_enc_val_packets(vps),
                            ).insert(vb.header_key, spec_enc_header(h)).insert(
                                vb.signature_key,
                                spec_enc_signature(
                                    SignatureView {
                                        batch_header_signature: hs,
                                        signature_of_packets: ps,
                                    },
                                ),
                            )
                            &&& ecdsa_verifies(pk, spec_enc_header(h), hs)
                            &&& ecdsa_verifies(pk, spec_enc_val_packets(vps), ps)
                        }),
                    Err(e) => {
                        &&& (classified_error(e)
                            ==> ideal == Err::<(HeaderView, Seq<ValidationPacket>), Error>(e))
                        &&& (pre_output_error(e)
                            ==> final(self).validation_transport.objects() == v0)
                    },
                }
                &&& (ideal matches Err(e1) ==> classified_error(e1) ==> r == Err::<(), Error>(e1)
                    || r == Err::<(), Error>(Error::LibPrioError)
                    || r == Err::<(), Error>(Error::IoError(Stage::SignatureRead))
                    || r == Err::<(), Error>(Error::IoError(Stage::HeaderRead))
                    || r == Err::<(), Error>(Error::IoError(Stage::PacketFileRead)))
                &&& (ideal matches Ok(hv) ==> r matches Ok(_) || (r matches Err(e2)
                    && environment_error(e2)))
            }),
    {
        let ghost m0 = self.ingestion_transport.objects();
        let ghost v0 = self.validation_transport.objects();
        let ghost ib = self.ingestion_batch@;
        let ghost pubkey = self.ingestor_key.key_bytes@;
        let ghost key = private_key_bytes(self.share_processor_ecies_key);
        let ghost is_first = self.is_first;

        // Step 1: fetch and parse the signature record.
        let sig_bytes = match self.ingestion_transport.get(&self.ingestion_batch.signature_path) {
            Ok(b) => b,
            Err(_) => { return Err(Error::IoError(Stage::SignatureRead)) },
        };
        let signature = match IngestionSignature::read(&sig_bytes) {
            Some(s) => s,
            None => { return Err(Error::AvroError(Stage::SignatureRead)) },
        };

        // Step 2: fetch the ingestion header bytes, fully into memory.
        let header_buf = match self.ingestion_transport.get(&self.ingestion_batch.header_path) {
            Ok(b) => b,
            Err(_) => { return Err(Error::IoError(Stage::HeaderRead)) },
        };

        // Step 3: authenticate the header bytes before trusting any of them.
        if !self.ingestor_key.verify(
            header_buf.as_slice(),
            signature.batch_header_signature.as_slice(),
        ) {
            return Err(Error::CryptographyError(Stage::HeaderVerify));
        }

        // Step 4: parse the now-trusted header and validate its bin count.
        let ingestion_header = match IngestionHeader::read(&header_buf) {
            Some(h) => h,
            None => { return Err(Error::AvroError(Stage::HeaderRead)) },
        };
        if ingestion_header.bins <= 0 || ingestion_header.bins > MAX_BINS {
            return Err(Error::MalformedHeaderError(ingestion_header.bins));
        }

        // Step 5: construct the secret-share engine for this batch.
        let mut engine = match SecretShareEngine::new(
            ingestion_header.bins,
            self.is_first,
            &self.share_processor_ecies_key,
        ) {
            Some(e) => e,
            None => { return Err(Error::LibPrioError) },
        };
        let ghost config = EngineConfig { bins: ingestion_header.bins, is_first, key };

        // Step 6: fetch the entire packet file into memory before doing
        // anything with its contents. The signature primitive needs the whole
        // message, and processing bytes whose integrity is not yet
        // established would let storage mutated mid-read diverge from what
        // was checked.
        let packet_file = match self.ingestion_transport.get(
            &self.ingestion_batch.packet_file_path,
        ) {
            Ok(b) => b,
            Err(_) => { return Err(Error::IoError(Stage::PacketFileRead)) },
        };

        // Step 7: authenticate the complete packet-file byte string.
        if !self.ingestor_key.verify(
            packet_file.as_slice(),
            signature.signature_of_packets.as_slice(),
        ) {
            return Err(Error::CryptographyError(Stage::PacketFileVerify));
        }
        assert(ideal_outcome(m0, ib, pubkey, is_first, key) == (match run_packets(
            config,
            packet_file@,
            0,
        ) {
            Err(e) => Err::<(HeaderView, Seq<ValidationPacket>), Error>(e),
            Ok(vps) => Ok((ingestion_header@, vps)),
        }));

        // Step 8: stream-decode packets from the trusted buffer, computing
        // each validation packet and serializing it immediately into the
        // dual-sink writer over the output packet stream.
        let mut writer = SidecarWriter::new(VecSink::new());
        let mut i: usize = 0;
        let ghost mut done: Seq<ValidationPacket> = Seq::empty();
        loop
            invariant
                i <= packet_file@.len(),
                engine.config() == config,
                config.key.len() == PRIVATE_KEY_LENGTH,
                self.ingestion_transport.objects() == old(self).ingestion_transport.objects(),
                self.validation_transport.objects() == old(self).validation_transport.objects(),
                ideal_outcome(
                    old(self).ingestion_transport.objects(),
                    old(self).ingestion_batch@,
                    old(self).ingestor_key.key_bytes@,
                    old(self).is_first,
                    private_key_bytes(old(self).share_processor_ecies_key),
                ) == (match run_packets(config, packet_file@, 0) {
                    Err(e) => Err::<(HeaderView, Seq<ValidationPacket>), Error>(e),
                    Ok(vps2) => Ok((ingestion_header@, vps2)),
                }),
                writer.sidecar@ == spec_enc_val_packets(done),
                writer.inner.buf@ == writer.sidecar@,
                run_packets(config, packet_file@, 0) == (match run_packets(
                    config,
                    packet_file@,
                    i as int,
                ) {
                    Ok(rest) => Ok::<Seq<ValidationPacket>, Error>(done + rest),
                    Err(e) => Err(e),
                }),
            ensures
                i == packet_file@.len(),
                writer.sidecar@ == spec_enc_val_packets(done),
                writer.inner.buf@ == writer.sidecar@,
                run_packets(config, packet_file@, 0) == Ok::<Seq<ValidationPacket>, Error>(done),
            decreases packet_file@.len() - i,
        {
            let (packet, j) = match IngestionDataSharePacket::read(&packet_file, i) {
                Ok(pj) => pj,
                Err(Error::EofError) => { break },
                Err(e) => { return Err(e) },
            };
            let r_pit = match r_pit_to_u32(packet.r_pit) {
                Ok(v) => v,
                Err(e) => { return Err(e) },
            };
            let message = match engine.generate(r_pit, packet.encrypted_payload.as_slice()) {
                Some(m) => m,
                None => { return Err(Error::LibPrioError) },
            };
            let validation_packet = ValidationPacket {
                uuid: packet.uuid,
                f_r: message.0 as i64,
                g_r: message.1 as i64,
                h_r: message.2 as i64,
            };
            proof {
                assert(run_packets(config, packet_file@, i as int) == (match run_packets(
                    config,
                    packet_file@,
                    j as int,
                ) {
                    Ok(rest) => Ok::<Seq<ValidationPacket>, Error>(seq![validation_packet] + rest),
                    Err(e) => Err(e),
                }));
                if run_packets(config, packet_file@, j as int) is Ok {
                    let rest = run_packets(config, packet_file@, j as int)->Ok_0;
                    assert(done + (seq![validation_packet] + rest) =~= done.push(
                        validation_packet,
                    ) + rest);
                }
            }
            let mut buf: Vec<u8> = Vec::new();
            validation_packet.write(&mut buf);
            match writer.write_all(buf.as_slice()) {
                Ok(()) => {},
                Err(_) => { return Err(Error::IoError(Stage::PacketFileWrite)) },
            }
            proof {
                let appended = done.push(validation_packet);
                assert(appended.drop_last() =~= done);
                crate::idl::lemma_enc_val_packets_push(appended);
                done = appended;
            }
            i = j;
        }
        let ghost vps = done;
        proof {
            assert(run_packets(config, packet_file@, i as int) == Ok::<Seq<ValidationPacket>, Error>(
                Seq::empty(),
            ));
            assert(done + Seq::<ValidationPacket>::empty() =~= done);
            assert(run_packets(config, packet_file@, 0) == Ok::<Seq<ValidationPacket>, Error>(vps));
        }

        // Step 9 and 10: commit the output packet stream, then sign the
        // accumulated bytes — exactly what was sent to the destination.
        match self.validation_transport.put(
            &self.validation_batch.packet_file_path,
            &writer.inner.buf,
        ) {
            Ok(()) => {},
            Err(_) => { return Err(Error::IoError(Stage::PacketFileWrite)) },
        }
        let packet_file_signature = match self.share_processor_signing_key.sign(
            writer.sidecar.as_slice(),
        ) {
            Some(s) => s,
            None => { return Err(Error::CryptographyError(Stage::PacketFileSign)) },
        };

        // Step 11: build the validation header, copying the trusted input
        // header's protocol parameters verbatim, through a fresh dual-sink
        // writer over the output header stream.
        let mut header_writer = SidecarWriter::new(VecSink::new());
        let mut name_copy: Vec<u8> = Vec::new();
        push_bytes(&mut name_copy, ingestion_header.name.as_slice());
        assert(name_copy@ =~= ingestion_header.name@);
        let validation_header = ValidationHeader {
            batch_uuid: ingestion_header.batch_uuid,
            name: name_copy,
            bins: ingestion_header.bins,
            epsilon: ingestion_header.epsilon,
            prime: ingestion_header.prime,
            number_of_servers: ingestion_header.number_of_servers,
            hamming_weight: ingestion_header.hamming_weight,
        };
        let mut header_buf_out: Vec<u8> = Vec::new();
        validation_header.write(&mut header_buf_out);
        match header_writer.write_all(header_buf_out.as_slice()) {
            Ok(()) => {},
            Err(_) => { return Err(Error::IoError(Stage::HeaderWrite)) },
        }
        match self.validation_transport.put(
            &self.validation_batch.header_path,
            &header_writer.inner.buf,
        ) {
            Ok(()) => {},
            Err(_) => { return Err(Error::IoError(Stage::HeaderWrite)) },
        }

        // Step 12: sign the accumulated output header bytes.
        let header_signature = match self.share_processor_signing_key.sign(
            header_writer.sidecar.as_slice(),
        ) {
            Some(s) => s,
            None => { return Err(Error::CryptographyError(Stage::HeaderSign)) },
        };

        // Step 13: write the output signature record.
        let out_signature = IngestionSignature {
            batch_header_signature: header_signature,
            signature_of_packets: packet_file_signature,
        };
        let mut sig_buf: Vec<u8> = Vec::new();
        out_signature.write(&mut sig_buf);
        match self.validation_transport.put(&self.validation_batch.signature_path, &sig_buf) {
            Ok(()) => {},
            Err(_) => { return Err(Error::IoError(Stage::SignatureWrite)) },
        }
        proof {
            assert(validation_header@ == ingestion_header@);
            assert(header_writer.inner.buf@ == spec_enc_header(ingestion_header@));
            assert(sig_buf@ == spec_enc_signature(out_signature@));
        }
        Ok(())
    }
}

/// A batch on which every check this core makes is bound to pass: all three
/// objects stored, the signature record well-formed, both signatures
/// verifying, the header well-formed with a bin count the engine accepts,
/// and every
/// packet decodable, in range, and accepted by the engine.
pub open spec fn batch_valid(
    m: Map<Seq<u8>, Seq<u8>>,
    ib: BatchView,
    pubkey: Seq<u8>,
    is_first: bool,
    key: Seq<u8>,
) -> bool {
    &&& m.contains_key(ib.signature_key)
    &&& m.contains_key(ib.header_key)
    &&& m.contains_key(ib.packet_file_key)
    &&& spec_dec_signature(m[ib.signature_key]) matches Some(sig) && ecdsa_verifies(
        pubkey,
        m[ib.header_key],
        sig.batch_header_signature,
    ) && ecdsa_verifies(pubkey, m[ib.packet_file_key], sig.signature_of_packets)
    &&& spec_dec_header(m[ib.header_key]) matches Some(h) && 0 < h.bins <= MAX_BINS
        && run_packets(
        EngineConfig { bins: h.bins, is_first, key },
        m[ib.packet_file_key],
        0,
    ) is Ok
}

/// For every valid batch the workflow's outcome is success, and the output
/// header's protocol parameters are field-for-field the input header's.
/// Together with the workflow's contract this owes a valid batch a
/// successful call, up to transport, signing and seeding failures: its
/// conclusion discharges the hypothesis of the contract's success clause.
pub proof fn lemma_valid_batch_outcome(
    m: Map<Seq<u8>, Seq<u8>>,
    ib: BatchView,
    pubkey: Seq<u8>,
    is_first: bool,
    key: Seq<u8>,
)
    requires
        batch_valid(m, ib, pubkey, is_first, key),
    ensures
        ideal_outcome(m, ib, pubkey, is_first, key) matches Ok((h, vps)) && spec_dec_header(
            m[ib.header_key],
        ) == Some(h),
{
}

/// A malformed-data-packet outcome always names a value outside the unsigned
/// 32-bit range: no in-range packet is ever rejected for its `r_pit`.
pub proof fn lemma_malformed_r_pit_out_of_range(config: EngineConfig, s: Seq<u8>, i: int, v: i64)
    requires
        run_packets(config, s, i) == Err::<Seq<ValidationPacket>, Error>(
            Error::MalformedDataPacketError(v),
        ),
    ensures
        !(0 <= v <= u32::MAX as i64),
    decreases s.len() - i,
{
    if 0 <= i < s.len() {
        if spec_dec_packet_at(s, i) is Some {
            let (p, j) = spec_dec_packet_at(s, i)->0;
            if i < j <= s.len() && 0 <= p.r_pit <= u32::MAX as i64 {
                if verification_message(config, p.r_pit as u32, p.encrypted_payload) is Some {
                    lemma_malformed_r_pit_out_of_range(config, s, j, v);
                }
            }
        }
    }
}

/// Decodes every packet of an ingestion packet file, to the exact end.
pub open spec fn spec_dec_packets(s: Seq<u8>, i: int) -> Option<Seq<PacketView>>
    decreases s.len() - i,
{
    if i < 0 || i > s.len() {
        None
    } else if i == s.len() {
        Some(Seq::empty())
    } else {
        match spec_dec_packet_at(s, i) {
            None => None,
            Some((p, j)) => if i < j <= s.len() {
                match spec_dec_packets(s, j) {
                    None => None,
                    Some(rest) => Some(seq![p] + rest),
                }
            } else {
                None
            },
        }
    }
}

/// When the per-packet loop succeeds, the packet file decodes cleanly and
/// the validation packets carry the input packets' UUIDs one-to-one, in
/// file order.
pub proof fn lemma_run_packets_preserves_uuids(config: EngineConfig, s: Seq<u8>, i: int)
    requires
        0 <= i <= s.len(),
    ensures
        run_packets(config, s, i) matches Ok(vps) ==> spec_dec_packets(s, i) matches Some(ps)
            && ps.len() == vps.len() && (forall|k: int|
            0 <= k < ps.len() ==> vps[k].uuid == ps[k].uuid),
    decreases s.len() - i,
{
    if run_packets(config, s, i) matches Ok(vps) {
        if i == s.len() {
        } else {
            let (p, j) = spec_dec_packet_at(s, i)->0;
            lemma_run_packets_preserves_uuids(config, s, j);
        }
    }
}

} // verus!
