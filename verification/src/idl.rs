//! The record types exchanged between the ingestor, the share processors and
//! the aggregator, with their transit encodings. Header and signature files
//! hold exactly one record; a packet file is a sequence of records decoded
//! until the end of the buffer. Logically unsigned 32-bit protocol fields are
//! carried widened as signed 64-bit transit integers and range-checked on
//! read, never silently truncated.

use crate::codec::{
    dec_bytes, dec_i64, dec_u128, dec_u64, lemma_dec_bytes_of_enc, lemma_dec_i64_of_enc,
    lemma_dec_u128_of_enc, lemma_dec_u64_of_enc, spec_dec_bytes, spec_dec_i64, spec_dec_u128,
    spec_dec_u64, spec_enc_bytes, spec_enc_i64, write_bytes, write_i64, write_u128, write_u64,
};
use crate::{Error, Stage};
use vstd::bytes::*;
use vstd::prelude::*;

verus! {

/// Mathematical model of a header record. Ingestion and validation headers
/// share it: a validation header copies the ingestion header's protocol
/// parameters verbatim.
pub struct HeaderView {
    pub batch_uuid: u128,
    pub name: Seq<u8>,
    pub bins: i32,
    pub epsilon: u64,
    pub prime: i64,
    pub number_of_servers: i64,
    pub hamming_weight: i32,
}

/// Describes one ingestion batch: identity, bin count and the secret-share
/// protocol parameters. `epsilon` is carried as the raw bit image of the
/// privacy parameter; this core never computes with it, only copies it.
/// Invariant demanded of trusted input: `bins > 0`.
#[derive(Clone, Debug, PartialEq, Eq)]
pub struct IngestionHeader {
    pub batch_uuid: u128,
    pub name: Vec<u8>,
    pub bins: i32,
    pub epsilon: u64,
    pub prime: i64,
    pub number_of_servers: i64,
    pub hamming_weight: i32,
}

impl View for IngestionHeader {
    type V = HeaderView;

    open spec fn view(&self) -> HeaderView {
        HeaderView {
            batch_uuid: self.batch_uuid,
            name: self.name@,
            bins: self.bins,
            epsilon: self.epsilon,
            prime: self.prime,
            number_of_servers: self.number_of_servers,
            hamming_weight: self.hamming_weight,
        }
    }
}

/// The output header: the ingestion header's protocol parameters,
/// re-attributed to this processor's validation batch.
#[derive(Clone, Debug, PartialEq, Eq)]
pub struct ValidationHeader {
    pub batch_uuid: u128,
    pub name: Vec<u8>,
    pub bins: i32,
    pub epsilon: u64,
    pub prime: i64,
    pub number_of_servers: i64,
    pub hamming_weight: i32,
}

impl View for ValidationHeader {
    type V = HeaderView;

    open spec fn view(&self) -> HeaderView {
        HeaderView {
            batch_uuid: self.batch_uuid,
            name: self.name@,
            bins: self.bins,
            epsilon: self.epsilon,
            prime: self.prime,
            number_of_servers: self.number_of_servers,
            hamming_weight: self.hamming_weight,
        }
    }
}

/// Model of one secret-shared data packet.
pub struct PacketView {
    pub uuid: u128,
    pub r_pit: i64,
    pub encrypted_payload: Seq<u8>,
}

/// One user contribution: a UUID, the random field selector `r_pit`
/// (logically unsigned 32-bit, widened in transit), and a payload opaque to
/// this core, decryptable only by the secret-share engine.
#[derive(Clone, Debug, PartialEq, Eq)]
pub struct IngestionDataSharePacket {
    pub uuid: u128,
    pub r_pit: i64,
    pub encrypted_payload: Vec<u8>,
}

impl View for IngestionDataSharePacket {
    type V = PacketView;

    open spec fn view(&self) -> PacketView {
        PacketView {
            uuid: self.uuid,
            r_pit: self.r_pit,
            encrypted_payload: self.encrypted_payload@,
        }
    }
}

/// One validation share: the input packet's UUID and the three verification
/// field elements, each an unsigned 32-bit value widened for transit.
#[derive(Clone, Copy, Debug, PartialEq, Eq, Structural)]
pub struct ValidationPacket {
    pub uuid: u128,
    pub f_r: i64,
    pub g_r: i64,
    pub h_r: i64,
}

/// Model of a signature record: one signature over the serialized header
/// bytes, one over the entire serialized packet-file bytes.
pub struct SignatureView {
    pub batch_header_signature: Seq<u8>,
    pub signature_of_packets: Seq<u8>,
}

/// Two detached signatures covering a batch's header file and packet file.
/// Used both for ingestion batches (verified here) and for the validation
/// batches this processor emits.
#[derive(Clone, Debug, PartialEq, Eq)]
pub struct IngestionSignature {
    pub batch_header_signature: Vec<u8>,
    pub signature_of_packets: Vec<u8>,
}

impl View for IngestionSignature {
    type V = SignatureView;

    open spec fn view(&self) -> SignatureView {
        SignatureView {
            batch_header_signature: self.batch_header_signature@,
            signature_of_packets: self.signature_of_packets@,
        }
    }
}

pub open spec fn spec_enc_header(h: HeaderView) -> Seq<u8> {
    spec_u128_to_le_bytes(h.batch_uuid) + spec_enc_bytes(h.name) + spec_enc_i64(h.bins as i64)
        + spec_u64_to_le_bytes(h.epsilon) + spec_enc_i64(h.prime) + spec_enc_i64(
        h.number_of_servers,
    ) + spec_enc_i64(h.hamming_weight as i64)
}

pub open spec fn spec_dec_header(s: Seq<u8>) -> Option<HeaderView> {
    match spec_dec_u128(s, 0) {
        None => None,
        Some((batch_uuid, i1)) => match spec_dec_bytes(s, i1) {
            None => None,
            Some((name, i2)) => match spec_dec_i64(s, i2) {
                None => None,
                Some((bins, i3)) => match spec_dec_u64(s, i3) {
                    None => None,
                    Some((epsilon, i4)) => match spec_dec_i64(s, i4) {
                        None => None,
                        Some((prime, i5)) => match spec_dec_i64(s, i5) {
                            None => None,
                            Some((number_of_servers, i6)) => match spec_dec_i64(s, i6) {
                                None => None,
                                Some((hamming_weight, i7)) => if bins < i32::MIN as i64 || bins
                                    > i32::MAX as i64 || hamming_weight < i32::MIN as i64
                                    || hamming_weight > i32::MAX as i64 || i7 != s.len() {
                                    None
                                } else {
                                    Some(
                                        HeaderView {
                                            batch_uuid,
                                            name,
                                            bins: bins as i32,
                                            epsilon,
                                            prime,
                                            number_of_servers,
                                            hamming_weight: hamming_weight as i32,
                                        },
                                    )
                                },
                            },
                        },
                    },
                },
            },
        },
    }
}

pub open spec fn spec_enc_packet(p: PacketView) -> Seq<u8> {
    spec_u128_to_le_bytes(p.uuid) + spec_enc_i64(p.r_pit) + spec_enc_bytes(p.encrypted_payload)
}

pub open spec fn spec_dec_packet_at(s: Seq<u8>, i: int) -> Option<(PacketView, int)> {
    match spec_dec_u128(s, i) {
        None => None,
        Some((uuid, i1)) => match spec_dec_i64(s, i1) {
            None => None,
            Some((r_pit, i2)) => match spec_dec_bytes(s, i2) {
                None => None,
                Some((encrypted_payload, i3)) => Some(
                    (PacketView { uuid, r_pit, encrypted_payload }, i3),
                ),
            },
        },
    }
}

pub open spec fn spec_enc_val_packet(p: ValidationPacket) -> Seq<u8> {
    spec_u128_to_le_bytes(p.uuid) + spec_enc_i64(p.f_r) + spec_enc_i64(p.g_r) + spec_enc_i64(p.h_r)
}

pub open spec fn spec_enc_val_packets(ps: Seq<ValidationPacket>) -> Seq<u8>
    decreases ps.len(),
{
    if ps.len() == 0 {
        Seq::empty()
    } else {
        spec_enc_val_packet(ps[0]) + spec_enc_val_packets(ps.drop_first())
    }
}

pub open spec fn spec_dec_val_packet_at(s: Seq<u8>, i: int) -> Option<(ValidationPacket, int)> {
    match spec_dec_u128(s, i) {
        None => None,
        Some((uuid, i1)) => match spec_dec_i64(s, i1) {
            None => None,
            Some((f_r, i2)) => match spec_dec_i64(s, i2) {
                None => None,
                Some((g_r, i3)) => match spec_dec_i64(s, i3) {
                    None => None,
                    Some((h_r, i4)) => Some((ValidationPacket { uuid, f_r, g_r, h_r }, i4)),
                },
            },
        },
    }
}

/// Decodes validation packets from offset `i` to the exact end of `s`.
pub open spec fn spec_dec_val_packets(s: Seq<u8>, i: int) -> Option<Seq<ValidationPacket>>
    decreases s.len() - i,
{
    if i == s.len() {
        Some(Seq::empty())
    } else {
        match spec_dec_val_packet_at(s, i) {
            None => None,
            Some((p, j)) => if i < j <= s.len() {
                match spec_dec_val_packets(s, j) {
                    None => None,
                    Some(rest) => Some(seq![p] + rest),
                }
            } else {
                None
            },
        }
    }
}

pub open spec fn spec_enc_signature(g: SignatureView) -> Seq<u8> {
    spec_enc_bytes(g.batch_header_signature) + spec_enc_bytes(g.signature_of_packets)
}

pub open spec fn spec_dec_signature(s: Seq<u8>) -> Option<SignatureView> {
    match spec_dec_bytes(s, 0) {
        None => None,
        Some((batch_header_signature, i1)) => match spec_dec_bytes(s, i1) {
            None => None,
            Some((signature_of_packets, i2)) => if i2 == s.len() {
                Some(SignatureView { batch_header_signature, signature_of_packets })
            } else {
                None
            },
        },
    }
}

impl IngestionHeader {
    /// Serializes this header, appending to `out`.
    pub fn write(&self, out: &mut Vec<u8>)
        ensures
            final(out)@ == old(out)@ + spec_enc_header(self@),
    {
        write_u128(out, self.batch_uuid);
        write_bytes(out, self.name.as_slice());
        write_i64(out, self.bins as i64);
        write_u64(out, self.epsilon);
        write_i64(out, self.prime);
        write_i64(out, self.number_of_servers);
        write_i64(out, self.hamming_weight as i64);
        assert(out@ =~= old(out)@ + spec_enc_header(self@));
    }

    /// Parses the single header record a header file holds.
    pub fn read(s: &Vec<u8>) -> (r: Option<IngestionHeader>)
        ensures
            match r {
                Some(h) => spec_dec_header(s@) == Some(h@),
                None => spec_dec_header(s@) is None,
            },
    {
        let (batch_uuid, i1) = match dec_u128(s.as_slice(), 0) {
            Some(v) => v,
            None => { return None },
        };
        let (name, i2) = match dec_bytes(s.as_slice(), i1) {
            Some(v) => v,
            None => { return None },
        };
        let (bins, i3) = match dec_i64(s.as_slice(), i2) {
            Some(v) => v,
            None => { return None },
        };
        let (epsilon, i4) = match dec_u64(s.as_slice(), i3) {
            Some(v) => v,
            None => { return None },
        };
        let (prime, i5) = match dec_i64(s.as_slice(), i4) {
            Some(v) => v,
            None => { return None },
        };
        let (number_of_servers, i6) = match dec_i64(s.as_slice(), i5) {
            Some(v) => v,
            None => { return None },
        };
        let (hamming_weight, i7) = match dec_i64(s.as_slice(), i6) {
            Some(v) => v,
            None => { return None },
        };
        if bins < i32::MIN as i64 || bins > i32::MAX as i64 || hamming_weight < i32::MIN as i64
            || hamming_weight > i32::MAX as i64 || i7 != s.len() {
            return None;
        }
        Some(
            IngestionHeader {
                batch_uuid,
                name,
                bins: bins as i32,
                epsilon,
                prime,
                number_of_servers,
                hamming_weight: hamming_weight as i32,
            },
        )
    }
}

impl ValidationHeader {
    pub fn write(&self, out: &mut Vec<u8>)
        ensures
            final(out)@ == old(out)@ + spec_enc_header(self@),
    {
        write_u128(out, self.batch_uuid);
        write_bytes(out, self.name.as_slice());
        write_i64(out, self.bins as i64);
        write_u64(out, self.epsilon);
        write_i64(out, self.prime);
        write_i64(out, self.number_of_servers);
        write_i64(out, self.hamming_weight as i64);
        assert(out@ =~= old(out)@ + spec_enc_header(self@));
    }

    pub fn read(s: &Vec<u8>) -> (r: Option<ValidationHeader>)
        ensures
            match r {
                Some(h) => spec_dec_header(s@) == Some(h@),
                None => spec_dec_header(s@) is None,
            },
    {
        match IngestionHeader::read(s) {
            Some(h) => Some(
                ValidationHeader {
                    batch_uuid: h.batch_uuid,
                    name: h.name,
                    bins: h.bins,
                    epsilon: h.epsilon,
                    prime: h.prime,
                    number_of_servers: h.number_of_servers,
                    hamming_weight: h.hamming_weight,
                },
            ),
            None => None,
        }
    }
}

impl IngestionDataSharePacket {
    pub fn write(&self, out: &mut Vec<u8>)
        ensures
            final(out)@ == old(out)@ + spec_enc_packet(self@),
    {
        write_u128(out, self.uuid);
        write_i64(out, self.r_pit);
        write_bytes(out, self.encrypted_payload.as_slice());
        assert(out@ =~= old(out)@ + spec_enc_packet(self@));
    }

    /// Reads the next packet at offset `i` of a packet-file buffer, yielding
    /// the following offset too. `None` means no packet starts at `i`; the
    /// caller distinguishes a clean end of stream from a malformed record.
    pub fn read_at(s: &Vec<u8>, i: usize) -> (r: Option<(IngestionDataSharePacket, usize)>)
        ensures
            match r {
                Some((p, j)) => spec_dec_packet_at(s@, i as int) == Some((p@, j as int)) && i < j
                    <= s@.len(),
                None => spec_dec_packet_at(s@, i as int) is None,
            },
    {
        let (uuid, i1) = match dec_u128(s.as_slice(), i) {
            Some(v) => v,
            None => { return None },
        };
        let (r_pit, i2) = match dec_i64(s.as_slice(), i1) {
            Some(v) => v,
            None => { return None },
        };
        let (encrypted_payload, i3) = match dec_bytes(s.as_slice(), i2) {
            Some(v) => v,
            None => { return None },
        };
        Some((IngestionDataSharePacket { uuid, r_pit, encrypted_payload }, i3))
    }

    /// Reads the next packet of a packet-file buffer. The clean end of the
    /// stream is the `EofError` sentinel, consumed by the per-packet loop;
    /// any other failure to decode is a codec error.
    pub fn read(s: &Vec<u8>, i: usize) -> (r: Result<(IngestionDataSharePacket, usize), Error>)
        ensures
            match r {
                Ok((p, j)) => spec_dec_packet_at(s@, i as int) == Some((p@, j as int)) && i < j
                    <= s@.len(),
                Err(e) => if i == s@.len() {
                    e == Error::EofError
                } else {
                    e == Error::AvroError(Stage::PacketDecode) && spec_dec_packet_at(
                        s@,
                        i as int,
                    ) is None
                },
            },
    {
        if i == s.len() {
            return Err(Error::EofError);
        }
        match IngestionDataSharePacket::read_at(s, i) {
            Some(pj) => Ok(pj),
            None => Err(Error::AvroError(Stage::PacketDecode)),
        }
    }
}

impl ValidationPacket {
    pub fn write(&self, out: &mut Vec<u8>)
        ensures
            final(out)@ == old(out)@ + spec_enc_val_packet(*self),
    {
        write_u128(out, self.uuid);
        write_i64(out, self.f_r);
        write_i64(out, self.g_r);
        write_i64(out, self.h_r);
        assert(out@ =~= old(out)@ + spec_enc_val_packet(*self));
    }

    pub fn read_at(s: &Vec<u8>, i: usize) -> (r: Option<(ValidationPacket, usize)>)
        ensures
            match r {
                Some((p, j)) => spec_dec_val_packet_at(s@, i as int) == Some((p, j as int)) && i < j
                    <= s@.len(),
                None => spec_dec_val_packet_at(s@, i as int) is None,
            },
    {
        let (uuid, i1) = match dec_u128(s.as_slice(), i) {
            Some(v) => v,
            None => { return None },
        };
        let (f_r, i2) = match dec_i64(s.as_slice(), i1) {
            Some(v) => v,
            None => { return None },
        };
        let (g_r, i3) = match dec_i64(s.as_slice(), i2) {
            Some(v) => v,
            None => { return None },
        };
        let (h_r, i4) = match dec_i64(s.as_slice(), i3) {
            Some(v) => v,
            None => { return None },
        };
        Some((ValidationPacket { uuid, f_r, g_r, h_r }, i4))
    }

    /// Decodes a whole validation packet file, as a downstream consumer does.
    pub fn read_all(s: &Vec<u8>) -> (r: Option<Vec<ValidationPacket>>)
        ensures
            match r {
                Some(ps) => spec_dec_val_packets(s@, 0) == Some(ps@),
                None => spec_dec_val_packets(s@, 0) is None,
            },
    {
        let mut out: Vec<ValidationPacket> = Vec::new();
        let mut i: usize = 0;
        loop
            invariant
                i <= s@.len(),
                spec_dec_val_packets(s@, 0) == (match spec_dec_val_packets(s@, i as int) {
                    Some(rest) => Some(out@ + rest),
                    None => None::<Seq<ValidationPacket>>,
                }),
            decreases s@.len() - i,
        {
            if i == s.len() {
                assert(spec_dec_val_packets(s@, i as int) == Some(Seq::<ValidationPacket>::empty()));
                assert(out@ + Seq::<ValidationPacket>::empty() =~= out@);
                return Some(out);
            }
            match ValidationPacket::read_at(s, i) {
                Some((p, j)) => {
                    proof {
                        assert(spec_dec_val_packets(s@, i as int) == (
                        match spec_dec_val_packets(s@, j as int) {
                            Some(rest) => Some(seq![p] + rest),
                            None => None::<Seq<ValidationPacket>>,
                        }));
                        if spec_dec_val_packets(s@, j as int) is Some {
                            let rest = spec_dec_val_packets(s@, j as int)->0;
                            assert(out@ + (seq![p] + rest) =~= out@.push(p) + rest);
                        }
                    }
                    out.push(p);
                    i = j;
                },
                None => { return None },
            }
        }
    }
}

impl IngestionSignature {
    pub fn write(&self, out: &mut Vec<u8>)
        ensures
            final(out)@ == old(out)@ + spec_enc_signature(self@),
    {
        write_bytes(out, self.batch_header_signature.as_slice());
        write_bytes(out, self.signature_of_packets.as_slice());
        assert(out@ =~= old(out)@ + spec_enc_signature(self@));
    }

    pub fn read(s: &Vec<u8>) -> (r: Option<IngestionSignature>)
        ensures
            match r {
                Some(g) => spec_dec_signature(s@) == Some(g@),
                None => spec_dec_signature(s@) is None,
            },
    {
        let (batch_header_signature, i1) = match dec_bytes(s.as_slice(), 0) {
            Some(v) => v,
            None => { return None },
        };
        let (signature_of_packets, i2) = match dec_bytes(s.as_slice(), i1) {
            Some(v) => v,
            None => { return None },
        };
        if i2 != s.len() {
            return None;
        }
        Some(IngestionSignature { batch_header_signature, signature_of_packets })
    }
}

/// A serialized header parses back to the header it came from.
pub proof fn lemma_header_roundtrip(h: HeaderView)
    requires
        h.name.len() < 0x1_0000_0000_0000_0000,
    ensures
        spec_dec_header(spec_enc_header(h)) == Some(h),
{
    let s = spec_enc_header(h);
    let n = h.name.len() as int;
    lemma_auto_spec_u128_to_from_le_bytes();
    lemma_auto_spec_u64_to_from_le_bytes();
    let i1 = 16int;
    let i2 = i1 + 8 + n;
    let i3 = i2 + 8;
    let i4 = i3 + 8;
    let i5 = i4 + 8;
    let i6 = i5 + 8;
    let i7 = i6 + 8;
    assert(s.len() == i7);
    assert(s.subrange(0, i1) =~= spec_u128_to_le_bytes(h.batch_uuid));
    lemma_dec_u128_of_enc(s, 0, h.batch_uuid);
    assert(s.subrange(i1, i2) =~= spec_enc_bytes(h.name));
    lemma_dec_bytes_of_enc(s, i1, h.name);
    assert(s.subrange(i2, i3) =~= spec_enc_i64(h.bins as i64));
    lemma_dec_i64_of_enc(s, i2, h.bins as i64);
    assert(s.subrange(i3, i4) =~= spec_u64_to_le_bytes(h.epsilon));
    lemma_dec_u64_of_enc(s, i3, h.epsilon);
    assert(s.subrange(i4, i5) =~= spec_enc_i64(h.prime));
    lemma_dec_i64_of_enc(s, i4, h.prime);
    assert(s.subrange(i5, i6) =~= spec_enc_i64(h.number_of_servers));
    lemma_dec_i64_of_enc(s, i5, h.number_of_servers);
    assert(s.subrange(i6, i7) =~= spec_enc_i64(h.hamming_weight as i64));
    lemma_dec_i64_of_enc(s, i6, h.hamming_weight as i64);
}

/// A serialized data-share packet parses back from any offset it was
/// embedded at, with anything after it.
pub proof fn lemma_packet_roundtrip_at(s: Seq<u8>, i: int, p: PacketView)
    requires
        0 <= i,
        p.encrypted_payload.len() < 0x1_0000_0000_0000_0000,
        i + spec_enc_packet(p).len() <= s.len(),
        s.subrange(i, i + spec_enc_packet(p).len()) == spec_enc_packet(p),
    ensures
        spec_dec_packet_at(s, i) == Some((p, i + spec_enc_packet(p).len())),
{
    lemma_auto_spec_u128_to_from_le_bytes();
    lemma_auto_spec_u64_to_from_le_bytes();
    let e = spec_enc_packet(p);
    let n = p.encrypted_payload.len() as int;
    let i1 = i + 16;
    let i2 = i1 + 8;
    let i3 = i2 + 8 + n;
    assert(e.len() == 16 + 8 + 8 + n);
    assert(s.subrange(i, i1) =~= spec_u128_to_le_bytes(p.uuid)) by {
        assert forall|k: int| 0 <= k < 16 implies s.subrange(i, i1)[k] == spec_u128_to_le_bytes(
            p.uuid,
        )[k] by {
            assert(s.subrange(i, i + e.len())[k] == e[k]);
        }
    }
    lemma_dec_u128_of_enc(s, i, p.uuid);
    assert(s.subrange(i1, i2) =~= spec_enc_i64(p.r_pit)) by {
        assert forall|k: int| 0 <= k < 8 implies s.subrange(i1, i2)[k] == spec_enc_i64(p.r_pit)[k] by {
            assert(s.subrange(i, i + e.len())[16 + k] == e[16 + k]);
        }
    }
    lemma_dec_i64_of_enc(s, i1, p.r_pit);
    assert(s.subrange(i2, i3) =~= spec_enc_bytes(p.encrypted_payload)) by {
        assert forall|k: int| 0 <= k < 8 + n implies s.subrange(i2, i3)[k] == spec_enc_bytes(
            p.encrypted_payload,
        )[k] by {
            assert(s.subrange(i, i + e.len())[24 + k] == e[24 + k]);
        }
    }
    lemma_dec_bytes_of_enc(s, i2, p.encrypted_payload);
}

/// A serialized validation packet parses back from any offset.
pub proof fn lemma_val_packet_roundtrip_at(s: Seq<u8>, i: int, p: ValidationPacket)
    requires
        0 <= i,
        i + 40 <= s.len(),
        s.subrange(i, i + 40) == spec_enc_val_packet(p),
    ensures
        spec_dec_val_packet_at(s, i) == Some((p, i + 40)),
{
    lemma_auto_spec_u128_to_from_le_bytes();
    lemma_auto_spec_u64_to_from_le_bytes();
    let e = spec_enc_val_packet(p);
    assert(e.len() == 40);
    let i1 = i + 16;
    let i2 = i1 + 8;
    let i3 = i2 + 8;
    let i4 = i3 + 8;
    assert(s.subrange(i, i1) =~= spec_u128_to_le_bytes(p.uuid)) by {
        assert forall|k: int| 0 <= k < 16 implies s.subrange(i, i1)[k] == spec_u128_to_le_bytes(
            p.uuid,
        )[k] by {
            assert(s.subrange(i, i + 40)[k] == e[k]);
        }
    }
    lemma_dec_u128_of_enc(s, i, p.uuid);
    assert(s.subrange(i1, i2) =~= spec_enc_i64(p.f_r)) by {
        assert forall|k: int| 0 <= k < 8 implies s.subrange(i1, i2)[k] == spec_enc_i64(p.f_r)[k] by {
            assert(s.subrange(i, i + 40)[16 + k] == e[16 + k]);
        }
    }
    lemma_dec_i64_of_enc(s, i1, p.f_r);
    assert(s.subrange(i2, i3) =~= spec_enc_i64(p.g_r)) by {
        assert forall|k: int| 0 <= k < 8 implies s.subrange(i2, i3)[k] == spec_enc_i64(p.g_r)[k] by {
            assert(s.subrange(i, i + 40)[24 + k] == e[24 + k]);
        }
    }
    lemma_dec_i64_of_enc(s, i2, p.g_r);
    assert(s.subrange(i3, i4) =~= spec_enc_i64(p.h_r)) by {
        assert forall|k: int| 0 <= k < 8 implies s.subrange(i3, i4)[k] == spec_enc_i64(p.h_r)[k] by {
            assert(s.subrange(i, i + 40)[32 + k] == e[32 + k]);
        }
    }
    lemma_dec_i64_of_enc(s, i3, p.h_r);
}

/// A serialized signature record parses back to itself.
pub proof fn lemma_signature_roundtrip(g: SignatureView)
    requires
        g.batch_header_signature.len() < 0x1_0000_0000_0000_0000,
        g.signature_of_packets.len() < 0x1_0000_0000_0000_0000,
    ensures
        spec_dec_signature(spec_enc_signature(g)) == Some(g),
{
    lemma_auto_spec_u128_to_from_le_bytes();
    lemma_auto_spec_u64_to_from_le_bytes();
    let s = spec_enc_signature(g);
    let n1 = g.batch_header_signature.len() as int;
    let n2 = g.signature_of_packets.len() as int;
    let i1 = 8 + n1;
    let i2 = i1 + 8 + n2;
    assert(s.len() == i2);
    assert(s.subrange(0, i1) =~= spec_enc_bytes(g.batch_header_signature));
    lemma_dec_bytes_of_enc(s, 0, g.batch_header_signature);
    assert(s.subrange(i1, i2) =~= spec_enc_bytes(g.signature_of_packets));
    lemma_dec_bytes_of_enc(s, i1, g.signature_of_packets);
}

/// A packet-file encoding grows at its end as packets are appended.
pub proof fn lemma_enc_val_packets_push(ps: Seq<ValidationPacket>)
    requires
        ps.len() > 0,
    ensures
        spec_enc_val_packets(ps) == spec_enc_val_packets(ps.drop_last()) + spec_enc_val_packet(
            ps.last(),
        ),
    decreases ps.len(),
{
    if ps.len() == 1 {
        assert(ps.drop_last() =~= Seq::<ValidationPacket>::empty());
        assert(ps.drop_first() =~= Seq::<ValidationPacket>::empty());
        assert(spec_enc_val_packets(ps) =~= spec_enc_val_packets(ps.drop_last())
            + spec_enc_val_packet(ps.last()));
    } else {
        let tail = ps.drop_first();
        lemma_enc_val_packets_push(tail);
        assert(tail.last() == ps.last());
        assert(ps.drop_last().len() > 0);
        assert(ps.drop_last().drop_first() =~= tail.drop_last());
        assert(ps.drop_last()[0] == ps[0]);
        assert(spec_enc_val_packets(ps.drop_last()) == spec_enc_val_packet(ps[0])
            + spec_enc_val_packets(tail.drop_last()));
        assert(spec_enc_val_packets(ps) =~= spec_enc_val_packets(ps.drop_last())
            + spec_enc_val_packet(ps.last()));
    }
}

/// A whole serialized validation packet file parses back to the packet
/// sequence it came from, from any suffix position.
pub proof fn lemma_val_packets_roundtrip_at(s: Seq<u8>, i: int, ps: Seq<ValidationPacket>)
    requires
        0 <= i <= s.len(),
        s.subrange(i, s.len() as int) == spec_enc_val_packets(ps),
    ensures
        spec_dec_val_packets(s, i) == Some(ps),
    decreases ps.len(),
{
    lemma_auto_spec_u128_to_from_le_bytes();
    lemma_auto_spec_u64_to_from_le_bytes();
    if ps.len() == 0 {
        assert(spec_enc_val_packets(ps) == Seq::<u8>::empty());
        assert(s.subrange(i, s.len() as int).len() == 0);
        assert(i == s.len());
        assert(ps =~= Seq::<ValidationPacket>::empty());
    } else {
        let p = ps[0];
        let rest = ps.drop_first();
        assert(spec_enc_val_packets(ps) == spec_enc_val_packet(p) + spec_enc_val_packets(rest));
        assert(spec_enc_val_packet(p).len() == 40);
        let j = i + 40;
        assert(s.subrange(i, j) =~= spec_enc_val_packet(p)) by {
            assert forall|k: int| 0 <= k < 40 implies s.subrange(i, j)[k] == spec_enc_val_packet(
                p,
            )[k] by {
                assert(s.subrange(i, s.len() as int)[k] == spec_enc_val_packets(ps)[k]);
            }
        }
        lemma_val_packet_roundtrip_at(s, i, p);
        assert(s.subrange(j, s.len() as int) =~= spec_enc_val_packets(rest)) by {
            assert forall|k: int| 0 <= k < s.len() - j implies s.subrange(j, s.len() as int)[k]
                == spec_enc_val_packets(rest)[k] by {
                assert(s.subrange(i, s.len() as int)[40 + k] == spec_enc_val_packets(ps)[40 + k]);
            }
        }
        lemma_val_packets_roundtrip_at(s, j, rest);
        assert(seq![p] + rest =~= ps);
    }
}

} // verus!
