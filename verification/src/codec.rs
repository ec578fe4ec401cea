//! The binary codec of persisted proofs.
//!
//! A proof is a list of canonical field elements. On disk it is compact
//! binary: each element as eight little-endian bytes. Decoding validates
//! the shape and the canonical range of every element, so that decode
//! inverts encode exactly on well-formed proofs.

use vstd::prelude::*;
use vstd::string::StringExecFns;

use crate::error::CliError;
use crate::field::{all_canonical, canonical, FIELD_ORDER};

verus! {

/// The eight little-endian bytes of one value.
pub open spec fn le_bytes(v: u64) -> Seq<u8> {
    seq![
        v as u8,
        (v >> 8) as u8,
        (v >> 16) as u8,
        (v >> 24) as u8,
        (v >> 32) as u8,
        (v >> 40) as u8,
        (v >> 48) as u8,
        (v >> 56) as u8,
    ]
}

/// The value of eight little-endian bytes.
pub open spec fn le_value(b: Seq<u8>) -> int
    recommends
        b.len() == 8,
{
    b[0] + 0x100 * b[1] + 0x1_0000 * b[2] + 0x100_0000 * b[3] + 0x1_0000_0000 * b[4]
        + 0x100_0000_0000 * b[5] + 0x1_0000_0000_0000 * b[6] + 0x100_0000_0000_0000 * b[7]
}

/// The binary encoding of a proof: eight bytes per element, in order.
pub open spec fn proof_encoding(s: Seq<u64>) -> Seq<u8>
    decreases s.len(),
{
    if s.len() == 0 {
        Seq::empty()
    } else {
        proof_encoding(s.drop_last()) + le_bytes(s.last())
    }
}

/// Whether a byte sequence is a well-formed proof encoding: a whole
/// number of eight-byte groups, each holding a canonical field value.
pub open spec fn proof_decoding_ok(bytes: Seq<u8>) -> bool {
    &&& bytes.len() % 8 == 0
    &&& forall|i: int|
        0 <= i < bytes.len() / 8 ==> le_value(#[trigger] bytes.subrange(8 * i, 8 * i + 8))
            < FIELD_ORDER
}

/// The proof denoted by a well-formed byte sequence.
pub open spec fn proof_decoding(bytes: Seq<u8>) -> Seq<u64> {
    Seq::new((bytes.len() / 8) as nat, |i: int| le_value(bytes.subrange(8 * i, 8 * i + 8)) as u64)
}

/// Encode a proof into its on-disk binary form.
pub fn encode_proof(proof: &Vec<u64>) -> (r: Vec<u8>)
    ensures
        r@ == proof_encoding(proof@),
{
    let mut out: Vec<u8> = Vec::new();
    let mut i: usize = 0;
    while i < proof.len()
        invariant
            i <= proof@.len(),
            out@ == proof_encoding(proof@.take(i as int)),
        decreases proof@.len() - i,
    {
        let v = proof[i];
        out.push(v as u8);
        out.push((v >> 8) as u8);
        out.push((v >> 16) as u8);
        out.push((v >> 24) as u8);
        out.push((v >> 32) as u8);
        out.push((v >> 40) as u8);
        out.push((v >> 48) as u8);
        out.push((v >> 56) as u8);
        proof {
            assert(proof@.take(i + 1).drop_last() =~= proof@.take(i as int));
            assert(proof@.take(i + 1).last() == proof@[i as int]);
            assert(out@ =~= proof_encoding(proof@.take(i + 1)));
        }
        i = i + 1;
    }
    proof {
        assert(proof@.take(proof@.len() as int) =~= proof@);
    }
    out
}

/// Decode an on-disk proof. Accepts exactly the well-formed encodings: a
/// whole number of eight-byte groups, each below the field order.
pub fn decode_proof(bytes: &[u8]) -> (r: Result<Vec<u64>, CliError>)
    ensures
        r is Ok <==> proof_decoding_ok(bytes@),
        r is Ok ==> r->Ok_0@ == proof_decoding(bytes@),
        r is Ok ==> all_canonical(r->Ok_0@),
        r is Err ==> r->Err_0 is Deserialization,
{
    if bytes.len() % 8 != 0 {
        return Err(
            CliError::Deserialization {
                message: String::from_str("proof file length is not a multiple of eight bytes"),
            },
        );
    }
    let len = bytes.len();
    let n = len / 8;
    let mut out: Vec<u64> = Vec::new();
    let mut i: usize = 0;
    while i < n
        invariant
            i <= n,
            len == bytes@.len(),
            n == bytes@.len() / 8,
            bytes@.len() % 8 == 0,
            n * 8 == len,
            out@.len() == i,
            forall|k: int|
                0 <= k < i ==> le_value(#[trigger] bytes@.subrange(8 * k, 8 * k + 8))
                    < FIELD_ORDER,
            forall|k: int|
                0 <= k < i ==> #[trigger] out@[k] == le_value(
                    bytes@.subrange(8 * k, 8 * k + 8),
                ) as u64,
        decreases n - i,
    {
        proof {
            assert(8 * i + 8 <= 8 * n);
        }
        let k = 8 * i;
        let b0 = bytes[k];
        let b1 = bytes[k + 1];
        let b2 = bytes[k + 2];
        let b3 = bytes[k + 3];
        let b4 = bytes[k + 4];
        let b5 = bytes[k + 5];
        let b6 = bytes[k + 6];
        let b7 = bytes[k + 7];
        let v: u64 = (b0 as u64) | ((b1 as u64) << 8) | ((b2 as u64) << 16) | ((b3 as u64) << 24)
            | ((b4 as u64) << 32) | ((b5 as u64) << 40) | ((b6 as u64) << 48) | ((b7 as u64)
            << 56);
        proof {
            let chunk = bytes@.subrange(8 * i, 8 * i + 8);
            assert(chunk[0] == b0 && chunk[1] == b1 && chunk[2] == b2 && chunk[3] == b3
                && chunk[4] == b4 && chunk[5] == b5 && chunk[6] == b6 && chunk[7] == b7);
            assert(v == (b0 as u64) + 0x100 * (b1 as u64) + 0x1_0000 * (b2 as u64) + 0x100_0000 * (
            b3 as u64) + 0x1_0000_0000 * (b4 as u64) + 0x100_0000_0000 * (b5 as u64)
                + 0x1_0000_0000_0000 * (b6 as u64) + 0x100_0000_0000_0000 * (b7 as u64))
                by (bit_vector)
                requires
                    v == (b0 as u64) | ((b1 as u64) << 8) | ((b2 as u64) << 16) | ((b3 as u64)
                        << 24) | ((b4 as u64) << 32) | ((b5 as u64) << 40) | ((b6 as u64) << 48) | (
                    (b7 as u64) << 56),
            ;
            assert(v == le_value(chunk));
        }
        if v >= FIELD_ORDER {
            return Err(
                CliError::Deserialization {
                    message: String::from_str("proof file holds a value beyond the field order"),
                },
            );
        }
        out.push(v);
        i = i + 1;
    }
    proof {
        assert(out@ =~= proof_decoding(bytes@));
    }
    Ok(out)
}

/// The eight little-endian bytes of a value denote that value back.
pub proof fn lemma_le_round_trip(v: u64)
    ensures
        le_value(le_bytes(v)) == v,
{
    assert((v as u8) as u64 + 0x100 * (((v >> 8) as u8) as u64) + 0x1_0000 * (((v >> 16) as u8)
        as u64) + 0x100_0000 * (((v >> 24) as u8) as u64) + 0x1_0000_0000 * (((v >> 32) as u8)
        as u64) + 0x100_0000_0000 * (((v >> 40) as u8) as u64) + 0x1_0000_0000_0000 * (((v >> 48)
        as u8) as u64) + 0x100_0000_0000_0000 * (((v >> 56) as u8) as u64) == v) by (bit_vector);
}

proof fn lemma_encoding_len(s: Seq<u64>)
    ensures
        proof_encoding(s).len() == 8 * s.len(),
    decreases s.len(),
{
    if s.len() > 0 {
        lemma_encoding_len(s.drop_last());
    }
}

proof fn lemma_encoding_chunk(s: Seq<u64>, i: int)
    requires
        0 <= i < s.len(),
    ensures
        proof_encoding(s).subrange(8 * i, 8 * i + 8) == le_bytes(s[i]),
    decreases s.len(),
{
    lemma_encoding_len(s);
    lemma_encoding_len(s.drop_last());
    if i == s.len() - 1 {
        assert(proof_encoding(s).subrange(8 * i, 8 * i + 8) =~= le_bytes(s.last()));
    } else {
        lemma_encoding_chunk(s.drop_last(), i);
        assert(proof_encoding(s).subrange(8 * i, 8 * i + 8) =~= proof_encoding(
            s.drop_last(),
        ).subrange(8 * i, 8 * i + 8));
    }
}

/// Round trip: the encoding of any proof is well formed and decodes to
/// exactly the proof it came from.
pub proof fn lemma_proof_codec_round_trip(s: Seq<u64>)
    requires
        all_canonical(s),
    ensures
        proof_decoding_ok(proof_encoding(s)),
        proof_decoding(proof_encoding(s)) == s,
{
    lemma_encoding_len(s);
    assert forall|i: int| 0 <= i < proof_encoding(s).len() / 8 implies le_value(
        #[trigger] proof_encoding(s).subrange(8 * i, 8 * i + 8),
    ) < FIELD_ORDER && le_value(proof_encoding(s).subrange(8 * i, 8 * i + 8)) == s[i] by {
        lemma_encoding_chunk(s, i);
        lemma_le_round_trip(s[i]);
        assert(canonical(s[i]));
    }
    assert(proof_decoding(proof_encoding(s)) =~= s);
}

} // verus!
