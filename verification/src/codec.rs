//! The commitment codec: the canonical serialization of a (score, bias, salt)
//! triple and its 32-byte cryptographic digest. The same encoding is used by
//! whoever builds a commitment off-system and by the reveal-time verifier, so
//! identical triples always produce identical digests.

use crate::bias::{bias_label, spec_bias_label, RiskBias};
use vstd::prelude::*;

verus! {

/// The digest the oracle's hash primitive (SHA-256) assigns to a byte
/// string: 32 bytes, a function of the input bytes alone.
pub uninterp spec fn digest_of(data: Seq<u8>) -> Seq<u8>;

/// Relies on anchor_lang::solana_program::hash::hash: returns the SHA-256
/// digest of `data`, which is 32 bytes long and depends on `data` alone.
#[verifier::external_body]
fn sha256(data: &[u8]) -> (r: Vec<u8>)
    ensures
        r@ == digest_of(data@),
        r@.len() == 32,
{
    anchor_lang::solana_program::hash::hash(data).to_bytes().to_vec()
}

/// The decimal ASCII digits of `score`, without leading zeros.
pub open spec fn spec_score_digits(score: u8) -> Seq<u8> {
    if score < 10 {
        seq![(48 + score) as u8]
    } else if score < 100 {
        seq![(48 + score / 10) as u8, (48 + score % 10) as u8]
    } else {
        seq![
            (48 + score / 100) as u8,
            (48 + (score / 10) % 10) as u8,
            (48 + score % 10) as u8,
        ]
    }
}

/// Returns the decimal ASCII digits of `score`.
pub fn score_digits(score: u8) -> (r: Vec<u8>)
    ensures
        r@ == spec_score_digits(score),
{
    let mut out: Vec<u8> = Vec::new();
    if score < 10 {
        out.push(48 + score);
    } else if score < 100 {
        out.push(48 + score / 10);
        out.push(48 + score % 10);
    } else {
        out.push(48 + score / 100);
        out.push(48 + (score / 10) % 10);
        out.push(48 + score % 10);
    }
    proof {
        assert(out@ =~= spec_score_digits(score));
    }
    out
}

/// The canonical preimage of a commitment: the decimal digits of the score,
/// then the bias variant's label, then the raw salt bytes.
pub open spec fn spec_commitment_preimage(score: u8, bias: RiskBias, salt: Seq<u8>) -> Seq<u8> {
    spec_score_digits(score) + spec_bias_label(bias) + salt
}

/// Builds the canonical preimage of a commitment to (score, bias, salt).
pub fn encode_commitment(score: u8, bias: RiskBias, salt: &[u8]) -> (r: Vec<u8>)
    ensures
        r@ == spec_commitment_preimage(score, bias, salt@),
{
    let mut out = score_digits(score);
    let mut label = bias_label(bias);
    out.append(&mut label);
    let mut i: usize = 0;
    while i < salt.len()
        invariant
            i <= salt@.len(),
            out@ == spec_score_digits(score) + spec_bias_label(bias) + salt@.subrange(
                0,
                i as int,
            ),
        decreases salt@.len() - i,
    {
        out.push(salt[i]);
        i += 1;
        proof {
            assert(out@ =~= spec_score_digits(score) + spec_bias_label(bias) + salt@.subrange(
                0,
                i as int,
            ));
        }
    }
    proof {
        assert(salt@.subrange(0, salt@.len() as int) =~= salt@);
    }
    out
}

/// Computes the 32-byte commitment digest of a (score, bias, salt) triple:
/// the digest of the canonical preimage. An assessor publishes this value at
/// commit time; the reveal step recomputes it to verify the disclosure.
pub fn commitment_digest(score: u8, bias: RiskBias, salt: &[u8]) -> (r: Vec<u8>)
    ensures
        r@ == digest_of(spec_commitment_preimage(score, bias, salt@)),
        r@.len() == 32,
{
    let preimage = encode_commitment(score, bias, salt);
    sha256(preimage.as_slice())
}

/// Returns whether two byte strings hold the same bytes.
pub fn bytes_eq(a: &[u8], b: &[u8]) -> (r: bool)
    ensures
        r == (a@ == b@),
{
    if a.len() != b.len() {
        return false;
    }
    let mut i: usize = 0;
    while i < a.len()
        invariant
            a@.len() == b@.len(),
            i <= a@.len(),
            forall|j: int| 0 <= j < i ==> a@[j] == b@[j],
        decreases a@.len() - i,
    {
        if a[i] != b[i] {
            return false;
        }
        i += 1;
    }
    proof {
        assert(a@ =~= b@);
    }
    true
}

} // verus!
