//! The envelope's self-hash: SHA-256 over the canonical text of the envelope
//! with its digest field blanked, written as lowercase hexadecimal.

use crate::canonical::{lemma_envelope_json_injective, payloads_separate};
use crate::envelope::{envelope_json, EnvelopeModel, EventEnvelope};
use crate::text::{
    hex_lower, is_lower_hex, lemma_hex_lower_injective, lemma_hex_lower_shape, to_hex_lower,
};
use sha2::{Digest, Sha256};
use vstd::prelude::*;
use vstd::utf8::{decode_utf8, encode_utf8, encode_utf8_decode_utf8};

verus! {

/// The SHA-256 digest of `data`, as the `sha2` crate computes it.
pub uninterp spec fn sha256_digest(data: Seq<u8>) -> Seq<u8>;

/// Calls `sha2::Sha256::digest`, which hashes the whole of `data` in one go.
///
/// The 32 bytes it returns are, by definition, [`sha256_digest`] of the input.
#[verifier::external_body]
fn sha256(data: &[u8]) -> (digest: [u8; 32])
    ensures
        digest@ == sha256_digest(data@),
{
    Sha256::digest(data).into()
}

/// The bytes that are hashed for `e`: the UTF-8 encoding of its canonical
/// text, taken with the digest field empty.
pub open spec fn hash_preimage(e: EnvelopeModel) -> Seq<u8> {
    encode_utf8(envelope_json(e.blanked()))
}

/// The digest that belongs to `e`, in lowercase hexadecimal. It does not
/// depend on the digest that `e` stores.
pub open spec fn envelope_digest(e: EnvelopeModel) -> Seq<char> {
    hex_lower(sha256_digest(hash_preimage(e)))
}

/// Whether `s` has the form of a digest: 64 lowercase hexadecimal digits.
pub open spec fn is_digest_text(s: Seq<char>) -> bool {
    s.len() == 64 && is_lower_hex(s)
}

impl EnvelopeModel {
    /// Whether the envelope stores its own digest.
    pub open spec fn is_sealed(self) -> bool {
        self.integrity.hash_sha256 == envelope_digest(self) && is_digest_text(
            self.integrity.hash_sha256,
        )
    }

    /// The envelope with its own digest installed.
    pub open spec fn sealed(self) -> EnvelopeModel {
        self.with_hash(envelope_digest(self))
    }
}

/// The digest of `envelope`: 64 lowercase hexadecimal digits.
pub fn compute_hash(envelope: &EventEnvelope) -> (hash: String)
    ensures
        hash@ == envelope_digest(envelope@),
        is_digest_text(hash@),
{
    let blank = String::new();
    let json = envelope.to_json_with_hash(blank.as_str());
    let digest = sha256(json.as_str().as_bytes());
    proof {
        assert(blank@ =~= Seq::<char>::empty());
        lemma_hex_lower_shape(digest@);
    }
    to_hex_lower(digest.as_slice())
}

/// Installs the envelope's own digest as the last change made to it.
pub fn seal(envelope: &mut EventEnvelope)
    ensures
        final(envelope)@ == old(envelope)@.sealed(),
        final(envelope)@.is_sealed(),
{
    let hash = compute_hash(envelope);
    envelope.integrity.hash_sha256 = hash;
    proof {
        lemma_digest_ignores_stored_hash(old(envelope)@, hash@);
        assert(final(envelope)@ == old(envelope)@.with_hash(hash@));
    }
}

/// Whether `envelope` stores the digest that belongs to it.
pub fn verify_hash(envelope: &EventEnvelope) -> (ok: bool)
    ensures
        ok == envelope@.is_sealed(),
{
    let expected = compute_hash(envelope);
    envelope.integrity.hash_sha256 == expected
}

/// The digest of an envelope is the same whatever digest the envelope stores:
/// the stored one is blanked before hashing.
pub proof fn lemma_digest_ignores_stored_hash(e: EnvelopeModel, hash: Seq<char>)
    ensures
        e.with_hash(hash).blanked() == e.blanked(),
        envelope_digest(e.with_hash(hash)) == envelope_digest(e),
{
}

/// Round trip: computing the digest of a sealed envelope again gives the
/// digest that it stores, and sealing changes nothing but the stored digest.
pub proof fn lemma_sealed_round_trip(e: EnvelopeModel)
    ensures
        envelope_digest(e.sealed()) == e.sealed().integrity.hash_sha256,
        e.sealed().blanked() == e.blanked(),
        e.sealed().sealed() == e.sealed(),
        e.sealed().well_formed() == e.well_formed(),
{
    lemma_digest_ignores_stored_hash(e, envelope_digest(e));
}

/// The digest is a function of the envelope's content: two envelopes that
/// agree in every field but the stored digest have the same digest.
pub proof fn lemma_digest_deterministic(a: EnvelopeModel, b: EnvelopeModel)
    requires
        a.blanked() == b.blanked(),
    ensures
        hash_preimage(a) == hash_preimage(b),
        envelope_digest(a) == envelope_digest(b),
{
}

/// The bytes that are hashed determine the envelope up to its stored digest,
/// where the payloads are separate: envelopes that differ in any other field
/// are hashed from different bytes.
pub proof fn lemma_preimage_injective(a: EnvelopeModel, b: EnvelopeModel)
    requires
        payloads_separate(a.payload, b.payload),
        hash_preimage(a) == hash_preimage(b),
    ensures
        a.blanked() == b.blanked(),
{
    encode_utf8_decode_utf8(envelope_json(a.blanked()));
    encode_utf8_decode_utf8(envelope_json(b.blanked()));
    assert(envelope_json(a.blanked()) == decode_utf8(hash_preimage(a)));
    assert(envelope_json(b.blanked()) == decode_utf8(hash_preimage(b)));
    lemma_envelope_json_injective(a.blanked(), b.blanked());
}

/// Tamper evidence: a change to any field but the stored digest changes the
/// bytes that are hashed, so the digest stays the same only where SHA-256
/// gives two different inputs the same digest. A change of the payload has to
/// leave the two payloads separate.
pub proof fn lemma_change_changes_preimage(a: EnvelopeModel, b: EnvelopeModel)
    requires
        payloads_separate(a.payload, b.payload),
        a.blanked() != b.blanked(),
    ensures
        hash_preimage(a) != hash_preimage(b),
        envelope_digest(a) == envelope_digest(b) <==> sha256_digest(hash_preimage(a))
            == sha256_digest(hash_preimage(b)),
{
    if hash_preimage(a) == hash_preimage(b) {
        lemma_preimage_injective(a, b);
    }
    if envelope_digest(a) == envelope_digest(b) {
        lemma_hex_lower_injective(
            sha256_digest(hash_preimage(a)),
            sha256_digest(hash_preimage(b)),
        );
    }
}

} // verus!
