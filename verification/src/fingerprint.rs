//! Request fingerprinting: a stable cache key derived deterministically from
//! a translation request's three fields, in field order, with no added salt.

use crate::model::TranslationRequest;
use std::collections::hash_map::DefaultHasher;
use std::hash::Hasher;
use vstd::prelude::*;
use vstd::std_specs::hash::DefaultHasherAdditionalSpecFns;
use vstd::utf8::{decode_utf8, encode_scalar, encode_utf8, encode_utf8_decode_utf8};

verus! {

/// The byte written after each field to keep the fields delimited: it can
/// never occur inside UTF-8-encoded text, so even read as one concatenated
/// byte stream the writes mark where each field ends.
pub const FIELD_TERMINATOR: u8 = 0xff;

/// The exact writes fed to the hasher for a request with the given field
/// contents: for each field, in field order, its UTF-8 bytes followed by a
/// one-byte terminator write.
pub open spec fn spec_hash_input(
    source: Seq<char>,
    target: Seq<char>,
    text: Seq<char>,
) -> Seq<Seq<u8>> {
    seq![
        encode_utf8(source),
        seq![FIELD_TERMINATOR],
        encode_utf8(target),
        seq![FIELD_TERMINATOR],
        encode_utf8(text),
        seq![FIELD_TERMINATOR],
    ]
}

/// The fingerprint of a request with the given field contents: the 64-bit
/// hash of the writes in `spec_hash_input`. The hash itself is a pure
/// function of those writes, so the fingerprint is a pure function of the
/// request.
pub open spec fn spec_fingerprint(source: Seq<char>, target: Seq<char>, text: Seq<char>) -> u64 {
    DefaultHasher::spec_finish(spec_hash_input(source, target, text))
}

impl TranslationRequest {
    /// Derives the cache key for this request: the three fields are hashed
    /// in field order by a hasher created without any randomized seed, so
    /// requests that are equal field by field always map to the same key.
    /// Each field is followed by a terminator byte, keeping the field
    /// boundaries visible to the hasher: without it, moving characters
    /// across a field boundary would leave the hashed bytes unchanged.
    pub fn generate_hash(&self) -> (r: u64)
        ensures
            r == spec_fingerprint(
                self.source_language_code@,
                self.target_language_code@,
                self.text@,
            ),
    {
        let terminator: [u8; 1] = [FIELD_TERMINATOR];
        let mut hasher = DefaultHasher::new();
        hasher.write(self.source_language_code.as_str().as_bytes());
        hasher.write(terminator.as_slice());
        hasher.write(self.target_language_code.as_str().as_bytes());
        hasher.write(terminator.as_slice());
        hasher.write(self.text.as_str().as_bytes());
        hasher.write(terminator.as_slice());
        proof {
            assert(terminator@ =~= seq![FIELD_TERMINATOR]);
            assert(hasher@ =~= spec_hash_input(
                self.source_language_code@,
                self.target_language_code@,
                self.text@,
            ));
        }
        hasher.finish()
    }
}

proof fn lemma_encode_scalar_no_terminator(scalar: u32, i: int)
    requires
        0 <= i < encode_scalar(scalar).len(),
    ensures
        encode_scalar(scalar)[i] != FIELD_TERMINATOR,
{
    assert(((scalar & 0x7F) as u8) != 0xffu8) by (bit_vector);
    assert((0xC0u8 | (((scalar >> 6) & 0x1F) as u8)) != 0xffu8) by (bit_vector);
    assert((0xE0u8 | (((scalar >> 12) & 0x0F) as u8)) != 0xffu8) by (bit_vector);
    assert((0xF0u8 | (((scalar >> 18) & 0x7) as u8)) != 0xffu8) by (bit_vector);
    assert((0x80u8 | ((scalar & 0x3F) as u8)) != 0xffu8) by (bit_vector);
    assert((0x80u8 | (((scalar >> 6) & 0x3F) as u8)) != 0xffu8) by (bit_vector);
    assert((0x80u8 | (((scalar >> 12) & 0x3F) as u8)) != 0xffu8) by (bit_vector);
}

/// The field terminator never occurs inside UTF-8-encoded text: every byte
/// of a UTF-8 encoding is below it. The writes of `spec_hash_input`, even
/// read as one concatenated byte stream the way the hasher reads them,
/// therefore still show where each field ends.
pub proof fn lemma_terminator_never_in_utf8(chars: Seq<char>, i: int)
    requires
        0 <= i < encode_utf8(chars).len(),
    ensures
        encode_utf8(chars)[i] != FIELD_TERMINATOR,
    decreases chars.len(),
{
    if chars.len() > 0 {
        let head = encode_scalar(chars[0] as u32);
        if i < head.len() {
            lemma_encode_scalar_no_terminator(chars[0] as u32, i);
        } else {
            lemma_terminator_never_in_utf8(chars.drop_first(), i - head.len());
        }
    }
}

/// Fingerprint determinism: two requests that are equal field by field have
/// equal fingerprints.
pub proof fn lemma_fingerprint_deterministic(r1: &TranslationRequest, r2: &TranslationRequest)
    requires
        r1.source_language_code@ == r2.source_language_code@,
        r1.target_language_code@ == r2.target_language_code@,
        r1.text@ == r2.text@,
    ensures
        spec_fingerprint(r1.source_language_code@, r1.target_language_code@, r1.text@)
            == spec_fingerprint(r2.source_language_code@, r2.target_language_code@, r2.text@),
{
}

/// The hasher input determines the request: two requests feed the hasher the
/// same writes only if they are equal field by field. The same holds of the
/// writes read as one concatenated byte stream, as the hasher reads them:
/// the terminator byte after each field never occurs inside UTF-8-encoded
/// text, so the concatenated bytes still show where each field ends. A
/// fingerprint collision between distinct requests can therefore arise only
/// inside the 64-bit hash itself, never from the way the fields are
/// combined.
pub proof fn lemma_hash_input_injective(
    s1: Seq<char>,
    t1: Seq<char>,
    x1: Seq<char>,
    s2: Seq<char>,
    t2: Seq<char>,
    x2: Seq<char>,
)
    requires
        spec_hash_input(s1, t1, x1) == spec_hash_input(s2, t2, x2),
    ensures
        s1 == s2,
        t1 == t2,
        x1 == x2,
{
    assert(encode_utf8(s1) == encode_utf8(s2)) by {
        assert(spec_hash_input(s1, t1, x1)[0] == spec_hash_input(s2, t2, x2)[0]);
    }
    assert(encode_utf8(t1) == encode_utf8(t2)) by {
        assert(spec_hash_input(s1, t1, x1)[2] == spec_hash_input(s2, t2, x2)[2]);
    }
    assert(encode_utf8(x1) == encode_utf8(x2)) by {
        assert(spec_hash_input(s1, t1, x1)[4] == spec_hash_input(s2, t2, x2)[4]);
    }
    encode_utf8_decode_utf8(s1);
    encode_utf8_decode_utf8(s2);
    encode_utf8_decode_utf8(t1);
    encode_utf8_decode_utf8(t2);
    encode_utf8_decode_utf8(x1);
    encode_utf8_decode_utf8(x2);
    assert(s1 == decode_utf8(encode_utf8(s1)));
    assert(t1 == decode_utf8(encode_utf8(t1)));
    assert(x1 == decode_utf8(encode_utf8(x1)));
}

} // verus!
