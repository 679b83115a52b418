//! Object identifiers: a digest that names a tensor object by its content.
use crate::digest::{sha1_digest, sha1_of};
use crate::hex::{
    bytes_to_hex, hex_encode, is_lower_hex, lemma_hex_encode_concat, lemma_hex_encode_lowercase,
    lemma_hex_encode_utf8,
};
use vstd::prelude::*;
use vstd::slice::{slice_subrange, slice_to_vec};
use vstd::std_specs::convert::FromSpecImpl;
use vstd::string::StringSliceAdditionalSpecFns;
use vstd::utf8::{decode_utf8, encode_utf8, encode_utf8_decode_utf8, encode_utf8_valid_utf8, valid_utf8};

verus! {

/// The size of a digest in bytes (SHA-1 gives 160 bits).
pub const DIGEST_SIZE: usize = 20;

/// The number of leading digest bytes that name the shard of an object.
pub const PREFIX_SIZE: usize = 2;

/// The identifier of a tensor object, with one variant for each hash
/// algorithm. A value is never changed once it is made.
#[derive(Debug)]
pub enum ObjectId {
    /// A SHA-1 digest: 160 bits, 20 bytes.
    SHA1([u8; DIGEST_SIZE]),
}

impl View for ObjectId {
    type V = Seq<u8>;

    /// The raw bytes of the digest.
    open spec fn view(&self) -> Seq<u8> {
        match self {
            ObjectId::SHA1(bytes) => bytes@,
        }
    }
}

impl ObjectId {
    /// The identifier of the content `buf` under SHA-1.
    pub open spec fn spec_sha1(buf: Seq<u8>) -> ObjectId {
        ObjectId::SHA1(sha1_digest(buf))
    }

    /// The leading bytes of the digest, which name the shard.
    pub open spec fn prefix(&self) -> Seq<u8> {
        match self {
            ObjectId::SHA1(bytes) => bytes@.subrange(0, PREFIX_SIZE as int),
        }
    }

    /// The bytes of the digest after the prefix, which name the object within
    /// its shard.
    pub open spec fn suffix(&self) -> Seq<u8> {
        match self {
            ObjectId::SHA1(bytes) => bytes@.subrange(PREFIX_SIZE as int, DIGEST_SIZE as int),
        }
    }

    /// The canonical text: the digest in lowercase hexadecimal, two characters
    /// for each byte, with no separator and no prefix.
    pub open spec fn display(&self) -> Seq<char> {
        hex_encode(self@)
    }

    /// The canonical text as the bytes of its UTF-8 encoding.
    pub open spec fn display_bytes(&self) -> Seq<u8> {
        encode_utf8(self.display())
    }

    /// Hashes `buf` with SHA-1 and wraps the digest. Any buffer is accepted,
    /// the empty one too, and its bytes are hashed as they are.
    pub fn sha1(buf: &[u8]) -> (id: ObjectId)
        ensures
            id == ObjectId::spec_sha1(buf@),
    {
        ObjectId::SHA1(sha1_of(buf))
    }

    /// Appends the canonical text to `writer`, as UTF-8, and leaves what
    /// `writer` held before in place.
    pub fn write(&self, writer: &mut Vec<u8>)
        ensures
            final(writer)@ == old(writer)@ + self.display_bytes(),
    {
        let text = self.to_display_string();
        let bytes = text.as_str().as_bytes();
        writer.extend_from_slice(bytes);
        assert(writer@ =~= old(writer)@ + self.display_bytes());
    }

    /// Splits the digest into the prefix that names the shard and the rest.
    /// In hexadecimal the two parts are the two levels of a storage key, and
    /// read one after the other they are the canonical text.
    pub fn segment(&self) -> (parts: (&[u8], &[u8]))
        ensures
            parts.0@ == self.prefix(),
            parts.1@ == self.suffix(),
            parts.0@.len() == PREFIX_SIZE,
            parts.1@.len() == self@.len() - PREFIX_SIZE,
            parts.0@ + parts.1@ == self@,
            hex_encode(parts.0@) + hex_encode(parts.1@) == self.display(),
    {
        proof {
            lemma_segment_rebuilds(*self);
        }
        match self {
            ObjectId::SHA1(bytes) => {
                let all = bytes.as_slice();
                (slice_subrange(all, 0, PREFIX_SIZE), slice_subrange(all, PREFIX_SIZE, DIGEST_SIZE))
            },
        }
    }

    /// The canonical text of the identifier.
    pub fn to_display_string(&self) -> (text: String)
        ensures
            text@ == self.display(),
            text@.len() == 2 * DIGEST_SIZE,
            forall|i: int| 0 <= i < text@.len() ==> is_lower_hex(#[trigger] text@[i]),
    {
        proof {
            lemma_hex_encode_lowercase(self@);
        }
        match self {
            ObjectId::SHA1(bytes) => bytes_to_hex(bytes.as_slice()),
        }
    }
}

/// Whether two digests hold the same bytes.
fn same_bytes(left: &[u8; DIGEST_SIZE], right: &[u8; DIGEST_SIZE]) -> (same: bool)
    ensures
        same == (left@ == right@),
{
    let mut i: usize = 0;
    while i < DIGEST_SIZE
        invariant
            i <= DIGEST_SIZE,
            forall|k: int| 0 <= k < i ==> left@[k] == right@[k],
        decreases DIGEST_SIZE - i,
    {
        if left[i] != right[i] {
            return false;
        }
        i += 1;
    }
    assert(left@ =~= right@);
    true
}

/// Two identifiers are equal exactly when they are of the same variant and
/// hold the same bytes.
impl PartialEq for ObjectId {
    fn eq(&self, other: &ObjectId) -> (equal: bool) {
        proof {
            lemma_equal_by_bytes(*self, *other);
        }
        match (self, other) {
            (ObjectId::SHA1(left), ObjectId::SHA1(right)) => same_bytes(left, right),
        }
    }
}

impl vstd::std_specs::cmp::PartialEqSpecImpl for ObjectId {
    open spec fn obeys_eq_spec() -> bool {
        true
    }

    open spec fn eq_spec(&self, other: &ObjectId) -> bool {
        *self == *other
    }
}

impl Eq for ObjectId {

}

/// Wraps a digest that was computed elsewhere, without hashing anything.
impl From<[u8; DIGEST_SIZE]> for ObjectId {
    fn from(value: [u8; DIGEST_SIZE]) -> (id: ObjectId)
        ensures
            id == ObjectId::SHA1(value),
            id@ == value@,
    {
        ObjectId::SHA1(value)
    }
}

impl FromSpecImpl<[u8; DIGEST_SIZE]> for ObjectId {
    open spec fn obeys_from_spec() -> bool {
        true
    }

    open spec fn from_spec(value: [u8; DIGEST_SIZE]) -> ObjectId {
        ObjectId::SHA1(value)
    }
}

/// Hashes the UTF-8 encoding of `value` with SHA-1.
impl<'a> From<&'a str> for ObjectId {
    fn from(value: &'a str) -> (id: ObjectId)
        ensures
            id == ObjectId::spec_sha1(value.spec_bytes()),
    {
        ObjectId::sha1(value.as_bytes())
    }
}

impl<'a> FromSpecImpl<&'a str> for ObjectId {
    open spec fn obeys_from_spec() -> bool {
        true
    }

    open spec fn from_spec(value: &'a str) -> ObjectId {
        ObjectId::spec_sha1(value.spec_bytes())
    }
}

/// Hashes the bytes of `value` with SHA-1.
impl<'a> From<&'a [u8]> for ObjectId {
    fn from(value: &'a [u8]) -> (id: ObjectId)
        ensures
            id == ObjectId::spec_sha1(value@),
    {
        ObjectId::sha1(value)
    }
}

impl<'a> FromSpecImpl<&'a [u8]> for ObjectId {
    open spec fn obeys_from_spec() -> bool {
        true
    }

    open spec fn from_spec(value: &'a [u8]) -> ObjectId {
        ObjectId::spec_sha1(value@)
    }
}

/// The raw bytes of the digest, whichever algorithm made it.
impl From<ObjectId> for Vec<u8> {
    fn from(value: ObjectId) -> (bytes: Vec<u8>)
        ensures
            bytes@ == value@,
    {
        match value {
            ObjectId::SHA1(bytes) => slice_to_vec(bytes.as_slice()),
        }
    }
}

/// A vector is known by its view alone, so the result of the conversion is
/// stated there, in the `ensures` of `from`, and not as a value.
impl FromSpecImpl<ObjectId> for Vec<u8> {
    open spec fn obeys_from_spec() -> bool {
        false
    }

    open spec fn from_spec(value: ObjectId) -> Vec<u8> {
        arbitrary()
    }
}

/// The digest of an identifier has the length that its variant fixes.
pub proof fn lemma_digest_len(id: ObjectId)
    ensures
        id@.len() == DIGEST_SIZE,
{
}

/// Identifiers with the same bytes are the same identifier.
pub proof fn lemma_equal_by_bytes(left: ObjectId, right: ObjectId)
    ensures
        left == right <==> left@ == right@,
{
    if left@ == right@ {
        assert(left->SHA1_0 =~= right->SHA1_0);
    }
}

/// The canonical text of an identifier is forty characters long, each of them
/// one of `0`..`9` or `a`..`f`.
pub proof fn lemma_display_is_lowercase_hex(id: ObjectId)
    ensures
        id.display().len() == 2 * DIGEST_SIZE,
        forall|i: int| 0 <= i < id.display().len() ==> is_lower_hex(#[trigger] id.display()[i]),
{
    lemma_hex_encode_lowercase(id@);
}

/// Whatever bytes are hashed, the canonical text of their identifier is forty
/// lowercase hexadecimal characters.
pub proof fn lemma_sha1_display_is_lowercase_hex(buf: Seq<u8>)
    ensures
        ObjectId::spec_sha1(buf).display().len() == 40,
        forall|i: int|
            0 <= i < 40 ==> is_lower_hex(#[trigger] ObjectId::spec_sha1(buf).display()[i]),
{
    lemma_display_is_lowercase_hex(ObjectId::spec_sha1(buf));
}

/// Hashing is deterministic: two identifiers that `sha1` returns for buffers
/// with the same bytes are equal, in their bytes and in their canonical text.
pub proof fn lemma_sha1_deterministic(buf: Seq<u8>, first: ObjectId, second: ObjectId)
    requires
        first == ObjectId::spec_sha1(buf),
        second == ObjectId::spec_sha1(buf),
    ensures
        first == second,
        first@ == second@,
        first.display() == second.display(),
{
}

/// The prefix is two bytes, the suffix the eighteen that follow; joined they
/// are the digest, and their hexadecimal texts joined are the canonical text.
pub proof fn lemma_segment_rebuilds(id: ObjectId)
    ensures
        id.prefix().len() == PREFIX_SIZE,
        id.suffix().len() == DIGEST_SIZE - PREFIX_SIZE,
        id.prefix() + id.suffix() == id@,
        hex_encode(id.prefix()) + hex_encode(id.suffix()) == id.display(),
{
    assert(id.prefix() + id.suffix() =~= id@);
    lemma_hex_encode_concat(id.prefix(), id.suffix());
}

/// The bytes that `write` appends are valid UTF-8 and decode to the canonical
/// text: one byte for each character, its ASCII code.
pub proof fn lemma_written_bytes_decode(id: ObjectId)
    ensures
        valid_utf8(id.display_bytes()),
        decode_utf8(id.display_bytes()) == id.display(),
        id.display_bytes().len() == id.display().len(),
        forall|i: int|
            0 <= i < id.display().len() ==> #[trigger] id.display_bytes()[i] == id.display()[i] as u8,
{
    encode_utf8_valid_utf8(id.display());
    encode_utf8_decode_utf8(id.display());
    lemma_hex_encode_utf8(id@);
}

/// The bytes of the identifier that wraps `digest` are those of `digest`: what
/// is read back from it is what was put in.
pub proof fn lemma_raw_digest_round_trip(digest: [u8; DIGEST_SIZE])
    ensures
        ObjectId::SHA1(digest)@ == digest@,
{
}

} // verus!
