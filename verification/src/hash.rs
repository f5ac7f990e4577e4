//! Fixed-size hashes, the merge of Merkle Mountain Range nodes, and hashes
//! read from hex strings.
use vstd::prelude::*;
use vstd::utf8::encode_utf8;

use blake2::Digest;

use crate::hexadecimal::{
    bytes32, decode_prefixed_hex32, lemma_bytes32_of_seq, lemma_bytes32_view, lemma_reads_prefixed_hex32,
    parse_prefixed_hex32, parse_prefixed_hex32_or, reads_prefixed_hex32, HexKeyError,
};

verus! {

/// A 256-bit hash.
#[derive(Clone, Copy, Debug, PartialEq, Eq, PartialOrd, Ord, Hash)]
pub struct H256(pub [u8; 32]);

/// A 160-bit hash; clusters are identified by one.
#[derive(Clone, Copy, Debug, PartialEq, Eq, PartialOrd, Ord, Hash)]
pub struct H160(pub [u8; 20]);

impl Default for H256 {
    /// The hash whose bytes are all zero.
    fn default() -> (hash: H256)
        ensures
            forall|i: int| 0 <= i < 32 ==> hash.0@[i] == 0u8,
    {
        H256([0u8; 32])
    }
}

impl Default for H160 {
    /// The hash whose bytes are all zero.
    fn default() -> (hash: H160)
        ensures
            forall|i: int| 0 <= i < 20 ==> hash.0@[i] == 0u8,
    {
        H160([0u8; 20])
    }
}

/// The BLAKE2s-256 digest of a byte string.
pub uninterp spec fn blake2s256(data: Seq<u8>) -> Seq<u8>;

/// Calls `blake2::Blake2s256`: a fresh hasher, fed `data`, finalized. Its
/// 32 bytes are the BLAKE2s-256 digest of `data`, a function of `data` alone.
#[verifier::external_body]
fn blake2s256_digest(data: &[u8]) -> (digest: [u8; 32])
    ensures
        digest@ == blake2s256(data@),
{
    let mut hasher = blake2::Blake2s256::new();
    hasher.update(data);
    hasher.finalize().into()
}

/// Merges two nodes of a Merkle Mountain Range into their parent.
#[derive(Clone, Copy, Debug)]
pub struct MergeMMRHash;

impl MergeMMRHash {
    /// The parent of two nodes: the BLAKE2s-256 digest of the left node's
    /// bytes followed by the right node's. The merge cannot fail.
    pub fn merge(lhs: &H256, rhs: &H256) -> (parent: H256)
        ensures
            parent.0@ == blake2s256(lhs.0@ + rhs.0@),
    {
        let mut data: Vec<u8> = Vec::with_capacity(64);
        let mut i: usize = 0;
        while i < 32
            invariant
                0 <= i <= 32,
                data@ == lhs.0@.subrange(0, i as int),
            decreases 32 - i,
        {
            data.push(lhs.0[i]);
            i = i + 1;
        }
        let mut j: usize = 0;
        while j < 32
            invariant
                0 <= j <= 32,
                data@ == lhs.0@ + rhs.0@.subrange(0, j as int),
            decreases 32 - j,
        {
            data.push(rhs.0[j]);
            j = j + 1;
        }
        assert(data@ =~= lhs.0@ + rhs.0@);
        let hash = blake2s256_digest(data.as_slice());
        H256(hash)
    }
}

/// What reading a string as a 256-bit hash gives: the hash, or the message
/// that says why the string is not one.
pub open spec fn h256_from_text(text: Seq<u8>) -> Result<H256, &'static str> {
    match parse_prefixed_hex32(text) {
        Ok(bytes) => Ok(H256(bytes32(bytes))),
        Err(HexKeyError::NotPrefixedHex32) => Err(
            "Input must be a 32-byte hex string started with '0x'",
        ),
        Err(HexKeyError::InvalidHexDigit) => Err("Input must be a valid hex string"),
    }
}

/// The bytes of the hash that a reading gave, or its error.
pub open spec fn h256_bytes_or(res: Result<H256, &'static str>) -> Result<Seq<u8>, &'static str> {
    match res {
        Ok(hash) => Ok(hash.0@),
        Err(e) => Err(e),
    }
}

/// The error when a string is not `0x` followed by 64 bytes.
pub open spec fn hash_format_error() -> &'static str {
    "Input must be a 32-byte hex string started with '0x'"
}

/// The error when the 64 bytes after `0x` are not all hex digits.
pub open spec fn hash_digit_error() -> &'static str {
    "Input must be a valid hex string"
}

/// Reading a hash from text does what [`reads_prefixed_hex32`] asks.
pub proof fn lemma_h256_text_reader(text: Seq<u8>)
    ensures
        reads_prefixed_hex32(
            text,
            h256_bytes_or(h256_from_text(text)),
            hash_format_error(),
            hash_digit_error(),
        ),
{
    lemma_reads_prefixed_hex32(text, hash_format_error(), hash_digit_error());
    if let Ok(bytes) = parse_prefixed_hex32(text) {
        lemma_bytes32_of_seq(bytes);
    }
    assert(h256_bytes_or(h256_from_text(text)) == parse_prefixed_hex32_or(
        text,
        hash_format_error(),
        hash_digit_error(),
    ));
}

/// Reads `0x` followed by 64 hex digits (either case) as a 256-bit hash.
pub fn try_hex_from_string(value: String) -> (res: Result<H256, &'static str>)
    ensures
        res == h256_from_text(encode_utf8(value@)),
        reads_prefixed_hex32(
            encode_utf8(value@),
            h256_bytes_or(res),
            hash_format_error(),
            hash_digit_error(),
        ),
{
    proof {
        lemma_h256_text_reader(encode_utf8(value@));
    }
    match decode_prefixed_hex32(value.as_str()) {
        Ok(hash) => {
            proof {
                lemma_bytes32_view(hash);
            }
            Ok(H256(hash))
        },
        Err(HexKeyError::NotPrefixedHex32) => Err(
            "Input must be a 32-byte hex string started with '0x'",
        ),
        Err(HexKeyError::InvalidHexDigit) => Err("Input must be a valid hex string"),
    }
}

} // verus!
