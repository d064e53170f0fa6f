//! Checksums: an algorithm and the digest it is expected to give.
//!
//! A checksum is written `<algorithm>:<hex digest>`. The digest of the data
//! is computed with the named algorithm, written in lower-case hexadecimal,
//! and compared with the expected digest, whose capital letters count as
//! their lower-case forms.

use vstd::prelude::*;

use crate::error::{fault, BuildError, ErrorKind, ErrorView};
use crate::text::{
    ascii_lower, chars_of, find_from, lemma_find_from, lemma_find_from_is, lowered, position,
    spells, string_of, to_ascii_lower,
};

verus! {

/// A hash function the library can compute.
#[derive(Debug, Clone, Copy, PartialEq, Eq, Structural)]
pub enum HashAlgorithm {
    Blake3,
    Sha256,
}

/// The BLAKE3 hash of `data`, as `blake3::hash` computes it.
pub uninterp spec fn blake3_digest(data: Seq<u8>) -> Seq<u8>;

/// The SHA-256 hash of `data`, as `sha2::Sha256` computes it.
pub uninterp spec fn sha256_digest(data: Seq<u8>) -> Seq<u8>;

/// The digest of `data` under `algorithm`.
pub open spec fn digest_of(algorithm: HashAlgorithm, data: Seq<u8>) -> Seq<u8> {
    match algorithm {
        HashAlgorithm::Blake3 => blake3_digest(data),
        HashAlgorithm::Sha256 => sha256_digest(data),
    }
}

/// The name under which a checksum refers to `algorithm`.
pub open spec fn algorithm_name(algorithm: HashAlgorithm) -> Seq<char> {
    match algorithm {
        HashAlgorithm::Blake3 => "blake3"@,
        HashAlgorithm::Sha256 => "sha256"@,
    }
}

/// The algorithm that a checksum calls `name`, if the library has it.
pub open spec fn algorithm_named(name: Seq<char>) -> Option<HashAlgorithm> {
    if name == "blake3"@ {
        Some(HashAlgorithm::Blake3)
    } else if name == "sha256"@ {
        Some(HashAlgorithm::Sha256)
    } else {
        None
    }
}

/// The lower-case hexadecimal digit of value `n`, for `n` below 16.
pub open spec fn hex_digit(n: int) -> char {
    "0123456789abcdef"@[n]
}

/// `bytes` in lower-case hexadecimal: two digits for each byte, the high
/// half first.
pub open spec fn hex_lower(bytes: Seq<u8>) -> Seq<char> {
    Seq::new(
        2 * bytes.len(),
        |i: int|
            if i % 2 == 0 {
                hex_digit(bytes[i / 2] as int / 16)
            } else {
                hex_digit(bytes[i / 2] as int % 16)
            },
    )
}

/// The digest of `data` under `algorithm`, in lower-case hexadecimal.
pub open spec fn hex_digest(algorithm: HashAlgorithm, data: Seq<u8>) -> Seq<char> {
    hex_lower(digest_of(algorithm, data))
}

/// `blake3::hash`: the 32 bytes of the BLAKE3 hash of `data`.
#[verifier::external_body]
fn blake3_hash(data: &[u8]) -> (digest: [u8; 32])
    ensures
        digest@ == blake3_digest(data@),
{
    *blake3::hash(data).as_bytes()
}

/// `blake3::Hash::to_hex`: the bytes of a hash in lower-case hexadecimal,
/// two digits for each byte.
#[verifier::external_body]
fn blake3_hex(digest: [u8; 32]) -> (hex: String)
    ensures
        hex@ == hex_lower(digest@),
{
    blake3::Hash::from_bytes(digest).to_hex().to_string()
}

/// `sha2::Sha256::digest`: the 32 bytes of the SHA-256 hash of `data`.
#[verifier::external_body]
fn sha256_hash(data: &[u8]) -> (digest: [u8; 32])
    ensures
        digest@ == sha256_digest(data@),
{
    <sha2::Sha256 as sha2::Digest>::digest(data).into()
}

/// `base16ct::lower::encode_string`: `bytes` in lower-case hexadecimal, two
/// digits for each byte. It panics on an input of more than `usize::MAX / 2`
/// bytes, which the precondition leaves out.
#[verifier::external_body]
fn base16_lower(bytes: &[u8]) -> (hex: String)
    requires
        bytes@.len() <= usize::MAX / 2,
    ensures
        hex@ == hex_lower(bytes@),
{
    base16ct::lower::encode_string(bytes)
}

impl HashAlgorithm {
    /// The algorithm that a checksum calls `chars[from..to]`.
    fn named(chars: &Vec<char>, from: usize, to: usize) -> (algorithm: Option<HashAlgorithm>)
        requires
            from <= to <= chars@.len(),
        ensures
            algorithm == algorithm_named(chars@.subrange(from as int, to as int)),
    {
        if spells(chars, from, to, "blake3") {
            Some(HashAlgorithm::Blake3)
        } else if spells(chars, from, to, "sha256") {
            Some(HashAlgorithm::Sha256)
        } else {
            None
        }
    }

    /// The digest of `data`, in lower-case hexadecimal.
    pub fn digest_hex(&self, data: &[u8]) -> (hex: String)
        ensures
            hex@ == hex_digest(*self, data@),
    {
        match self {
            HashAlgorithm::Blake3 => blake3_hex(blake3_hash(data)),
            HashAlgorithm::Sha256 => {
                let digest = sha256_hash(data);
                base16_lower(digest.as_slice())
            },
        }
    }
}

/// An expected digest and the algorithm that is to give it.
#[derive(Debug, Clone, PartialEq, Eq)]
pub struct Checksum {
    pub algorithm: HashAlgorithm,
    /// The expected digest in hexadecimal, as the manifest wrote it.
    pub digest: String,
}

/// The mathematical content of a [`Checksum`].
pub struct ChecksumView {
    pub algorithm: HashAlgorithm,
    pub digest: Seq<char>,
}

impl View for Checksum {
    type V = ChecksumView;

    open spec fn view(&self) -> ChecksumView {
        ChecksumView { algorithm: self.algorithm, digest: self.digest@ }
    }
}

/// What the checksum `text` says: the algorithm named before the first `:`
/// and the digest after it. A text without `:` and a text that names an
/// unknown algorithm are refused.
pub open spec fn parsed(text: Seq<char>) -> Result<ChecksumView, ErrorView> {
    let colon = find_from(text, ':', 0);
    if colon >= text.len() {
        Err(fault(ErrorKind::InvalidChecksumFormat, text))
    } else {
        match algorithm_named(text.subrange(0, colon)) {
            Some(algorithm) => Ok(
                ChecksumView { algorithm, digest: text.subrange(colon + 1, text.len() as int) },
            ),
            None => Err(fault(ErrorKind::UnsupportedHashAlgorithm, text.subrange(0, colon))),
        }
    }
}

/// Whether `data` has the digest that `checksum` expects.
pub open spec fn agrees(checksum: ChecksumView, data: Seq<u8>) -> bool {
    lowered(checksum.digest) == hex_digest(checksum.algorithm, data)
}

/// Whether `data` has the digest that the checksum `text` expects, or why
/// `text` is no checksum.
pub open spec fn verified(data: Seq<u8>, text: Seq<char>) -> Result<bool, ErrorView> {
    match parsed(text) {
        Ok(checksum) => Ok(agrees(checksum, data)),
        Err(e) => Err(e),
    }
}

impl Checksum {
    /// Reads a checksum of the form `<algorithm>:<hex digest>`.
    pub fn parse(text: &str) -> (result: Result<Checksum, BuildError>)
        ensures
            match result {
                Ok(checksum) => parsed(text@) == Ok::<ChecksumView, ErrorView>(checksum@),
                Err(e) => parsed(text@) == Err::<ChecksumView, ErrorView>(e@),
            },
    {
        let chars = chars_of(text);
        let colon = position(&chars, ':');
        if colon >= chars.len() {
            let subject = string_of(&chars, 0, chars.len());
            assert(chars@.subrange(0, chars@.len() as int) == chars@);
            return Err(BuildError::new(ErrorKind::InvalidChecksumFormat, subject));
        }
        match HashAlgorithm::named(&chars, 0, colon) {
            Some(algorithm) => Ok(
                Checksum { algorithm, digest: string_of(&chars, colon + 1, chars.len()) },
            ),
            None => Err(
                BuildError::new(ErrorKind::UnsupportedHashAlgorithm, string_of(&chars, 0, colon)),
            ),
        }
    }

    /// Whether `data` has the expected digest.
    pub fn matches(&self, data: &[u8]) -> (same: bool)
        ensures
            same == agrees(self@, data@),
    {
        let computed = chars_of(self.algorithm.digest_hex(data).as_str());
        let expected = chars_of(self.digest.as_str());
        if expected.len() != computed.len() {
            return false;
        }
        let mut i: usize = 0;
        while i < expected.len()
            invariant
                i <= expected@.len(),
                expected@ == self.digest@,
                computed@ == hex_digest(self.algorithm, data@),
                expected@.len() == computed@.len(),
                forall|k: int| 0 <= k < i ==> ascii_lower(expected@[k]) == computed@[k],
            decreases expected@.len() - i,
        {
            if to_ascii_lower(expected[i]) != computed[i] {
                assert(lowered(expected@)[i as int] != computed@[i as int]);
                return false;
            }
            i += 1;
        }
        assert(lowered(expected@) =~= computed@);
        true
    }
}

/// Checks the full content of a file against a checksum of the form
/// `<algorithm>:<hex digest>`.
///
/// The answer is whether the digest of `data` under the named algorithm is
/// the expected one. A checksum without `:` is refused before anything is
/// hashed, and so is one that names an unknown algorithm.
pub fn check_hash(data: &[u8], hash: &str) -> (result: Result<bool, BuildError>)
    ensures
        match result {
            Ok(same) => verified(data@, hash@) == Ok::<bool, ErrorView>(same),
            Err(e) => verified(data@, hash@) == Err::<bool, ErrorView>(e@),
        },
        !hash@.contains(':') ==> result is Err && result->Err_0@ == fault(
            ErrorKind::InvalidChecksumFormat,
            hash@,
        ),
{
    proof {
        lemma_find_from(hash@, ':', 0);
    }
    match Checksum::parse(hash) {
        Ok(checksum) => Ok(checksum.matches(data)),
        Err(e) => Err(e),
    }
}

/// Hexadecimal written by [`hex_lower`] holds no capital letter.
pub proof fn lemma_hex_is_lower_case(bytes: Seq<u8>)
    ensures
        lowered(hex_lower(bytes)) == hex_lower(bytes),
{
    reveal_strlit("0123456789abcdef");
    let hex = hex_lower(bytes);
    assert forall|i: int| 0 <= i < hex.len() implies ascii_lower(hex[i]) == hex[i] by {
        let byte = bytes[i / 2] as int;
        let n = if i % 2 == 0 {
            byte / 16
        } else {
            byte % 16
        };
        assert(0 <= n < 16);
        assert(hex[i] == "0123456789abcdef"@[n]);
    }
    assert(lowered(hex) =~= hex);
}

/// A checksum made of an algorithm's name, `:` and some digest is read as
/// that algorithm and that digest.
pub proof fn lemma_parsed_parts(algorithm: HashAlgorithm, digest: Seq<char>)
    ensures
        parsed(algorithm_name(algorithm) + seq![':'] + digest) == Ok::<ChecksumView, ErrorView>(
            ChecksumView { algorithm, digest },
        ),
{
    reveal_strlit("blake3");
    reveal_strlit("sha256");
    let name = algorithm_name(algorithm);
    let text = name + seq![':'] + digest;
    assert(name.len() == 6);
    assert forall|k: int| 0 <= k < 6 implies text[k] != ':' by {
        assert(text[k] == name[k]);
    }
    assert(text[6] == ':');
    lemma_find_from_is(text, ':', 0, 6);
    assert(text.subrange(0, 6) == name);
    assert(text.subrange(7, text.len() as int) == digest);
    assert("sha256"@[0] != "blake3"@[0]);
}

/// The checksum that names an algorithm and holds the digest of the data
/// under that algorithm verifies the data.
pub proof fn lemma_correct_digest_verifies(data: Seq<u8>, algorithm: HashAlgorithm)
    ensures
        verified(data, algorithm_name(algorithm) + seq![':'] + hex_digest(algorithm, data)) == Ok::<
            bool,
            ErrorView,
        >(true),
{
    lemma_parsed_parts(algorithm, hex_digest(algorithm, data));
    lemma_hex_is_lower_case(digest_of(algorithm, data));
}

/// Once one character of the correct digest is replaced by a character that
/// is not the same hexadecimal digit, the checksum no longer verifies the
/// data. A capital letter is the same digit as its lower-case form.
pub proof fn lemma_flipped_digest_rejected(
    data: Seq<u8>,
    algorithm: HashAlgorithm,
    at: int,
    c: char,
)
    requires
        0 <= at < hex_digest(algorithm, data).len(),
        ascii_lower(c) != hex_digest(algorithm, data)[at],
    ensures
        verified(
            data,
            algorithm_name(algorithm) + seq![':'] + hex_digest(algorithm, data).update(at, c),
        ) == Ok::<bool, ErrorView>(false),
{
    let flipped = hex_digest(algorithm, data).update(at, c);
    lemma_parsed_parts(algorithm, flipped);
    assert(lowered(flipped)[at] == ascii_lower(c));
}

/// A text without `:` is no checksum, whatever the data.
pub proof fn lemma_no_separator_refused(data: Seq<u8>, text: Seq<char>)
    requires
        !text.contains(':'),
    ensures
        verified(data, text) == Err::<bool, ErrorView>(
            fault(ErrorKind::InvalidChecksumFormat, text),
        ),
{
    lemma_find_from(text, ':', 0);
}

} // verus!
