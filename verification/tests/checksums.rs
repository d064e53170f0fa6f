use blossom::check_hash;
use blossom::checksum::{Checksum, HashAlgorithm};
use blossom::error::ErrorKind;

const SHA256_ABC: &str = "ba7816bf8f01cfea414140de5dae2223b00361a396177a9cb410ff61f20015ad";
const SHA256_EMPTY: &str = "e3b0c44298fc1c149afbf4c8996fb92427ae41e4649b934ca495991b7852b855";
const BLAKE3_ABC: &str = "6437b3ac38465133ffb63b75273a8db548c558465d79db03fd359c6cd5bd9d85";
const BLAKE3_EMPTY: &str = "af1349b9f5f9a1a6a0404dea36dcc9499bcb25c9adc112b7cc9a93cae41f3262";

#[test]
fn sha256_digest_in_hex() {
    assert_eq!(HashAlgorithm::Sha256.digest_hex(b"abc"), SHA256_ABC);
    assert_eq!(HashAlgorithm::Sha256.digest_hex(b""), SHA256_EMPTY);
}

#[test]
fn blake3_digest_in_hex() {
    assert_eq!(HashAlgorithm::Blake3.digest_hex(b"abc"), BLAKE3_ABC);
    assert_eq!(HashAlgorithm::Blake3.digest_hex(b""), BLAKE3_EMPTY);
}

#[test]
fn correct_sha256_digest_verifies() {
    assert_eq!(check_hash(b"abc", &format!("sha256:{SHA256_ABC}")), Ok(true));
    assert_eq!(check_hash(b"", &format!("sha256:{SHA256_EMPTY}")), Ok(true));
}

#[test]
fn correct_blake3_digest_verifies() {
    assert_eq!(check_hash(b"abc", &format!("blake3:{BLAKE3_ABC}")), Ok(true));
    assert_eq!(check_hash(b"", &format!("blake3:{BLAKE3_EMPTY}")), Ok(true));
}

#[test]
fn computed_digest_verifies_its_data() {
    let data: Vec<u8> = (0..=255u8).cycle().take(5000).collect();
    for algorithm in [HashAlgorithm::Blake3, HashAlgorithm::Sha256] {
        let name = match algorithm {
            HashAlgorithm::Blake3 => "blake3",
            HashAlgorithm::Sha256 => "sha256",
        };
        let digest = algorithm.digest_hex(&data);
        assert_eq!(digest.len(), 64);
        assert_eq!(check_hash(&data, &format!("{name}:{digest}")), Ok(true));
    }
}

#[test]
fn capital_letters_in_the_digest_are_accepted() {
    let upper = SHA256_ABC.to_uppercase();
    assert_eq!(check_hash(b"abc", &format!("sha256:{upper}")), Ok(true));
    let upper = BLAKE3_ABC.to_uppercase();
    assert_eq!(check_hash(b"abc", &format!("blake3:{upper}")), Ok(true));
}

#[test]
fn every_flipped_digit_is_rejected() {
    for at in 0..SHA256_ABC.len() {
        let mut digest: Vec<char> = SHA256_ABC.chars().collect();
        digest[at] = if digest[at] == '0' { '1' } else { '0' };
        let digest: String = digest.into_iter().collect();
        assert_eq!(check_hash(b"abc", &format!("sha256:{digest}")), Ok(false));
    }
}

#[test]
fn digest_of_other_data_is_rejected() {
    assert_eq!(check_hash(b"abd", &format!("sha256:{SHA256_ABC}")), Ok(false));
    assert_eq!(check_hash(b"abd", &format!("blake3:{BLAKE3_ABC}")), Ok(false));
}

#[test]
fn digest_of_the_other_algorithm_is_rejected() {
    assert_eq!(check_hash(b"abc", &format!("sha256:{BLAKE3_ABC}")), Ok(false));
    assert_eq!(check_hash(b"abc", &format!("blake3:{SHA256_ABC}")), Ok(false));
}

#[test]
fn digest_of_another_length_is_rejected() {
    assert_eq!(check_hash(b"abc", "sha256:"), Ok(false));
    assert_eq!(check_hash(b"abc", &format!("sha256:{}", &SHA256_ABC[..63])), Ok(false));
    assert_eq!(check_hash(b"abc", &format!("sha256:{SHA256_ABC}0")), Ok(false));
    assert_eq!(check_hash(b"abc", &format!("sha256: {SHA256_ABC}")), Ok(false));
}

#[test]
fn checksum_without_separator_is_refused() {
    let e = check_hash(b"abc", SHA256_ABC).unwrap_err();
    assert_eq!(e.kind, ErrorKind::InvalidChecksumFormat);
    assert_eq!(e.subject, SHA256_ABC);
    let e = check_hash(b"abc", "").unwrap_err();
    assert_eq!(e.kind, ErrorKind::InvalidChecksumFormat);
    let e = check_hash(b"abc", "sha256").unwrap_err();
    assert_eq!(e.kind, ErrorKind::InvalidChecksumFormat);
    assert_eq!(e.subject, "sha256");
}

#[test]
fn unknown_algorithm_is_refused() {
    let e = check_hash(b"abc", "md5:900150983cd24fb0d6963f7d28e17f72").unwrap_err();
    assert_eq!(e.kind, ErrorKind::UnsupportedHashAlgorithm);
    assert_eq!(e.subject, "md5");
    let e = check_hash(b"abc", &format!("SHA256:{SHA256_ABC}")).unwrap_err();
    assert_eq!(e.kind, ErrorKind::UnsupportedHashAlgorithm);
    assert_eq!(e.subject, "SHA256");
    let e = check_hash(b"abc", &format!(":{SHA256_ABC}")).unwrap_err();
    assert_eq!(e.kind, ErrorKind::UnsupportedHashAlgorithm);
    assert_eq!(e.subject, "");
}

#[test]
fn only_the_first_separator_splits() {
    let checksum = Checksum::parse("sha256:ab:cd").unwrap();
    assert_eq!(checksum.algorithm, HashAlgorithm::Sha256);
    assert_eq!(checksum.digest, "ab:cd");
    assert_eq!(check_hash(b"abc", "sha256:ab:cd"), Ok(false));
}

#[test]
fn parse_keeps_the_digest_as_written() {
    let checksum = Checksum::parse("blake3:ABCdef").unwrap();
    assert_eq!(checksum.algorithm, HashAlgorithm::Blake3);
    assert_eq!(checksum.digest, "ABCdef");
}

#[test]
fn matches_agrees_with_check_hash() {
    let checksum = Checksum::parse(&format!("sha256:{SHA256_ABC}")).unwrap();
    assert!(checksum.matches(b"abc"));
    assert!(!checksum.matches(b"abcd"));
    assert!(!checksum.matches(b""));
}
