use openssl::rsa::Rsa;
use rust_mc::crypto::{ciphertext_prefix, encrypt_for_server, encryption_result, CryptoError};

#[test]
fn encrypted_secret_is_sixteen_random_bytes() {
    let key = Rsa::generate(1024).unwrap();
    let der = key.public_key_to_der().unwrap();
    let secret = [7u8; 16];
    let enc = encrypt_for_server(&der, &secret).unwrap();
    assert_eq!(enc.len(), 16);
    // The 16 bytes are a prefix of a ciphertext, not the secret itself.
    assert_ne!(enc.as_slice(), &secret[..]);
    // PKCS#1 padding is random: two encryptions of the same secret differ.
    let again = encrypt_for_server(&der, &secret).unwrap();
    assert_ne!(enc, again);
}

#[test]
fn bad_key_is_rejected() {
    assert_eq!(encrypt_for_server(&[1, 2, 3], &[0u8; 16]), Err(CryptoError::KeyRejected));
}

#[test]
fn ciphertext_prefix_cuts_or_refuses() {
    let long: Vec<u8> = (0u8..20).collect();
    assert_eq!(ciphertext_prefix(&long), Some((0u8..16).collect()));
    let short: Vec<u8> = vec![1, 2, 3];
    assert_eq!(ciphertext_prefix(&short), None);
}

#[test]
fn encryption_result_keeps_prefix_or_reports() {
    let long: Vec<u8> = (0u8..20).collect();
    assert_eq!(encryption_result(Ok(Ok(long))), Ok((0u8..16).collect()));
    assert_eq!(encryption_result(Ok(Ok(vec![1, 2]))), Err(CryptoError::ShortCiphertext));
    let key_error = Rsa::public_key_from_der(&[1, 2, 3]).unwrap_err();
    assert_eq!(encryption_result(Err(key_error)), Err(CryptoError::KeyRejected));
    let encrypt_error = Rsa::public_key_from_der(&[4]).unwrap_err();
    assert_eq!(encryption_result(Ok(Err(encrypt_error))), Err(CryptoError::EncryptionFailed));
}
