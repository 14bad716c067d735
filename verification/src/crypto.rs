//! The RSA step of an encrypted login: the shared secret and the verify token
//! are encrypted with the server's public key (PKCS#1 padding) and cut to
//! their first 16 bytes.

use vstd::prelude::*;
use openssl::error::ErrorStack;
use openssl::pkey::Public;
use openssl::rsa::{Padding, Rsa};

verus! {

/// How many bytes of a ciphertext the login keeps.
pub const CIPHERTEXT_PREFIX_LEN: usize = 16;

/// Why encrypting for the server failed.
#[derive(Clone, Copy, Debug, PartialEq, Eq, Structural)]
pub enum CryptoError {
    /// The server's key is not a DER-encoded RSA public key.
    KeyRejected,
    /// The encryption failed.
    EncryptionFailed,
    /// The ciphertext is shorter than the bytes the login keeps of it.
    ShortCiphertext,
}

#[verifier::external_type_specification]
#[verifier::external_body]
pub struct ExErrorStack(ErrorStack);

/// Whether `der` is a DER-encoded SubjectPublicKeyInfo holding an RSA key, as
/// OpenSSL's decoder judges it.
pub uninterp spec fn der_is_rsa_public_key(der: Seq<u8>) -> bool;

/// Whether `ciphertext` is an RSA encryption of `data`, with PKCS#1 v1.5
/// padding, under the RSA public key that `der` encodes. The padding is random,
/// so one `data` has many ciphertexts under one key.
pub uninterp spec fn pkcs1_ciphertext_of(der: Seq<u8>, data: Seq<u8>, ciphertext: Seq<u8>) -> bool;

/// What an attempt to decode a key and encrypt with it gave, as plain values:
/// the decoding failed (`Err`), the encryption failed (`Ok(Err)`), or this
/// ciphertext (`Ok(Ok)`).
pub open spec fn attempt_view(outcome: Result<Result<Vec<u8>, ErrorStack>, ErrorStack>) -> Result<
    Result<Seq<u8>, ()>,
    (),
> {
    match outcome {
        Err(_) => Err(()),
        Ok(Err(_)) => Ok(Err(())),
        Ok(Ok(c)) => Ok(Ok(c@)),
    }
}

/// Whether `attempt` is what an attempt to decode the key `der` and encrypt
/// `data` with it gave. The padding is random, so this is a relation that
/// every outcome satisfies, not a function.
pub uninterp spec fn encryption_attempted(
    der: Seq<u8>,
    data: Seq<u8>,
    attempt: Result<Result<Seq<u8>, ()>, ()>,
) -> bool;

/// Whether `c` is the first 16 bytes of an encryption of `data` under the key
/// `der`.
pub open spec fn is_encrypted_prefix(der: Seq<u8>, data: Seq<u8>, c: Seq<u8>) -> bool {
    exists|full: Seq<u8>|
        #[trigger] pkcs1_ciphertext_of(der, data, full) && c == full.take(
            CIPHERTEXT_PREFIX_LEN as int,
        )
}

/// `openssl::rsa::Rsa::public_key_from_der`, then `openssl::rsa::RsaRef::public_encrypt`
/// with PKCS#1 padding into a buffer of the key's size (`RsaRef::size`), which
/// is what `public_encrypt` asks of its output buffer. The outer result is the
/// decoding: claimed, it succeeds exactly when the bytes are an RSA public key
/// (a function of the bytes alone). The inner result is the encryption:
/// claimed, a ciphertext it gives is an encryption of `data` under that key.
/// The outcome is claimed to be that of this attempt on these arguments.
/// The source panics when `data` is longer than `i32::MAX` bytes, which
/// `requires` leaves out. The padding is random, so the ciphertext's bytes are
/// not claimed, nor when the encryption fails.
#[verifier::external_body]
fn rsa_encrypt_pkcs1(der: &[u8], data: &[u8]) -> (r: Result<Result<Vec<u8>, ErrorStack>, ErrorStack>)
    requires
        data@.len() <= i32::MAX,
    ensures
        encryption_attempted(der@, data@, attempt_view(r)),
        r is Ok <==> der_is_rsa_public_key(der@),
        r matches Ok(Ok(c)) ==> pkcs1_ciphertext_of(der@, data@, c@),
{
    let key: Rsa<Public> = Rsa::public_key_from_der(der)?;
    let mut to = vec![0u8; key.size() as usize];
    Ok(key.public_encrypt(data, &mut to, Padding::PKCS1).map(|_| to))
}

/// The first 16 bytes of a ciphertext, or `None` when it is shorter.
pub fn ciphertext_prefix(ciphertext: &Vec<u8>) -> (r: Option<Vec<u8>>)
    ensures
        ciphertext@.len() >= CIPHERTEXT_PREFIX_LEN ==> (r matches Some(p) && p@ == ciphertext@.take(
            CIPHERTEXT_PREFIX_LEN as int,
        )),
        ciphertext@.len() < CIPHERTEXT_PREFIX_LEN ==> r is None,
{
    if ciphertext.len() < CIPHERTEXT_PREFIX_LEN {
        return None;
    }
    let mut out: Vec<u8> = Vec::new();
    let mut i: usize = 0;
    while i < CIPHERTEXT_PREFIX_LEN
        invariant
            i <= CIPHERTEXT_PREFIX_LEN,
            CIPHERTEXT_PREFIX_LEN <= ciphertext@.len(),
            out@ == ciphertext@.take(i as int),
        decreases CIPHERTEXT_PREFIX_LEN - i,
    {
        out.push(ciphertext[i]);
        i = i + 1;
        assert(out@ =~= ciphertext@.take(i as int));
    }
    Some(out)
}

/// What the login keeps of an attempt to encrypt: a key that does not decode
/// is `KeyRejected`; a failed encryption is `EncryptionFailed`; a ciphertext is
/// cut to its first 16 bytes, or is `ShortCiphertext` when it is shorter.
pub open spec fn encryption_kept(attempt: Result<Result<Seq<u8>, ()>, ()>) -> Result<
    Seq<u8>,
    CryptoError,
> {
    match attempt {
        Err(_) => Err(CryptoError::KeyRejected),
        Ok(Err(_)) => Err(CryptoError::EncryptionFailed),
        Ok(Ok(c)) => if c.len() >= CIPHERTEXT_PREFIX_LEN {
            Ok(c.take(CIPHERTEXT_PREFIX_LEN as int))
        } else {
            Err(CryptoError::ShortCiphertext)
        },
    }
}

/// The view of an encryption result: the bytes of a success, or the error.
pub open spec fn result_view(r: Result<Vec<u8>, CryptoError>) -> Result<Seq<u8>, CryptoError> {
    match r {
        Ok(c) => Ok(c@),
        Err(e) => Err(e),
    }
}

/// What an attempt to decode the server's key and encrypt with it may give,
/// as `rsa_encrypt_pkcs1` states it.
pub open spec fn possible_encryption(
    der: Seq<u8>,
    data: Seq<u8>,
    attempt: Result<Result<Seq<u8>, ()>, ()>,
) -> bool {
    &&& (attempt is Ok <==> der_is_rsa_public_key(der))
    &&& attempt matches Ok(Ok(c)) ==> pkcs1_ciphertext_of(der, data, c)
}

/// The result that the login keeps of an attempt to decode the server's key
/// and encrypt with it.
pub fn encryption_result(outcome: Result<Result<Vec<u8>, ErrorStack>, ErrorStack>) -> (r: Result<
    Vec<u8>,
    CryptoError,
>)
    ensures
        result_view(r) == encryption_kept(attempt_view(outcome)),
{
    match outcome {
        Err(_) => Err(CryptoError::KeyRejected),
        Ok(Err(_)) => Err(CryptoError::EncryptionFailed),
        Ok(Ok(c)) => match ciphertext_prefix(&c) {
            Some(prefix) => Ok(prefix),
            None => Err(CryptoError::ShortCiphertext),
        },
    }
}

/// Encrypts `data` with the server's DER-encoded RSA public key and keeps the
/// first 16 bytes of the ciphertext: the result is what `encryption_result`
/// keeps of the attempt that this call made to decode the key and encrypt
/// `data` with it. Fails
/// with `KeyRejected` exactly when the key does not decode; a success is the
/// first 16 bytes of an encryption of `data` under that key (the ciphertext
/// itself is random, and whether the encryption succeeds is OpenSSL's).
pub fn encrypt_for_server(public_key: &[u8], data: &[u8]) -> (r: Result<Vec<u8>, CryptoError>)
    requires
        data@.len() <= i32::MAX,
    ensures
        exists|attempt: Result<Result<Seq<u8>, ()>, ()>|
            #[trigger] encryption_attempted(public_key@, data@, attempt) && possible_encryption(
                public_key@,
                data@,
                attempt,
            ) && result_view(r) == encryption_kept(attempt),
        r matches Ok(c) ==> c@.len() == CIPHERTEXT_PREFIX_LEN && is_encrypted_prefix(
            public_key@,
            data@,
            c@,
        ),
        r == Err::<Vec<u8>, CryptoError>(CryptoError::KeyRejected) <==> !der_is_rsa_public_key(
            public_key@,
        ),
{
    let outcome = rsa_encrypt_pkcs1(public_key, data);
    let ghost attempt = attempt_view(outcome);
    let r = encryption_result(outcome);
    proof {
        assert(encryption_attempted(public_key@, data@, attempt));
        assert(possible_encryption(public_key@, data@, attempt));
        assert(result_view(r) == encryption_kept(attempt));
        if let Ok(Ok(c)) = attempt {
            if r is Ok {
                assert(pkcs1_ciphertext_of(public_key@, data@, c));
            }
        }
    }
    r
}

} // verus!
