use crate::crypto::key::{Key128Bits, Key256Bits, Key512Bits};
use crate::crypto::nonce::{new_nonce, spec_nonce_size_bytes, spec_nonce_size_of, NonceSize};
use crate::crypto::{AssociatedData, Bicrypter, CryptError, Decrypter, Encrypter};
use aes_gcm::aead::generic_array::GenericArray;
use aes_gcm::aead::{Aead, KeyInit};
use vstd::prelude::*;

verus! {

/// The error that the `aead` crate reports; it carries no detail.
#[verifier::external_type_specification]
#[verifier::external_body]
pub struct ExAeadError(aes_gcm::aead::Error);

/// Errors of the AEAD ciphers
#[derive(Debug)]
pub enum AeadError {
    /// Contains generic AEAD error
    Generic(aes_gcm::aead::Error),
}

/// An AES-based AEAD cipher, given by its algorithm and its key
#[derive(Clone, Copy)]
pub enum AeadCipher {
    Aes128Gcm(Key128Bits),
    Aes256Gcm(Key256Bits),
    Aes128GcmSiv(Key128Bits),
    Aes256GcmSiv(Key256Bits),
    /// AES-SIV with 128-bit security, whose key is 256 bits
    Aes128Siv(Key256Bits),
    /// AES-SIV with 256-bit security, whose key is 512 bits
    Aes256Siv(Key512Bits),
}

/// The size of nonce that a cipher takes
pub open spec fn spec_cipher_nonce_size(cipher: AeadCipher) -> NonceSize {
    match cipher {
        AeadCipher::Aes128Siv(_) | AeadCipher::Aes256Siv(_) => NonceSize::Nonce128Bits,
        _ => NonceSize::Nonce96Bits,
    }
}

/// What `aes_gcm::Aes128Gcm` encrypts `plaintext` to (no associated data);
/// `None` when it reports an error.
pub uninterp spec fn aes_128_gcm_seal(key: Seq<u8>, nonce: Seq<u8>, plaintext: Seq<u8>) -> Option<
    Seq<u8>,
>;

/// What `aes_gcm::Aes128Gcm` decrypts `ciphertext` to (no associated data);
/// `None` when it reports an error.
pub uninterp spec fn aes_128_gcm_open(key: Seq<u8>, nonce: Seq<u8>, ciphertext: Seq<u8>) -> Option<
    Seq<u8>,
>;

/// What `aes_gcm::Aes256Gcm` encrypts `plaintext` to; `None` on error.
pub uninterp spec fn aes_256_gcm_seal(key: Seq<u8>, nonce: Seq<u8>, plaintext: Seq<u8>) -> Option<
    Seq<u8>,
>;

/// What `aes_gcm::Aes256Gcm` decrypts `ciphertext` to; `None` on error.
pub uninterp spec fn aes_256_gcm_open(key: Seq<u8>, nonce: Seq<u8>, ciphertext: Seq<u8>) -> Option<
    Seq<u8>,
>;

/// What `aes_gcm_siv::Aes128GcmSiv` encrypts `plaintext` to; `None` on error.
pub uninterp spec fn aes_128_gcm_siv_seal(key: Seq<u8>, nonce: Seq<u8>, plaintext: Seq<u8>) -> Option<
    Seq<u8>,
>;

/// What `aes_gcm_siv::Aes128GcmSiv` decrypts `ciphertext` to; `None` on error.
pub uninterp spec fn aes_128_gcm_siv_open(key: Seq<u8>, nonce: Seq<u8>, ciphertext: Seq<u8>) -> Option<
    Seq<u8>,
>;

/// What `aes_gcm_siv::Aes256GcmSiv` encrypts `plaintext` to; `None` on error.
pub uninterp spec fn aes_256_gcm_siv_seal(key: Seq<u8>, nonce: Seq<u8>, plaintext: Seq<u8>) -> Option<
    Seq<u8>,
>;

/// What `aes_gcm_siv::Aes256GcmSiv` decrypts `ciphertext` to; `None` on error.
pub uninterp spec fn aes_256_gcm_siv_open(key: Seq<u8>, nonce: Seq<u8>, ciphertext: Seq<u8>) -> Option<
    Seq<u8>,
>;

/// What `aes_siv::Aes128SivAead` encrypts `plaintext` to; `None` on error.
pub uninterp spec fn aes_128_siv_seal(key: Seq<u8>, nonce: Seq<u8>, plaintext: Seq<u8>) -> Option<
    Seq<u8>,
>;

/// What `aes_siv::Aes128SivAead` decrypts `ciphertext` to; `None` on error.
pub uninterp spec fn aes_128_siv_open(key: Seq<u8>, nonce: Seq<u8>, ciphertext: Seq<u8>) -> Option<
    Seq<u8>,
>;

/// What `aes_siv::Aes256SivAead` encrypts `plaintext` to; `None` on error.
pub uninterp spec fn aes_256_siv_seal(key: Seq<u8>, nonce: Seq<u8>, plaintext: Seq<u8>) -> Option<
    Seq<u8>,
>;

/// What `aes_siv::Aes256SivAead` decrypts `ciphertext` to; `None` on error.
pub uninterp spec fn aes_256_siv_open(key: Seq<u8>, nonce: Seq<u8>, ciphertext: Seq<u8>) -> Option<
    Seq<u8>,
>;

/// What `cipher` encrypts `plaintext` to under `nonce`
pub open spec fn spec_seal(cipher: AeadCipher, nonce: Seq<u8>, plaintext: Seq<u8>) -> Option<Seq<u8>> {
    match cipher {
        AeadCipher::Aes128Gcm(k) => aes_128_gcm_seal(k@, nonce, plaintext),
        AeadCipher::Aes256Gcm(k) => aes_256_gcm_seal(k@, nonce, plaintext),
        AeadCipher::Aes128GcmSiv(k) => aes_128_gcm_siv_seal(k@, nonce, plaintext),
        AeadCipher::Aes256GcmSiv(k) => aes_256_gcm_siv_seal(k@, nonce, plaintext),
        AeadCipher::Aes128Siv(k) => aes_128_siv_seal(k@, nonce, plaintext),
        AeadCipher::Aes256Siv(k) => aes_256_siv_seal(k@, nonce, plaintext),
    }
}

/// What `cipher` decrypts `ciphertext` to under `nonce`
pub open spec fn spec_open(cipher: AeadCipher, nonce: Seq<u8>, ciphertext: Seq<u8>) -> Option<Seq<u8>> {
    match cipher {
        AeadCipher::Aes128Gcm(k) => aes_128_gcm_open(k@, nonce, ciphertext),
        AeadCipher::Aes256Gcm(k) => aes_256_gcm_open(k@, nonce, ciphertext),
        AeadCipher::Aes128GcmSiv(k) => aes_128_gcm_siv_open(k@, nonce, ciphertext),
        AeadCipher::Aes256GcmSiv(k) => aes_256_gcm_siv_open(k@, nonce, ciphertext),
        AeadCipher::Aes128Siv(k) => aes_128_siv_open(k@, nonce, ciphertext),
        AeadCipher::Aes256Siv(k) => aes_256_siv_open(k@, nonce, ciphertext),
    }
}

/// The text that the `Debug` rendering of the `aead` crate's error gives
pub open spec fn aead_debug_text() -> Seq<char> {
    "Error"@
}

/// The text with which a failure of an AEAD cipher is reported: the
/// rendering of the `aead` crate's error after `AED: `
pub open spec fn aead_error_text() -> Seq<char> {
    "AED: "@ + aead_debug_text()
}

/// Reports the `Debug` rendering of an AEAD error as the library does
fn aed_text(debug: String) -> (s: String)
    ensures
        s@ == "AED: "@ + debug@,
{
    "AED: ".to_owned().concat(debug.as_str())
}

/// Renders an AEAD error as text with its `Debug` format.
///
/// `aead::Error` is a unit struct with a derived `Debug`, so the text is
/// always `Error`.
#[verifier::external_body]
fn make_error_string(x: aes_gcm::aead::Error) -> (s: String)
    ensures
        s@ == aead_debug_text(),
{
    format!("{:?}", x)
}

/// Encrypts with `aes_gcm::Aes128Gcm` through `aead::Aead::encrypt`.
///
/// The result is named by `aes_128_gcm_seal`; nothing more is claimed.
#[verifier::external_body]
fn aes_128_gcm_encrypt(key: &Key128Bits, nonce: &[u8], plaintext: &[u8]) -> (r: Result<
    Vec<u8>,
    aes_gcm::aead::Error,
>)
    requires
        nonce@.len() == 12,
    ensures
        r matches Ok(c) ==> aes_128_gcm_seal(key@, nonce@, plaintext@) == Some(c@),
        r is Err ==> aes_128_gcm_seal(key@, nonce@, plaintext@) is None,
{
    aes_gcm::Aes128Gcm::new(GenericArray::from_slice(key)).encrypt(
        GenericArray::from_slice(nonce),
        plaintext,
    )
}

/// Decrypts with `aes_gcm::Aes128Gcm` through `aead::Aead::decrypt`.
///
/// The result is named by `aes_128_gcm_open`. As an authenticated cipher it
/// gives back the plaintext of any ciphertext that its encryption produced
/// under the same key and nonce.
#[verifier::external_body]
fn aes_128_gcm_decrypt(key: &Key128Bits, nonce: &[u8], ciphertext: &[u8]) -> (r: Result<
    Vec<u8>,
    aes_gcm::aead::Error,
>)
    requires
        nonce@.len() == 12,
    ensures
        r matches Ok(p) ==> aes_128_gcm_open(key@, nonce@, ciphertext@) == Some(p@),
        r is Err ==> aes_128_gcm_open(key@, nonce@, ciphertext@) is None,
        forall|p: Seq<u8>| #[trigger] aes_128_gcm_seal(key@, nonce@, p) == Some(ciphertext@) ==> r is Ok && r->Ok_0@ == p,
{
    aes_gcm::Aes128Gcm::new(GenericArray::from_slice(key)).decrypt(
        GenericArray::from_slice(nonce),
        ciphertext,
    )
}

/// Encrypts with `aes_gcm::Aes256Gcm` through `aead::Aead::encrypt`.
///
/// The result is named by `aes_256_gcm_seal`; nothing more is claimed.
#[verifier::external_body]
fn aes_256_gcm_encrypt(key: &Key256Bits, nonce: &[u8], plaintext: &[u8]) -> (r: Result<
    Vec<u8>,
    aes_gcm::aead::Error,
>)
    requires
        nonce@.len() == 12,
    ensures
        r matches Ok(c) ==> aes_256_gcm_seal(key@, nonce@, plaintext@) == Some(c@),
        r is Err ==> aes_256_gcm_seal(key@, nonce@, plaintext@) is None,
{
    aes_gcm::Aes256Gcm::new(GenericArray::from_slice(key)).encrypt(
        GenericArray::from_slice(nonce),
        plaintext,
    )
}

/// Decrypts with `aes_gcm::Aes256Gcm` through `aead::Aead::decrypt`.
///
/// The result is named by `aes_256_gcm_open`; it gives back the plaintext of
/// any ciphertext that encryption produced under the same key and nonce.
#[verifier::external_body]
fn aes_256_gcm_decrypt(key: &Key256Bits, nonce: &[u8], ciphertext: &[u8]) -> (r: Result<
    Vec<u8>,
    aes_gcm::aead::Error,
>)
    requires
        nonce@.len() == 12,
    ensures
        r matches Ok(p) ==> aes_256_gcm_open(key@, nonce@, ciphertext@) == Some(p@),
        r is Err ==> aes_256_gcm_open(key@, nonce@, ciphertext@) is None,
        forall|p: Seq<u8>| #[trigger] aes_256_gcm_seal(key@, nonce@, p) == Some(ciphertext@) ==> r is Ok && r->Ok_0@ == p,
{
    aes_gcm::Aes256Gcm::new(GenericArray::from_slice(key)).decrypt(
        GenericArray::from_slice(nonce),
        ciphertext,
    )
}

/// Encrypts with `aes_gcm_siv::Aes128GcmSiv` through `aead::Aead::encrypt`.
///
/// The result is named by `aes_128_gcm_siv_seal`; nothing more is claimed.
#[verifier::external_body]
fn aes_128_gcm_siv_encrypt(key: &Key128Bits, nonce: &[u8], plaintext: &[u8]) -> (r: Result<
    Vec<u8>,
    aes_gcm::aead::Error,
>)
    requires
        nonce@.len() == 12,
    ensures
        r matches Ok(c) ==> aes_128_gcm_siv_seal(key@, nonce@, plaintext@) == Some(c@),
        r is Err ==> aes_128_gcm_siv_seal(key@, nonce@, plaintext@) is None,
{
    aes_gcm_siv::Aes128GcmSiv::new(GenericArray::from_slice(key)).encrypt(
        GenericArray::from_slice(nonce),
        plaintext,
    )
}

/// Decrypts with `aes_gcm_siv::Aes128GcmSiv` through `aead::Aead::decrypt`.
///
/// The result is named by `aes_128_gcm_siv_open`; it gives back the
/// plaintext of any ciphertext that encryption produced under the same key
/// and nonce.
#[verifier::external_body]
fn aes_128_gcm_siv_decrypt(key: &Key128Bits, nonce: &[u8], ciphertext: &[u8]) -> (r: Result<
    Vec<u8>,
    aes_gcm::aead::Error,
>)
    requires
        nonce@.len() == 12,
    ensures
        r matches Ok(p) ==> aes_128_gcm_siv_open(key@, nonce@, ciphertext@) == Some(p@),
        r is Err ==> aes_128_gcm_siv_open(key@, nonce@, ciphertext@) is None,
        forall|p: Seq<u8>| #[trigger] aes_128_gcm_siv_seal(key@, nonce@, p) == Some(ciphertext@) ==> r is Ok && r->Ok_0@ == p,
{
    aes_gcm_siv::Aes128GcmSiv::new(GenericArray::from_slice(key)).decrypt(
        GenericArray::from_slice(nonce),
        ciphertext,
    )
}

/// Encrypts with `aes_gcm_siv::Aes256GcmSiv` through `aead::Aead::encrypt`.
///
/// The result is named by `aes_256_gcm_siv_seal`; nothing more is claimed.
#[verifier::external_body]
fn aes_256_gcm_siv_encrypt(key: &Key256Bits, nonce: &[u8], plaintext: &[u8]) -> (r: Result<
    Vec<u8>,
    aes_gcm::aead::Error,
>)
    requires
        nonce@.len() == 12,
    ensures
        r matches Ok(c) ==> aes_256_gcm_siv_seal(key@, nonce@, plaintext@) == Some(c@),
        r is Err ==> aes_256_gcm_siv_seal(key@, nonce@, plaintext@) is None,
{
    aes_gcm_siv::Aes256GcmSiv::new(GenericArray::from_slice(key)).encrypt(
        GenericArray::from_slice(nonce),
        plaintext,
    )
}

/// Decrypts with `aes_gcm_siv::Aes256GcmSiv` through `aead::Aead::decrypt`.
///
/// The result is named by `aes_256_gcm_siv_open`; it gives back the
/// plaintext of any ciphertext that encryption produced under the same key
/// and nonce.
#[verifier::external_body]
fn aes_256_gcm_siv_decrypt(key: &Key256Bits, nonce: &[u8], ciphertext: &[u8]) -> (r: Result<
    Vec<u8>,
    aes_gcm::aead::Error,
>)
    requires
        nonce@.len() == 12,
    ensures
        r matches Ok(p) ==> aes_256_gcm_siv_open(key@, nonce@, ciphertext@) == Some(p@),
        r is Err ==> aes_256_gcm_siv_open(key@, nonce@, ciphertext@) is None,
        forall|p: Seq<u8>| #[trigger] aes_256_gcm_siv_seal(key@, nonce@, p) == Some(ciphertext@) ==> r is Ok && r->Ok_0@ == p,
{
    aes_gcm_siv::Aes256GcmSiv::new(GenericArray::from_slice(key)).decrypt(
        GenericArray::from_slice(nonce),
        ciphertext,
    )
}

/// Encrypts with `aes_siv::Aes128SivAead` through `aead::Aead::encrypt`.
///
/// The result is named by `aes_128_siv_seal`; nothing more is claimed.
#[verifier::external_body]
fn aes_128_siv_encrypt(key: &Key256Bits, nonce: &[u8], plaintext: &[u8]) -> (r: Result<
    Vec<u8>,
    aes_gcm::aead::Error,
>)
    requires
        nonce@.len() == 16,
    ensures
        r matches Ok(c) ==> aes_128_siv_seal(key@, nonce@, plaintext@) == Some(c@),
        r is Err ==> aes_128_siv_seal(key@, nonce@, plaintext@) is None,
{
    aes_siv::Aes128SivAead::new(GenericArray::from_slice(key)).encrypt(
        GenericArray::from_slice(nonce),
        plaintext,
    )
}

/// Decrypts with `aes_siv::Aes128SivAead` through `aead::Aead::decrypt`.
///
/// The result is named by `aes_128_siv_open`; it gives back the plaintext of
/// any ciphertext that encryption produced under the same key and nonce.
#[verifier::external_body]
fn aes_128_siv_decrypt(key: &Key256Bits, nonce: &[u8], ciphertext: &[u8]) -> (r: Result<
    Vec<u8>,
    aes_gcm::aead::Error,
>)
    requires
        nonce@.len() == 16,
    ensures
        r matches Ok(p) ==> aes_128_siv_open(key@, nonce@, ciphertext@) == Some(p@),
        r is Err ==> aes_128_siv_open(key@, nonce@, ciphertext@) is None,
        forall|p: Seq<u8>| #[trigger] aes_128_siv_seal(key@, nonce@, p) == Some(ciphertext@) ==> r is Ok && r->Ok_0@ == p,
{
    aes_siv::Aes128SivAead::new(GenericArray::from_slice(key)).decrypt(
        GenericArray::from_slice(nonce),
        ciphertext,
    )
}

/// Encrypts with `aes_siv::Aes256SivAead` through `aead::Aead::encrypt`.
///
/// The result is named by `aes_256_siv_seal`; nothing more is claimed.
#[verifier::external_body]
fn aes_256_siv_encrypt(key: &Key512Bits, nonce: &[u8], plaintext: &[u8]) -> (r: Result<
    Vec<u8>,
    aes_gcm::aead::Error,
>)
    requires
        nonce@.len() == 16,
    ensures
        r matches Ok(c) ==> aes_256_siv_seal(key@, nonce@, plaintext@) == Some(c@),
        r is Err ==> aes_256_siv_seal(key@, nonce@, plaintext@) is None,
{
    aes_siv::Aes256SivAead::new(GenericArray::from_slice(key)).encrypt(
        GenericArray::from_slice(nonce),
        plaintext,
    )
}

/// Decrypts with `aes_siv::Aes256SivAead` through `aead::Aead::decrypt`.
///
/// The result is named by `aes_256_siv_open`; it gives back the plaintext of
/// any ciphertext that encryption produced under the same key and nonce.
#[verifier::external_body]
fn aes_256_siv_decrypt(key: &Key512Bits, nonce: &[u8], ciphertext: &[u8]) -> (r: Result<
    Vec<u8>,
    aes_gcm::aead::Error,
>)
    requires
        nonce@.len() == 16,
    ensures
        r matches Ok(p) ==> aes_256_siv_open(key@, nonce@, ciphertext@) == Some(p@),
        r is Err ==> aes_256_siv_open(key@, nonce@, ciphertext@) is None,
        forall|p: Seq<u8>| #[trigger] aes_256_siv_seal(key@, nonce@, p) == Some(ciphertext@) ==> r is Ok && r->Ok_0@ == p,
{
    aes_siv::Aes256SivAead::new(GenericArray::from_slice(key)).decrypt(
        GenericArray::from_slice(nonce),
        ciphertext,
    )
}

/// The outcome of encrypting `buffer` with `cipher` under the associated
/// data `ad`, for a bicrypter that expects nonces of `nonce_size`
pub open spec fn spec_encrypt_outcome(
    cipher: AeadCipher,
    nonce_size: NonceSize,
    buffer: Seq<u8>,
    ad: AssociatedData,
    r: Result<Vec<u8>, CryptError>,
) -> bool {
    match ad.spec_nonce() {
        None => r == Err::<Vec<u8>, CryptError>(CryptError::MissingNonce),
        Some(n) => if n.len() != spec_nonce_size_bytes(nonce_size) {
            r == Err::<Vec<u8>, CryptError>(
                CryptError::NonceWrongSize { provided_size: n.len() as usize },
            )
        } else {
            match spec_seal(cipher, n, buffer) {
                Some(c) => r matches Ok(v) && v@ == c,
                None => r matches Err(CryptError::EncryptFailed(m)) && m@ == aead_error_text(),
            }
        },
    }
}

/// The outcome of decrypting `buffer` with `cipher` under the associated
/// data `ad`, for a bicrypter that expects nonces of `nonce_size`
pub open spec fn spec_decrypt_outcome(
    cipher: AeadCipher,
    nonce_size: NonceSize,
    buffer: Seq<u8>,
    ad: AssociatedData,
    r: Result<Vec<u8>, CryptError>,
) -> bool {
    match ad.spec_nonce() {
        None => r == Err::<Vec<u8>, CryptError>(CryptError::MissingNonce),
        Some(n) => if n.len() != spec_nonce_size_bytes(nonce_size) {
            r == Err::<Vec<u8>, CryptError>(
                CryptError::NonceWrongSize { provided_size: n.len() as usize },
            )
        } else {
            match spec_open(cipher, n, buffer) {
                Some(p) => r matches Ok(v) && v@ == p,
                None => r matches Err(CryptError::DecryptFailed(m)) && m@ == aead_error_text(),
            }
        },
    }
}

/// Decryption gives back what was encrypted: when `ad` carries a nonce of
/// `nonce_size` under which `cipher` encrypts some plaintext to `buffer`,
/// decrypting `buffer` gives that plaintext
pub open spec fn spec_round_trip(
    cipher: AeadCipher,
    nonce_size: NonceSize,
    buffer: Seq<u8>,
    ad: AssociatedData,
    r: Result<Vec<u8>, CryptError>,
) -> bool {
    match ad.spec_nonce() {
        Some(n) => n.len() == spec_nonce_size_bytes(nonce_size) ==> forall|p: Seq<u8>|
            #[trigger] spec_seal(cipher, n, p) == Some(buffer) ==> (r matches Ok(q) && q@ == p),
        None => true,
    }
}

/// Encrypts with a cipher, the nonce being of the cipher's size
fn seal(cipher: &AeadCipher, nonce: &[u8], plaintext: &[u8]) -> (r: Result<Vec<u8>, CryptError>)
    requires
        nonce@.len() == spec_nonce_size_bytes(spec_cipher_nonce_size(*cipher)),
    ensures
        match spec_seal(*cipher, nonce@, plaintext@) {
            Some(c) => r matches Ok(v) && v@ == c,
            None => r matches Err(CryptError::EncryptFailed(m)) && m@ == aead_error_text(),
        },
{
    let result = match cipher {
        AeadCipher::Aes128Gcm(k) => aes_128_gcm_encrypt(k, nonce, plaintext),
        AeadCipher::Aes256Gcm(k) => aes_256_gcm_encrypt(k, nonce, plaintext),
        AeadCipher::Aes128GcmSiv(k) => aes_128_gcm_siv_encrypt(k, nonce, plaintext),
        AeadCipher::Aes256GcmSiv(k) => aes_256_gcm_siv_encrypt(k, nonce, plaintext),
        AeadCipher::Aes128Siv(k) => aes_128_siv_encrypt(k, nonce, plaintext),
        AeadCipher::Aes256Siv(k) => aes_256_siv_encrypt(k, nonce, plaintext),
    };
    match result {
        Ok(c) => Ok(c),
        Err(e) => Err(CryptError::EncryptFailed(aed_text(make_error_string(e)))),
    }
}

/// Decrypts with a cipher, the nonce being of the cipher's size
fn open(cipher: &AeadCipher, nonce: &[u8], ciphertext: &[u8]) -> (r: Result<Vec<u8>, CryptError>)
    requires
        nonce@.len() == spec_nonce_size_bytes(spec_cipher_nonce_size(*cipher)),
    ensures
        match spec_open(*cipher, nonce@, ciphertext@) {
            Some(p) => r matches Ok(v) && v@ == p,
            None => r matches Err(CryptError::DecryptFailed(m)) && m@ == aead_error_text(),
        },
        forall|p: Seq<u8>|
            #[trigger] spec_seal(*cipher, nonce@, p) == Some(ciphertext@) ==> (r matches Ok(q)
                && q@ == p),
{
    let result = match cipher {
        AeadCipher::Aes128Gcm(k) => aes_128_gcm_decrypt(k, nonce, ciphertext),
        AeadCipher::Aes256Gcm(k) => aes_256_gcm_decrypt(k, nonce, ciphertext),
        AeadCipher::Aes128GcmSiv(k) => aes_128_gcm_siv_decrypt(k, nonce, ciphertext),
        AeadCipher::Aes256GcmSiv(k) => aes_256_gcm_siv_decrypt(k, nonce, ciphertext),
        AeadCipher::Aes128Siv(k) => aes_128_siv_decrypt(k, nonce, ciphertext),
        AeadCipher::Aes256Siv(k) => aes_256_siv_decrypt(k, nonce, ciphertext),
    };
    match result {
        Ok(p) => Ok(p),
        Err(e) => Err(CryptError::DecryptFailed(aed_text(make_error_string(e)))),
    }
}

/// Encrypts and decrypts with an AES-based AEAD cipher, taking the nonce from
/// the associated data of each message
#[derive(Clone, Copy)]
pub struct AesNonceBicrypter {
    cipher: AeadCipher,
    nonce_size: NonceSize,
}

impl AesNonceBicrypter {
    #[verifier::type_invariant]
    spec fn nonce_size_fits(self) -> bool {
        self.nonce_size == spec_cipher_nonce_size(self.cipher)
    }

    /// The cipher used
    pub closed spec fn cipher(self) -> AeadCipher {
        self.cipher
    }

    /// The size of nonce that messages must carry
    pub closed spec fn nonce_size(self) -> NonceSize {
        self.nonce_size
    }

    /// Bicrypter over `cipher`, whose nonces are of `nonce_size`, which must
    /// be the size that the cipher takes
    pub fn new(cipher: AeadCipher, nonce_size: NonceSize) -> (b: Self)
        requires
            nonce_size == spec_cipher_nonce_size(cipher),
        ensures
            b.cipher() == cipher,
            b.nonce_size() == nonce_size,
    {
        Self { cipher, nonce_size }
    }

    /// Bicrypter over `cipher`, with nonces of the size the cipher takes
    pub fn for_cipher(cipher: AeadCipher) -> (b: Self)
        ensures
            b.cipher() == cipher,
            b.nonce_size() == spec_cipher_nonce_size(cipher),
    {
        let nonce_size = match cipher {
            AeadCipher::Aes128Siv(_) | AeadCipher::Aes256Siv(_) => NonceSize::Nonce128Bits,
            _ => NonceSize::Nonce96Bits,
        };
        Self { cipher, nonce_size }
    }
}

impl Bicrypter for AesNonceBicrypter {

}

impl Encrypter for AesNonceBicrypter {
    /// The outcome of encrypting with the cipher (see `spec_encrypt_outcome`);
    /// the bicrypter stays as it is
    open spec fn encrypt_gives(
        self,
        buffer: &[u8],
        associated_data: &AssociatedData,
        r: Result<Vec<u8>, CryptError>,
        after: Self,
    ) -> bool {
        &&& after == self
        &&& spec_encrypt_outcome(self.cipher(), self.nonce_size(), buffer@, *associated_data, r)
    }

    /// Encrypts with the nonce of the associated data, which must be there
    /// and of the expected size
    fn encrypt(&mut self, buffer: &[u8], associated_data: &AssociatedData) -> (r: Result<
        Vec<u8>,
        CryptError,
    >)
        ensures
            *final(self) == *old(self),
            spec_encrypt_outcome(
                old(self).cipher(),
                old(self).nonce_size(),
                buffer@,
                *associated_data,
                r,
            ),
    {
        proof {
            use_type_invariant(&*self);
        }
        let nonce = match associated_data.to_nonce() {
            Some(n) => n,
            None => return Err(CryptError::MissingNonce),
        };
        crate::crypto::nonce::validate_nonce_size(self.nonce_size, nonce.len())?;
        seal(&self.cipher, nonce, buffer)
    }

    /// A fresh random nonce of the expected size
    fn new_encrypt_associated_data(&self) -> (ad: AssociatedData)
        ensures
            ad matches AssociatedData::Nonce(n) && spec_nonce_size_of(n) == self.nonce_size(),
    {
        AssociatedData::Nonce(new_nonce(self.nonce_size))
    }
}

impl Decrypter for AesNonceBicrypter {
    /// The outcome of decrypting with the cipher (see `spec_decrypt_outcome`),
    /// which gives back any plaintext that the cipher encrypted to `buffer`
    /// under the nonce; the bicrypter stays as it is
    open spec fn decrypt_gives(
        self,
        buffer: &[u8],
        associated_data: &AssociatedData,
        r: Result<Vec<u8>, CryptError>,
        after: Self,
    ) -> bool {
        &&& after == self
        &&& spec_decrypt_outcome(self.cipher(), self.nonce_size(), buffer@, *associated_data, r)
        &&& spec_round_trip(self.cipher(), self.nonce_size(), buffer@, *associated_data, r)
    }

    /// Decrypts with the nonce of the associated data, which must be there
    /// and of the expected size
    fn decrypt(&mut self, buffer: &[u8], associated_data: &AssociatedData) -> (r: Result<
        Vec<u8>,
        CryptError,
    >)
        ensures
            *final(self) == *old(self),
            spec_decrypt_outcome(
                old(self).cipher(),
                old(self).nonce_size(),
                buffer@,
                *associated_data,
                r,
            ),
            match associated_data.spec_nonce() {
                Some(n) => n.len() == spec_nonce_size_bytes(old(self).nonce_size()) ==> forall|
                    p: Seq<u8>,
                | #[trigger] spec_seal(old(self).cipher(), n, p) == Some(buffer@) ==> r is Ok
                    && r->Ok_0@ == p,
                None => true,
            },
    {
        proof {
            use_type_invariant(&*self);
        }
        let nonce = match associated_data.to_nonce() {
            Some(n) => n,
            None => return Err(CryptError::MissingNonce),
        };
        crate::crypto::nonce::validate_nonce_size(self.nonce_size, nonce.len())?;
        open(&self.cipher, nonce, buffer)
    }
}

/// The AES-128-GCM cipher with the given key
pub fn new_aes_128_gcm(key: &Key128Bits) -> (c: AeadCipher)
    ensures
        c == AeadCipher::Aes128Gcm(*key),
{
    AeadCipher::Aes128Gcm(*key)
}

/// The AES-256-GCM cipher with the given key
pub fn new_aes_256_gcm(key: &Key256Bits) -> (c: AeadCipher)
    ensures
        c == AeadCipher::Aes256Gcm(*key),
{
    AeadCipher::Aes256Gcm(*key)
}

/// The AES-128-GCM-SIV cipher with the given key
pub fn new_aes_128_gcm_siv(key: &Key128Bits) -> (c: AeadCipher)
    ensures
        c == AeadCipher::Aes128GcmSiv(*key),
{
    AeadCipher::Aes128GcmSiv(*key)
}

/// The AES-256-GCM-SIV cipher with the given key
pub fn new_aes_256_gcm_siv(key: &Key256Bits) -> (c: AeadCipher)
    ensures
        c == AeadCipher::Aes256GcmSiv(*key),
{
    AeadCipher::Aes256GcmSiv(*key)
}

/// The AES-SIV cipher of 128-bit security; its key is 256 bits
pub fn new_aes_128_siv(key: &Key256Bits) -> (c: AeadCipher)
    ensures
        c == AeadCipher::Aes128Siv(*key),
{
    AeadCipher::Aes128Siv(*key)
}

/// The AES-SIV cipher of 256-bit security; its key is 512 bits
pub fn new_aes_256_siv(key: &Key512Bits) -> (c: AeadCipher)
    ensures
        c == AeadCipher::Aes256Siv(*key),
{
    AeadCipher::Aes256Siv(*key)
}

/// Bicrypter over AES-128-GCM, with 96-bit nonces
pub fn new_aes_128_gcm_bicrypter(key: &Key128Bits) -> (b: AesNonceBicrypter)
    ensures
        b.cipher() == AeadCipher::Aes128Gcm(*key),
        b.nonce_size() == NonceSize::Nonce96Bits,
{
    AesNonceBicrypter::new(new_aes_128_gcm(key), NonceSize::Nonce96Bits)
}

/// Bicrypter over AES-256-GCM, with 96-bit nonces
pub fn new_aes_256_gcm_bicrypter(key: &Key256Bits) -> (b: AesNonceBicrypter)
    ensures
        b.cipher() == AeadCipher::Aes256Gcm(*key),
        b.nonce_size() == NonceSize::Nonce96Bits,
{
    AesNonceBicrypter::new(new_aes_256_gcm(key), NonceSize::Nonce96Bits)
}

/// Bicrypter over AES-128-GCM-SIV, with 96-bit nonces
pub fn new_aes_128_gcm_siv_bicrypter(key: &Key128Bits) -> (b: AesNonceBicrypter)
    ensures
        b.cipher() == AeadCipher::Aes128GcmSiv(*key),
        b.nonce_size() == NonceSize::Nonce96Bits,
{
    AesNonceBicrypter::new(new_aes_128_gcm_siv(key), NonceSize::Nonce96Bits)
}

/// Bicrypter over AES-256-GCM-SIV, with 96-bit nonces
pub fn new_aes_256_gcm_siv_bicrypter(key: &Key256Bits) -> (b: AesNonceBicrypter)
    ensures
        b.cipher() == AeadCipher::Aes256GcmSiv(*key),
        b.nonce_size() == NonceSize::Nonce96Bits,
{
    AesNonceBicrypter::new(new_aes_256_gcm_siv(key), NonceSize::Nonce96Bits)
}

/// Bicrypter over AES-SIV of 128-bit security (256-bit key), with 128-bit
/// nonces
pub fn new_aes_128_siv_bicrypter(key: &Key256Bits) -> (b: AesNonceBicrypter)
    ensures
        b.cipher() == AeadCipher::Aes128Siv(*key),
        b.nonce_size() == NonceSize::Nonce128Bits,
{
    AesNonceBicrypter::new(new_aes_128_siv(key), NonceSize::Nonce128Bits)
}

/// Bicrypter over AES-SIV of 256-bit security (512-bit key), with 128-bit
/// nonces
pub fn new_aes_256_siv_bicrypter(key: &Key512Bits) -> (b: AesNonceBicrypter)
    ensures
        b.cipher() == AeadCipher::Aes256Siv(*key),
        b.nonce_size() == NonceSize::Nonce128Bits,
{
    AesNonceBicrypter::new(new_aes_256_siv(key), NonceSize::Nonce128Bits)
}

/// Bicrypter over AES-128-GCM-SIV that expects 96-bit nonces
#[derive(Clone, Copy)]
pub struct Aes128GcmSivBicrypter {
    inner: AesNonceBicrypter,
}

impl Aes128GcmSivBicrypter {
    /// The key in use
    pub closed spec fn key(self) -> Key128Bits {
        match self.inner.cipher() {
            AeadCipher::Aes128GcmSiv(k) => k,
            _ => arbitrary(),
        }
    }

    #[verifier::type_invariant]
    spec fn is_aes_128_gcm_siv(self) -> bool {
        &&& self.inner.cipher() is Aes128GcmSiv
        &&& self.inner.nonce_size() == NonceSize::Nonce96Bits
    }

    /// Bicrypter with the given key
    pub fn new(key: &Key128Bits) -> (b: Self)
        ensures
            b.key() == *key,
    {
        Aes128GcmSivBicrypter { inner: new_aes_128_gcm_siv_bicrypter(key) }
    }
}

impl Bicrypter for Aes128GcmSivBicrypter {

}

impl Encrypter for Aes128GcmSivBicrypter {
    /// The outcome of encrypting with AES-128-GCM-SIV under the key, with
    /// 96-bit nonces; the key stays
    open spec fn encrypt_gives(
        self,
        buffer: &[u8],
        associated_data: &AssociatedData,
        r: Result<Vec<u8>, CryptError>,
        after: Self,
    ) -> bool {
        &&& after.key() == self.key()
        &&& spec_encrypt_outcome(
            AeadCipher::Aes128GcmSiv(self.key()),
            NonceSize::Nonce96Bits,
            buffer@,
            *associated_data,
            r,
        )
    }

    /// Encrypts with the 96-bit nonce of the associated data
    fn encrypt(&mut self, buffer: &[u8], associated_data: &AssociatedData) -> (r: Result<
        Vec<u8>,
        CryptError,
    >)
        ensures
            final(self).key() == old(self).key(),
            spec_encrypt_outcome(
                AeadCipher::Aes128GcmSiv(old(self).key()),
                NonceSize::Nonce96Bits,
                buffer@,
                *associated_data,
                r,
            ),
    {
        proof {
            use_type_invariant(&*self);
        }
        let mut inner = self.inner;
        let r = inner.encrypt(buffer, associated_data);
        r
    }

    /// A fresh random 96-bit nonce
    fn new_encrypt_associated_data(&self) -> (ad: AssociatedData)
        ensures
            ad matches AssociatedData::Nonce(n) && spec_nonce_size_of(n) == NonceSize::Nonce96Bits,
    {
        proof {
            use_type_invariant(&*self);
        }
        self.inner.new_encrypt_associated_data()
    }
}

impl Decrypter for Aes128GcmSivBicrypter {
    /// The outcome of decrypting with AES-128-GCM-SIV under the key, with
    /// 96-bit nonces, which gives back what the cipher encrypted; the key
    /// stays
    open spec fn decrypt_gives(
        self,
        buffer: &[u8],
        associated_data: &AssociatedData,
        r: Result<Vec<u8>, CryptError>,
        after: Self,
    ) -> bool {
        &&& after.key() == self.key()
        &&& spec_decrypt_outcome(
            AeadCipher::Aes128GcmSiv(self.key()),
            NonceSize::Nonce96Bits,
            buffer@,
            *associated_data,
            r,
        )
        &&& spec_round_trip(
            AeadCipher::Aes128GcmSiv(self.key()),
            NonceSize::Nonce96Bits,
            buffer@,
            *associated_data,
            r,
        )
    }

    /// Decrypts with the 96-bit nonce of the associated data
    fn decrypt(&mut self, buffer: &[u8], associated_data: &AssociatedData) -> (r: Result<
        Vec<u8>,
        CryptError,
    >)
        ensures
            final(self).key() == old(self).key(),
            spec_decrypt_outcome(
                AeadCipher::Aes128GcmSiv(old(self).key()),
                NonceSize::Nonce96Bits,
                buffer@,
                *associated_data,
                r,
            ),
    {
        proof {
            use_type_invariant(&*self);
        }
        let mut inner = self.inner;
        let r = inner.decrypt(buffer, associated_data);
        r
    }
}

} // verus!
