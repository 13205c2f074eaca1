pub mod aead;
pub mod bytes;
pub mod cache;
pub mod closure;
pub mod error;
pub mod key;
pub mod noop;
pub mod nonce;

use vstd::prelude::*;
use vstd::std_specs::convert::FromSpecImpl;

pub use key::{Key, Key128Bits, Key256Bits, Key512Bits, KeySize};
pub use noop::NoopBicrypter;
pub use nonce::{Nonce, Nonce128Bits, Nonce96Bits, NonceSize};

verus! {

/// Failures of encryption and decryption
#[derive(Debug)]
pub enum CryptError {
    /// Internal Error related to encryption occurred
    EncryptFailed(String),
    /// Internal Error related to decryption occurred
    DecryptFailed(String),
    /// Contains the nonce that was already used
    NonceAlreadyUsed { nonce: Vec<u8> },
    /// Contains size of nonce provided
    NonceWrongSize { provided_size: usize },
    /// When a nonce was expected and none was provided
    MissingNonce,
}

/// Data that travels beside an encrypted message
#[derive(Debug, Clone, Copy)]
pub enum AssociatedData {
    Empty,
    Nonce(Nonce),
}

impl AssociatedData {
    /// The bytes of the nonce carried, if any
    pub open spec fn spec_nonce(self) -> Option<Seq<u8>> {
        match self {
            AssociatedData::Empty => None,
            AssociatedData::Nonce(n) => Some(n@),
        }
    }

    /// The bytes of the nonce carried, if any
    pub fn to_nonce(&self) -> (r: Option<&[u8]>)
        ensures
            r is None <==> self.spec_nonce() is None,
            r matches Some(s) ==> self.spec_nonce() == Some(s@),
    {
        match self {
            Self::Empty => None,
            Self::Nonce(nonce) => Some(nonce.as_slice()),
        }
    }
}

impl From<Nonce> for AssociatedData {
    fn from(nonce: Nonce) -> Self {
        AssociatedData::Nonce(nonce)
    }
}

impl FromSpecImpl<Nonce> for AssociatedData {
    open spec fn obeys_from_spec() -> bool {
        true
    }

    open spec fn from_spec(v: Nonce) -> Self {
        AssociatedData::Nonce(v)
    }
}

/// Capable of encrypting data
pub trait Encrypter: Sized {
    /// Whether encrypting `buffer` under `associated_data` may give `r` and
    /// leave the encrypter as `after`; an encrypter that does not say what it
    /// does claims nothing
    open spec fn encrypt_gives(
        self,
        buffer: &[u8],
        associated_data: &AssociatedData,
        r: Result<Vec<u8>, CryptError>,
        after: Self,
    ) -> bool {
        true
    }

    /// Encrypts `buffer`, using the nonce that `associated_data` carries
    fn encrypt(&mut self, buffer: &[u8], associated_data: &AssociatedData) -> (r: Result<
        Vec<u8>,
        CryptError,
    >)
        ensures
            old(self).encrypt_gives(buffer, associated_data, r, *final(self)),
    ;

    /// Produces the associated data to send with the next encrypted message
    fn new_encrypt_associated_data(&self) -> AssociatedData;
}

/// Capable of decrypting data
pub trait Decrypter: Sized {
    /// Whether decrypting `buffer` under `associated_data` may give `r` and
    /// leave the decrypter as `after`; a decrypter that does not say what it
    /// does claims nothing
    open spec fn decrypt_gives(
        self,
        buffer: &[u8],
        associated_data: &AssociatedData,
        r: Result<Vec<u8>, CryptError>,
        after: Self,
    ) -> bool {
        true
    }

    /// Decrypts `buffer`, using the nonce that `associated_data` carries
    fn decrypt(&mut self, buffer: &[u8], associated_data: &AssociatedData) -> (r: Result<
        Vec<u8>,
        CryptError,
    >)
        ensures
            old(self).decrypt_gives(buffer, associated_data, r, *final(self)),
    ;
}

/// Can both encrypt and decrypt
pub trait Bicrypter: Encrypter + Decrypter {

}

} // verus!
