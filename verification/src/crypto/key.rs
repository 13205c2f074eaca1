use crate::crypto::bytes::slice_to_array;
use rand::Rng;
use vstd::prelude::*;
use vstd::std_specs::convert::FromSpecImpl;

verus! {

pub type Key128Bits = [u8; 16];

pub type Key256Bits = [u8; 32];

pub type Key512Bits = [u8; 64];

/// A key of one of the supported sizes
#[derive(Clone, Copy)]
pub enum Key {
    Key128Bits(Key128Bits),
    Key256Bits(Key256Bits),
    Key512Bits(Key512Bits),
}

impl View for Key {
    type V = Seq<u8>;

    /// The bytes of the key
    open spec fn view(&self) -> Seq<u8> {
        match self {
            Key::Key128Bits(k) => k@,
            Key::Key256Bits(k) => k@,
            Key::Key512Bits(k) => k@,
        }
    }
}

/// The size of a key
#[derive(Debug, Copy, Clone, PartialEq, Eq, Structural)]
pub enum KeySize {
    Key128Bits,
    Key256Bits,
    Key512Bits,
}

/// Number of bytes held by a key of the given size
pub open spec fn spec_key_size_bytes(size: KeySize) -> nat {
    match size {
        KeySize::Key128Bits => 16,
        KeySize::Key256Bits => 32,
        KeySize::Key512Bits => 64,
    }
}

/// The key whose bytes are `s`, when `s` has one of the supported lengths
pub open spec fn spec_key_from_bytes(s: Seq<u8>) -> Option<Key> {
    if s.len() == 16 {
        Some(Key::Key128Bits(choose|a: [u8; 16]| a@ == s))
    } else if s.len() == 32 {
        Some(Key::Key256Bits(choose|a: [u8; 32]| a@ == s))
    } else if s.len() == 64 {
        Some(Key::Key512Bits(choose|a: [u8; 64]| a@ == s))
    } else {
        None
    }
}

impl Key {
    /// Converts slice of bytes to a key if it is the right size,
    /// otherwise returns nothing
    pub fn from_slice(&self, slice: &[u8]) -> (r: Option<Self>)
        ensures
            r == spec_key_from_bytes(slice@),
            r matches Some(k) ==> k@ == slice@,
    {
        if slice.len() == KeySize::Key128Bits.size_in_bytes() {
            let a: [u8; 16] = slice_to_array(slice);
            proof {
                crate::crypto::nonce::lemma_array_determined_by_view(a, choose|c: [u8; 16]| c@ == slice@);
            }
            Some(Self::Key128Bits(a))
        } else if slice.len() == KeySize::Key256Bits.size_in_bytes() {
            let a: [u8; 32] = slice_to_array(slice);
            proof {
                crate::crypto::nonce::lemma_array_determined_by_view(a, choose|c: [u8; 32]| c@ == slice@);
            }
            Some(Self::Key256Bits(a))
        } else if slice.len() == KeySize::Key512Bits.size_in_bytes() {
            let a: [u8; 64] = slice_to_array(slice);
            proof {
                crate::crypto::nonce::lemma_array_determined_by_view(a, choose|c: [u8; 64]| c@ == slice@);
            }
            Some(Self::Key512Bits(a))
        } else {
            None
        }
    }

    /// The bytes of the key
    pub fn as_slice(&self) -> (s: &[u8])
        ensures
            s@ == self@,
    {
        match self {
            Self::Key128Bits(key) => key.as_slice(),
            Self::Key256Bits(key) => key.as_slice(),
            Self::Key512Bits(key) => key.as_slice(),
        }
    }
}

impl From<Key128Bits> for Key {
    fn from(buffer: Key128Bits) -> Self {
        Self::Key128Bits(buffer)
    }
}

impl FromSpecImpl<Key128Bits> for Key {
    open spec fn obeys_from_spec() -> bool {
        true
    }

    open spec fn from_spec(v: Key128Bits) -> Self {
        Key::Key128Bits(v)
    }
}

impl From<Key256Bits> for Key {
    fn from(buffer: Key256Bits) -> Self {
        Self::Key256Bits(buffer)
    }
}

impl FromSpecImpl<Key256Bits> for Key {
    open spec fn obeys_from_spec() -> bool {
        true
    }

    open spec fn from_spec(v: Key256Bits) -> Self {
        Key::Key256Bits(v)
    }
}

impl From<Key512Bits> for Key {
    fn from(buffer: Key512Bits) -> Self {
        Self::Key512Bits(buffer)
    }
}

impl FromSpecImpl<Key512Bits> for Key {
    open spec fn obeys_from_spec() -> bool {
        true
    }

    open spec fn from_spec(v: Key512Bits) -> Self {
        Key::Key512Bits(v)
    }
}

impl KeySize {
    /// Number of bytes in a key of this size
    pub fn size_in_bytes(&self) -> (n: usize)
        ensures
            n == spec_key_size_bytes(*self),
    {
        match self {
            KeySize::Key128Bits => 16,
            KeySize::Key256Bits => 32,
            KeySize::Key512Bits => 64,
        }
    }
}

impl From<KeySize> for usize {
    fn from(key_size: KeySize) -> Self {
        match key_size {
            KeySize::Key128Bits => 16,
            KeySize::Key256Bits => 32,
            KeySize::Key512Bits => 64,
        }
    }
}

impl FromSpecImpl<KeySize> for usize {
    open spec fn obeys_from_spec() -> bool {
        true
    }

    open spec fn from_spec(v: KeySize) -> Self {
        spec_key_size_bytes(v) as usize
    }
}

/// Produces a random key of the given size as a vector of bytes
pub fn new_key_vec(key_size: KeySize) -> (v: Vec<u8>)
    ensures
        v@.len() == spec_key_size_bytes(key_size),
{
    match key_size {
        KeySize::Key128Bits => vstd::slice::slice_to_vec(new_128bit_key().as_slice()),
        KeySize::Key256Bits => vstd::slice::slice_to_vec(new_256bit_key().as_slice()),
        KeySize::Key512Bits => vstd::slice::slice_to_vec(new_512bit_key().as_slice()),
    }
}

/// Produces a random 128-bit key.
///
/// Fills an array through `rand::Rng::fill` on `rand::thread_rng()`;
/// nothing is claimed of the bytes, which are random.
#[verifier::external_body]
pub fn new_128bit_key() -> Key128Bits {
    let mut buffer = [0; 16];
    rand::thread_rng().fill(&mut buffer);
    buffer
}

/// Produces a random 256-bit key.
///
/// Fills an array through `rand::Rng::fill` on `rand::thread_rng()`;
/// nothing is claimed of the bytes, which are random.
#[verifier::external_body]
pub fn new_256bit_key() -> Key256Bits {
    let mut buffer = [0; 32];
    rand::thread_rng().fill(&mut buffer);
    buffer
}

/// Produces a random 512-bit key.
///
/// Fills an array through `rand::Rng::fill` on `rand::thread_rng()`;
/// nothing is claimed of the bytes, which are random.
#[verifier::external_body]
pub fn new_512bit_key() -> Key512Bits {
    let mut buffer = [0; 64];
    rand::thread_rng().fill(&mut buffer);
    buffer
}

} // verus!
