use crate::crypto::bytes::slice_to_array;
use crate::crypto::CryptError;
use rand::Rng;
use vstd::prelude::*;
use vstd::std_specs::convert::FromSpecImpl;

verus! {

/// Represents a 96-bit nonce (12 bytes)
pub type Nonce96Bits = [u8; 12];

/// Represents a 128-bit nonce (16 bytes)
pub type Nonce128Bits = [u8; 16];

/// A nonce of one of the supported sizes
#[derive(Debug, Clone, Copy)]
pub enum Nonce {
    Nonce96Bits(Nonce96Bits),
    Nonce128Bits(Nonce128Bits),
}

/// Represents the size of a nonce
#[derive(Debug, Copy, Clone, PartialEq, Eq, Structural)]
pub enum NonceSize {
    Nonce96Bits,
    Nonce128Bits,
}

/// Number of bytes held by a nonce of the given size
pub open spec fn spec_nonce_size_bytes(size: NonceSize) -> nat {
    match size {
        NonceSize::Nonce96Bits => 12,
        NonceSize::Nonce128Bits => 16,
    }
}

/// The size class of a nonce
pub open spec fn spec_nonce_size_of(nonce: Nonce) -> NonceSize {
    match nonce {
        Nonce::Nonce96Bits(_) => NonceSize::Nonce96Bits,
        Nonce::Nonce128Bits(_) => NonceSize::Nonce128Bits,
    }
}

impl View for Nonce {
    type V = Seq<u8>;

    /// The bytes of the nonce
    open spec fn view(&self) -> Seq<u8> {
        match self {
            Nonce::Nonce96Bits(n) => n@,
            Nonce::Nonce128Bits(n) => n@,
        }
    }
}

impl Nonce {
    /// Converts slice of bytes to a nonce if it is the right size,
    /// otherwise returns nothing
    pub fn from_slice(&self, slice: &[u8]) -> (r: Option<Self>)
        ensures
            slice@.len() == 12 ==> r == Some(Nonce::Nonce96Bits(slice_array_12(slice@))),
            slice@.len() == 16 ==> r == Some(Nonce::Nonce128Bits(slice_array_16(slice@))),
            slice@.len() != 12 && slice@.len() != 16 ==> r is None,
            r matches Some(n) ==> n@ == slice@,
    {
        if slice.len() == NonceSize::Nonce96Bits.size_in_bytes() {
            let a: [u8; 12] = slice_to_array(slice);
            proof {
                lemma_array_determined_by_view(a, slice_array_12(slice@));
            }
            Some(Nonce::Nonce96Bits(a))
        } else if slice.len() == NonceSize::Nonce128Bits.size_in_bytes() {
            let a: [u8; 16] = slice_to_array(slice);
            proof {
                lemma_array_determined_by_view(a, slice_array_16(slice@));
            }
            Some(Nonce::Nonce128Bits(a))
        } else {
            None
        }
    }

    /// The bytes of the nonce
    pub fn as_slice(&self) -> (s: &[u8])
        ensures
            s@ == self@,
    {
        match self {
            Nonce::Nonce96Bits(nonce) => nonce.as_slice(),
            Nonce::Nonce128Bits(nonce) => nonce.as_slice(),
        }
    }

    /// The size class of this nonce
    pub fn size(&self) -> (s: NonceSize)
        ensures
            s == spec_nonce_size_of(*self),
    {
        match self {
            Nonce::Nonce96Bits(_) => NonceSize::Nonce96Bits,
            Nonce::Nonce128Bits(_) => NonceSize::Nonce128Bits,
        }
    }
}

/// The 12-byte array whose bytes are `s` (for `s` of length 12)
pub open spec fn slice_array_12(s: Seq<u8>) -> [u8; 12] {
    choose|a: [u8; 12]| a@ == s
}

/// The 16-byte array whose bytes are `s` (for `s` of length 16)
pub open spec fn slice_array_16(s: Seq<u8>) -> [u8; 16] {
    choose|a: [u8; 16]| a@ == s
}

/// Two arrays with the same bytes are the same array; in particular the
/// array chosen for a byte sequence is the one that holds it.
pub proof fn lemma_array_determined_by_view<const N: usize>(a: [u8; N], b: [u8; N])
    requires
        b == choose|c: [u8; N]| c@ == a@,
    ensures
        a == b,
{
    broadcast use vstd::array::group_array_axioms;

    assert(exists|c: [u8; N]| c@ == a@);
    assert(b@ == a@);
    assert(a =~= b);
}

impl From<Nonce96Bits> for Nonce {
    fn from(buffer: Nonce96Bits) -> Self {
        Self::Nonce96Bits(buffer)
    }
}

impl FromSpecImpl<Nonce96Bits> for Nonce {
    open spec fn obeys_from_spec() -> bool {
        true
    }

    open spec fn from_spec(v: Nonce96Bits) -> Self {
        Nonce::Nonce96Bits(v)
    }
}

impl From<Nonce128Bits> for Nonce {
    fn from(buffer: Nonce128Bits) -> Self {
        Self::Nonce128Bits(buffer)
    }
}

impl FromSpecImpl<Nonce128Bits> for Nonce {
    open spec fn obeys_from_spec() -> bool {
        true
    }

    open spec fn from_spec(v: Nonce128Bits) -> Self {
        Nonce::Nonce128Bits(v)
    }
}

impl From<Nonce> for NonceSize {
    fn from(nonce: Nonce) -> Self {
        match nonce {
            Nonce::Nonce96Bits(_) => Self::Nonce96Bits,
            Nonce::Nonce128Bits(_) => Self::Nonce128Bits,
        }
    }
}

impl FromSpecImpl<Nonce> for NonceSize {
    open spec fn obeys_from_spec() -> bool {
        true
    }

    open spec fn from_spec(v: Nonce) -> Self {
        spec_nonce_size_of(v)
    }
}

impl NonceSize {
    /// Converts nonce size to physical byte size
    pub fn size_in_bytes(&self) -> (n: usize)
        ensures
            n == spec_nonce_size_bytes(*self),
    {
        match self {
            NonceSize::Nonce96Bits => 12,
            NonceSize::Nonce128Bits => 16,
        }
    }
}

/// Converts nonce size to physical byte size
pub fn nonce_size_to_byte_length(nonce_size: NonceSize) -> (n: usize)
    ensures
        n == spec_nonce_size_bytes(nonce_size),
{
    match nonce_size {
        NonceSize::Nonce96Bits => 12,
        NonceSize::Nonce128Bits => 16,
    }
}

/// Validates the size of a nonce with a desired size
pub fn validate_nonce_size(nonce_size: NonceSize, desired_size: usize) -> (r: Result<(), CryptError>)
    ensures
        desired_size == spec_nonce_size_bytes(nonce_size) ==> r is Ok,
        desired_size != spec_nonce_size_bytes(nonce_size) ==> r == Err::<(), CryptError>(
            CryptError::NonceWrongSize { provided_size: desired_size },
        ),
{
    if desired_size != nonce_size.size_in_bytes() {
        return Err(CryptError::NonceWrongSize { provided_size: desired_size });
    }
    Ok(())
}

/// Produces a 96-bit nonce (12 bytes) from the thread-local random source.
///
/// Calls `rand::Rng::gen` on `rand::thread_rng()`; nothing is claimed of the
/// bytes, which are random.
#[verifier::external_body]
pub fn new_96bit_nonce() -> Nonce96Bits {
    rand::thread_rng().gen::<Nonce96Bits>()
}

/// Produces a 128-bit nonce (16 bytes) from the thread-local random source.
///
/// Calls `rand::Rng::gen` on `rand::thread_rng()`; nothing is claimed of the
/// bytes, which are random.
#[verifier::external_body]
pub fn new_128bit_nonce() -> Nonce128Bits {
    rand::thread_rng().gen::<Nonce128Bits>()
}

/// Produces a random nonce of the given size
pub fn new_nonce(nonce_size: NonceSize) -> (n: Nonce)
    ensures
        spec_nonce_size_of(n) == nonce_size,
{
    match nonce_size {
        NonceSize::Nonce96Bits => Nonce::Nonce96Bits(new_96bit_nonce()),
        NonceSize::Nonce128Bits => Nonce::Nonce128Bits(new_128bit_nonce()),
    }
}

/// Produces a dynamically-sized random nonce
pub fn new_nonce_vec(nonce_size: NonceSize) -> (v: Vec<u8>)
    ensures
        v@.len() == spec_nonce_size_bytes(nonce_size),
{
    match nonce_size {
        NonceSize::Nonce96Bits => {
            let n = new_96bit_nonce();
            vstd::slice::slice_to_vec(n.as_slice())
        },
        NonceSize::Nonce128Bits => {
            let n = new_128bit_nonce();
            vstd::slice::slice_to_vec(n.as_slice())
        },
    }
}

} // verus!
