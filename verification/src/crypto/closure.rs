use crate::crypto::{AssociatedData, CryptError, Decrypter, Encrypter};
use vstd::prelude::*;

verus! {

/// Encrypts by calling a function given by the user
pub struct ClosureEncrypter<F> where
    F: Fn(&[u8], &AssociatedData) -> Result<Vec<u8>, CryptError> + Clone,
 {
    f: F,
}

impl<F> ClosureEncrypter<F> where
    F: Fn(&[u8], &AssociatedData) -> Result<Vec<u8>, CryptError> + Clone,
 {
    #[verifier::type_invariant]
    spec fn callable(self) -> bool {
        forall|b: &[u8], a: &AssociatedData| call_requires(self.f, (b, a))
    }

    /// The function that encrypts
    pub closed spec fn function(self) -> F {
        self.f
    }

    /// Wraps `f`, which must accept every buffer and associated data
    pub fn new(f: F) -> (r: Self)
        requires
            forall|b: &[u8], a: &AssociatedData| call_requires(f, (b, a)),
        ensures
            r.function() == f,
    {
        Self { f }
    }
}

impl<F> Encrypter for ClosureEncrypter<F> where
    F: Fn(&[u8], &AssociatedData) -> Result<Vec<u8>, CryptError> + Clone,
 {
    /// The result is one the wrapped function may give for the data, and
    /// the function stays
    open spec fn encrypt_gives(
        self,
        buffer: &[u8],
        associated_data: &AssociatedData,
        r: Result<Vec<u8>, CryptError>,
        after: Self,
    ) -> bool {
        &&& call_ensures(self.function(), (buffer, associated_data), r)
        &&& after.function() == self.function()
    }

    /// Hands the data to the wrapped function
    fn encrypt(&mut self, buffer: &[u8], associated_data: &AssociatedData) -> (r: Result<
        Vec<u8>,
        CryptError,
    >)
        ensures
            call_ensures(old(self).function(), (buffer, associated_data), r),
            final(self).function() == old(self).function(),
    {
        proof {
            use_type_invariant(&*self);
        }
        (self.f)(buffer, associated_data)
    }

    /// Returns no associated data
    fn new_encrypt_associated_data(&self) -> (ad: AssociatedData)
        ensures
            ad is Empty,
    {
        AssociatedData::Empty
    }
}

/// Decrypts by calling a function given by the user
pub struct ClosureDecrypter<F> where
    F: Fn(&[u8], &AssociatedData) -> Result<Vec<u8>, CryptError> + Clone,
 {
    f: F,
}

impl<F> ClosureDecrypter<F> where
    F: Fn(&[u8], &AssociatedData) -> Result<Vec<u8>, CryptError> + Clone,
 {
    #[verifier::type_invariant]
    spec fn callable(self) -> bool {
        forall|b: &[u8], a: &AssociatedData| call_requires(self.f, (b, a))
    }

    /// The function that decrypts
    pub closed spec fn function(self) -> F {
        self.f
    }

    /// Wraps `f`, which must accept every buffer and associated data
    pub fn new(f: F) -> (r: Self)
        requires
            forall|b: &[u8], a: &AssociatedData| call_requires(f, (b, a)),
        ensures
            r.function() == f,
    {
        Self { f }
    }
}

impl<F> Decrypter for ClosureDecrypter<F> where
    F: Fn(&[u8], &AssociatedData) -> Result<Vec<u8>, CryptError> + Clone,
 {
    /// The result is one the wrapped function may give for the data, and
    /// the function stays
    open spec fn decrypt_gives(
        self,
        buffer: &[u8],
        associated_data: &AssociatedData,
        r: Result<Vec<u8>, CryptError>,
        after: Self,
    ) -> bool {
        &&& call_ensures(self.function(), (buffer, associated_data), r)
        &&& after.function() == self.function()
    }

    /// Hands the data to the wrapped function
    fn decrypt(&mut self, buffer: &[u8], associated_data: &AssociatedData) -> (r: Result<
        Vec<u8>,
        CryptError,
    >)
        ensures
            call_ensures(old(self).function(), (buffer, associated_data), r),
            final(self).function() == old(self).function(),
    {
        proof {
            use_type_invariant(&*self);
        }
        (self.f)(buffer, associated_data)
    }
}

} // verus!
