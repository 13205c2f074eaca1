use crate::crypto::{AssociatedData, Bicrypter, CryptError, Decrypter, Encrypter};
use vstd::prelude::*;

verus! {

/// Leaves data as it is in both directions
#[derive(Clone, Copy)]
pub struct NoopBicrypter;

impl Bicrypter for NoopBicrypter {

}

impl Encrypter for NoopBicrypter {
    /// The data comes back as it is
    open spec fn encrypt_gives(
        self,
        buffer: &[u8],
        associated_data: &AssociatedData,
        r: Result<Vec<u8>, CryptError>,
        after: Self,
    ) -> bool {
        r matches Ok(v) && v@ == buffer@
    }

    /// Does nothing but return existing data
    fn encrypt(&mut self, buffer: &[u8], associated_data: &AssociatedData) -> (r: Result<
        Vec<u8>,
        CryptError,
    >)
        ensures
            r matches Ok(v) && v@ == buffer@,
    {
        Ok(vstd::slice::slice_to_vec(buffer))
    }

    /// Returns no associated data
    fn new_encrypt_associated_data(&self) -> (ad: AssociatedData)
        ensures
            ad is Empty,
    {
        AssociatedData::Empty
    }
}

impl Decrypter for NoopBicrypter {
    /// The data comes back as it is
    open spec fn decrypt_gives(
        self,
        buffer: &[u8],
        associated_data: &AssociatedData,
        r: Result<Vec<u8>, CryptError>,
        after: Self,
    ) -> bool {
        r matches Ok(v) && v@ == buffer@
    }

    /// Does nothing but return existing data
    fn decrypt(&mut self, buffer: &[u8], associated_data: &AssociatedData) -> (r: Result<
        Vec<u8>,
        CryptError,
    >)
        ensures
            r matches Ok(v) && v@ == buffer@,
    {
        Ok(vstd::slice::slice_to_vec(buffer))
    }
}

} // verus!
