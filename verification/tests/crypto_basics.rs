use over_there::crypto::cache::{NonceCache, NonceCacheBicrypter};
use over_there::crypto::closure::{ClosureDecrypter, ClosureEncrypter};
use over_there::crypto::key::{self, Key, KeySize};
use over_there::crypto::nonce::{self, nonce_size_to_byte_length, validate_nonce_size};
use over_there::crypto::{
    AssociatedData, Bicrypter, CryptError, Decrypter, Encrypter, Nonce, NonceSize, NoopBicrypter,
};

#[test]
fn encrypt_should_return_a_copy_of_input_data() {
    let mut bicrypter = NoopBicrypter;
    let data = vec![1, 2, 3];

    let encrypted_data = bicrypter
        .encrypt(&data, &AssociatedData::Empty)
        .expect("Encrypt failed unexpectedly");
    assert_eq!(data, encrypted_data);
}

#[test]
fn decrypt_should_return_a_copy_of_input_data() {
    let mut bicrypter = NoopBicrypter;
    let data = vec![1, 2, 3];

    let decrypted_data = bicrypter
        .decrypt(&data, &AssociatedData::Empty)
        .expect("Decrypt failed unexpectedly");
    assert_eq!(data, decrypted_data);
}

fn append_nonce(data: &[u8], associated_data: &AssociatedData) -> Result<Vec<u8>, CryptError> {
    let mut v = Vec::new();

    for d in data {
        v.push(*d);
    }

    if let AssociatedData::Nonce(nonce) = associated_data {
        for d in nonce.as_slice() {
            v.push(*d);
        }
    }

    Ok(v)
}

#[test]
fn closure_encrypter_encrypt_should_return_a_copy_of_input_data() {
    let mut encrypter = ClosureEncrypter::new(append_nonce);
    let data = vec![1, 2, 3];
    let associated_data = AssociatedData::Nonce(From::from(nonce::new_96bit_nonce()));

    let encrypted_data = encrypter
        .encrypt(&data, &associated_data)
        .expect("Decrypt failed unexpectedly");
    assert_eq!(
        [&vec![1, 2, 3], associated_data.to_nonce().unwrap()].concat(),
        encrypted_data
    );
}

#[test]
fn closure_decrypter_decrypt_should_return_a_copy_of_input_data() {
    let mut decrypter = ClosureDecrypter::new(append_nonce);
    let data = vec![1, 2, 3];
    let associated_data = AssociatedData::Nonce(From::from(nonce::new_96bit_nonce()));

    let decrypted_data = decrypter
        .decrypt(&data, &associated_data)
        .expect("Decrypt failed unexpectedly");
    assert_eq!(
        [&vec![1, 2, 3], associated_data.to_nonce().unwrap()].concat(),
        decrypted_data
    );
}

#[derive(Clone)]
struct StubBicrypter(fn(&[u8], &AssociatedData) -> Result<Vec<u8>, CryptError>);
impl Bicrypter for StubBicrypter {}
impl Encrypter for StubBicrypter {
    fn encrypt(
        &mut self,
        buffer: &[u8],
        associated_data: &AssociatedData,
    ) -> Result<Vec<u8>, CryptError> {
        (self.0)(buffer, associated_data)
    }

    fn new_encrypt_associated_data(&self) -> AssociatedData {
        AssociatedData::Empty
    }
}
impl Decrypter for StubBicrypter {
    fn decrypt(
        &mut self,
        buffer: &[u8],
        associated_data: &AssociatedData,
    ) -> Result<Vec<u8>, CryptError> {
        (self.0)(buffer, associated_data)
    }
}

#[test]
fn encrypt_should_fail_if_caching_nonce_and_nonce_already_used() {
    let mut bicrypter = NonceCacheBicrypter::new(StubBicrypter(|_, _| Ok(vec![])), 1);
    let buffer = vec![1, 2, 3];
    let nonce = nonce::new_96bit_nonce();

    let result = bicrypter.encrypt(&buffer, &AssociatedData::Nonce(Nonce::Nonce96Bits(nonce)));
    assert!(
        result.is_ok(),
        "First encrypt unexpectedly failed: {:?}",
        result
    );

    let result = bicrypter.encrypt(&buffer, &AssociatedData::Nonce(Nonce::Nonce96Bits(nonce)));
    match result {
        Err(CryptError::NonceAlreadyUsed { nonce: _ }) => (),
        x => panic!("Unexpected result: {:?}", x),
    }
}

#[test]
fn encrypt_should_fail_if_underlying_encrypt_fails() {
    let mut bicrypter = NonceCacheBicrypter::new(
        StubBicrypter(|_, _| Err(CryptError::EncryptFailed(From::from("Some error")))),
        1,
    );
    let buffer = vec![1, 2, 3];

    let nonce = AssociatedData::Nonce(Nonce::Nonce96Bits(nonce::new_96bit_nonce()));
    let result = bicrypter.encrypt(&buffer, &nonce);
    match result {
        Err(CryptError::EncryptFailed(_)) => (),
        x => panic!("Unexpected result: {:?}", x),
    }
}

#[test]
fn encrypt_should_succeed_if_can_encrypt_buffer() {
    let mut bicrypter = NonceCacheBicrypter::new(StubBicrypter(|_, _| Ok(vec![])), 1);
    let buffer = vec![1, 2, 3];

    let nonce = AssociatedData::Nonce(Nonce::Nonce96Bits(nonce::new_96bit_nonce()));
    let result = bicrypter.encrypt(&buffer, &nonce);
    assert!(
        result.is_ok(),
        "First encrypt unexpectedly failed: {:?}",
        result
    );

    let nonce = AssociatedData::Nonce(Nonce::Nonce96Bits(nonce::new_96bit_nonce()));
    let result = bicrypter.encrypt(&buffer, &nonce);
    assert!(
        result.is_ok(),
        "Second encrypt unexpectedly failed: {:?}",
        result
    );
}

#[test]
fn decrypt_should_fail_if_caching_nonce_and_nonce_already_used() {
    let mut bicrypter = NonceCacheBicrypter::new(StubBicrypter(|_, _| Ok(vec![])), 1);
    let buffer = vec![1, 2, 3];
    let nonce = nonce::new_96bit_nonce();

    let result = bicrypter.decrypt(&buffer, &AssociatedData::Nonce(Nonce::Nonce96Bits(nonce)));
    assert!(
        result.is_ok(),
        "First encrypt unexpectedly failed: {:?}",
        result
    );

    let result = bicrypter.decrypt(&buffer, &AssociatedData::Nonce(Nonce::Nonce96Bits(nonce)));
    match result {
        Err(CryptError::NonceAlreadyUsed { nonce: _ }) => (),
        x => panic!("Unexpected result: {:?}", x),
    }
}

#[test]
fn decrypt_should_fail_if_underlying_decrypt_fails() {
    let mut bicrypter = NonceCacheBicrypter::new(
        StubBicrypter(|_, _| Err(CryptError::DecryptFailed(From::from("Some error")))),
        1,
    );
    let buffer = vec![1, 2, 3];

    let nonce = AssociatedData::Nonce(Nonce::Nonce96Bits(nonce::new_96bit_nonce()));
    let result = bicrypter.decrypt(&buffer, &nonce);
    match result {
        Err(CryptError::DecryptFailed(_)) => (),
        x => panic!("Unexpected result: {:?}", x),
    }
}

#[test]
fn decrypt_should_succeed_if_can_decrypt_buffer() {
    let mut bicrypter = NonceCacheBicrypter::new(StubBicrypter(|_, _| Ok(vec![])), 1);
    let buffer = vec![1, 2, 3];

    let nonce = AssociatedData::Nonce(Nonce::Nonce96Bits(nonce::new_96bit_nonce()));
    let result = bicrypter.decrypt(&buffer, &nonce);
    assert!(
        result.is_ok(),
        "First encrypt unexpectedly failed: {:?}",
        result
    );

    let nonce = AssociatedData::Nonce(Nonce::Nonce96Bits(nonce::new_96bit_nonce()));
    let result = bicrypter.decrypt(&buffer, &nonce);
    assert!(
        result.is_ok(),
        "Second encrypt unexpectedly failed: {:?}",
        result
    );
}

// Further cases of the nonce cache

#[test]
fn nonce_cache_refuses_a_nonce_until_capacity_other_nonces_pass() {
    let mut cache = NonceCache::new(3);
    let a = [1u8; 12];
    assert!(cache.register(&a).is_ok());
    assert!(cache.register(&[2u8; 12]).is_ok());
    assert!(cache.register(&[3u8; 12]).is_ok());
    // Two other nonces since `a`: still remembered
    match cache.register(&a) {
        Err(CryptError::NonceAlreadyUsed { nonce }) => assert_eq!(nonce, a.to_vec()),
        x => panic!("Unexpected result: {:?}", x),
    }
    // A refusal does not count as a use: the third other nonce pushes out
    // `a`, the least recently seen
    assert!(cache.register(&[4u8; 12]).is_ok());
    match cache.register(&[2u8; 12]) {
        Err(CryptError::NonceAlreadyUsed { .. }) => (),
        x => panic!("Unexpected result: {:?}", x),
    }
    assert!(cache.register(&a).is_ok());
}

#[test]
fn nonce_cache_of_zero_capacity_accepts_every_nonce() {
    let mut cache = NonceCache::new(0);
    let a = [9u8; 16];
    assert!(cache.register(&a).is_ok());
    assert!(cache.register(&a).is_ok());
}

#[test]
fn nonce_cache_bicrypter_without_nonce_passes_through() {
    let mut bicrypter = NonceCacheBicrypter::new(NoopBicrypter, 2);
    assert_eq!(bicrypter.encrypt(&[7, 8], &AssociatedData::Empty).unwrap(), vec![7, 8]);
    assert_eq!(bicrypter.encrypt(&[7, 8], &AssociatedData::Empty).unwrap(), vec![7, 8]);
}

#[test]
fn nonce_cache_shares_memory_between_directions() {
    let mut bicrypter = NonceCacheBicrypter::new(NoopBicrypter, 2);
    let ad = AssociatedData::Nonce(Nonce::Nonce128Bits([5u8; 16]));
    assert!(bicrypter.encrypt(&[1], &ad).is_ok());
    match bicrypter.decrypt(&[1], &ad) {
        Err(CryptError::NonceAlreadyUsed { nonce }) => assert_eq!(nonce, vec![5u8; 16]),
        x => panic!("Unexpected result: {:?}", x),
    }
}

#[test]
fn key_from_slice_accepts_supported_lengths_only() {
    let k = Key::Key128Bits([0u8; 16]);
    assert_eq!(k.from_slice(&[3u8; 16]).unwrap().as_slice(), &[3u8; 16][..]);
    assert_eq!(k.from_slice(&[4u8; 32]).unwrap().as_slice(), &[4u8; 32][..]);
    assert_eq!(k.from_slice(&[5u8; 64]).unwrap().as_slice(), &[5u8; 64][..]);
    assert!(k.from_slice(&[5u8; 15]).is_none());
    assert!(k.from_slice(&[]).is_none());
}

#[test]
fn key_sizes_in_bytes() {
    assert_eq!(KeySize::Key128Bits.size_in_bytes(), 16);
    assert_eq!(KeySize::Key256Bits.size_in_bytes(), 32);
    assert_eq!(KeySize::Key512Bits.size_in_bytes(), 64);
    assert_eq!(usize::from(KeySize::Key512Bits), 64);
    assert_eq!(key::new_key_vec(KeySize::Key256Bits).len(), 32);
}

#[test]
fn nonce_from_slice_accepts_supported_lengths_only() {
    let n = Nonce::Nonce96Bits([0u8; 12]);
    match n.from_slice(&[1u8; 12]) {
        Some(Nonce::Nonce96Bits(b)) => assert_eq!(b, [1u8; 12]),
        x => panic!("Unexpected result: {:?}", x),
    }
    match n.from_slice(&[2u8; 16]) {
        Some(Nonce::Nonce128Bits(b)) => assert_eq!(b, [2u8; 16]),
        x => panic!("Unexpected result: {:?}", x),
    }
    assert!(n.from_slice(&[2u8; 13]).is_none());
}

#[test]
fn nonce_sizes_and_validation() {
    assert_eq!(NonceSize::Nonce96Bits.size_in_bytes(), 12);
    assert_eq!(nonce_size_to_byte_length(NonceSize::Nonce128Bits), 16);
    assert!(validate_nonce_size(NonceSize::Nonce96Bits, 12).is_ok());
    match validate_nonce_size(NonceSize::Nonce96Bits, 16) {
        Err(CryptError::NonceWrongSize { provided_size }) => assert_eq!(provided_size, 16),
        x => panic!("Unexpected result: {:?}", x),
    }
    assert_eq!(nonce::new_nonce_vec(NonceSize::Nonce128Bits).len(), 16);
    assert!(matches!(nonce::new_nonce(NonceSize::Nonce96Bits), Nonce::Nonce96Bits(_)));
    assert!(matches!(
        NonceSize::from(Nonce::Nonce128Bits([0; 16])),
        NonceSize::Nonce128Bits
    ));
}

#[test]
fn associated_data_gives_its_nonce() {
    assert!(AssociatedData::Empty.to_nonce().is_none());
    let ad = AssociatedData::from(Nonce::Nonce96Bits([6u8; 12]));
    assert_eq!(ad.to_nonce().unwrap(), &[6u8; 12][..]);
}

#[test]
fn crypto_error_message_names_the_direction() {
    use_error_message();
}

fn use_error_message() {
    let e = over_there::crypto::error::InternalError::Encrypt(String::from("AED: Error"));
    assert_eq!(e.message(), "Internal encrypt error: AED: Error");
    let d = over_there::crypto::error::InternalError::Decrypt(String::from("x"));
    assert_eq!(d.message(), "Internal decrypt error: x");
}
