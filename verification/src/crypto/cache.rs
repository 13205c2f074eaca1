use crate::crypto::aead::{
    new_aes_128_gcm_siv_bicrypter, new_aes_128_siv_bicrypter, new_aes_256_gcm_siv_bicrypter,
    new_aes_256_siv_bicrypter, spec_seal, AeadCipher, AesNonceBicrypter,
};
use crate::crypto::nonce::spec_nonce_size_bytes;
use crate::crypto::key::{Key128Bits, Key256Bits, Key512Bits};
use crate::crypto::nonce::NonceSize;
use crate::crypto::{AssociatedData, Bicrypter, CryptError, Decrypter, Encrypter};
use lru::LruCache;
use vstd::prelude::*;

verus! {

/// A least-recently-used cache of the `lru` crate.
#[verifier::external_type_specification]
#[verifier::external_body]
#[verifier::reject_recursive_types(K)]
#[verifier::reject_recursive_types(V)]
#[verifier::reject_recursive_types(S)]
pub struct ExLruCache<K, V, S>(lru::LruCache<K, V, S>);

/// The hasher that an `lru::LruCache` uses by default.
#[verifier::external_type_specification]
#[verifier::external_body]
pub struct ExLruDefaultHasher(lru::DefaultHasher);

/// The keys held by a cache of nonces, from the least recently used to the
/// most recently used.
pub uninterp spec fn lru_keys(cache: LruCache<Vec<u8>, ()>) -> Seq<Seq<u8>>;

/// The number of keys that a cache of nonces holds at most.
pub uninterp spec fn lru_capacity(cache: LruCache<Vec<u8>, ()>) -> nat;

/// The keys of a cache after putting `k` into it: a key already held
/// becomes the most recently used; a new key is added as the most recently
/// used, pushing out the least recently used key when the cache is full.
pub open spec fn spec_lru_put(keys: Seq<Seq<u8>>, cap: nat, k: Seq<u8>) -> Seq<Seq<u8>> {
    if keys.contains(k) {
        keys.remove(keys.index_of(k)).push(k)
    } else if keys.len() == cap {
        keys.drop_first().push(k)
    } else {
        keys.push(k)
    }
}

/// Creates an empty cache through `lru::LruCache::new`.
///
/// The capacity must not be zero (`std::num::NonZeroUsize`); the cache
/// starts empty with that capacity.
#[verifier::external_body]
fn lru_new(cap: usize) -> (c: LruCache<Vec<u8>, ()>)
    requires
        cap > 0,
    ensures
        lru_keys(c) == Seq::<Seq<u8>>::empty(),
        lru_capacity(c) == cap,
{
    LruCache::new(std::num::NonZeroUsize::new(cap).unwrap())
}

/// Asks whether a key is held, through `lru::LruCache::contains`, which does
/// not change the order of use.
#[verifier::external_body]
fn lru_contains(c: &LruCache<Vec<u8>, ()>, k: &Vec<u8>) -> (b: bool)
    ensures
        b == lru_keys(*c).contains(k@),
{
    c.contains(k)
}

/// Puts a key into the cache through `lru::LruCache::put`: a key already
/// held is moved to the most recently used place; otherwise the key is
/// added there, and when the cache is full the least recently used key is
/// dropped first. The capacity stays.
#[verifier::external_body]
fn lru_put(c: &mut LruCache<Vec<u8>, ()>, k: Vec<u8>)
    ensures
        lru_capacity(*final(c)) == lru_capacity(*old(c)),
        lru_keys(*final(c)) == spec_lru_put(lru_keys(*old(c)), lru_capacity(*old(c)), k@),
{
    c.put(k, ());
}

/// Remembers the nonces last seen, up to a capacity, so that a nonce seen
/// again while remembered is refused
pub struct NonceCache {
    lru: Option<LruCache<Vec<u8>, ()>>,
}

/// A sequence in which no element occurs twice and which is no longer than
/// `cap`
pub open spec fn well_formed_keys(keys: Seq<Seq<u8>>, cap: nat) -> bool {
    &&& keys.no_duplicates()
    &&& keys.len() <= cap
}

impl NonceCache {
    #[verifier::type_invariant]
    spec fn wf(self) -> bool {
        match self.lru {
            Some(c) => lru_capacity(c) > 0 && well_formed_keys(lru_keys(c), lru_capacity(c)),
            None => true,
        }
    }

    /// How many nonces are remembered at most (zero when none is)
    pub closed spec fn capacity(self) -> nat {
        match self.lru {
            Some(c) => lru_capacity(c),
            None => 0,
        }
    }

    /// The nonces remembered, from the least recently seen to the most
    /// recently seen
    pub closed spec fn nonces(self) -> Seq<Seq<u8>> {
        match self.lru {
            Some(c) => lru_keys(c),
            None => Seq::empty(),
        }
    }

    /// A cache remembering up to `capacity` nonces; with zero capacity it
    /// remembers none
    pub fn new(capacity: usize) -> (c: Self)
        ensures
            c.capacity() == capacity,
            c.nonces() == Seq::<Seq<u8>>::empty(),
            well_formed_keys(c.nonces(), c.capacity()),
    {
        if capacity > 0 {
            NonceCache { lru: Some(lru_new(capacity)) }
        } else {
            NonceCache { lru: None }
        }
    }

    /// Records the use of `nonce`, refusing it if it is remembered already
    pub fn register(&mut self, nonce: &[u8]) -> (r: Result<(), CryptError>)
        ensures
            final(self).capacity() == old(self).capacity(),
            well_formed_keys(old(self).nonces(), old(self).capacity()),
            well_formed_keys(final(self).nonces(), final(self).capacity()),
            old(self).capacity() == 0 ==> r is Ok && final(self).nonces() == old(self).nonces(),
            old(self).capacity() > 0 && old(self).nonces().contains(nonce@) ==> {
                &&& r matches Err(CryptError::NonceAlreadyUsed { nonce: v }) && v@ == nonce@
                &&& final(self).nonces() == old(self).nonces()
            },
            old(self).capacity() > 0 && !old(self).nonces().contains(nonce@) ==> {
                &&& r is Ok
                &&& final(self).nonces() == spec_lru_put(
                    old(self).nonces(),
                    old(self).capacity(),
                    nonce@,
                )
            },
    {
        proof {
            use_type_invariant(&*self);
        }
        let nonce_vec = vstd::slice::slice_to_vec(nonce);
        let used = match &self.lru {
            Some(c) => lru_contains(c, &nonce_vec),
            None => return Ok(()),
        };
        if used {
            return Err(CryptError::NonceAlreadyUsed { nonce: nonce_vec });
        }
        let mut taken: Option<LruCache<Vec<u8>, ()>> = None;
        std::mem::swap(&mut taken, &mut self.lru);
        match taken {
            Some(mut c) => {
                proof {
                    lemma_put_keeps_well_formed(lru_keys(c), lru_capacity(c), nonce_vec@);
                }
                lru_put(&mut c, nonce_vec);
                self.lru = Some(c);
            },
            None => {},
        }
        Ok(())
    }
}

/// Putting a key keeps the keys free of repetition and within the capacity
pub proof fn lemma_put_keeps_well_formed(keys: Seq<Seq<u8>>, cap: nat, k: Seq<u8>)
    requires
        cap > 0,
        well_formed_keys(keys, cap),
    ensures
        well_formed_keys(spec_lru_put(keys, cap, k), cap),
        spec_lru_put(keys, cap, k).contains(k),
        spec_lru_put(keys, cap, k).last() == k,
{
    let r = spec_lru_put(keys, cap, k);
    if keys.contains(k) {
        let i = keys.index_of(k);
        let rest = keys.remove(i);
        assert(rest.len() == keys.len() - 1);
        assert forall|a: int, b: int| 0 <= a < b < rest.len() implies rest[a] != rest[b] by {
            let a2 = if a < i { a } else { a + 1 };
            let b2 = if b < i { b } else { b + 1 };
            assert(rest[a] == keys[a2]);
            assert(rest[b] == keys[b2]);
        }
        assert forall|a: int| 0 <= a < rest.len() implies rest[a] != k by {
            let a2 = if a < i { a } else { a + 1 };
            assert(rest[a] == keys[a2]);
        }
        assert(r.no_duplicates()) by {
            assert forall|a: int, b: int| 0 <= a < r.len() && 0 <= b < r.len() && a != b implies r[a]
                != r[b] by {
                if a < rest.len() && b < rest.len() {
                    if a < b {
                        assert(rest[a] != rest[b]);
                    } else {
                        assert(rest[b] != rest[a]);
                    }
                }
            }
        }
    } else {
        let rest = if keys.len() == cap {
            keys.drop_first()
        } else {
            keys
        };
        assert forall|a: int| 0 <= a < rest.len() implies rest[a] != k by {
            if keys.len() == cap {
                assert(rest[a] == keys[a + 1]);
            }
        }
        assert(r.no_duplicates()) by {
            assert forall|a: int, b: int| 0 <= a < r.len() && 0 <= b < r.len() && a != b implies r[a]
                != r[b] by {
                if a < rest.len() && b < rest.len() {
                    if keys.len() == cap {
                        assert(rest[a] == keys[a + 1]);
                        assert(rest[b] == keys[b + 1]);
                    }
                }
            }
        }
    }
    assert(r[r.len() - 1] == k);
}

/// Adds nonce caching in front of another bicrypter: a nonce seen again
/// while the cache remembers it is refused, in either direction
pub struct NonceCacheBicrypter<T: Bicrypter> {
    bicrypter: T,
    cache: NonceCache,
}

impl<T: Bicrypter> NonceCacheBicrypter<T> {
    /// The cache of nonces seen
    pub closed spec fn cache(self) -> NonceCache {
        self.cache
    }

    /// The bicrypter that does the encryption and decryption
    pub closed spec fn inner(self) -> T {
        self.bicrypter
    }

    /// Caches up to `nonce_cache_size` nonces in front of `bicrypter`; with a
    /// size of zero no nonce is cached
    pub fn new(bicrypter: T, nonce_cache_size: usize) -> (b: Self)
        ensures
            b.inner() == bicrypter,
            b.cache().capacity() == nonce_cache_size,
            b.cache().nonces() == Seq::<Seq<u8>>::empty(),
    {
        Self { bicrypter, cache: NonceCache::new(nonce_cache_size) }
    }

    /// Passes everything through to `bicrypter` without caching nonces
    pub fn with_no_nonce_cache(bicrypter: T) -> (b: Self)
        ensures
            b.inner() == bicrypter,
            b.cache().capacity() == 0,
            b.cache().nonces() == Seq::<Seq<u8>>::empty(),
    {
        Self::new(bicrypter, 0)
    }
}

/// What becomes of the nonce cache when a message with `ad` comes through,
/// and whether the message is refused for a nonce remembered already
pub open spec fn spec_cache_step(
    before: NonceCache,
    after: NonceCache,
    ad: AssociatedData,
    refused: bool,
) -> bool {
    &&& after.capacity() == before.capacity()
    &&& match ad.spec_nonce() {
        None => !refused && after.nonces() == before.nonces(),
        Some(n) => if before.capacity() > 0 && before.nonces().contains(n) {
            refused && after.nonces() == before.nonces()
        } else if before.capacity() > 0 {
            !refused && after.nonces() == spec_lru_put(before.nonces(), before.capacity(), n)
        } else {
            !refused && after.nonces() == before.nonces()
        },
    }
}

impl<T: Bicrypter> Bicrypter for NonceCacheBicrypter<T> {

}

/// What comes of a message with `ad` through a caching bicrypter `before`,
/// leaving it as `after`, when the inner bicrypter takes it as `inner_gives`
/// says: the cache takes its step; a refused nonce gives
/// `NonceAlreadyUsed` with the nonce and leaves the inner bicrypter alone;
/// otherwise the result is the inner bicrypter's
pub open spec fn spec_cached<T: Bicrypter>(
    before: NonceCacheBicrypter<T>,
    after: NonceCacheBicrypter<T>,
    ad: AssociatedData,
    r: Result<Vec<u8>, CryptError>,
    inner_gives: bool,
) -> bool {
    exists|refused: bool|
        {
            &&& #[trigger] spec_cache_step(before.cache(), after.cache(), ad, refused)
            &&& refused ==> (r matches Err(CryptError::NonceAlreadyUsed { nonce: v }) && Some(v@)
                == ad.spec_nonce() && after.inner() == before.inner())
            &&& !refused ==> inner_gives
        }
}

impl<T: Bicrypter> Encrypter for NonceCacheBicrypter<T> {
    /// Registers the nonce (if provided), then the inner encrypter gives the
    /// result unless the nonce was refused (see `spec_cached`)
    open spec fn encrypt_gives(
        self,
        buffer: &[u8],
        associated_data: &AssociatedData,
        r: Result<Vec<u8>, CryptError>,
        after: Self,
    ) -> bool {
        spec_cached(
            self,
            after,
            *associated_data,
            r,
            self.inner().encrypt_gives(buffer, associated_data, r, after.inner()),
        )
    }

    /// Registers the nonce (if provided), then passes on to the underlying
    /// encrypter unless the nonce was refused
    fn encrypt(&mut self, buffer: &[u8], associated_data: &AssociatedData) -> (r: Result<
        Vec<u8>,
        CryptError,
    >) {
        if let Some(nonce) = associated_data.to_nonce() {
            match self.cache.register(nonce) {
                Err(e) => {
                    assert(spec_cache_step(
                        old(self).cache(),
                        self.cache,
                        *associated_data,
                        true,
                    ));
                    return Err(e);
                },
                Ok(()) => {},
            }
        }
        assert(spec_cache_step(old(self).cache(), self.cache, *associated_data, false));
        self.bicrypter.encrypt(buffer, associated_data)
    }

    /// Returns underlying bicrypter's associated data
    fn new_encrypt_associated_data(&self) -> (ad: AssociatedData)
        ensures
            call_ensures(T::new_encrypt_associated_data, (&self.inner(),), ad),
    {
        self.bicrypter.new_encrypt_associated_data()
    }
}

impl<T: Bicrypter> Decrypter for NonceCacheBicrypter<T> {
    /// Registers the nonce (if provided), then the inner decrypter gives the
    /// result unless the nonce was refused (see `spec_cached`)
    open spec fn decrypt_gives(
        self,
        buffer: &[u8],
        associated_data: &AssociatedData,
        r: Result<Vec<u8>, CryptError>,
        after: Self,
    ) -> bool {
        spec_cached(
            self,
            after,
            *associated_data,
            r,
            self.inner().decrypt_gives(buffer, associated_data, r, after.inner()),
        )
    }

    /// Registers the nonce (if provided), then passes on to the underlying
    /// decrypter unless the nonce was refused
    fn decrypt(&mut self, buffer: &[u8], associated_data: &AssociatedData) -> (r: Result<
        Vec<u8>,
        CryptError,
    >) {
        if let Some(nonce) = associated_data.to_nonce() {
            match self.cache.register(nonce) {
                Err(e) => {
                    assert(spec_cache_step(
                        old(self).cache(),
                        self.cache,
                        *associated_data,
                        true,
                    ));
                    return Err(e);
                },
                Ok(()) => {},
            }
        }
        assert(spec_cache_step(old(self).cache(), self.cache, *associated_data, false));
        self.bicrypter.decrypt(buffer, associated_data)
    }
}

/// Decryption through a nonce cache gives back what was encrypted: when a
/// caching AES bicrypter decrypts (`before` to `after`, giving `r`) a
/// `buffer` that its cipher encrypted from `p` under a nonce of the right
/// size that the cache does not remember, the result is `p`.
pub proof fn lemma_cached_round_trip(
    before: NonceCacheBicrypter<AesNonceBicrypter>,
    after: NonceCacheBicrypter<AesNonceBicrypter>,
    buffer: &[u8],
    ad: AssociatedData,
    r: Result<Vec<u8>, CryptError>,
    n: Seq<u8>,
    p: Seq<u8>,
)
    requires
        before.decrypt_gives(buffer, &ad, r, after),
        ad.spec_nonce() == Some(n),
        n.len() == spec_nonce_size_bytes(before.inner().nonce_size()),
        !(before.cache().capacity() > 0 && before.cache().nonces().contains(n)),
        spec_seal(before.inner().cipher(), n, p) == Some(buffer@),
    ensures
        r matches Ok(q) && q@ == p,
{
    let refused = choose|refused: bool|
        {
            &&& #[trigger] spec_cache_step(before.cache(), after.cache(), ad, refused)
            &&& refused ==> (r matches Err(CryptError::NonceAlreadyUsed { nonce: v }) && Some(v@)
                == ad.spec_nonce() && after.inner() == before.inner())
            &&& !refused ==> before.inner().decrypt_gives(buffer, &ad, r, after.inner())
        };
    assert(!refused);
}

/// The keys of a cache after putting each of `ks` into it, in order
pub open spec fn spec_lru_put_all(keys: Seq<Seq<u8>>, cap: nat, ks: Seq<Seq<u8>>) -> Seq<Seq<u8>>
    decreases ks.len(),
{
    if ks.len() == 0 {
        keys
    } else {
        spec_lru_put_all(spec_lru_put(keys, cap, ks[0]), cap, ks.drop_first())
    }
}

/// A nonce that a cache accepted is refused when it comes again right after.
pub proof fn lemma_accepted_nonce_is_refused_next(keys: Seq<Seq<u8>>, cap: nat, n: Seq<u8>)
    requires
        cap > 0,
        well_formed_keys(keys, cap),
        !keys.contains(n),
    ensures
        spec_lru_put(keys, cap, n).contains(n),
{
    lemma_put_keeps_well_formed(keys, cap, n);
}

/// Putting a key other than the one at place `p` keeps that one, one place
/// further at most from the most recently used end, as long as it was not
/// the least recently used key of a full cache.
proof fn lemma_put_other_keeps(keys: Seq<Seq<u8>>, cap: nat, x: Seq<u8>, p: int) -> (q: int)
    requires
        cap > 0,
        well_formed_keys(keys, cap),
        0 <= p < keys.len(),
        keys[p] != x,
        keys.len() - 1 - p < cap - 1,
    ensures
        0 <= q < spec_lru_put(keys, cap, x).len(),
        spec_lru_put(keys, cap, x)[q] == keys[p],
        spec_lru_put(keys, cap, x).len() - 1 - q <= keys.len() - p,
{
    let r = spec_lru_put(keys, cap, x);
    if keys.contains(x) {
        let i = keys.index_of(x);
        assert(keys[i] == x);
        assert(i != p);
        let rest = keys.remove(i);
        if i < p {
            assert(rest[p - 1] == keys[p]);
            assert(r[p - 1] == keys[p]);
            p - 1
        } else {
            assert(rest[p] == keys[p]);
            assert(r[p] == keys[p]);
            p
        }
    } else if keys.len() == cap {
        assert(p >= 1);
        assert(r[p - 1] == keys[p]);
        p - 1
    } else {
        assert(r[p] == keys[p]);
        p
    }
}

/// Keys put into a cache push a held key out only after `cap` of them: a
/// key at distance `d` from the most recently used end survives fewer than
/// `cap - d` further puts of other keys.
proof fn lemma_put_all_keeps(keys: Seq<Seq<u8>>, cap: nat, ks: Seq<Seq<u8>>, p: int)
    requires
        cap > 0,
        well_formed_keys(keys, cap),
        0 <= p < keys.len(),
        !ks.contains(keys[p]),
        (keys.len() - 1 - p) + ks.len() < cap,
    ensures
        spec_lru_put_all(keys, cap, ks).contains(keys[p]),
    decreases ks.len(),
{
    if ks.len() == 0 {
        assert(keys.contains(keys[p]));
    } else {
        let x = ks[0];
        assert(ks.contains(x));
        let q = lemma_put_other_keeps(keys, cap, x, p);
        lemma_put_keeps_well_formed(keys, cap, x);
        let next = spec_lru_put(keys, cap, x);
        assert forall|j: int| 0 <= j < ks.drop_first().len() implies ks.drop_first()[j] != keys[p] by {
            assert(ks.drop_first()[j] == ks[j + 1]);
        }
        lemma_put_all_keeps(next, cap, ks.drop_first(), q);
    }
}

/// A nonce that a cache of capacity `cap` accepted stays refused while fewer
/// than `cap` other nonces have come through since.
pub proof fn lemma_accepted_nonce_is_refused_within_capacity(
    keys: Seq<Seq<u8>>,
    cap: nat,
    n: Seq<u8>,
    others: Seq<Seq<u8>>,
)
    requires
        cap > 0,
        well_formed_keys(keys, cap),
        !others.contains(n),
        others.len() < cap,
    ensures
        spec_lru_put_all(spec_lru_put(keys, cap, n), cap, others).contains(n),
{
    lemma_put_keeps_well_formed(keys, cap, n);
    let after = spec_lru_put(keys, cap, n);
    lemma_put_all_keeps(after, cap, others, after.len() - 1);
}

/// Caching bicrypter over AES-128-GCM-SIV, remembering up to
/// `nonce_cache_size` nonces
pub fn new_aes_128_gcm_siv_cache_bicrypter(key: &Key128Bits, nonce_cache_size: usize) -> (b:
    NonceCacheBicrypter<AesNonceBicrypter>)
    ensures
        b.inner().cipher() == AeadCipher::Aes128GcmSiv(*key),
        b.inner().nonce_size() == NonceSize::Nonce96Bits,
        b.cache().capacity() == nonce_cache_size,
        b.cache().nonces() == Seq::<Seq<u8>>::empty(),
{
    NonceCacheBicrypter::new(new_aes_128_gcm_siv_bicrypter(key), nonce_cache_size)
}

/// Caching bicrypter over AES-256-GCM-SIV, remembering up to
/// `nonce_cache_size` nonces
pub fn new_aes_256_gcm_siv_cache_bicrypter(key: &Key256Bits, nonce_cache_size: usize) -> (b:
    NonceCacheBicrypter<AesNonceBicrypter>)
    ensures
        b.inner().cipher() == AeadCipher::Aes256GcmSiv(*key),
        b.inner().nonce_size() == NonceSize::Nonce96Bits,
        b.cache().capacity() == nonce_cache_size,
        b.cache().nonces() == Seq::<Seq<u8>>::empty(),
{
    NonceCacheBicrypter::new(new_aes_256_gcm_siv_bicrypter(key), nonce_cache_size)
}

/// Caching bicrypter over AES-SIV of 128-bit security, remembering up to
/// `nonce_cache_size` nonces
pub fn new_aes_128_siv_cache_bicrypter(key: &Key256Bits, nonce_cache_size: usize) -> (b:
    NonceCacheBicrypter<AesNonceBicrypter>)
    ensures
        b.inner().cipher() == AeadCipher::Aes128Siv(*key),
        b.inner().nonce_size() == NonceSize::Nonce128Bits,
        b.cache().capacity() == nonce_cache_size,
        b.cache().nonces() == Seq::<Seq<u8>>::empty(),
{
    NonceCacheBicrypter::new(new_aes_128_siv_bicrypter(key), nonce_cache_size)
}

/// Caching bicrypter over AES-SIV of 256-bit security, remembering up to
/// `nonce_cache_size` nonces
pub fn new_aes_256_siv_cache_bicrypter(key: &Key512Bits, nonce_cache_size: usize) -> (b:
    NonceCacheBicrypter<AesNonceBicrypter>)
    ensures
        b.inner().cipher() == AeadCipher::Aes256Siv(*key),
        b.inner().nonce_size() == NonceSize::Nonce128Bits,
        b.cache().capacity() == nonce_cache_size,
        b.cache().nonces() == Seq::<Seq<u8>>::empty(),
{
    NonceCacheBicrypter::new(new_aes_256_siv_bicrypter(key), nonce_cache_size)
}

} // verus!
