//! Authenticated encryption from AES-256 in counter mode and Poly1305-AES.
mod cipher;
mod model;
mod primitives;

use vstd::prelude::*;

pub use model::{
    block_key, cipher_key, ephemeral_mac_key, lemma_cipher_key_separation,
    lemma_flipped_tag_rejected, lemma_keystream_xor_involution, lemma_mac_scalar_separation,
    lemma_round_trip, lemma_sealing_deterministic, mac_scalar, opened, sealed_ciphertext,
    sealed_tag, tag_of,
};
pub use primitives::{aes128_block, aes256_ctr_keystream, keystream_xor, poly1305_unpadded};

verus! {

/// The one failure this construction reports, whether associated data was
/// given or a tag did not match: the two are not told apart on purpose.
#[derive(Debug, Clone, Copy, PartialEq, Eq, Structural)]
pub struct Error;

/// Authenticated encryption with AES-256 in counter mode and Poly1305-AES,
/// keyed by 64 bytes: bytes 0 to 31 key the counter mode, bytes 32 to 47 key
/// the AES-128 that encrypts nonces for Poly1305-AES, bytes 48 to 63 are its
/// multiplier `r`. The three parts are zeroed when the value is dropped.
#[derive(Clone, Debug)]
pub struct Aes256CtrPoly1305Aes {
    aes256ctr_key: [u8; 32],
    aes128_key: [u8; 16],
    poly1305_r: [u8; 16],
}

impl View for Aes256CtrPoly1305Aes {
    type V = Seq<u8>;

    /// The 64-byte master key the value was made from.
    closed spec fn view(&self) -> Seq<u8> {
        self.aes256ctr_key@ + self.aes128_key@ + self.poly1305_r@
    }
}

/// The `N` bytes of `key` from `start` on.
fn key_part<const N: usize>(key: &[u8; 64], start: usize) -> (r: [u8; N])
    requires
        start + N <= 64,
    ensures
        r@ == key@.subrange(start as int, start + N),
{
    let mut r = [0u8; N];
    let mut i: usize = 0;
    while i < N
        invariant
            i <= N,
            start + N <= 64,
            r@.len() == N,
            forall|j: int| 0 <= j < i ==> r@[j] == key@[start + j],
        decreases N - i,
    {
        r[i] = key[start + i];
        i += 1;
    }
    assert(r@ =~= key@.subrange(start as int, start + N));
    r
}

/// The 32 bytes made of `lo` followed by `hi`.
fn concat_halves(lo: &[u8; 16], hi: &[u8; 16]) -> (r: [u8; 32])
    ensures
        r@ == lo@ + hi@,
{
    let mut r = [0u8; 32];
    let mut i: usize = 0;
    while i < 32
        invariant
            i <= 32,
            r@.len() == 32,
            forall|j: int| 0 <= j < i ==> r@[j] == (lo@ + hi@)[j],
        decreases 32 - i,
    {
        if i < 16 {
            r[i] = lo[i];
        } else {
            r[i] = hi[i - 16];
        }
        i += 1;
    }
    assert(r@ =~= lo@ + hi@);
    r
}

impl Aes256CtrPoly1305Aes {
    /// Splits the 64-byte master key into its three sub-keys. Every key is
    /// accepted.
    pub fn new(key: &[u8; 64]) -> (r: Self)
        ensures
            r@ == key@,
    {
        let r = Aes256CtrPoly1305Aes {
            aes256ctr_key: key_part(key, 0),
            aes128_key: key_part(key, 32),
            poly1305_r: key_part(key, 48),
        };
        assert(r@ =~= key@);
        r
    }

    /// The one-time Poly1305 key for `nonce`: `r`, then `nonce` encrypted with
    /// AES-128 under bytes 32 to 47 of the master key. The encrypted block is
    /// zeroed once it has been copied.
    pub fn derive_mac_key(&self, nonce: &[u8; 16]) -> (r: [u8; 32])
        ensures
            r@ == ephemeral_mac_key(self@, nonce@),
    {
        let mut block = primitives::aes128_encrypt(&self.aes128_key, nonce);
        let mac_key = concat_halves(&self.poly1305_r, &block);
        primitives::wipe(&mut block);
        proof {
            assert(block_key(self@) =~= self.aes128_key@);
            assert(mac_scalar(self@) =~= self.poly1305_r@);
        }
        mac_key
    }

    /// The keys of one call under `nonce`. The local copy of the one-time MAC
    /// key is zeroed once it has been handed over.
    fn cipher_from_nonce(&self, nonce: &[u8; 16]) -> (r: cipher::Cipher)
        ensures
            r.cipher_key@ == cipher_key(self@),
            r.nonce@ == nonce@,
            r.mac_key@ == ephemeral_mac_key(self@, nonce@),
    {
        let mut mac_key = self.derive_mac_key(nonce);
        proof {
            assert(cipher_key(self@) =~= self.aes256ctr_key@);
        }
        let c = cipher::Cipher::new(self.aes256ctr_key, *nonce, mac_key);
        primitives::wipe(&mut mac_key);
        c
    }

    /// Encrypts `buffer` in place under `nonce` and returns the tag over the
    /// ciphertext. Fails before deriving anything or touching `buffer` when
    /// `associated_data` is not empty.
    pub fn encrypt_in_place_detached(&self, nonce: &[u8; 16], associated_data: &[u8], buffer: &mut [u8]) -> (r: Result<[u8; 16], Error>)
        ensures
            associated_data@.len() > 0 ==> r is Err && final(buffer)@ == old(buffer)@,
            associated_data@.len() == 0 ==> r is Ok
                && final(buffer)@ == sealed_ciphertext(self@, nonce@, old(buffer)@)
                && r->Ok_0@ == sealed_tag(self@, nonce@, old(buffer)@),
    {
        if associated_data.len() != 0 {
            return Err(Error);
        }
        self.cipher_from_nonce(nonce).encrypt_in_place_detached(associated_data, buffer)
    }

    /// Checks `tag` against the ciphertext in `buffer` under `nonce`, in
    /// constant time, and decrypts `buffer` in place only when it matches. On
    /// every failure `buffer` is left as it was; non-empty `associated_data`
    /// fails before anything is derived.
    pub fn decrypt_in_place_detached(&self, nonce: &[u8; 16], associated_data: &[u8], buffer: &mut [u8], tag: &[u8; 16]) -> (r: Result<(), Error>)
        ensures
            associated_data@.len() > 0 ==> r is Err,
            associated_data@.len() == 0 ==> match r {
                Ok(()) => opened(self@, nonce@, old(buffer)@, tag@) == Some(final(buffer)@),
                Err(_) => opened(self@, nonce@, old(buffer)@, tag@) is None,
            },
            r is Err ==> final(buffer)@ == old(buffer)@,
    {
        if associated_data.len() != 0 {
            return Err(Error);
        }
        self.cipher_from_nonce(nonce).decrypt_in_place_detached(associated_data, buffer, tag)
    }
}

impl Drop for Aes256CtrPoly1305Aes {
    /// Zeroes the three sub-keys.
    fn drop(&mut self)
        ensures
            final(self)@ == Seq::new(64, |i: int| 0u8),
        opens_invariants none
        no_unwind
    {
        primitives::wipe(&mut self.aes256ctr_key);
        primitives::wipe(&mut self.aes128_key);
        primitives::wipe(&mut self.poly1305_r);
    }
}

} // verus!
