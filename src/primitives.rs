//! The outside primitives this construction is built from: AES-128 on one
//! block, AES-256 in counter mode, Poly1305, constant-time equality and
//! zeroing. Each is reached through one small function whose contract states
//! what the primitive computes.
use vstd::prelude::*;
use aes::cipher::{BlockEncrypt, FromBlockCipher, NewBlockCipher, StreamCipher};
use aes::{Aes128, Aes256, Aes256Ctr};
use poly1305::universal_hash::NewUniversalHash;
use poly1305::Poly1305;
use subtle::ConstantTimeEq;
use zeroize::Zeroize;

verus! {

/// The block that AES-128 under the 16-byte `key` makes of the 16-byte `block`.
pub uninterp spec fn aes128_block(key: Seq<u8>, block: Seq<u8>) -> Seq<u8>;

/// Byte `pos` of the AES-256 counter-mode keystream under the 32-byte `key`:
/// the first 8 bytes of `nonce` stay fixed and its last 8 bytes are a
/// big-endian 64-bit counter that advances by one per block and wraps.
pub uninterp spec fn aes256_ctr_keystream(key: Seq<u8>, nonce: Seq<u8>, pos: nat) -> u8;

/// The Poly1305 tag of `msg` under the 32-byte one-time key `key`, where the
/// last partial block of `msg` is hashed as it is, without zero padding.
pub uninterp spec fn poly1305_unpadded(key: Seq<u8>, msg: Seq<u8>) -> Seq<u8>;

/// `data` combined by exclusive or with the keystream of `key` and `nonce`,
/// from its first byte on.
pub open spec fn keystream_xor(key: Seq<u8>, nonce: Seq<u8>, data: Seq<u8>) -> Seq<u8> {
    Seq::new(data.len(), |i: int| data[i] ^ aes256_ctr_keystream(key, nonce, i as nat))
}

/// Relies on `Aes128::new` and `BlockEncrypt::encrypt_block` of the aes crate:
/// the encryption of one block under a 16-byte key.
#[verifier::external_body]
pub(crate) fn aes128_encrypt(key: &[u8; 16], block: &[u8; 16]) -> (r: [u8; 16])
    ensures
        r@ == aes128_block(key@, block@),
{
    let mut b = aes::Block::from(*block);
    Aes128::new(key.into()).encrypt_block(&mut b);
    b.into()
}

/// Relies on `Aes256Ctr::from_block_cipher` and `StreamCipher::apply_keystream`
/// of the aes and cipher crates: a fresh counter-mode instance XORs its
/// keystream into `buf` from position zero. The call panics only when the
/// number of blocks would pass 2^64, which no buffer in memory reaches.
#[verifier::external_body]
pub(crate) fn aes256_ctr_apply(key: &[u8; 32], nonce: &[u8; 16], buf: &mut [u8])
    ensures
        final(buf)@.len() == old(buf)@.len(),
        forall|i: int|
            0 <= i < old(buf)@.len() ==> #[trigger] final(buf)@[i] == old(buf)@[i]
                ^ aes256_ctr_keystream(key@, nonce@, i as nat),
{
    Aes256Ctr::from_block_cipher(Aes256::new(key.into()), nonce.into()).apply_keystream(buf);
}

/// Relies on `Poly1305::new` and `Poly1305::compute_unpadded` of the poly1305
/// crate: the 16-byte tag of a message under a 32-byte one-time key.
#[verifier::external_body]
pub(crate) fn poly1305_tag(key: &[u8; 32], msg: &[u8]) -> (r: [u8; 16])
    ensures
        r@ == poly1305_unpadded(key@, msg@),
{
    Poly1305::new(key.into()).compute_unpadded(msg).into_bytes().into()
}

/// Relies on `ConstantTimeEq::ct_eq` of the subtle crate on byte slices: true
/// exactly when the two tags are equal, after looking at every byte of both.
#[verifier::external_body]
pub(crate) fn ct_eq_tag(a: &[u8; 16], b: &[u8; 16]) -> (r: bool)
    ensures
        r == (a@ == b@),
{
    bool::from(a.ct_eq(b))
}

/// Relies on `Zeroize::zeroize` of the zeroize crate on byte arrays: every byte
/// is overwritten with zero in a way the compiler does not remove.
#[verifier::external_body]
pub(crate) fn wipe<const N: usize>(b: &mut [u8; N])
    ensures
        final(b)@ == Seq::new(N as nat, |i: int| 0u8),
    opens_invariants none
    no_unwind
{
    b.zeroize();
}

} // verus!
