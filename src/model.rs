//! The construction as mathematics: how a 64-byte master key splits into
//! sub-keys, how the one-time MAC key comes from the nonce, and what sealing
//! and opening a message give.
use vstd::prelude::*;
use crate::primitives::{aes128_block, aes256_ctr_keystream, keystream_xor, poly1305_unpadded};

verus! {

/// Bytes 0 to 31 of the master key: the AES-256 counter-mode key.
pub open spec fn cipher_key(k: Seq<u8>) -> Seq<u8> {
    k.subrange(0, 32)
}

/// Bytes 32 to 47 of the master key: the AES-128 key that encrypts nonces.
pub open spec fn block_key(k: Seq<u8>) -> Seq<u8> {
    k.subrange(32, 48)
}

/// Bytes 48 to 63 of the master key: the Poly1305 multiplier `r`.
pub open spec fn mac_scalar(k: Seq<u8>) -> Seq<u8> {
    k.subrange(48, 64)
}

/// The one-time Poly1305 key for `nonce`: `r` followed by the nonce encrypted
/// under the block key.
pub open spec fn ephemeral_mac_key(k: Seq<u8>, nonce: Seq<u8>) -> Seq<u8> {
    mac_scalar(k) + aes128_block(block_key(k), nonce)
}

/// The ciphertext of `m`: `m` XORed with the keystream of the cipher key and nonce.
pub open spec fn sealed_ciphertext(k: Seq<u8>, nonce: Seq<u8>, m: Seq<u8>) -> Seq<u8> {
    keystream_xor(cipher_key(k), nonce, m)
}

/// The tag that authenticates the ciphertext `c` under `k` and `nonce`.
pub open spec fn tag_of(k: Seq<u8>, nonce: Seq<u8>, c: Seq<u8>) -> Seq<u8> {
    poly1305_unpadded(ephemeral_mac_key(k, nonce), c)
}

/// The tag produced when `m` is sealed.
pub open spec fn sealed_tag(k: Seq<u8>, nonce: Seq<u8>, m: Seq<u8>) -> Seq<u8> {
    tag_of(k, nonce, sealed_ciphertext(k, nonce, m))
}

/// What opening the ciphertext `c` with `tag` gives: the plaintext when the tag
/// is the one computed over `c`, nothing otherwise.
pub open spec fn opened(k: Seq<u8>, nonce: Seq<u8>, c: Seq<u8>, tag: Seq<u8>) -> Option<Seq<u8>> {
    if tag_of(k, nonce, c) == tag {
        Some(keystream_xor(cipher_key(k), nonce, c))
    } else {
        None
    }
}

/// XORing the same keystream twice gives back the data.
pub proof fn lemma_keystream_xor_involution(key: Seq<u8>, nonce: Seq<u8>, data: Seq<u8>)
    ensures
        keystream_xor(key, nonce, keystream_xor(key, nonce, data)) == data,
{
    let once = keystream_xor(key, nonce, data);
    let twice = keystream_xor(key, nonce, once);
    assert forall|i: int| 0 <= i < data.len() implies twice[i] == data[i] by {
        let x = data[i];
        let s = aes256_ctr_keystream(key, nonce, i as nat);
        assert((x ^ s) ^ s == x) by (bit_vector);
    }
    assert(twice =~= data);
}

/// Round trip: opening what sealing `m` produced, ciphertext and tag, under
/// the same key and nonce gives back `m`, for every message length.
pub proof fn lemma_round_trip(k: Seq<u8>, nonce: Seq<u8>, m: Seq<u8>)
    requires
        k.len() == 64,
        nonce.len() == 16,
    ensures
        opened(k, nonce, sealed_ciphertext(k, nonce, m), sealed_tag(k, nonce, m)) == Some(m),
{
    lemma_keystream_xor_involution(cipher_key(k), nonce, m);
}

/// A tag with one bit flipped is rejected: opening the sealed ciphertext of
/// `m` with the tag whose byte `i` has bit `b` inverted gives nothing.
pub proof fn lemma_flipped_tag_rejected(k: Seq<u8>, nonce: Seq<u8>, m: Seq<u8>, i: int, b: u8)
    requires
        k.len() == 64,
        nonce.len() == 16,
        0 <= i < sealed_tag(k, nonce, m).len(),
        b < 8,
    ensures
        ({
            let t = sealed_tag(k, nonce, m);
            opened(k, nonce, sealed_ciphertext(k, nonce, m), t.update(i, t[i] ^ (1u8 << b))) is None
        }),
{
    let t = sealed_tag(k, nonce, m);
    let x = t[i];
    assert(x ^ (1u8 << b) != x) by (bit_vector)
        requires
            b < 8,
    ;
    assert(t.update(i, x ^ (1u8 << b))[i] != t[i]);
}

/// Key separation for the multiplier: keys that differ only in bytes 48 to 63
/// give the same ciphertext for every nonce and message, and different
/// one-time MAC keys.
pub proof fn lemma_mac_scalar_separation(k1: Seq<u8>, k2: Seq<u8>, nonce: Seq<u8>, m: Seq<u8>)
    requires
        k1.len() == 64,
        k2.len() == 64,
        k1.subrange(0, 48) == k2.subrange(0, 48),
        mac_scalar(k1) != mac_scalar(k2),
    ensures
        sealed_ciphertext(k1, nonce, m) == sealed_ciphertext(k2, nonce, m),
        ephemeral_mac_key(k1, nonce) != ephemeral_mac_key(k2, nonce),
{
    assert(cipher_key(k1) =~= k1.subrange(0, 48).subrange(0, 32));
    assert(cipher_key(k2) =~= k2.subrange(0, 48).subrange(0, 32));
    assert(block_key(k1) =~= k1.subrange(0, 48).subrange(32, 48));
    assert(block_key(k2) =~= k2.subrange(0, 48).subrange(32, 48));
    let e1 = ephemeral_mac_key(k1, nonce);
    let e2 = ephemeral_mac_key(k2, nonce);
    assert(e1.subrange(0, 16) =~= mac_scalar(k1));
    assert(e2.subrange(0, 16) =~= mac_scalar(k2));
}

/// Key separation for the cipher key: keys that differ only in bytes 0 to 31
/// derive the same one-time MAC key for every nonce, so the tag over a given
/// ciphertext is the same under both.
pub proof fn lemma_cipher_key_separation(k1: Seq<u8>, k2: Seq<u8>, nonce: Seq<u8>, c: Seq<u8>)
    requires
        k1.len() == 64,
        k2.len() == 64,
        k1.subrange(32, 64) == k2.subrange(32, 64),
    ensures
        ephemeral_mac_key(k1, nonce) == ephemeral_mac_key(k2, nonce),
        tag_of(k1, nonce, c) == tag_of(k2, nonce, c),
{
    assert(block_key(k1) =~= k1.subrange(32, 64).subrange(0, 16));
    assert(block_key(k2) =~= k2.subrange(32, 64).subrange(0, 16));
    assert(mac_scalar(k1) =~= k1.subrange(32, 64).subrange(16, 32));
    assert(mac_scalar(k2) =~= k2.subrange(32, 64).subrange(16, 32));
}

/// Determinism: sealing the same message under the same key and nonce twice
/// gives the same ciphertext and the same tag.
pub proof fn lemma_sealing_deterministic(k1: Seq<u8>, k2: Seq<u8>, n1: Seq<u8>, n2: Seq<u8>, m1: Seq<u8>, m2: Seq<u8>)
    requires
        k1 == k2,
        n1 == n2,
        m1 == m2,
    ensures
        sealed_ciphertext(k1, n1, m1) == sealed_ciphertext(k2, n2, m2),
        sealed_tag(k1, n1, m1) == sealed_tag(k2, n2, m2),
{
}

} // verus!
