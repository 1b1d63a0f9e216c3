//! The engine for one call: a counter-mode key, a nonce and a one-time
//! Poly1305 key, used once to encrypt-then-MAC or to verify-then-decrypt a
//! buffer in place. Associated data is not supported and the message length
//! is not authenticated.
use vstd::prelude::*;
use crate::primitives::{
    aes256_ctr_apply, ct_eq_tag, keystream_xor, poly1305_tag, poly1305_unpadded, wipe,
};
use crate::Error;

verus! {

/// The secrets of one encryption or decryption. Consumed by the call, which
/// zeroes them before it returns.
pub(crate) struct Cipher {
    pub(crate) cipher_key: [u8; 32],
    pub(crate) nonce: [u8; 16],
    pub(crate) mac_key: [u8; 32],
}

impl Cipher {
    pub(crate) fn new(cipher_key: [u8; 32], nonce: [u8; 16], mac_key: [u8; 32]) -> (r: Cipher)
        ensures
            r.cipher_key == cipher_key,
            r.nonce == nonce,
            r.mac_key == mac_key,
    {
        Cipher { cipher_key, nonce, mac_key }
    }

    /// Overwrites both keys with zeros.
    fn wipe_keys(&mut self)
        ensures
            final(self).cipher_key@ == Seq::new(32, |i: int| 0u8),
            final(self).mac_key@ == Seq::new(32, |i: int| 0u8),
            final(self).nonce == old(self).nonce,
    {
        wipe(&mut self.cipher_key);
        wipe(&mut self.mac_key);
    }

    /// Encrypts `buffer` in place and returns the tag over the ciphertext.
    /// Fails, touching nothing, when `associated_data` is not empty.
    pub(crate) fn encrypt_in_place_detached(self, associated_data: &[u8], buffer: &mut [u8]) -> (r: Result<[u8; 16], Error>)
        ensures
            associated_data@.len() > 0 ==> r is Err && final(buffer)@ == old(buffer)@,
            associated_data@.len() == 0 ==> r is Ok
                && final(buffer)@ == keystream_xor(self.cipher_key@, self.nonce@, old(buffer)@)
                && r->Ok_0@ == poly1305_unpadded(self.mac_key@, final(buffer)@),
    {
        let mut c = self;
        if associated_data.len() != 0 {
            c.wipe_keys();
            return Err(Error);
        }
        aes256_ctr_apply(&c.cipher_key, &c.nonce, buffer);
        let tag = poly1305_tag(&c.mac_key, buffer);
        assert(buffer@ =~= keystream_xor(c.cipher_key@, c.nonce@, old(buffer)@));
        c.wipe_keys();
        Ok(tag)
    }

    /// Checks `tag` against the tag over the ciphertext in `buffer`, comparing
    /// in constant time, and only when they match decrypts `buffer` in place.
    /// On failure `buffer` is left as it was.
    pub(crate) fn decrypt_in_place_detached(self, associated_data: &[u8], buffer: &mut [u8], tag: &[u8; 16]) -> (r: Result<(), Error>)
        ensures
            associated_data@.len() > 0 ==> r is Err,
            associated_data@.len() == 0 ==> (r is Ok <==> poly1305_unpadded(self.mac_key@, old(buffer)@) == tag@),
            r is Ok ==> final(buffer)@ == keystream_xor(self.cipher_key@, self.nonce@, old(buffer)@),
            r is Err ==> final(buffer)@ == old(buffer)@,
    {
        let mut c = self;
        if associated_data.len() != 0 {
            c.wipe_keys();
            return Err(Error);
        }
        let expected = poly1305_tag(&c.mac_key, buffer);
        if ct_eq_tag(&expected, tag) {
            aes256_ctr_apply(&c.cipher_key, &c.nonce, buffer);
            assert(buffer@ =~= keystream_xor(c.cipher_key@, c.nonce@, old(buffer)@));
            c.wipe_keys();
            Ok(())
        } else {
            c.wipe_keys();
            Err(Error)
        }
    }
}

} // verus!
