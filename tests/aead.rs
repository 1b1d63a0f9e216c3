use aes256ctr_poly1305aes::{Aes256CtrPoly1305Aes, Error};

fn hex(s: &str) -> Vec<u8> {
    (0..s.len())
        .step_by(2)
        .map(|i| u8::from_str_radix(&s[i..i + 2], 16).unwrap())
        .collect()
}

fn arr16(s: &str) -> [u8; 16] {
    hex(s).try_into().unwrap()
}

fn sample_key() -> [u8; 64] {
    let mut k = [0u8; 64];
    for (i, b) in k.iter_mut().enumerate() {
        *b = (i as u8).wrapping_mul(37).wrapping_add(11);
    }
    k
}

fn master_key(cipher: &[u8], block: &[u8], r: &[u8]) -> [u8; 64] {
    let mut k = [0u8; 64];
    k[0..32].copy_from_slice(cipher);
    k[32..48].copy_from_slice(block);
    k[48..64].copy_from_slice(r);
    k
}

const NONCE: &[u8; 16] = b"my unique nonce!";

fn seal(key: &[u8; 64], nonce: &[u8; 16], m: &[u8]) -> (Vec<u8>, [u8; 16]) {
    let c = Aes256CtrPoly1305Aes::new(key);
    let mut buf = m.to_vec();
    let tag = c.encrypt_in_place_detached(nonce, b"", &mut buf).unwrap();
    (buf, tag)
}

#[test]
fn round_trip_various_lengths() {
    let key = sample_key();
    let c = Aes256CtrPoly1305Aes::new(&key);
    for len in [0usize, 1, 15, 16, 17, 31, 32, 33, 100, 1000] {
        let m: Vec<u8> = (0..len).map(|i| (i * 7 + 3) as u8).collect();
        let mut buf = m.clone();
        let tag = c.encrypt_in_place_detached(NONCE, b"", &mut buf).unwrap();
        assert_eq!(buf.len(), len);
        if len > 0 {
            assert_ne!(buf, m);
        }
        c.decrypt_in_place_detached(NONCE, b"", &mut buf, &tag).unwrap();
        assert_eq!(buf, m);
    }
}

#[test]
fn plaintext_message_example() {
    let key = b"This is an example of a very secret key. Keep it always secret!!";
    let c = Aes256CtrPoly1305Aes::new(key);
    let mut buf = b"plaintext message".to_vec();
    let tag = c.encrypt_in_place_detached(NONCE, b"", &mut buf).unwrap();
    assert_ne!(&buf[..], b"plaintext message");
    c.decrypt_in_place_detached(NONCE, b"", &mut buf, &tag).unwrap();
    assert_eq!(&buf[..], b"plaintext message");
}

#[test]
fn flipped_tag_bit_is_rejected() {
    let key = sample_key();
    let c = Aes256CtrPoly1305Aes::new(&key);
    let (ct, tag) = seal(&key, NONCE, b"attack at dawn, bring snacks");
    for i in 0..16 {
        for b in 0..8 {
            let mut bad = tag;
            bad[i] ^= 1 << b;
            let mut buf = ct.clone();
            assert_eq!(c.decrypt_in_place_detached(NONCE, b"", &mut buf, &bad), Err(Error));
            assert_eq!(buf, ct);
        }
    }
}

#[test]
fn flipped_ciphertext_bit_is_rejected() {
    let key = sample_key();
    let c = Aes256CtrPoly1305Aes::new(&key);
    let (ct, tag) = seal(&key, NONCE, b"attack at dawn, bring snacks");
    for i in 0..ct.len() {
        for b in 0..8 {
            let mut bad = ct.clone();
            bad[i] ^= 1 << b;
            let mut buf = bad.clone();
            assert_eq!(c.decrypt_in_place_detached(NONCE, b"", &mut buf, &tag), Err(Error));
            assert_eq!(buf, bad);
        }
    }
}

#[test]
fn associated_data_is_rejected() {
    let key = sample_key();
    let c = Aes256CtrPoly1305Aes::new(&key);
    let m = b"some message".to_vec();
    let mut buf = m.clone();
    assert_eq!(c.encrypt_in_place_detached(NONCE, b"x", &mut buf), Err(Error));
    assert_eq!(buf, m);

    let (ct, tag) = seal(&key, NONCE, &m);
    let mut buf = ct.clone();
    assert_eq!(c.decrypt_in_place_detached(NONCE, b"header", &mut buf, &tag), Err(Error));
    assert_eq!(buf, ct);

    let mut empty: Vec<u8> = Vec::new();
    assert_eq!(c.encrypt_in_place_detached(NONCE, &[0u8], &mut empty), Err(Error));
}

#[test]
fn changing_mac_scalar_changes_tag_only() {
    let k1 = sample_key();
    let mut k2 = k1;
    k2[50] ^= 0x40;
    let m = b"key separation".to_vec();
    let (c1, t1) = seal(&k1, NONCE, &m);
    let (c2, t2) = seal(&k2, NONCE, &m);
    assert_eq!(c1, c2);
    assert_ne!(t1, t2);
    let d1 = Aes256CtrPoly1305Aes::new(&k1).derive_mac_key(NONCE);
    let d2 = Aes256CtrPoly1305Aes::new(&k2).derive_mac_key(NONCE);
    assert_ne!(d1, d2);
    assert_eq!(d1[16..32], d2[16..32]);
}

#[test]
fn changing_cipher_key_changes_ciphertext_only() {
    let k1 = sample_key();
    let mut k2 = k1;
    k2[3] ^= 0x01;
    let m = b"key separation".to_vec();
    let (c1, _) = seal(&k1, NONCE, &m);
    let (c2, _) = seal(&k2, NONCE, &m);
    assert_ne!(c1, c2);
    let d1 = Aes256CtrPoly1305Aes::new(&k1).derive_mac_key(NONCE);
    let d2 = Aes256CtrPoly1305Aes::new(&k2).derive_mac_key(NONCE);
    assert_eq!(d1, d2);
}

#[test]
fn zero_length_message() {
    let key = sample_key();
    let c = Aes256CtrPoly1305Aes::new(&key);
    let mut buf: Vec<u8> = Vec::new();
    let tag = c.encrypt_in_place_detached(NONCE, b"", &mut buf).unwrap();
    assert!(buf.is_empty());
    assert_eq!(tag.len(), 16);
    c.decrypt_in_place_detached(NONCE, b"", &mut buf, &tag).unwrap();
    assert!(buf.is_empty());
}

#[test]
fn encryption_is_deterministic() {
    let key = sample_key();
    let m = b"the same message, twice".to_vec();
    let (c1, t1) = seal(&key, NONCE, &m);
    let (c2, t2) = seal(&key, NONCE, &m);
    assert_eq!(c1, c2);
    assert_eq!(t1, t2);
    let (c3, t3) = seal(&key, b"another nonce..!", &m);
    assert_ne!(c1, c3);
    assert_ne!(t1, t3);
}

#[test]
fn derive_mac_key_uses_aes128_on_nonce() {
    // AES-128 known answer: FIPS-197, appendix C.1.
    let block_key = hex("000102030405060708090a0b0c0d0e0f");
    let r = hex("a0f3080000f46400d0c7e9076c834403");
    let key = master_key(&[7u8; 32], &block_key, &r);
    let nonce = arr16("00112233445566778899aabbccddeeff");
    let mk = Aes256CtrPoly1305Aes::new(&key).derive_mac_key(&nonce);
    assert_eq!(mk[0..16], r[..]);
    assert_eq!(mk[16..32], hex("69c4e0d86a7b0430d8cdb78070b4c55a")[..]);
}

#[test]
fn ciphertext_is_aes256_ctr() {
    // AES-256-CTR known answer: NIST SP 800-38A, F.5.5.
    let cipher_key = hex("603deb1015ca71be2b73aef0857d77811f352c073b6108d72d9810a30914dff4");
    let key = master_key(&cipher_key, &[1u8; 16], &[2u8; 16]);
    let nonce = arr16("f0f1f2f3f4f5f6f7f8f9fafbfcfdfeff");
    let c = Aes256CtrPoly1305Aes::new(&key);
    let mut buf = hex("6bc1bee22e409f96e93d7e117393172aae2d8a571e03ac9c9eb76fac45af8e51");
    c.encrypt_in_place_detached(&nonce, b"", &mut buf).unwrap();
    assert_eq!(buf, hex("601ec313775789a5b7a7f504bbf3d228f443e3ca4d62b59aca84e990cacaf5c5"));
}

#[test]
fn tag_is_poly1305_aes_empty_message() {
    // Poly1305-AES known answer with an empty message.
    let k = hex("75deaa25c09f208e1dc4ce6b5cad3fbf");
    let r = hex("a0f3080000f46400d0c7e9076c834403");
    let n = arr16("61ee09218d29b0aaed7e154a2c5509cc");
    let key = master_key(&[9u8; 32], &k, &r);
    let c = Aes256CtrPoly1305Aes::new(&key);
    let mut buf: Vec<u8> = Vec::new();
    let tag = c.encrypt_in_place_detached(&n, b"", &mut buf).unwrap();
    assert_eq!(tag, arr16("dd3fab2251f11ac759f0887129cc2ee7"));
}

#[test]
fn tag_is_poly1305_aes_short_message() {
    // Poly1305-AES known answer with a two-byte message, checked on the
    // decryption side, where the tag is taken over the buffer as it is.
    let k = hex("ec074c835580741701425b623235add6");
    let r = hex("851fc40c3467ac0be05cc20404f3f700");
    let n = arr16("fb447350c4e868c52ac3275cf9d4327e");
    let key = master_key(&[9u8; 32], &k, &r);
    let c = Aes256CtrPoly1305Aes::new(&key);
    let mut buf = hex("f3f6");
    let tag = arr16("f4c633c3044fc145f84f335cb81953de");
    assert_eq!(c.decrypt_in_place_detached(&n, b"", &mut buf, &tag), Ok(()));
    assert_ne!(buf, hex("f3f6"));
}
