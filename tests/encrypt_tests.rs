use sunset::encrypt::{calc_pad, CtrKey, DecKey, EncKey, IntegKey, KeyState, Keys, MAX_PADLEN, SSH_PAYLOAD_START};
use sha2::{Digest, Sha256};
use sunset::error::Error;
use sunset::kex::{Algos, Cipher, Integ, Kex, KexType};
use sunset::sign::SigType;
use sunset::traffic::TrafIn;
use sunset::kex::{compute_key, letter, KeySlot};

// setting `corrupt` tests that incorrect mac is detected
fn do_roundtrips(keys: &mut KeyState, corrupt: bool) {
    let pad_src = [0x5au8; MAX_PADLEN];
    for i in 0usize..40 {
        let v: Vec<u8> = (0u8..i as u8 + 60).collect();
        let orig_payload = v[SSH_PAYLOAD_START..SSH_PAYLOAD_START + i].to_vec();

        let mut out = vec![];
        let written = keys.encrypt(&orig_payload, &pad_src, &mut out).unwrap();
        assert_eq!(written, out.len());

        if corrupt {
            // flip a bit of the payload
            out[SSH_PAYLOAD_START] ^= 4;
        }

        let l = keys.decrypt_first_block(&out).unwrap() as usize;
        assert_eq!(l, out.len());

        let dec = keys.decrypt(&out);

        if corrupt {
            assert!(matches!(dec, Err(Error::BadDecrypt)));
            return;
        }
        let (plain, payload_len) = dec.unwrap();
        assert_eq!(payload_len, i);
        let dec_payload = plain[SSH_PAYLOAD_START..SSH_PAYLOAD_START + i].to_vec();
        assert_eq!(orig_payload, dec_payload);
    }
}

fn aes_keys() -> Keys {
    let k = compute_key(b"hello", &[1u8; 32], letter(true, KeySlot::KeyEnc), &[2u8; 32], 32);
    let iv = compute_key(b"hello", &[1u8; 32], letter(true, KeySlot::IvEnc), &[2u8; 32], 16);
    let i = compute_key(b"hello", &[1u8; 32], letter(true, KeySlot::IntegEnc), &[2u8; 32], 32);
    Keys {
        enc: EncKey::Aes256Ctr(CtrKey { key: k.clone(), iv: iv.clone(), pos: 0 }),
        dec: DecKey::Aes256Ctr(CtrKey { key: k, iv, pos: 0 }),
        integ_enc: IntegKey::HmacSha256(i.clone()),
        integ_dec: IntegKey::HmacSha256(i),
    }
}

fn hmac_keys() -> Keys {
    let k = compute_key(b"hello", &[1u8; 32], letter(true, KeySlot::IntegEnc), &[2u8; 32], 32);
    Keys {
        enc: EncKey::NoCipher,
        dec: DecKey::NoCipher,
        integ_enc: IntegKey::HmacSha256(k.clone()),
        integ_dec: IntegKey::HmacSha256(k),
    }
}

#[test]
fn roundtrip_nocipher() {
    // check padding works
    let mut keys = KeyState::new_cleartext();
    do_roundtrips(&mut keys, false);
}

#[test]
#[should_panic]
fn roundtrip_nocipher_corrupt() {
    // test the test, cleartext has no mac
    let mut keys = KeyState::new_cleartext();
    do_roundtrips(&mut keys, true);
}

/// Keys for `algos` derived as a key exchange would, from shared secret
/// "hello" and the digests of "some exchange hash" and "some sessid".
fn derive(algos: Algos) -> Keys {
    let h = Sha256::digest("some exchange hash".as_bytes()).to_vec();
    let sess_id = Sha256::digest("some sessid".as_bytes()).to_vec();
    let mut kex = Kex::NewKeys { algos, h, k: "hello".as_bytes().to_vec() };
    let mut sid = Some(sess_id);
    let km = kex.handle_newkeys(&mut sid).unwrap();
    Keys::from_material(km, &algos).unwrap()
}

#[test]
fn algo_roundtrips() {
    let combos = [(Cipher::Aes256Ctr, Integ::HmacSha256), (Cipher::ChaPoly, Integ::ChaPoly)];
    for (c, i) in combos {
        let mut algos = Algos {
            kex: KexType::Curve25519,
            hostsig: SigType::Ed25519,
            cipher_enc: c,
            cipher_dec: c,
            integ_enc: i,
            integ_dec: i,
            discard_next: false,
            is_client: false,
            send_ext_info: false,
        };
        let mut newkeys = derive(algos);
        // client and server enc/dec keys are derived differently, we need them
        // to match for this test
        algos.is_client = !algos.is_client;
        let newkeys_b = derive(algos);
        newkeys.dec = newkeys_b.dec;
        newkeys.integ_dec = newkeys_b.integ_dec;

        let mut keys = KeyState::new_cleartext();
        keys.rekey(newkeys);
        do_roundtrips(&mut keys, false);
        do_roundtrips(&mut keys, true);
    }
}

#[test]
fn directions_keyed_independently() {
    let algos = Algos {
        kex: KexType::Curve25519,
        hostsig: SigType::Ed25519,
        cipher_enc: Cipher::ChaPoly,
        cipher_dec: Cipher::Aes256Ctr,
        integ_enc: Integ::ChaPoly,
        integ_dec: Integ::HmacSha256,
        discard_next: false,
        is_client: true,
        send_ext_info: false,
    };
    let keys = derive(algos);
    assert!(matches!(keys.enc, EncKey::ChaPoly(_)));
    assert!(matches!(keys.dec, DecKey::Aes256Ctr(_)));
    assert!(matches!(keys.integ_enc, IntegKey::ChaPoly));
    match &keys.integ_dec {
        IntegKey::HmacSha256(k) => assert_eq!(k.len(), 32),
        _ => panic!("expected an HMAC key"),
    }
}

#[test]
fn chapoly_flipped_bit() {
    let algos = Algos {
        kex: KexType::Curve25519,
        hostsig: SigType::Ed25519,
        cipher_enc: Cipher::ChaPoly,
        cipher_dec: Cipher::ChaPoly,
        integ_enc: Integ::ChaPoly,
        integ_dec: Integ::ChaPoly,
        discard_next: false,
        is_client: false,
        send_ext_info: false,
    };
    let mut keys = derive(algos);
    let mirror = derive(Algos { is_client: true, ..algos });
    keys.dec = mirror.dec;
    keys.integ_dec = mirror.integ_dec;
    let mut ks = KeyState::new_cleartext();
    ks.rekey(keys);
    let mut wire = vec![];
    ks.encrypt(b"hello world", &[7u8; MAX_PADLEN], &mut wire).unwrap();
    // 4 length bytes, a multiple of 8, then the 16-byte tag
    assert_eq!((wire.len() - 4 - 16) % 8, 0);
    assert_eq!(ks.decrypt_first_block(&wire), Ok(wire.len() as u32));
    let mut flipped = wire.clone();
    flipped[6] ^= 0x08;
    assert_eq!(ks.decrypt(&flipped).unwrap_err(), Error::BadDecrypt);
    // the sequence number moved on; the intact packet needs the one it was sent with
    ks.seq_decrypt = 0;
    let (plain, n) = ks.decrypt(&wire).unwrap();
    assert_eq!(&plain[5..5 + n], b"hello world");
}

#[test]
fn oversized_packet_refused() {
    let mut ks = KeyState::new_cleartext();
    let mut t = TrafIn::new(64);
    // the first block announces 1000 bytes
    t.input(&[0, 0, 3, 0xe4, 4, 0, 0, 0]).unwrap();
    assert_eq!(t.take_decrypted(&mut ks).unwrap_err(), Error::BadLength);
    assert_eq!(t.buf.len(), 8);
    let mut small = TrafIn::new(64);
    small.input(&[0, 0, 0, 12, 4]).unwrap();
    assert_eq!(small.input(&[0u8; 60]).unwrap_err(), Error::NoRoom);
    assert_eq!(small.buf.len(), 5);
    assert!(small.take_decrypted(&mut ks).unwrap().is_none());
}

#[test]
fn tampered_packet_in_stream_is_an_error() {
    let mut tx = KeyState::new_cleartext();
    tx.rekey(aes_keys());
    let mut wire = vec![];
    tx.encrypt(b"payload", &[0u8; MAX_PADLEN], &mut wire).unwrap();
    wire[9] ^= 0x01;
    let mut rx = KeyState::new_cleartext();
    rx.rekey(aes_keys());
    let mut t = TrafIn::new(35000);
    t.input(&wire).unwrap();
    assert_eq!(t.take_decrypted(&mut rx).unwrap_err(), Error::BadDecrypt);
    assert!(t.buf.is_empty());
}

#[test]
fn aes_ciphertext_differs_from_plaintext() {
    let mut ks = KeyState::new_cleartext();
    ks.rekey(aes_keys());
    let mut out = vec![];
    ks.encrypt(b"secret payload", &[0u8; MAX_PADLEN], &mut out).unwrap();
    // 4 + 1 + 14 + pad is a multiple of 16, plus the 32-byte MAC
    assert_eq!((out.len() - 32) % 16, 0);
    assert!(!out.windows(14).any(|w| w == b"secret payload"));
    assert_eq!(ks.decrypt_first_block(&out), Ok(out.len() as u32));
    let (plain, n) = ks.decrypt(&out).unwrap();
    assert_eq!(n, 14);
    assert_eq!(&plain[5..19], b"secret payload");
}

#[test]
fn padding_lengths() {
    // 4 + 1 + 0 + pad must reach 16 and a multiple of 8
    assert_eq!(calc_pad(0, 8, false), 11);
    assert_eq!(calc_pad(3, 8, false), 8);
    assert_eq!(calc_pad(3, 16, false), 8);
    assert_eq!(calc_pad(11, 16, false), 16);
    assert_eq!(calc_pad(0, 8, true), 15);
    for p in 0..100usize {
        let pad = calc_pad(p, 8, false);
        assert!(pad >= 4);
        assert_eq!((5 + p + pad) % 8, 0);
        assert!(5 + p + pad >= 16);
    }
}

#[test]
fn empty_payload_minimum_packet() {
    let mut keys = KeyState::new_cleartext();
    let mut out = vec![];
    let n = keys.encrypt(&[], &[0u8; MAX_PADLEN], &mut out).unwrap();
    assert_eq!(n, 16);
    assert_eq!(&out[..5], &[0, 0, 0, 12, 11]);
    assert_eq!(keys.decrypt(&out).unwrap().1, 0);
    // a packet below the minimum size is refused
    assert_eq!(keys.decrypt(&out[..8]).unwrap_err(), Error::SSHProtoError);
}

#[test]
fn sequence_numbers_wrap() {
    let mut keys = KeyState::new_cleartext();
    keys.rekey(hmac_keys());
    keys.seq_encrypt = u32::MAX;
    keys.seq_decrypt = u32::MAX;
    let pad_src = [1u8; MAX_PADLEN];
    for _ in 0..3 {
        let mut out = vec![];
        keys.encrypt(b"data", &pad_src, &mut out).unwrap();
        assert_eq!(keys.decrypt(&out).unwrap().1, 4);
    }
    assert_eq!(keys.seq_encrypt, 2);
    assert_eq!(keys.seq_decrypt, 2);
}

#[test]
fn mismatched_sequence_fails_integrity() {
    let mut keys = KeyState::new_cleartext();
    keys.rekey(hmac_keys());
    let mut out = vec![];
    keys.encrypt(b"data", &[1u8; MAX_PADLEN], &mut out).unwrap();
    keys.seq_decrypt = 7;
    assert_eq!(keys.decrypt(&out).unwrap_err(), Error::BadDecrypt);
}

#[test]
fn flipped_bit_integrity() {
    let mut keys = KeyState::new_cleartext();
    keys.rekey(hmac_keys());
    let pad_src = [3u8; MAX_PADLEN];
    let mut out = vec![];
    keys.encrypt(b"hello world", &pad_src, &mut out).unwrap();
    let mut flipped = out.clone();
    flipped[6] ^= 1;
    assert_eq!(keys.decrypt(&flipped).unwrap_err(), Error::BadDecrypt);

    let mut keys2 = KeyState::new_cleartext();
    keys2.rekey(hmac_keys());
    let mut out2 = vec![];
    keys2.encrypt(b"hello world", &pad_src, &mut out2).unwrap();
    let last = out2.len() - 1;
    out2[last] ^= 0x80;
    assert_eq!(keys2.decrypt(&out2).unwrap_err(), Error::BadDecrypt);

    // with AES the first encrypted block is flipped
    let mut keys3 = KeyState::new_cleartext();
    keys3.rekey(aes_keys());
    let mut out3 = vec![];
    keys3.encrypt(b"hello world", &pad_src, &mut out3).unwrap();
    let mut keys4 = KeyState::new_cleartext();
    keys4.rekey(aes_keys());
    out3[7] ^= 0x10;
    assert_eq!(keys4.decrypt(&out3).unwrap_err(), Error::BadDecrypt);
}

#[test]
fn first_block_length() {
    let keys = KeyState::new_cleartext();
    assert_eq!(keys.decrypt_first_block(&[0, 0, 0, 12, 0, 0, 0, 0]), Ok(16));
    assert_eq!(keys.decrypt_first_block(&[0, 0, 0]), Err(Error::Bug));
    assert_eq!(keys.decrypt_first_block(&[0xff, 0xff, 0xff, 0xff, 0, 0, 0, 0]), Err(Error::BadDecrypt));
}

#[test]
fn stream_in_any_pieces() {
    let mut ks = KeyState::new_cleartext();
    ks.rekey(hmac_keys());
    let payloads: Vec<Vec<u8>> = (0..6u8).map(|i| vec![i; i as usize * 7]).collect();
    let mut stream = vec![];
    let mut frames = vec![];
    for p in payloads.iter() {
        let mut f = vec![];
        ks.encrypt(p, &[9u8; MAX_PADLEN], &mut f).unwrap();
        stream.extend_from_slice(&f);
        frames.push(f);
    }
    for chunk in [1usize, 3, 16, 50, 1000] {
        let mut t = TrafIn::new(35000);
        let mut got = vec![];
        for piece in stream.chunks(chunk) {
            t.input(piece).unwrap();
            got.extend(t.drain(32));
        }
        assert_eq!(got, frames);
        assert!(t.buf.is_empty());
    }
}

#[test]
fn encrypted_stream_in_any_pieces() {
    let payloads: Vec<Vec<u8>> = (0..6u8).map(|i| vec![i; i as usize * 9 + 1]).collect();
    let mut tx = KeyState::new_cleartext();
    tx.rekey(aes_keys());
    let mut stream = vec![];
    for p in payloads.iter() {
        tx.encrypt(p, &[4u8; MAX_PADLEN], &mut stream).unwrap();
    }
    for chunk in [1usize, 5, 16, 64, 4096] {
        let mut rx = KeyState::new_cleartext();
        rx.rekey(aes_keys());
        let mut t = TrafIn::new(35000);
        let mut got: Vec<Vec<u8>> = vec![];
        for piece in stream.chunks(chunk) {
            t.input(piece).unwrap();
            while let Some((plain, n)) = t.take_decrypted(&mut rx).unwrap() {
                got.push(plain[SSH_PAYLOAD_START..SSH_PAYLOAD_START + n].to_vec());
            }
        }
        assert_eq!(got, payloads);
        assert!(t.buf.is_empty());
    }
}
