//! Hash and MAC primitives from the `sha2` and `hmac` crates.

use vstd::prelude::*;

verus! {

/// The SHA-256 digest of a byte sequence.
pub uninterp spec fn sha256_of(data: Seq<u8>) -> Seq<u8>;

/// The HMAC-SHA-256 tag of `msg` under `key`.
pub uninterp spec fn hmac_sha256_of(key: Seq<u8>, msg: Seq<u8>) -> Seq<u8>;

/// Relies on `sha2::Sha256::digest`: the SHA-256 digest of `data`, 32 bytes long.
#[verifier::external_body]
pub(crate) fn sha256(data: &[u8]) -> (r: Vec<u8>)
    ensures
        r@ == sha256_of(data@),
        r@.len() == 32,
{
    <sha2::Sha256 as sha2::Digest>::digest(data).to_vec()
}

/// Relies on `hmac::Hmac<Sha256>` (`new_from_slice`, `update`, `finalize`):
/// the tag of `msg` under `key`, 32 bytes long. HMAC accepts keys of any length.
#[verifier::external_body]
pub(crate) fn hmac_sha256(key: &[u8], msg: &[u8]) -> (r: Vec<u8>)
    ensures
        r@ == hmac_sha256_of(key@, msg@),
        r@.len() == 32,
{
    match <hmac::Hmac<sha2::Sha256> as hmac::Mac>::new_from_slice(key) {
        Ok(mut h) => {
            hmac::Mac::update(&mut h, msg);
            hmac::Mac::finalize(h).into_bytes().to_vec()
        },
        Err(_) => Vec::new(),
    }
}

/// Relies on `hmac::Mac::verify_slice` for `Hmac<Sha256>`: succeeds exactly
/// when `tag` equals the tag of `msg` under `key` (compared in constant time).
#[verifier::external_body]
pub(crate) fn hmac_sha256_verify(key: &[u8], msg: &[u8], tag: &[u8]) -> (r: bool)
    ensures
        r == (tag@ == hmac_sha256_of(key@, msg@)),
{
    match <hmac::Hmac<sha2::Sha256> as hmac::Mac>::new_from_slice(key) {
        Ok(mut h) => {
            hmac::Mac::update(&mut h, msg);
            hmac::Mac::verify_slice(h, tag).is_ok()
        },
        Err(_) => false,
    }
}


/// The X25519 public point for a secret seed.
pub uninterp spec fn x25519_public_of(seed: Seq<u8>) -> Seq<u8>;

/// The X25519 shared secret of our secret seed and the peer's public point.
pub uninterp spec fn x25519_shared_of(seed: Seq<u8>, theirs: Seq<u8>) -> Seq<u8>;

/// Relies on `salty::agreement::SecretKey::from_seed` and
/// `PublicKey::from(&SecretKey)`: the 32-byte public point of the key made
/// from `seed`.
#[verifier::external_body]
pub(crate) fn x25519_public(seed: &[u8]) -> (r: Vec<u8>)
    requires
        seed@.len() == 32,
    ensures
        r@ == x25519_public_of(seed@),
        r@.len() == 32,
{
    let seed: [u8; 32] = seed.try_into().unwrap();
    let secret = salty::agreement::SecretKey::from_seed(&seed);
    salty::agreement::PublicKey::from(&secret).to_bytes().to_vec()
}

/// Whether 32 bytes are the canonical encoding of a Curve25519 field element.
pub uninterp spec fn x25519_point_canonical(theirs: Seq<u8>) -> bool;

/// Relies on `salty::agreement::PublicKey::try_from([u8; 32])`, which
/// refuses exactly the non-canonical field element encodings, and
/// `SecretKey::agree`: the 32-byte shared secret, or `None` when the peer's
/// point is refused.
#[verifier::external_body]
pub(crate) fn x25519_agree(seed: &[u8], theirs: &[u8]) -> (r: Option<Vec<u8>>)
    requires
        seed@.len() == 32,
        theirs@.len() == 32,
    ensures
        r is Some <==> x25519_point_canonical(theirs@),
        r matches Some(v) ==> v@ == x25519_shared_of(seed@, theirs@) && v@.len() == 32,
{
    let seed: [u8; 32] = seed.try_into().unwrap();
    let theirs: [u8; 32] = theirs.try_into().unwrap();
    let secret = salty::agreement::SecretKey::from_seed(&seed);
    match salty::agreement::PublicKey::try_from(theirs) {
        Ok(p) => Some(secret.agree(&p).to_bytes().to_vec()),
        Err(_) => None,
    }
}


/// The AES-256-CTR keystream (32-bit big-endian block counter) for `key` and
/// `iv`, `len` bytes from byte position `pos`.
pub uninterp spec fn aes256_ctr_keystream(key: Seq<u8>, iv: Seq<u8>, pos: nat, len: nat) -> Seq<u8>;

/// Whether `key` and `iv` have the cipher's lengths and the keystream from
/// `iv` reaches `len` bytes past byte position `pos`.
pub uninterp spec fn aes256_ctr_ok(key: Seq<u8>, iv: Seq<u8>, pos: nat, len: nat) -> bool;

/// Byte-wise exclusive or of `d` with `k`.
pub open spec fn spec_xor(d: Seq<u8>, k: Seq<u8>) -> Seq<u8> {
    Seq::new(d.len(), |i: int| d[i] ^ k[i])
}

/// Relies on `ctr::Ctr32BE<aes::Aes256>`: `KeyIvInit::new_from_slices`
/// (fails on a key that is not 32 bytes or an IV that is not 16),
/// `StreamCipherSeek::try_seek` to byte `pos`, and
/// `StreamCipher::try_apply_keystream`, which XORs the keystream into `data`
/// or, when the keystream would run out, fails leaving `data` unmodified.
#[verifier::external_body]
pub(crate) fn aes256_ctr_apply(key: &[u8], iv: &[u8], pos: u64, data: &mut Vec<u8>) -> (r: bool)
    ensures
        r == aes256_ctr_ok(key@, iv@, pos as nat, old(data)@.len()),
        r ==> final(data)@ == spec_xor(old(data)@, aes256_ctr_keystream(key@, iv@, pos as nat, old(data)@.len())),
        !r ==> final(data)@ == old(data)@,
{
    let mut c = match <ctr::Ctr32BE<aes::Aes256> as aes::cipher::KeyIvInit>::new_from_slices(key, iv) {
        Ok(c) => c,
        Err(_) => return false,
    };
    if aes::cipher::StreamCipherSeek::try_seek(&mut c, pos).is_err() {
        return false;
    }
    aes::cipher::StreamCipher::try_apply_keystream(&mut c, data.as_mut_slice()).is_ok()
}

/// Applying the same keystream twice gives back the data.
pub proof fn lemma_xor_twice(d: Seq<u8>, k: Seq<u8>)
    ensures
        spec_xor(spec_xor(d, k), k) == d,
{
    assert forall|i: int| 0 <= i < d.len() implies #[trigger] spec_xor(spec_xor(d, k), k)[i] == d[i] by {
        let a = d[i];
        let b = k[i];
        assert((a ^ b) ^ b == a) by (bit_vector);
    }
    assert(spec_xor(spec_xor(d, k), k) =~= d);
}


/// Whether `sig` is a valid Ed25519 signature of `msg` under public key `key`.
pub uninterp spec fn ed25519_valid(key: Seq<u8>, msg: Seq<u8>, sig: Seq<u8>) -> bool;

/// The Ed25519 public key for a 32-byte secret seed.
pub uninterp spec fn ed25519_public_of(seed: Seq<u8>) -> Seq<u8>;

/// The Ed25519 signature of `msg` by the key made from `seed`.
pub uninterp spec fn ed25519_signature_of(seed: Seq<u8>, msg: Seq<u8>) -> Seq<u8>;

/// Relies on `ring::signature::UnparsedPublicKey::new(&ED25519, key).verify`:
/// succeeds exactly when `sig` is a valid Ed25519 signature of `msg` by `key`.
#[verifier::external_body]
pub(crate) fn ed25519_verify(key: &[u8], msg: &[u8], sig: &[u8]) -> (r: bool)
    ensures
        r == ed25519_valid(key@, msg@, sig@),
{
    ring::signature::UnparsedPublicKey::new(&ring::signature::ED25519, key).verify(msg, sig).is_ok()
}

/// Relies on `ring::signature::Ed25519KeyPair::from_seed_unchecked` (which
/// accepts any 32-byte seed) and `KeyPair::public_key`: the 32-byte public key.
#[verifier::external_body]
pub(crate) fn ed25519_public(seed: &[u8]) -> (r: Vec<u8>)
    requires
        seed@.len() == 32,
    ensures
        r@ == ed25519_public_of(seed@),
        r@.len() == 32,
{
    match ring::signature::Ed25519KeyPair::from_seed_unchecked(seed) {
        Ok(k) => ring::signature::KeyPair::public_key(&k).as_ref().to_vec(),
        Err(_) => Vec::new(),
    }
}

/// Relies on `ring::signature::Ed25519KeyPair::from_seed_unchecked` and
/// `Ed25519KeyPair::sign`: the 64-byte signature of `msg`.
#[verifier::external_body]
pub(crate) fn ed25519_sign(seed: &[u8], msg: &[u8]) -> (r: Vec<u8>)
    requires
        seed@.len() == 32,
    ensures
        r@ == ed25519_signature_of(seed@, msg@),
        r@.len() == 64,
{
    match ring::signature::Ed25519KeyPair::from_seed_unchecked(seed) {
        Ok(k) => k.sign(msg).as_ref().to_vec(),
        Err(_) => Vec::new(),
    }
}


/// The ChaCha20 keystream (original construction: 64-bit nonce, 32-bit block
/// counter) for `key` and `nonce`, `len` bytes from byte position `pos`.
pub uninterp spec fn chacha20_keystream(key: Seq<u8>, nonce: Seq<u8>, pos: nat, len: nat) -> Seq<u8>;

/// The Poly1305 tag of `msg` under the one-time key `key`.
pub uninterp spec fn poly1305_of(key: Seq<u8>, msg: Seq<u8>) -> Seq<u8>;

/// The keystream positions this library uses stay far below the 256 GiB a
/// 32-bit block counter allows.
pub const CHACHA_MAX_POS: u64 = 0x10_0000_0000;

/// Relies on `chacha20::ChaCha20Legacy`: `KeyIvInit::new_from_slices` (fails
/// exactly when the key is not 32 bytes or the nonce not 8),
/// `StreamCipherSeek::try_seek` to byte `pos`, and
/// `StreamCipher::try_apply_keystream`, which XORs the keystream into `data`;
/// below `CHACHA_MAX_POS` the 32-bit block counter does not run out.
#[verifier::external_body]
pub(crate) fn chacha20_apply(key: &[u8], nonce: &[u8], pos: u64, data: &mut Vec<u8>) -> (r: bool)
    requires
        pos + old(data)@.len() <= CHACHA_MAX_POS,
    ensures
        r == (key@.len() == 32 && nonce@.len() == 8),
        r ==> final(data)@ == spec_xor(old(data)@, chacha20_keystream(key@, nonce@, pos as nat, old(data)@.len())),
        !r ==> final(data)@ == old(data)@,
{
    let mut c = match <chacha20::ChaCha20Legacy as chacha20::cipher::KeyIvInit>::new_from_slices(key, nonce) {
        Ok(c) => c,
        Err(_) => return false,
    };
    if chacha20::cipher::StreamCipherSeek::try_seek(&mut c, pos).is_err() {
        return false;
    }
    chacha20::cipher::StreamCipher::try_apply_keystream(&mut c, data.as_mut_slice()).is_ok()
}

/// Relies on `poly1305::Poly1305`: `KeyInit::new_from_slice` (accepts any
/// 32-byte key) and `compute_unpadded`: the 16-byte tag of `msg`.
#[verifier::external_body]
pub(crate) fn poly1305_tag(key: &[u8], msg: &[u8]) -> (r: Vec<u8>)
    requires
        key@.len() == 32,
    ensures
        r@ == poly1305_of(key@, msg@),
        r@.len() == 16,
{
    match <poly1305::Poly1305 as poly1305::universal_hash::KeyInit>::new_from_slice(key) {
        Ok(p) => p.compute_unpadded(msg).to_vec(),
        Err(_) => Vec::new(),
    }
}

} // verus!
