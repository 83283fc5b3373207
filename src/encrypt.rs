//! Binary packet framing: length, padding, integrity tag and sequence numbers.

use vstd::prelude::*;
use vstd::arithmetic::div_mod::{lemma_fundamental_div_mod, lemma_mod_multiples_basic};
use crate::bytes::{ct_eq, extend, to_vec};
use crate::crypto::{
    chacha20_apply, chacha20_keystream, poly1305_of, poly1305_tag,
    aes256_ctr_apply, aes256_ctr_keystream, aes256_ctr_ok, hmac_sha256, hmac_sha256_of,
    hmac_sha256_verify, lemma_xor_twice, spec_xor,
};
use crate::error::Error;
use crate::kex::{Algos, Cipher, Integ, KeyMaterial};
use crate::wire::{get_u32, put_u32, spec_u32_be, spec_u32_of};

verus! {

/// RFC 4253 section 6: including the `u32` length field, excluding the MAC.
pub const SSH_MIN_PACKET_SIZE: usize = 16;
pub const SSH_MIN_PADLEN: usize = 4;
pub const SSH_MIN_BLOCK: usize = 8;
pub const SSH_LENGTH_SIZE: usize = 4;
pub const SSH_PAYLOAD_START: usize = 5;
/// The largest padding that any packet needs with the block sizes used here.
pub const MAX_PADLEN: usize = 35;
/// The largest payload accepted for sending.
pub const MAX_PAYLOAD: usize = 0x1000_0000;
/// Length of an HMAC-SHA-256 tag, and of its key.
pub const HMAC_SHA256_LEN: usize = 32;

/// AES-256-CTR key state for one direction: key, IV, and the byte position
/// reached in the keystream.
#[derive(Debug)]
pub struct CtrKey {
    pub key: Vec<u8>,
    pub iv: Vec<u8>,
    pub pos: u64,
}

impl CtrKey {
    pub open spec fn spec_ok(&self, len: nat) -> bool {
        aes256_ctr_ok(self.key@, self.iv@, self.pos as nat, len) && self.pos + len <= u64::MAX
    }

    pub open spec fn spec_apply(&self, d: Seq<u8>) -> Seq<u8> {
        spec_xor(d, aes256_ctr_keystream(self.key@, self.iv@, self.pos as nat, d.len()))
    }

    /// `b` is `a` moved `n` bytes on in the keystream.
    pub open spec fn advanced(a: &CtrKey, b: &CtrKey, n: nat) -> bool {
        b.key@ == a.key@ && b.iv@ == a.iv@ && b.pos == a.pos + n
    }

    /// Applies the keystream at the current position to `data` and moves on.
    /// When the keystream would run out, nothing changes.
    fn apply(&mut self, data: &mut Vec<u8>) -> (r: bool)
        ensures
            r == old(self).spec_ok(old(data)@.len()),
            r ==> final(data)@ == old(self).spec_apply(old(data)@)
                && CtrKey::advanced(old(self), final(self), old(data)@.len()),
            !r ==> final(data)@ == old(data)@ && *final(self) == *old(self),
    {
        if self.pos > u64::MAX - data.len() as u64 {
            return false;
        }
        if !aes256_ctr_apply(self.key.as_slice(), self.iv.as_slice(), self.pos, data) {
            return false;
        }
        self.pos = self.pos + data.len() as u64;
        true
    }

    /// Applies the keystream at the current position to a copy of `data`,
    /// without moving on.
    fn peek(&self, data: &[u8]) -> (r: Option<Vec<u8>>)
        ensures
            self.spec_ok(data@.len()) ==> (r matches Some(v) && v@ == self.spec_apply(data@)),
            !self.spec_ok(data@.len()) ==> r is None,
    {
        if self.pos > u64::MAX - data.len() as u64 {
            return None;
        }
        let mut v = to_vec(data);
        if aes256_ctr_apply(self.key.as_slice(), self.iv.as_slice(), self.pos, &mut v) {
            Some(v)
        } else {
            None
        }
    }
}

/// The largest body `chacha20-poly1305@openssh.com` handles here.
pub const MAX_CHAPOLY_LEN: usize = 0x2000_0000;

/// Keys of `chacha20-poly1305@openssh.com` for one direction: `k1` encrypts
/// the length field, `k2` the rest and gives the Poly1305 key. The nonce is
/// the packet's sequence number.
#[derive(Debug)]
pub struct ChaPolyKey {
    pub k1: Vec<u8>,
    pub k2: Vec<u8>,
}

/// The 64-bit big-endian nonce for sequence number `seq`.
pub open spec fn spec_nonce(seq: u32) -> Seq<u8> {
    seq![0u8, 0u8, 0u8, 0u8] + spec_u32_be(seq)
}

impl ChaPolyKey {
    pub open spec fn spec_ok(&self, len: nat) -> bool {
        self.k1@.len() == 32 && self.k2@.len() == 32 && len <= MAX_CHAPOLY_LEN
    }

    /// The length field through the `k1` keystream, the rest through the
    /// `k2` keystream from its second block.
    pub open spec fn spec_apply(&self, d: Seq<u8>, seq: u32) -> Seq<u8> {
        let n = spec_nonce(seq);
        if d.len() <= SSH_LENGTH_SIZE {
            spec_xor(d, chacha20_keystream(self.k1@, n, 0, d.len()))
        } else {
            spec_xor(d.take(4), chacha20_keystream(self.k1@, n, 0, 4))
                + spec_xor(d.skip(4), chacha20_keystream(self.k2@, n, 64, (d.len() - 4) as nat))
        }
    }

    /// The one-time Poly1305 key: the first 32 bytes of the `k2` keystream.
    pub open spec fn spec_polykey(&self, seq: u32) -> Seq<u8> {
        spec_xor(Seq::new(32, |i: int| 0u8), chacha20_keystream(self.k2@, spec_nonce(seq), 0, 32))
    }

    pub open spec fn same(&self, o: &ChaPolyKey) -> bool {
        self.k1@ == o.k1@ && self.k2@ == o.k2@
    }

    fn nonce(seq: u32) -> (r: Vec<u8>)
        ensures
            r@ == spec_nonce(seq),
    {
        let mut r: Vec<u8> = vec![0u8, 0u8, 0u8, 0u8];
        put_u32(&mut r, seq);
        assert(r@ =~= spec_nonce(seq));
        r
    }

    fn ok(&self, len: usize) -> (r: bool)
        ensures
            r == self.spec_ok(len as nat),
    {
        self.k1.len() == 32 && self.k2.len() == 32 && len <= MAX_CHAPOLY_LEN
    }

    fn apply(&self, data: &mut Vec<u8>, seq: u32) -> (r: bool)
        ensures
            r == self.spec_ok(old(data)@.len()),
            r ==> final(data)@ == self.spec_apply(old(data)@, seq),
            !r ==> final(data)@ == old(data)@,
    {
        if !self.ok(data.len()) {
            return false;
        }
        let n = ChaPolyKey::nonce(seq);
        if data.len() <= SSH_LENGTH_SIZE {
            let ok = chacha20_apply(self.k1.as_slice(), n.as_slice(), 0, data);
            return ok;
        }
        let mut head = to_vec(&data.as_slice()[0..4]);
        let mut rest = to_vec(&data.as_slice()[4..data.len()]);
        assert(head@ =~= old(data)@.take(4));
        assert(rest@ =~= old(data)@.skip(4));
        let a = chacha20_apply(self.k1.as_slice(), n.as_slice(), 0, &mut head);
        let b = chacha20_apply(self.k2.as_slice(), n.as_slice(), 64, &mut rest);
        if !(a && b) {
            return false;
        }
        extend(&mut head, rest.as_slice());
        *data = head;
        true
    }

    fn polykey(&self, seq: u32) -> (r: Vec<u8>)
        requires
            self.k2@.len() == 32,
        ensures
            r@ == self.spec_polykey(seq),
            r@.len() == 32,
    {
        let n = ChaPolyKey::nonce(seq);
        let mut z: Vec<u8> = Vec::new();
        let mut i: usize = 0;
        while i < 32
            invariant
                i <= 32,
                z@.len() == i,
                forall|j: int| 0 <= j < i ==> z@[j] == 0u8,
            decreases 32 - i,
        {
            z.push(0u8);
            i = i + 1;
        }
        assert(z@ =~= Seq::new(32, |i: int| 0u8));
        let _ = chacha20_apply(self.k2.as_slice(), n.as_slice(), 0, &mut z);
        z
    }
}

/// Applying the same ChaCha20 keystreams twice gives back the data.
proof fn lemma_chapoly_twice(c: &ChaPolyKey, d: Seq<u8>, seq: u32)
    ensures
        c.spec_apply(d, seq).len() == d.len(),
        c.spec_apply(c.spec_apply(d, seq), seq) == d,
{
    let n = spec_nonce(seq);
    if d.len() <= SSH_LENGTH_SIZE {
        lemma_xor_twice(d, chacha20_keystream(c.k1@, n, 0, d.len()));
    } else {
        let a = spec_xor(d.take(4), chacha20_keystream(c.k1@, n, 0, 4));
        let b = spec_xor(d.skip(4), chacha20_keystream(c.k2@, n, 64, (d.len() - 4) as nat));
        let e = a + b;
        assert(e.take(4) =~= a);
        assert(e.skip(4) =~= b);
        lemma_xor_twice(d.take(4), chacha20_keystream(c.k1@, n, 0, 4));
        lemma_xor_twice(d.skip(4), chacha20_keystream(c.k2@, n, 64, (d.len() - 4) as nat));
        assert(c.spec_apply(e, seq) =~= d);
    }
}

/// Cipher state for sending.
#[derive(Debug)]
pub enum EncKey {
    NoCipher,
    Aes256Ctr(CtrKey),
    ChaPoly(ChaPolyKey),
}

/// Cipher state for receiving.
#[derive(Debug)]
pub enum DecKey {
    NoCipher,
    Aes256Ctr(CtrKey),
    ChaPoly(ChaPolyKey),
}

/// The AES block size.
pub const AES_BLOCK: usize = 16;

impl EncKey {
    pub open spec fn spec_block(&self) -> int {
        match self {
            EncKey::NoCipher => SSH_MIN_BLOCK as int,
            EncKey::Aes256Ctr(_) => AES_BLOCK as int,
            EncKey::ChaPoly(_) => SSH_MIN_BLOCK as int,
        }
    }

    pub open spec fn spec_aead(&self) -> bool {
        self is ChaPoly
    }

    /// Whether `len` bytes can be encrypted from the current position.
    pub open spec fn spec_ok(&self, len: nat) -> bool {
        match self {
            EncKey::NoCipher => true,
            EncKey::Aes256Ctr(c) => c.spec_ok(len),
            EncKey::ChaPoly(c) => c.spec_ok(len),
        }
    }

    pub open spec fn spec_apply(&self, d: Seq<u8>, seq: u32) -> Seq<u8> {
        match self {
            EncKey::NoCipher => d,
            EncKey::Aes256Ctr(c) => c.spec_apply(d),
            EncKey::ChaPoly(c) => c.spec_apply(d, seq),
        }
    }

    /// `b` is `a` after encrypting `n` bytes.
    pub open spec fn advanced(a: &EncKey, b: &EncKey, n: nat) -> bool {
        match (a, b) {
            (EncKey::NoCipher, EncKey::NoCipher) => true,
            (EncKey::Aes256Ctr(x), EncKey::Aes256Ctr(y)) => CtrKey::advanced(x, y, n),
            (EncKey::ChaPoly(x), EncKey::ChaPoly(y)) => x.same(y),
            _ => false,
        }
    }

    pub fn size_block(&self) -> (r: usize)
        ensures
            r == self.spec_block(),
    {
        match self {
            EncKey::NoCipher => SSH_MIN_BLOCK,
            EncKey::Aes256Ctr(_) => AES_BLOCK,
            EncKey::ChaPoly(_) => SSH_MIN_BLOCK,
        }
    }

    pub fn is_aead(&self) -> (r: bool)
        ensures
            r == self.spec_aead(),
    {
        matches!(self, EncKey::ChaPoly(_))
    }
}

impl DecKey {
    pub open spec fn spec_block(&self) -> int {
        match self {
            DecKey::NoCipher => SSH_MIN_BLOCK as int,
            DecKey::Aes256Ctr(_) => AES_BLOCK as int,
            DecKey::ChaPoly(_) => SSH_MIN_BLOCK as int,
        }
    }

    pub open spec fn spec_aead(&self) -> bool {
        self is ChaPoly
    }

    pub open spec fn spec_ok(&self, len: nat) -> bool {
        match self {
            DecKey::NoCipher => true,
            DecKey::Aes256Ctr(c) => c.spec_ok(len),
            DecKey::ChaPoly(c) => c.spec_ok(len),
        }
    }

    pub open spec fn spec_apply(&self, d: Seq<u8>, seq: u32) -> Seq<u8> {
        match self {
            DecKey::NoCipher => d,
            DecKey::Aes256Ctr(c) => c.spec_apply(d),
            DecKey::ChaPoly(c) => c.spec_apply(d, seq),
        }
    }

    pub open spec fn advanced(a: &DecKey, b: &DecKey, n: nat) -> bool {
        match (a, b) {
            (DecKey::NoCipher, DecKey::NoCipher) => true,
            (DecKey::Aes256Ctr(x), DecKey::Aes256Ctr(y)) => CtrKey::advanced(x, y, n),
            (DecKey::ChaPoly(x), DecKey::ChaPoly(y)) => x.same(y),
            _ => false,
        }
    }

    /// The two directions' cipher states are the same key at the same point.
    pub open spec fn matches_enc(&self, e: &EncKey) -> bool {
        match (self, e) {
            (DecKey::NoCipher, EncKey::NoCipher) => true,
            (DecKey::Aes256Ctr(x), EncKey::Aes256Ctr(y)) => x.key@ == y.key@ && x.iv@ == y.iv@ && x.pos == y.pos,
            (DecKey::ChaPoly(x), EncKey::ChaPoly(y)) => x.same(y),
            _ => false,
        }
    }

    pub fn size_block(&self) -> (r: usize)
        ensures
            r == self.spec_block(),
    {
        match self {
            DecKey::NoCipher => SSH_MIN_BLOCK,
            DecKey::Aes256Ctr(_) => AES_BLOCK,
            DecKey::ChaPoly(_) => SSH_MIN_BLOCK,
        }
    }

    pub fn is_aead(&self) -> (r: bool)
        ensures
            r == self.spec_aead(),
    {
        matches!(self, DecKey::ChaPoly(_))
    }
}

/// Integrity key for one direction.
#[derive(Debug)]
pub enum IntegKey {
    NoInteg,
    HmacSha256(Vec<u8>),
    /// The Poly1305 tag of `chacha20-poly1305@openssh.com`, made by the cipher.
    ChaPoly,
}

/// The Poly1305 tag length.
pub const POLY1305_LEN: usize = 16;

impl IntegKey {
    pub open spec fn spec_size_out(&self) -> int {
        match self {
            IntegKey::NoInteg => 0,
            IntegKey::HmacSha256(_) => HMAC_SHA256_LEN as int,
            IntegKey::ChaPoly => POLY1305_LEN as int,
        }
    }

    /// The tag over a packet sent or received with sequence number `seq`.
    pub open spec fn spec_mac(&self, seq: u32, data: Seq<u8>) -> Seq<u8> {
        match self {
            IntegKey::HmacSha256(k) => hmac_sha256_of(k@, spec_u32_be(seq) + data),
            _ => Seq::empty(),
        }
    }

    pub fn size_out(&self) -> (r: usize)
        ensures
            r == self.spec_size_out(),
    {
        match self {
            IntegKey::NoInteg => 0,
            IntegKey::HmacSha256(_) => HMAC_SHA256_LEN,
            IntegKey::ChaPoly => POLY1305_LEN,
        }
    }
}

/// Padding length for a payload of `p` bytes: at least 4, making the
/// encrypted length a multiple of the block size, and the packet (length
/// field included, MAC excluded) at least 16 bytes. AEAD ciphers leave the
/// length field out of the block alignment.
pub open spec fn spec_pad(p: int, bs: int, aead: bool) -> int {
    let len = 1 + p + if aead { 0int } else { SSH_LENGTH_SIZE as int };
    let pad0 = bs - len % bs;
    let pad1 = if pad0 < SSH_MIN_PADLEN { pad0 + bs } else { pad0 };
    if SSH_PAYLOAD_START + p + pad1 < SSH_MIN_PACKET_SIZE {
        pad1 + bs
    } else {
        pad1
    }
}

/// The packet bytes before the MAC: length, padding length, payload, padding.
pub open spec fn spec_body(payload: Seq<u8>, padding: Seq<u8>) -> Seq<u8> {
    spec_u32_be((1 + payload.len() + padding.len()) as u32) + seq![padding.len() as u8] + payload + padding
}

/// A whole packet as sent with sequence number `seq`.
pub open spec fn spec_frame(payload: Seq<u8>, padding: Seq<u8>, integ: IntegKey, seq: u32) -> Seq<u8> {
    let body = spec_body(payload, padding);
    body + integ.spec_mac(seq, body)
}

/// What receiving a whole packet `buf` gives: the payload length, or the
/// reason it is refused.
pub open spec fn spec_unframe(buf: Seq<u8>, integ: IntegKey, seq: u32, bs: int, aead: bool) -> Result<usize, Error> {
    let size_integ = integ.spec_size_out();
    let sublength = if aead { SSH_LENGTH_SIZE as int } else { 0int };
    let data = buf.take(buf.len() - size_integ);
    let mac = buf.skip(buf.len() - size_integ);
    if buf.len() < bs + size_integ {
        Err(Error::SSHProtoError)
    } else if buf.len() < SSH_MIN_PACKET_SIZE + size_integ {
        Err(Error::SSHProtoError)
    } else if (buf.len() - size_integ - sublength) % bs != 0 {
        Err(Error::SSHProtoError)
    } else if integ is HmacSha256 && mac != integ.spec_mac(seq, data) {
        Err(Error::BadDecrypt)
    } else if buf[SSH_LENGTH_SIZE as int] < SSH_MIN_PADLEN {
        Err(Error::SSHProtoError)
    } else if buf.len() < SSH_PAYLOAD_START + size_integ + buf[SSH_LENGTH_SIZE as int] {
        Err(Error::SSHProtoError)
    } else {
        Ok((buf.len() - (SSH_PAYLOAD_START + size_integ + buf[SSH_LENGTH_SIZE as int])) as usize)
    }
}

proof fn lemma_pad(p: int, bs: int, aead: bool)
    requires
        p >= 0,
        bs == 8 || bs == 16,
    ensures
        ({
            let pad = spec_pad(p, bs, aead);
            let len = 1 + p + if aead { 0int } else { SSH_LENGTH_SIZE as int };
            &&& SSH_MIN_PADLEN <= pad <= MAX_PADLEN
            &&& (len + pad) % bs == 0
            &&& SSH_PAYLOAD_START + p + pad >= SSH_MIN_PACKET_SIZE
        }),
{
    let len = 1 + p + if aead { 0int } else { SSH_LENGTH_SIZE as int };
    lemma_fundamental_div_mod(len, bs);
    let q = len / bs;
    let r = len % bs;
    assert(0 <= r < bs);
    assert(len + (bs - r) == (q + 1) * bs) by (nonlinear_arith)
        requires len == bs * q + r;
    assert(len + (bs - r) + bs == (q + 2) * bs) by (nonlinear_arith)
        requires len == bs * q + r;
    assert(len + (bs - r) + bs + bs == (q + 3) * bs) by (nonlinear_arith)
        requires len == bs * q + r;
    lemma_mod_multiples_basic(q + 1, bs);
    lemma_mod_multiples_basic(q + 2, bs);
    lemma_mod_multiples_basic(q + 3, bs);
}

/// Computes [`spec_pad`].
pub fn calc_pad(payload_len: usize, size_block: usize, aead: bool) -> (r: usize)
    requires
        size_block == 8 || size_block == 16,
        payload_len <= MAX_PAYLOAD,
    ensures
        r == spec_pad(payload_len as int, size_block as int, aead),
        SSH_MIN_PADLEN <= r <= MAX_PADLEN,
{
    proof { lemma_pad(payload_len as int, size_block as int, aead); }
    let len = 1 + payload_len + if aead { 0 } else { SSH_LENGTH_SIZE };
    let mut padlen = size_block - len % size_block;
    if padlen < SSH_MIN_PADLEN {
        padlen = padlen + size_block;
    }
    if SSH_PAYLOAD_START + payload_len + padlen < SSH_MIN_PACKET_SIZE {
        padlen = padlen + size_block;
    }
    padlen
}

/// The packet as it goes on the wire: the body through the cipher, then the
/// MAC over the plaintext body (MAC-then-encrypt).
///
/// With `chacha20-poly1305@openssh.com` the tag is instead the Poly1305 tag
/// over the encrypted packet.
pub open spec fn spec_wire(payload: Seq<u8>, padding: Seq<u8>, enc: &EncKey, integ: IntegKey, seq: u32) -> Seq<u8> {
    let body = spec_body(payload, padding);
    match enc {
        EncKey::ChaPoly(c) => {
            let ct = c.spec_apply(body, seq);
            ct + poly1305_of(c.spec_polykey(seq), ct)
        },
        _ => enc.spec_apply(body, seq) + integ.spec_mac(seq, body),
    }
}

/// A direction's cipher and integrity belong together: the Poly1305 tag goes
/// with ChaCha20-Poly1305 and with nothing else.
pub open spec fn enc_consistent(enc: &EncKey, integ: IntegKey) -> bool {
    (enc is ChaPoly) == (integ is ChaPoly)
}

pub open spec fn dec_consistent(dec: &DecKey, integ: IntegKey) -> bool {
    (dec is ChaPoly) == (integ is ChaPoly)
}

impl DecKey {
    /// The tag an AEAD cipher checks over the encrypted packet `ct`.
    pub open spec fn spec_tag_ok(&self, ct: Seq<u8>, tag: Seq<u8>, seq: u32) -> bool {
        match self {
            DecKey::ChaPoly(c) => tag == poly1305_of(c.spec_polykey(seq), ct),
            _ => true,
        }
    }
}

/// The length checks a received packet must pass before it is decrypted.
pub open spec fn spec_size_ok(len: int, bs: int, size_integ: int, aead: bool) -> bool {
    let sublength = if aead { SSH_LENGTH_SIZE as int } else { 0int };
    &&& len >= bs + size_integ
    &&& len >= SSH_MIN_PACKET_SIZE + size_integ
    &&& (len - size_integ - sublength) % bs == 0
}

/// What receiving the whole packet `buf` gives: the payload length, or the
/// reason it is refused. An AEAD tag is checked over the encrypted packet;
/// then the part before the tag is decrypted and checked, a MAC over the
/// plaintext included.
pub open spec fn spec_open(buf: Seq<u8>, dec: &DecKey, integ: IntegKey, seq: u32) -> Result<usize, Error> {
    let n = buf.len() - integ.spec_size_out();
    if !dec_consistent(dec, integ) {
        Err(Error::Bug)
    } else if !spec_size_ok(buf.len() as int, dec.spec_block(), integ.spec_size_out(), dec.spec_aead()) {
        Err(Error::SSHProtoError)
    } else if !dec.spec_ok(n as nat) {
        Err(Error::BadDecrypt)
    } else if !dec.spec_tag_ok(buf.take(n), buf.skip(n), seq) {
        Err(Error::BadDecrypt)
    } else {
        spec_unframe(dec.spec_apply(buf.take(n), seq) + buf.skip(n), integ, seq, dec.spec_block(), dec.spec_aead())
    }
}

/// Keys for both directions.
#[derive(Debug)]
pub struct Keys {
    pub enc: EncKey,
    pub dec: DecKey,
    pub integ_enc: IntegKey,
    pub integ_dec: IntegKey,
}

impl Keys {
    pub fn new_cleartext() -> (r: Keys)
        ensures
            r.enc is NoCipher,
            r.dec is NoCipher,
            r.integ_enc is NoInteg,
            r.integ_dec is NoInteg,
    {
        Keys {
            enc: EncKey::NoCipher,
            dec: DecKey::NoCipher,
            integ_enc: IntegKey::NoInteg,
            integ_dec: IntegKey::NoInteg,
        }
    }
}

/// Keys together with the two packet sequence numbers, which carry over
/// rekeying and wrap at 2^32.
#[derive(Debug)]
pub struct KeyState {
    pub keys: Keys,
    pub seq_encrypt: u32,
    pub seq_decrypt: u32,
}

impl KeyState {
    /// No encryption, sequence numbers zero.
    pub fn new_cleartext() -> (r: KeyState)
        ensures
            r.keys.enc is NoCipher,
            r.keys.dec is NoCipher,
            r.keys.integ_enc is NoInteg,
            r.keys.integ_dec is NoInteg,
            r.seq_encrypt == 0,
            r.seq_decrypt == 0,
    {
        KeyState { keys: Keys::new_cleartext(), seq_encrypt: 0, seq_decrypt: 0 }
    }

    /// Takes new keys into use, keeping the sequence numbers.
    pub fn rekey(&mut self, keys: Keys)
        ensures
            final(self).keys == keys,
            final(self).seq_encrypt == old(self).seq_encrypt,
            final(self).seq_decrypt == old(self).seq_decrypt,
    {
        self.keys = keys;
    }

    pub fn size_block_dec(&self) -> (r: usize)
        ensures
            r == self.keys.dec.spec_block(),
    {
        self.keys.dec.size_block()
    }

    /// The whole size of the received packet starting `buf`, read from its
    /// decrypted first block: length field, the length it gives, and the MAC.
    pub open spec fn spec_first_total(&self, buf: Seq<u8>) -> Result<u32, Error> {
        let bs = self.keys.dec.spec_block();
        if buf.len() < bs {
            Err(Error::Bug)
        } else if !self.keys.dec.spec_ok(bs as nat) {
            Err(Error::BadDecrypt)
        } else {
            let total = spec_u32_of(self.keys.dec.spec_apply(buf.take(bs), self.seq_decrypt))
                + SSH_LENGTH_SIZE + self.keys.integ_dec.spec_size_out();
            if total <= u32::MAX { Ok(total as u32) } else { Err(Error::BadDecrypt) }
        }
    }

    /// Decrypts the first block of a received packet, without moving on in
    /// the keystream, and returns the whole packet's size: length field, the
    /// length it gives, and the MAC. Fails when less than a block is
    /// available, or when the size does not fit a `u32`.
    pub fn decrypt_first_block(&self, buf: &[u8]) -> (r: Result<u32, Error>)
        ensures
            r == self.spec_first_total(buf@),
            buf@.len() < self.keys.dec.spec_block() ==> r == Err::<u32, Error>(Error::Bug),
            buf@.len() >= self.keys.dec.spec_block() ==> {
                let bs = self.keys.dec.spec_block();
                let total = spec_u32_of(self.keys.dec.spec_apply(buf@.take(bs), self.seq_decrypt))
                    + SSH_LENGTH_SIZE + self.keys.integ_dec.spec_size_out();
                if !self.keys.dec.spec_ok(bs as nat) {
                    r == Err::<u32, Error>(Error::BadDecrypt)
                } else if total <= u32::MAX {
                    r == Ok::<u32, Error>(total as u32)
                } else {
                    r == Err::<u32, Error>(Error::BadDecrypt)
                }
            },
    {
        let bs = self.keys.dec.size_block();
        if buf.len() < bs {
            return Err(Error::Bug);
        }
        let first = &buf[0..bs];
        assert(first@ =~= buf@.take(bs as int));
        let plain = match &self.keys.dec {
            DecKey::NoCipher => to_vec(first),
            DecKey::Aes256Ctr(c) => match c.peek(first) {
                Some(v) => v,
                None => return Err(Error::BadDecrypt),
            },
            DecKey::ChaPoly(c) => {
                let mut v = to_vec(first);
                if !c.apply(&mut v, self.seq_decrypt) {
                    return Err(Error::BadDecrypt);
                }
                v
            },
        };
        let len = get_u32(plain.as_slice(), 0);
        assert(plain@.skip(0) =~= plain@);
        let extra = (SSH_LENGTH_SIZE + self.keys.integ_dec.size_out()) as u32;
        match len.checked_add(extra) {
            Some(t) => Ok(t),
            None => Err(Error::BadDecrypt),
        }
    }

    /// Decrypts a whole received packet and checks its integrity tag,
    /// returning the plaintext packet and its payload length; the payload is at
    /// `SSH_PAYLOAD_START`. The receive sequence number advances, wrapping,
    /// whatever the outcome; the keystream moves on once the packet is decrypted.
    pub fn decrypt(&mut self, buf: &[u8]) -> (r: Result<(Vec<u8>, usize), Error>)
        ensures
            ({
                let spec = spec_open(buf@, &old(self).keys.dec, old(self).keys.integ_dec, old(self).seq_decrypt);
                let n = buf@.len() - old(self).keys.integ_dec.spec_size_out();
                &&& (spec is Ok <==> r is Ok)
                &&& (spec is Err ==> r == Err::<(Vec<u8>, usize), Error>(spec->Err_0))
                &&& (r matches Ok((plain, len)) ==> spec == Ok::<usize, Error>(len)
                    && plain@ == old(self).keys.dec.spec_apply(buf@.take(n), old(self).seq_decrypt) + buf@.skip(n))
                &&& if dec_consistent(&old(self).keys.dec, old(self).keys.integ_dec)
                    && spec_size_ok(buf@.len() as int, old(self).keys.dec.spec_block(),
                    old(self).keys.integ_dec.spec_size_out(), false)
                    && old(self).keys.dec.spec_ok(n as nat) {
                    DecKey::advanced(&old(self).keys.dec, &final(self).keys.dec, n as nat)
                } else {
                    final(self).keys.dec == old(self).keys.dec
                }
            }),
            final(self).seq_decrypt == old(self).seq_decrypt.wrapping_add(1),
            final(self).seq_encrypt == old(self).seq_encrypt,
            final(self).keys.enc == old(self).keys.enc,
            final(self).keys.integ_enc == old(self).keys.integ_enc,
            final(self).keys.integ_dec == old(self).keys.integ_dec,
    {
        let seq = self.seq_decrypt;
        let r = self.keys.decrypt(buf, seq);
        self.seq_decrypt = self.seq_decrypt.wrapping_add(1);
        r
    }

    /// Appends to `out` a whole packet carrying `payload`: length, padding
    /// length, payload and padding taken from the front of `pad_src` (random
    /// bytes from the caller), encrypted, then the MAC over the plaintext.
    /// Returns the packet's size. The send sequence number advances, wrapping,
    /// when a packet is written. A payload over `MAX_PAYLOAD`, or a keystream
    /// that would run out, is refused with `NoRoom` and nothing changes.
    pub fn encrypt(&mut self, payload: &[u8], pad_src: &[u8], out: &mut Vec<u8>) -> (r: Result<usize, Error>)
        requires
            pad_src@.len() >= MAX_PADLEN,
        ensures
            payload@.len() > MAX_PAYLOAD ==> r == Err::<usize, Error>(Error::NoRoom)
                && final(out)@ == old(out)@ && *final(self) == *old(self),
            payload@.len() <= MAX_PAYLOAD && !enc_consistent(&old(self).keys.enc, old(self).keys.integ_enc)
                ==> r == Err::<usize, Error>(Error::Bug) && final(out)@ == old(out)@ && *final(self) == *old(self),
            payload@.len() <= MAX_PAYLOAD && enc_consistent(&old(self).keys.enc, old(self).keys.integ_enc) ==> {
                let pad = spec_pad(payload@.len() as int, old(self).keys.enc.spec_block(), old(self).keys.enc.spec_aead());
                let body = spec_body(payload@, pad_src@.take(pad));
                let wire = spec_wire(payload@, pad_src@.take(pad), &old(self).keys.enc, old(self).keys.integ_enc,
                    old(self).seq_encrypt);
                if old(self).keys.enc.spec_ok(body.len()) {
                    &&& r == Ok::<usize, Error>(wire.len() as usize)
                    &&& final(out)@ == old(out)@ + wire
                    &&& wire.len() == body.len() + old(self).keys.integ_enc.spec_size_out()
                    &&& EncKey::advanced(&old(self).keys.enc, &final(self).keys.enc, body.len())
                    &&& final(self).seq_encrypt == old(self).seq_encrypt.wrapping_add(1)
                    &&& final(self).seq_decrypt == old(self).seq_decrypt
                    &&& final(self).keys.dec == old(self).keys.dec
                    &&& final(self).keys.integ_enc == old(self).keys.integ_enc
                    &&& final(self).keys.integ_dec == old(self).keys.integ_dec
                } else {
                    &&& r == Err::<usize, Error>(Error::NoRoom)
                    &&& final(out)@ == old(out)@
                    &&& *final(self) == *old(self)
                }
            },
    {
        if payload.len() > MAX_PAYLOAD {
            return Err(Error::NoRoom);
        }
        let seq = self.seq_encrypt;
        match self.keys.encrypt(payload, pad_src, out, seq) {
            Ok(n) => {
                self.seq_encrypt = self.seq_encrypt.wrapping_add(1);
                Ok(n)
            },
            Err(e) => Err(e),
        }
    }
}

impl Keys {
    fn decrypt(&mut self, buf: &[u8], seq: u32) -> (r: Result<(Vec<u8>, usize), Error>)
        ensures
            ({
                let spec = spec_open(buf@, &old(self).dec, old(self).integ_dec, seq);
                let n = buf@.len() - old(self).integ_dec.spec_size_out();
                &&& (spec is Ok <==> r is Ok)
                &&& (spec is Err ==> r == Err::<(Vec<u8>, usize), Error>(spec->Err_0))
                &&& (r matches Ok((plain, len)) ==> spec == Ok::<usize, Error>(len)
                    && plain@ == old(self).dec.spec_apply(buf@.take(n), seq) + buf@.skip(n))
                &&& if dec_consistent(&old(self).dec, old(self).integ_dec)
                    && spec_size_ok(buf@.len() as int, old(self).dec.spec_block(),
                    old(self).integ_dec.spec_size_out(), false) && old(self).dec.spec_ok(n as nat) {
                    DecKey::advanced(&old(self).dec, &final(self).dec, n as nat)
                } else {
                    final(self).dec == old(self).dec
                }
            }),
            final(self).enc == old(self).enc,
            final(self).integ_enc == old(self).integ_enc,
            final(self).integ_dec == old(self).integ_dec,
    {
        let consistent = matches!(self.dec, DecKey::ChaPoly(_)) == matches!(self.integ_dec, IntegKey::ChaPoly);
        if !consistent {
            return Err(Error::Bug);
        }
        let size_block = self.dec.size_block();
        let size_integ = self.integ_dec.size_out();
        if buf.len() < size_block + size_integ {
            return Err(Error::SSHProtoError);
        }
        if buf.len() < SSH_MIN_PACKET_SIZE + size_integ {
            return Err(Error::SSHProtoError);
        }
        let sublength = if self.dec.is_aead() { SSH_LENGTH_SIZE } else { 0 };
        let len = buf.len() - size_integ - sublength;
        if len % size_block != 0 {
            return Err(Error::SSHProtoError);
        }
        let split = buf.len() - size_integ;
        let mut data = to_vec(&buf[0..split]);
        let mac = &buf[split..buf.len()];
        assert(data@ =~= buf@.take(split as int));
        assert(mac@ =~= buf@.skip(split as int));
        match &mut self.dec {
            DecKey::NoCipher => {},
            DecKey::Aes256Ctr(c) => {
                if !c.apply(&mut data) {
                    return Err(Error::BadDecrypt);
                }
            },
            DecKey::ChaPoly(c) => {
                if !c.ok(data.len()) {
                    return Err(Error::BadDecrypt);
                }
                let pk = c.polykey(seq);
                let tag = poly1305_tag(pk.as_slice(), data.as_slice());
                if !ct_eq(tag.as_slice(), mac) {
                    return Err(Error::BadDecrypt);
                }
                let _ = c.apply(&mut data, seq);
            },
        }
        let ghost plain = data@ + mac@;
        assert(plain.take(split as int) =~= data@);
        assert(plain.skip(split as int) =~= mac@);
        match &self.integ_dec {
            IntegKey::NoInteg => {},
            IntegKey::HmacSha256(k) => {
                let mut msg: Vec<u8> = Vec::new();
                put_u32(&mut msg, seq);
                extend(&mut msg, data.as_slice());
                assert(msg@ =~= spec_u32_be(seq) + data@);
                if !hmac_sha256_verify(k.as_slice(), msg.as_slice(), mac) {
                    return Err(Error::BadDecrypt);
                }
            },
            IntegKey::ChaPoly => {},
        }
        let padlen = data[SSH_LENGTH_SIZE] as usize;
        if padlen < SSH_MIN_PADLEN {
            return Err(Error::SSHProtoError);
        }
        if buf.len() < SSH_PAYLOAD_START + size_integ + padlen {
            return Err(Error::SSHProtoError);
        }
        let payload_len = buf.len() - (SSH_PAYLOAD_START + size_integ + padlen);
        extend(&mut data, mac);
        Ok((data, payload_len))
    }

    fn encrypt(&mut self, payload: &[u8], pad_src: &[u8], out: &mut Vec<u8>, seq: u32) -> (r: Result<usize, Error>)
        requires
            pad_src@.len() >= MAX_PADLEN,
            payload@.len() <= MAX_PAYLOAD,
        ensures
            !enc_consistent(&old(self).enc, old(self).integ_enc)
                ==> r == Err::<usize, Error>(Error::Bug) && final(out)@ == old(out)@ && *final(self) == *old(self),
            enc_consistent(&old(self).enc, old(self).integ_enc) ==> ({
                let pad = spec_pad(payload@.len() as int, old(self).enc.spec_block(), old(self).enc.spec_aead());
                let body = spec_body(payload@, pad_src@.take(pad));
                let wire = spec_wire(payload@, pad_src@.take(pad), &old(self).enc, old(self).integ_enc, seq);
                if old(self).enc.spec_ok(body.len()) {
                    &&& r == Ok::<usize, Error>(wire.len() as usize)
                    &&& final(out)@ == old(out)@ + wire
                    &&& wire.len() == body.len() + old(self).integ_enc.spec_size_out()
                    &&& EncKey::advanced(&old(self).enc, &final(self).enc, body.len())
                    &&& final(self).dec == old(self).dec
                    &&& final(self).integ_enc == old(self).integ_enc
                    &&& final(self).integ_dec == old(self).integ_dec
                } else {
                    &&& r == Err::<usize, Error>(Error::NoRoom)
                    &&& final(out)@ == old(out)@
                    &&& *final(self) == *old(self)
                }
            }),
    {
        let consistent = matches!(self.enc, EncKey::ChaPoly(_)) == matches!(self.integ_enc, IntegKey::ChaPoly);
        if !consistent {
            return Err(Error::Bug);
        }
        let padlen = calc_pad(payload.len(), self.enc.size_block(), self.enc.is_aead());
        let padding = &pad_src[0..padlen];
        let mut body: Vec<u8> = Vec::new();
        put_u32(&mut body, (1 + payload.len() + padlen) as u32);
        body.push(padlen as u8);
        extend(&mut body, payload);
        extend(&mut body, padding);
        assert(padding@ =~= pad_src@.take(padlen as int));
        assert(body@ =~= spec_body(payload@, padding@));
        let mut mac = match &self.integ_enc {
            IntegKey::NoInteg => Vec::new(),
            IntegKey::ChaPoly => Vec::new(),
            IntegKey::HmacSha256(k) => {
                let mut msg: Vec<u8> = Vec::new();
                put_u32(&mut msg, seq);
                extend(&mut msg, body.as_slice());
                assert(msg@ =~= spec_u32_be(seq) + body@);
                hmac_sha256(k.as_slice(), msg.as_slice())
            },
        };
        assert(mac@ =~= self.integ_enc.spec_mac(seq, body@));
        let ghost plain_body = body@;
        match &mut self.enc {
            EncKey::NoCipher => {},
            EncKey::Aes256Ctr(c) => {
                if !c.apply(&mut body) {
                    return Err(Error::NoRoom);
                }
            },
            EncKey::ChaPoly(c) => {
                if !c.apply(&mut body, seq) {
                    return Err(Error::NoRoom);
                }
                let pk = c.polykey(seq);
                mac = poly1305_tag(pk.as_slice(), body.as_slice());
            },
        }
        assert(body@ == old(self).enc.spec_apply(plain_body, seq));
        let n = body.len() + mac.len();
        extend(out, body.as_slice());
        extend(out, mac.as_slice());
        assert(out@ =~= old(out)@ + spec_wire(payload@, padding@, &old(self).enc, self.integ_enc, seq));
        Ok(n)
    }
}

/// A packet framed with padding of the required length is accepted by the
/// receiving side holding the same cipher state, integrity key and sequence
/// number, which finds the payload's length and, in the decrypted packet,
/// the payload itself where it was put. This holds for an empty payload and
/// for a packet of the minimum size, and for each cipher.
pub proof fn lemma_frame_round_trip(payload: Seq<u8>, padding: Seq<u8>, enc: &EncKey, dec: &DecKey,
    integ: IntegKey, seq: u32)
    requires
        payload.len() <= MAX_PAYLOAD,
        padding.len() == spec_pad(payload.len() as int, enc.spec_block(), enc.spec_aead()),
        enc_consistent(enc, integ),
        dec.matches_enc(enc),
        enc.spec_ok(spec_body(payload, padding).len()),
        spec_wire(payload, padding, enc, integ, seq).len() == spec_body(payload, padding).len() + integ.spec_size_out(),
    ensures
        spec_open(spec_wire(payload, padding, enc, integ, seq), dec, integ, seq)
            == Ok::<usize, Error>(payload.len() as usize),
        ({
            let w = spec_wire(payload, padding, enc, integ, seq);
            let n = w.len() - integ.spec_size_out();
            (dec.spec_apply(w.take(n), seq) + w.skip(n)).subrange(SSH_PAYLOAD_START as int,
                SSH_PAYLOAD_START + payload.len()) == payload
        }),
{
    let bs = enc.spec_block();
    lemma_pad(payload.len() as int, bs, enc.spec_aead());
    let body = spec_body(payload, padding);
    let w = spec_wire(payload, padding, enc, integ, seq);
    let size_integ = integ.spec_size_out();
    let n = w.len() - size_integ;
    let (ct, tag) = match enc {
        EncKey::ChaPoly(c) => {
            lemma_chapoly_twice(c, body, seq);
            let ct = c.spec_apply(body, seq);
            (ct, poly1305_of(c.spec_polykey(seq), ct))
        },
        EncKey::Aes256Ctr(c) => {
            lemma_xor_twice(body, aes256_ctr_keystream(c.key@, c.iv@, c.pos as nat, body.len()));
            (enc.spec_apply(body, seq), integ.spec_mac(seq, body))
        },
        EncKey::NoCipher => (body, integ.spec_mac(seq, body)),
    };
    assert(w == ct + tag);
    assert(ct.len() == body.len());
    assert(w.take(n) =~= ct);
    assert(w.skip(n) =~= tag);
    match dec {
        DecKey::ChaPoly(d) => {
            let c = enc->ChaPoly_0;
            assert(d.spec_polykey(seq) == c.spec_polykey(seq));
            assert(d.spec_apply(ct, seq) =~= c.spec_apply(ct, seq));
        },
        _ => {},
    }
    assert(dec.spec_apply(ct, seq) == body);
    let f = body + tag;
    assert(f.take(f.len() - size_integ) =~= body);
    assert(f.skip(f.len() - size_integ) =~= tag);
    assert(f[SSH_LENGTH_SIZE as int] == padding.len() as u8);
    assert(f.subrange(SSH_PAYLOAD_START as int, SSH_PAYLOAD_START + payload.len()) =~= payload);
}

/// A packet whose integrity tag was altered, its other bytes kept, is refused
/// with an integrity error, for a MAC and for the ChaCha20-Poly1305 tag alike.
pub proof fn lemma_tag_tamper(payload: Seq<u8>, padding: Seq<u8>, enc: &EncKey, dec: &DecKey,
    integ: IntegKey, seq: u32, tag: Seq<u8>)
    requires
        !(integ is NoInteg),
        payload.len() <= MAX_PAYLOAD,
        padding.len() == spec_pad(payload.len() as int, enc.spec_block(), enc.spec_aead()),
        enc_consistent(enc, integ),
        dec.matches_enc(enc),
        enc.spec_ok(spec_body(payload, padding).len()),
        spec_wire(payload, padding, enc, integ, seq).len() == spec_body(payload, padding).len() + integ.spec_size_out(),
        tag.len() == integ.spec_size_out(),
        tag != spec_wire(payload, padding, enc, integ, seq).skip(spec_body(payload, padding).len() as int),
    ensures
        spec_open(spec_wire(payload, padding, enc, integ, seq).take(spec_body(payload, padding).len() as int) + tag,
            dec, integ, seq) == Err::<usize, Error>(Error::BadDecrypt),
{
    let bs = enc.spec_block();
    lemma_pad(payload.len() as int, bs, enc.spec_aead());
    let body = spec_body(payload, padding);
    let w = spec_wire(payload, padding, enc, integ, seq);
    let ct = w.take(body.len() as int);
    let r = ct + tag;
    assert(r.take(r.len() - tag.len()) =~= ct);
    assert(r.skip(r.len() - tag.len()) =~= tag);
    match enc {
        EncKey::ChaPoly(c) => {
            lemma_chapoly_twice(c, body, seq);
            assert(ct =~= c.spec_apply(body, seq));
            let d = dec->ChaPoly_0;
            assert(d.spec_polykey(seq) == c.spec_polykey(seq));
            assert(w.skip(body.len() as int) =~= poly1305_of(c.spec_polykey(seq), ct));
        },
        EncKey::Aes256Ctr(c) => {
            lemma_xor_twice(body, aes256_ctr_keystream(c.key@, c.iv@, c.pos as nat, body.len()));
            assert(ct =~= enc.spec_apply(body, seq));
            assert(dec.spec_apply(ct, seq) == body);
            assert(w.skip(body.len() as int) =~= integ.spec_mac(seq, body));
            let f = body + tag;
            assert(f.take(f.len() - tag.len()) =~= body);
            assert(f.skip(f.len() - tag.len()) =~= tag);
        },
        EncKey::NoCipher => {
            assert(ct =~= body);
            assert(w.skip(body.len() as int) =~= integ.spec_mac(seq, body));
            let f = body + tag;
            assert(f.take(f.len() - tag.len()) =~= body);
            assert(f.skip(f.len() - tag.len()) =~= tag);
        },
    }
}

impl EncKey {
    pub open spec fn keyed_as(&self, c: Cipher, key: Seq<u8>, iv: Seq<u8>) -> bool {
        match (self, c) {
            (EncKey::Aes256Ctr(x), Cipher::Aes256Ctr) => x.key@ == key && x.iv@ == iv && x.pos == 0,
            (EncKey::ChaPoly(x), Cipher::ChaPoly) => x.k2@ == key.take(32) && x.k1@ == key.skip(32),
            _ => false,
        }
    }
}

impl DecKey {
    pub open spec fn keyed_as(&self, c: Cipher, key: Seq<u8>, iv: Seq<u8>) -> bool {
        match (self, c) {
            (DecKey::Aes256Ctr(x), Cipher::Aes256Ctr) => x.key@ == key && x.iv@ == iv && x.pos == 0,
            (DecKey::ChaPoly(x), Cipher::ChaPoly) => x.k2@ == key.take(32) && x.k1@ == key.skip(32),
            _ => false,
        }
    }
}

impl IntegKey {
    pub open spec fn keyed_as(&self, i: Integ, key: Seq<u8>) -> bool {
        match (self, i) {
            (IntegKey::HmacSha256(x), Integ::HmacSha256) => x@ == key,
            (IntegKey::ChaPoly, Integ::ChaPoly) => true,
            _ => false,
        }
    }
}

fn enc_key(c: Cipher, key: Vec<u8>, iv: Vec<u8>) -> (r: Result<EncKey, Error>)
    ensures
        (c == Cipher::ChaPoly && key@.len() != 64) ==> r == Err::<EncKey, Error>(Error::BadKex),
        !(c == Cipher::ChaPoly && key@.len() != 64) ==> (r matches Ok(k) && k.keyed_as(c, key@, iv@)),
{
    match c {
        Cipher::Aes256Ctr => Ok(EncKey::Aes256Ctr(CtrKey { key, iv, pos: 0 })),
        Cipher::ChaPoly => {
            if key.len() != 64 {
                return Err(Error::BadKex);
            }
            let k2 = to_vec(&key.as_slice()[0..32]);
            let k1 = to_vec(&key.as_slice()[32..64]);
            assert(k2@ =~= key@.take(32));
            assert(k1@ =~= key@.skip(32));
            Ok(EncKey::ChaPoly(ChaPolyKey { k1, k2 }))
        },
    }
}

fn dec_key(c: Cipher, key: Vec<u8>, iv: Vec<u8>) -> (r: Result<DecKey, Error>)
    ensures
        (c == Cipher::ChaPoly && key@.len() != 64) ==> r == Err::<DecKey, Error>(Error::BadKex),
        !(c == Cipher::ChaPoly && key@.len() != 64) ==> (r matches Ok(k) && k.keyed_as(c, key@, iv@)),
{
    match c {
        Cipher::Aes256Ctr => Ok(DecKey::Aes256Ctr(CtrKey { key, iv, pos: 0 })),
        Cipher::ChaPoly => {
            if key.len() != 64 {
                return Err(Error::BadKex);
            }
            let k2 = to_vec(&key.as_slice()[0..32]);
            let k1 = to_vec(&key.as_slice()[32..64]);
            assert(k2@ =~= key@.take(32));
            assert(k1@ =~= key@.skip(32));
            Ok(DecKey::ChaPoly(ChaPolyKey { k1, k2 }))
        },
    }
}

fn integ_key(i: Integ, key: Vec<u8>) -> (r: IntegKey)
    ensures
        r.keyed_as(i, key@),
{
    match i {
        Integ::HmacSha256 => IntegKey::HmacSha256(key),
        Integ::ChaPoly => IntegKey::ChaPoly,
    }
}

impl Keys {
    /// Keys for both directions from the derived key material and the
    /// negotiated algorithms, each direction keyed on its own. A
    /// ChaCha20-Poly1305 key that is not 64 bytes is refused with `BadKex`.
    pub fn from_material(km: KeyMaterial, algos: &Algos) -> (r: Result<Keys, Error>)
        ensures
            ((algos.cipher_enc == Cipher::ChaPoly && km.key_enc@.len() != 64)
                || (algos.cipher_dec == Cipher::ChaPoly && km.key_dec@.len() != 64))
                <==> r is Err,
            r is Err ==> r == Err::<Keys, Error>(Error::BadKex),
            r matches Ok(k) ==> k.enc.keyed_as(algos.cipher_enc, km.key_enc@, km.iv_enc@)
                && k.dec.keyed_as(algos.cipher_dec, km.key_dec@, km.iv_dec@)
                && k.integ_enc.keyed_as(algos.integ_enc, km.integ_enc@)
                && k.integ_dec.keyed_as(algos.integ_dec, km.integ_dec@),
    {
        let KeyMaterial { iv_enc, iv_dec, key_enc, key_dec, integ_enc, integ_dec } = km;
        let enc = match enc_key(algos.cipher_enc, key_enc, iv_enc) {
            Ok(k) => k,
            Err(e) => return Err(e),
        };
        let dec = match dec_key(algos.cipher_dec, key_dec, iv_dec) {
            Ok(k) => k,
            Err(e) => return Err(e),
        };
        Ok(Keys {
            enc,
            dec,
            integ_enc: integ_key(algos.integ_enc, integ_enc),
            integ_dec: integ_key(algos.integ_dec, integ_dec),
        })
    }
}

} // verus!
