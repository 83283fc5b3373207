//! Key exchange: algorithm negotiation, the exchange hash and key derivation.

use vstd::prelude::*;
use crate::bytes::bytes_eq;
use crate::error::{AlgoKind, Error};
use crate::names::{
    name_aes256_ctr, name_chapoly, name_curve25519, name_curve25519_libssh, name_ed25519,
    name_ext_info_c, name_ext_info_s, name_hmac_sha256, name_kexguess2, name_none,
    spec_aes256_ctr, spec_chapoly, spec_curve25519, spec_curve25519_libssh, spec_ed25519,
    spec_ext_info_c, spec_ext_info_s, spec_hmac_sha256, spec_kexguess2, spec_none,
    spec_rsa_sha256,
};
use crate::namelist::{first_common, first_match, has_algo, names_view, spec_names, split_names};
use crate::bytes::{extend, to_vec};
use crate::crypto::{sha256, sha256_of, x25519_agree, x25519_point_canonical, x25519_public, x25519_public_of, x25519_shared_of};
use crate::namelist::{check_namelist, join_names, lemma_split_join, listable, spec_join, valid_namelist};
use crate::packets::{encode_packet, packet_ok, spec_enc_packet, Packet, PacketV, ParseContext, Shape};
use crate::wire::FieldV;
use crate::wire::{put_u32, spec_u32_be};
use crate::packets::KexInit;
use crate::sign::{spec_blob, spec_verify, SigType, SignKey};
use crate::crypto::{ed25519_public_of, ed25519_signature_of};
use crate::packets::KexDHReply;

verus! {

/// Our configured algorithm lists, most preferred first.
#[derive(Debug)]
pub struct AlgoConfig {
    pub kexs: Vec<Vec<u8>>,
    pub hostsig: Vec<Vec<u8>>,
    pub ciphers: Vec<Vec<u8>>,
    pub macs: Vec<Vec<u8>>,
    pub comps: Vec<Vec<u8>>,
}

impl AlgoConfig {
    pub open spec fn spec_kexs(is_client: bool) -> Seq<Seq<u8>> {
        if is_client {
            seq![spec_curve25519(), spec_curve25519_libssh(), spec_ext_info_c(), spec_kexguess2()]
        } else {
            seq![spec_curve25519(), spec_curve25519_libssh(), spec_kexguess2()]
        }
    }

    /// The standard configuration. Only a client announces `ext-info-c`.
    pub fn new(is_client: bool) -> (r: AlgoConfig)
        ensures
            names_view(r.kexs@) == AlgoConfig::spec_kexs(is_client),
            names_view(r.hostsig@) == seq![spec_ed25519()],
            names_view(r.ciphers@) == seq![spec_chapoly(), spec_aes256_ctr()],
            names_view(r.macs@) == seq![spec_hmac_sha256()],
            names_view(r.comps@) == seq![spec_none()],
    {
        let mut kexs: Vec<Vec<u8>> = vec![name_curve25519(), name_curve25519_libssh()];
        if is_client {
            kexs.push(name_ext_info_c());
        }
        kexs.push(name_kexguess2());
        let r = AlgoConfig {
            kexs,
            hostsig: vec![name_ed25519()],
            ciphers: vec![name_chapoly(), name_aes256_ctr()],
            macs: vec![name_hmac_sha256()],
            comps: vec![name_none()],
        };
        assert(names_view(r.kexs@) =~= AlgoConfig::spec_kexs(is_client));
        assert(names_view(r.hostsig@) =~= seq![spec_ed25519()]);
        assert(names_view(r.ciphers@) =~= seq![spec_chapoly(), spec_aes256_ctr()]);
        assert(names_view(r.macs@) =~= seq![spec_hmac_sha256()]);
        assert(names_view(r.comps@) =~= seq![spec_none()]);
        r
    }
}

/// The key exchange method.
#[derive(Debug, Clone, Copy, PartialEq, Eq, Structural)]
pub enum KexType {
    Curve25519,
}

#[derive(Debug, Clone, Copy, PartialEq, Eq, Structural)]
pub enum Cipher {
    ChaPoly,
    Aes256Ctr,
}

#[derive(Debug, Clone, Copy, PartialEq, Eq, Structural)]
pub enum Integ {
    ChaPoly,
    HmacSha256,
}

/// The negotiated algorithms.
#[derive(Debug, Clone, Copy, PartialEq, Eq, Structural)]
pub struct Algos {
    pub kex: KexType,
    pub hostsig: SigType,
    pub cipher_enc: Cipher,
    pub cipher_dec: Cipher,
    pub integ_enc: Integ,
    pub integ_dec: Integ,
    /// The peer sent a guessed key exchange packet that guessed wrong: the
    /// next one received is dropped.
    pub discard_next: bool,
    pub is_client: bool,
    /// The peer is a client that supports `ext-info`.
    pub send_ext_info: bool,
}

pub open spec fn spec_kex_from_name(n: Seq<u8>) -> Option<KexType> {
    if n == spec_curve25519() || n == spec_curve25519_libssh() {
        Some(KexType::Curve25519)
    } else {
        None
    }
}

pub open spec fn spec_sig_from_name(n: Seq<u8>) -> Option<SigType> {
    if n == spec_ed25519() {
        Some(SigType::Ed25519)
    } else if n == spec_rsa_sha256() {
        Some(SigType::RSA256)
    } else {
        None
    }
}

pub open spec fn spec_cipher_from_name(n: Seq<u8>) -> Option<Cipher> {
    if n == spec_chapoly() {
        Some(Cipher::ChaPoly)
    } else if n == spec_aes256_ctr() {
        Some(Cipher::Aes256Ctr)
    } else {
        None
    }
}

pub open spec fn spec_integ_from_name(n: Seq<u8>) -> Option<Integ> {
    if n == spec_hmac_sha256() {
        Some(Integ::HmacSha256)
    } else {
        None
    }
}

/// Names that only announce a capability and may not be negotiated.
pub open spec fn is_marker_kex(n: Seq<u8>) -> bool {
    n == spec_ext_info_c() || n == spec_ext_info_s() || n == spec_kexguess2()
}

/// The first name of a list, or the empty name for an empty list.
pub open spec fn first_name(l: Seq<Seq<u8>>) -> Seq<u8> {
    if l.len() == 0 { Seq::empty() } else { l[0] }
}

/// The negotiated name for one algorithm category: the first of the
/// client's names that the server also lists.
pub open spec fn spec_pick(is_client: bool, theirs: Seq<u8>, ours: Seq<Seq<u8>>) -> Option<Seq<u8>> {
    if is_client {
        first_common(ours, spec_names(theirs))
    } else {
        first_common(spec_names(theirs), ours)
    }
}

/// An AEAD cipher brings its own integrity; others take the negotiated MAC.
pub open spec fn spec_integ_for(c: Cipher, is_client: bool, theirs: Seq<u8>, ours: Seq<Seq<u8>>) -> Result<Integ, Error> {
    match c {
        Cipher::ChaPoly => Ok(Integ::ChaPoly),
        Cipher::Aes256Ctr => match spec_pick(is_client, theirs, ours) {
            None => Err(Error::AlgoNoMatch { algo: AlgoKind::Mac }),
            Some(n) => match spec_integ_from_name(n) {
                Some(i) => Ok(i),
                None => Err(Error::Bug),
            },
        },
    }
}

/// Every name-list of a received `KexInit` is well formed.
pub open spec fn kexinit_lists_valid(p: &KexInit) -> bool {
    &&& valid_namelist(p.kex@)
    &&& valid_namelist(p.hostsig@)
    &&& valid_namelist(p.cipher_c2s@)
    &&& valid_namelist(p.cipher_s2c@)
    &&& valid_namelist(p.mac_c2s@)
    &&& valid_namelist(p.mac_s2c@)
    &&& valid_namelist(p.comp_c2s@)
    &&& valid_namelist(p.comp_s2c@)
    &&& valid_namelist(p.lang_c2s@)
    &&& valid_namelist(p.lang_s2c@)
}

/// Algorithm negotiation against the peer's `KexInit`: a malformed name-list
/// is refused with `BadName`, then each category is negotiated.
pub open spec fn spec_negotiate(is_client: bool, p: &KexInit, conf: &AlgoConfig) -> Result<Algos, Error> {
    if !kexinit_lists_valid(p) {
        Err(Error::BadName)
    } else {
        spec_negotiate_names(is_client, p, conf)
    }
}

/// Negotiation of each algorithm category from well-formed name-lists.
pub open spec fn spec_negotiate_names(is_client: bool, p: &KexInit, conf: &AlgoConfig) -> Result<Algos, Error> {
    let kexs = names_view(conf.kexs@);
    let hostsigs = names_view(conf.hostsig@);
    let ciphers = names_view(conf.ciphers@);
    let macs = names_view(conf.macs@);
    let comps = names_view(conf.comps@);
    let remote_kex = spec_names(p.kex@);
    let remote_hostsig = spec_names(p.hostsig@);
    let kexguess2 = remote_kex.contains(spec_kexguess2());
    let (cipher_tx, mac_tx, comp_tx) = if is_client {
        (p.cipher_c2s@, p.mac_c2s@, p.comp_c2s@)
    } else {
        (p.cipher_s2c@, p.mac_s2c@, p.comp_s2c@)
    };
    let (cipher_rx, mac_rx, comp_rx) = if is_client {
        (p.cipher_s2c@, p.mac_s2c@, p.comp_s2c@)
    } else {
        (p.cipher_c2s@, p.mac_c2s@, p.comp_c2s@)
    };
    match spec_pick(is_client, p.kex@, kexs) {
        None => Err(Error::AlgoNoMatch { algo: AlgoKind::Kex }),
        Some(kex_method) => if is_marker_kex(kex_method) {
            Err(Error::AlgoNoMatch { algo: AlgoKind::Kex })
        } else {
            match spec_kex_from_name(kex_method) {
                None => Err(Error::Bug),
                Some(kex) => match spec_pick(is_client, p.hostsig@, hostsigs) {
                    None => Err(Error::AlgoNoMatch { algo: AlgoKind::HostKey }),
                    Some(hostsig_method) => match spec_sig_from_name(hostsig_method) {
                        None => Err(Error::Bug),
                        Some(hostsig) => match spec_pick(is_client, cipher_tx, ciphers) {
                            None => Err(Error::AlgoNoMatch { algo: AlgoKind::Encryption }),
                            Some(ctx_name) => match spec_cipher_from_name(ctx_name) {
                                None => Err(Error::Bug),
                                Some(cipher_enc) => match spec_pick(is_client, cipher_rx, ciphers) {
                                    None => Err(Error::AlgoNoMatch { algo: AlgoKind::Encryption }),
                                    Some(crx_name) => match spec_cipher_from_name(crx_name) {
                                        None => Err(Error::Bug),
                                        Some(cipher_dec) => match spec_integ_for(cipher_enc, is_client, mac_tx, macs) {
                                            Err(e) => Err(e),
                                            Ok(integ_enc) => match spec_integ_for(cipher_dec, is_client, mac_rx, macs) {
                                                Err(e) => Err(e),
                                                Ok(integ_dec) => if spec_pick(is_client, comp_tx, comps) is None
                                                    || spec_pick(is_client, comp_rx, comps) is None {
                                                    Err(Error::AlgoNoMatch { algo: AlgoKind::Compression })
                                                } else {
                                                    let goodguess_kex = if kexguess2 {
                                                        first_name(remote_kex) == kex_method
                                                    } else {
                                                        first_name(remote_kex) == first_name(kexs)
                                                    };
                                                    let goodguess_hostkey = if kexguess2 {
                                                        first_name(remote_hostsig) == hostsig_method
                                                    } else {
                                                        first_name(remote_hostsig) == first_name(hostsigs)
                                                    };
                                                    Ok(Algos {
                                                        kex,
                                                        hostsig,
                                                        cipher_enc,
                                                        cipher_dec,
                                                        integ_enc,
                                                        integ_dec,
                                                        discard_next: p.first_follows && !(goodguess_kex && goodguess_hostkey),
                                                        is_client,
                                                        send_ext_info: !is_client && remote_kex.contains(spec_ext_info_c()),
                                                    })
                                                }
                                            },
                                        },
                                    },
                                },
                            },
                        },
                    },
                },
            }
        },
    }
}


impl KexType {
    /// Selects the key exchange method by name.
    pub fn from_name(name: &[u8]) -> (r: Result<KexType, Error>)
        ensures
            match spec_kex_from_name(name@) {
                Some(k) => r == Ok::<KexType, Error>(k),
                None => r == Err::<KexType, Error>(Error::Bug),
            },
    {
        if bytes_eq(name, name_curve25519().as_slice()) || bytes_eq(name, name_curve25519_libssh().as_slice()) {
            Ok(KexType::Curve25519)
        } else {
            Err(Error::Bug)
        }
    }
}

impl Cipher {
    /// Selects a cipher by name; an unknown name is an internal error.
    pub fn from_name(name: &[u8]) -> (r: Result<Cipher, Error>)
        ensures
            match spec_cipher_from_name(name@) {
                Some(c) => r == Ok::<Cipher, Error>(c),
                None => r == Err::<Cipher, Error>(Error::Bug),
            },
    {
        if bytes_eq(name, name_chapoly().as_slice()) {
            Ok(Cipher::ChaPoly)
        } else if bytes_eq(name, name_aes256_ctr().as_slice()) {
            Ok(Cipher::Aes256Ctr)
        } else {
            Err(Error::Bug)
        }
    }

    /// Key length in bytes.
    pub fn key_len(&self) -> (r: usize)
        ensures
            r == spec_cipher_key_len(*self),
    {
        match self {
            Cipher::ChaPoly => 64,
            Cipher::Aes256Ctr => 32,
        }
    }

    /// IV length in bytes.
    pub fn iv_len(&self) -> (r: usize)
        ensures
            r == spec_cipher_iv_len(*self),
    {
        match self {
            Cipher::ChaPoly => 0,
            Cipher::Aes256Ctr => 16,
        }
    }

    /// The integrity an AEAD cipher brings, `None` for others.
    pub fn integ(&self) -> (r: Option<Integ>)
        ensures
            r == (match self {
                Cipher::ChaPoly => Some(Integ::ChaPoly),
                Cipher::Aes256Ctr => None::<Integ>,
            }),
    {
        match self {
            Cipher::ChaPoly => Some(Integ::ChaPoly),
            Cipher::Aes256Ctr => None,
        }
    }
}

impl Integ {
    /// Selects a MAC by name; an unknown name is an internal error.
    pub fn from_name(name: &[u8]) -> (r: Result<Integ, Error>)
        ensures
            match spec_integ_from_name(name@) {
                Some(i) => r == Ok::<Integ, Error>(i),
                None => r == Err::<Integ, Error>(Error::Bug),
            },
    {
        if bytes_eq(name, name_hmac_sha256().as_slice()) {
            Ok(Integ::HmacSha256)
        } else {
            Err(Error::Bug)
        }
    }

    /// Key length in bytes.
    pub fn key_len(&self) -> (r: usize)
        ensures
            r == spec_integ_key_len(*self),
    {
        match self {
            Integ::ChaPoly => 0,
            Integ::HmacSha256 => 32,
        }
    }
}

fn is_marker(n: &[u8]) -> (r: bool)
    ensures
        r == is_marker_kex(n@),
{
    bytes_eq(n, name_ext_info_c().as_slice()) || bytes_eq(n, name_ext_info_s().as_slice())
        || bytes_eq(n, name_kexguess2().as_slice())
}

fn first_of(l: &Vec<Vec<u8>>) -> (r: Vec<u8>)
    ensures
        r@ == first_name(names_view(l@)),
{
    if l.len() == 0 {
        Vec::new()
    } else {
        to_vec(l[0].as_slice())
    }
}

fn integ_for(c: Cipher, is_client: bool, theirs: &[u8], ours: &Vec<Vec<u8>>) -> (r: Result<Integ, Error>)
    ensures
        r == spec_integ_for(c, is_client, theirs@, names_view(ours@)),
{
    match c.integ() {
        Some(i) => Ok(i),
        None => match first_match(is_client, theirs, ours) {
            None => Err(Error::AlgoNoMatch { algo: AlgoKind::Mac }),
            Some(n) => Integ::from_name(n.as_slice()),
        },
    }
}

/// Negotiates algorithms against the peer's `KexInit`: for each category the
/// first of the client's names that the server also lists; marker names may
/// not win; compression must agree. A wrong guess by a peer that sent its
/// first key exchange packet early sets `discard_next`.
#[verifier::rlimit(40)]
pub fn algo_negotiation(is_client: bool, p: &KexInit, conf: &AlgoConfig) -> (r: Result<Algos, Error>)
    ensures
        r == spec_negotiate(is_client, p, conf),
{
    if check_namelist(p.kex.as_slice()).is_err() || check_namelist(p.hostsig.as_slice()).is_err()
        || check_namelist(p.cipher_c2s.as_slice()).is_err() || check_namelist(p.cipher_s2c.as_slice()).is_err()
        || check_namelist(p.mac_c2s.as_slice()).is_err() || check_namelist(p.mac_s2c.as_slice()).is_err()
        || check_namelist(p.comp_c2s.as_slice()).is_err() || check_namelist(p.comp_s2c.as_slice()).is_err()
        || check_namelist(p.lang_c2s.as_slice()).is_err() || check_namelist(p.lang_s2c.as_slice()).is_err() {
        return Err(Error::BadName);
    }
    let kexguess2 = has_algo(p.kex.as_slice(), name_kexguess2().as_slice());
    let kex_method = match first_match(is_client, p.kex.as_slice(), &conf.kexs) {
        None => return Err(Error::AlgoNoMatch { algo: AlgoKind::Kex }),
        Some(n) => n,
    };
    if is_marker(kex_method.as_slice()) {
        return Err(Error::AlgoNoMatch { algo: AlgoKind::Kex });
    }
    let kex = match KexType::from_name(kex_method.as_slice()) {
        Ok(k) => k,
        Err(e) => return Err(e),
    };
    let remote_kex = split_names(p.kex.as_slice());
    let remote_first = first_of(&remote_kex);
    let goodguess_kex = if kexguess2 {
        bytes_eq(remote_first.as_slice(), kex_method.as_slice())
    } else {
        bytes_eq(remote_first.as_slice(), first_of(&conf.kexs).as_slice())
    };
    let send_ext_info = if is_client {
        false
    } else {
        has_algo(p.kex.as_slice(), name_ext_info_c().as_slice())
    };

    let hostsig_method = match first_match(is_client, p.hostsig.as_slice(), &conf.hostsig) {
        None => return Err(Error::AlgoNoMatch { algo: AlgoKind::HostKey }),
        Some(n) => n,
    };
    let hostsig = match SigType::from_name_bytes(hostsig_method.as_slice()) {
        Ok(h) => h,
        Err(_) => return Err(Error::Bug),
    };
    let remote_hostsig = split_names(p.hostsig.as_slice());
    let remote_hs_first = first_of(&remote_hostsig);
    let goodguess_hostkey = if kexguess2 {
        bytes_eq(remote_hs_first.as_slice(), hostsig_method.as_slice())
    } else {
        bytes_eq(remote_hs_first.as_slice(), first_of(&conf.hostsig).as_slice())
    };

    let (cipher_tx, mac_tx, comp_tx) = if is_client {
        (&p.cipher_c2s, &p.mac_c2s, &p.comp_c2s)
    } else {
        (&p.cipher_s2c, &p.mac_s2c, &p.comp_s2c)
    };
    let (cipher_rx, mac_rx, comp_rx) = if is_client {
        (&p.cipher_s2c, &p.mac_s2c, &p.comp_s2c)
    } else {
        (&p.cipher_c2s, &p.mac_c2s, &p.comp_c2s)
    };

    let n = match first_match(is_client, cipher_tx.as_slice(), &conf.ciphers) {
        None => return Err(Error::AlgoNoMatch { algo: AlgoKind::Encryption }),
        Some(n) => n,
    };
    let cipher_enc = match Cipher::from_name(n.as_slice()) {
        Ok(c) => c,
        Err(e) => return Err(e),
    };
    let n = match first_match(is_client, cipher_rx.as_slice(), &conf.ciphers) {
        None => return Err(Error::AlgoNoMatch { algo: AlgoKind::Encryption }),
        Some(n) => n,
    };
    let cipher_dec = match Cipher::from_name(n.as_slice()) {
        Ok(c) => c,
        Err(e) => return Err(e),
    };
    let integ_enc = match integ_for(cipher_enc, is_client, mac_tx.as_slice(), &conf.macs) {
        Ok(i) => i,
        Err(e) => return Err(e),
    };
    let integ_dec = match integ_for(cipher_dec, is_client, mac_rx.as_slice(), &conf.macs) {
        Ok(i) => i,
        Err(e) => return Err(e),
    };
    if first_match(is_client, comp_tx.as_slice(), &conf.comps).is_none()
        || first_match(is_client, comp_rx.as_slice(), &conf.comps).is_none() {
        return Err(Error::AlgoNoMatch { algo: AlgoKind::Compression });
    }
    Ok(Algos {
        kex,
        hostsig,
        cipher_enc,
        cipher_dec,
        integ_enc,
        integ_dec,
        discard_next: p.first_follows && !(goodguess_kex && goodguess_hostkey),
        is_client,
        send_ext_info,
    })
}


/// A length-prefixed string.
pub open spec fn spec_string(b: Seq<u8>) -> Seq<u8> {
    spec_u32_be(b.len() as u32) + b
}

/// `b` without its leading zero bytes.
pub open spec fn strip_zeros(b: Seq<u8>) -> Seq<u8>
    decreases b.len(),
{
    if b.len() > 0 && b[0] == 0 {
        strip_zeros(b.skip(1))
    } else {
        b
    }
}

/// The `mpint` encoding of the unsigned big-endian integer `b`: no leading
/// zeros, and one zero byte added where the top bit would read as a sign.
pub open spec fn spec_mpint(b: Seq<u8>) -> Seq<u8> {
    let t = strip_zeros(b);
    let body = if t.len() > 0 && t[0] >= 0x80 { seq![0u8] + t } else { t };
    spec_u32_be(body.len() as u32) + body
}

/// What the exchange hash is computed over (RFC 4253 section 8), given each
/// item by its role: client and server versions, client and server
/// `KexInit` payloads, host key, client and server public points, and the
/// shared secret.
pub open spec fn spec_hash_input(
    v_c: Seq<u8>, v_s: Seq<u8>, i_c: Seq<u8>, i_s: Seq<u8>, k_s: Seq<u8>,
    q_c: Seq<u8>, q_s: Seq<u8>, k: Seq<u8>,
) -> Seq<u8> {
    spec_string(v_c) + spec_string(v_s) + spec_string(i_c) + spec_string(i_s) + spec_string(k_s)
        + spec_string(q_c) + spec_string(q_s) + spec_mpint(k)
}

/// The exchange hash input as one side assembles it from what is its own and
/// what is the peer's.
pub open spec fn spec_role_hash_input(
    is_client: bool, our_version: Seq<u8>, their_version: Seq<u8>, our_kexinit: Seq<u8>,
    their_kexinit: Seq<u8>, host_key: Seq<u8>, q_ours: Seq<u8>, q_theirs: Seq<u8>, k: Seq<u8>,
) -> Seq<u8> {
    if is_client {
        spec_hash_input(our_version, their_version, our_kexinit, their_kexinit, host_key, q_ours, q_theirs, k)
    } else {
        spec_hash_input(their_version, our_version, their_kexinit, our_kexinit, host_key, q_theirs, q_ours, k)
    }
}

/// Fits the length prefixes of the exchange hash input.
pub open spec fn hash_items_fit(items: Seq<Seq<u8>>) -> bool {
    forall|i: int| 0 <= i < items.len() ==> #[trigger] items[i].len() <= 0x1000_0000
}

fn put_string(out: &mut Vec<u8>, b: &[u8])
    requires
        b@.len() <= u32::MAX,
    ensures
        final(out)@ == old(out)@ + spec_string(b@),
{
    put_u32(out, b.len() as u32);
    extend(out, b);
    assert(final(out)@ =~= old(out)@ + spec_string(b@));
}

fn put_mpint(out: &mut Vec<u8>, b: &[u8])
    requires
        b@.len() < u32::MAX,
    ensures
        final(out)@ == old(out)@ + spec_mpint(b@),
{
    let mut i: usize = 0;
    assert(b@.skip(0) =~= b@);
    while i < b.len() && b[i] == 0
        invariant
            i <= b@.len(),
            strip_zeros(b@) == strip_zeros(b@.skip(i as int)),
        decreases b@.len() - i,
    {
        assert(b@.skip(i as int).skip(1) =~= b@.skip(i as int + 1));
        i = i + 1;
    }
    let t = &b[i..b.len()];
    assert(t@ =~= b@.skip(i as int));
    assert(strip_zeros(t@) == t@);
    if t.len() > 0 && t[0] >= 0x80 {
        put_u32(out, (t.len() + 1) as u32);
        out.push(0u8);
        extend(out, t);
        assert(seq![0u8] + t@ =~= seq![0u8].add(t@));
    } else {
        put_u32(out, t.len() as u32);
        extend(out, t);
    }
    assert(final(out)@ =~= old(out)@ + spec_mpint(b@));
}

/// Assembles the exchange hash input in the order RFC 4253 gives,
/// placing our items and the peer's by role.
pub fn hash_input(
    is_client: bool, our_version: &[u8], their_version: &[u8], our_kexinit: &[u8],
    their_kexinit: &[u8], host_key: &[u8], q_ours: &[u8], q_theirs: &[u8], k: &[u8],
) -> (r: Vec<u8>)
    requires
        hash_items_fit(seq![our_version@, their_version@, our_kexinit@, their_kexinit@,
            host_key@, q_ours@, q_theirs@, k@]),
    ensures
        r@ == spec_role_hash_input(is_client, our_version@, their_version@, our_kexinit@,
            their_kexinit@, host_key@, q_ours@, q_theirs@, k@),
{
    let ghost items = seq![our_version@, their_version@, our_kexinit@, their_kexinit@,
        host_key@, q_ours@, q_theirs@, k@];
    assert(items[0] == our_version@ && items[1] == their_version@ && items[2] == our_kexinit@
        && items[3] == their_kexinit@ && items[4] == host_key@ && items[5] == q_ours@
        && items[6] == q_theirs@ && items[7] == k@);
    let (v_c, v_s, i_c, i_s, q_c, q_s) = if is_client {
        (our_version, their_version, our_kexinit, their_kexinit, q_ours, q_theirs)
    } else {
        (their_version, our_version, their_kexinit, our_kexinit, q_theirs, q_ours)
    };
    let mut out: Vec<u8> = Vec::new();
    put_string(&mut out, v_c);
    put_string(&mut out, v_s);
    put_string(&mut out, i_c);
    put_string(&mut out, i_s);
    put_string(&mut out, host_key);
    put_string(&mut out, q_c);
    put_string(&mut out, q_s);
    put_mpint(&mut out, k);
    assert(out@ =~= spec_hash_input(v_c@, v_s@, i_c@, i_s@, host_key@, q_c@, q_s@, k@));
    out
}

/// Both ends of a key exchange, each placing its own items and the peer's by
/// role, hash the same input, hence reach the same exchange hash and session id.
pub proof fn lemma_both_ends_hash_same(
    v_c: Seq<u8>, v_s: Seq<u8>, i_c: Seq<u8>, i_s: Seq<u8>, k_s: Seq<u8>,
    q_c: Seq<u8>, q_s: Seq<u8>, k: Seq<u8>,
)
    ensures
        spec_role_hash_input(true, v_c, v_s, i_c, i_s, k_s, q_c, q_s, k)
            == spec_role_hash_input(false, v_s, v_c, i_s, i_c, k_s, q_s, q_c, k),
        sha256_of(spec_role_hash_input(true, v_c, v_s, i_c, i_s, k_s, q_c, q_s, k))
            == sha256_of(spec_role_hash_input(false, v_s, v_c, i_s, i_c, k_s, q_s, q_c, k)),
{
}

/// RFC 4253 section 7.2: `K1 = HASH(K || H || letter || session_id)`,
/// extended by `K2 = HASH(K || H || K1)` when more than one hash is needed.
pub open spec fn spec_compute_key(k: Seq<u8>, h: Seq<u8>, letter: u8, sess_id: Seq<u8>, len: int) -> Seq<u8> {
    let k1 = sha256_of(spec_mpint(k) + h + seq![letter] + sess_id);
    if len <= 32 {
        k1.take(len)
    } else {
        (k1 + sha256_of(spec_mpint(k) + h + k1)).take(len)
    }
}

/// Derives `len` bytes of key material for `letter`.
pub fn compute_key(k: &[u8], h: &[u8], letter: u8, sess_id: &[u8], len: usize) -> (r: Vec<u8>)
    requires
        len <= 64,
        k@.len() < u32::MAX,
    ensures
        r@ == spec_compute_key(k@, h@, letter, sess_id@, len as int),
        r@.len() == len,
{
    let mut msg: Vec<u8> = Vec::new();
    put_mpint(&mut msg, k);
    extend(&mut msg, h);
    msg.push(letter);
    extend(&mut msg, sess_id);
    assert(msg@ =~= spec_mpint(k@) + h@ + seq![letter] + sess_id@);
    let k1 = sha256(msg.as_slice());
    if len <= 32 {
        let r = to_vec(&k1.as_slice()[0..len]);
        assert(r@ =~= k1@.take(len as int));
        r
    } else {
        let mut msg2: Vec<u8> = Vec::new();
        put_mpint(&mut msg2, k);
        extend(&mut msg2, h);
        extend(&mut msg2, k1.as_slice());
        assert(msg2@ =~= spec_mpint(k@) + h@ + k1@);
        let k2 = sha256(msg2.as_slice());
        let mut both = to_vec(k1.as_slice());
        extend(&mut both, &k2.as_slice()[0..len - 32]);
        assert(both@ =~= (k1@ + k2@).take(len as int));
        both
    }
}

/// The six uses of derived key material, from one side's point of view.
#[derive(Debug, Clone, Copy, PartialEq, Eq, Structural)]
pub enum KeySlot {
    IvEnc,
    IvDec,
    KeyEnc,
    KeyDec,
    IntegEnc,
    IntegDec,
}

/// The slot the peer uses for the same material.
pub open spec fn mirror(s: KeySlot) -> KeySlot {
    match s {
        KeySlot::IvEnc => KeySlot::IvDec,
        KeySlot::IvDec => KeySlot::IvEnc,
        KeySlot::KeyEnc => KeySlot::KeyDec,
        KeySlot::KeyDec => KeySlot::KeyEnc,
        KeySlot::IntegEnc => KeySlot::IntegDec,
        KeySlot::IntegDec => KeySlot::IntegEnc,
    }
}

/// The RFC 4253 letter for a slot: `A`..`F` are client-to-server IV,
/// server-to-client IV, the two encryption keys, and the two integrity keys.
pub open spec fn spec_letter(is_client: bool, s: KeySlot) -> u8 {
    let c2s = if is_client {
        s is IvEnc || s is KeyEnc || s is IntegEnc
    } else {
        s is IvDec || s is KeyDec || s is IntegDec
    };
    let base: u8 = if s is IvEnc || s is IvDec { 65 } else if s is KeyEnc || s is KeyDec { 67 } else { 69 };
    if c2s { base } else { (base + 1) as u8 }
}

pub fn letter(is_client: bool, s: KeySlot) -> (r: u8)
    ensures
        r == spec_letter(is_client, s),
{
    let c2s = if is_client {
        matches!(s, KeySlot::IvEnc | KeySlot::KeyEnc | KeySlot::IntegEnc)
    } else {
        matches!(s, KeySlot::IvDec | KeySlot::KeyDec | KeySlot::IntegDec)
    };
    let base: u8 = match s {
        KeySlot::IvEnc | KeySlot::IvDec => 65,
        KeySlot::KeyEnc | KeySlot::KeyDec => 67,
        _ => 69,
    };
    if c2s { base } else { base + 1 }
}

/// Each of the six key schedule outputs a client derives for one direction
/// equals what the server derives for that direction, given the same shared
/// secret, exchange hash and session id.
pub proof fn lemma_key_schedule_agrees(k: Seq<u8>, h: Seq<u8>, sess_id: Seq<u8>, s: KeySlot, len: int)
    ensures
        spec_letter(true, s) == spec_letter(false, mirror(s)),
        spec_compute_key(k, h, spec_letter(true, s), sess_id, len)
            == spec_compute_key(k, h, spec_letter(false, mirror(s)), sess_id, len),
{
}


/// Key material for both directions, as one side uses it.
#[derive(Debug)]
pub struct KeyMaterial {
    pub iv_enc: Vec<u8>,
    pub iv_dec: Vec<u8>,
    pub key_enc: Vec<u8>,
    pub key_dec: Vec<u8>,
    pub integ_enc: Vec<u8>,
    pub integ_dec: Vec<u8>,
}

pub open spec fn spec_cipher_key_len(c: Cipher) -> int {
    match c {
        Cipher::ChaPoly => 64,
        Cipher::Aes256Ctr => 32,
    }
}

pub open spec fn spec_cipher_iv_len(c: Cipher) -> int {
    match c {
        Cipher::ChaPoly => 0,
        Cipher::Aes256Ctr => 16,
    }
}

pub open spec fn spec_integ_key_len(i: Integ) -> int {
    match i {
        Integ::ChaPoly => 0,
        Integ::HmacSha256 => 32,
    }
}

/// The value of our `KexInit` packet for `cookie` and `conf`.
pub open spec fn spec_kexinit_view(cookie: Seq<u8>, conf: &AlgoConfig) -> PacketV {
    PacketV {
        num: 20,
        fields: seq![FieldV::Fixed(cookie), FieldV::Str(spec_join(names_view(conf.kexs@))),
            FieldV::Str(spec_join(names_view(conf.hostsig@))), FieldV::Str(spec_join(names_view(conf.ciphers@))),
            FieldV::Str(spec_join(names_view(conf.ciphers@))), FieldV::Str(spec_join(names_view(conf.macs@))),
            FieldV::Str(spec_join(names_view(conf.macs@))), FieldV::Str(spec_join(names_view(conf.comps@))),
            FieldV::Str(spec_join(names_view(conf.comps@))), FieldV::Str(Seq::empty()), FieldV::Str(Seq::empty()),
            FieldV::Bool(false), FieldV::U32(0)],
        shape: Shape::Known,
    }
}

/// The length of key material a slot needs under the negotiated algorithms.
pub open spec fn spec_slot_len(algos: Algos, s: KeySlot) -> int {
    match s {
        KeySlot::IvEnc => spec_cipher_iv_len(algos.cipher_enc),
        KeySlot::IvDec => spec_cipher_iv_len(algos.cipher_dec),
        KeySlot::KeyEnc => spec_cipher_key_len(algos.cipher_enc),
        KeySlot::KeyDec => spec_cipher_key_len(algos.cipher_dec),
        KeySlot::IntegEnc => spec_integ_key_len(algos.integ_enc),
        KeySlot::IntegDec => spec_integ_key_len(algos.integ_dec),
    }
}

/// The key material one side derives for a slot.
pub open spec fn spec_slot_key(k: Seq<u8>, h: Seq<u8>, sess_id: Seq<u8>, algos: Algos, s: KeySlot) -> Seq<u8> {
    spec_compute_key(k, h, spec_letter(algos.is_client, s), sess_id, spec_slot_len(algos, s))
}

/// Two sides' negotiated algorithms, one the client and one the server, each
/// sending with what the other receives with.
pub open spec fn mirrored(c: Algos, s: Algos) -> bool {
    &&& c.is_client && !s.is_client
    &&& c.cipher_enc == s.cipher_dec && c.cipher_dec == s.cipher_enc
    &&& c.integ_enc == s.integ_dec && c.integ_dec == s.integ_enc
}

/// `b` is the `KexDH` state `a` with its discard flag cleared, nothing else
/// changed: one guessed packet has been dropped.
pub open spec fn dropped_one(a: Kex, b: Kex) -> bool {
    a matches Kex::KexDH { algos, our_kexinit, their_kexinit }
        && b matches Kex::KexDH { algos: a2, our_kexinit: o2, their_kexinit: t2 }
        && a2 == (Algos { discard_next: false, ..algos }) && o2 == our_kexinit && t2 == their_kexinit
}

/// The state of key exchange.
#[derive(Debug)]
pub enum Kex {
    /// No key exchange in progress.
    Idle,
    /// Our `KexInit` is sent; waiting for the peer's.
    KexInit { our_cookie: Vec<u8> },
    /// Waiting for `KexDHInit` (server) or `KexDHReply` (client). The two
    /// `KexInit` payloads are kept for the exchange hash.
    KexDH { algos: Algos, our_kexinit: Vec<u8>, their_kexinit: Vec<u8> },
    /// Waiting for the peer's `NewKeys`; `h` and `k` give the new keys.
    NewKeys { algos: Algos, h: Vec<u8>, k: Vec<u8> },
}

/// What a server sends back in `KexDHReply`, besides its host key: the
/// exchange hash to sign and its public point.
#[derive(Debug)]
pub struct KexDHOutput {
    pub h: Vec<u8>,
    pub q_s: Vec<u8>,
}

/// The length a `KexDH` item may have.
pub const MAX_HASH_ITEM: usize = 0x1000_0000;

impl Kex {
    pub fn new() -> (r: Kex)
        ensures
            r is Idle,
    {
        Kex::Idle
    }

    /// Our `KexInit` for `cookie` and `conf`, name-lists joined with commas.
    pub fn make_kexinit(cookie: &[u8], conf: &AlgoConfig) -> (r: KexInit)
        ensures
            r.cookie@ == cookie@,
            r.kex@ == spec_join(names_view(conf.kexs@)),
            r.hostsig@ == spec_join(names_view(conf.hostsig@)),
            r.cipher_c2s@ == spec_join(names_view(conf.ciphers@)),
            r.cipher_s2c@ == spec_join(names_view(conf.ciphers@)),
            r.mac_c2s@ == spec_join(names_view(conf.macs@)),
            r.mac_s2c@ == spec_join(names_view(conf.macs@)),
            r.comp_c2s@ == spec_join(names_view(conf.comps@)),
            r.comp_s2c@ == spec_join(names_view(conf.comps@)),
            r.lang_c2s@.len() == 0,
            r.lang_s2c@.len() == 0,
            !r.first_follows,
            r.reserved == 0,
    {
        KexInit {
            cookie: to_vec(cookie),
            kex: join_names(&conf.kexs),
            hostsig: join_names(&conf.hostsig),
            cipher_c2s: join_names(&conf.ciphers),
            cipher_s2c: join_names(&conf.ciphers),
            mac_c2s: join_names(&conf.macs),
            mac_s2c: join_names(&conf.macs),
            comp_c2s: join_names(&conf.comps),
            comp_s2c: join_names(&conf.comps),
            lang_c2s: Vec::new(),
            lang_s2c: Vec::new(),
            first_follows: false,
            reserved: 0,
        }
    }

    /// Starts a key exchange from `Idle`, returning the `KexInit` to send.
    /// `cookie` is 16 random bytes from the caller.
    pub fn send_kexinit(&mut self, cookie: &[u8], conf: &AlgoConfig) -> (r: Result<KexInit, Error>)
        ensures
            (*old(self)) is Idle ==> r is Ok && (*final(self) matches Kex::KexInit { our_cookie } && our_cookie@ == cookie@),
            (*old(self)) is Idle ==> (r matches Ok(k) && k.cookie@ == cookie@),
            !((*old(self)) is Idle) ==> r == Err::<KexInit, Error>(Error::Bug),
    {
        if !matches!(self, Kex::Idle) {
            return Err(Error::Bug);
        }
        *self = Kex::KexInit { our_cookie: to_vec(cookie) };
        Ok(Kex::make_kexinit(cookie, conf))
    }

    /// Handles the peer's `KexInit`. From `Idle` our own `KexInit` (with
    /// `cookie`) is sent first and returned. The algorithms are negotiated and
    /// both `KexInit` payloads kept for the exchange hash. A second `KexInit`
    /// during an exchange is refused.
    pub fn handle_kexinit(&mut self, remote: KexInit, is_client: bool, conf: &AlgoConfig, cookie: &[u8])
        -> (r: Result<Option<KexInit>, Error>)
        ensures
            !((*old(self)) is Idle || (*old(self)) is KexInit) ==> r == Err::<Option<KexInit>, Error>(Error::PacketWrong)
                && *final(self) == *old(self),
            ((*old(self)) is Idle || (*old(self)) is KexInit) && spec_negotiate(is_client, &remote, conf) is Err
                ==> r == Err::<Option<KexInit>, Error>(spec_negotiate(is_client, &remote, conf)->Err_0),
            ({
                let oc = if (*old(self)) is Idle { cookie@ } else { (*old(self))->KexInit_our_cookie@ };
                &&& ((*old(self)) is Idle || (*old(self)) is KexInit) && spec_negotiate(is_client, &remote, conf) is Ok
                    && packet_ok(spec_kexinit_view(oc, conf)) && packet_ok(Packet::KexInit(remote)@)
                    ==> r is Ok
                &&& r is Ok ==> (*final(self) matches Kex::KexDH { algos, our_kexinit, their_kexinit }
                    && Ok::<Algos, Error>(algos) == spec_negotiate(is_client, &remote, conf)
                    && our_kexinit@ == spec_enc_packet(spec_kexinit_view(oc, conf))
                    && their_kexinit@ == spec_enc_packet(Packet::KexInit(remote)@))
            }),
            r is Ok ==> ((*old(self)) is Idle <==> r->Ok_0 is Some),
            r matches Ok(Some(k)) ==> k.cookie@ == cookie@,
    {
        let mut sent: Option<KexInit> = None;
        if matches!(self, Kex::Idle) {
            match self.send_kexinit(cookie, conf) {
                Ok(k) => { sent = Some(k); },
                Err(e) => return Err(e),
            }
        }
        let our_cookie = match self {
            Kex::KexInit { our_cookie } => to_vec(our_cookie.as_slice()),
            _ => return Err(Error::PacketWrong),
        };
        let algos = match algo_negotiation(is_client, &remote, conf) {
            Ok(a) => a,
            Err(e) => return Err(e),
        };
        let ctx = ParseContext::new();
        let ki = Kex::make_kexinit(our_cookie.as_slice(), conf);
        assert(ki.lang_c2s@ =~= Seq::<u8>::empty());
        assert(ki.lang_s2c@ =~= Seq::<u8>::empty());
        let own = Packet::KexInit(ki);
        assert(own@.fields =~= spec_kexinit_view(our_cookie@, conf).fields);
        let mut our_kexinit: Vec<u8> = Vec::new();
        match encode_packet(&own, &ctx, &mut our_kexinit) {
            Ok(()) => {},
            Err(e) => return Err(e),
        }
        let theirs = Packet::KexInit(remote);
        let mut their_kexinit: Vec<u8> = Vec::new();
        match encode_packet(&theirs, &ctx, &mut their_kexinit) {
            Ok(()) => {},
            Err(e) => return Err(e),
        }
        assert(their_kexinit@ =~= spec_enc_packet(theirs@));
        *self = Kex::KexDH { algos, our_kexinit, their_kexinit };
        Ok(sent)
    }

    /// Whether the next `KexDH*` packet is to be dropped because the peer
    /// guessed wrong; the flag is cleared once a packet has been dropped.
    pub fn discard_packet(&mut self) -> (r: bool)
        ensures
            r == (*old(self) matches Kex::KexDH { algos, .. } && algos.discard_next),
            r ==> dropped_one(*old(self), *final(self)),
            !r ==> *final(self) == *old(self),
    {
        match self {
            Kex::KexDH { algos, .. } => {
                if algos.discard_next {
                    algos.discard_next = false;
                    assert(dropped_one(*old(self), *self));
                    true
                } else {
                    false
                }
            },
            _ => false,
        }
    }

    /// Server side: handles the client's `KexDHInit` carrying `q_c`. With our
    /// secret `seed` it computes the shared secret and the exchange hash over
    /// the versions, both `KexInit` payloads, `host_key`, both points and the
    /// secret; returns the hash (for the host key to sign) and our point.
    /// When the client guessed wrong, its first `KexDHInit` is dropped: the
    /// flag is cleared, nothing is returned and the state stays `KexDH`.
    pub fn handle_kexdhinit(&mut self, q_c: &[u8], our_version: &[u8], their_version: &[u8],
        host_key: &[u8], seed: &[u8]) -> (r: Result<Option<KexDHOutput>, Error>)
        requires
            seed@.len() == 32,
        ensures
            !((*old(self)) is KexDH) ==> r == Err::<Option<KexDHOutput>, Error>(Error::PacketWrong),
            (*old(self) matches Kex::KexDH { algos, .. } && algos.is_client)
                ==> r == Err::<Option<KexDHOutput>, Error>(Error::Bug),
            (*old(self) matches Kex::KexDH { algos, .. } && !algos.is_client && algos.discard_next)
                ==> r == Ok::<Option<KexDHOutput>, Error>(None) && dropped_one(*old(self), *final(self)),
            (*old(self) matches Kex::KexDH { algos, our_kexinit, their_kexinit } && !algos.is_client
                && !algos.discard_next && q_c@.len() == 32 && x25519_point_canonical(q_c@)
                && our_version@.len() <= MAX_HASH_ITEM && their_version@.len() <= MAX_HASH_ITEM
                && our_kexinit@.len() <= MAX_HASH_ITEM && their_kexinit@.len() <= MAX_HASH_ITEM
                && host_key@.len() <= MAX_HASH_ITEM) ==> r matches Ok(Some(_)),
            r matches Ok(Some(o)) ==> (*old(self) matches Kex::KexDH { algos, our_kexinit, their_kexinit }
                && !algos.is_client && !algos.discard_next
                && o.q_s@ == x25519_public_of(seed@) && o.h@.len() == 32
                && o.h@ == sha256_of(spec_role_hash_input(false, our_version@, their_version@,
                    our_kexinit@, their_kexinit@, host_key@, o.q_s@, q_c@, x25519_shared_of(seed@, q_c@)))
                && (*final(self) matches Kex::NewKeys { algos: a2, h, k }
                    && a2 == algos && h@ == o.h@ && k@ == x25519_shared_of(seed@, q_c@))),
    {
        let (algos, ours, theirs) = match self {
            Kex::KexDH { algos, our_kexinit, their_kexinit } => (*algos, to_vec(our_kexinit.as_slice()),
                to_vec(their_kexinit.as_slice())),
            _ => return Err(Error::PacketWrong),
        };
        if algos.is_client {
            return Err(Error::Bug);
        }
        if self.discard_packet() {
            return Ok(None);
        }
        if q_c.len() != 32 {
            return Err(Error::BadKex);
        }
        if our_version.len() > MAX_HASH_ITEM || their_version.len() > MAX_HASH_ITEM
            || ours.len() > MAX_HASH_ITEM || theirs.len() > MAX_HASH_ITEM || host_key.len() > MAX_HASH_ITEM {
            return Err(Error::BadLength);
        }
        let q_s = x25519_public(seed);
        let k = match x25519_agree(seed, q_c) {
            Some(k) => k,
            None => return Err(Error::BadKex),
        };
        let input = hash_input(false, our_version, their_version, ours.as_slice(), theirs.as_slice(),
            host_key, q_s.as_slice(), q_c, k.as_slice());
        let h = sha256(input.as_slice());
        *self = Kex::NewKeys { algos, h: to_vec(h.as_slice()), k };
        Ok(Some(KexDHOutput { h, q_s }))
    }

    /// Client side: the exchange hash and shared secret for the server's
    /// `KexDHReply` carrying host key `k_s` and point `q_s`, with our secret
    /// `seed`. The state is not changed: the caller verifies the server's
    /// signature over the hash and asks whether the host key is accepted, then
    /// calls [`Kex::accept_kexdhreply`].
    pub fn kexdhreply_hash(&self, k_s: &[u8], q_s: &[u8], our_version: &[u8], their_version: &[u8],
        seed: &[u8]) -> (r: Result<(Vec<u8>, Vec<u8>), Error>)
        requires
            seed@.len() == 32,
        ensures
            !(self is KexDH) ==> r == Err::<(Vec<u8>, Vec<u8>), Error>(Error::PacketWrong),
            (*self matches Kex::KexDH { algos, our_kexinit, their_kexinit } && algos.is_client
                && q_s@.len() == 32 && x25519_point_canonical(q_s@)
                && our_version@.len() <= MAX_HASH_ITEM && their_version@.len() <= MAX_HASH_ITEM
                && our_kexinit@.len() <= MAX_HASH_ITEM && their_kexinit@.len() <= MAX_HASH_ITEM
                && k_s@.len() <= MAX_HASH_ITEM) ==> r is Ok,
            r matches Ok((h, k)) ==> (*self matches Kex::KexDH { algos, our_kexinit, their_kexinit }
                && algos.is_client
                && k@ == x25519_shared_of(seed@, q_s@) && h@.len() == 32
                && h@ == sha256_of(spec_role_hash_input(true, our_version@, their_version@,
                    our_kexinit@, their_kexinit@, k_s@, x25519_public_of(seed@), q_s@, k@))),
    {
        let (algos, ours, theirs) = match self {
            Kex::KexDH { algos, our_kexinit, their_kexinit } => (*algos, our_kexinit, their_kexinit),
            _ => return Err(Error::PacketWrong),
        };
        if !algos.is_client {
            return Err(Error::Bug);
        }
        if q_s.len() != 32 {
            return Err(Error::BadKex);
        }
        if our_version.len() > MAX_HASH_ITEM || their_version.len() > MAX_HASH_ITEM
            || ours.len() > MAX_HASH_ITEM || theirs.len() > MAX_HASH_ITEM || k_s.len() > MAX_HASH_ITEM {
            return Err(Error::BadLength);
        }
        let q_c = x25519_public(seed);
        let k = match x25519_agree(seed, q_s) {
            Some(k) => k,
            None => return Err(Error::BadKex),
        };
        let input = hash_input(true, our_version, their_version, ours.as_slice(), theirs.as_slice(),
            k_s, q_c.as_slice(), q_s, k.as_slice());
        let h = sha256(input.as_slice());
        Ok((h, k))
    }

    /// Client side: completes the `KexDHReply` step once the server's
    /// signature has been checked (`sig_valid`) and the application has judged
    /// the host key (`hostkey_ok`).
    pub fn accept_kexdhreply(&mut self, h: Vec<u8>, k: Vec<u8>, sig_valid: bool, hostkey_ok: bool)
        -> (r: Result<(), Error>)
        ensures
            !((*old(self)) is KexDH) ==> r == Err::<(), Error>(Error::PacketWrong),
            (*old(self)) is KexDH && !sig_valid ==> r == Err::<(), Error>(Error::BadSignature),
            (*old(self)) is KexDH && sig_valid && !hostkey_ok ==> r == Err::<(), Error>(Error::BehaviourError),
            r is Ok <==> ((*old(self)) is KexDH && sig_valid && hostkey_ok),
            r is Ok ==> (*old(self) matches Kex::KexDH { algos, .. } && *final(self) matches Kex::NewKeys { algos: a2, h: h2, k: k2 }
                && a2 == algos && h2@ == h@ && k2@ == k@),
            r is Err ==> *final(self) == *old(self),
    {
        let algos = match self {
            Kex::KexDH { algos, .. } => *algos,
            _ => return Err(Error::PacketWrong),
        };
        if !sig_valid {
            return Err(Error::BadSignature);
        }
        if !hostkey_ok {
            return Err(Error::BehaviourError);
        }
        *self = Kex::NewKeys { algos, h, k };
        Ok(())
    }

    /// Handles the peer's `NewKeys`: the first exchange hash becomes the
    /// session id, which is never replaced; the six keys are derived for this
    /// side's role; the state returns to `Idle`.
    pub fn handle_newkeys(&mut self, sess_id: &mut Option<Vec<u8>>) -> (r: Result<KeyMaterial, Error>)
        ensures
            !((*old(self)) is NewKeys) ==> r == Err::<KeyMaterial, Error>(Error::PacketWrong) && *final(sess_id) == *old(sess_id),
            r is Ok ==> (*old(self) matches Kex::NewKeys { algos, h, k } && {
                let sid = if (*old(sess_id)) is Some { (*old(sess_id))->Some_0@ } else { h@ };
                let ic = algos.is_client;
                &&& (*final(self)) is Idle
                &&& ((*old(sess_id)) is Some ==> *final(sess_id) == *old(sess_id))
                &&& (*final(sess_id) matches Some(s) && s@ == sid)
                &&& r->Ok_0.iv_enc@ == spec_slot_key(k@, h@, sid, algos, KeySlot::IvEnc)
                &&& r->Ok_0.iv_dec@ == spec_slot_key(k@, h@, sid, algos, KeySlot::IvDec)
                &&& r->Ok_0.key_enc@ == spec_slot_key(k@, h@, sid, algos, KeySlot::KeyEnc)
                &&& r->Ok_0.key_dec@ == spec_slot_key(k@, h@, sid, algos, KeySlot::KeyDec)
                &&& r->Ok_0.integ_enc@ == spec_slot_key(k@, h@, sid, algos, KeySlot::IntegEnc)
                &&& r->Ok_0.integ_dec@ == spec_slot_key(k@, h@, sid, algos, KeySlot::IntegDec)
            }),
            ((*old(self)) is NewKeys && ((*old(self))->NewKeys_k@.len() < u32::MAX)) ==> r is Ok,
    {
        let (algos, h, k) = match self {
            Kex::NewKeys { algos, h, k } => (*algos, to_vec(h.as_slice()), to_vec(k.as_slice())),
            _ => return Err(Error::PacketWrong),
        };
        if k.len() >= 0xffff_ffff {
            return Err(Error::BadKex);
        }
        if sess_id.is_none() {
            *sess_id = Some(to_vec(h.as_slice()));
        }
        let sid = match sess_id {
            Some(s) => to_vec(s.as_slice()),
            None => Vec::new(),
        };
        let ic = algos.is_client;
        let km = KeyMaterial {
            iv_enc: compute_key(k.as_slice(), h.as_slice(), letter(ic, KeySlot::IvEnc), sid.as_slice(), algos.cipher_enc.iv_len()),
            iv_dec: compute_key(k.as_slice(), h.as_slice(), letter(ic, KeySlot::IvDec), sid.as_slice(), algos.cipher_dec.iv_len()),
            key_enc: compute_key(k.as_slice(), h.as_slice(), letter(ic, KeySlot::KeyEnc), sid.as_slice(), algos.cipher_enc.key_len()),
            key_dec: compute_key(k.as_slice(), h.as_slice(), letter(ic, KeySlot::KeyDec), sid.as_slice(), algos.cipher_dec.key_len()),
            integ_enc: compute_key(k.as_slice(), h.as_slice(), letter(ic, KeySlot::IntegEnc), sid.as_slice(), algos.integ_enc.key_len()),
            integ_dec: compute_key(k.as_slice(), h.as_slice(), letter(ic, KeySlot::IntegDec), sid.as_slice(), algos.integ_dec.key_len()),
        };
        *self = Kex::Idle;
        Ok(km)
    }
}


/// Our Curve25519 public point for secret `seed` (32 random bytes from the
/// caller), as sent in `KexDHInit`.
pub fn make_kexdhinit(seed: &[u8]) -> (r: Result<crate::packets::KexDHInit, Error>)
    ensures
        seed@.len() == 32 ==> (r matches Ok(p) && p.q_c@ == x25519_public_of(seed@)),
        seed@.len() != 32 ==> r == Err::<crate::packets::KexDHInit, Error>(Error::BadKex),
{
    if seed.len() != 32 {
        return Err(Error::BadKex);
    }
    Ok(crate::packets::KexDHInit { q_c: x25519_public(seed) })
}


/// Server side: the `KexDHReply` for a completed `KexDHInit`: our host key,
/// our point, and the host key's signature over the exchange hash.
pub fn send_kexdhreply(out: &KexDHOutput, hostkey: &SignKey) -> (r: KexDHReply)
    requires
        hostkey.spec_seed().len() == 32,
    ensures
        r.k_s@ == spec_blob(spec_ed25519(), ed25519_public_of(hostkey.spec_seed())),
        r.q_s@ == out.q_s@,
        r.sig@ == spec_blob(spec_ed25519(), ed25519_signature_of(hostkey.spec_seed(), out.h@)),
{
    KexDHReply { k_s: hostkey.pubkey(), q_s: to_vec(out.q_s.as_slice()), sig: hostkey.sign(out.h.as_slice()) }
}

impl Kex {
    /// The client can compute the exchange hash for a `KexDHReply` carrying
    /// host key `k_s` and point `q_s`.
    pub open spec fn reply_ready(&self, k_s: Seq<u8>, q_s: Seq<u8>, our_version: Seq<u8>, their_version: Seq<u8>) -> bool {
        match self {
            Kex::KexDH { algos, our_kexinit, their_kexinit } => algos.is_client && !algos.discard_next
                && q_s.len() == 32 && x25519_point_canonical(q_s)
                && our_version.len() <= MAX_HASH_ITEM && their_version.len() <= MAX_HASH_ITEM
                && our_kexinit@.len() <= MAX_HASH_ITEM && their_kexinit@.len() <= MAX_HASH_ITEM
                && k_s.len() <= MAX_HASH_ITEM,
            _ => false,
        }
    }

    /// The exchange hash the client computes for that `KexDHReply`.
    pub open spec fn spec_reply_hash(&self, k_s: Seq<u8>, q_s: Seq<u8>, our_version: Seq<u8>, their_version: Seq<u8>,
        seed: Seq<u8>) -> Seq<u8> {
        match self {
            Kex::KexDH { our_kexinit, their_kexinit, .. } => sha256_of(spec_role_hash_input(true, our_version,
                their_version, our_kexinit@, their_kexinit@, k_s, x25519_public_of(seed), q_s,
                x25519_shared_of(seed, q_s))),
            _ => Seq::empty(),
        }
    }

    /// Client side: handles the server's `KexDHReply`. The exchange hash is
    /// computed with our secret `seed`, the server's signature over it is
    /// checked with the negotiated signature type (`BadSignature` when it
    /// fails), and `hostkey_ok` is the application's judgement of the server's
    /// host key (`BehaviourError` when it is rejected). Then the state moves
    /// to `NewKeys`.
    pub fn handle_kexdhreply(&mut self, p: &KexDHReply, our_version: &[u8], their_version: &[u8],
        seed: &[u8], hostkey_ok: bool) -> (r: Result<bool, Error>)
        requires
            seed@.len() == 32,
        ensures
            !((*old(self)) is KexDH) ==> r == Err::<bool, Error>(Error::PacketWrong),
            (*old(self) matches Kex::KexDH { algos, .. } && !algos.is_client)
                ==> r == Err::<bool, Error>(Error::Bug),
            (*old(self) matches Kex::KexDH { algos, .. } && algos.is_client && algos.discard_next)
                ==> r == Ok::<bool, Error>(false) && dropped_one(*old(self), *final(self)),
            r == Ok::<bool, Error>(true) ==> (*old(self) matches Kex::KexDH { algos, our_kexinit, their_kexinit } && {
                let k = x25519_shared_of(seed@, p.q_s@);
                let h = sha256_of(spec_role_hash_input(true, our_version@, their_version@,
                    our_kexinit@, their_kexinit@, p.k_s@, x25519_public_of(seed@), p.q_s@, k));
                &&& algos.is_client
                &&& !algos.discard_next
                &&& hostkey_ok
                &&& spec_verify(algos.hostsig, p.k_s@, h, p.sig@) is Ok
                &&& *final(self) matches Kex::NewKeys { algos: a2, h: h2, k: k2 }
                &&& a2 == algos && h2@ == h && k2@ == k
            }),
            old(self).reply_ready(p.k_s@, p.q_s@, our_version@, their_version@) ==> {
                let h = old(self).spec_reply_hash(p.k_s@, p.q_s@, our_version@, their_version@, seed@);
                let hostsig = (*old(self))->KexDH_algos.hostsig;
                &&& spec_verify(hostsig, p.k_s@, h, p.sig@) is Err ==> r == Err::<bool, Error>(Error::BadSignature)
                &&& spec_verify(hostsig, p.k_s@, h, p.sig@) is Ok && !hostkey_ok
                    ==> r == Err::<bool, Error>(Error::BehaviourError)
                &&& spec_verify(hostsig, p.k_s@, h, p.sig@) is Ok && hostkey_ok ==> r == Ok::<bool, Error>(true)
            },
            r is Err ==> *final(self) == *old(self),
    {
        let (hostsig, is_client) = match &*self {
            Kex::KexDH { algos, .. } => (algos.hostsig, algos.is_client),
            _ => return Err(Error::PacketWrong),
        };
        if !is_client {
            return Err(Error::Bug);
        }
        if self.discard_packet() {
            return Ok(false);
        }
        let (h, k) = match self.kexdhreply_hash(p.k_s.as_slice(), p.q_s.as_slice(), our_version, their_version, seed) {
            Ok(x) => x,
            Err(e) => return Err(e),
        };
        let sig_valid = hostsig.verify(p.k_s.as_slice(), h.as_slice(), p.sig.as_slice()).is_ok();
        match self.accept_kexdhreply(h, k, sig_valid, hostkey_ok) {
            Ok(()) => Ok(true),
            Err(e) => Err(e),
        }
    }
}


/// With the same shared secret, exchange hash and session id, a client and
/// a server whose algorithms are mirrored derive, in [`Kex::handle_newkeys`],
/// the same material for each direction: the client's sending IV, key and MAC
/// key are the server's receiving ones, and the other way round.
pub proof fn lemma_newkeys_agree(k: Seq<u8>, h: Seq<u8>, sess_id: Seq<u8>, c: Algos, s: Algos, slot: KeySlot)
    requires
        mirrored(c, s),
    ensures
        spec_slot_key(k, h, sess_id, c, slot) == spec_slot_key(k, h, sess_id, s, mirror(slot)),
{
}

/// A `KexInit` that lists the names of `conf` in both directions.
pub open spec fn announces(k: &KexInit, conf: &AlgoConfig) -> bool {
    &&& k.kex@ == spec_join(names_view(conf.kexs@))
    &&& k.hostsig@ == spec_join(names_view(conf.hostsig@))
    &&& k.cipher_c2s@ == spec_join(names_view(conf.ciphers@))
    &&& k.cipher_s2c@ == spec_join(names_view(conf.ciphers@))
    &&& k.mac_c2s@ == spec_join(names_view(conf.macs@))
    &&& k.mac_s2c@ == spec_join(names_view(conf.macs@))
    &&& k.comp_c2s@ == spec_join(names_view(conf.comps@))
    &&& k.comp_s2c@ == spec_join(names_view(conf.comps@))
}

pub open spec fn conf_listable(conf: &AlgoConfig) -> bool {
    &&& listable(names_view(conf.kexs@))
    &&& listable(names_view(conf.hostsig@))
    &&& listable(names_view(conf.ciphers@))
    &&& listable(names_view(conf.macs@))
    &&& listable(names_view(conf.comps@))
}

/// A client and a server that each negotiate against the other's `KexInit`
/// reach the same outcome: both succeed or both fail, and on success they
/// agree on the method, the host key type, and each direction's cipher and
/// MAC (the client's sending side being the server's receiving side).
#[verifier::rlimit(60)]
pub proof fn lemma_negotiation_agrees(ci: &KexInit, si: &KexInit, cconf: &AlgoConfig, sconf: &AlgoConfig)
    requires
        announces(ci, cconf),
        announces(si, sconf),
        kexinit_lists_valid(ci),
        kexinit_lists_valid(si),
        conf_listable(cconf),
        conf_listable(sconf),
    ensures
        spec_negotiate(true, si, cconf) is Ok <==> spec_negotiate(false, ci, sconf) is Ok,
        spec_negotiate(true, si, cconf) matches Ok(a) ==> {
            let b = spec_negotiate(false, ci, sconf)->Ok_0;
            &&& a.kex == b.kex
            &&& a.hostsig == b.hostsig
            &&& a.cipher_enc == b.cipher_dec
            &&& a.cipher_dec == b.cipher_enc
            &&& a.integ_enc == b.integ_dec
            &&& a.integ_dec == b.integ_enc
        },
{
    lemma_split_join(names_view(cconf.kexs@));
    lemma_split_join(names_view(cconf.hostsig@));
    lemma_split_join(names_view(cconf.ciphers@));
    lemma_split_join(names_view(cconf.macs@));
    lemma_split_join(names_view(cconf.comps@));
    lemma_split_join(names_view(sconf.kexs@));
    lemma_split_join(names_view(sconf.hostsig@));
    lemma_split_join(names_view(sconf.ciphers@));
    lemma_split_join(names_view(sconf.macs@));
    lemma_split_join(names_view(sconf.comps@));
}

} // verus!
