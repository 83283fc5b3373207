//! Signature algorithm selection.

use vstd::prelude::*;
use vstd::string::StringSliceAdditionalSpecFns;
use crate::bytes::{bytes_eq, extend};
use crate::crypto::{ed25519_public, ed25519_public_of, ed25519_sign, ed25519_signature_of, ed25519_valid, ed25519_verify};
use crate::kex::spec_string;
use crate::packets::s_str;
use crate::wire::{get_fields, get_str_field, lemma_parse_kinds, parse_fields, put_u32, Kind};
use crate::error::Error;
use crate::names::{name_ed25519, name_rsa, name_rsa_sha256, spec_ed25519, spec_rsa, spec_rsa_sha256};

verus! {

#[derive(Debug, Clone, Copy, PartialEq, Eq, Structural)]
pub enum SigType {
    Ed25519,
    RSA256,
}

impl SigType {
    /// The wire name of a signature type.
    pub open spec fn spec_name(self) -> Seq<u8> {
        match self {
            SigType::Ed25519 => spec_ed25519(),
            SigType::RSA256 => spec_rsa_sha256(),
        }
    }

    /// Selects a signature type by its algorithm name. Callers pass only names
    /// they have negotiated, so an unknown name is an internal error.
    pub fn from_name(name: &str) -> (r: Result<SigType, Error>)
        ensures
            name.spec_bytes() == spec_ed25519() <==> r == Ok::<SigType, Error>(SigType::Ed25519),
            name.spec_bytes() == spec_rsa_sha256() <==> r == Ok::<SigType, Error>(SigType::RSA256),
            r is Err <==> (name.spec_bytes() != spec_ed25519() && name.spec_bytes() != spec_rsa_sha256()),
            r is Err ==> r == Err::<SigType, Error>(Error::Bug),
    {
        SigType::from_name_bytes(name.as_bytes())
    }

    /// As [`SigType::from_name`], on the raw bytes of a name.
    pub fn from_name_bytes(name: &[u8]) -> (r: Result<SigType, Error>)
        ensures
            r matches Ok(t) ==> t.spec_name() == name@,
            r is Err <==> (name@ != spec_ed25519() && name@ != spec_rsa_sha256()),
            r is Err ==> r == Err::<SigType, Error>(Error::Bug),
    {
        let ed = name_ed25519();
        let rsa = name_rsa_sha256();
        proof {
            assert(spec_ed25519() != spec_rsa_sha256()) by {
                assert(spec_ed25519()[0] != spec_rsa_sha256()[0]);
            }
        }
        if bytes_eq(name, ed.as_slice()) {
            Ok(SigType::Ed25519)
        } else if bytes_eq(name, rsa.as_slice()) {
            Ok(SigType::RSA256)
        } else {
            Err(Error::Bug)
        }
    }

    /// The wire name of this signature type.
    pub fn algorithm_name(&self) -> (r: Vec<u8>)
        ensures
            r@ == self.spec_name(),
    {
        match self {
            SigType::Ed25519 => name_ed25519(),
            SigType::RSA256 => name_rsa_sha256(),
        }
    }
}


/// An encoded key or signature blob: an algorithm name and its data.
pub open spec fn spec_blob(name: Seq<u8>, data: Seq<u8>) -> Seq<u8> {
    spec_string(name) + spec_string(data)
}

/// Checking a signature blob `sig` over `msg` against public key blob `pk`,
/// expecting signature type `t`. A malformed blob or a wrong signature is
/// `BadSignature`; an unknown signature name is `UnknownMethod`. RSA is not
/// supported and always fails.
pub open spec fn spec_verify(t: SigType, pk: Seq<u8>, msg: Seq<u8>, sig: Seq<u8>) -> Result<(), Error> {
    match parse_fields(seq![Kind::Str, Kind::Str], sig) {
        Err(_) => Err(Error::BadSignature),
        Ok((sf, _)) => {
            let sname = s_str(sf[0]);
            if sname != spec_ed25519() && sname != spec_rsa_sha256() {
                Err(Error::UnknownMethod)
            } else if sname != t.spec_name() {
                Err(Error::BadSignature)
            } else if t is RSA256 {
                Err(Error::BadSignature)
            } else {
                match parse_fields(seq![Kind::Str, Kind::Str], pk) {
                    Err(_) => Err(Error::BadSignature),
                    Ok((pf, _)) => if s_str(pf[0]) != spec_ed25519() {
                        Err(Error::BadSignature)
                    } else if ed25519_valid(s_str(pf[1]), msg, s_str(sf[1])) {
                        Ok(())
                    } else {
                        Err(Error::BadSignature)
                    },
                }
            }
        },
    }
}

fn two_strings(s: &[u8]) -> (r: Result<(Vec<u8>, Vec<u8>), Error>)
    ensures
        match parse_fields(seq![Kind::Str, Kind::Str], s@) {
            Ok((f, _)) => r matches Ok((a, b)) && a@ == s_str(f[0]) && b@ == s_str(f[1]),
            Err(e) => r is Err,
        },
{
    let schema = vec![Kind::Str, Kind::Str];
    assert(schema@ =~= seq![Kind::Str, Kind::Str]);
    assert(s@.skip(0) =~= s@);
    match get_fields(schema.as_slice(), s, 0) {
        Ok((f, _)) => {
            proof { lemma_parse_kinds(schema@, s@); }
            let a = get_str_field(&f, 0);
            let b = get_str_field(&f, 1);
            Ok((a, b))
        },
        Err(e) => Err(e),
    }
}

impl SigType {
    /// Verifies signature blob `sig` over `message` by public key blob
    /// `pubkey`, where `self` is the signature type the protocol expects.
    pub fn verify(&self, pubkey: &[u8], message: &[u8], sig: &[u8]) -> (r: Result<(), Error>)
        ensures
            r == spec_verify(*self, pubkey@, message@, sig@),
    {
        let (sname, sdata) = match two_strings(sig) {
            Ok(x) => x,
            Err(_) => return Err(Error::BadSignature),
        };
        let sig_type = match SigType::from_name_bytes(sname.as_slice()) {
            Ok(t) => t,
            Err(_) => return Err(Error::UnknownMethod),
        };
        if sig_type != *self {
            return Err(Error::BadSignature);
        }
        if sig_type == SigType::RSA256 {
            return Err(Error::BadSignature);
        }
        let (kname, kdata) = match two_strings(pubkey) {
            Ok(x) => x,
            Err(_) => return Err(Error::BadSignature),
        };
        if !bytes_eq(kname.as_slice(), name_ed25519().as_slice()) {
            return Err(Error::BadSignature);
        }
        if ed25519_verify(kdata.as_slice(), message, sdata.as_slice()) {
            Ok(())
        } else {
            Err(Error::BadSignature)
        }
    }
}

fn put_blob(out: &mut Vec<u8>, name: &[u8], data: &[u8])
    requires
        name@.len() <= u32::MAX,
        data@.len() <= u32::MAX,
    ensures
        final(out)@ == old(out)@ + spec_blob(name@, data@),
{
    put_u32(out, name.len() as u32);
    extend(out, name);
    put_u32(out, data.len() as u32);
    extend(out, data);
    assert(final(out)@ =~= old(out)@ + spec_blob(name@, data@));
}

/// An Ed25519 signing key held as its 32-byte seed.
#[derive(Debug)]
pub struct SignKey {
    seed: Vec<u8>,
}

impl SignKey {
    pub closed spec fn spec_seed(&self) -> Seq<u8> {
        self.seed@
    }

    /// A key from a 32-byte seed; any other length is refused.
    pub fn from_seed(seed: &[u8]) -> (r: Result<SignKey, Error>)
        ensures
            seed@.len() == 32 ==> (r matches Ok(k) && k.spec_seed() == seed@),
            seed@.len() != 32 ==> r == Err::<SignKey, Error>(Error::BadKex),
    {
        if seed.len() != 32 {
            return Err(Error::BadKex);
        }
        Ok(SignKey { seed: crate::bytes::to_vec(seed) })
    }

    /// The public key blob: `ssh-ed25519` and the 32-byte public key.
    pub fn pubkey(&self) -> (r: Vec<u8>)
        requires
            self.spec_seed().len() == 32,
        ensures
            r@ == spec_blob(spec_ed25519(), ed25519_public_of(self.spec_seed())),
    {
        let k = ed25519_public(self.seed.as_slice());
        let mut out: Vec<u8> = Vec::new();
        put_blob(&mut out, name_ed25519().as_slice(), k.as_slice());
        out
    }

    /// The signature blob of `msg`: `ssh-ed25519` and the 64-byte signature.
    pub fn sign(&self, msg: &[u8]) -> (r: Vec<u8>)
        requires
            self.spec_seed().len() == 32,
        ensures
            r@ == spec_blob(spec_ed25519(), ed25519_signature_of(self.spec_seed(), msg@)),
    {
        let s = ed25519_sign(self.seed.as_slice(), msg);
        let mut out: Vec<u8> = Vec::new();
        put_blob(&mut out, name_ed25519().as_slice(), s.as_slice());
        out
    }
}


/// The signature algorithm to use with a public key blob: `ssh-ed25519` for
/// an Ed25519 key, `rsa-sha2-256` for an RSA key; another key type is
/// `UnknownMethod`, a malformed blob `BadSignature`.
pub open spec fn spec_sig_name_for_pubkey(pk: Seq<u8>) -> Result<Seq<u8>, Error> {
    match parse_fields(seq![Kind::Str], pk) {
        Err(_) => Err(Error::BadSignature),
        Ok((f, _)) => if s_str(f[0]) == spec_ed25519() {
            Ok(spec_ed25519())
        } else if s_str(f[0]) == spec_rsa() {
            Ok(spec_rsa_sha256())
        } else {
            Err(Error::UnknownMethod)
        },
    }
}

pub fn sig_name_for_pubkey(pk: &[u8]) -> (r: Result<Vec<u8>, Error>)
    ensures
        match spec_sig_name_for_pubkey(pk@) {
            Ok(n) => r matches Ok(v) && v@ == n,
            Err(e) => r == Err::<Vec<u8>, Error>(e),
        },
{
    let schema = vec![Kind::Str];
    assert(schema@ =~= seq![Kind::Str]);
    assert(pk@.skip(0) =~= pk@);
    let f = match get_fields(schema.as_slice(), pk, 0) {
        Ok((f, _)) => f,
        Err(_) => return Err(Error::BadSignature),
    };
    proof { lemma_parse_kinds(schema@, pk@); }
    let name = get_str_field(&f, 0);
    if bytes_eq(name.as_slice(), name_ed25519().as_slice()) {
        Ok(name_ed25519())
    } else if bytes_eq(name.as_slice(), name_rsa().as_slice()) {
        Ok(name_rsa_sha256())
    } else {
        Err(Error::UnknownMethod)
    }
}

} // verus!
