use sunset::cliauth::{AuthStep, CliAuth};
use sunset::error::{AlgoKind, Error};
use sunset::ident::RemoteVersion;
use sunset::kex::{algo_negotiation, compute_key, letter, make_kexdhinit, AlgoConfig, Cipher, Integ, Kex, KexType, KeySlot};
use sunset::packets::{decode_packet, encode_packet, AuthMethod, AuthType, KexInit, Packet, ParseContext, Userauth60};
use sunset::encrypt::{KeyState, Keys};
use sunset::kex::send_kexdhreply;
use sunset::servauth;
use sunset::sign::{sig_name_for_pubkey, SigType, SignKey};

#[test]
fn test_name_match() {
    KexType::from_name(b"curve25519-sha256").unwrap();
    KexType::from_name(b"curve25519-sha256@libssh.org").unwrap();
    for conf in [AlgoConfig::new(true), AlgoConfig::new(false)] {
        for k in conf.hostsig.iter() {
            SigType::from_name_bytes(k).unwrap();
        }
        for k in conf.ciphers.iter() {
            Cipher::from_name(k).unwrap();
        }
        for k in conf.macs.iter() {
            Integ::from_name(k).unwrap();
        }
    }
    assert_eq!(SigType::from_name("ssh-ed25519"), Ok(SigType::Ed25519));
    assert_eq!(SigType::from_name("rsa-sha2-256"), Ok(SigType::RSA256));
    assert_eq!(SigType::Ed25519.algorithm_name(), b"ssh-ed25519".to_vec());
    assert_eq!(SigType::RSA256.algorithm_name(), b"rsa-sha2-256".to_vec());
}

#[test]
#[should_panic]
fn test_unknown_kex() {
    KexType::from_name(b"bad").unwrap();
}

#[test]
#[should_panic]
fn test_unknown_sig() {
    SigType::from_name("bad").unwrap();
}

#[test]
#[should_panic]
fn test_unknown_cipher() {
    Cipher::from_name(b"bad").unwrap();
}

#[test]
#[should_panic]
fn test_unknown_integ() {
    Integ::from_name(b"bad").unwrap();
}

#[test]
fn test_agree_kex() {
    let _cli_conf = AlgoConfig::new(true);
    let _serv_conf = AlgoConfig::new(false);
    let mut serv_version = RemoteVersion::new();
    assert_eq!(serv_version.consume(b"SSH-2.0-sunset\r\n"), Ok(16));
    let mut cli_version = RemoteVersion::new();
    cli_version.consume(b"SSH-2.0-sunset\r\n").unwrap();
    assert_eq!(cli_version.version().unwrap(), b"SSH-2.0-sunset".to_vec());
}

fn kexinit(kex: &[u8], first_follows: bool) -> KexInit {
    KexInit {
        cookie: vec![7u8; 16],
        kex: kex.to_vec(),
        hostsig: b"ssh-ed25519".to_vec(),
        cipher_c2s: b"aes256-ctr".to_vec(),
        cipher_s2c: b"aes256-ctr".to_vec(),
        mac_c2s: b"hmac-sha2-256".to_vec(),
        mac_s2c: b"hmac-sha2-256".to_vec(),
        comp_c2s: b"none".to_vec(),
        comp_s2c: b"none".to_vec(),
        lang_c2s: vec![],
        lang_s2c: vec![],
        first_follows,
        reserved: 0,
    }
}

#[test]
fn handshake_same_session_id() {
    let mut cli_conf = AlgoConfig::new(true);
    let serv_conf = AlgoConfig::new(false);
    cli_conf.kexs = vec![b"curve25519-sha256".to_vec(), b"kexguess2@matt.ucc.asn.au".to_vec()];
    let mut cli = Kex::new();
    let mut serv = Kex::new();
    let mut cv = RemoteVersion::new();
    cv.consume(b"SSH-2.0-test\r\n").unwrap();
    let version = cv.version().unwrap();

    let ci = cli.send_kexinit(&[1u8; 16], &cli_conf).unwrap();
    // our lists as sent on the wire
    assert_eq!(ci.kex, b"curve25519-sha256,kexguess2@matt.ucc.asn.au".to_vec());
    assert_eq!(ci.hostsig, b"ssh-ed25519".to_vec());
    let default_kexs = Kex::make_kexinit(&[0u8; 16], &AlgoConfig::new(true)).kex;
    assert_eq!(default_kexs, b"curve25519-sha256,curve25519-sha256@libssh.org,ext-info-c,kexguess2@matt.ucc.asn.au".to_vec());
    let si = serv.handle_kexinit(ci, false, &serv_conf, &[2u8; 16]).unwrap().unwrap();
    assert!(cli.handle_kexinit(si, true, &cli_conf, &[9u8; 16]).unwrap().is_none());

    let seed_c = [3u8; 32];
    let seed_s = [4u8; 32];
    let dhinit = make_kexdhinit(&seed_c).unwrap();
    let hostkey = SignKey::from_seed(&[8u8; 32]).unwrap();
    let host_key = hostkey.pubkey();
    let out = serv.handle_kexdhinit(&dhinit.q_c, &version, &version, &host_key, &seed_s).unwrap().unwrap();
    let (h, _k) = cli.kexdhreply_hash(&host_key, &out.q_s, &version, &version, &seed_c).unwrap();
    assert_eq!(h, out.h);
    assert_eq!(h.len(), 32);

    let mut reply = send_kexdhreply(&out, &hostkey);
    // a bad signature is refused and leaves the state as it was
    let good_sig = reply.sig.clone();
    let last = reply.sig.len() - 1;
    reply.sig[last] ^= 1;
    assert_eq!(cli.handle_kexdhreply(&reply, &version, &version, &seed_c, true), Err(Error::BadSignature));
    reply.sig = good_sig;
    // so is a host key the application rejects
    assert_eq!(cli.handle_kexdhreply(&reply, &version, &version, &seed_c, false), Err(Error::BehaviourError));
    assert_eq!(cli.handle_kexdhreply(&reply, &version, &version, &seed_c, true), Ok(true));
    let mut cli_sid = None;
    let mut serv_sid = None;
    let ck = cli.handle_newkeys(&mut cli_sid).unwrap();
    let sk = serv.handle_newkeys(&mut serv_sid).unwrap();
    assert_eq!(cli_sid, serv_sid);
    assert_eq!(cli_sid.as_ref().unwrap().len(), 32);
    assert_eq!(ck.key_enc, sk.key_dec);
    assert_eq!(ck.key_dec, sk.key_enc);
    assert_eq!(ck.iv_enc, sk.iv_dec);
    assert_eq!(ck.iv_dec, sk.iv_enc);
    assert_eq!(ck.integ_enc, sk.integ_dec);
    assert_eq!(ck.integ_dec, sk.integ_enc);
    // chacha20-poly1305 is first in both lists: a 64-byte key, no IV or MAC key
    assert_eq!(ck.key_enc.len(), 64);
    assert_eq!(ck.iv_enc.len(), 0);
    assert_eq!(ck.integ_enc.len(), 0);
    assert_ne!(ck.key_enc, ck.key_dec);
    assert!(matches!(cli, Kex::Idle));

    // a packet from the client reaches the server intact
    let algos_c = sunset::kex::algo_negotiation(true, &Kex::make_kexinit(&[2u8; 16], &serv_conf), &cli_conf).unwrap();
    let algos_s = sunset::kex::algo_negotiation(false, &Kex::make_kexinit(&[1u8; 16], &cli_conf), &serv_conf).unwrap();
    let mut cks = KeyState::new_cleartext();
    cks.rekey(Keys::from_material(ck, &algos_c).unwrap());
    let mut sks = KeyState::new_cleartext();
    sks.rekey(Keys::from_material(sk, &algos_s).unwrap());
    let mut wire = vec![];
    cks.encrypt(b"ping", &[0u8; 35], &mut wire).unwrap();
    let (plain, n) = sks.decrypt(&wire).unwrap();
    assert_eq!(&plain[5..5 + n], b"ping");
}

#[test]
fn guessed_wrong_kex_discard() {
    let serv_conf = AlgoConfig::new(false);
    let mut serv = Kex::new();
    // the client guessed a method that is not the negotiated one
    let ci = kexinit(b"diffie-hellman-group14-sha256,curve25519-sha256", true);
    serv.handle_kexinit(ci, false, &serv_conf, &[2u8; 16]).unwrap();
    match &serv {
        Kex::KexDH { algos, .. } => assert!(algos.discard_next),
        _ => panic!("not in KexDH"),
    }
    // the guessed KexDHInit is dropped silently, the next one is processed
    let q_c = make_kexdhinit(&[5u8; 32]).unwrap().q_c;
    assert!(serv.handle_kexdhinit(&q_c, b"SSH-2.0-a", b"SSH-2.0-b", b"key", &[6u8; 32]).unwrap().is_none());
    match &serv {
        Kex::KexDH { algos, .. } => assert!(!algos.discard_next),
        _ => panic!("not in KexDH"),
    }
    let out = serv.handle_kexdhinit(&q_c, b"SSH-2.0-a", b"SSH-2.0-b", b"key", &[6u8; 32]).unwrap().unwrap();
    assert_eq!(out.h.len(), 32);
    assert!(matches!(serv, Kex::NewKeys { .. }));
}

#[test]
fn right_guess_not_discarded() {
    let serv_conf = AlgoConfig::new(false);
    let ci = kexinit(b"curve25519-sha256", true);
    let a = algo_negotiation(false, &ci, &serv_conf).unwrap();
    assert!(!a.discard_next);
    assert_eq!(a.cipher_enc, Cipher::Aes256Ctr);
    assert_eq!(a.integ_enc, Integ::HmacSha256);
    assert_eq!(a.hostsig, SigType::Ed25519);
}

#[test]
fn negotiation_errors() {
    let conf = AlgoConfig::new(false);
    let ci = kexinit(b"diffie-hellman-group1-sha1", false);
    assert_eq!(algo_negotiation(false, &ci, &conf), Err(Error::AlgoNoMatch { algo: AlgoKind::Kex }));
    // a marker name alone may not be negotiated
    let ci = kexinit(b"kexguess2@matt.ucc.asn.au", false);
    assert_eq!(algo_negotiation(false, &ci, &conf), Err(Error::AlgoNoMatch { algo: AlgoKind::Kex }));
    let mut ci = kexinit(b"curve25519-sha256", false);
    ci.hostsig = b"ssh-dss".to_vec();
    assert_eq!(algo_negotiation(false, &ci, &conf), Err(Error::AlgoNoMatch { algo: AlgoKind::HostKey }));
    let mut ci = kexinit(b"curve25519-sha256", false);
    ci.cipher_c2s = b"3des-cbc".to_vec();
    assert_eq!(algo_negotiation(false, &ci, &conf), Err(Error::AlgoNoMatch { algo: AlgoKind::Encryption }));
    let mut ci = kexinit(b"curve25519-sha256", false);
    ci.mac_s2c = b"hmac-md5".to_vec();
    assert_eq!(algo_negotiation(false, &ci, &conf), Err(Error::AlgoNoMatch { algo: AlgoKind::Mac }));
    let mut ci = kexinit(b"curve25519-sha256", false);
    ci.comp_c2s = b"zlib".to_vec();
    assert_eq!(algo_negotiation(false, &ci, &conf), Err(Error::AlgoNoMatch { algo: AlgoKind::Compression }));
}

#[test]
fn client_prefers_own_order() {
    let mut conf = AlgoConfig::new(true);
    conf.ciphers = vec![b"chacha20-poly1305@openssh.com".to_vec(), b"aes256-ctr".to_vec()];
    let mut si = kexinit(b"curve25519-sha256", false);
    si.cipher_s2c = b"aes256-ctr,chacha20-poly1305@openssh.com".to_vec();
    let a = algo_negotiation(true, &si, &conf).unwrap();
    // the client's list puts chacha first
    assert_eq!(a.cipher_dec, Cipher::ChaPoly);
    assert_eq!(a.integ_dec, Integ::ChaPoly);
    assert_eq!(a.cipher_enc, Cipher::Aes256Ctr);
    let mut serv = AlgoConfig::new(false);
    serv.ciphers = vec![b"chacha20-poly1305@openssh.com".to_vec(), b"aes256-ctr".to_vec()];
    let mut ci = kexinit(b"curve25519-sha256,ext-info-c", false);
    ci.cipher_c2s = b"aes256-ctr,chacha20-poly1305@openssh.com".to_vec();
    let b = algo_negotiation(false, &ci, &serv).unwrap();
    assert_eq!(b.cipher_dec, Cipher::Aes256Ctr);
    assert!(b.send_ext_info);
}

#[test]
fn key_derivation_lengths() {
    let k = b"hello";
    let h = [1u8; 32];
    let sid = [2u8; 32];
    let a = compute_key(k, &h, letter(true, KeySlot::KeyEnc), &sid, 64);
    assert_eq!(a.len(), 64);
    let b = compute_key(k, &h, letter(false, KeySlot::KeyDec), &sid, 64);
    assert_eq!(a, b);
    let c = compute_key(k, &h, letter(true, KeySlot::KeyEnc), &sid, 16);
    assert_eq!(&a[..16], &c[..]);
    assert_eq!(letter(true, KeySlot::IvEnc), b'A');
    assert_eq!(letter(false, KeySlot::IvEnc), b'B');
    assert_eq!(letter(true, KeySlot::IntegDec), b'F');
}

#[test]
fn none_pubkey_success() {
    let mut auth = CliAuth::new();
    let mut ctx = ParseContext::new();
    let first = auth.progress(b"matt");
    assert_eq!(first.len(), 2);
    assert!(matches!(&first[1], Packet::UserauthRequest(u) if matches!(u.method, AuthMethod::NoneMethod)));
    assert!(auth.progress(b"matt").is_empty());

    let step = auth.failure(b"publickey,password", &mut ctx).unwrap();
    assert!(matches!(step, AuthStep::NeedKey));
    let blob = b"\x00\x00\x00\x0bssh-ed25519\x00\x00\x00\x20ABCDEFGHIJKLMNOPQRSTUVWXYZ012345".to_vec();
    let step = auth
        .key_result(Some(blob.clone()), b"publickey,password", &mut ctx)
        .unwrap();
    let probe = match step {
        AuthStep::Send(p) => p,
        _ => panic!("expected a probe"),
    };
    match &probe {
        Packet::UserauthRequest(u) => match &u.method {
            AuthMethod::PubKey(m) => assert!(m.sig.is_none()),
            _ => panic!("not pubkey"),
        },
        _ => panic!("not a request"),
    }
    assert_eq!(ctx.cli_auth_type, Some(AuthType::PubKey));

    // the server's PkOk, as received
    let mut wire = vec![60u8];
    wire.extend_from_slice(&(11u32).to_be_bytes());
    wire.extend_from_slice(b"ssh-ed25519");
    wire.extend_from_slice(&(blob.len() as u32).to_be_bytes());
    wire.extend_from_slice(&blob);
    let pkok = match decode_packet(&wire, &ctx).unwrap() {
        Packet::Userauth60(Userauth60::PkOk(p)) => p,
        _ => panic!("expected PkOk"),
    };
    let sess_id = [9u8; 32];
    let msg = auth.auth_pkok(&pkok, &sess_id, &mut ctx).unwrap();
    assert_eq!(&msg[..4], &[0, 0, 0, 32]);
    assert_eq!(msg[36], 50);
    let signed = auth.signed(b"signature".to_vec());
    let mut out = vec![];
    encode_packet(&signed, &ParseContext::new(), &mut out).unwrap();
    let mut actx = ParseContext::new();
    actx.cli_auth_type = None;
    match decode_packet(&out, &actx).unwrap() {
        Packet::UserauthRequest(u) => match u.method {
            AuthMethod::PubKey(m) => assert_eq!(m.sig, Some(b"signature".to_vec())),
            _ => panic!("not pubkey"),
        },
        _ => panic!("not a request"),
    }
    let p = auth.success();
    assert!(matches!(p, Packet::ServiceRequest(_)));
    assert!(auth.authenticated);
}

#[test]
fn pkok_for_other_key_refused() {
    let mut auth = CliAuth::new();
    let mut ctx = ParseContext::new();
    auth.progress(b"matt");
    auth.failure(b"publickey", &mut ctx).unwrap();
    let one = b"\x00\x00\x00\x0bssh-ed25519\x00\x00\x00\x03one".to_vec();
    let two = b"\x00\x00\x00\x0bssh-ed25519\x00\x00\x00\x03two".to_vec();
    // a key of an unknown type is refused and changes nothing
    let dss = b"\x00\x00\x00\x07ssh-dss\x00\x00\x00\x01x".to_vec();
    assert_eq!(auth.key_result(Some(dss), b"publickey", &mut ctx).unwrap_err(), Error::UnknownMethod);
    match auth.key_result(Some(one), b"publickey", &mut ctx).unwrap() {
        AuthStep::Send(Packet::UserauthRequest(u)) => match u.method {
            AuthMethod::PubKey(m) => assert_eq!(m.sig_algo, b"ssh-ed25519".to_vec()),
            _ => panic!("not pubkey"),
        },
        _ => panic!("expected a probe"),
    }
    let pkok = sunset::packets::UserauthPkOk { algo: b"ssh-ed25519".to_vec(), key: two };
    assert_eq!(auth.auth_pkok(&pkok, &[0u8; 32], &mut ctx), Err(Error::SSHProtoError));
}

#[test]
fn auth_falls_back_to_password() {
    let mut auth = CliAuth::new();
    let mut ctx = ParseContext::new();
    auth.progress(b"matt");
    assert!(matches!(auth.failure(b"publickey,password", &mut ctx), Ok(AuthStep::NeedKey)));
    assert!(matches!(auth.key_result(None, b"publickey,password", &mut ctx), Ok(AuthStep::NeedPassword)));
    assert!(matches!(auth.password_result(Some(b"pw".to_vec()), &mut ctx), Ok(AuthStep::Send(_))));
    assert_eq!(ctx.cli_auth_type, Some(AuthType::Password));
    assert!(matches!(auth.failure(b"publickey,password", &mut ctx), Ok(AuthStep::NeedPassword)));
    assert_eq!(auth.password_result(None, &mut ctx).unwrap_err(), Error::BehaviourError);
    assert_eq!(auth.failure(b"publickey,password", &mut ctx).unwrap_err(), Error::BehaviourError);
}

#[test]
fn ed25519_sign_verify() {
    let key = SignKey::from_seed(&[1u8; 32]).unwrap();
    let pk = key.pubkey();
    assert_eq!(pk.len(), 4 + 11 + 4 + 32);
    let sig = key.sign(b"message");
    assert_eq!(sig.len(), 4 + 11 + 4 + 64);
    assert_eq!(SigType::Ed25519.verify(&pk, b"message", &sig), Ok(()));
    assert_eq!(SigType::Ed25519.verify(&pk, b"massage", &sig), Err(Error::BadSignature));
    assert_eq!(SigType::RSA256.verify(&pk, b"message", &sig), Err(Error::BadSignature));
    let mut odd = sig.clone();
    odd[7] = b'X';
    assert_eq!(SigType::Ed25519.verify(&pk, b"message", &odd), Err(Error::UnknownMethod));
    assert_eq!(SigType::Ed25519.verify(&pk, b"message", &sig[..10]), Err(Error::BadSignature));
    assert_eq!(SignKey::from_seed(&[1u8; 31]).unwrap_err(), Error::BadKex);
    assert_eq!(sig_name_for_pubkey(&pk), Ok(b"ssh-ed25519".to_vec()));
    let mut rsa = vec![0, 0, 0, 7];
    rsa.extend_from_slice(b"ssh-rsa");
    assert_eq!(sig_name_for_pubkey(&rsa), Ok(b"rsa-sha2-256".to_vec()));
    assert_eq!(sig_name_for_pubkey(b"\x00\x00\x00\x03dss"), Err(Error::UnknownMethod));
    assert_eq!(sig_name_for_pubkey(b"\x00\x00"), Err(Error::BadSignature));
}

#[test]
fn none_pubkey_success_end_to_end() {
    let key = SignKey::from_seed(&[5u8; 32]).unwrap();
    let sess_id = [3u8; 32];
    let mut auth = CliAuth::new();
    let mut ctx = ParseContext::new();
    let first = auth.progress(b"matt");
    // the server answers the none probe with its methods
    let none_req = match &first[1] {
        Packet::UserauthRequest(u) => u,
        _ => panic!("expected the none probe"),
    };
    let fail = servauth::reply(none_req, &sess_id, true, true, false);
    let methods = match &fail {
        Packet::UserauthFailure(f) => f.methods.clone(),
        _ => panic!("expected failure"),
    };
    assert_eq!(methods, b"publickey,password".to_vec());
    assert!(matches!(auth.failure(&methods, &mut ctx), Ok(AuthStep::NeedKey)));
    let probe = match auth
        .key_result(Some(key.pubkey()), &methods, &mut ctx)
        .unwrap()
    {
        AuthStep::Send(Packet::UserauthRequest(u)) => u,
        _ => panic!("expected a probe"),
    };
    let pkok = match servauth::reply(&probe, &sess_id, true, true, true) {
        Packet::Userauth60(p) => p,
        _ => panic!("expected PkOk"),
    };
    // over the wire and back, decoded as PkOk because a key was probed
    let mut wire = vec![];
    encode_packet(&Packet::Userauth60(pkok), &ParseContext::new(), &mut wire).unwrap();
    let pkok = match decode_packet(&wire, &ctx).unwrap() {
        Packet::Userauth60(Userauth60::PkOk(p)) => p,
        _ => panic!("expected PkOk"),
    };
    let msg = auth.auth_pkok(&pkok, &sess_id, &mut ctx).unwrap();
    let signed = match auth.signed(key.sign(&msg)) {
        Packet::UserauthRequest(u) => u,
        _ => panic!("expected a request"),
    };
    assert!(matches!(servauth::reply(&signed, &sess_id, true, true, true), Packet::UserauthSuccess(_)));
    // the same signature under another session id fails
    assert!(matches!(servauth::reply(&signed, &[4u8; 32], true, true, true), Packet::UserauthFailure(_)));
    // and so does one the application does not approve
    assert!(matches!(servauth::reply(&signed, &sess_id, true, true, false), Packet::UserauthFailure(_)));
    assert!(matches!(auth.success(), Packet::ServiceRequest(_)));
    assert!(auth.authenticated);
}

#[test]
fn second_kexinit_refused() {
    let serv_conf = AlgoConfig::new(false);
    let mut serv = Kex::new();
    serv.handle_kexinit(kexinit(b"curve25519-sha256", false), false, &serv_conf, &[2u8; 16]).unwrap();
    let again = serv.handle_kexinit(kexinit(b"curve25519-sha256", false), false, &serv_conf, &[2u8; 16]);
    assert_eq!(again.unwrap_err(), Error::PacketWrong);
    assert!(matches!(serv, Kex::KexDH { .. }));
}

#[test]
fn malformed_namelists_refused() {
    let conf = AlgoConfig::new(false);
    let ci = kexinit(b"curve25519-sha256,curve25519-sha256", false);
    assert_eq!(algo_negotiation(false, &ci, &conf), Err(Error::BadName));
    let ci = kexinit(b"curve25519 sha256", false);
    assert_eq!(algo_negotiation(false, &ci, &conf), Err(Error::BadName));
    let mut auth = CliAuth::new();
    let mut ctx = ParseContext::new();
    auth.progress(b"matt");
    assert_eq!(auth.failure(b"password,password", &mut ctx).unwrap_err(), Error::BadName);
}
