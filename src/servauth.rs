//! Server authentication: the reply to each `UserauthRequest`, given the
//! application's decision on it.

use vstd::prelude::*;
use crate::bytes::to_vec;
use crate::kex::spec_string;
use crate::names::{name_password, name_publickey, spec_password, spec_publickey};
use crate::namelist::{join_names, names_view, spec_join};
use crate::packets::{
    encode_packet, AuthMethod, MethodPubKey, Packet, ParseContext, UserauthFailure,
    UserauthPkOk, UserauthRequest, UserauthSuccess, Userauth60,
};
use crate::sign::{spec_verify, SigType};
use crate::kex::spec_sig_from_name;
use crate::cliauth::{spec_sign_message, spec_unsigned_request};
use crate::packets::packet_ok;
use crate::wire::put_u32;
use crate::bytes::extend;

verus! {

/// The methods a failure names: `publickey` and `password`, each when the
/// application has that method for the user.
pub open spec fn spec_methods(have_pubkey: bool, have_password: bool) -> Seq<Seq<u8>> {
    if have_pubkey && have_password {
        seq![spec_publickey(), spec_password()]
    } else if have_pubkey {
        seq![spec_publickey()]
    } else if have_password {
        seq![spec_password()]
    } else {
        Seq::empty()
    }
}

fn failure(have_pubkey: bool, have_password: bool) -> (r: Packet)
    ensures
        r matches Packet::UserauthFailure(f) && !f.partial
            && f.methods@ == spec_join(spec_methods(have_pubkey, have_password)),
{
    let mut names: Vec<Vec<u8>> = Vec::new();
    if have_pubkey {
        names.push(name_publickey());
    }
    if have_password {
        names.push(name_password());
    }
    assert(names_view(names@) =~= spec_methods(have_pubkey, have_password));
    Packet::UserauthFailure(UserauthFailure { methods: join_names(&names), partial: false })
}

/// The reply to a `UserauthRequest`. `approved` is the application's
/// decision for the request's method: to let the user in without a challenge
/// (`none`), to accept the password, or to accept the public key.
///
/// A public key without a signature that is approved gets `PkOk`; one with a
/// signature succeeds only if it is approved and the signature verifies over
/// the session id and the request. Anything else fails, naming the methods
/// the application has for the user.
pub fn reply(req: &UserauthRequest, sess_id: &[u8], have_pubkey: bool, have_password: bool, approved: bool)
    -> (r: Packet)
    ensures
        match req.method {
            AuthMethod::NoneMethod | AuthMethod::Password(_) => if approved {
                r is UserauthSuccess
            } else {
                r matches Packet::UserauthFailure(f) && f.methods@ == spec_join(spec_methods(have_pubkey, have_password))
            },
            AuthMethod::PubKey(m) => match m.sig {
                None => if approved {
                    r matches Packet::Userauth60(Userauth60::PkOk(ok)) && ok.algo@ == m.sig_algo@ && ok.key@ == m.pubkey@
                } else {
                    r is UserauthFailure
                },
                Some(s) => {
                    &&& (r is UserauthSuccess) == (approved && sess_id@.len() <= u32::MAX
                        && packet_ok(spec_unsigned_request(req.username@, req.service@, m.sig_algo@, m.pubkey@))
                        && spec_sig_from_name(m.sig_algo@) is Some
                        && spec_verify(spec_sig_from_name(m.sig_algo@)->Some_0, m.pubkey@,
                            spec_sign_message(sess_id@, req.username@, req.service@, m.sig_algo@, m.pubkey@), s@) is Ok)
                    &&& !(r is UserauthSuccess) ==> r is UserauthFailure
                },
            },
            AuthMethod::Unknown(_) => r is UserauthFailure,
        },
{
    match &req.method {
        AuthMethod::NoneMethod | AuthMethod::Password(_) => {
            if approved {
                Packet::UserauthSuccess(UserauthSuccess {})
            } else {
                failure(have_pubkey, have_password)
            }
        },
        AuthMethod::PubKey(m) => match &m.sig {
            None => {
                if approved {
                    Packet::Userauth60(Userauth60::PkOk(UserauthPkOk {
                        algo: to_vec(m.sig_algo.as_slice()),
                        key: to_vec(m.pubkey.as_slice()),
                    }))
                } else {
                    failure(have_pubkey, have_password)
                }
            },
            Some(s) => {
                if !approved || sess_id.len() > 0xffff_ffff {
                    return failure(have_pubkey, have_password);
                }
                let t = match SigType::from_name_bytes(m.sig_algo.as_slice()) {
                    Ok(t) => t,
                    Err(_) => return failure(have_pubkey, have_password),
                };
                let unsigned = Packet::UserauthRequest(UserauthRequest {
                    username: to_vec(req.username.as_slice()),
                    service: to_vec(req.service.as_slice()),
                    method: AuthMethod::PubKey(MethodPubKey {
                        sig_algo: to_vec(m.sig_algo.as_slice()),
                        pubkey: to_vec(m.pubkey.as_slice()),
                        sig: None,
                    }),
                });
                let mut msg: Vec<u8> = Vec::new();
                put_u32(&mut msg, sess_id.len() as u32);
                extend(&mut msg, sess_id);
                assert(msg@ =~= spec_string(sess_id@));
                let ctx = ParseContext { cli_auth_type: None, method_pubkey_force_sig_bool: true };
                proof {
                    let v = spec_unsigned_request(req.username@, req.service@, m.sig_algo@, m.pubkey@);
                    assert(unsigned.view_ctx(true).fields =~= v.fields);
                }
                if encode_packet(&unsigned, &ctx, &mut msg).is_err() {
                    return failure(have_pubkey, have_password);
                }
                match t.verify(m.pubkey.as_slice(), msg.as_slice(), s.as_slice()) {
                    Ok(()) => Packet::UserauthSuccess(UserauthSuccess {}),
                    Err(_) => failure(have_pubkey, have_password),
                }
            },
        },
        AuthMethod::Unknown(_) => failure(have_pubkey, have_password),
    }
}

} // verus!
