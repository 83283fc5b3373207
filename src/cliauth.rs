//! Client authentication: the `none` probe, then public keys, then a
//! password, as the server's method list and the application allow.
//!
//! The application's answers (the next key, a password, a signature) are
//! handed in by the caller: each step says what it needs next.

use vstd::prelude::*;
use crate::bytes::to_vec;
use crate::error::Error;
use crate::kex::spec_string;
use crate::sign::{sig_name_for_pubkey, spec_sig_name_for_pubkey};
use crate::namelist::{check_namelist, has_algo, spec_names, valid_namelist};
use crate::names::{
    name_password, name_publickey, name_rsa_sha256, name_service_connection, name_service_userauth,
    spec_password, spec_publickey, spec_rsa_sha256, spec_service_connection, spec_service_userauth,
};
use crate::packets::{
    encode_packet, spec_enc_packet, AuthMethod, AuthType, MethodPassword, MethodPubKey, Packet,
    packet_ok, PacketV, ParseContext, ServiceRequest, Shape, UserauthPkOk, UserauthRequest,
};
use crate::wire::FieldV;
use crate::wire::put_u32;
use crate::bytes::extend;

verus! {

/// The request a public key signature covers: a `publickey` request with the
/// signature flag set and no signature.
pub open spec fn spec_unsigned_request(user: Seq<u8>, service: Seq<u8>, sig_algo: Seq<u8>, pubkey: Seq<u8>) -> PacketV {
    PacketV {
        num: 50,
        fields: seq![FieldV::Str(user), FieldV::Str(service),
            FieldV::Str(spec_publickey()), FieldV::Bool(true), FieldV::Str(sig_algo), FieldV::Str(pubkey)],
        shape: Shape::Known,
    }
}

/// The message signed for public key authentication (RFC 4252 section 7):
/// the session id as a string, then the unsigned request.
pub open spec fn spec_sign_message(sess_id: Seq<u8>, user: Seq<u8>, service: Seq<u8>, sig_algo: Seq<u8>, pubkey: Seq<u8>) -> Seq<u8> {
    spec_string(sess_id) + spec_enc_packet(spec_unsigned_request(user, service, sig_algo, pubkey))
}

#[derive(Debug, Clone, Copy, PartialEq, Eq, Structural)]
pub enum AuthState {
    Unstarted,
    /// The `none` probe is sent.
    MethodQuery,
    /// A request of this type is sent and unanswered.
    Request { last: AuthType },
    Idle,
}

/// What the client needs or does next.
#[derive(Debug)]
pub enum AuthStep {
    /// Send this packet.
    Send(Packet),
    /// Ask the application for its next key.
    NeedKey,
    /// Ask the application for a password.
    NeedPassword,
}

#[derive(Debug)]
pub struct CliAuth {
    pub state: AuthState,
    pub username: Vec<u8>,
    /// Cleared when the application has no password to give.
    pub try_password: bool,
    /// Cleared when the application has no more keys.
    pub try_pubkey: bool,
    /// Set once the server's `ext-info` lists `rsa-sha2-256`.
    pub allow_rsa_sha2: bool,
    /// The signature algorithm and public key blob last probed.
    pub sig_algo: Vec<u8>,
    pub pubkey: Vec<u8>,
    pub authenticated: bool,
}

impl CliAuth {
    pub fn new() -> (r: CliAuth)
        ensures
            r.state == AuthState::Unstarted,
            r.try_password && r.try_pubkey && !r.allow_rsa_sha2 && !r.authenticated,
    {
        CliAuth {
            state: AuthState::Unstarted,
            username: Vec::new(),
            try_password: true,
            try_pubkey: true,
            allow_rsa_sha2: false,
            sig_algo: Vec::new(),
            pubkey: Vec::new(),
            authenticated: false,
        }
    }

    /// Starts authentication on the first call: asks for the `ssh-userauth`
    /// service and sends the `none` probe for `username`. Later calls send nothing.
    pub fn progress(&mut self, username: &[u8]) -> (r: Vec<Packet>)
        ensures
            old(self).state == AuthState::Unstarted ==> {
                &&& final(self).state == AuthState::MethodQuery
                &&& final(self).username@ == username@
                &&& r@.len() == 2
                &&& r@[0] matches Packet::ServiceRequest(s) && s.name@ == spec_service_userauth()
                &&& r@[1] matches Packet::UserauthRequest(u) && u.username@ == username@
                    && u.service@ == spec_service_connection() && u.method is NoneMethod
            },
            old(self).state != AuthState::Unstarted ==> r@.len() == 0 && *final(self) == *old(self),
    {
        let mut out: Vec<Packet> = Vec::new();
        if self.state == AuthState::Unstarted {
            self.state = AuthState::MethodQuery;
            self.username = to_vec(username);
            out.push(Packet::ServiceRequest(ServiceRequest { name: name_service_userauth() }));
            out.push(Packet::UserauthRequest(UserauthRequest {
                username: to_vec(username),
                service: name_service_connection(),
                method: AuthMethod::NoneMethod,
            }));
        }
        out
    }

    /// The server refused (or asked for more); `methods` is its list of
    /// methods that can continue, refused with `BadName` when malformed. Public keys are tried first while the
    /// application has keys, then a password. With nothing left to try,
    /// authentication fails.
    pub fn failure(&mut self, methods: &[u8], ctx: &mut ParseContext) -> (r: Result<AuthStep, Error>)
        ensures
            final(ctx).cli_auth_type is None,
            final(ctx).method_pubkey_force_sig_bool == old(ctx).method_pubkey_force_sig_bool,
            final(self).state == AuthState::Idle,
            final(self).try_pubkey == old(self).try_pubkey,
            final(self).try_password == old(self).try_password,
            final(self).username == old(self).username,
            !valid_namelist(methods@) ==> r == Err::<AuthStep, Error>(Error::BadName),
            valid_namelist(methods@) ==> ({
                let names = spec_names(methods@);
                if old(self).try_pubkey && names.contains(spec_publickey()) {
                    r matches Ok(AuthStep::NeedKey)
                } else if old(self).try_password && names.contains(spec_password()) {
                    r matches Ok(AuthStep::NeedPassword)
                } else {
                    r == Err::<AuthStep, Error>(Error::BehaviourError)
                }
            }),
    {
        ctx.cli_auth_type = None;
        self.state = AuthState::Idle;
        if check_namelist(methods).is_err() {
            return Err(Error::BadName);
        }
        if self.try_pubkey && has_algo(methods, name_publickey().as_slice()) {
            Ok(AuthStep::NeedKey)
        } else if self.try_password && has_algo(methods, name_password().as_slice()) {
            Ok(AuthStep::NeedPassword)
        } else {
            Err(Error::BehaviourError)
        }
    }

    fn pubkey_request(&self, sig: Option<Vec<u8>>) -> (r: Packet)
        ensures
            r matches Packet::UserauthRequest(u) && u.username@ == self.username@
                && u.service@ == spec_service_connection()
                && (u.method matches AuthMethod::PubKey(m) && m.sig_algo@ == self.sig_algo@
                    && m.pubkey@ == self.pubkey@ && m.sig == sig),
    {
        Packet::UserauthRequest(UserauthRequest {
            username: to_vec(self.username.as_slice()),
            service: name_service_connection(),
            method: AuthMethod::PubKey(MethodPubKey {
                sig_algo: to_vec(self.sig_algo.as_slice()),
                pubkey: to_vec(self.pubkey.as_slice()),
                sig,
            }),
        })
    }

    /// The application's answer to `NeedKey`: the next public key blob, or
    /// `None`. A key is probed without a signature, with the signature
    /// algorithm its type calls for; a key of a type that is not known is an
    /// error and changes nothing. With no more keys, a password is tried if
    /// the server allows one.
    pub fn key_result(&mut self, key: Option<Vec<u8>>, methods: &[u8], ctx: &mut ParseContext)
        -> (r: Result<AuthStep, Error>)
        ensures
            final(ctx).method_pubkey_force_sig_bool == old(ctx).method_pubkey_force_sig_bool,
            final(self).username == old(self).username,
            match key {
                Some(k) => match spec_sig_name_for_pubkey(k@) {
                    Ok(algo) => {
                        &&& final(self).state == AuthState::Request { last: AuthType::PubKey }
                        &&& final(ctx).cli_auth_type == Some(AuthType::PubKey)
                        &&& final(self).pubkey@ == k@
                        &&& final(self).sig_algo@ == algo
                        &&& r matches Ok(AuthStep::Send(Packet::UserauthRequest(u)))
                            && u.username@ == old(self).username@
                            && u.service@ == spec_service_connection()
                            && (u.method matches AuthMethod::PubKey(m) && m.sig_algo@ == algo
                                && m.pubkey@ == k@ && m.sig is None)
                    },
                    Err(e) => r == Err::<AuthStep, Error>(e) && *final(self) == *old(self) && *final(ctx) == *old(ctx),
                },
                None => {
                    &&& !final(self).try_pubkey
                    &&& final(self).try_password == old(self).try_password
                    &&& final(self).state == old(self).state
                    &&& final(ctx).cli_auth_type == old(ctx).cli_auth_type
                    &&& if old(self).try_password && spec_names(methods@).contains(spec_password()) {
                        r matches Ok(AuthStep::NeedPassword)
                    } else {
                        r == Err::<AuthStep, Error>(Error::BehaviourError)
                    }
                },
            },
    {
        match key {
            Some(k) => {
                let algo = match sig_name_for_pubkey(k.as_slice()) {
                    Ok(a) => a,
                    Err(e) => return Err(e),
                };
                self.sig_algo = algo;
                self.pubkey = k;
                self.state = AuthState::Request { last: AuthType::PubKey };
                ctx.cli_auth_type = Some(AuthType::PubKey);
                Ok(AuthStep::Send(self.pubkey_request(None)))
            },
            None => {
                self.try_pubkey = false;
                if self.try_password && has_algo(methods, name_password().as_slice()) {
                    Ok(AuthStep::NeedPassword)
                } else {
                    Err(Error::BehaviourError)
                }
            },
        }
    }

    /// The application's answer to `NeedPassword`: the password request to
    /// send, or failure when the application declines.
    pub fn password_result(&mut self, password: Option<Vec<u8>>, ctx: &mut ParseContext)
        -> (r: Result<AuthStep, Error>)
        ensures
            final(ctx).method_pubkey_force_sig_bool == old(ctx).method_pubkey_force_sig_bool,
            final(self).username == old(self).username,
            match password {
                Some(pw) => {
                    &&& final(self).state == AuthState::Request { last: AuthType::Password }
                    &&& final(ctx).cli_auth_type == Some(AuthType::Password)
                    &&& r matches Ok(AuthStep::Send(Packet::UserauthRequest(u)))
                        && u.username@ == old(self).username@
                        && u.service@ == spec_service_connection()
                        && (u.method matches AuthMethod::Password(m) && !m.change && m.password@ == pw@)
                },
                None => {
                    &&& !final(self).try_password
                    &&& final(self).try_pubkey == old(self).try_pubkey
                    &&& final(self).state == old(self).state
                    &&& final(ctx).cli_auth_type == old(ctx).cli_auth_type
                    &&& r == Err::<AuthStep, Error>(Error::BehaviourError)
                },
            },
    {
        match password {
            Some(pw) => {
                self.state = AuthState::Request { last: AuthType::Password };
                ctx.cli_auth_type = Some(AuthType::Password);
                Ok(AuthStep::Send(Packet::UserauthRequest(UserauthRequest {
                    username: to_vec(self.username.as_slice()),
                    service: name_service_connection(),
                    method: AuthMethod::Password(MethodPassword { change: false, password: pw }),
                })))
            },
            None => {
                self.try_password = false;
                Err(Error::BehaviourError)
            },
        }
    }

    /// The server accepts the key just probed (`PkOk`). Returns the message
    /// to sign: the session id as a string, then the request as it will be
    /// sent but with the signature flag set and no signature. A `PkOk` for
    /// another key, or when no key was probed, is a protocol error.
    pub fn auth_pkok(&mut self, pkok: &UserauthPkOk, sess_id: &[u8], ctx: &mut ParseContext)
        -> (r: Result<Vec<u8>, Error>)
        ensures
            final(ctx).cli_auth_type is None,
            final(ctx).method_pubkey_force_sig_bool == old(ctx).method_pubkey_force_sig_bool,
            *final(self) == *old(self),
            !(old(self).state == AuthState::Request { last: AuthType::PubKey } && pkok.key@ == old(self).pubkey@)
                ==> r == Err::<Vec<u8>, Error>(Error::SSHProtoError),
            r matches Ok(m) ==> m@ == spec_sign_message(sess_id@, old(self).username@,
                spec_service_connection(), old(self).sig_algo@, old(self).pubkey@),
            (old(self).state == (AuthState::Request { last: AuthType::PubKey }) && pkok.key@ == old(self).pubkey@
                && sess_id@.len() <= u32::MAX
                && packet_ok(spec_unsigned_request(old(self).username@, spec_service_connection(),
                    old(self).sig_algo@, old(self).pubkey@))) ==> r is Ok,
            r is Err ==> r == Err::<Vec<u8>, Error>(Error::SSHProtoError) || r == Err::<Vec<u8>, Error>(Error::BadLength),
    {
        ctx.cli_auth_type = None;
        let probed = self.state == (AuthState::Request { last: AuthType::PubKey });
        if !probed || !crate::bytes::bytes_eq(pkok.key.as_slice(), self.pubkey.as_slice()) {
            return Err(Error::SSHProtoError);
        }
        if sess_id.len() > 0xffff_ffff {
            return Err(Error::BadLength);
        }
        let p = self.pubkey_request(None);
        let mut msg: Vec<u8> = Vec::new();
        put_u32(&mut msg, sess_id.len() as u32);
        extend(&mut msg, sess_id);
        assert(msg@ =~= spec_string(sess_id@));
        let sign_ctx = ParseContext { cli_auth_type: None, method_pubkey_force_sig_bool: true };
        assert(p.view_ctx(true).fields =~= spec_unsigned_request(self.username@, spec_service_connection(),
            self.sig_algo@, self.pubkey@).fields);
        match encode_packet(&p, &sign_ctx, &mut msg) {
            Ok(()) => {},
            Err(e) => return Err(e),
        }
        Ok(msg)
    }

    /// The signed request to send once the application has signed the
    /// message from [`CliAuth::auth_pkok`].
    pub fn signed(&self, sig: Vec<u8>) -> (r: Packet)
        ensures
            r matches Packet::UserauthRequest(u) && u.username@ == self.username@
                && u.service@ == spec_service_connection()
                && (u.method matches AuthMethod::PubKey(m) && m.sig_algo@ == self.sig_algo@
                    && m.pubkey@ == self.pubkey@ && m.sig == Some(sig)),
    {
        self.pubkey_request(Some(sig))
    }

    /// Authentication succeeded: the client is authenticated and asks for the
    /// `ssh-connection` service.
    pub fn success(&mut self) -> (r: Packet)
        ensures
            final(self).state == AuthState::Idle,
            final(self).authenticated,
            r matches Packet::ServiceRequest(s) && s.name@ == spec_service_connection(),
    {
        self.state = AuthState::Idle;
        self.authenticated = true;
        Packet::ServiceRequest(ServiceRequest { name: name_service_connection() })
    }

    /// The server's `ext-info`: `rsa-sha2-256` signatures become allowed when
    /// its `server-sig-algs` lists them.
    pub fn handle_ext_info(&mut self, server_sig_algs: Option<&[u8]>)
        ensures
            match server_sig_algs {
                Some(a) => final(self).allow_rsa_sha2 == spec_names(a@).contains(spec_rsa_sha256()),
                None => final(self).allow_rsa_sha2 == old(self).allow_rsa_sha2,
            },
            final(self).state == old(self).state,
    {
        if let Some(a) = server_sig_algs {
            self.allow_rsa_sha2 = has_algo(a, name_rsa_sha256().as_slice());
        }
    }
}

} // verus!
