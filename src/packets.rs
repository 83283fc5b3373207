//! SSH protocol packets: typed records keyed by a one-byte message number.
//!
//! Each packet's payload is a sequence of wire fields (see [`crate::wire`]).
//! Decoding picks the field schema in up to three steps: the message number
//! (and, for message 60, the parse context) gives the leading fields; a
//! variant name among them picks the variant's fields; a flag among those may
//! add a trailing signature.

use vstd::prelude::*;
use crate::bytes::{bytes_eq, to_vec};
use crate::error::Error;
use crate::names::{
    name_break, name_direct_tcpip, name_exec, name_exit_signal, name_exit_status,
    name_forwarded_tcpip, name_none, name_password, name_publickey, name_pty_req, name_session,
    name_shell, name_signal, name_subsystem, name_window_change, spec_break, spec_direct_tcpip,
    spec_exec, spec_exit_signal, spec_exit_status, spec_forwarded_tcpip, spec_none,
    spec_password, spec_publickey, spec_pty_req, spec_session, spec_shell, spec_signal,
    spec_subsystem, spec_window_change,
};
use crate::wire::{
    conforms, enc_fields, field_ok, fields_view, get_bool_field, get_fields, get_fixed_field,
    get_str_field, get_u32_field, kind_of, kinds_match, lemma_enc_fields_append, lemma_fields_round_trip,
    lemma_parse_kinds, parse_fields, put_fields, Field, FieldV, Kind,
};

verus! {

/// Which authentication request the client last sent; selects the shape of message 60.
#[derive(Debug, Clone, Copy, PartialEq, Eq, Structural)]
pub enum AuthType {
    Password,
    PubKey,
}

/// State passed to decoding and encoding.
#[derive(Debug, Clone, Copy, PartialEq, Eq, Structural)]
pub struct ParseContext {
    pub cli_auth_type: Option<AuthType>,
    /// When set, a `publickey` method is encoded with a leading `true` and no
    /// signature: the form that is signed.
    pub method_pubkey_force_sig_bool: bool,
}

impl ParseContext {
    pub fn new() -> (r: ParseContext)
        ensures
            r.cli_auth_type is None,
            !r.method_pubkey_force_sig_bool,
    {
        ParseContext { cli_auth_type: None, method_pubkey_force_sig_bool: false }
    }
}

/// Which phase of the connection a packet belongs to.
#[derive(Debug, Clone, Copy, PartialEq, Eq, Structural)]
pub enum Category {
    /// Allowed at any time.
    All,
    /// Between `KexInit` and `NewKeys`.
    Kex,
    /// After key exchange.
    Auth,
    /// After authentication.
    Sess,
}

#[derive(Debug)]
pub struct Disconnect {
    pub reason: u32,
    pub desc: Vec<u8>,
    pub lang: Vec<u8>,
}

#[derive(Debug)]
pub struct Ignore {}

#[derive(Debug)]
pub struct Unimplemented {
    pub seq: u32,
}

#[derive(Debug)]
pub struct DebugPacket {
    pub always_display: bool,
    pub message: Vec<u8>,
    pub lang: Vec<u8>,
}

#[derive(Debug)]
pub struct ServiceRequest {
    pub name: Vec<u8>,
}

#[derive(Debug)]
pub struct ServiceAccept {
    pub name: Vec<u8>,
}

/// The name-lists are held as received: comma-separated bytes.
#[derive(Debug)]
pub struct KexInit {
    pub cookie: Vec<u8>,
    pub kex: Vec<u8>,
    pub hostsig: Vec<u8>,
    pub cipher_c2s: Vec<u8>,
    pub cipher_s2c: Vec<u8>,
    pub mac_c2s: Vec<u8>,
    pub mac_s2c: Vec<u8>,
    pub comp_c2s: Vec<u8>,
    pub comp_s2c: Vec<u8>,
    pub lang_c2s: Vec<u8>,
    pub lang_s2c: Vec<u8>,
    pub first_follows: bool,
    pub reserved: u32,
}

#[derive(Debug)]
pub struct NewKeys {}

#[derive(Debug)]
pub struct KexDHInit {
    pub q_c: Vec<u8>,
}

/// `k_s` and `sig` are the encoded host key and signature blobs.
#[derive(Debug)]
pub struct KexDHReply {
    pub k_s: Vec<u8>,
    pub q_s: Vec<u8>,
    pub sig: Vec<u8>,
}

#[derive(Debug)]
pub struct UserauthRequest {
    pub username: Vec<u8>,
    pub service: Vec<u8>,
    pub method: AuthMethod,
}

#[derive(Debug)]
pub enum AuthMethod {
    Password(MethodPassword),
    PubKey(MethodPubKey),
    /// The `none` method, used to query which methods the server allows.
    NoneMethod,
    Unknown(Unknown),
}

#[derive(Debug)]
pub struct MethodPassword {
    pub change: bool,
    pub password: Vec<u8>,
}

/// `pubkey` and `sig` are encoded blobs.
#[derive(Debug)]
pub struct MethodPubKey {
    pub sig_algo: Vec<u8>,
    pub pubkey: Vec<u8>,
    pub sig: Option<Vec<u8>>,
}

#[derive(Debug)]
pub struct UserauthFailure {
    pub methods: Vec<u8>,
    pub partial: bool,
}

#[derive(Debug)]
pub struct UserauthSuccess {}

#[derive(Debug)]
pub struct UserauthBanner {
    pub message: Vec<u8>,
    pub lang: Vec<u8>,
}

#[derive(Debug)]
pub enum Userauth60 {
    PkOk(UserauthPkOk),
    PwChangeReq(UserauthPwChangeReq),
}

#[derive(Debug)]
pub struct UserauthPkOk {
    pub algo: Vec<u8>,
    pub key: Vec<u8>,
}

#[derive(Debug)]
pub struct UserauthPwChangeReq {
    pub prompt: Vec<u8>,
    pub lang: Vec<u8>,
}

#[derive(Debug)]
pub struct ChannelOpen {
    pub num: u32,
    pub initial_window: u32,
    pub max_packet: u32,
    pub ty: ChannelOpenType,
}

#[derive(Debug)]
pub enum ChannelOpenType {
    Session,
    ForwardedTcpip(ForwardedTcpip),
    DirectTcpip(DirectTcpip),
    Unknown(Unknown),
}

#[derive(Debug)]
pub struct ForwardedTcpip {
    pub address: Vec<u8>,
    pub port: u32,
    pub origin: Vec<u8>,
    pub origin_port: u32,
}

#[derive(Debug)]
pub struct DirectTcpip {
    pub address: Vec<u8>,
    pub port: u32,
    pub origin: Vec<u8>,
    pub origin_port: u32,
}

#[derive(Debug)]
pub struct ChannelOpenConfirmation {
    pub num: u32,
    pub sender_num: u32,
    pub initial_window: u32,
    pub max_packet: u32,
}

#[derive(Debug)]
pub struct ChannelOpenFailure {
    pub num: u32,
    pub reason: u32,
    pub desc: Vec<u8>,
    pub lang: Vec<u8>,
}

#[derive(Debug)]
pub struct ChannelWindowAdjust {
    pub num: u32,
    pub adjust: u32,
}

#[derive(Debug)]
pub struct ChannelData {
    pub num: u32,
    pub data: Vec<u8>,
}

#[derive(Debug)]
pub struct ChannelDataExt {
    pub num: u32,
    pub code: u32,
    pub data: Vec<u8>,
}

#[derive(Debug)]
pub struct ChannelEof {
    pub num: u32,
}

#[derive(Debug)]
pub struct ChannelClose {
    pub num: u32,
}

#[derive(Debug)]
pub struct ChannelSuccess {
    pub num: u32,
}

#[derive(Debug)]
pub struct ChannelFailure {
    pub num: u32,
}

#[derive(Debug)]
pub struct ChannelRequest {
    pub num: u32,
    pub want_reply: bool,
    pub req: ChannelReqType,
}

#[derive(Debug)]
pub enum ChannelReqType {
    Shell,
    Exec(Exec),
    Pty(Pty),
    Subsystem(Subsystem),
    WinChange(WinChange),
    Signal(Signal),
    ExitStatus(ExitStatus),
    ExitSignal(ExitSignal),
    Break(Break),
    Unknown(Unknown),
}

#[derive(Debug)]
pub struct Exec {
    pub command: Vec<u8>,
}

#[derive(Debug)]
pub struct Pty {
    pub term: Vec<u8>,
    pub cols: u32,
    pub rows: u32,
    pub width: u32,
    pub height: u32,
    pub modes: Vec<u8>,
}

#[derive(Debug)]
pub struct Subsystem {
    pub subsystem: Vec<u8>,
}

#[derive(Debug)]
pub struct WinChange {
    pub cols: u32,
    pub rows: u32,
    pub width: u32,
    pub height: u32,
}

#[derive(Debug)]
pub struct Signal {
    pub sig: Vec<u8>,
}

#[derive(Debug)]
pub struct ExitStatus {
    pub status: u32,
}

#[derive(Debug)]
pub struct ExitSignal {
    pub signal: Vec<u8>,
    pub core: bool,
    pub error: Vec<u8>,
    pub lang: Vec<u8>,
}

#[derive(Debug)]
pub struct Break {
    pub length: u32,
}

/// A variant name that was not recognised, kept for inspection. It is only
/// ever received: encoding it is refused.
#[derive(Debug)]
pub struct Unknown(pub Vec<u8>);

/// Top level SSH packet.
#[derive(Debug)]
pub enum Packet {
    Disconnect(Disconnect),
    Ignore(Ignore),
    Unimplemented(Unimplemented),
    DebugPacket(DebugPacket),
    ServiceRequest(ServiceRequest),
    ServiceAccept(ServiceAccept),
    KexInit(KexInit),
    NewKeys(NewKeys),
    KexDHInit(KexDHInit),
    KexDHReply(KexDHReply),
    UserauthRequest(UserauthRequest),
    UserauthFailure(UserauthFailure),
    UserauthSuccess(UserauthSuccess),
    UserauthBanner(UserauthBanner),
    Userauth60(Userauth60),
    ChannelOpen(ChannelOpen),
    ChannelOpenConfirmation(ChannelOpenConfirmation),
    ChannelOpenFailure(ChannelOpenFailure),
    ChannelWindowAdjust(ChannelWindowAdjust),
    ChannelData(ChannelData),
    ChannelDataExt(ChannelDataExt),
    ChannelEof(ChannelEof),
    ChannelClose(ChannelClose),
    ChannelRequest(ChannelRequest),
    ChannelSuccess(ChannelSuccess),
    ChannelFailure(ChannelFailure),
}

/// How a decoded packet relates to its fields.
pub enum Shape {
    /// All fields were decoded.
    Known,
    /// The variant name was not recognised; only the leading fields were decoded.
    Unknown,
    /// Message 60 decoded as a password change request.
    PwChange,
}

/// The mathematical value of a packet: its message number and field values.
pub struct PacketV {
    pub num: u8,
    pub fields: Seq<FieldV>,
    pub shape: Shape,
}

/// The known message numbers.
#[allow(non_camel_case_types)]
#[derive(Debug, Clone, Copy, PartialEq, Eq, Structural)]
pub enum MessageNumber {
    SSH_MSG_DISCONNECT,
    SSH_MSG_IGNORE,
    SSH_MSG_UNIMPLEMENTED,
    SSH_MSG_DEBUG,
    SSH_MSG_SERVICE_REQUEST,
    SSH_MSG_SERVICE_ACCEPT,
    SSH_MSG_KEXINIT,
    SSH_MSG_NEWKEYS,
    SSH_MSG_KEXDH_INIT,
    SSH_MSG_KEXDH_REPLY,
    SSH_MSG_USERAUTH_REQUEST,
    SSH_MSG_USERAUTH_FAILURE,
    SSH_MSG_USERAUTH_SUCCESS,
    SSH_MSG_USERAUTH_BANNER,
    SSH_MSG_USERAUTH_60,
    SSH_MSG_CHANNEL_OPEN,
    SSH_MSG_CHANNEL_OPEN_CONFIRMATION,
    SSH_MSG_CHANNEL_OPEN_FAILURE,
    SSH_MSG_CHANNEL_WINDOW_ADJUST,
    SSH_MSG_CHANNEL_DATA,
    SSH_MSG_CHANNEL_EXTENDED_DATA,
    SSH_MSG_CHANNEL_EOF,
    SSH_MSG_CHANNEL_CLOSE,
    SSH_MSG_CHANNEL_REQUEST,
    SSH_MSG_CHANNEL_SUCCESS,
    SSH_MSG_CHANNEL_FAILURE,
}

impl MessageNumber {
    pub open spec fn spec_u8(self) -> u8 {
        match self {
            MessageNumber::SSH_MSG_DISCONNECT => 1,
            MessageNumber::SSH_MSG_IGNORE => 2,
            MessageNumber::SSH_MSG_UNIMPLEMENTED => 3,
            MessageNumber::SSH_MSG_DEBUG => 4,
            MessageNumber::SSH_MSG_SERVICE_REQUEST => 5,
            MessageNumber::SSH_MSG_SERVICE_ACCEPT => 6,
            MessageNumber::SSH_MSG_KEXINIT => 20,
            MessageNumber::SSH_MSG_NEWKEYS => 21,
            MessageNumber::SSH_MSG_KEXDH_INIT => 30,
            MessageNumber::SSH_MSG_KEXDH_REPLY => 31,
            MessageNumber::SSH_MSG_USERAUTH_REQUEST => 50,
            MessageNumber::SSH_MSG_USERAUTH_FAILURE => 51,
            MessageNumber::SSH_MSG_USERAUTH_SUCCESS => 52,
            MessageNumber::SSH_MSG_USERAUTH_BANNER => 53,
            MessageNumber::SSH_MSG_USERAUTH_60 => 60,
            MessageNumber::SSH_MSG_CHANNEL_OPEN => 90,
            MessageNumber::SSH_MSG_CHANNEL_OPEN_CONFIRMATION => 91,
            MessageNumber::SSH_MSG_CHANNEL_OPEN_FAILURE => 92,
            MessageNumber::SSH_MSG_CHANNEL_WINDOW_ADJUST => 93,
            MessageNumber::SSH_MSG_CHANNEL_DATA => 94,
            MessageNumber::SSH_MSG_CHANNEL_EXTENDED_DATA => 95,
            MessageNumber::SSH_MSG_CHANNEL_EOF => 96,
            MessageNumber::SSH_MSG_CHANNEL_CLOSE => 97,
            MessageNumber::SSH_MSG_CHANNEL_REQUEST => 98,
            MessageNumber::SSH_MSG_CHANNEL_SUCCESS => 99,
            MessageNumber::SSH_MSG_CHANNEL_FAILURE => 100,
        }
    }

    /// The message number's byte.
    pub fn as_u8(&self) -> (r: u8)
        ensures
            r == self.spec_u8(),
            spec_category(r) is Some,
    {
        match self {
            MessageNumber::SSH_MSG_DISCONNECT => 1,
            MessageNumber::SSH_MSG_IGNORE => 2,
            MessageNumber::SSH_MSG_UNIMPLEMENTED => 3,
            MessageNumber::SSH_MSG_DEBUG => 4,
            MessageNumber::SSH_MSG_SERVICE_REQUEST => 5,
            MessageNumber::SSH_MSG_SERVICE_ACCEPT => 6,
            MessageNumber::SSH_MSG_KEXINIT => 20,
            MessageNumber::SSH_MSG_NEWKEYS => 21,
            MessageNumber::SSH_MSG_KEXDH_INIT => 30,
            MessageNumber::SSH_MSG_KEXDH_REPLY => 31,
            MessageNumber::SSH_MSG_USERAUTH_REQUEST => 50,
            MessageNumber::SSH_MSG_USERAUTH_FAILURE => 51,
            MessageNumber::SSH_MSG_USERAUTH_SUCCESS => 52,
            MessageNumber::SSH_MSG_USERAUTH_BANNER => 53,
            MessageNumber::SSH_MSG_USERAUTH_60 => 60,
            MessageNumber::SSH_MSG_CHANNEL_OPEN => 90,
            MessageNumber::SSH_MSG_CHANNEL_OPEN_CONFIRMATION => 91,
            MessageNumber::SSH_MSG_CHANNEL_OPEN_FAILURE => 92,
            MessageNumber::SSH_MSG_CHANNEL_WINDOW_ADJUST => 93,
            MessageNumber::SSH_MSG_CHANNEL_DATA => 94,
            MessageNumber::SSH_MSG_CHANNEL_EXTENDED_DATA => 95,
            MessageNumber::SSH_MSG_CHANNEL_EOF => 96,
            MessageNumber::SSH_MSG_CHANNEL_CLOSE => 97,
            MessageNumber::SSH_MSG_CHANNEL_REQUEST => 98,
            MessageNumber::SSH_MSG_CHANNEL_SUCCESS => 99,
            MessageNumber::SSH_MSG_CHANNEL_FAILURE => 100,
        }
    }

    /// The message number for a byte; an unknown one is an error.
    pub fn from_u8(v: u8) -> (r: Result<MessageNumber, Error>)
        ensures
            r matches Ok(m) ==> m.spec_u8() == v,
            r is Ok <==> spec_category(v) is Some,
            r is Err ==> r == Err::<MessageNumber, Error>(Error::UnknownPacket { number: v }),
    {
        match v {
            1 => Ok(MessageNumber::SSH_MSG_DISCONNECT),
            2 => Ok(MessageNumber::SSH_MSG_IGNORE),
            3 => Ok(MessageNumber::SSH_MSG_UNIMPLEMENTED),
            4 => Ok(MessageNumber::SSH_MSG_DEBUG),
            5 => Ok(MessageNumber::SSH_MSG_SERVICE_REQUEST),
            6 => Ok(MessageNumber::SSH_MSG_SERVICE_ACCEPT),
            20 => Ok(MessageNumber::SSH_MSG_KEXINIT),
            21 => Ok(MessageNumber::SSH_MSG_NEWKEYS),
            30 => Ok(MessageNumber::SSH_MSG_KEXDH_INIT),
            31 => Ok(MessageNumber::SSH_MSG_KEXDH_REPLY),
            50 => Ok(MessageNumber::SSH_MSG_USERAUTH_REQUEST),
            51 => Ok(MessageNumber::SSH_MSG_USERAUTH_FAILURE),
            52 => Ok(MessageNumber::SSH_MSG_USERAUTH_SUCCESS),
            53 => Ok(MessageNumber::SSH_MSG_USERAUTH_BANNER),
            60 => Ok(MessageNumber::SSH_MSG_USERAUTH_60),
            90 => Ok(MessageNumber::SSH_MSG_CHANNEL_OPEN),
            91 => Ok(MessageNumber::SSH_MSG_CHANNEL_OPEN_CONFIRMATION),
            92 => Ok(MessageNumber::SSH_MSG_CHANNEL_OPEN_FAILURE),
            93 => Ok(MessageNumber::SSH_MSG_CHANNEL_WINDOW_ADJUST),
            94 => Ok(MessageNumber::SSH_MSG_CHANNEL_DATA),
            95 => Ok(MessageNumber::SSH_MSG_CHANNEL_EXTENDED_DATA),
            96 => Ok(MessageNumber::SSH_MSG_CHANNEL_EOF),
            97 => Ok(MessageNumber::SSH_MSG_CHANNEL_CLOSE),
            98 => Ok(MessageNumber::SSH_MSG_CHANNEL_REQUEST),
            99 => Ok(MessageNumber::SSH_MSG_CHANNEL_SUCCESS),
            100 => Ok(MessageNumber::SSH_MSG_CHANNEL_FAILURE),
            _ => Err(Error::UnknownPacket { number: v }),
        }
    }
}

/// The known message numbers, each with its category.
pub open spec fn spec_category(num: u8) -> Option<Category> {
    if 1 <= num <= 4 || num == 20 {
        Some(Category::All)
    } else if num == 5 || num == 6 || (50 <= num <= 53) || num == 60 {
        Some(Category::Auth)
    } else if num == 21 || num == 30 || num == 31 {
        Some(Category::Kex)
    } else if 90 <= num <= 100 {
        Some(Category::Sess)
    } else {
        None
    }
}

pub open spec fn s_str(f: FieldV) -> Seq<u8> {
    match f {
        FieldV::Str(s) => s,
        _ => Seq::empty(),
    }
}

/// The leading fields of each message.
pub open spec fn schema_a(num: u8, ctx: ParseContext) -> Result<Seq<Kind>, Error> {
    if spec_category(num) is None {
        Err(Error::UnknownPacket { number: num })
    } else if num == 1 {
        Ok(seq![Kind::U32, Kind::Str, Kind::Str])
    } else if num == 3 {
        Ok(seq![Kind::U32])
    } else if num == 4 {
        Ok(seq![Kind::Bool, Kind::Str, Kind::Str])
    } else if num == 5 || num == 6 || num == 30 {
        Ok(seq![Kind::Str])
    } else if num == 20 {
        Ok(seq![Kind::Fixed, Kind::Str, Kind::Str, Kind::Str, Kind::Str, Kind::Str, Kind::Str,
            Kind::Str, Kind::Str, Kind::Str, Kind::Str, Kind::Bool, Kind::U32])
    } else if num == 31 {
        Ok(seq![Kind::Str, Kind::Str, Kind::Str])
    } else if num == 50 {
        Ok(seq![Kind::Str, Kind::Str, Kind::Str])
    } else if num == 51 {
        Ok(seq![Kind::Str, Kind::Bool])
    } else if num == 53 {
        Ok(seq![Kind::Str, Kind::Str])
    } else if num == 60 {
        if ctx.cli_auth_type is None {
            Err(Error::PacketWrong)
        } else {
            Ok(seq![Kind::Str, Kind::Str])
        }
    } else if num == 90 {
        Ok(seq![Kind::Str, Kind::U32, Kind::U32, Kind::U32])
    } else if num == 91 {
        Ok(seq![Kind::U32, Kind::U32, Kind::U32, Kind::U32])
    } else if num == 92 {
        Ok(seq![Kind::U32, Kind::U32, Kind::Str, Kind::Str])
    } else if num == 93 {
        Ok(seq![Kind::U32, Kind::U32])
    } else if num == 94 {
        Ok(seq![Kind::U32, Kind::Str])
    } else if num == 95 {
        Ok(seq![Kind::U32, Kind::U32, Kind::Str])
    } else if num == 98 {
        Ok(seq![Kind::U32, Kind::Str, Kind::Bool])
    } else if num == 96 || num == 97 || num == 99 || num == 100 {
        Ok(seq![Kind::U32])
    } else {
        Ok(Seq::empty())
    }
}

/// The variant fields chosen by the variant name among the leading fields;
/// `None` for a name that is not known.
pub open spec fn schema_b(num: u8, head: Seq<FieldV>) -> Option<Seq<Kind>> {
    if num == 50 {
        let name = s_str(head[2]);
        if name == spec_password() {
            Some(seq![Kind::Bool, Kind::Str])
        } else if name == spec_publickey() {
            Some(seq![Kind::Bool, Kind::Str, Kind::Str])
        } else if name == spec_none() {
            Some(Seq::empty())
        } else {
            None
        }
    } else if num == 90 {
        let name = s_str(head[0]);
        if name == spec_session() {
            Some(Seq::empty())
        } else if name == spec_forwarded_tcpip() || name == spec_direct_tcpip() {
            Some(seq![Kind::Str, Kind::U32, Kind::Str, Kind::U32])
        } else {
            None
        }
    } else if num == 98 {
        let name = s_str(head[1]);
        if name == spec_shell() {
            Some(Seq::empty())
        } else if name == spec_exec() || name == spec_subsystem() || name == spec_signal() {
            Some(seq![Kind::Str])
        } else if name == spec_pty_req() {
            Some(seq![Kind::Str, Kind::U32, Kind::U32, Kind::U32, Kind::U32, Kind::Str])
        } else if name == spec_window_change() {
            Some(seq![Kind::U32, Kind::U32, Kind::U32, Kind::U32])
        } else if name == spec_exit_status() || name == spec_break() {
            Some(seq![Kind::U32])
        } else if name == spec_exit_signal() {
            Some(seq![Kind::Str, Kind::Bool, Kind::Str, Kind::Str])
        } else {
            None
        }
    } else {
        Some(Seq::empty())
    }
}

/// A `publickey` request whose flag is set carries a trailing signature.
pub open spec fn schema_c(num: u8, head: Seq<FieldV>, var: Seq<FieldV>) -> Seq<Kind> {
    if num == 50 && s_str(head[2]) == spec_publickey() && var[0] == FieldV::Bool(true) {
        seq![Kind::Str]
    } else {
        Seq::empty()
    }
}

/// Decodes a packet payload.
pub open spec fn spec_parse_packet(s: Seq<u8>, ctx: ParseContext) -> Result<PacketV, Error> {
    if s.len() == 0 {
        Err(Error::RanOut)
    } else {
        let num = s[0];
        match schema_a(num, ctx) {
            Err(e) => Err(e),
            Ok(sa) => match parse_fields(sa, s.skip(1)) {
                Err(e) => Err(e),
                Ok((head, r1)) => match schema_b(num, head) {
                    None => Ok(PacketV { num, fields: head, shape: Shape::Unknown }),
                    Some(sb) => match parse_fields(sb, r1) {
                        Err(e) => Err(e),
                        Ok((var, r2)) => match parse_fields(schema_c(num, head, var), r2) {
                            Err(e) => Err(e),
                            Ok((extra, r3)) => if r3.len() != 0 {
                                Err(Error::SSHProtoError)
                            } else {
                                Ok(PacketV {
                                    num,
                                    fields: head + var + extra,
                                    shape: if num == 60 && ctx.cli_auth_type == Some(AuthType::Password) {
                                        Shape::PwChange
                                    } else {
                                        Shape::Known
                                    },
                                })
                            },
                        },
                    },
                },
            },
        }
    }
}

/// The payload encoding of a packet value.
pub open spec fn spec_enc_packet(v: PacketV) -> Seq<u8> {
    seq![v.num] + enc_fields(v.fields)
}


/// Every field of a packet value can be put on the wire.
pub open spec fn packet_ok(v: PacketV) -> bool {
    forall|i: int| 0 <= i < v.fields.len() ==> field_ok(#[trigger] v.fields[i])
}

/// A byte-string field holding `x`.
pub open spec fn fs(x: Vec<u8>) -> FieldV {
    FieldV::Str(x@)
}

impl AuthMethod {
    pub open spec fn spec_name(&self) -> Seq<u8> {
        match self {
            AuthMethod::Password(_) => spec_password(),
            AuthMethod::PubKey(_) => spec_publickey(),
            AuthMethod::NoneMethod => spec_none(),
            AuthMethod::Unknown(u) => u.0@,
        }
    }
}

impl ChannelOpenType {
    pub open spec fn spec_name(&self) -> Seq<u8> {
        match self {
            ChannelOpenType::Session => spec_session(),
            ChannelOpenType::ForwardedTcpip(_) => spec_forwarded_tcpip(),
            ChannelOpenType::DirectTcpip(_) => spec_direct_tcpip(),
            ChannelOpenType::Unknown(u) => u.0@,
        }
    }
}

impl ChannelReqType {
    pub open spec fn spec_name(&self) -> Seq<u8> {
        match self {
            ChannelReqType::Shell => spec_shell(),
            ChannelReqType::Exec(_) => spec_exec(),
            ChannelReqType::Pty(_) => spec_pty_req(),
            ChannelReqType::Subsystem(_) => spec_subsystem(),
            ChannelReqType::WinChange(_) => spec_window_change(),
            ChannelReqType::Signal(_) => spec_signal(),
            ChannelReqType::ExitStatus(_) => spec_exit_status(),
            ChannelReqType::ExitSignal(_) => spec_exit_signal(),
            ChannelReqType::Break(_) => spec_break(),
            ChannelReqType::Unknown(u) => u.0@,
        }
    }
}

impl Packet {
    /// The message number of a packet.
    pub open spec fn spec_num(&self) -> u8 {
        match self {
            Packet::Disconnect(_) => 1,
            Packet::Ignore(_) => 2,
            Packet::Unimplemented(_) => 3,
            Packet::DebugPacket(_) => 4,
            Packet::ServiceRequest(_) => 5,
            Packet::ServiceAccept(_) => 6,
            Packet::KexInit(_) => 20,
            Packet::NewKeys(_) => 21,
            Packet::KexDHInit(_) => 30,
            Packet::KexDHReply(_) => 31,
            Packet::UserauthRequest(_) => 50,
            Packet::UserauthFailure(_) => 51,
            Packet::UserauthSuccess(_) => 52,
            Packet::UserauthBanner(_) => 53,
            Packet::Userauth60(_) => 60,
            Packet::ChannelOpen(_) => 90,
            Packet::ChannelOpenConfirmation(_) => 91,
            Packet::ChannelOpenFailure(_) => 92,
            Packet::ChannelWindowAdjust(_) => 93,
            Packet::ChannelData(_) => 94,
            Packet::ChannelDataExt(_) => 95,
            Packet::ChannelEof(_) => 96,
            Packet::ChannelClose(_) => 97,
            Packet::ChannelRequest(_) => 98,
            Packet::ChannelSuccess(_) => 99,
            Packet::ChannelFailure(_) => 100,
        }
    }

    /// The leading fields, up to and including any variant name.
    pub open spec fn spec_head(&self) -> Seq<FieldV> {
        match self {
            Packet::Disconnect(p) => seq![FieldV::U32(p.reason), fs(p.desc), fs(p.lang)],
            Packet::Unimplemented(p) => seq![FieldV::U32(p.seq)],
            Packet::DebugPacket(p) => seq![FieldV::Bool(p.always_display), fs(p.message), fs(p.lang)],
            Packet::ServiceRequest(p) => seq![fs(p.name)],
            Packet::ServiceAccept(p) => seq![fs(p.name)],
            Packet::KexInit(p) => seq![FieldV::Fixed(p.cookie@), fs(p.kex), fs(p.hostsig),
                fs(p.cipher_c2s), fs(p.cipher_s2c), fs(p.mac_c2s), fs(p.mac_s2c), fs(p.comp_c2s),
                fs(p.comp_s2c), fs(p.lang_c2s), fs(p.lang_s2c), FieldV::Bool(p.first_follows),
                FieldV::U32(p.reserved)],
            Packet::KexDHInit(p) => seq![fs(p.q_c)],
            Packet::KexDHReply(p) => seq![fs(p.k_s), fs(p.q_s), fs(p.sig)],
            Packet::UserauthRequest(p) => seq![fs(p.username), fs(p.service), FieldV::Str(p.method.spec_name())],
            Packet::UserauthFailure(p) => seq![fs(p.methods), FieldV::Bool(p.partial)],
            Packet::UserauthBanner(p) => seq![fs(p.message), fs(p.lang)],
            Packet::Userauth60(Userauth60::PkOk(p)) => seq![fs(p.algo), fs(p.key)],
            Packet::Userauth60(Userauth60::PwChangeReq(p)) => seq![fs(p.prompt), fs(p.lang)],
            Packet::ChannelOpen(p) => seq![FieldV::Str(p.ty.spec_name()), FieldV::U32(p.num),
                FieldV::U32(p.initial_window), FieldV::U32(p.max_packet)],
            Packet::ChannelOpenConfirmation(p) => seq![FieldV::U32(p.num), FieldV::U32(p.sender_num),
                FieldV::U32(p.initial_window), FieldV::U32(p.max_packet)],
            Packet::ChannelOpenFailure(p) => seq![FieldV::U32(p.num), FieldV::U32(p.reason), fs(p.desc), fs(p.lang)],
            Packet::ChannelWindowAdjust(p) => seq![FieldV::U32(p.num), FieldV::U32(p.adjust)],
            Packet::ChannelData(p) => seq![FieldV::U32(p.num), fs(p.data)],
            Packet::ChannelDataExt(p) => seq![FieldV::U32(p.num), FieldV::U32(p.code), fs(p.data)],
            Packet::ChannelEof(p) => seq![FieldV::U32(p.num)],
            Packet::ChannelClose(p) => seq![FieldV::U32(p.num)],
            Packet::ChannelRequest(p) => seq![FieldV::U32(p.num), FieldV::Str(p.req.spec_name()), FieldV::Bool(p.want_reply)],
            Packet::ChannelSuccess(p) => seq![FieldV::U32(p.num)],
            Packet::ChannelFailure(p) => seq![FieldV::U32(p.num)],
            _ => Seq::empty(),
        }
    }

    /// The fields of the selected variant. `force` is the encoder's
    /// force-signature-present flag.
    pub open spec fn spec_var(&self, force: bool) -> Seq<FieldV> {
        match self {
            Packet::UserauthRequest(p) => match p.method {
                AuthMethod::Password(m) => seq![FieldV::Bool(m.change), fs(m.password)],
                AuthMethod::PubKey(m) => seq![FieldV::Bool(m.sig is Some || force), fs(m.sig_algo), fs(m.pubkey)],
                _ => Seq::empty(),
            },
            Packet::ChannelOpen(p) => match p.ty {
                ChannelOpenType::ForwardedTcpip(t) => seq![fs(t.address), FieldV::U32(t.port), fs(t.origin), FieldV::U32(t.origin_port)],
                ChannelOpenType::DirectTcpip(t) => seq![fs(t.address), FieldV::U32(t.port), fs(t.origin), FieldV::U32(t.origin_port)],
                _ => Seq::empty(),
            },
            Packet::ChannelRequest(p) => match p.req {
                ChannelReqType::Exec(r) => seq![fs(r.command)],
                ChannelReqType::Pty(r) => seq![fs(r.term), FieldV::U32(r.cols), FieldV::U32(r.rows),
                    FieldV::U32(r.width), FieldV::U32(r.height), fs(r.modes)],
                ChannelReqType::Subsystem(r) => seq![fs(r.subsystem)],
                ChannelReqType::WinChange(r) => seq![FieldV::U32(r.cols), FieldV::U32(r.rows),
                    FieldV::U32(r.width), FieldV::U32(r.height)],
                ChannelReqType::Signal(r) => seq![fs(r.sig)],
                ChannelReqType::ExitStatus(r) => seq![FieldV::U32(r.status)],
                ChannelReqType::ExitSignal(r) => seq![fs(r.signal), FieldV::Bool(r.core), fs(r.error), fs(r.lang)],
                ChannelReqType::Break(r) => seq![FieldV::U32(r.length)],
                _ => Seq::empty(),
            },
            _ => Seq::empty(),
        }
    }

    /// A trailing signature, present only in a signed `publickey` request.
    pub open spec fn spec_extra(&self) -> Seq<FieldV> {
        match self {
            Packet::UserauthRequest(p) => match p.method {
                AuthMethod::PubKey(m) => match m.sig {
                    Some(g) => seq![fs(g)],
                    None => Seq::empty(),
                },
                _ => Seq::empty(),
            },
            _ => Seq::empty(),
        }
    }

    pub open spec fn spec_shape(&self) -> Shape {
        match self {
            Packet::UserauthRequest(p) => if p.method is Unknown { Shape::Unknown } else { Shape::Known },
            Packet::ChannelOpen(p) => if p.ty is Unknown { Shape::Unknown } else { Shape::Known },
            Packet::ChannelRequest(p) => if p.req is Unknown { Shape::Unknown } else { Shape::Known },
            Packet::Userauth60(Userauth60::PwChangeReq(_)) => Shape::PwChange,
            _ => Shape::Known,
        }
    }

    /// Holds an `Unknown` variant, which can never be encoded.
    pub open spec fn has_unknown(&self) -> bool {
        self.spec_shape() is Unknown
    }

    /// The packet's value as the encoder sees it, given the force-signature flag.
    pub open spec fn view_ctx(&self, force: bool) -> PacketV {
        PacketV {
            num: self.spec_num(),
            fields: if self.has_unknown() {
                self.spec_head()
            } else {
                self.spec_head() + self.spec_var(force) + self.spec_extra()
            },
            shape: self.spec_shape(),
        }
    }

    /// The context under which this packet decodes as itself: message 60
    /// needs the matching authentication type.
    pub open spec fn ctx_fits(&self, ctx: ParseContext) -> bool {
        match self {
            Packet::Userauth60(Userauth60::PkOk(_)) => ctx.cli_auth_type == Some(AuthType::PubKey),
            Packet::Userauth60(Userauth60::PwChangeReq(_)) => ctx.cli_auth_type == Some(AuthType::Password),
            _ => true,
        }
    }
}

impl View for Packet {
    type V = PacketV;

    open spec fn view(&self) -> PacketV {
        self.view_ctx(false)
    }
}

proof fn lemma_conforms(f: Seq<FieldV>, schema: Seq<Kind>)
    requires
        f.map_values(|x: FieldV| kind_of(x)) =~= schema,
        forall|i: int| 0 <= i < f.len() ==> field_ok(#[trigger] f[i]),
    ensures
        conforms(f, schema),
{
    assert forall|i: int| 0 <= i < f.len() implies kind_of(#[trigger] f[i]) == schema[i] by {
        assert(f.map_values(|x: FieldV| kind_of(x))[i] == kind_of(f[i]));
    }
}

/// The three field groups of a packet that can be encoded follow the schemas
/// that decoding selects.
proof fn lemma_structured(p: &Packet, ctx: ParseContext)
    requires
        !p.has_unknown(),
        p.ctx_fits(ctx),
        packet_ok(p@),
    ensures
        schema_a(p.spec_num(), ctx) matches Ok(sa) && conforms(p.spec_head(), sa),
        schema_b(p.spec_num(), p.spec_head()) matches Some(sb) && conforms(p.spec_var(false), sb),
        conforms(p.spec_extra(), schema_c(p.spec_num(), p.spec_head(), p.spec_var(false))),
{
    let h = p.spec_head();
    let v = p.spec_var(false);
    let e = p.spec_extra();
    let all = h + v + e;
    assert(all == p@.fields);
    assert forall|i: int| 0 <= i < h.len() implies field_ok(#[trigger] h[i]) by {
        assert(all[i] == h[i]);
    }
    assert forall|i: int| 0 <= i < v.len() implies field_ok(#[trigger] v[i]) by {
        assert(all[h.len() + i] == v[i]);
    }
    assert forall|i: int| 0 <= i < e.len() implies field_ok(#[trigger] e[i]) by {
        assert(all[h.len() + v.len() + i] == e[i]);
    }
    lemma_names_distinct();
    let sa = schema_a(p.spec_num(), ctx)->Ok_0;
    let sb = schema_b(p.spec_num(), h)->Some_0;
    lemma_conforms(h, sa);
    lemma_conforms(v, sb);
    lemma_conforms(e, schema_c(p.spec_num(), h, v));
}

proof fn lemma_names_distinct()
    ensures
        spec_password() != spec_publickey(),
        spec_password() != spec_none(),
        spec_publickey() != spec_none(),
        spec_session() != spec_forwarded_tcpip(),
        spec_session() != spec_direct_tcpip(),
        spec_forwarded_tcpip() != spec_direct_tcpip(),
        spec_shell() != spec_exec(),
        spec_shell() != spec_subsystem(),
        spec_shell() != spec_signal(),
        spec_shell() != spec_pty_req(),
        spec_shell() != spec_window_change(),
        spec_shell() != spec_exit_status(),
        spec_shell() != spec_break(),
        spec_shell() != spec_exit_signal(),
        spec_exec() != spec_pty_req(),
        spec_subsystem() != spec_pty_req(),
        spec_signal() != spec_pty_req(),
        spec_exec() != spec_window_change(),
        spec_subsystem() != spec_window_change(),
        spec_signal() != spec_window_change(),
        spec_pty_req() != spec_window_change(),
        spec_exec() != spec_exit_status(),
        spec_exec() != spec_break(),
        spec_subsystem() != spec_exit_status(),
        spec_subsystem() != spec_break(),
        spec_signal() != spec_exit_status(),
        spec_signal() != spec_break(),
        spec_pty_req() != spec_exit_status(),
        spec_pty_req() != spec_break(),
        spec_window_change() != spec_exit_status(),
        spec_window_change() != spec_break(),
        spec_exec() != spec_exit_signal(),
        spec_subsystem() != spec_exit_signal(),
        spec_signal() != spec_exit_signal(),
        spec_pty_req() != spec_exit_signal(),
        spec_window_change() != spec_exit_signal(),
        spec_exit_status() != spec_exit_signal(),
        spec_break() != spec_exit_signal(),
{
    assert(spec_password().len() != spec_publickey().len());
    assert(spec_password().len() != spec_none().len());
    assert(spec_publickey().len() != spec_none().len());
    assert(spec_session().len() != spec_forwarded_tcpip().len());
    assert(spec_session().len() != spec_direct_tcpip().len());
    assert(spec_forwarded_tcpip().len() != spec_direct_tcpip().len());
    assert(spec_shell()[0] != spec_break()[0]);
    assert(spec_exit_status()[6] != spec_exit_signal()[6]);
    assert(spec_shell().len() != spec_exec().len());
    assert(spec_shell().len() != spec_subsystem().len());
    assert(spec_shell().len() != spec_signal().len());
    assert(spec_shell().len() != spec_pty_req().len());
    assert(spec_shell().len() != spec_window_change().len());
    assert(spec_shell().len() != spec_exit_status().len());
    assert(spec_shell().len() != spec_exit_signal().len());
    assert(spec_exec().len() != spec_pty_req().len());
    assert(spec_subsystem().len() != spec_pty_req().len());
    assert(spec_signal().len() != spec_pty_req().len());
    assert(spec_exec().len() != spec_window_change().len());
    assert(spec_subsystem().len() != spec_window_change().len());
    assert(spec_signal().len() != spec_window_change().len());
    assert(spec_pty_req().len() != spec_window_change().len());
    assert(spec_exec().len() != spec_exit_status().len());
    assert(spec_exec().len() != spec_break().len());
    assert(spec_subsystem().len() != spec_exit_status().len());
    assert(spec_subsystem().len() != spec_break().len());
    assert(spec_signal().len() != spec_exit_status().len());
    assert(spec_signal().len() != spec_break().len());
    assert(spec_pty_req().len() != spec_exit_status().len());
    assert(spec_pty_req().len() != spec_break().len());
    assert(spec_window_change().len() != spec_exit_status().len());
    assert(spec_window_change().len() != spec_break().len());
    assert(spec_exec().len() != spec_exit_signal().len());
    assert(spec_subsystem().len() != spec_exit_signal().len());
    assert(spec_signal().len() != spec_exit_signal().len());
    assert(spec_pty_req().len() != spec_exit_signal().len());
    assert(spec_window_change().len() != spec_exit_signal().len());
    assert(spec_break().len() != spec_exit_signal().len());
}

/// Round trip: a packet holding no `Unknown` variant, whose fields fit the
/// wire, decodes from its own encoding to the same value, under any context
/// whose authentication type matches a message 60.
pub proof fn lemma_packet_round_trip(p: &Packet, ctx: ParseContext)
    requires
        !p.has_unknown(),
        p.ctx_fits(ctx),
        packet_ok(p@),
    ensures
        spec_parse_packet(spec_enc_packet(p@), ctx) == Ok::<PacketV, Error>(p@),
{
    lemma_structured(p, ctx);
    let num = p.spec_num();
    let h = p.spec_head();
    let v = p.spec_var(false);
    let e = p.spec_extra();
    let sa = schema_a(num, ctx)->Ok_0;
    let sb = schema_b(num, h)->Some_0;
    let sc = schema_c(num, h, v);
    let s = spec_enc_packet(p@);
    lemma_enc_fields_append(h + v, e);
    lemma_enc_fields_append(h, v);
    let tail = enc_fields(v) + enc_fields(e);
    assert(s.skip(1) =~= enc_fields(h) + tail);
    lemma_fields_round_trip(sa, h, tail);
    lemma_fields_round_trip(sb, v, enc_fields(e));
    assert(enc_fields(e) =~= enc_fields(e) + Seq::<u8>::empty());
    lemma_fields_round_trip(sc, e, Seq::<u8>::empty());
    assert(s[0] == num);
}


fn fstr(x: &Vec<u8>) -> (r: Field)
    ensures
        r@ == fs(*x),
{
    Field::Str(to_vec(x.as_slice()))
}

impl AuthMethod {
    pub fn name(&self) -> (r: Vec<u8>)
        ensures
            r@ == self.spec_name(),
    {
        match self {
            AuthMethod::Password(_) => name_password(),
            AuthMethod::PubKey(_) => name_publickey(),
            AuthMethod::NoneMethod => name_none(),
            AuthMethod::Unknown(u) => to_vec(u.0.as_slice()),
        }
    }
}

impl ChannelOpenType {
    pub fn name(&self) -> (r: Vec<u8>)
        ensures
            r@ == self.spec_name(),
    {
        match self {
            ChannelOpenType::Session => name_session(),
            ChannelOpenType::ForwardedTcpip(_) => name_forwarded_tcpip(),
            ChannelOpenType::DirectTcpip(_) => name_direct_tcpip(),
            ChannelOpenType::Unknown(u) => to_vec(u.0.as_slice()),
        }
    }
}

impl ChannelReqType {
    pub fn name(&self) -> (r: Vec<u8>)
        ensures
            r@ == self.spec_name(),
    {
        match self {
            ChannelReqType::Shell => name_shell(),
            ChannelReqType::Exec(_) => name_exec(),
            ChannelReqType::Pty(_) => name_pty_req(),
            ChannelReqType::Subsystem(_) => name_subsystem(),
            ChannelReqType::WinChange(_) => name_window_change(),
            ChannelReqType::Signal(_) => name_signal(),
            ChannelReqType::ExitStatus(_) => name_exit_status(),
            ChannelReqType::ExitSignal(_) => name_exit_signal(),
            ChannelReqType::Break(_) => name_break(),
            ChannelReqType::Unknown(u) => to_vec(u.0.as_slice()),
        }
    }
}

impl Packet {
    /// The message number.
    pub fn message_num(&self) -> (r: u8)
        ensures
            r == self.spec_num(),
            spec_category(r) is Some,
    {
        match self {
            Packet::Disconnect(_) => 1,
            Packet::Ignore(_) => 2,
            Packet::Unimplemented(_) => 3,
            Packet::DebugPacket(_) => 4,
            Packet::ServiceRequest(_) => 5,
            Packet::ServiceAccept(_) => 6,
            Packet::KexInit(_) => 20,
            Packet::NewKeys(_) => 21,
            Packet::KexDHInit(_) => 30,
            Packet::KexDHReply(_) => 31,
            Packet::UserauthRequest(_) => 50,
            Packet::UserauthFailure(_) => 51,
            Packet::UserauthSuccess(_) => 52,
            Packet::UserauthBanner(_) => 53,
            Packet::Userauth60(_) => 60,
            Packet::ChannelOpen(_) => 90,
            Packet::ChannelOpenConfirmation(_) => 91,
            Packet::ChannelOpenFailure(_) => 92,
            Packet::ChannelWindowAdjust(_) => 93,
            Packet::ChannelData(_) => 94,
            Packet::ChannelDataExt(_) => 95,
            Packet::ChannelEof(_) => 96,
            Packet::ChannelClose(_) => 97,
            Packet::ChannelRequest(_) => 98,
            Packet::ChannelSuccess(_) => 99,
            Packet::ChannelFailure(_) => 100,
        }
    }

    /// The phase of the connection this packet belongs to.
    pub fn category(&self) -> (r: Category)
        ensures
            spec_category(self.spec_num()) == Some(r),
    {
        category_of(self.message_num()).unwrap()
    }

    /// Whether the packet holds an `Unknown` variant.
    pub fn is_unknown(&self) -> (r: bool)
        ensures
            r == self.has_unknown(),
    {
        match self {
            Packet::UserauthRequest(p) => matches!(p.method, AuthMethod::Unknown(_)),
            Packet::ChannelOpen(p) => matches!(p.ty, ChannelOpenType::Unknown(_)),
            Packet::ChannelRequest(p) => matches!(p.req, ChannelReqType::Unknown(_)),
            _ => false,
        }
    }

    fn head_fields(&self) -> (r: Vec<Field>)
        ensures
            fields_view(r@) =~= self.spec_head(),
    {
        match self {
            Packet::Disconnect(p) => vec![Field::U32(p.reason), fstr(&p.desc), fstr(&p.lang)],
            Packet::Unimplemented(p) => vec![Field::U32(p.seq)],
            Packet::DebugPacket(p) => vec![Field::Bool(p.always_display), fstr(&p.message), fstr(&p.lang)],
            Packet::ServiceRequest(p) => vec![fstr(&p.name)],
            Packet::ServiceAccept(p) => vec![fstr(&p.name)],
            Packet::KexInit(p) => vec![Field::Fixed(to_vec(p.cookie.as_slice())), fstr(&p.kex),
                fstr(&p.hostsig), fstr(&p.cipher_c2s), fstr(&p.cipher_s2c), fstr(&p.mac_c2s),
                fstr(&p.mac_s2c), fstr(&p.comp_c2s), fstr(&p.comp_s2c), fstr(&p.lang_c2s),
                fstr(&p.lang_s2c), Field::Bool(p.first_follows), Field::U32(p.reserved)],
            Packet::KexDHInit(p) => vec![fstr(&p.q_c)],
            Packet::KexDHReply(p) => vec![fstr(&p.k_s), fstr(&p.q_s), fstr(&p.sig)],
            Packet::UserauthRequest(p) => vec![fstr(&p.username), fstr(&p.service), Field::Str(p.method.name())],
            Packet::UserauthFailure(p) => vec![fstr(&p.methods), Field::Bool(p.partial)],
            Packet::UserauthBanner(p) => vec![fstr(&p.message), fstr(&p.lang)],
            Packet::Userauth60(Userauth60::PkOk(p)) => vec![fstr(&p.algo), fstr(&p.key)],
            Packet::Userauth60(Userauth60::PwChangeReq(p)) => vec![fstr(&p.prompt), fstr(&p.lang)],
            Packet::ChannelOpen(p) => vec![Field::Str(p.ty.name()), Field::U32(p.num),
                Field::U32(p.initial_window), Field::U32(p.max_packet)],
            Packet::ChannelOpenConfirmation(p) => vec![Field::U32(p.num), Field::U32(p.sender_num),
                Field::U32(p.initial_window), Field::U32(p.max_packet)],
            Packet::ChannelOpenFailure(p) => vec![Field::U32(p.num), Field::U32(p.reason), fstr(&p.desc), fstr(&p.lang)],
            Packet::ChannelWindowAdjust(p) => vec![Field::U32(p.num), Field::U32(p.adjust)],
            Packet::ChannelData(p) => vec![Field::U32(p.num), fstr(&p.data)],
            Packet::ChannelDataExt(p) => vec![Field::U32(p.num), Field::U32(p.code), fstr(&p.data)],
            Packet::ChannelEof(p) => vec![Field::U32(p.num)],
            Packet::ChannelClose(p) => vec![Field::U32(p.num)],
            Packet::ChannelRequest(p) => vec![Field::U32(p.num), Field::Str(p.req.name()), Field::Bool(p.want_reply)],
            Packet::ChannelSuccess(p) => vec![Field::U32(p.num)],
            Packet::ChannelFailure(p) => vec![Field::U32(p.num)],
            _ => Vec::new(),
        }
    }

    fn var_fields(&self, force: bool) -> (r: Vec<Field>)
        ensures
            fields_view(r@) =~= self.spec_var(force),
    {
        match self {
            Packet::UserauthRequest(p) => match &p.method {
                AuthMethod::Password(m) => vec![Field::Bool(m.change), fstr(&m.password)],
                AuthMethod::PubKey(m) => vec![Field::Bool(m.sig.is_some() || force), fstr(&m.sig_algo), fstr(&m.pubkey)],
                _ => Vec::new(),
            },
            Packet::ChannelOpen(p) => match &p.ty {
                ChannelOpenType::ForwardedTcpip(t) => vec![fstr(&t.address), Field::U32(t.port), fstr(&t.origin), Field::U32(t.origin_port)],
                ChannelOpenType::DirectTcpip(t) => vec![fstr(&t.address), Field::U32(t.port), fstr(&t.origin), Field::U32(t.origin_port)],
                _ => Vec::new(),
            },
            Packet::ChannelRequest(p) => match &p.req {
                ChannelReqType::Exec(r) => vec![fstr(&r.command)],
                ChannelReqType::Pty(r) => vec![fstr(&r.term), Field::U32(r.cols), Field::U32(r.rows),
                    Field::U32(r.width), Field::U32(r.height), fstr(&r.modes)],
                ChannelReqType::Subsystem(r) => vec![fstr(&r.subsystem)],
                ChannelReqType::WinChange(r) => vec![Field::U32(r.cols), Field::U32(r.rows),
                    Field::U32(r.width), Field::U32(r.height)],
                ChannelReqType::Signal(r) => vec![fstr(&r.sig)],
                ChannelReqType::ExitStatus(r) => vec![Field::U32(r.status)],
                ChannelReqType::ExitSignal(r) => vec![fstr(&r.signal), Field::Bool(r.core), fstr(&r.error), fstr(&r.lang)],
                ChannelReqType::Break(r) => vec![Field::U32(r.length)],
                _ => Vec::new(),
            },
            _ => Vec::new(),
        }
    }

    fn extra_fields(&self) -> (r: Vec<Field>)
        ensures
            fields_view(r@) =~= self.spec_extra(),
    {
        match self {
            Packet::UserauthRequest(p) => match &p.method {
                AuthMethod::PubKey(m) => match &m.sig {
                    Some(g) => vec![fstr(g)],
                    None => Vec::new(),
                },
                _ => Vec::new(),
            },
            _ => Vec::new(),
        }
    }
}

/// The category of a message number, if it is known.
pub fn category_of(num: u8) -> (r: Option<Category>)
    ensures
        r == spec_category(num),
{
    if 1 <= num && num <= 4 || num == 20 {
        Some(Category::All)
    } else if num == 5 || num == 6 || (50 <= num && num <= 53) || num == 60 {
        Some(Category::Auth)
    } else if num == 21 || num == 30 || num == 31 {
        Some(Category::Kex)
    } else if 90 <= num && num <= 100 {
        Some(Category::Sess)
    } else {
        None
    }
}

fn field_fits(f: &Field) -> (r: bool)
    ensures
        r == field_ok(f@),
{
    match f {
        Field::Str(s) => s.len() <= 0xffff_ffff,
        Field::Fixed(s) => s.len() == crate::wire::FIXED_LEN,
        _ => true,
    }
}

/// Appends the payload encoding of `p` to `out`. `ctx.method_pubkey_force_sig_bool`
/// selects the form of a `publickey` request that is signed.
///
/// A packet holding an `Unknown` variant is refused with `NoEncode`, and one
/// with a string too long for its length prefix (or a cookie that is not 16
/// bytes) with `BadLength`; `out` is then unchanged.
pub fn encode_packet(p: &Packet, ctx: &ParseContext, out: &mut Vec<u8>) -> (r: Result<(), Error>)
    ensures
        p.has_unknown() ==> r == Err::<(), Error>(Error::NoEncode),
        !p.has_unknown() && !packet_ok(p.view_ctx(ctx.method_pubkey_force_sig_bool))
            ==> r == Err::<(), Error>(Error::BadLength),
        r is Err ==> final(out)@ == old(out)@,
        (r is Ok) == (!p.has_unknown() && packet_ok(p.view_ctx(ctx.method_pubkey_force_sig_bool))),
        r is Ok ==> final(out)@ == old(out)@ + spec_enc_packet(p.view_ctx(ctx.method_pubkey_force_sig_bool)),
{
    if p.is_unknown() {
        return Err(Error::NoEncode);
    }
    let ghost v = p.view_ctx(ctx.method_pubkey_force_sig_bool);
    let mut fields = p.head_fields();
    let mut var = p.var_fields(ctx.method_pubkey_force_sig_bool);
    let mut extra = p.extra_fields();
    let ghost (h, va, e) = (fields@, var@, extra@);
    fields.append(&mut var);
    fields.append(&mut extra);
    assert(fields_view(fields@) =~= fields_view(h) + fields_view(va) + fields_view(e));
    assert(fields_view(fields@) =~= v.fields);
    let mut i: usize = 0;
    while i < fields.len()
        invariant
            i <= fields@.len(),
            !p.has_unknown(),
            v == p.view_ctx(ctx.method_pubkey_force_sig_bool),
            fields_view(fields@) == v.fields,
            forall|j: int| 0 <= j < i ==> field_ok(#[trigger] fields@[j]@),
        decreases fields@.len() - i,
    {
        if !field_fits(&fields[i]) {
            assert(v.fields[i as int] == fields@[i as int]@);
            assert(!field_ok(v.fields[i as int]));
            assert(!packet_ok(v));
            return Err(Error::BadLength);
        }
        i = i + 1;
    }
    assert forall|j: int| 0 <= j < v.fields.len() implies field_ok(#[trigger] v.fields[j]) by {
        assert(v.fields[j] == fields@[j]@);
    }
    out.push(p.message_num());
    put_fields(out, &fields);
    assert(out@ =~= old(out)@ + spec_enc_packet(v));
    Ok(())
}


fn schema_a_exec(num: u8, ctx: &ParseContext) -> (r: Result<Vec<Kind>, Error>)
    ensures
        match schema_a(num, *ctx) {
            Ok(v) => r matches Ok(w) && w@ == v,
            Err(e) => r == Err::<Vec<Kind>, Error>(e),
        },
{
    let r = if category_of(num).is_none() {
        Err(Error::UnknownPacket { number: num })
    } else if num == 1 {
        Ok(vec![Kind::U32, Kind::Str, Kind::Str])
    } else if num == 3 {
        Ok(vec![Kind::U32])
    } else if num == 4 {
        Ok(vec![Kind::Bool, Kind::Str, Kind::Str])
    } else if num == 5 || num == 6 || num == 30 {
        Ok(vec![Kind::Str])
    } else if num == 20 {
        Ok(vec![Kind::Fixed, Kind::Str, Kind::Str, Kind::Str, Kind::Str, Kind::Str, Kind::Str,
            Kind::Str, Kind::Str, Kind::Str, Kind::Str, Kind::Bool, Kind::U32])
    } else if num == 31 {
        Ok(vec![Kind::Str, Kind::Str, Kind::Str])
    } else if num == 50 {
        Ok(vec![Kind::Str, Kind::Str, Kind::Str])
    } else if num == 51 {
        Ok(vec![Kind::Str, Kind::Bool])
    } else if num == 53 {
        Ok(vec![Kind::Str, Kind::Str])
    } else if num == 60 {
        if ctx.cli_auth_type.is_none() {
            Err(Error::PacketWrong)
        } else {
            Ok(vec![Kind::Str, Kind::Str])
        }
    } else if num == 90 {
        Ok(vec![Kind::Str, Kind::U32, Kind::U32, Kind::U32])
    } else if num == 91 {
        Ok(vec![Kind::U32, Kind::U32, Kind::U32, Kind::U32])
    } else if num == 92 {
        Ok(vec![Kind::U32, Kind::U32, Kind::Str, Kind::Str])
    } else if num == 93 {
        Ok(vec![Kind::U32, Kind::U32])
    } else if num == 94 {
        Ok(vec![Kind::U32, Kind::Str])
    } else if num == 95 {
        Ok(vec![Kind::U32, Kind::U32, Kind::Str])
    } else if num == 98 {
        Ok(vec![Kind::U32, Kind::Str, Kind::Bool])
    } else if num == 96 || num == 97 || num == 99 || num == 100 {
        Ok(vec![Kind::U32])
    } else {
        Ok(Vec::new())
    };
    proof {
        if r is Ok {
            assert(r->Ok_0@ =~= schema_a(num, *ctx)->Ok_0);
        }
    }
    r
}

fn schema_b_exec(num: u8, ctx: &ParseContext, head: &Vec<Field>) -> (r: Option<Vec<Kind>>)
    requires
        schema_a(num, *ctx) matches Ok(sa) && kinds_match(fields_view(head@), sa),
    ensures
        match schema_b(num, fields_view(head@)) {
            Some(v) => r matches Some(w) && w@ == v,
            None => r is None,
        },
{
    let ghost hv = fields_view(head@);
    let r = if num == 50 {
        let name = get_str_field(head, 2);
        let n = name.as_slice();
        if bytes_eq(n, name_password().as_slice()) {
            Some(vec![Kind::Bool, Kind::Str])
        } else if bytes_eq(n, name_publickey().as_slice()) {
            Some(vec![Kind::Bool, Kind::Str, Kind::Str])
        } else if bytes_eq(n, name_none().as_slice()) {
            Some(Vec::new())
        } else {
            None
        }
    } else if num == 90 {
        let name = get_str_field(head, 0);
        let n = name.as_slice();
        if bytes_eq(n, name_session().as_slice()) {
            Some(Vec::new())
        } else if bytes_eq(n, name_forwarded_tcpip().as_slice()) || bytes_eq(n, name_direct_tcpip().as_slice()) {
            Some(vec![Kind::Str, Kind::U32, Kind::Str, Kind::U32])
        } else {
            None
        }
    } else if num == 98 {
        let name = get_str_field(head, 1);
        let n = name.as_slice();
        if bytes_eq(n, name_shell().as_slice()) {
            Some(Vec::new())
        } else if bytes_eq(n, name_exec().as_slice()) || bytes_eq(n, name_subsystem().as_slice())
            || bytes_eq(n, name_signal().as_slice()) {
            Some(vec![Kind::Str])
        } else if bytes_eq(n, name_pty_req().as_slice()) {
            Some(vec![Kind::Str, Kind::U32, Kind::U32, Kind::U32, Kind::U32, Kind::Str])
        } else if bytes_eq(n, name_window_change().as_slice()) {
            Some(vec![Kind::U32, Kind::U32, Kind::U32, Kind::U32])
        } else if bytes_eq(n, name_exit_status().as_slice()) || bytes_eq(n, name_break().as_slice()) {
            Some(vec![Kind::U32])
        } else if bytes_eq(n, name_exit_signal().as_slice()) {
            Some(vec![Kind::Str, Kind::Bool, Kind::Str, Kind::Str])
        } else {
            None
        }
    } else {
        Some(Vec::new())
    };
    proof {
        if r is Some {
            assert(r->Some_0@ =~= schema_b(num, hv)->Some_0);
        }
    }
    r
}

fn schema_c_exec(num: u8, ctx: &ParseContext, head: &Vec<Field>, var: &Vec<Field>) -> (r: Vec<Kind>)
    requires
        schema_a(num, *ctx) matches Ok(sa) && kinds_match(fields_view(head@), sa),
        schema_b(num, fields_view(head@)) matches Some(sb) && kinds_match(fields_view(var@), sb),
    ensures
        r@ == schema_c(num, fields_view(head@), fields_view(var@)),
{
    if num == 50 {
        let name = get_str_field(head, 2);
        if bytes_eq(name.as_slice(), name_publickey().as_slice()) {
            proof { lemma_names_distinct(); }
            if get_bool_field(var, 0) {
                let r = vec![Kind::Str];
                assert(r@ =~= seq![Kind::Str]);
                return r;
            }
        }
    }
    let r: Vec<Kind> = Vec::new();
    assert(r@ =~= Seq::<Kind>::empty());
    r
}

/// Builds the packet for a name that is not known.
fn build_unknown(num: u8, ctx: &ParseContext, head: &Vec<Field>) -> (r: Packet)
    requires
        schema_a(num, *ctx) matches Ok(sa) && kinds_match(fields_view(head@), sa),
        schema_b(num, fields_view(head@)) is None,
    ensures
        r@ == (PacketV { num, fields: fields_view(head@), shape: Shape::Unknown }),
{
    proof { lemma_names_distinct(); }
    let r = if num == 50 {
        Packet::UserauthRequest(UserauthRequest {
            username: get_str_field(head, 0),
            service: get_str_field(head, 1),
            method: AuthMethod::Unknown(Unknown(get_str_field(head, 2))),
        })
    } else if num == 90 {
        Packet::ChannelOpen(ChannelOpen {
            num: get_u32_field(head, 1),
            initial_window: get_u32_field(head, 2),
            max_packet: get_u32_field(head, 3),
            ty: ChannelOpenType::Unknown(Unknown(get_str_field(head, 0))),
        })
    } else {
        Packet::ChannelRequest(ChannelRequest {
            num: get_u32_field(head, 0),
            want_reply: get_bool_field(head, 2),
            req: ChannelReqType::Unknown(Unknown(get_str_field(head, 1))),
        })
    };
    assert(r.spec_head() =~= fields_view(head@));
    r
}

/// Builds the packet from its three decoded field groups.
#[verifier::rlimit(60)]
fn build(num: u8, ctx: &ParseContext, head: Vec<Field>, var: Vec<Field>, extra: Vec<Field>) -> (r: Packet)
    requires
        schema_a(num, *ctx) matches Ok(sa) && kinds_match(fields_view(head@), sa),
        schema_b(num, fields_view(head@)) matches Some(sb) && kinds_match(fields_view(var@), sb),
        kinds_match(fields_view(extra@), schema_c(num, fields_view(head@), fields_view(var@))),
    ensures
        r@ == (PacketV {
            num,
            fields: fields_view(head@) + fields_view(var@) + fields_view(extra@),
            shape: if num == 60 && ctx.cli_auth_type == Some(AuthType::Password) {
                Shape::PwChange
            } else {
                Shape::Known
            },
        }),
{
    proof { lemma_names_distinct(); }
    let r = if num == 1 {
            Packet::Disconnect(Disconnect { reason: get_u32_field(&head, 0), desc: get_str_field(&head, 1), lang: get_str_field(&head, 2) })
    } else if num == 2 {
            Packet::Ignore(Ignore {})
    } else if num == 3 {
            Packet::Unimplemented(Unimplemented { seq: get_u32_field(&head, 0) })
    } else if num == 4 {
            Packet::DebugPacket(DebugPacket { always_display: get_bool_field(&head, 0), message: get_str_field(&head, 1), lang: get_str_field(&head, 2) })
    } else if num == 5 {
            Packet::ServiceRequest(ServiceRequest { name: get_str_field(&head, 0) })
    } else if num == 6 {
            Packet::ServiceAccept(ServiceAccept { name: get_str_field(&head, 0) })
    } else if num == 20 {
            Packet::KexInit(KexInit {
                cookie: get_fixed_field(&head, 0),
                kex: get_str_field(&head, 1),
                hostsig: get_str_field(&head, 2),
                cipher_c2s: get_str_field(&head, 3),
                cipher_s2c: get_str_field(&head, 4),
                mac_c2s: get_str_field(&head, 5),
                mac_s2c: get_str_field(&head, 6),
                comp_c2s: get_str_field(&head, 7),
                comp_s2c: get_str_field(&head, 8),
                lang_c2s: get_str_field(&head, 9),
                lang_s2c: get_str_field(&head, 10),
                first_follows: get_bool_field(&head, 11),
                reserved: get_u32_field(&head, 12),
            })
    } else if num == 21 {
            Packet::NewKeys(NewKeys {})
    } else if num == 30 {
            Packet::KexDHInit(KexDHInit { q_c: get_str_field(&head, 0) })
    } else if num == 31 {
            Packet::KexDHReply(KexDHReply { k_s: get_str_field(&head, 0), q_s: get_str_field(&head, 1), sig: get_str_field(&head, 2) })
    } else if num == 50 {
            let name = get_str_field(&head, 2);
            let method = if bytes_eq(name.as_slice(), name_password().as_slice()) {
                AuthMethod::Password(MethodPassword { change: get_bool_field(&var, 0), password: get_str_field(&var, 1) })
            } else if bytes_eq(name.as_slice(), name_publickey().as_slice()) {
                let has_sig = get_bool_field(&var, 0);
                let sig = if has_sig { Some(get_str_field(&extra, 0)) } else { None };
                AuthMethod::PubKey(MethodPubKey { sig_algo: get_str_field(&var, 1), pubkey: get_str_field(&var, 2), sig })
            } else {
                AuthMethod::NoneMethod
            };
            Packet::UserauthRequest(UserauthRequest { username: get_str_field(&head, 0), service: get_str_field(&head, 1), method })
    } else if num == 51 {
            Packet::UserauthFailure(UserauthFailure { methods: get_str_field(&head, 0), partial: get_bool_field(&head, 1) })
    } else if num == 52 {
            Packet::UserauthSuccess(UserauthSuccess {})
    } else if num == 53 {
            Packet::UserauthBanner(UserauthBanner { message: get_str_field(&head, 0), lang: get_str_field(&head, 1) })
    } else if num == 60 {
            if ctx.cli_auth_type == Some(AuthType::Password) {
                Packet::Userauth60(Userauth60::PwChangeReq(UserauthPwChangeReq { prompt: get_str_field(&head, 0), lang: get_str_field(&head, 1) }))
            } else {
                Packet::Userauth60(Userauth60::PkOk(UserauthPkOk { algo: get_str_field(&head, 0), key: get_str_field(&head, 1) }))
            }
    } else if num == 90 {
            let name = get_str_field(&head, 0);
            let ty = if bytes_eq(name.as_slice(), name_session().as_slice()) {
                ChannelOpenType::Session
            } else if bytes_eq(name.as_slice(), name_forwarded_tcpip().as_slice()) {
                ChannelOpenType::ForwardedTcpip(ForwardedTcpip { address: get_str_field(&var, 0), port: get_u32_field(&var, 1), origin: get_str_field(&var, 2), origin_port: get_u32_field(&var, 3) })
            } else {
                ChannelOpenType::DirectTcpip(DirectTcpip { address: get_str_field(&var, 0), port: get_u32_field(&var, 1), origin: get_str_field(&var, 2), origin_port: get_u32_field(&var, 3) })
            };
            Packet::ChannelOpen(ChannelOpen { num: get_u32_field(&head, 1), initial_window: get_u32_field(&head, 2), max_packet: get_u32_field(&head, 3), ty })
    } else if num == 91 {
            Packet::ChannelOpenConfirmation(ChannelOpenConfirmation { num: get_u32_field(&head, 0), sender_num: get_u32_field(&head, 1), initial_window: get_u32_field(&head, 2), max_packet: get_u32_field(&head, 3) })
    } else if num == 92 {
            Packet::ChannelOpenFailure(ChannelOpenFailure { num: get_u32_field(&head, 0), reason: get_u32_field(&head, 1), desc: get_str_field(&head, 2), lang: get_str_field(&head, 3) })
    } else if num == 93 {
            Packet::ChannelWindowAdjust(ChannelWindowAdjust { num: get_u32_field(&head, 0), adjust: get_u32_field(&head, 1) })
    } else if num == 94 {
            Packet::ChannelData(ChannelData { num: get_u32_field(&head, 0), data: get_str_field(&head, 1) })
    } else if num == 95 {
            Packet::ChannelDataExt(ChannelDataExt { num: get_u32_field(&head, 0), code: get_u32_field(&head, 1), data: get_str_field(&head, 2) })
    } else if num == 96 {
            Packet::ChannelEof(ChannelEof { num: get_u32_field(&head, 0) })
    } else if num == 97 {
            Packet::ChannelClose(ChannelClose { num: get_u32_field(&head, 0) })
    } else if num == 98 {
            let name = get_str_field(&head, 1);
            let n = name.as_slice();
            let req = if bytes_eq(n, name_shell().as_slice()) {
                ChannelReqType::Shell
            } else if bytes_eq(n, name_exec().as_slice()) {
                ChannelReqType::Exec(Exec { command: get_str_field(&var, 0) })
            } else if bytes_eq(n, name_subsystem().as_slice()) {
                ChannelReqType::Subsystem(Subsystem { subsystem: get_str_field(&var, 0) })
            } else if bytes_eq(n, name_signal().as_slice()) {
                ChannelReqType::Signal(Signal { sig: get_str_field(&var, 0) })
            } else if bytes_eq(n, name_pty_req().as_slice()) {
                ChannelReqType::Pty(Pty { term: get_str_field(&var, 0), cols: get_u32_field(&var, 1), rows: get_u32_field(&var, 2), width: get_u32_field(&var, 3), height: get_u32_field(&var, 4), modes: get_str_field(&var, 5) })
            } else if bytes_eq(n, name_window_change().as_slice()) {
                ChannelReqType::WinChange(WinChange { cols: get_u32_field(&var, 0), rows: get_u32_field(&var, 1), width: get_u32_field(&var, 2), height: get_u32_field(&var, 3) })
            } else if bytes_eq(n, name_exit_status().as_slice()) {
                ChannelReqType::ExitStatus(ExitStatus { status: get_u32_field(&var, 0) })
            } else if bytes_eq(n, name_break().as_slice()) {
                ChannelReqType::Break(Break { length: get_u32_field(&var, 0) })
            } else {
                ChannelReqType::ExitSignal(ExitSignal { signal: get_str_field(&var, 0), core: get_bool_field(&var, 1), error: get_str_field(&var, 2), lang: get_str_field(&var, 3) })
            };
            Packet::ChannelRequest(ChannelRequest { num: get_u32_field(&head, 0), want_reply: get_bool_field(&head, 2), req })
    } else if num == 99 {
            Packet::ChannelSuccess(ChannelSuccess { num: get_u32_field(&head, 0) })
    } else if num == 100 {
            Packet::ChannelFailure(ChannelFailure { num: get_u32_field(&head, 0) })
    } else {
        Packet::Ignore(Ignore {})
    };
    assert(r.spec_head() =~= fields_view(head@));
    assert(r.spec_var(false) =~= fields_view(var@));
    assert(r.spec_extra() =~= fields_view(extra@));
    r
}

/// Decodes a packet payload under the given context.
///
/// The result is exactly [`spec_parse_packet`]: unknown message numbers,
/// short input, bad lengths and trailing bytes are errors; a variant name
/// that is not known decodes to an `Unknown` variant.
pub fn decode_packet(s: &[u8], ctx: &ParseContext) -> (r: Result<Packet, Error>)
    ensures
        match spec_parse_packet(s@, *ctx) {
            Ok(v) => r matches Ok(p) && p@ == v,
            Err(e) => r == Err::<Packet, Error>(e),
        },
{
    if s.len() == 0 {
        return Err(Error::RanOut);
    }
    let num = s[0];
    let sa = match schema_a_exec(num, ctx) {
        Ok(sa) => sa,
        Err(e) => return Err(e),
    };
    let (head, after_head) = match get_fields(sa.as_slice(), s, 1) {
        Ok(x) => x,
        Err(e) => return Err(e),
    };
    proof { lemma_parse_kinds(sa@, s@.skip(1)); }
    let sb = match schema_b_exec(num, ctx, &head) {
        Some(sb) => sb,
        None => return Ok(build_unknown(num, ctx, &head)),
    };
    let (var, after_var) = match get_fields(sb.as_slice(), s, after_head) {
        Ok(x) => x,
        Err(e) => return Err(e),
    };
    proof { lemma_parse_kinds(sb@, s@.skip(after_head as int)); }
    let sc = schema_c_exec(num, ctx, &head, &var);
    let (extra, end) = match get_fields(sc.as_slice(), s, after_var) {
        Ok(x) => x,
        Err(e) => return Err(e),
    };
    proof { lemma_parse_kinds(sc@, s@.skip(after_var as int)); }
    if end != s.len() {
        return Err(Error::SSHProtoError);
    }
    Ok(build(num, ctx, head, var, extra))
}

} // verus!
