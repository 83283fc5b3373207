use sunset::error::Error;
use sunset::namelist::{has_algo, join_names, split_names};
use sunset::packets::{
    category_of, decode_packet, encode_packet, AuthMethod, Category, ChannelOpen, ChannelOpenType, DirectTcpip,
    MessageNumber, MethodPubKey, Packet, ParseContext, Unknown, UserauthRequest,
};

/// Encodes, decodes and encodes again, checking both encodings agree.
fn test_roundtrip(p: &Packet, ctx: &ParseContext) -> Vec<u8> {
    let mut buf = vec![];
    encode_packet(p, ctx, &mut buf).unwrap();
    let decoded = decode_packet(&buf, ctx).unwrap();
    let mut buf2 = vec![];
    encode_packet(&decoded, ctx, &mut buf2).unwrap();
    assert_eq!(buf, buf2);
    buf
}

fn ed25519_blob() -> Vec<u8> {
    let mut b = vec![0, 0, 0, 11];
    b.extend_from_slice(b"ssh-ed25519");
    b.extend_from_slice(&[0, 0, 0, 32]);
    b.extend_from_slice(&[0x42u8; 32]);
    b
}

#[test]
fn packet_type() {
    for i in 0..=255u8 {
        let ty = MessageNumber::from_u8(i);
        if let Ok(ty) = ty {
            assert_eq!(i, ty.as_u8());
            assert!(category_of(i).is_some());
        } else {
            assert_eq!(ty, Err(Error::UnknownPacket { number: i }));
        }
    }
}

#[test]
fn roundtrip_authpubkey() {
    let ctx = ParseContext::new();
    // with None sig
    let p = Packet::UserauthRequest(UserauthRequest {
        username: b"matt".to_vec(),
        service: b"conn".to_vec(),
        method: AuthMethod::PubKey(MethodPubKey { sig_algo: b"ssh-ed25519".to_vec(), pubkey: ed25519_blob(), sig: None }),
    });
    test_roundtrip(&p, &ctx);

    // again with a near-genuine sig
    let mut sig = vec![0, 0, 0, 11];
    sig.extend_from_slice(b"ssh-ed25519");
    sig.extend_from_slice(&[0, 0, 0, 9]);
    sig.extend_from_slice(b"something");
    let p = Packet::UserauthRequest(UserauthRequest {
        username: b"matt".to_vec(),
        service: b"conn".to_vec(),
        method: AuthMethod::PubKey(MethodPubKey { sig_algo: b"ssh-ed25519".to_vec(), pubkey: ed25519_blob(), sig: Some(sig) }),
    });
    test_roundtrip(&p, &ctx);
}

#[test]
fn roundtrip_channel_open() {
    let ctx = ParseContext::new();
    let p = Packet::ChannelOpen(ChannelOpen {
        num: 111,
        initial_window: 50000,
        max_packet: 20000,
        ty: ChannelOpenType::DirectTcpip(DirectTcpip {
            address: b"localhost".to_vec(),
            port: 4444,
            origin: b"somewhere".to_vec(),
            origin_port: 0,
        }),
    });
    test_roundtrip(&p, &ctx);

    let p = Packet::ChannelOpen(ChannelOpen { num: 0, initial_window: 899, max_packet: 14, ty: ChannelOpenType::Session });
    let buf = test_roundtrip(&p, &ctx);
    let mut expect = vec![90u8, 0, 0, 0, 7];
    expect.extend_from_slice(b"session");
    expect.extend_from_slice(&[0, 0, 0, 0, 0, 0, 3, 131, 0, 0, 0, 14]);
    assert_eq!(buf, expect);
}

#[test]
fn unknown_method() {
    let p = Packet::ChannelOpen(ChannelOpen { num: 0, initial_window: 899, max_packet: 14, ty: ChannelOpenType::Session });
    let mut buf1 = vec![];
    encode_packet(&p, &ParseContext::new(), &mut buf1).unwrap();
    // change a byte
    buf1[8] = 'X' as u8;
    let ctx = ParseContext::new();
    let decoded = decode_packet(&buf1, &ctx).unwrap();
    match decoded {
        Packet::ChannelOpen(ChannelOpen { ty: ChannelOpenType::Unknown(Unknown(name)), num, initial_window, .. }) => {
            assert_eq!(name, b"sesXion".to_vec());
            assert_eq!(num, 0);
            assert_eq!(initial_window, 899);
        },
        _ => panic!("expected an unknown channel type"),
    }
}

#[test]
#[should_panic]
fn unknown_method_ser() {
    let p = Packet::ChannelOpen(ChannelOpen {
        num: 0,
        initial_window: 200000,
        max_packet: 88200,
        ty: ChannelOpenType::Unknown(Unknown(b"audio-stream".to_vec())),
    });
    let mut buf1 = vec![88; 1000];
    encode_packet(&p, &ParseContext::new(), &mut buf1).unwrap();
}

#[test]
fn unknown_channel_type_audio_stream() {
    let mut wire = vec![90u8, 0, 0, 0, 12];
    wire.extend_from_slice(b"audio-stream");
    wire.extend_from_slice(&[0, 0, 0, 1, 0, 0, 16, 0, 0, 0, 8, 0, 1, 2, 3]);
    let p = decode_packet(&wire, &ParseContext::new()).unwrap();
    assert!(p.is_unknown());
    assert_eq!(p.category(), Category::Sess);
    let mut out = vec![1u8, 2];
    assert_eq!(encode_packet(&p, &ParseContext::new(), &mut out), Err(Error::NoEncode));
    assert_eq!(out, vec![1u8, 2]);
}

#[test]
fn empty_payload_packets() {
    let ctx = ParseContext::new();
    assert!(matches!(decode_packet(&[21], &ctx), Ok(Packet::NewKeys(_))));
    assert!(matches!(decode_packet(&[52], &ctx), Ok(Packet::UserauthSuccess(_))));
    assert_eq!(decode_packet(&[], &ctx).unwrap_err(), Error::RanOut);
    assert_eq!(decode_packet(&[52, 0], &ctx).unwrap_err(), Error::SSHProtoError);
    assert_eq!(decode_packet(&[200], &ctx).unwrap_err(), Error::UnknownPacket { number: 200 });
    // message 60 needs to know which request it answers
    assert_eq!(decode_packet(&[60, 0, 0, 0, 0, 0, 0, 0, 0], &ctx).unwrap_err(), Error::PacketWrong);
}

#[test]
fn length_prefix_beyond_input_rejected() {
    let ctx = ParseContext::new();
    assert_eq!(decode_packet(&[94, 0, 0, 0, 1, 0xff, 0xff, 0xff, 0xff], &ctx).unwrap_err(), Error::BadLength);
    assert_eq!(decode_packet(&[94, 0, 0, 0, 1, 0, 0, 0, 5, 1, 2], &ctx).unwrap_err(), Error::BadLength);
    assert_eq!(decode_packet(&[94, 0, 0, 0], &ctx).unwrap_err(), Error::RanOut);
}

#[test]
fn namelists() {
    let names = split_names(b"curve25519-sha256,ext-info-c,kexguess2@matt.ucc.asn.au");
    assert_eq!(names.len(), 3);
    assert_eq!(names[1], b"ext-info-c".to_vec());
    assert!(has_algo(b"publickey,password", b"password"));
    assert!(!has_algo(b"publickey,password", b"pass"));
    assert!(split_names(b"").is_empty());
    assert_eq!(join_names(&names), b"curve25519-sha256,ext-info-c,kexguess2@matt.ucc.asn.au".to_vec());
}
