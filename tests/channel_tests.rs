use sunset::channel::{ChanState, Channels, ReqKind, SSH_OPEN_RESOURCE_SHORTAGE, SSH_OPEN_UNKNOWN_CHANNEL_TYPE};
use sunset::error::Error;
use sunset::packets::{ChannelOpen, ChannelOpenConfirmation, ChannelOpenType, ChannelReqType, Exec, Packet, Unknown};

fn open_channel(chans: &mut Channels, window: u32, max: u32) -> u32 {
    let p = chans.open(ChannelOpenType::Session, window, max).unwrap();
    let num = match p {
        Packet::ChannelOpen(o) => o.num,
        _ => panic!("expected ChannelOpen"),
    };
    chans
        .handle_open_confirmation(&ChannelOpenConfirmation { num, sender_num: 77, initial_window: window, max_packet: max })
        .unwrap();
    num
}

#[test]
fn channel_data_windowing() {
    let mut chans = Channels::new();
    let num = open_channel(&mut chans, 32 * 1024, 16 * 1024);
    let data = vec![0xabu8; 100 * 1024];
    let mut sent = 0usize;
    let mut in_flight = 0usize;
    loop {
        match chans.send_data(num, None, &data[sent..]) {
            Ok((p, n)) => {
                assert!(n <= 16 * 1024);
                match p {
                    Packet::ChannelData(d) => {
                        assert_eq!(d.num, 77);
                        assert_eq!(d.data.len(), n);
                    },
                    _ => panic!("expected data"),
                }
                sent += n;
                in_flight += n;
                assert!(in_flight <= 32 * 1024);
            },
            Err(e) => {
                assert_eq!(e, Error::WouldBlock);
                break;
            },
        }
    }
    assert_eq!(sent, 32 * 1024);
    chans.handle_window_adjust(num, 16 * 1024).unwrap();
    let (_, n) = chans.send_data(num, Some(1), &data[sent..]).unwrap();
    assert_eq!(n, 16 * 1024);
}

#[test]
fn receive_window_refill_at_half() {
    let mut chans = Channels::new();
    let num = open_channel(&mut chans, 32 * 1024, 16 * 1024);
    chans.handle_data(num, 16 * 1024).unwrap();
    chans.handle_data(num, 16 * 1024).unwrap();
    assert_eq!(chans.handle_data(num, 1), Err(Error::SSHProtoError));
    assert!(chans.consume(num, 16 * 1024 - 1).unwrap().is_none());
    match chans.consume(num, 1).unwrap() {
        Some(Packet::ChannelWindowAdjust(a)) => {
            assert_eq!(a.num, 77);
            assert_eq!(a.adjust, 16 * 1024);
        },
        _ => panic!("expected a window adjust"),
    }
    // taking more than was received is refused
    assert_eq!(chans.consume(num, 16 * 1024 + 1).unwrap_err(), Error::Bug);
}

#[test]
fn request_replies_in_order() {
    let mut chans = Channels::new();
    let num = open_channel(&mut chans, 1000, 1000);
    chans.request(num, ChannelReqType::Shell, true).unwrap();
    chans.request(num, ChannelReqType::Exec(Exec { command: b"ls".to_vec() }), true).unwrap();
    chans.request(num, ChannelReqType::Shell, false).unwrap();
    assert_eq!(chans.handle_reply(num), Ok(ReqKind::Shell));
    assert_eq!(chans.handle_reply(num), Ok(ReqKind::Exec));
    assert_eq!(chans.handle_reply(num), Err(Error::SSHProtoError));
}

#[test]
fn close_after_eof() {
    let mut chans = Channels::new();
    let num = open_channel(&mut chans, 1000, 1000);
    assert_eq!(chans.send_close(num).unwrap_err(), Error::PacketWrong);
    chans.send_eof(num).unwrap();
    assert_eq!(chans.send_data(num, None, b"x").unwrap_err(), Error::WouldBlock);
    chans.send_close(num).unwrap();
    assert!(chans.slots[num as usize].is_some());
    chans.handle_close(num).unwrap();
    assert!(chans.slots[num as usize].is_none());
}

#[test]
fn table_is_bounded() {
    let mut chans = Channels::new();
    for _ in 0..4 {
        chans.open(ChannelOpenType::Session, 10, 10).unwrap();
    }
    assert_eq!(chans.open(ChannelOpenType::Session, 10, 10).unwrap_err(), Error::TooMany);
    chans.handle_open_failure(2).unwrap();
    match chans.open(ChannelOpenType::Session, 10, 10).unwrap() {
        Packet::ChannelOpen(o) => assert_eq!(o.num, 2),
        _ => panic!("expected ChannelOpen"),
    }
    match &chans.slots[2] {
        Some(c) => assert_eq!(c.state, ChanState::Opening),
        None => panic!("slot empty"),
    }
}

#[test]
fn server_open_policy() {
    let mut chans = Channels::new();
    let audio = ChannelOpen {
        num: 5,
        initial_window: 100,
        max_packet: 50,
        ty: ChannelOpenType::Unknown(Unknown(b"audio-stream".to_vec())),
    };
    match chans.handle_open(&audio, None, 1000, 500) {
        Packet::ChannelOpenFailure(f) => {
            assert_eq!(f.num, 5);
            assert_eq!(f.reason, SSH_OPEN_UNKNOWN_CHANNEL_TYPE);
        },
        _ => panic!("expected a failure"),
    }
    let sess = ChannelOpen { num: 9, initial_window: 100, max_packet: 50, ty: ChannelOpenType::Session };
    match chans.handle_open(&sess, Some(1), 1000, 500) {
        Packet::ChannelOpenFailure(f) => assert_eq!(f.reason, 1),
        _ => panic!("expected a failure"),
    }
    for i in 0..4u32 {
        match chans.handle_open(&sess, None, 1000, 500) {
            Packet::ChannelOpenConfirmation(c) => {
                assert_eq!(c.num, 9);
                assert_eq!(c.sender_num, i);
                assert_eq!(c.initial_window, 1000);
            },
            _ => panic!("expected a confirmation"),
        }
    }
    match chans.handle_open(&sess, None, 1000, 500) {
        Packet::ChannelOpenFailure(f) => assert_eq!(f.reason, SSH_OPEN_RESOURCE_SHORTAGE),
        _ => panic!("expected a failure"),
    }
    // the accepted channel can send at once, within the peer's window
    let (_, n) = chans.send_data(0, None, &[1u8; 80]).unwrap();
    assert_eq!(n, 50);
}
