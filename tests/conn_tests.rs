use sunset::conn::{check_category, dispatch, phase_of, unimplemented_reply, Phase, Route};
use sunset::error::Error;
use sunset::kex::Kex;
use sunset::packets::{decode_packet, Category, Packet, ParseContext};

#[test]
fn category_admission() {
    let fresh = phase_of(&Kex::new(), false, false);
    assert_eq!(check_category(&fresh, Category::All), Ok(()));
    assert_eq!(check_category(&fresh, Category::Kex), Err(Error::PacketWrong));
    assert_eq!(check_category(&fresh, Category::Auth), Err(Error::PacketWrong));
    assert_eq!(check_category(&fresh, Category::Sess), Err(Error::PacketWrong));
    let keyed = Phase { kex_running: false, awaiting_newkeys: false, keyed: true, authenticated: false };
    assert_eq!(check_category(&keyed, Category::Auth), Ok(()));
    assert_eq!(check_category(&keyed, Category::Sess), Err(Error::PacketWrong));
    let authed = Phase { authenticated: true, ..keyed };
    assert_eq!(check_category(&authed, Category::Sess), Ok(()));
    let rekeying = Phase { kex_running: true, awaiting_newkeys: true, ..authed };
    assert_eq!(check_category(&rekeying, Category::Kex), Ok(()));
    assert_eq!(check_category(&rekeying, Category::Sess), Err(Error::PacketWrong));
}

#[test]
fn unknown_number_gets_unimplemented() {
    let e = decode_packet(&[77, 1, 2], &ParseContext::new()).unwrap_err();
    match unimplemented_reply(e, 41) {
        Some(Packet::Unimplemented(u)) => assert_eq!(u.seq, 41),
        _ => panic!("expected Unimplemented"),
    }
    assert!(unimplemented_reply(Error::BadLength, 41).is_none());
}

#[test]
fn dispatch_routes() {
    let authed = Phase { kex_running: false, awaiting_newkeys: false, keyed: true, authenticated: true };
    let p = decode_packet(&[96, 0, 0, 0, 1], &ParseContext::new()).unwrap();
    assert_eq!(dispatch(&authed, &p), Ok(Route::Channel));
    let p = decode_packet(&[52], &ParseContext::new()).unwrap();
    assert_eq!(dispatch(&authed, &p), Ok(Route::Auth));
    let p = decode_packet(&[21], &ParseContext::new()).unwrap();
    assert_eq!(dispatch(&authed, &p), Err(Error::PacketWrong));
    let p = decode_packet(&[2], &ParseContext::new()).unwrap();
    assert_eq!(dispatch(&authed, &p), Ok(Route::Transport));
}
