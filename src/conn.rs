//! Connection-level dispatch rules: which packet categories each phase of
//! the connection admits, and the reply to a packet that cannot be decoded.

use vstd::prelude::*;
use crate::error::Error;
use crate::kex::Kex;
use crate::packets::{spec_category, Category, Packet, Unimplemented};

verus! {

/// Where the connection stands, as far as admitting packets goes.
#[derive(Debug, Clone, Copy, PartialEq, Eq, Structural)]
pub struct Phase {
    /// A key exchange is in progress (our `KexInit` sent or received).
    pub kex_running: bool,
    /// Our `NewKeys` is sent and the peer's has not arrived.
    pub awaiting_newkeys: bool,
    /// The first key exchange has completed.
    pub keyed: bool,
    /// Authentication has succeeded.
    pub authenticated: bool,
}

/// Whether a packet of category `c` is admitted in `ph`: `All` always;
/// `Kex` only while a key exchange runs; between our `NewKeys` and the
/// peer's nothing else; `Auth` once keyed; `Sess` once authenticated.
pub open spec fn spec_admits(ph: Phase, c: Category) -> bool {
    match c {
        Category::All => true,
        Category::Kex => ph.kex_running,
        Category::Auth => ph.keyed && !ph.awaiting_newkeys,
        Category::Sess => ph.keyed && ph.authenticated && !ph.awaiting_newkeys,
    }
}

/// Checks a received packet's category against the phase.
pub fn check_category(ph: &Phase, c: Category) -> (r: Result<(), Error>)
    ensures
        r is Ok <==> spec_admits(*ph, c),
        r is Err ==> r == Err::<(), Error>(Error::PacketWrong),
{
    let ok = match c {
        Category::All => true,
        Category::Kex => ph.kex_running,
        Category::Auth => ph.keyed && !ph.awaiting_newkeys,
        Category::Sess => ph.keyed && ph.authenticated && !ph.awaiting_newkeys,
    };
    if ok { Ok(()) } else { Err(Error::PacketWrong) }
}

/// The part of the engine a received packet goes to.
#[derive(Debug, Clone, Copy, PartialEq, Eq, Structural)]
pub enum Route {
    /// Disconnect, ignore, unimplemented and debug messages.
    Transport,
    /// Key exchange.
    Kex,
    /// Service requests and authentication.
    Auth,
    /// The channel layer.
    Channel,
}

pub open spec fn spec_route(num: u8) -> Route {
    if 1 <= num <= 4 {
        Route::Transport
    } else if num == 20 || num == 21 || num == 30 || num == 31 {
        Route::Kex
    } else if 90 <= num {
        Route::Channel
    } else {
        Route::Auth
    }
}

/// Where a received packet goes, once its category is admitted in `ph`;
/// otherwise `PacketWrong`.
pub fn dispatch(ph: &Phase, p: &Packet) -> (r: Result<Route, Error>)
    ensures
        spec_admits(*ph, spec_category(p.spec_num())->Some_0) ==> r == Ok::<Route, Error>(spec_route(p.spec_num())),
        !spec_admits(*ph, spec_category(p.spec_num())->Some_0) ==> r == Err::<Route, Error>(Error::PacketWrong),
{
    match check_category(ph, p.category()) {
        Ok(()) => {},
        Err(e) => return Err(e),
    }
    let num = p.message_num();
    if 1 <= num && num <= 4 {
        Ok(Route::Transport)
    } else if num == 20 || num == 21 || num == 30 || num == 31 {
        Ok(Route::Kex)
    } else if 90 <= num {
        Ok(Route::Channel)
    } else {
        Ok(Route::Auth)
    }
}

/// The reply owed to a packet that failed to decode: an unknown message
/// number is answered with `Unimplemented` naming its sequence number; any
/// other decoding failure is not answered this way.
pub fn unimplemented_reply(e: Error, seq: u32) -> (r: Option<Packet>)
    ensures
        e is UnknownPacket ==> (r matches Some(Packet::Unimplemented(u)) && u.seq == seq),
        !(e is UnknownPacket) ==> r is None,
{
    match e {
        Error::UnknownPacket { .. } => Some(Packet::Unimplemented(Unimplemented { seq })),
        _ => None,
    }
}

/// The phase, from the key exchange state, whether a session id exists
/// (the first exchange completed), and whether authentication succeeded.
/// `NewKeys` is the state between sending our `NewKeys` and receiving the peer's.
pub fn phase_of(kex: &Kex, keyed: bool, authenticated: bool) -> (r: Phase)
    ensures
        r.kex_running == !(*kex is Idle),
        r.awaiting_newkeys == (*kex is NewKeys),
        r.keyed == keyed,
        r.authenticated == authenticated,
{
    Phase {
        kex_running: !matches!(kex, Kex::Idle),
        awaiting_newkeys: matches!(kex, Kex::NewKeys { .. }),
        keyed,
        authenticated,
    }
}

/// Between our `NewKeys` and the peer's, only `Kex` and `All` packets are
/// admitted; channel packets are admitted only after authentication.
pub proof fn lemma_phase_gates(ph: Phase, c: Category)
    ensures
        ph.awaiting_newkeys && spec_admits(ph, c) ==> (c is Kex || c is All),
        !ph.authenticated ==> !spec_admits(ph, Category::Sess),
{
}

} // verus!
