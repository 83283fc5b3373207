//! The channel layer: open and confirm, per-direction flow-control windows,
//! requests answered in order, and half-close.

use vstd::prelude::*;
use crate::bytes::to_vec;
use crate::error::Error;
use crate::packets::{
    ChannelClose, ChannelData, ChannelDataExt, ChannelEof, ChannelOpen, ChannelOpenConfirmation, ChannelOpenFailure,
    ChannelOpenType, ChannelReqType, ChannelRequest, ChannelWindowAdjust, Packet,
};

verus! {

/// How many channels a connection may have open at once.
pub const MAX_CHANNELS: usize = 4;

/// Reason codes of `ChannelOpenFailure` (RFC 4254 section 5.1).
pub const SSH_OPEN_ADMINISTRATIVELY_PROHIBITED: u32 = 1;
pub const SSH_OPEN_CONNECT_FAILED: u32 = 2;
pub const SSH_OPEN_UNKNOWN_CHANNEL_TYPE: u32 = 3;
pub const SSH_OPEN_RESOURCE_SHORTAGE: u32 = 4;

#[derive(Debug, Clone, Copy, PartialEq, Eq, Structural)]
pub enum ChanState {
    /// `ChannelOpen` sent, waiting for confirmation.
    Opening,
    Open,
}

#[derive(Debug, Clone, Copy, PartialEq, Eq, Structural)]
pub enum ChanType {
    Session,
    ForwardedTcpip,
    DirectTcpip,
}

/// The kind of a request awaiting its reply.
#[derive(Debug, Clone, Copy, PartialEq, Eq, Structural)]
pub enum ReqKind {
    Shell,
    Exec,
    Pty,
    Subsystem,
    WinChange,
    Signal,
    ExitStatus,
    ExitSignal,
    Break,
}

#[derive(Debug)]
pub struct Channel {
    /// Our number, the index in the table.
    pub num: u32,
    /// The peer's number, known once confirmed.
    pub remote_num: u32,
    pub state: ChanState,
    pub ty: ChanType,
    /// Bytes the peer still lets us send.
    pub send_window: u32,
    /// Bytes we still let the peer send.
    pub recv_window: u32,
    /// The window we granted at open.
    pub initial_window: u32,
    /// Bytes the application has taken since we last returned credit.
    pub consumed: u32,
    pub send_max_packet: u32,
    pub recv_max_packet: u32,
    /// Kinds of the requests sent with `want_reply`, oldest first.
    pub pending: Vec<ReqKind>,
    pub eof_sent: bool,
    pub eof_recv: bool,
    pub close_sent: bool,
    pub close_recv: bool,
}

impl Channel {
    /// Credit never exceeds what was granted: what the peer may still send,
    /// plus what the application has taken back, is at most the initial window.
    pub open spec fn wf(&self) -> bool {
        self.recv_window + self.consumed <= self.initial_window
    }
}

/// The channel table, indexed by our channel number.
#[derive(Debug)]
pub struct Channels {
    pub slots: Vec<Option<Channel>>,
}

pub open spec fn req_kind_of(r: ChannelReqType) -> Option<ReqKind> {
    match r {
        ChannelReqType::Shell => Some(ReqKind::Shell),
        ChannelReqType::Exec(_) => Some(ReqKind::Exec),
        ChannelReqType::Pty(_) => Some(ReqKind::Pty),
        ChannelReqType::Subsystem(_) => Some(ReqKind::Subsystem),
        ChannelReqType::WinChange(_) => Some(ReqKind::WinChange),
        ChannelReqType::Signal(_) => Some(ReqKind::Signal),
        ChannelReqType::ExitStatus(_) => Some(ReqKind::ExitStatus),
        ChannelReqType::ExitSignal(_) => Some(ReqKind::ExitSignal),
        ChannelReqType::Break(_) => Some(ReqKind::Break),
        ChannelReqType::Unknown(_) => None,
    }
}

pub open spec fn chan_type_of(t: ChannelOpenType) -> Option<ChanType> {
    match t {
        ChannelOpenType::Session => Some(ChanType::Session),
        ChannelOpenType::ForwardedTcpip(_) => Some(ChanType::ForwardedTcpip),
        ChannelOpenType::DirectTcpip(_) => Some(ChanType::DirectTcpip),
        ChannelOpenType::Unknown(_) => None,
    }
}

/// `b` is `a` with at most its EOF and close flags changed.
pub open spec fn same_but_flags(a: Channel, b: Channel) -> bool {
    &&& b.num == a.num
    &&& b.remote_num == a.remote_num
    &&& b.state == a.state
    &&& b.ty == a.ty
    &&& b.send_window == a.send_window
    &&& b.recv_window == a.recv_window
    &&& b.initial_window == a.initial_window
    &&& b.consumed == a.consumed
    &&& b.send_max_packet == a.send_max_packet
    &&& b.recv_max_packet == a.recv_max_packet
    &&& b.pending@ == a.pending@
}

pub open spec fn min3(a: int, b: int, c: int) -> int {
    if a <= b && a <= c { a } else if b <= c { b } else { c }
}

impl Channels {
    pub open spec fn wf(&self) -> bool {
        &&& self.slots@.len() == MAX_CHANNELS
        &&& forall|i: int| 0 <= i < self.slots@.len() ==> (#[trigger] self.slots@[i] matches Some(c)
            ==> c.wf() && c.num == i)
    }

    /// The channel with our number `n`, if it is in use.
    pub open spec fn chan(&self, n: u32) -> Option<Channel> {
        if n < self.slots@.len() { self.slots@[n as int] } else { None }
    }

    pub fn new() -> (r: Channels)
        ensures
            r.wf(),
            forall|i: int| 0 <= i < MAX_CHANNELS ==> r.slots@[i] is None,
    {
        let mut slots: Vec<Option<Channel>> = Vec::new();
        let mut i: usize = 0;
        while i < MAX_CHANNELS
            invariant
                i <= MAX_CHANNELS,
                slots@.len() == i,
                forall|j: int| 0 <= j < i ==> slots@[j] is None,
            decreases MAX_CHANNELS - i,
        {
            slots.push(None);
            i = i + 1;
        }
        Channels { slots }
    }

    fn take_slot(&mut self, n: usize) -> (r: Option<Channel>)
        requires
            n < old(self).slots@.len(),
        ensures
            r == old(self).slots@[n as int],
            final(self).slots@ == old(self).slots@.update(n as int, None),
    {
        let c = self.slots.remove(n);
        self.slots.insert(n, None);
        assert(self.slots@ =~= old(self).slots@.update(n as int, None));
        c
    }

    fn put_slot(&mut self, n: usize, c: Option<Channel>)
        requires
            n < old(self).slots@.len(),
        ensures
            final(self).slots@ == old(self).slots@.update(n as int, c),
    {
        let _ = self.slots.remove(n);
        self.slots.insert(n, c);
        assert(self.slots@ =~= old(self).slots@.update(n as int, c));
    }

    /// Opens a channel on the first free number, granting the peer `window`
    /// bytes and packets of up to `max_packet`. Returns the `ChannelOpen` to send.
    pub fn open(&mut self, open_ty: ChannelOpenType, window: u32, max_packet: u32) -> (r: Result<Packet, Error>)
        requires
            old(self).wf(),
        ensures
            final(self).wf(),
            open_ty is Unknown ==> r == Err::<Packet, Error>(Error::NoEncode) && final(self).slots@ == old(self).slots@,
            !(open_ty is Unknown) && (exists|i: int| 0 <= i < MAX_CHANNELS && old(self).slots@[i] is None)
                ==> r is Ok,
            !(open_ty is Unknown) && (forall|i: int| 0 <= i < MAX_CHANNELS ==> old(self).slots@[i] is Some)
                ==> r == Err::<Packet, Error>(Error::TooMany) && final(self).slots@ == old(self).slots@,
            r is Ok ==> exists|n: int| 0 <= n < MAX_CHANNELS && old(self).slots@[n] is None
                && (forall|j: int| 0 <= j < n ==> old(self).slots@[j] is Some)
                && (final(self).slots@[n] matches Some(c) && c.state == ChanState::Opening
                    && Some(c.ty) == chan_type_of(open_ty)
                    && c.recv_window == window && c.initial_window == window && c.consumed == 0
                    && c.recv_max_packet == max_packet && c.pending@.len() == 0
                    && !c.eof_sent && !c.eof_recv && !c.close_sent && !c.close_recv)
                && final(self).slots@ == old(self).slots@.update(n, final(self).slots@[n])
                && (r->Ok_0 matches Packet::ChannelOpen(p) && p.num == n && p.initial_window == window
                    && p.max_packet == max_packet && p.ty == open_ty),
    {
        let ty = match &open_ty {
            ChannelOpenType::Session => ChanType::Session,
            ChannelOpenType::ForwardedTcpip(_) => ChanType::ForwardedTcpip,
            ChannelOpenType::DirectTcpip(_) => ChanType::DirectTcpip,
            ChannelOpenType::Unknown(_) => return Err(Error::NoEncode),
        };
        let mut i: usize = 0;
        while i < self.slots.len()
            invariant
                self.wf(),
                *self == *old(self),
                Some(ty) == chan_type_of(open_ty),
                i <= self.slots@.len(),
                forall|j: int| 0 <= j < i ==> self.slots@[j] is Some,
            decreases self.slots@.len() - i,
        {
            if self.slots[i].is_none() {
                let c = Channel {
                    num: i as u32,
                    remote_num: 0,
                    state: ChanState::Opening,
                    ty,
                    send_window: 0,
                    recv_window: window,
                    initial_window: window,
                    consumed: 0,
                    send_max_packet: 0,
                    recv_max_packet: max_packet,
                    pending: Vec::new(),
                    eof_sent: false,
                    eof_recv: false,
                    close_sent: false,
                    close_recv: false,
                };
                self.put_slot(i, Some(c));
                assert(self.wf());
                return Ok(Packet::ChannelOpen(ChannelOpen {
                    num: i as u32,
                    initial_window: window,
                    max_packet,
                    ty: open_ty,
                }));
            }
            i = i + 1;
        }
        Err(Error::TooMany)
    }

    /// Handles the peer's confirmation of a channel we opened: it becomes
    /// open with the peer's number, window and packet size.
    pub fn handle_open_confirmation(&mut self, p: &ChannelOpenConfirmation) -> (r: Result<(), Error>)
        requires
            old(self).wf(),
        ensures
            final(self).wf(),
            (old(self).chan(p.num) matches Some(c) && c.state == ChanState::Opening) <==> r is Ok,
            r is Err ==> r == Err::<(), Error>(Error::SSHProtoError) && final(self).slots@ == old(self).slots@,
            r is Ok ==> (final(self).chan(p.num) matches Some(c) && c.state == ChanState::Open
                && c.remote_num == p.sender_num && c.send_window == p.initial_window
                && c.send_max_packet == p.max_packet
                && c.recv_window == old(self).chan(p.num)->Some_0.recv_window
                && c.pending@ == old(self).chan(p.num)->Some_0.pending@)
                && final(self).slots@ == old(self).slots@.update(p.num as int, final(self).slots@[p.num as int]),
    {
        let n = p.num as usize;
        if n >= self.slots.len() {
            return Err(Error::SSHProtoError);
        }
        match self.take_slot(n) {
            Some(mut c) => {
                if c.state != ChanState::Opening {
                    self.put_slot(n, Some(c));
                    assert(self.slots@ =~= old(self).slots@);
                    return Err(Error::SSHProtoError);
                }
                c.remote_num = p.sender_num;
                c.send_window = p.initial_window;
                c.send_max_packet = p.max_packet;
                c.state = ChanState::Open;
                self.put_slot(n, Some(c));
                Ok(())
            },
            None => {
                self.put_slot(n, None);
                assert(self.slots@ =~= old(self).slots@);
                Err(Error::SSHProtoError)
            },
        }
    }

    /// Handles the peer's refusal of a channel we opened: its number is freed.
    pub fn handle_open_failure(&mut self, num: u32) -> (r: Result<(), Error>)
        requires
            old(self).wf(),
        ensures
            final(self).wf(),
            (old(self).chan(num) matches Some(c) && c.state == ChanState::Opening) <==> r is Ok,
            r is Ok ==> final(self).slots@ == old(self).slots@.update(num as int, None),
            r is Err ==> final(self).slots@ == old(self).slots@,
    {
        let n = num as usize;
        if n >= self.slots.len() {
            return Err(Error::SSHProtoError);
        }
        let opening = match &self.slots[n] {
            Some(c) => c.state == ChanState::Opening,
            None => false,
        };
        if !opening {
            return Err(Error::SSHProtoError);
        }
        let _ = self.take_slot(n);
        Ok(())
    }

    /// Sends application data, clipped to the peer's window and packet size.
    /// Returns the packet and how many bytes of `data` it carries; the window
    /// shrinks by that much. With nothing that can be sent, or the channel
    /// not open or already at EOF, nothing is sent: `WouldBlock`.
    pub fn send_data(&mut self, num: u32, ext: Option<u32>, data: &[u8]) -> (r: Result<(Packet, usize), Error>)
        requires
            old(self).wf(),
        ensures
            final(self).wf(),
            r is Err ==> final(self).slots@ == old(self).slots@,
            !(old(self).chan(num) matches Some(c) && c.state == ChanState::Open && !c.eof_sent)
                ==> r == Err::<(Packet, usize), Error>(Error::WouldBlock),
            (old(self).chan(num) matches Some(c) && c.state == ChanState::Open && !c.eof_sent) ==> {
                let c = old(self).chan(num)->Some_0;
                let n = min3(data@.len() as int, c.send_window as int, c.send_max_packet as int);
                &&& (n == 0 ==> r == Err::<(Packet, usize), Error>(Error::WouldBlock))
                &&& (n > 0 ==> (r matches Ok((p, m)) && m == n
                    && (final(self).chan(num) matches Some(c2) && c2.send_window == c.send_window - n
                        && c2.recv_window == c.recv_window && c2.state == c.state && c2.pending@ == c.pending@)
                    && final(self).slots@ == old(self).slots@.update(num as int, final(self).slots@[num as int])
                    && match ext {
                        None => p matches Packet::ChannelData(d) && d.num == c.remote_num && d.data@ == data@.take(n),
                        Some(code) => p matches Packet::ChannelDataExt(d) && d.num == c.remote_num && d.code == code
                            && d.data@ == data@.take(n),
                    }))
            },
    {
        let n = num as usize;
        if n >= self.slots.len() {
            return Err(Error::WouldBlock);
        }
        let (ok, window, maxp) = match &self.slots[n] {
            Some(c) => (c.state == ChanState::Open && !c.eof_sent, c.send_window, c.send_max_packet),
            None => (false, 0, 0),
        };
        if !ok {
            return Err(Error::WouldBlock);
        }
        let mut len = data.len();
        if (window as usize) < len {
            len = window as usize;
        }
        if (maxp as usize) < len {
            len = maxp as usize;
        }
        if len == 0 {
            return Err(Error::WouldBlock);
        }
        let mut c = self.take_slot(n).unwrap();
        c.send_window = c.send_window - len as u32;
        let remote = c.remote_num;
        self.put_slot(n, Some(c));
        let bytes = to_vec(&data[0..len]);
        assert(bytes@ =~= data@.take(len as int));
        let p = match ext {
            None => Packet::ChannelData(ChannelData { num: remote, data: bytes }),
            Some(code) => Packet::ChannelDataExt(ChannelDataExt { num: remote, code, data: bytes }),
        };
        Ok((p, len))
    }

    /// The peer grants more window.
    pub fn handle_window_adjust(&mut self, num: u32, adjust: u32) -> (r: Result<(), Error>)
        requires
            old(self).wf(),
        ensures
            final(self).wf(),
            r is Err ==> final(self).slots@ == old(self).slots@,
            r is Ok <==> (old(self).chan(num) matches Some(c) && c.send_window + adjust <= u32::MAX),
            r is Ok ==> (final(self).chan(num) matches Some(c2)
                && c2.send_window == old(self).chan(num)->Some_0.send_window + adjust
                && c2.recv_window == old(self).chan(num)->Some_0.recv_window
                && c2.pending@ == old(self).chan(num)->Some_0.pending@)
                && final(self).slots@ == old(self).slots@.update(num as int, final(self).slots@[num as int]),
    {
        let n = num as usize;
        if n >= self.slots.len() {
            return Err(Error::SSHProtoError);
        }
        let w = match &self.slots[n] {
            Some(c) => c.send_window,
            None => return Err(Error::SSHProtoError),
        };
        let nw = match w.checked_add(adjust) {
            Some(x) => x,
            None => return Err(Error::SSHProtoError),
        };
        let mut c = self.take_slot(n).unwrap();
        c.send_window = nw;
        self.put_slot(n, Some(c));
        Ok(())
    }

    /// Data of `len` bytes arrived from the peer; more than our window is a
    /// protocol error.
    pub fn handle_data(&mut self, num: u32, len: u32) -> (r: Result<(), Error>)
        requires
            old(self).wf(),
        ensures
            final(self).wf(),
            r is Err ==> r == Err::<(), Error>(Error::SSHProtoError) && final(self).slots@ == old(self).slots@,
            r is Ok <==> (old(self).chan(num) matches Some(c) && c.state == ChanState::Open && !c.eof_recv
                && len <= c.recv_window),
            r is Ok ==> (final(self).chan(num) matches Some(c2)
                && c2.recv_window == old(self).chan(num)->Some_0.recv_window - len
                && c2.consumed == old(self).chan(num)->Some_0.consumed
                && c2.send_window == old(self).chan(num)->Some_0.send_window)
                && final(self).slots@ == old(self).slots@.update(num as int, final(self).slots@[num as int]),
    {
        let n = num as usize;
        if n >= self.slots.len() {
            return Err(Error::SSHProtoError);
        }
        let ok = match &self.slots[n] {
            Some(c) => c.state == ChanState::Open && !c.eof_recv && len <= c.recv_window,
            None => false,
        };
        if !ok {
            return Err(Error::SSHProtoError);
        }
        let mut c = self.take_slot(n).unwrap();
        c.recv_window = c.recv_window - len;
        self.put_slot(n, Some(c));
        Ok(())
    }

    /// The application took `taken` received bytes. Once what was taken since
    /// the last adjustment reaches half the initial window, it is returned to
    /// the peer in one `ChannelWindowAdjust`.
    pub fn consume(&mut self, num: u32, taken: u32) -> (r: Result<Option<Packet>, Error>)
        requires
            old(self).wf(),
        ensures
            final(self).wf(),
            r is Err ==> r == Err::<Option<Packet>, Error>(Error::Bug) && final(self).slots@ == old(self).slots@,
            r is Ok <==> (old(self).chan(num) matches Some(c)
                && c.recv_window + c.consumed + taken <= c.initial_window),
            r is Ok ==> {
                let c = old(self).chan(num)->Some_0;
                let total = c.consumed + taken;
                &&& final(self).slots@ == old(self).slots@.update(num as int, final(self).slots@[num as int])
                &&& final(self).chan(num) matches Some(c2)
                &&& if total >= c.initial_window / 2 && total > 0 {
                    &&& r->Ok_0 matches Some(Packet::ChannelWindowAdjust(a))
                    &&& a.num == c.remote_num && a.adjust == total
                    &&& final(self).chan(num)->Some_0.recv_window == c.recv_window + total
                    &&& final(self).chan(num)->Some_0.consumed == 0
                } else {
                    &&& r->Ok_0 is None
                    &&& final(self).chan(num)->Some_0.recv_window == c.recv_window
                    &&& final(self).chan(num)->Some_0.consumed == total
                }
            },
    {
        let n = num as usize;
        if n >= self.slots.len() {
            return Err(Error::Bug);
        }
        let ok = match &self.slots[n] {
            Some(c) => (c.recv_window as u64) + (c.consumed as u64) + (taken as u64) <= c.initial_window as u64,
            None => false,
        };
        if !ok {
            return Err(Error::Bug);
        }
        let mut c = self.take_slot(n).unwrap();
        let total = c.consumed + taken;
        let out = if total >= c.initial_window / 2 && total > 0 {
            c.recv_window = c.recv_window + total;
            c.consumed = 0;
            Some(Packet::ChannelWindowAdjust(ChannelWindowAdjust { num: c.remote_num, adjust: total }))
        } else {
            c.consumed = total;
            None
        };
        self.put_slot(n, Some(c));
        Ok(out)
    }

    /// Sends a request on an open channel. One that wants a reply is queued
    /// behind those already waiting.
    pub fn request(&mut self, num: u32, req: ChannelReqType, want_reply: bool) -> (r: Result<Packet, Error>)
        requires
            old(self).wf(),
        ensures
            final(self).wf(),
            r is Err ==> final(self).slots@ == old(self).slots@,
            req is Unknown ==> r == Err::<Packet, Error>(Error::NoEncode),
            !(req is Unknown) && !(old(self).chan(num) matches Some(c) && c.state == ChanState::Open)
                ==> r == Err::<Packet, Error>(Error::WouldBlock),
            !(req is Unknown) && (old(self).chan(num) matches Some(c) && c.state == ChanState::Open) ==> r is Ok,
            r is Ok ==> {
                let c = old(self).chan(num)->Some_0;
                &&& old(self).chan(num) matches Some(c0) && c0.state == ChanState::Open
                &&& final(self).slots@ == old(self).slots@.update(num as int, final(self).slots@[num as int])
                &&& final(self).chan(num) matches Some(c2)
                &&& final(self).chan(num)->Some_0.pending@ == if want_reply {
                    c.pending@.push(req_kind_of(req)->Some_0)
                } else {
                    c.pending@
                }
                &&& final(self).chan(num)->Some_0.send_window == c.send_window
                &&& r->Ok_0 matches Packet::ChannelRequest(p) && p.num == c.remote_num
                    && p.want_reply == want_reply && p.req == req
            },
    {
        let kind = match &req {
            ChannelReqType::Shell => ReqKind::Shell,
            ChannelReqType::Exec(_) => ReqKind::Exec,
            ChannelReqType::Pty(_) => ReqKind::Pty,
            ChannelReqType::Subsystem(_) => ReqKind::Subsystem,
            ChannelReqType::WinChange(_) => ReqKind::WinChange,
            ChannelReqType::Signal(_) => ReqKind::Signal,
            ChannelReqType::ExitStatus(_) => ReqKind::ExitStatus,
            ChannelReqType::ExitSignal(_) => ReqKind::ExitSignal,
            ChannelReqType::Break(_) => ReqKind::Break,
            ChannelReqType::Unknown(_) => return Err(Error::NoEncode),
        };
        let n = num as usize;
        if n >= self.slots.len() {
            return Err(Error::WouldBlock);
        }
        let open = match &self.slots[n] {
            Some(c) => c.state == ChanState::Open,
            None => false,
        };
        if !open {
            return Err(Error::WouldBlock);
        }
        let mut c = self.take_slot(n).unwrap();
        if want_reply {
            c.pending.push(kind);
        }
        let remote = c.remote_num;
        self.put_slot(n, Some(c));
        Ok(Packet::ChannelRequest(ChannelRequest { num: remote, want_reply, req }))
    }

    /// A `ChannelSuccess` or `ChannelFailure` arrived: it answers the oldest
    /// request still waiting, whose kind is returned. A reply with nothing
    /// waiting is a protocol error.
    pub fn handle_reply(&mut self, num: u32) -> (r: Result<ReqKind, Error>)
        requires
            old(self).wf(),
        ensures
            final(self).wf(),
            r is Err ==> r == Err::<ReqKind, Error>(Error::SSHProtoError) && final(self).slots@ == old(self).slots@,
            r is Ok <==> (old(self).chan(num) matches Some(c) && c.pending@.len() > 0),
            r is Ok ==> {
                let c = old(self).chan(num)->Some_0;
                &&& r->Ok_0 == c.pending@[0]
                &&& final(self).slots@ == old(self).slots@.update(num as int, final(self).slots@[num as int])
                &&& final(self).chan(num) matches Some(c2)
                &&& final(self).chan(num)->Some_0.pending@ == c.pending@.drop_first()
                &&& final(self).chan(num)->Some_0.send_window == c.send_window
                &&& final(self).chan(num)->Some_0.recv_window == c.recv_window
            },
    {
        let n = num as usize;
        if n >= self.slots.len() {
            return Err(Error::SSHProtoError);
        }
        let waiting = match &self.slots[n] {
            Some(c) => c.pending.len() > 0,
            None => false,
        };
        if !waiting {
            return Err(Error::SSHProtoError);
        }
        let mut c = self.take_slot(n).unwrap();
        let k = c.pending.remove(0);
        assert(c.pending@ =~= old(self).chan(num)->Some_0.pending@.drop_first());
        self.put_slot(n, Some(c));
        Ok(k)
    }

    /// Sends EOF on an open channel: no more data will be sent.
    pub fn send_eof(&mut self, num: u32) -> (r: Result<Packet, Error>)
        requires
            old(self).wf(),
        ensures
            final(self).wf(),
            r is Err ==> final(self).slots@ == old(self).slots@,
            r is Ok <==> (old(self).chan(num) matches Some(c) && c.state == ChanState::Open),
            r is Ok ==> (final(self).chan(num) matches Some(c2) && c2.eof_sent && same_but_flags(old(self).chan(num)->Some_0, c2)
                && c2.eof_recv == old(self).chan(num)->Some_0.eof_recv && c2.close_sent == old(self).chan(num)->Some_0.close_sent
                && c2.close_recv == old(self).chan(num)->Some_0.close_recv
                && (r->Ok_0 matches Packet::ChannelEof(e) && e.num == old(self).chan(num)->Some_0.remote_num))
                && final(self).slots@ == old(self).slots@.update(num as int, final(self).slots@[num as int]),
    {
        let n = num as usize;
        if n >= self.slots.len() {
            return Err(Error::PacketWrong);
        }
        let open = match &self.slots[n] {
            Some(c) => c.state == ChanState::Open,
            None => false,
        };
        if !open {
            return Err(Error::PacketWrong);
        }
        let mut c = self.take_slot(n).unwrap();
        c.eof_sent = true;
        let remote = c.remote_num;
        self.put_slot(n, Some(c));
        Ok(Packet::ChannelEof(ChannelEof { num: remote }))
    }

    /// The peer sent EOF.
    pub fn handle_eof(&mut self, num: u32) -> (r: Result<(), Error>)
        requires
            old(self).wf(),
        ensures
            final(self).wf(),
            r is Err ==> final(self).slots@ == old(self).slots@,
            r is Ok <==> (old(self).chan(num) matches Some(c) && c.state == ChanState::Open),
            r is Ok ==> (final(self).chan(num) matches Some(c2) && c2.eof_recv && same_but_flags(old(self).chan(num)->Some_0, c2)
                && c2.eof_sent == old(self).chan(num)->Some_0.eof_sent && c2.close_sent == old(self).chan(num)->Some_0.close_sent
                && c2.close_recv == old(self).chan(num)->Some_0.close_recv)
                && final(self).slots@ == old(self).slots@.update(num as int, final(self).slots@[num as int]),
    {
        let n = num as usize;
        if n >= self.slots.len() {
            return Err(Error::SSHProtoError);
        }
        let open = match &self.slots[n] {
            Some(c) => c.state == ChanState::Open,
            None => false,
        };
        if !open {
            return Err(Error::SSHProtoError);
        }
        let mut c = self.take_slot(n).unwrap();
        c.eof_recv = true;
        self.put_slot(n, Some(c));
        Ok(())
    }

    /// Sends close, which may only follow our EOF. Once both sides have
    /// closed, the number is freed.
    pub fn send_close(&mut self, num: u32) -> (r: Result<Packet, Error>)
        requires
            old(self).wf(),
        ensures
            final(self).wf(),
            r is Err ==> final(self).slots@ == old(self).slots@,
            r is Ok <==> (old(self).chan(num) matches Some(c) && c.eof_sent && !c.close_sent),
            r is Ok ==> (r->Ok_0 matches Packet::ChannelClose(e) && e.num == old(self).chan(num)->Some_0.remote_num)
                && (old(self).chan(num)->Some_0.close_recv ==> final(self).slots@ == old(self).slots@.update(num as int, None))
                && (!old(self).chan(num)->Some_0.close_recv ==> (final(self).chan(num) matches Some(c2) && c2.close_sent
                    && same_but_flags(old(self).chan(num)->Some_0, c2) && c2.eof_sent == old(self).chan(num)->Some_0.eof_sent
                    && c2.eof_recv == old(self).chan(num)->Some_0.eof_recv && !c2.close_recv)
                    && final(self).slots@ == old(self).slots@.update(num as int, final(self).slots@[num as int])),
    {
        let n = num as usize;
        if n >= self.slots.len() {
            return Err(Error::PacketWrong);
        }
        let ok = match &self.slots[n] {
            Some(c) => c.eof_sent && !c.close_sent,
            None => false,
        };
        if !ok {
            return Err(Error::PacketWrong);
        }
        let mut c = self.take_slot(n).unwrap();
        let remote = c.remote_num;
        if !c.close_recv {
            c.close_sent = true;
            self.put_slot(n, Some(c));
        }
        Ok(Packet::ChannelClose(ChannelClose { num: remote }))
    }

    /// The peer closed. Once both sides have closed, the number is freed.
    pub fn handle_close(&mut self, num: u32) -> (r: Result<(), Error>)
        requires
            old(self).wf(),
        ensures
            final(self).wf(),
            r is Err ==> final(self).slots@ == old(self).slots@,
            r is Ok <==> (old(self).chan(num) matches Some(c) && !c.close_recv),
            r is Ok ==> (old(self).chan(num)->Some_0.close_sent ==> final(self).slots@ == old(self).slots@.update(num as int, None))
                && (!old(self).chan(num)->Some_0.close_sent ==> (final(self).chan(num) matches Some(c2) && c2.close_recv
                    && same_but_flags(old(self).chan(num)->Some_0, c2) && c2.eof_sent == old(self).chan(num)->Some_0.eof_sent
                    && c2.eof_recv == old(self).chan(num)->Some_0.eof_recv && !c2.close_sent)
                    && final(self).slots@ == old(self).slots@.update(num as int, final(self).slots@[num as int])),
    {
        let n = num as usize;
        if n >= self.slots.len() {
            return Err(Error::SSHProtoError);
        }
        let ok = match &self.slots[n] {
            Some(c) => !c.close_recv,
            None => false,
        };
        if !ok {
            return Err(Error::SSHProtoError);
        }
        let mut c = self.take_slot(n).unwrap();
        if !c.close_sent {
            c.close_recv = true;
            self.put_slot(n, Some(c));
        }
        Ok(())
    }

    /// Handles the peer's `ChannelOpen`. An unknown channel type is refused
    /// with `SSH_OPEN_UNKNOWN_CHANNEL_TYPE`; otherwise `refusal` is the
    /// application's decision: `Some(reason)` refuses, `None` accepts. An
    /// accepted channel takes the first free number, open at once, granting
    /// the peer `window` bytes; with no free number it is refused with
    /// `SSH_OPEN_RESOURCE_SHORTAGE`.
    pub fn handle_open(&mut self, p: &ChannelOpen, refusal: Option<u32>, window: u32, max_packet: u32) -> (r: Packet)
        requires
            old(self).wf(),
        ensures
            final(self).wf(),
            p.ty is Unknown ==> (r matches Packet::ChannelOpenFailure(f) && f.num == p.num
                && f.reason == SSH_OPEN_UNKNOWN_CHANNEL_TYPE) && final(self).slots@ == old(self).slots@,
            !(p.ty is Unknown) && refusal is Some ==> (r matches Packet::ChannelOpenFailure(f) && f.num == p.num
                && f.reason == refusal->Some_0) && final(self).slots@ == old(self).slots@,
            !(p.ty is Unknown) && refusal is None && (forall|i: int| 0 <= i < MAX_CHANNELS ==> old(self).slots@[i] is Some)
                ==> (r matches Packet::ChannelOpenFailure(f) && f.num == p.num && f.reason == SSH_OPEN_RESOURCE_SHORTAGE)
                && final(self).slots@ == old(self).slots@,
            r is ChannelOpenConfirmation ==> !(p.ty is Unknown) && refusal is None
                && exists|n: int| 0 <= n < MAX_CHANNELS && old(self).slots@[n] is None
                && (forall|j: int| 0 <= j < n ==> old(self).slots@[j] is Some)
                && (final(self).slots@[n] matches Some(c) && c.state == ChanState::Open
                    && Some(c.ty) == chan_type_of(p.ty) && c.remote_num == p.num
                    && c.send_window == p.initial_window && c.send_max_packet == p.max_packet
                    && c.recv_window == window && c.initial_window == window && c.consumed == 0
                    && c.recv_max_packet == max_packet && c.pending@.len() == 0)
                && final(self).slots@ == old(self).slots@.update(n, final(self).slots@[n])
                && (r matches Packet::ChannelOpenConfirmation(cf) && cf.num == p.num && cf.sender_num == n
                    && cf.initial_window == window && cf.max_packet == max_packet),
            !(p.ty is Unknown) && refusal is None && (exists|i: int| 0 <= i < MAX_CHANNELS && old(self).slots@[i] is None)
                ==> r is ChannelOpenConfirmation,
    {
        let ty = match &p.ty {
            ChannelOpenType::Session => ChanType::Session,
            ChannelOpenType::ForwardedTcpip(_) => ChanType::ForwardedTcpip,
            ChannelOpenType::DirectTcpip(_) => ChanType::DirectTcpip,
            ChannelOpenType::Unknown(_) => {
                return Packet::ChannelOpenFailure(ChannelOpenFailure {
                    num: p.num,
                    reason: SSH_OPEN_UNKNOWN_CHANNEL_TYPE,
                    desc: Vec::new(),
                    lang: Vec::new(),
                });
            },
        };
        if let Some(reason) = refusal {
            return Packet::ChannelOpenFailure(ChannelOpenFailure { num: p.num, reason, desc: Vec::new(), lang: Vec::new() });
        }
        let mut i: usize = 0;
        while i < self.slots.len()
            invariant
                self.wf(),
                *self == *old(self),
                Some(ty) == chan_type_of(p.ty),
                refusal is None,
                i <= self.slots@.len(),
                forall|j: int| 0 <= j < i ==> self.slots@[j] is Some,
            decreases self.slots@.len() - i,
        {
            if self.slots[i].is_none() {
                let c = Channel {
                    num: i as u32,
                    remote_num: p.num,
                    state: ChanState::Open,
                    ty,
                    send_window: p.initial_window,
                    recv_window: window,
                    initial_window: window,
                    consumed: 0,
                    send_max_packet: p.max_packet,
                    recv_max_packet: max_packet,
                    pending: Vec::new(),
                    eof_sent: false,
                    eof_recv: false,
                    close_sent: false,
                    close_recv: false,
                };
                self.put_slot(i, Some(c));
                assert(self.wf());
                return Packet::ChannelOpenConfirmation(ChannelOpenConfirmation {
                    num: p.num,
                    sender_num: i as u32,
                    initial_window: window,
                    max_packet,
                });
            }
            i = i + 1;
        }
        Packet::ChannelOpenFailure(ChannelOpenFailure {
            num: p.num,
            reason: SSH_OPEN_RESOURCE_SHORTAGE,
            desc: Vec::new(),
            lang: Vec::new(),
        })
    }
}

/// Replies answer requests in the order they were sent: with requests `ks`
/// queued behind `q`, the replies that follow the first `q.len()` answer
/// exactly `ks`, in order.
pub proof fn lemma_replies_fifo(q: Seq<ReqKind>, ks: Seq<ReqKind>)
    ensures
        (q + ks).skip(q.len() as int) == ks,
        forall|i: int| 0 <= i < ks.len() ==> #[trigger] (q + ks).skip(q.len() + i)[0] == ks[i],
{
    assert((q + ks).skip(q.len() as int) =~= ks);
    assert forall|i: int| 0 <= i < ks.len() implies #[trigger] (q + ks).skip(q.len() + i)[0] == ks[i] by {
        assert((q + ks).skip(q.len() + i)[0] == (q + ks)[q.len() + i]);
    }
}

} // verus!
