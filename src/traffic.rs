//! Reassembly of whole packets from the received byte stream, however it
//! arrives in pieces.

use vstd::prelude::*;
use crate::bytes::{extend, to_vec};
use crate::encrypt::{spec_body, spec_frame, spec_open, IntegKey, KeyState, SSH_LENGTH_SIZE};
use crate::error::Error;
use crate::wire::{get_u32, lemma_u32_round_trip, spec_u32_of, spec_u32_be};

verus! {

/// The size of the whole packet at the front of `s`: its length field, the
/// length it gives, and a MAC of `mac` bytes.
pub open spec fn frame_len(s: Seq<u8>, mac: nat) -> int {
    spec_u32_of(s) + SSH_LENGTH_SIZE + mac
}

/// The whole packet at the front of `s` and what follows it, once `s`
/// holds all of it.
pub open spec fn next_frame(s: Seq<u8>, mac: nat) -> Option<(Seq<u8>, Seq<u8>)> {
    if s.len() >= SSH_LENGTH_SIZE && frame_len(s, mac) <= s.len() {
        Some((s.take(frame_len(s, mac)), s.skip(frame_len(s, mac))))
    } else {
        None
    }
}

/// All the whole packets at the front of `s`, in order.
pub open spec fn frames(s: Seq<u8>, mac: nat) -> Seq<Seq<u8>>
    decreases s.len(),
{
    match next_frame(s, mac) {
        Some((f, r)) => seq![f] + frames(r, mac),
        None => Seq::empty(),
    }
}

/// What remains of `s` after its whole packets: the start of the next one.
pub open spec fn leftover(s: Seq<u8>, mac: nat) -> Seq<u8>
    decreases s.len(),
{
    match next_frame(s, mac) {
        Some((f, r)) => leftover(r, mac),
        None => s,
    }
}

/// Bytes received and not yet taken as packets.
#[derive(Debug)]
pub struct TrafIn {
    pub buf: Vec<u8>,
    /// The largest whole packet accepted, MAC included.
    pub capacity: usize,
}

impl TrafIn {
    /// An empty receive buffer for packets of at most `capacity` bytes.
    pub fn new(capacity: usize) -> (r: TrafIn)
        ensures
            r.buf@.len() == 0,
            r.capacity == capacity,
    {
        TrafIn { buf: Vec::new(), capacity }
    }

    /// Takes in bytes as they arrived. More than `capacity` bytes waiting is
    /// refused with `NoRoom`, taking nothing in.
    pub fn input(&mut self, data: &[u8]) -> (r: Result<(), Error>)
        ensures
            final(self).capacity == old(self).capacity,
            old(self).buf@.len() + data@.len() <= old(self).capacity ==> r is Ok
                && final(self).buf@ == old(self).buf@ + data@,
            old(self).buf@.len() + data@.len() > old(self).capacity ==> r == Err::<(), Error>(Error::NoRoom)
                && final(self).buf@ == old(self).buf@,
    {
        if data.len() > self.capacity || self.buf.len() > self.capacity - data.len() {
            return Err(Error::NoRoom);
        }
        extend(&mut self.buf, data);
        Ok(())
    }

    /// Takes the whole packet at the front, if all of it has arrived.
    pub fn take_packet(&mut self, mac: usize) -> (r: Option<Vec<u8>>)
        ensures
            match next_frame(old(self).buf@, mac as nat) {
                Some((f, rest)) => r matches Some(v) && v@ == f && final(self).buf@ == rest,
                None => r is None && final(self).buf@ == old(self).buf@,
            },
            final(self).capacity == old(self).capacity,
    {
        if self.buf.len() < SSH_LENGTH_SIZE {
            return None;
        }
        let len = get_u32(self.buf.as_slice(), 0);
        assert(self.buf@.skip(0) =~= self.buf@);
        let total: u64 = match (mac as u64).checked_add(len as u64 + SSH_LENGTH_SIZE as u64) {
            Some(t) => t,
            None => return None,
        };
        if total > self.buf.len() as u64 {
            return None;
        }
        let t = total as usize;
        let f = to_vec(&self.buf.as_slice()[0..t]);
        let rest = to_vec(&self.buf.as_slice()[t..self.buf.len()]);
        assert(f@ =~= old(self).buf@.take(t as int));
        assert(rest@ =~= old(self).buf@.skip(t as int));
        self.buf = rest;
        Some(f)
    }

    /// Takes every whole packet that has arrived, in order.
    pub fn drain(&mut self, mac: usize) -> (r: Vec<Vec<u8>>)
        ensures
            crate::namelist::names_view(r@) == frames(old(self).buf@, mac as nat),
            final(self).buf@ == leftover(old(self).buf@, mac as nat),
            final(self).capacity == old(self).capacity,
    {
        let mut out: Vec<Vec<u8>> = Vec::new();
        assert(crate::namelist::names_view(out@) =~= Seq::<Seq<u8>>::empty());
        loop
            invariant
                frames(old(self).buf@, mac as nat) == crate::namelist::names_view(out@) + frames(self.buf@, mac as nat),
                leftover(old(self).buf@, mac as nat) == leftover(self.buf@, mac as nat),
                self.capacity == old(self).capacity,
            decreases self.buf@.len(),
        {
            let ghost before = self.buf@;
            let ghost prev = out@;
            match self.take_packet(mac) {
                Some(f) => {
                    out.push(f);
                    assert(crate::namelist::names_view(out@) =~= crate::namelist::names_view(prev).push(f@));
                    assert(crate::namelist::names_view(prev) + (seq![f@] + frames(self.buf@, mac as nat))
                        =~= crate::namelist::names_view(out@) + frames(self.buf@, mac as nat));
                },
                None => {
                    assert(crate::namelist::names_view(out@) + Seq::<Seq<u8>>::empty() =~= crate::namelist::names_view(out@));
                    return out;
                },
            }
        }
    }
}

impl TrafIn {
    /// Takes and decrypts the packet at the front once all of it has arrived,
    /// returning the plaintext packet and its payload length. The size is read
    /// from the decrypted first block: a packet larger than `capacity` is
    /// refused with `BadLength` before any more of it is buffered. With less
    /// than a block, or less than the whole packet, nothing changes and `None`
    /// is returned. A packet that fails its checks is removed and its error
    /// returned.
    pub fn take_decrypted(&mut self, keys: &mut KeyState) -> (r: Result<Option<(Vec<u8>, usize)>, Error>)
        ensures
            final(self).capacity == old(self).capacity,
            ({
                let b = old(self).buf@;
                let ks = *old(keys);
                let unchanged = final(self).buf@ == b && *final(keys) == ks;
                if b.len() < ks.keys.dec.spec_block() {
                    r == Ok::<Option<(Vec<u8>, usize)>, Error>(None) && unchanged
                } else {
                    match ks.spec_first_total(b) {
                        Err(e) => r == Err::<Option<(Vec<u8>, usize)>, Error>(e) && unchanged,
                        Ok(t) => if t > old(self).capacity {
                            r == Err::<Option<(Vec<u8>, usize)>, Error>(Error::BadLength) && unchanged
                        } else if t > b.len() {
                            r == Ok::<Option<(Vec<u8>, usize)>, Error>(None) && unchanged
                        } else {
                            let f = b.take(t as int);
                            let n = f.len() - ks.keys.integ_dec.spec_size_out();
                            &&& final(self).buf@ == b.skip(t as int)
                            &&& final(keys).seq_decrypt == ks.seq_decrypt.wrapping_add(1)
                            &&& match spec_open(f, &ks.keys.dec, ks.keys.integ_dec, ks.seq_decrypt) {
                                Ok(len) => r matches Ok(Some((plain, m))) && m == len
                                    && plain@ == ks.keys.dec.spec_apply(f.take(n), ks.seq_decrypt) + f.skip(n),
                                Err(e) => r == Err::<Option<(Vec<u8>, usize)>, Error>(e),
                            }
                        },
                    }
                }
            }),
    {
        let bs = keys.size_block_dec();
        if self.buf.len() < bs {
            return Ok(None);
        }
        let total = match keys.decrypt_first_block(self.buf.as_slice()) {
            Ok(t) => t as usize,
            Err(e) => return Err(e),
        };
        if total > self.capacity {
            return Err(Error::BadLength);
        }
        if total > self.buf.len() {
            return Ok(None);
        }
        let frame = to_vec(&self.buf.as_slice()[0..total]);
        let rest = to_vec(&self.buf.as_slice()[total..self.buf.len()]);
        assert(frame@ =~= old(self).buf@.take(total as int));
        assert(rest@ =~= old(self).buf@.skip(total as int));
        self.buf = rest;
        match keys.decrypt(frame.as_slice()) {
            Ok((plain, n)) => Ok(Some((plain, n))),
            Err(e) => Err(e),
        }
    }
}

/// More bytes arriving behind a buffered first block change neither the
/// size read from it nor, once the packet is whole, the packet taken and what
/// is left before the new bytes. So [`TrafIn::take_decrypted`] gives the
/// same packets, in order, however the received stream is cut into pieces.
pub proof fn lemma_keyed_prefix_stable(ks: &KeyState, b: Seq<u8>, x: Seq<u8>, t: int)
    requires
        b.len() >= ks.keys.dec.spec_block(),
        0 <= t <= b.len(),
    ensures
        ks.spec_first_total(b + x) == ks.spec_first_total(b),
        (b + x).take(t) == b.take(t),
        (b + x).skip(t) == b.skip(t) + x,
{
    let bs = ks.keys.dec.spec_block();
    assert((b + x).take(bs) =~= b.take(bs));
    assert((b + x).take(t) =~= b.take(t));
    assert((b + x).skip(t) =~= b.skip(t) + x);
}

/// A whole packet at the front stays the same whole packet whatever follows.
proof fn lemma_next_frame_extend(a: Seq<u8>, b: Seq<u8>, mac: nat)
    requires
        next_frame(a, mac) is Some,
    ensures
        next_frame(a + b, mac) == Some::<(Seq<u8>, Seq<u8>)>(
            (next_frame(a, mac)->Some_0.0, next_frame(a, mac)->Some_0.1 + b)),
{
    let ab = a + b;
    assert(ab.take(4) =~= a.take(4));
    assert(spec_u32_of(ab) == spec_u32_of(a)) by {
        assert(ab[0] == a[0] && ab[1] == a[1] && ab[2] == a[2] && ab[3] == a[3]);
    }
    let n = frame_len(a, mac);
    assert(ab.take(n) =~= a.take(n));
    assert(ab.skip(n) =~= a.skip(n) + b);
}

/// Splitting the stream anywhere changes nothing: the packets of `a + b` are
/// those of `a`, then those of what was left of `a` followed by `b`. So
/// taking packets after each piece of input, whatever the pieces, gives the
/// packets of the whole stream, in order.
pub proof fn lemma_frames_chunking(a: Seq<u8>, b: Seq<u8>, mac: nat)
    ensures
        frames(a + b, mac) == frames(a, mac) + frames(leftover(a, mac) + b, mac),
        leftover(a + b, mac) == leftover(leftover(a, mac) + b, mac),
    decreases a.len(),
{
    match next_frame(a, mac) {
        Some((f, r)) => {
            lemma_next_frame_extend(a, b, mac);
            lemma_frames_chunking(r, b, mac);
            assert(seq![f] + (frames(r, mac) + frames(leftover(r, mac) + b, mac))
                =~= (seq![f] + frames(r, mac)) + frames(leftover(r, mac) + b, mac));
        },
        None => {
            assert(frames(a, mac) + frames(a + b, mac) =~= frames(a + b, mac));
        },
    }
}

/// A packet as sent is one whole packet to the receiver, followed by
/// whatever comes after it: a stream of sent packets is taken apart into
/// exactly those packets.
pub proof fn lemma_frame_is_whole(payload: Seq<u8>, padding: Seq<u8>, integ: IntegKey, seq: u32, rest: Seq<u8>)
    requires
        1 + payload.len() + padding.len() <= u32::MAX,
        integ.spec_mac(seq, spec_body(payload, padding)).len() == integ.spec_size_out(),
    ensures
        next_frame(spec_frame(payload, padding, integ, seq) + rest, integ.spec_size_out() as nat)
            == Some::<(Seq<u8>, Seq<u8>)>((spec_frame(payload, padding, integ, seq), rest)),
        frames(spec_frame(payload, padding, integ, seq) + rest, integ.spec_size_out() as nat)
            == seq![spec_frame(payload, padding, integ, seq)] + frames(rest, integ.spec_size_out() as nat),
{
    let f = spec_frame(payload, padding, integ, seq);
    let s = f + rest;
    let n = (1 + payload.len() + padding.len()) as u32;
    lemma_u32_round_trip(n);
    assert(s.take(4) =~= spec_u32_be(n));
    assert(spec_u32_of(s) == spec_u32_of(spec_u32_be(n))) by {
        assert(s[0] == spec_u32_be(n)[0] && s[1] == spec_u32_be(n)[1]
            && s[2] == spec_u32_be(n)[2] && s[3] == spec_u32_be(n)[3]);
    }
    assert(f.len() == frame_len(s, integ.spec_size_out() as nat));
    assert(s.take(f.len() as int) =~= f);
    assert(s.skip(f.len() as int) =~= rest);
}

} // verus!
