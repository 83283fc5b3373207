//! The identification exchange that precedes binary packets: each side sends
//! `SSH-2.0-<impl>\r\n`; the receiver skips other lines before it.

use vstd::prelude::*;
use crate::bytes::to_vec;
use crate::error::Error;

verus! {

/// The longest identification line accepted, without CR and LF.
pub const MAX_IDENT_LINE: usize = 253;

pub const LF: u8 = 10;
pub const CR: u8 = 13;

/// `SSH-`
pub open spec fn spec_ssh_prefix() -> Seq<u8> {
    seq![83, 83, 72, 45]
}

/// `SSH-2.0-`
pub open spec fn spec_ssh2_prefix() -> Seq<u8> {
    seq![83, 83, 72, 45, 50, 46, 48, 45]
}

/// `SSH-2.0-sunset`, the line this implementation sends (without CR LF).
pub open spec fn spec_our_version() -> Seq<u8> {
    seq![83, 83, 72, 45, 50, 46, 48, 45, 115, 117, 110, 115, 101, 116]
}

pub fn our_version() -> (r: Vec<u8>)
    ensures
        r@ == spec_our_version(),
{
    let r: Vec<u8> = vec![83u8, 83, 72, 45, 50, 46, 48, 45, 115, 117, 110, 115, 101, 116];
    assert(r@ =~= spec_our_version());
    r
}

/// A line without a trailing CR.
pub open spec fn strip_cr(l: Seq<u8>) -> Seq<u8> {
    if l.len() > 0 && l.last() == CR { l.drop_last() } else { l }
}

/// One received byte: returns the partial line and, once a line beginning
/// with `SSH-` is complete, that line.
pub open spec fn spec_step(line: Seq<u8>, b: u8) -> Result<(Seq<u8>, Option<Seq<u8>>), Error> {
    if b == LF {
        let l = strip_cr(line);
        if l.len() >= 4 && l.take(4) == spec_ssh_prefix() {
            if l.len() >= 8 && l.take(8) == spec_ssh2_prefix() {
                Ok((Seq::empty(), Some(l)))
            } else {
                Err(Error::BadVersion)
            }
        } else {
            Ok((Seq::empty(), None))
        }
    } else if line.len() >= MAX_IDENT_LINE + 1 {
        Err(Error::BadVersion)
    } else {
        Ok((line.push(b), None))
    }
}

/// Feeds `input` byte by byte from partial line `line`, stopping after the
/// byte that completes the version line. Gives the partial line, the version
/// line if found, and how many bytes were used.
pub open spec fn spec_run(line: Seq<u8>, input: Seq<u8>) -> Result<(Seq<u8>, Option<Seq<u8>>, nat), Error>
    decreases input.len(),
{
    if input.len() == 0 {
        Ok((line, None, 0))
    } else {
        match spec_run(line, input.drop_last()) {
            Err(e) => Err(e),
            Ok((l, Some(v), n)) => Ok((l, Some(v), n)),
            Ok((l, None, n)) => match spec_step(l, input.last()) {
                Err(e) => Err(e),
                Ok((l2, v2)) => Ok((l2, v2, n + 1)),
            },
        }
    }
}

/// The peer's identification line, as it is being received.
#[derive(Debug)]
pub struct RemoteVersion {
    pub line: Vec<u8>,
    pub version: Option<Vec<u8>>,
}

impl RemoteVersion {
    pub fn new() -> (r: RemoteVersion)
        ensures
            r.line@.len() == 0,
            r.version is None,
    {
        RemoteVersion { line: Vec::new(), version: None }
    }

    /// The peer's version line without CR LF, once it has been received.
    pub fn version(&self) -> (r: Result<Vec<u8>, Error>)
        ensures
            match self.version {
                Some(v) => r matches Ok(x) && x@ == v@,
                None => r == Err::<Vec<u8>, Error>(Error::Bug),
            },
    {
        match &self.version {
            Some(v) => Ok(to_vec(v.as_slice())),
            None => Err(Error::Bug),
        }
    }

    fn step(&mut self, b: u8) -> (r: Result<(), Error>)
        requires
            old(self).line@.len() <= MAX_IDENT_LINE + 1,
        ensures
            match spec_step(old(self).line@, b) {
                Ok((l, v)) => r is Ok && final(self).line@ == l
                    && (v matches Some(x) ==> final(self).version matches Some(y) && y@ == x)
                    && (v is None ==> final(self).version == old(self).version),
                Err(e) => r == Err::<(), Error>(e),
            },
            final(self).line@.len() <= MAX_IDENT_LINE + 1,
    {
        if b == LF {
            let n = self.line.len();
            let end = if n > 0 && self.line[n - 1] == CR { n - 1 } else { n };
            let l = to_vec(&self.line.as_slice()[0..end]);
            assert(l@ =~= strip_cr(self.line@));
            let pre = vec![83u8, 83, 72, 45, 50, 46, 48, 45];
            let mut i: usize = 0;
            let mut ok4 = l.len() >= 4;
            let mut ok8 = l.len() >= 8;
            while i < 8
                invariant
                    i <= 8,
                    pre@ == spec_ssh2_prefix(),
                    ok4 == (l@.len() >= 4 && (forall|j: int| 0 <= j < i && j < 4 ==> l@[j] == pre@[j])),
                    ok8 == (l@.len() >= 8 && (forall|j: int| 0 <= j < i ==> l@[j] == pre@[j])),
                decreases 8 - i,
            {
                if i < l.len() && l[i] != pre[i] {
                    if i < 4 {
                        ok4 = false;
                    }
                    ok8 = false;
                }
                i = i + 1;
            }
            proof {
                assert(spec_ssh2_prefix().take(4) =~= spec_ssh_prefix());
                if ok4 { assert(l@.take(4) =~= spec_ssh_prefix()); }
                if ok8 { assert(l@.take(8) =~= spec_ssh2_prefix()); }
                if l@.len() >= 4 && l@.take(4) == spec_ssh_prefix() {
                    assert forall|j: int| 0 <= j < 4 implies l@[j] == pre@[j] by {
                        assert(l@.take(4)[j] == spec_ssh_prefix()[j]);
                    }
                }
                if l@.len() >= 8 && l@.take(8) == spec_ssh2_prefix() {
                    assert forall|j: int| 0 <= j < 8 implies l@[j] == pre@[j] by {
                        assert(l@.take(8)[j] == spec_ssh2_prefix()[j]);
                    }
                }
            }
            if ok4 {
                if ok8 {
                    self.line = Vec::new();
                    self.version = Some(l);
                    Ok(())
                } else {
                    Err(Error::BadVersion)
                }
            } else {
                self.line = Vec::new();
                Ok(())
            }
        } else if self.line.len() >= MAX_IDENT_LINE + 1 {
            Err(Error::BadVersion)
        } else {
            self.line.push(b);
            Ok(())
        }
    }

    /// Takes bytes of the peer's identification, returning how many were
    /// used: input stops being taken just after the version line's LF, and
    /// what follows belongs to the binary packets. Lines before it that do not
    /// begin with `SSH-` are skipped; one that begins with `SSH-` but is not
    /// `SSH-2.0-`, or a line too long, is an error.
    pub fn consume(&mut self, input: &[u8]) -> (r: Result<usize, Error>)
        requires
            old(self).version is None,
            old(self).line@.len() <= MAX_IDENT_LINE + 1,
        ensures
            match spec_run(old(self).line@, input@) {
                Ok((l, v, n)) => r == Ok::<usize, Error>(n as usize) && final(self).line@ == l
                    && (v matches Some(x) ==> final(self).version matches Some(y) && y@ == x)
                    && (v is None ==> final(self).version is None),
                Err(e) => r == Err::<usize, Error>(e),
            },
    {
        let mut i: usize = 0;
        assert(input@.take(0) =~= Seq::<u8>::empty());
        while i < input.len()
            invariant
                i <= input@.len(),
                self.line@.len() <= MAX_IDENT_LINE + 1,
                self.version is None,
                spec_run(old(self).line@, input@.take(i as int)) == Ok::<(Seq<u8>, Option<Seq<u8>>, nat), Error>(
                    (self.line@, None, i as nat)),
            decreases input@.len() - i,
        {
            assert(input@.take(i as int + 1).drop_last() =~= input@.take(i as int));
            match self.step(input[i]) {
                Ok(()) => {},
                Err(e) => {
                    proof { lemma_run_prefix(old(self).line@, input@, i as int + 1); }
                    return Err(e);
                },
            }
            i = i + 1;
            if self.version.is_some() {
                proof { lemma_run_prefix(old(self).line@, input@, i as int); }
                return Ok(i);
            }
        }
        assert(input@.take(i as int) =~= input@);
        Ok(i)
    }
}

/// Once the run over a prefix has stopped (found the line or failed), the
/// run over the whole input gives the same.
proof fn lemma_run_prefix(line: Seq<u8>, input: Seq<u8>, n: int)
    requires
        0 <= n <= input.len(),
        !(spec_run(line, input.take(n)) matches Ok((_, None, _))),
    ensures
        spec_run(line, input) == spec_run(line, input.take(n)),
    decreases input.len() - n,
{
    if n < input.len() {
        assert(input.drop_last().take(n) =~= input.take(n));
        lemma_run_prefix(line, input.drop_last(), n);
    } else {
        assert(input.take(n) =~= input);
    }
}

} // verus!
