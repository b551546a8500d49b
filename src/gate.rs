use vstd::prelude::*;

use crate::protocol::{resp_kind, BridgeError, OpKind, Resp, Violation};

verus! {

/// Single-permit guard of the blocking side: at most one request is in
/// flight, and each response must answer the request that is.
pub struct Gate {
    pending: Option<OpKind>,
}

/// The outcome that a response gives for a call of kind `k` that was in
/// flight as `pending`, where the call carries no payload back.
pub open spec fn check_answer(pending: Option<OpKind>, k: OpKind, resp: Option<Resp>) -> Option<Violation> {
    match resp {
        None => Some(Violation::Closed),
        Some(r) => if pending == Some(k) && resp_kind(r) == k {
            None
        } else {
            Some(Violation::Mismatch)
        },
    }
}

/// What a resource result becomes at the facade: passed through, its error
/// wrapped as an I/O error.
pub open spec fn io_result<V>(x: Result<V, std::io::Error>) -> Result<V, BridgeError> {
    match x {
        Ok(v) => Ok(v),
        Err(e) => Err(BridgeError::Io(e)),
    }
}

/// The result of a write call that was in flight as `pending` and got `resp`.
pub open spec fn write_outcome(pending: Option<OpKind>, resp: Option<Resp>) -> Result<usize, BridgeError> {
    match check_answer(pending, OpKind::Write, resp) {
        Some(v) => Err(BridgeError::Protocol(v)),
        None => match resp {
            Some(Resp::Write(x)) => io_result(x),
            _ => Err(BridgeError::Protocol(Violation::Mismatch)),
        },
    }
}

/// The result of a flush call that was in flight as `pending` and got `resp`.
pub open spec fn flush_outcome(pending: Option<OpKind>, resp: Option<Resp>) -> Result<(), BridgeError> {
    match check_answer(pending, OpKind::Flush, resp) {
        Some(v) => Err(BridgeError::Protocol(v)),
        None => match resp {
            Some(Resp::Flush(x)) => io_result(x),
            _ => Err(BridgeError::Protocol(Violation::Mismatch)),
        },
    }
}

/// The result of a seek call that was in flight as `pending` and got `resp`.
pub open spec fn seek_outcome(pending: Option<OpKind>, resp: Option<Resp>) -> Result<u64, BridgeError> {
    match check_answer(pending, OpKind::Seek, resp) {
        Some(v) => Err(BridgeError::Protocol(v)),
        None => match resp {
            Some(Resp::Seek(x)) => io_result(x),
            _ => Err(BridgeError::Protocol(Violation::Mismatch)),
        },
    }
}

/// The result of a read call into a buffer holding `buf`, in flight as
/// `pending`, that got `resp`; and what the buffer then holds.
pub open spec fn read_outcome(pending: Option<OpKind>, buf: Seq<u8>, resp: Option<Resp>) -> (Result<usize, BridgeError>, Seq<u8>) {
    match check_answer(pending, OpKind::Read, resp) {
        Some(v) => (Err(BridgeError::Protocol(v)), buf),
        None => match resp {
            Some(Resp::Read(c, Ok(n))) => if n <= c@.len() && n <= buf.len() {
                (Ok(n), c@.subrange(0, n as int) + buf.subrange(n as int, buf.len() as int))
            } else {
                (Err(BridgeError::Protocol(Violation::Overrun)), buf)
            },
            Some(Resp::Read(_, Err(e))) => (Err(BridgeError::Io(e)), buf),
            _ => (Err(BridgeError::Protocol(Violation::Mismatch)), buf),
        },
    }
}

/// The permit after a request of kind `k` asks for it while `pending` is in
/// flight, and the answer it gets.
pub open spec fn acquire_outcome(pending: Option<OpKind>, k: OpKind) -> (Option<OpKind>, Result<(), Violation>) {
    match pending {
        None => (Some(k), Ok(())),
        Some(p) => (Some(p), Err(Violation::InFlight)),
    }
}

impl Gate {
    /// The kind of the request in flight, if any.
    pub closed spec fn pending(&self) -> Option<OpKind> {
        self.pending
    }

    /// A gate with nothing in flight.
    pub fn new() -> (r: Gate)
        ensures
            r.pending() is None,
    {
        Gate { pending: None }
    }

    /// Whether no request is in flight.
    pub fn is_idle(&self) -> (r: bool)
        ensures
            r == self.pending() is None,
    {
        self.pending.is_none()
    }

    /// Takes the permit for a request of kind `k`.
    ///
    /// Fails with `InFlight`, and changes nothing, while another request
    /// awaits its response.
    pub fn acquire(&mut self, k: OpKind) -> (r: Result<(), Violation>)
        ensures
            (final(self).pending(), r) == acquire_outcome(old(self).pending(), k),
    {
        if self.pending.is_some() {
            Err(Violation::InFlight)
        } else {
            self.pending = Some(k);
            Ok(())
        }
    }

    /// Gives the permit back without a response (the request was never sent).
    pub fn cancel(&mut self)
        ensures
            final(self).pending() is None,
    {
        self.pending = None;
    }

    /// Takes the answer to a call of kind `k`, and frees the permit.
    ///
    /// `None` means that the executor side closed before answering.
    fn settle(&mut self, k: OpKind, resp: &Option<Resp>) -> (r: Option<Violation>)
        ensures
            final(self).pending() is None,
            r == check_answer(old(self).pending(), k, *resp),
    {
        let expected = self.pending;
        self.pending = None;
        match resp {
            None => Some(Violation::Closed),
            Some(x) => {
                let got = x.kind();
                if expected == Some(k) && got == k {
                    None
                } else {
                    Some(Violation::Mismatch)
                }
            }
        }
    }

    /// Completes a read: copies what the executor read into `buf`.
    ///
    /// On `Ok(n)` the first `n` bytes of `buf` are those read and the rest is
    /// untouched; on any error `buf` is untouched.
    pub fn finish_read(&mut self, buf: &mut [u8], resp: Option<Resp>) -> (r: Result<usize, BridgeError>)
        ensures
            final(self).pending() is None,
            (r, final(buf)@) == read_outcome(old(self).pending(), old(buf)@, resp),
    {
        if let Some(v) = self.settle(OpKind::Read, &resp) {
            return Err(BridgeError::Protocol(v));
        }
        match resp {
            Some(Resp::Read(c, Ok(n))) => {
                if n > c.len() || n > buf.len() {
                    return Err(BridgeError::Protocol(Violation::Overrun));
                }
                let src = c.as_ref();
                let ghost before = buf@;
                let mut i: usize = 0;
                while i < n
                    invariant
                        n <= src@.len(),
                        n <= before.len(),
                        i <= n,
                        buf@.len() == before.len(),
                        forall|j: int| 0 <= j < i ==> buf@[j] == src@[j],
                        forall|j: int| i <= j < before.len() ==> buf@[j] == before[j],
                    decreases n - i,
                {
                    buf[i] = src[i];
                    i = i + 1;
                }
                assert(buf@ =~= src@.subrange(0, n as int) + before.subrange(n as int, before.len() as int));
                Ok(n)
            }
            Some(Resp::Read(_, Err(e))) => Err(BridgeError::Io(e)),
            _ => Err(BridgeError::Protocol(Violation::Mismatch)),
        }
    }

    /// Completes a write: the count of bytes the resource took, or its error.
    pub fn finish_write(&mut self, resp: Option<Resp>) -> (r: Result<usize, BridgeError>)
        ensures
            final(self).pending() is None,
            r == write_outcome(old(self).pending(), resp),
    {
        if let Some(v) = self.settle(OpKind::Write, &resp) {
            return Err(BridgeError::Protocol(v));
        }
        match resp {
            Some(Resp::Write(Ok(n))) => Ok(n),
            Some(Resp::Write(Err(e))) => Err(BridgeError::Io(e)),
            _ => Err(BridgeError::Protocol(Violation::Mismatch)),
        }
    }

    /// Completes a flush: success, or the resource's error.
    pub fn finish_flush(&mut self, resp: Option<Resp>) -> (r: Result<(), BridgeError>)
        ensures
            final(self).pending() is None,
            r == flush_outcome(old(self).pending(), resp),
    {
        if let Some(v) = self.settle(OpKind::Flush, &resp) {
            return Err(BridgeError::Protocol(v));
        }
        match resp {
            Some(Resp::Flush(Ok(()))) => Ok(()),
            Some(Resp::Flush(Err(e))) => Err(BridgeError::Io(e)),
            _ => Err(BridgeError::Protocol(Violation::Mismatch)),
        }
    }

    /// Completes a seek: the resulting absolute offset, or the resource's error.
    pub fn finish_seek(&mut self, resp: Option<Resp>) -> (r: Result<u64, BridgeError>)
        ensures
            final(self).pending() is None,
            r == seek_outcome(old(self).pending(), resp),
    {
        if let Some(v) = self.settle(OpKind::Seek, &resp) {
            return Err(BridgeError::Protocol(v));
        }
        match resp {
            Some(Resp::Seek(Ok(p))) => Ok(p),
            Some(Resp::Seek(Err(e))) => Err(BridgeError::Io(e)),
            _ => Err(BridgeError::Protocol(Violation::Mismatch)),
        }
    }
}

} // verus!
