use std::marker::PhantomData;

use tokio::sync::mpsc::error::TrySendError;
use tokio::sync::mpsc::{Receiver, Sender};
use vstd::prelude::*;

use crate::gate::{flush_outcome, read_outcome, seek_outcome, write_outcome, Gate};
use crate::protocol::{req_kind, BridgeError, OpKind, Req, Resp, SeekPos, Violation};
use crate::utils::{Carrier, Tru};

verus! {

/// Declares tokio's bounded sender; it is only carried, never looked into.
#[verifier::external_type_specification]
#[verifier::external_body]
#[verifier::reject_recursive_types(T)]
pub struct ExSender<T>(Sender<T>);

/// Declares tokio's bounded receiver; it is only carried, never looked into.
#[verifier::external_type_specification]
#[verifier::external_body]
#[verifier::reject_recursive_types(T)]
pub struct ExReceiver<T>(Receiver<T>);

/// A capacity that tokio's bounded channel accepts on every target
/// (its maximum is `usize::MAX >> 3`).
pub const MAX_CAPACITY: usize = 0x1fff_ffff;

/// Relies on `tokio::sync::mpsc::channel`: a bounded FIFO pair of the given
/// capacity. It panics on a capacity of 0 or above its semaphore's maximum.
#[verifier::external_body]
pub(crate) fn open_channel<T>(capacity: usize) -> (Sender<T>, Receiver<T>)
    requires
        0 < capacity <= MAX_CAPACITY,
{
    tokio::sync::mpsc::channel(capacity)
}

/// Relies on `tokio::sync::mpsc::Sender::try_send`: it either enqueues the
/// message, or reports that the queue is full or that the receiver is gone.
#[verifier::external_body]
fn send_now(tx: &Sender<Req>, req: Req) -> (r: Result<(), Violation>)
    ensures
        r matches Err(v) ==> v == Violation::QueueFull || v == Violation::Closed,
{
    match tx.try_send(req) {
        Ok(()) => Ok(()),
        Err(TrySendError::Full(_)) => Err(Violation::QueueFull),
        Err(TrySendError::Closed(_)) => Err(Violation::Closed),
    }
}

/// Relies on `tokio::sync::mpsc::Receiver::blocking_recv`: it parks the thread
/// until a message comes (`Some`) or every sender is gone (`None`). It must not
/// be called from inside an asynchronous execution context, where it panics;
/// the facade is documented for use on a blocking thread only.
#[verifier::external_body]
fn wait_response(rx: &mut Receiver<Resp>) -> (r: Option<Resp>) {
    rx.blocking_recv()
}

/// The blocking facade over the executor task.
///
/// `R`, `W` and `S` are `Tru` or `Fls` and say whether reading, writing and
/// seeking were enabled; the methods of a disabled capability do not exist on
/// the type. Use it from a blocking thread only, after the executor task has
/// been spawned.
pub struct IOBridge<R, W, S> {
    rx: Receiver<Resp>,
    tx: Sender<Req>,
    gate: Gate,
    _marker: PhantomData<(R, W, S)>,
}

impl<R, W, S> IOBridge<R, W, S> {
    /// The kind of the request in flight, if any.
    pub closed spec fn pending(&self) -> Option<OpKind> {
        self.gate.pending()
    }

    pub(crate) fn new(rx: Receiver<Resp>, tx: Sender<Req>) -> (r: Self)
        ensures
            r.pending() is None,
    {
        IOBridge { rx, tx, gate: Gate::new(), _marker: PhantomData }
    }

    /// Whether no request is in flight.
    pub fn is_idle(&self) -> (r: bool)
        ensures
            r == self.pending() is None,
    {
        self.gate.is_idle()
    }

    /// Sends one request, after taking the permit for it.
    fn submit(&mut self, req: Req) -> (r: Result<(), Violation>)
        ensures
            old(self).pending() is Some ==> r == Err::<(), Violation>(Violation::InFlight)
                && final(self).pending() == old(self).pending(),
            old(self).pending() is None ==> (r is Ok && final(self).pending() == Some(req_kind(req)))
                || (final(self).pending() is None && (r == Err::<(), Violation>(Violation::QueueFull)
                || r == Err::<(), Violation>(Violation::Closed))),
    {
        let k = req.kind();
        match self.gate.acquire(k) {
            Err(v) => Err(v),
            Ok(()) => match send_now(&self.tx, req) {
                Ok(()) => Ok(()),
                Err(v) => {
                    self.gate.cancel();
                    Err(v)
                },
            },
        }
    }
}

impl<W, S> IOBridge<Tru, W, S> {
    /// Reads into `buf` through the executor: at most `buf.len()` bytes.
    ///
    /// On `Ok(n)` only the first `n` bytes of `buf` may have changed; on an
    /// error `buf` is untouched.
    pub fn read(&mut self, buf: &mut [u8]) -> (r: Result<usize, BridgeError>)
        ensures
            old(self).pending() is Some ==> r == Err::<usize, BridgeError>(
                BridgeError::Protocol(Violation::InFlight),
            ),
            old(self).pending() is None ==> final(self).pending() is None,
            r is Err ==> final(buf)@ == old(buf)@,
            r matches Ok(n) ==> n <= old(buf)@.len() && final(buf)@.len() == old(buf)@.len()
                && final(buf)@.subrange(n as int, old(buf)@.len() as int) == old(buf)@.subrange(
                n as int,
                old(buf)@.len() as int,
            ),
            old(self).pending() is None ==> r == Err::<usize, BridgeError>(
                BridgeError::Protocol(Violation::QueueFull),
            ) || r == Err::<usize, BridgeError>(BridgeError::Protocol(Violation::Closed))
                || exists|resp: Option<Resp>|
                (r, final(buf)@) == #[trigger] read_outcome(Some(OpKind::Read), old(buf)@, resp),
    {
        let req = Req::Read(Carrier::copy_of(buf));
        match self.submit(req) {
            Err(v) => Err(BridgeError::Protocol(v)),
            Ok(()) => {
                let resp = wait_response(&mut self.rx);
                let ghost before = resp;
                let r = self.gate.finish_read(buf, resp);
                proof {
                    assert((r, final(buf)@) == read_outcome(Some(OpKind::Read), old(buf)@, before));
                    if let Ok(n) = r {
                        let len = old(buf)@.len() as int;
                        assert(final(buf)@.subrange(n as int, len) =~= old(buf)@.subrange(n as int, len));
                    }
                }
                r
            },
        }
    }
}

impl<R, S> IOBridge<R, Tru, S> {
    /// Writes `buf` through the executor: the count of bytes the resource took.
    pub fn write(&mut self, buf: &[u8]) -> (r: Result<usize, BridgeError>)
        ensures
            old(self).pending() is Some ==> r == Err::<usize, BridgeError>(
                BridgeError::Protocol(Violation::InFlight),
            ),
            old(self).pending() is None ==> final(self).pending() is None,
            old(self).pending() is None ==> r == Err::<usize, BridgeError>(
                BridgeError::Protocol(Violation::QueueFull),
            ) || r == Err::<usize, BridgeError>(BridgeError::Protocol(Violation::Closed))
                || exists|resp: Option<Resp>| r == #[trigger] write_outcome(Some(OpKind::Write), resp),
    {
        let req = Req::Write(Carrier::copy_of(buf));
        match self.submit(req) {
            Err(v) => Err(BridgeError::Protocol(v)),
            Ok(()) => {
                let resp = wait_response(&mut self.rx);
                let r = self.gate.finish_write(resp);
                assert(r == write_outcome(Some(OpKind::Write), resp));
                r
            },
        }
    }

    /// Flushes the resource through the executor.
    pub fn flush(&mut self) -> (r: Result<(), BridgeError>)
        ensures
            old(self).pending() is Some ==> r == Err::<(), BridgeError>(
                BridgeError::Protocol(Violation::InFlight),
            ),
            old(self).pending() is None ==> final(self).pending() is None,
            old(self).pending() is None ==> r == Err::<(), BridgeError>(
                BridgeError::Protocol(Violation::QueueFull),
            ) || r == Err::<(), BridgeError>(BridgeError::Protocol(Violation::Closed))
                || exists|resp: Option<Resp>| r == #[trigger] flush_outcome(Some(OpKind::Flush), resp),
    {
        match self.submit(Req::Flush) {
            Err(v) => Err(BridgeError::Protocol(v)),
            Ok(()) => {
                let resp = wait_response(&mut self.rx);
                let r = self.gate.finish_flush(resp);
                assert(r == flush_outcome(Some(OpKind::Flush), resp));
                r
            },
        }
    }
}

impl<R, W> IOBridge<R, W, Tru> {
    /// Seeks the resource through the executor: the resulting absolute offset.
    pub fn seek(&mut self, pos: SeekPos) -> (r: Result<u64, BridgeError>)
        ensures
            old(self).pending() is Some ==> r == Err::<u64, BridgeError>(
                BridgeError::Protocol(Violation::InFlight),
            ),
            old(self).pending() is None ==> final(self).pending() is None,
            old(self).pending() is None ==> r == Err::<u64, BridgeError>(
                BridgeError::Protocol(Violation::QueueFull),
            ) || r == Err::<u64, BridgeError>(BridgeError::Protocol(Violation::Closed))
                || exists|resp: Option<Resp>| r == #[trigger] seek_outcome(Some(OpKind::Seek), resp),
    {
        match self.submit(Req::Seek(pos)) {
            Err(v) => Err(BridgeError::Protocol(v)),
            Ok(()) => {
                let resp = wait_response(&mut self.rx);
                let r = self.gate.finish_seek(resp);
                assert(r == seek_outcome(Some(OpKind::Seek), resp));
                r
            },
        }
    }
}

} // verus!
