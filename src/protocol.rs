use vstd::prelude::*;

use crate::utils::Carrier;

verus! {

/// Declares `std::io::Error` so that responses can carry it untouched.
#[verifier::external_type_specification]
#[verifier::external_body]
pub struct ExIoError(std::io::Error);

/// A seek target.
#[derive(Clone, Copy, Debug, PartialEq, Eq, Structural)]
pub enum SeekPos {
    /// An absolute offset from the start.
    Start(u64),
    /// An offset from the end.
    End(i64),
    /// An offset from the current position.
    Current(i64),
}

/// The tag of a request or a response.
#[derive(Clone, Copy, Debug, PartialEq, Eq, Structural)]
pub enum OpKind {
    Read,
    Write,
    Flush,
    Seek,
}

/// A request from the blocking side to the executor.
///
/// `Read` carries a buffer as long as the caller's; `Write` carries the
/// caller's bytes.
#[derive(Debug)]
pub enum Req {
    Read(Carrier),
    Write(Carrier),
    Flush,
    Seek(SeekPos),
}

/// A response from the executor, mirroring the request it answers.
///
/// `Read` hands the buffer back together with the outcome of the read.
#[derive(Debug)]
pub enum Resp {
    Read(Carrier, Result<usize, std::io::Error>),
    Write(Result<usize, std::io::Error>),
    Flush(Result<(), std::io::Error>),
    Seek(Result<u64, std::io::Error>),
}

pub open spec fn req_kind(r: Req) -> OpKind {
    match r {
        Req::Read(_) => OpKind::Read,
        Req::Write(_) => OpKind::Write,
        Req::Flush => OpKind::Flush,
        Req::Seek(_) => OpKind::Seek,
    }
}

pub open spec fn resp_kind(r: Resp) -> OpKind {
    match r {
        Resp::Read(_, _) => OpKind::Read,
        Resp::Write(_) => OpKind::Write,
        Resp::Flush(_) => OpKind::Flush,
        Resp::Seek(_) => OpKind::Seek,
    }
}

impl Req {
    /// The tag of this request.
    pub fn kind(&self) -> (r: OpKind)
        ensures
            r == req_kind(*self),
    {
        match self {
            Req::Read(_) => OpKind::Read,
            Req::Write(_) => OpKind::Write,
            Req::Flush => OpKind::Flush,
            Req::Seek(_) => OpKind::Seek,
        }
    }
}

impl Resp {
    /// The tag of this response.
    pub fn kind(&self) -> (r: OpKind)
        ensures
            r == resp_kind(*self),
    {
        match self {
            Resp::Read(_, _) => OpKind::Read,
            Resp::Write(_) => OpKind::Write,
            Resp::Flush(_) => OpKind::Flush,
            Resp::Seek(_) => OpKind::Seek,
        }
    }
}

/// A broken invariant of the request/response protocol.
///
/// These are fatal: they mean misuse of the bridge or an executor that went
/// away, never an ordinary I/O condition.
#[derive(Clone, Copy, Debug, PartialEq, Eq, Structural)]
pub enum Violation {
    /// A request was issued while another was still awaiting its response.
    InFlight,
    /// The request queue had no room left.
    QueueFull,
    /// The executor side closed before answering.
    Closed,
    /// A response answered another kind of request than the one in flight.
    Mismatch,
    /// A read response reported more bytes than the buffer holds.
    Overrun,
}

/// The error of a bridged call.
#[derive(Debug)]
pub enum BridgeError {
    /// An error of the resource, passed through untouched.
    Io(std::io::Error),
    /// A fatal protocol violation.
    Protocol(Violation),
}

} // verus!
