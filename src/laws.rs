use vstd::prelude::*;

use crate::agent::{Agent, NoopAgent, ReadAgent, SeekAgent, WriteAgent};
use crate::builder::{step_outcome, Step};
use crate::gate::{
    acquire_outcome, check_answer, flush_outcome, io_result, read_outcome, seek_outcome,
    write_outcome,
};
use crate::protocol::{req_kind, resp_kind, OpKind, Req, Resp, Violation};
use crate::utils::Carrier;

verus! {

/// A request whose kind the dispatch chain serves reaches the resource
/// unchanged: the executor performs exactly the operation that was asked, with
/// the same buffer or seek target.
pub proof fn lemma_requests_pass_through<A: Agent>(q: Req)
    requires
        A::accepts(req_kind(q)),
    ensures
        step_outcome::<A>(Some(q)) == Step::Serve(q),
{
}

/// The answer of the resource to the call in flight reaches the caller as the
/// resource gave it: a write, flush or seek through the bridge returns what the
/// same call on the resource returned, its error included.
pub proof fn lemma_results_pass_through(
    w: Result<usize, std::io::Error>,
    f: Result<(), std::io::Error>,
    s: Result<u64, std::io::Error>,
)
    ensures
        write_outcome(Some(OpKind::Write), Some(Resp::Write(w))) == io_result(w),
        flush_outcome(Some(OpKind::Flush), Some(Resp::Flush(f))) == io_result(f),
        seek_outcome(Some(OpKind::Seek), Some(Resp::Seek(s))) == io_result(s),
{
}

/// A read through the bridge returns the count the resource read, and the
/// caller's buffer then starts with exactly the bytes the resource read,
/// the rest of it untouched.
pub proof fn lemma_read_delivers_exact_bytes(buf: Seq<u8>, c: Carrier, n: usize)
    requires
        n <= c@.len(),
        n <= buf.len(),
    ensures
        read_outcome(Some(OpKind::Read), buf, Some(Resp::Read(c, Ok(n)))).0 == Ok::<
            usize,
            crate::protocol::BridgeError,
        >(n),
        read_outcome(Some(OpKind::Read), buf, Some(Resp::Read(c, Ok(n)))).1.subrange(0, n as int)
            == c@.subrange(0, n as int),
        read_outcome(Some(OpKind::Read), buf, Some(Resp::Read(c, Ok(n)))).1.subrange(
            n as int,
            buf.len() as int,
        ) == buf.subrange(n as int, buf.len() as int),
{
    let out = read_outcome(Some(OpKind::Read), buf, Some(Resp::Read(c, Ok(n)))).1;
    assert(out.subrange(0, n as int) =~= c@.subrange(0, n as int));
    assert(out.subrange(n as int, buf.len() as int) =~= buf.subrange(n as int, buf.len() as int));
}

/// Once the request queue is closed the executor stops, whatever its chain.
pub proof fn lemma_closed_queue_stops<A: Agent>()
    ensures
        step_outcome::<A>(None) == Step::Stop,
{
}

/// A second request issued before the first one's response is taken is
/// refused with `InFlight`, and the first one keeps the permit.
pub proof fn lemma_second_request_refused(first: OpKind, second: OpKind)
    ensures
        acquire_outcome(None, first) == (Some(first), Ok::<(), Violation>(())),
        acquire_outcome(acquire_outcome(None, first).0, second) == (
            Some(first),
            Err::<(), Violation>(Violation::InFlight),
        ),
{
}

/// A response that answers another kind of request than the one in flight is
/// refused with `Mismatch`, and a closed response queue with `Closed`.
pub proof fn lemma_stray_response_refused(k: OpKind, r: Resp)
    requires
        resp_kind(r) != k,
    ensures
        check_answer(Some(k), k, Some(r)) == Some(Violation::Mismatch),
        check_answer(Some(k), k, None) == Some(Violation::Closed),
{
}

/// Adding read or write links to a chain that does not serve seeks gives a
/// chain that still does not: only `bridge_seek` makes seeks reachable.
pub proof fn lemma_seek_needs_seek_link<A: Agent>()
    requires
        !A::accepts(OpKind::Seek),
    ensures
        !NoopAgent::accepts(OpKind::Seek),
        !ReadAgent::<A>::accepts(OpKind::Seek),
        !WriteAgent::<A>::accepts(OpKind::Seek),
        SeekAgent::<A>::accepts(OpKind::Seek),
{
}

} // verus!
