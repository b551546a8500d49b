use std::marker::PhantomData;

use vstd::prelude::*;

use crate::protocol::OpKind;

verus! {

/// One link of the dispatch chain: it recognizes some request tags and hands
/// the rest to the next link.
pub trait Agent {
    /// Whether the chain starting at this link serves requests of kind `k`.
    spec fn accepts(k: OpKind) -> bool;

    /// Decides whether a request of kind `k` is served.
    fn route(k: OpKind) -> (r: bool)
        ensures
            r == Self::accepts(k),
    ;
}

/// The end of the chain: it serves nothing.
pub struct NoopAgent;

/// Serves `Read`, and passes the rest to `A`.
pub struct ReadAgent<A>(PhantomData<A>);

/// Serves `Write` and `Flush`, and passes the rest to `A`.
pub struct WriteAgent<A>(PhantomData<A>);

/// Serves `Seek`, and passes the rest to `A`.
pub struct SeekAgent<A>(PhantomData<A>);

impl Agent for NoopAgent {
    open spec fn accepts(k: OpKind) -> bool {
        false
    }

    fn route(k: OpKind) -> (r: bool) {
        false
    }
}

impl<A: Agent> Agent for ReadAgent<A> {
    open spec fn accepts(k: OpKind) -> bool {
        k == OpKind::Read || A::accepts(k)
    }

    fn route(k: OpKind) -> (r: bool) {
        match k {
            OpKind::Read => true,
            _ => A::route(k),
        }
    }
}

impl<A: Agent> Agent for WriteAgent<A> {
    open spec fn accepts(k: OpKind) -> bool {
        k == OpKind::Write || k == OpKind::Flush || A::accepts(k)
    }

    fn route(k: OpKind) -> (r: bool) {
        match k {
            OpKind::Write => true,
            OpKind::Flush => true,
            _ => A::route(k),
        }
    }
}

impl<A: Agent> Agent for SeekAgent<A> {
    open spec fn accepts(k: OpKind) -> bool {
        k == OpKind::Seek || A::accepts(k)
    }

    fn route(k: OpKind) -> (r: bool) {
        match k {
            OpKind::Seek => true,
            _ => A::route(k),
        }
    }
}

} // verus!
