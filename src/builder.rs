use std::marker::PhantomData;

use tokio::sync::mpsc::{Receiver, Sender};
use vstd::prelude::*;

use crate::agent::{Agent, NoopAgent, ReadAgent, SeekAgent, WriteAgent};
use crate::bridge::{open_channel, IOBridge};
use crate::protocol::{req_kind, OpKind, Req, Resp};
use crate::utils::{Fls, Tru};

verus! {

/// Capacity of each of the two queues between the facade and the executor.
pub const QUEUE_CAPACITY: usize = 10;

/// Builder of a facade and its executor over the resource `T`.
///
/// `A` is the dispatch chain built so far; `R`, `W` and `S` record, as `Tru`
/// or `Fls`, which capabilities are enabled. Each capability can be enabled
/// once, since its method exists only while its flag is `Fls`.
pub struct BridgeBuilder<A, T, R, W, S> {
    io: T,
    _marker: PhantomData<(A, R, W, S)>,
}

impl<A, T, R, W, S> BridgeBuilder<A, T, R, W, S> {
    /// The resource that the builder holds.
    pub closed spec fn resource(&self) -> T {
        self.io
    }
}

impl<T> BridgeBuilder<NoopAgent, T, Fls, Fls, Fls> {
    /// A builder over `io` with no capability enabled.
    pub fn new(io: T) -> (r: Self)
        ensures
            r.resource() == io,
    {
        BridgeBuilder { io, _marker: PhantomData }
    }
}

impl<A, T, W, S> BridgeBuilder<A, T, Fls, W, S> {
    /// Enables reading.
    pub fn bridge_read(self) -> (r: BridgeBuilder<ReadAgent<A>, T, Tru, W, S>)
        ensures
            r.resource() == self.resource(),
    {
        BridgeBuilder { io: self.io, _marker: PhantomData }
    }
}

impl<A, T, R, S> BridgeBuilder<A, T, R, Fls, S> {
    /// Enables writing and flushing.
    pub fn bridge_write(self) -> (r: BridgeBuilder<WriteAgent<A>, T, R, Tru, S>)
        ensures
            r.resource() == self.resource(),
    {
        BridgeBuilder { io: self.io, _marker: PhantomData }
    }
}

impl<A, T, R, W> BridgeBuilder<A, T, R, W, Fls> {
    /// Enables seeking.
    pub fn bridge_seek(self) -> (r: BridgeBuilder<SeekAgent<A>, T, R, W, Tru>)
        ensures
            r.resource() == self.resource(),
    {
        BridgeBuilder { io: self.io, _marker: PhantomData }
    }
}

impl<A: Agent, T, R, W, S> BridgeBuilder<A, T, R, W, S> {
    /// Creates the two queues and splits into the executor, which owns the
    /// resource, and the facade, with nothing in flight.
    ///
    /// Spawn the executor's loop before using the facade, and use the facade
    /// on a blocking thread only.
    pub fn build(self) -> (r: (Executor<A, T>, IOBridge<R, W, S>))
        ensures
            r.0.resource() == self.resource(),
            r.1.pending() is None,
    {
        let (req_tx, req_rx) = open_channel::<Req>(QUEUE_CAPACITY);
        let (resp_tx, resp_rx) = open_channel::<Resp>(QUEUE_CAPACITY);
        let exec = Executor { io: self.io, rx: req_rx, tx: resp_tx, _marker: PhantomData };
        (exec, IOBridge::new(resp_rx, req_tx))
    }
}

/// What the executor does with what it took from the request queue.
pub enum Step {
    /// The queue is closed: the facade is gone, and the loop ends.
    Stop,
    /// Perform this request on the resource and send back its response.
    Serve(Req),
    /// No link of the chain serves this kind of request: drop it.
    Skip(OpKind),
}

/// The step for `msg` under the dispatch chain `A`.
pub open spec fn step_outcome<A: Agent>(msg: Option<Req>) -> Step {
    match msg {
        None => Step::Stop,
        Some(q) => if A::accepts(req_kind(q)) {
            Step::Serve(q)
        } else {
            Step::Skip(req_kind(q))
        },
    }
}

/// The side that owns the resource and serves the requests one at a time.
pub struct Executor<A, T> {
    io: T,
    rx: Receiver<Req>,
    tx: Sender<Resp>,
    _marker: PhantomData<A>,
}

impl<A, T> Executor<A, T> {
    /// The resource that the executor owns.
    pub closed spec fn resource(&self) -> T {
        self.io
    }

    /// The resource, the request queue and the response queue, for the loop
    /// that drives the executor.
    pub fn into_parts(self) -> (r: (T, Receiver<Req>, Sender<Resp>))
        ensures
            r.0 == self.resource(),
    {
        (self.io, self.rx, self.tx)
    }
}

impl<A: Agent, T> Executor<A, T> {
    /// Decides what to do with the next item of the request queue: stop on
    /// closure, serve a request whose kind the chain serves, drop the rest.
    pub fn step(msg: Option<Req>) -> (r: Step)
        ensures
            r == step_outcome::<A>(msg),
    {
        match msg {
            None => Step::Stop,
            Some(q) => {
                let k = q.kind();
                if A::route(k) {
                    Step::Serve(q)
                } else {
                    Step::Skip(k)
                }
            },
        }
    }
}

} // verus!
