use async_io_bridge::{
    Agent, BridgeError, Carrier, Executor, Gate, NoopAgent, OpKind, ReadAgent, Req, Resp,
    SeekAgent, SeekPos, Step, Violation, WriteAgent,
};

fn io_error() -> std::io::Error {
    std::io::Error::new(std::io::ErrorKind::Other, "resource failed")
}

#[test]
fn second_request_is_refused() {
    let mut g = Gate::new();
    assert!(g.is_idle());
    assert_eq!(g.acquire(OpKind::Write), Ok(()));
    assert_eq!(g.acquire(OpKind::Read), Err(Violation::InFlight));
    assert!(!g.is_idle());
    assert_eq!(g.finish_write(Some(Resp::Write(Ok(3)))).unwrap(), 3);
    assert!(g.is_idle());
    assert_eq!(g.acquire(OpKind::Read), Ok(()));
}

#[test]
fn stray_response_is_refused() {
    let mut g = Gate::new();
    g.acquire(OpKind::Seek).unwrap();
    match g.finish_seek(Some(Resp::Flush(Ok(())))) {
        Err(BridgeError::Protocol(v)) => assert_eq!(v, Violation::Mismatch),
        other => panic!("unexpected {:?}", other),
    }
    assert!(g.is_idle());
    // Nothing in flight: any response is stray.
    match g.finish_flush(Some(Resp::Flush(Ok(())))) {
        Err(BridgeError::Protocol(v)) => assert_eq!(v, Violation::Mismatch),
        other => panic!("unexpected {:?}", other),
    }
}

#[test]
fn closed_response_queue_is_reported() {
    let mut g = Gate::new();
    g.acquire(OpKind::Flush).unwrap();
    match g.finish_flush(None) {
        Err(BridgeError::Protocol(v)) => assert_eq!(v, Violation::Closed),
        other => panic!("unexpected {:?}", other),
    }
}

#[test]
fn read_copies_the_bytes_read() {
    let mut g = Gate::new();
    g.acquire(OpKind::Read).unwrap();
    let mut buf = [0u8, 0, 0, 0, 9];
    let c = Carrier::new(vec![4, 5, 6, 1, 1]);
    assert_eq!(g.finish_read(&mut buf, Some(Resp::Read(c, Ok(3)))).unwrap(), 3);
    assert_eq!(buf, [4, 5, 6, 0, 9]);
}

#[test]
fn read_overrun_is_refused() {
    let mut g = Gate::new();
    g.acquire(OpKind::Read).unwrap();
    let mut buf = [1u8, 2];
    let c = Carrier::new(vec![4, 5, 6]);
    match g.finish_read(&mut buf, Some(Resp::Read(c, Ok(3)))) {
        Err(BridgeError::Protocol(v)) => assert_eq!(v, Violation::Overrun),
        other => panic!("unexpected {:?}", other),
    }
    assert_eq!(buf, [1, 2]);
}

#[test]
fn resource_errors_pass_through() {
    let mut g = Gate::new();
    g.acquire(OpKind::Read).unwrap();
    let mut buf = [1u8, 2];
    match g.finish_read(&mut buf, Some(Resp::Read(Carrier::new(vec![0, 0]), Err(io_error())))) {
        Err(BridgeError::Io(e)) => assert_eq!(e.to_string(), "resource failed"),
        other => panic!("unexpected {:?}", other),
    }
    assert_eq!(buf, [1, 2]);
    g.acquire(OpKind::Write).unwrap();
    assert!(matches!(g.finish_write(Some(Resp::Write(Err(io_error())))), Err(BridgeError::Io(_))));
    g.acquire(OpKind::Seek).unwrap();
    assert!(matches!(g.finish_seek(Some(Resp::Seek(Err(io_error())))), Err(BridgeError::Io(_))));
    g.acquire(OpKind::Seek).unwrap();
    assert_eq!(g.finish_seek(Some(Resp::Seek(Ok(17)))).unwrap(), 17);
}

#[test]
fn cancel_frees_the_permit() {
    let mut g = Gate::new();
    g.acquire(OpKind::Write).unwrap();
    g.cancel();
    assert!(g.is_idle());
}

#[test]
fn chain_serves_only_enabled_kinds() {
    type ReadOnly = ReadAgent<NoopAgent>;
    assert!(ReadOnly::route(OpKind::Read));
    assert!(!ReadOnly::route(OpKind::Seek));
    assert!(!ReadOnly::route(OpKind::Write));
    type ReadWrite = WriteAgent<ReadAgent<NoopAgent>>;
    assert!(ReadWrite::route(OpKind::Read));
    assert!(ReadWrite::route(OpKind::Write));
    assert!(ReadWrite::route(OpKind::Flush));
    assert!(!ReadWrite::route(OpKind::Seek));
    type All = SeekAgent<WriteAgent<ReadAgent<NoopAgent>>>;
    assert!(All::route(OpKind::Seek));
    assert!(!NoopAgent::route(OpKind::Read));
}

#[test]
fn executor_steps() {
    type Chain = ReadAgent<NoopAgent>;
    assert!(matches!(Executor::<Chain, ()>::step(None), Step::Stop));
    match Executor::<Chain, ()>::step(Some(Req::Read(Carrier::new(vec![0, 0])))) {
        Step::Serve(Req::Read(c)) => assert_eq!(c.len(), 2),
        _ => panic!("read must be served"),
    }
    match Executor::<Chain, ()>::step(Some(Req::Seek(SeekPos::End(-1)))) {
        Step::Skip(k) => assert_eq!(k, OpKind::Seek),
        _ => panic!("seek must be skipped"),
    }
}

#[test]
fn carrier_copies() {
    let src = [3u8, 1, 4];
    let c = Carrier::copy_of(&src);
    assert_eq!(c.len(), 3);
    assert_eq!(c.as_ref(), &[3, 1, 4]);
    assert_eq!(c.into_inner(), vec![3, 1, 4]);
    assert_eq!(Carrier::copy_of(&[]).len(), 0);
}

#[test]
fn request_and_response_kinds() {
    assert_eq!(Req::Flush.kind(), OpKind::Flush);
    assert_eq!(Req::Write(Carrier::new(vec![1])).kind(), OpKind::Write);
    assert_eq!(Resp::Seek(Ok(0)).kind(), OpKind::Seek);
    assert_eq!(Resp::Read(Carrier::new(vec![]), Ok(0)).kind(), OpKind::Read);
}
