use chmux::{
    fragment, Cfg, MultiplexMsg, Multiplexer, MuxEvent, MuxStatus, Pop, SendError, SendStep,
};

fn small_cfg() -> Cfg {
    let mut cfg = Cfg::default_cfg();
    cfg.receive_window = 4096;
    cfg.credit_threshold = 2048;
    cfg.max_chunk = 1000;
    cfg
}

/// Opens a channel from `a` to `b`; returns the two ports.
fn connect(a: &mut Multiplexer, b: &mut Multiplexer) -> (u32, u32) {
    let (pa, open) = a.open().unwrap();
    let (rp, w) = match b.handle(open).unwrap() {
        MuxEvent::Incoming { remote_port, window } => (remote_port, window),
        other => panic!("unexpected event {:?}", other),
    };
    assert_eq!(rp, pa);
    let (pb, confirm) = b.accept(rp, w).unwrap();
    assert_eq!(a.handle(confirm).unwrap(), MuxEvent::Connected { port: pa });
    (pa, pb)
}

/// Drains everything pending on `port` of `rx`, passing credit back to
/// `tx`; returns the bytes and whether a message ended.
fn drain(rx: &mut Multiplexer, port: u32, tx: &mut Multiplexer, out: &mut Vec<u8>) -> (bool, bool) {
    let mut ended = false;
    loop {
        let (item, grant) = rx.recv(port).unwrap();
        if let Some(g) = grant {
            tx.handle(g).unwrap();
        }
        match item {
            Pop::Chunk(bytes, last) => {
                out.extend_from_slice(&bytes);
                if last {
                    ended = true;
                }
            }
            Pop::Empty => return (ended, false),
            Pop::EndOfStream => return (ended, true),
        }
    }
}

/// Sends one message from `tx` to `rx` and returns what `rx` received.
fn transfer(tx: &mut Multiplexer, tp: u32, rx: &mut Multiplexer, rp: u32, data: &Vec<u8>) -> Vec<u8> {
    let max = tx.cfg().max_chunk as usize;
    let chunks = fragment(data, max);
    let n = chunks.len();
    let mut got = Vec::new();
    let mut ended = false;
    for (i, chunk) in chunks.into_iter().enumerate() {
        let mut pending = chunk;
        loop {
            match tx.send(tp, pending, i + 1 == n).unwrap() {
                SendStep::Sent(msg) => {
                    rx.handle(msg).unwrap();
                    break;
                }
                SendStep::Wait(back) => {
                    pending = back;
                    let (e, _) = drain(rx, rp, tx, &mut got);
                    ended |= e;
                }
            }
        }
    }
    while !ended {
        let (e, _) = drain(rx, rp, tx, &mut got);
        ended |= e;
    }
    got
}

fn i32_bytes(v: i32) -> Vec<u8> {
    v.to_le_bytes().to_vec()
}

fn bytes_i32(b: &[u8]) -> i32 {
    i32::from_le_bytes([b[0], b[1], b[2], b[3]])
}

#[test]
fn tcp_test() {
    let mut server = Multiplexer::new(Cfg::default_cfg());
    let mut client = Multiplexer::new(Cfg::default_cfg());
    let (pc, ps) = connect(&mut client, &mut server);
    let got = transfer(&mut server, ps, &mut client, pc, &b"Hi".to_vec());
    assert_eq!(got, b"Hi".to_vec());
}

#[test]
fn negation() {
    let mut a = Multiplexer::new(small_cfg());
    let mut b = Multiplexer::new(small_cfg());
    let (pa, pb) = connect(&mut a, &mut b);
    for i in 1..1024 {
        let req = transfer(&mut a, pa, &mut b, pb, &i32_bytes(i));
        let v = bytes_i32(&req);
        let reply = transfer(&mut b, pb, &mut a, pa, &i32_bytes(-v));
        let r = bytes_i32(&reply);
        assert_eq!(i, -r, "wrong reply");
    }
    let hangup = a.close_sender(pa).unwrap();
    b.handle(hangup).unwrap();
    let mut rest = Vec::new();
    let (_, eof) = drain(&mut b, pb, &mut a, &mut rest);
    assert!(eof);
    assert!(rest.is_empty());
}

#[test]
fn big_msg() {
    let mut a = Multiplexer::new(small_cfg());
    let mut b = Multiplexer::new(small_cfg());
    let (pa, pb) = connect(&mut a, &mut b);
    let mut seed: u64 = 0x2545F4914F6CDD1D;
    for _ in 1..10 {
        seed = seed.wrapping_mul(6364136223846793005).wrapping_add(1442695040888963407);
        let size = ((seed >> 33) % 1_000_000) as usize;
        let mut data: Vec<u8> = Vec::with_capacity(size);
        for _ in 0..size {
            seed = seed.wrapping_mul(6364136223846793005).wrapping_add(1442695040888963407);
            data.push((seed >> 56) as u8);
        }
        let got = transfer(&mut a, pa, &mut b, pb, &data);
        let mut reply = got.clone();
        reply.reverse();
        let mut data_recv = transfer(&mut b, pb, &mut a, pa, &reply);
        data_recv.reverse();
        assert_eq!(data, data_recv, "wrong reply");
    }
}

#[test]
fn close_notify() {
    let mut a = Multiplexer::new(small_cfg());
    let mut b = Multiplexer::new(small_cfg());
    let (pa, pb) = connect(&mut a, &mut b);
    assert!(!a.is_sender_closed(pa));
    let notice = b.close_receiver(pb).unwrap();
    assert!(!a.is_sender_closed(pa), "close notification before closure");
    a.handle(notice).unwrap();
    assert!(a.is_sender_closed(pa));
    match a.send(pa, vec![1], true) {
        Err(SendError::Closed) => {}
        _ => panic!("send succeeded after closure"),
    }
}

#[test]
fn dropped_sender_ends_stream() {
    let mut a = Multiplexer::new(small_cfg());
    let mut b = Multiplexer::new(small_cfg());
    let (pa, pb) = connect(&mut a, &mut b);
    match a.send(pa, vec![7, 8], true).unwrap() {
        SendStep::Sent(msg) => {
            b.handle(msg).unwrap();
        }
        SendStep::Wait(_) => panic!("credit was available"),
    }
    let hangup = a.close_sender(pa).unwrap();
    match &hangup {
        MultiplexMsg::Hangup { port } => assert_eq!(*port, pb),
        other => panic!("unexpected {:?}", other),
    }
    b.handle(hangup).unwrap();
    let mut got = Vec::new();
    let (ended, eof) = drain(&mut b, pb, &mut a, &mut got);
    assert!(ended && eof);
    assert_eq!(got, vec![7, 8]);
    // A second close finds nothing left to close.
    assert!(a.close_sender(pa).is_none());
}

#[test]
fn protocol_violation_ends_every_channel() {
    let mut a = Multiplexer::new(small_cfg());
    let mut b = Multiplexer::new(small_cfg());
    let (pa1, _) = connect(&mut a, &mut b);
    let (pa2, _) = connect(&mut a, &mut b);
    let bad = MultiplexMsg::Data { port: 900, payload: vec![1], last: true };
    assert_eq!(a.handle(bad), Err(chmux::MultiplexError::Protocol));
    assert_eq!(a.mux_status(), MuxStatus::Failed(chmux::MultiplexError::Protocol));
    for p in [pa1, pa2] {
        assert!(matches!(a.send(p, vec![1], true), Err(SendError::Failed(chmux::MultiplexError::Protocol))));
        assert!(matches!(a.recv(p), Err(chmux::ReceiveError::Failed(chmux::MultiplexError::Protocol))));
    }
    assert_eq!(a.open().err(), Some(chmux::ConnectError::Failed(chmux::MultiplexError::Protocol)));
}

#[test]
fn data_beyond_window_is_fatal() {
    let mut a = Multiplexer::new(small_cfg());
    let mut b = Multiplexer::new(small_cfg());
    let (_, pb) = connect(&mut a, &mut b);
    let too_much = MultiplexMsg::Data { port: pb, payload: vec![0; 4097], last: true };
    assert_eq!(b.handle(too_much), Err(chmux::MultiplexError::Protocol));
}

#[test]
fn send_waits_for_credit() {
    let mut a = Multiplexer::new(small_cfg());
    let mut b = Multiplexer::new(small_cfg());
    let (pa, pb) = connect(&mut a, &mut b);
    for _ in 0..4 {
        match a.send(pa, vec![0; 1024], false).unwrap() {
            SendStep::Sent(msg) => {
                b.handle(msg).unwrap();
            }
            SendStep::Wait(_) => panic!("within credit"),
        }
    }
    let back = match a.send(pa, vec![5; 10], true).unwrap() {
        SendStep::Wait(back) => back,
        SendStep::Sent(_) => panic!("credit was exhausted"),
    };
    assert_eq!(back, vec![5; 10]);
    // Two chunks consumed reach the threshold and return 2048 bytes of credit.
    let (_, g1) = b.recv(pb).unwrap();
    assert!(g1.is_none());
    let (_, g2) = b.recv(pb).unwrap();
    match g2 {
        Some(MultiplexMsg::CreditGrant { port, amount }) => {
            assert_eq!(port, pa);
            assert_eq!(amount, 2048);
            a.handle(MultiplexMsg::CreditGrant { port, amount }).unwrap();
        }
        other => panic!("expected a credit grant, got {:?}", other),
    }
    assert!(matches!(a.send(pa, back, true).unwrap(), SendStep::Sent(_)));
}

#[test]
fn rejected_open_frees_port() {
    let mut a = Multiplexer::new(small_cfg());
    let mut b = Multiplexer::new(small_cfg());
    let (pa, open) = a.open().unwrap();
    let rp = match b.handle(open).unwrap() {
        MuxEvent::Incoming { remote_port, .. } => remote_port,
        other => panic!("unexpected {:?}", other),
    };
    let refusal = b.reject(rp);
    assert_eq!(a.handle(refusal).unwrap(), MuxEvent::Refused { port: pa });
    let (again, _) = a.open().unwrap();
    assert_eq!(again, pa);
}

#[test]
fn goodbye_terminates() {
    let mut a = Multiplexer::new(small_cfg());
    let mut b = Multiplexer::new(small_cfg());
    let (pa, _) = connect(&mut a, &mut b);
    let bye = b.shutdown().unwrap();
    assert_eq!(a.handle(bye).unwrap(), MuxEvent::PeerGoodbye);
    let e = a.send(pa, vec![1], true).err().unwrap();
    assert_eq!(e, SendError::Terminated);
    assert!(chmux::term(Err::<(), SendError>(e)).is_none());
    a.transport_failed();
    assert_eq!(a.mux_status(), MuxStatus::Terminated);
}

#[test]
fn connect_timeout_holds_port_until_answer() {
    let mut a = Multiplexer::new(small_cfg());
    let mut b = Multiplexer::new(small_cfg());
    let (pa, open) = a.open().unwrap();
    assert_eq!(a.connect_timed_out(pa), Some(chmux::ConnectError::Timeout));
    assert_eq!(a.connect_timed_out(pa), None);
    // The port is not reused while the answer may still come.
    let (other, _) = a.open().unwrap();
    assert_ne!(other, pa);
    let rp = match b.handle(open).unwrap() {
        MuxEvent::Incoming { remote_port, window } => {
            let (pb, confirm) = b.accept(remote_port, window).unwrap();
            assert_eq!(
                a.handle(confirm).unwrap(),
                MuxEvent::LateConfirm { port: pa, remote_port: pb }
            );
            pb
        }
        ev => panic!("unexpected {:?}", ev),
    };
    assert!(matches!(a.send(pa, vec![1], true), Err(SendError::Closed)));
    b.handle(MultiplexMsg::ReceiverClosed { port: rp }).unwrap();
    b.handle(MultiplexMsg::Hangup { port: rp }).unwrap();
    // Data the peer sent before it learned of the close is discarded.
    a.handle(MultiplexMsg::Data { port: pa, payload: vec![3], last: true }).unwrap();
    let hangup = b.close_sender(rp).unwrap();
    a.handle(hangup).unwrap();
    // The peer's receiver is still open, so the port stays held.
    let (held, _) = a.open().unwrap();
    assert_ne!(held, pa);
    match b.recv(rp).unwrap() {
        (Pop::EndOfStream, Some(notice)) => {
            a.handle(notice).unwrap();
        }
        other => panic!("unexpected {:?}", other),
    }
    let (again, _) = a.open().unwrap();
    assert_eq!(again, pa);
}

#[test]
fn port_freed_after_both_sides_finish() {
    let mut a = Multiplexer::new(small_cfg());
    let mut b = Multiplexer::new(small_cfg());
    let (pa, pb) = connect(&mut a, &mut b);
    let ha = a.close_sender(pa).unwrap();
    let hb = b.close_sender(pb).unwrap();
    b.handle(ha).unwrap();
    a.handle(hb).unwrap();
    let (_, na) = a.recv(pa).unwrap();
    // a's receiver is done, but b may still grant credit until its own
    // receiver closes, so a's port stays held.
    b.handle(na.unwrap()).unwrap();
    let (next_a, _) = a.open().unwrap();
    assert_ne!(next_a, pa);
    let (item, nb) = b.recv(pb).unwrap();
    assert!(matches!(item, Pop::EndOfStream));
    a.handle(nb.unwrap()).unwrap();
    let (reused, _) = a.open().unwrap();
    assert_eq!(reused, pa);
}

#[test]
fn timed_out_open_refused_frees_port() {
    let mut a = Multiplexer::new(small_cfg());
    let (pa, _) = a.open().unwrap();
    assert_eq!(a.connect_timed_out(pa), Some(chmux::ConnectError::Timeout));
    assert_eq!(a.handle(MultiplexMsg::RejectChannel { port: pa }).unwrap(), MuxEvent::Refused { port: pa });
    let (again, _) = a.open().unwrap();
    assert_eq!(again, pa);
}

#[test]
fn fragment_payload_fits_chunks() {
    let a = Multiplexer::new(small_cfg());
    let data = vec![9u8; 2500];
    let chunks = a.fragment_payload(&data);
    assert_eq!(chunks.iter().map(|c| c.len()).collect::<Vec<_>>(), vec![1000, 1000, 500]);
}

#[test]
fn port_exhaustion() {
    let mut cfg = small_cfg();
    cfg.max_channels = 2;
    let mut a = Multiplexer::new(cfg);
    let (p0, _) = a.open().unwrap();
    let (p1, _) = a.open().unwrap();
    assert_ne!(p0, p1);
    assert_eq!(a.open().err(), Some(chmux::ConnectError::PortsExhausted));
}
