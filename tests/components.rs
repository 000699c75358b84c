use chmux::{
    fragment, reassemble, term, AllocError, Ciborium, ConnectError, MultiplexError, NumberAllocator, Pop,
    ReceiveBuffer, ReceiveError, Reassembler, SendError, SendLock, Termination, TimeoutTracker, WindowExceeded,
};

#[test]
fn allocator_unique_and_reused() {
    let mut a = NumberAllocator::new(3);
    let p0 = a.allocate().unwrap();
    let p1 = a.allocate().unwrap();
    let p2 = a.allocate().unwrap();
    assert_eq!((p0, p1, p2), (0, 1, 2));
    assert_eq!(a.allocate(), Err(AllocError::Exhausted));
    assert!(a.release(1));
    assert!(!a.release(1));
    assert!(!a.is_live(1));
    assert_eq!(a.allocate(), Ok(1));
    assert!(a.is_live(1));
    assert!(!a.release(7));
}

#[test]
fn allocator_zero_limit() {
    let mut a = NumberAllocator::new(0);
    assert_eq!(a.allocate(), Err(AllocError::Exhausted));
    assert_eq!(a.limit(), 0);
}

#[test]
fn send_lock_credit() {
    let mut s = SendLock::new(10);
    assert!(s.try_reserve(4));
    assert!(s.try_reserve(6));
    assert_eq!(s.available(), 0);
    assert!(!s.try_reserve(1));
    assert_eq!(s.grant(5), Ok(()));
    assert!(s.try_reserve(5));
    assert_eq!(s.grant(u64::MAX), Ok(()));
    assert_eq!(s.grant(1), Err(MultiplexError::Protocol));
    assert_eq!(s.available(), u64::MAX);
    s.close();
    assert!(s.is_closed());
    assert!(!s.try_reserve(0));
}

#[test]
fn receive_buffer_window_and_credit() {
    let mut b = ReceiveBuffer::new(10, 4);
    assert_eq!(b.push(vec![1, 2, 3], false), Ok(()));
    assert_eq!(b.push(vec![4, 5, 6, 7, 8], true), Ok(()));
    assert_eq!(b.buffered(), 8);
    assert_eq!(b.window_left(), 2);
    assert_eq!(b.push(vec![0, 0, 0], true), Err(WindowExceeded::WindowExceeded));
    match b.pop() {
        (Pop::Chunk(c, last), grant) => {
            assert_eq!(c, vec![1, 2, 3]);
            assert!(!last);
            assert_eq!(grant, 0);
        }
        other => panic!("unexpected {:?}", other),
    }
    match b.pop() {
        (Pop::Chunk(c, last), grant) => {
            assert_eq!(c, vec![4, 5, 6, 7, 8]);
            assert!(last);
            assert_eq!(grant, 8);
        }
        other => panic!("unexpected {:?}", other),
    }
    assert!(matches!(b.pop(), (Pop::Empty, 0)));
    b.set_eof();
    assert!(b.is_eof());
    assert!(b.is_empty());
    assert!(matches!(b.pop(), (Pop::EndOfStream, 0)));
}

#[test]
fn fragments_join_back() {
    let data: Vec<u8> = (0..25u8).collect();
    let chunks = fragment(&data, 10);
    assert_eq!(chunks.len(), 3);
    assert_eq!(chunks[0], (0..10u8).collect::<Vec<u8>>());
    assert_eq!(chunks[2], (20..25u8).collect::<Vec<u8>>());
    assert_eq!(reassemble(chunks), data);
}

#[test]
fn fragment_empty_payload() {
    let chunks = fragment(&Vec::new(), 4);
    assert_eq!(chunks, vec![Vec::<u8>::new()]);
    assert_eq!(reassemble(chunks), Vec::<u8>::new());
}

#[test]
fn reassembler_feeds() {
    let mut r = Reassembler::new();
    assert_eq!(r.feed(vec![1, 2], false), None);
    assert_eq!(r.feed(vec![3], true), Some(vec![1, 2, 3]));
    assert_eq!(r.feed(vec![9], true), Some(vec![9]));
}

#[test]
fn timeouts_fire_in_order() {
    let mut t = TimeoutTracker::new();
    let h1 = t.arm(1, 100, 50).unwrap();
    let h2 = t.arm(2, 100, 10).unwrap();
    let _h3 = t.arm(3, 100, u64::MAX).unwrap();
    assert_ne!(h1, h2);
    assert_eq!(t.expire(120), vec![2]);
    assert!(t.cancel(h1));
    assert!(!t.cancel(h1));
    assert_eq!(t.expire(1000), Vec::<u32>::new());
    assert_eq!(t.expire(u64::MAX), vec![3]);
}

#[test]
fn termination_predicates() {
    assert!(SendError::Closed.is_terminated());
    assert!(SendError::Closed.is_closed());
    assert!(SendError::Terminated.is_terminated());
    assert!(!SendError::Terminated.is_closed());
    assert!(!SendError::Failed(MultiplexError::Transport).is_terminated());
    assert!(ReceiveError::Terminated.is_terminated());
    assert!(!ReceiveError::Failed(MultiplexError::Protocol).is_terminated());
    assert!(ConnectError::Terminated.is_terminated());
    assert!(!ConnectError::Timeout.is_terminated());
    assert!(!MultiplexError::Protocol.is_terminated());
}

#[test]
fn term_passes_or_stops() {
    assert_eq!(term::<u8, SendError>(Ok(3)), Some(Ok(3)));
    assert_eq!(term::<u8, SendError>(Err(SendError::Closed)), None);
    let failed = Err(ReceiveError::Failed(MultiplexError::Transport));
    assert_eq!(term::<u8, ReceiveError>(failed), Some(failed));
}

#[test]
fn codec_marker() {
    let c = Ciborium;
    assert_eq!(c.clone(), Ciborium);
}
