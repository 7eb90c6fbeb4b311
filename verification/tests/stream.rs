use std::io;

use zmq_tokio::stream::{
    new_read_buffer, poll_io, poll_result, start_send_io, start_send_result, Async, AsyncSink,
    SocketFramed, Transfer, READ_BUFFER_SIZE,
};

#[test]
fn new_keeps_the_socket() {
    let framed = SocketFramed::new(7u32);
    assert_eq!(*framed.get_ref(), 7);
}

#[test]
fn get_mut_reaches_the_socket() {
    let mut framed = SocketFramed::new(vec![1u8]);
    framed.get_mut().push(2);
    assert_eq!(framed.get_ref(), &vec![1u8, 2]);
}

#[test]
fn poll_complete_is_always_ready() {
    let mut framed = SocketFramed::new(3u8);
    match framed.poll_complete() {
        Ok(Async::Ready(())) => {}
        _ => panic!("expected Ready"),
    }
    assert_eq!(*framed.get_ref(), 3);
}

#[test]
fn completed_write_is_ready() {
    let r = start_send_result::<u8>(b"hello".to_vec(), Transfer::Complete(5));
    assert_eq!(r, Ok(AsyncSink::Ready));
}

#[test]
fn partial_write_is_still_ready() {
    let r = start_send_result::<u8>(b"hello".to_vec(), Transfer::Complete(2));
    assert_eq!(r, Ok(AsyncSink::Ready));
    let r = start_send_result::<u8>(b"hello".to_vec(), Transfer::Complete(0));
    assert_eq!(r, Ok(AsyncSink::Ready));
}

#[test]
fn blocked_write_hands_the_item_back() {
    let r = start_send_result::<u8>(b"hello".to_vec(), Transfer::WouldBlock);
    assert_eq!(r, Ok(AsyncSink::NotReady(b"hello".to_vec())));
}

#[test]
fn refused_item_is_taken_on_retry() {
    let item = b"this message will be sent".to_vec();
    let back = match start_send_result::<u8>(item.clone(), Transfer::WouldBlock) {
        Ok(AsyncSink::NotReady(back)) => back,
        other => panic!("unexpected {:?}", other),
    };
    assert_eq!(back, item);
    assert_eq!(start_send_result::<u8>(back, Transfer::Complete(25)), Ok(AsyncSink::Ready));
}

#[test]
fn failed_write_passes_the_error_on() {
    let r = start_send_result(b"x".to_vec(), Transfer::Failed(42u8));
    assert_eq!(r, Err(42));
}

#[test]
fn poll_yields_the_bytes_read() {
    let r = poll_result::<u8>(b"hello there".to_vec(), Transfer::Complete(5));
    assert_eq!(r, Ok(Async::Ready(Some(b"hello".to_vec()))));
}

#[test]
fn poll_of_whole_buffer() {
    let r = poll_result::<u8>(b"abc".to_vec(), Transfer::Complete(3));
    assert_eq!(r, Ok(Async::Ready(Some(b"abc".to_vec()))));
}

#[test]
fn poll_of_empty_read_is_empty_frame_not_end() {
    let r = poll_result::<u8>(b"abc".to_vec(), Transfer::Complete(0));
    assert_eq!(r, Ok(Async::Ready(Some(Vec::new()))));
}

#[test]
fn poll_blocked_is_not_ready() {
    let r = poll_result::<u8>(b"abc".to_vec(), Transfer::WouldBlock);
    assert_eq!(r, Ok(Async::NotReady));
}

#[test]
fn poll_failed_passes_the_error_on() {
    let r = poll_result(b"abc".to_vec(), Transfer::Failed(9u8));
    assert_eq!(r, Err(9));
}

#[test]
fn read_buffer_has_the_fixed_size() {
    let buf = new_read_buffer();
    assert_eq!(buf.len(), READ_BUFFER_SIZE);
    assert_eq!(READ_BUFFER_SIZE, 1024);
    assert!(buf.iter().all(|b| *b == 0));
}

#[test]
fn frame_from_full_read_buffer() {
    let mut buf = new_read_buffer();
    buf[0] = b'h';
    buf[1023] = b'z';
    let r = poll_result::<u8>(buf, Transfer::Complete(1024));
    match r {
        Ok(Async::Ready(Some(frame))) => {
            assert_eq!(frame.len(), 1024);
            assert_eq!(frame[0], b'h');
            assert_eq!(frame[1023], b'z');
        }
        other => panic!("unexpected {:?}", other),
    }
}

#[test]
fn io_write_ok_is_ready() {
    let r = start_send_io(b"hello".to_vec(), Ok(5));
    assert!(matches!(r, Ok(AsyncSink::Ready)));
}

#[test]
fn io_write_would_block_hands_item_back() {
    let e = io::Error::new(io::ErrorKind::WouldBlock, "busy");
    let r = start_send_io(b"hello".to_vec(), Err(e));
    match r {
        Ok(AsyncSink::NotReady(item)) => assert_eq!(item, b"hello".to_vec()),
        other => panic!("unexpected {:?}", other),
    }
}

#[test]
fn io_write_other_error_is_passed_on() {
    let e = io::Error::new(io::ErrorKind::BrokenPipe, "gone");
    let r = start_send_io(b"hello".to_vec(), Err(e));
    match r {
        Err(e) => assert_eq!(e.kind(), io::ErrorKind::BrokenPipe),
        other => panic!("unexpected {:?}", other),
    }
}

#[test]
fn io_read_ok_yields_frame() {
    let r = poll_io(b"hello there".to_vec(), Ok(11));
    match r {
        Ok(Async::Ready(Some(frame))) => assert_eq!(frame, b"hello there".to_vec()),
        other => panic!("unexpected {:?}", other),
    }
}

#[test]
fn io_read_would_block_is_not_ready() {
    let e = io::Error::new(io::ErrorKind::WouldBlock, "empty");
    let r = poll_io(b"abc".to_vec(), Err(e));
    assert!(matches!(r, Ok(Async::NotReady)));
}

#[test]
fn io_read_other_error_is_passed_on() {
    let e = io::Error::new(io::ErrorKind::ConnectionReset, "reset");
    let r = poll_io(b"abc".to_vec(), Err(e));
    match r {
        Err(e) => assert_eq!(e.kind(), io::ErrorKind::ConnectionReset),
        other => panic!("unexpected {:?}", other),
    }
}
