use pollnet::{
    Endpoint, InputOutput, IoError, IoErrorKind, LinkStatus, SetupError, SimClock, SimStack,
    StackError, acquire_and_connect, bring_up,
};

/// Brings a scripted stack all the way up and wraps it in the adapter, the
/// way the program would: watchdogs off, radio started, IP observed, one
/// socket taken and connected.
fn adapter_over(stack: SimStack, budget: u32) -> InputOutput<SimStack, SimClock> {
    let mut stack = stack;
    let mut clock = SimClock::new(0, 10);
    bring_up(&mut stack, &mut clock, &b"ssid".to_vec(), &b"secret".to_vec(), 64).unwrap();
    let remote = Endpoint { addr: 0x170F_B2A2, port: 443 };
    let sock = acquire_and_connect(&mut stack, remote, 41_000).unwrap();
    InputOutput::new(stack, clock, sock, budget)
}

fn up_script() -> Vec<LinkStatus> {
    vec![LinkStatus::Idle, LinkStatus::Started, LinkStatus::IpAssigned(0x170F_B2A2)]
}

#[test]
fn end_to_end_two_chunks_then_close() {
    // The response arrives in two segments; the peer closes afterwards. The
    // socket reports may-receive only after three of the adapter's polls:
    // bring-up spends one working poll, the read loop the next three.
    let payload = b"HTTP/1.0 200 OK\r\n\r\nhello".to_vec();
    let stack = SimStack::new(
        up_script(),
        3,        // socket pool
        8,        // backlog of work units
        0,        // no poll errors
        4,        // working polls before may-receive (one is spent in bring-up)
        0,        // may-send at once
        payload,
        vec![19, 5],
        false,    // peer closes after the payload
        true,
        64,
    );
    let mut io = adapter_over(stack, 16);
    let mut buf = vec![0u8; 512];

    let n = io.read(&mut buf).unwrap();
    assert_eq!(&buf[..n], b"HTTP/1.0 200 OK\r\n\r\n");

    let n2 = io.read(&mut buf).unwrap();
    assert_eq!(&buf[..n2], b"hello");

    // after the peer closed, a further read reports the transport error
    // rather than hanging
    match io.read(&mut buf) {
        Err(IoError::Other(StackError::Illegal)) => {}
        other => panic!("expected the close to surface as an error, got {:?}", other),
    }
}

#[test]
fn read_never_returns_zero_for_nonempty_buffer() {
    // readable at once, data present: exactly the data comes back
    let stack = SimStack::new(
        up_script(), 3, 2, 0, 0, 0, vec![0xAB, 0xCD], vec![], true, true, 8,
    );
    let mut io = adapter_over(stack, 8);
    let mut buf = vec![0u8; 1];
    let n = io.read(&mut buf).unwrap();
    assert_eq!(n, 1);
    assert_eq!(buf[0], 0xAB);
    let n2 = io.read(&mut buf).unwrap();
    assert_eq!(n2, 1);
    assert_eq!(buf[0], 0xCD);
}

#[test]
fn read_zero_length_buffer_returns_zero() {
    let stack = SimStack::new(up_script(), 3, 1, 0, 0, 0, vec![1, 2], vec![], true, true, 8);
    let mut io = adapter_over(stack, 8);
    let mut buf: Vec<u8> = Vec::new();
    assert_eq!(io.read(&mut buf).unwrap(), 0);
}

#[test]
fn read_times_out_instead_of_spinning_forever() {
    // readable, open, but no data ever arrives: the zero-byte receives spin
    // until the poll budget is gone
    let stack = SimStack::new(up_script(), 3, 1, 0, 0, 0, vec![], vec![], true, true, 8);
    let mut io = adapter_over(stack, 4);
    let mut buf = vec![0u8; 16];
    match io.read(&mut buf) {
        Err(IoError::TimedOut) => {}
        other => panic!("expected a timeout, got {:?}", other),
    }
}

#[test]
fn partial_write_returns_the_free_room() {
    // send buffer has room for 5 of the 10 bytes: exactly 5 are accepted and
    // the call does not block for the remainder
    let stack = SimStack::new(up_script(), 3, 1, 0, 0, 0, vec![], vec![], true, true, 5);
    let mut io = adapter_over(stack, 8);
    let buf = b"0123456789".to_vec();
    let n = io.write(&buf).unwrap();
    assert_eq!(n, 5);
    assert_eq!(io.stack.sent().as_slice(), b"01234");
    assert_eq!(io.stack.room_left(), 0);
}

#[test]
fn full_write_when_room_suffices() {
    let stack = SimStack::new(up_script(), 3, 1, 0, 0, 0, vec![], vec![], true, true, 64);
    let mut io = adapter_over(stack, 8);
    let buf = b"GET / HTTP/1.0\r\n\r\n".to_vec();
    let n = io.write(&buf).unwrap();
    assert_eq!(n, buf.len());
    assert_eq!(io.stack.sent().as_slice(), buf.as_slice());
}

#[test]
fn write_on_closed_socket_reports_the_error() {
    let stack = SimStack::new(up_script(), 3, 1, 0, 0, 0, vec![], vec![], true, false, 64);
    let mut io = adapter_over(stack, 8);
    match io.write(&b"x".to_vec()) {
        Err(IoError::Other(StackError::Illegal)) => {}
        other => panic!("expected the closed socket to surface, got {:?}", other),
    }
    assert_eq!(io.stack.sent().len(), 0);
}

#[test]
fn write_waits_for_readiness_then_times_out() {
    // may-send never reported within the budget
    let stack = SimStack::new(up_script(), 3, 2, 0, 0, 100, vec![], vec![], true, true, 64);
    let mut io = adapter_over(stack, 4);
    match io.write(&b"x".to_vec()) {
        Err(IoError::TimedOut) => {}
        other => panic!("expected a timeout, got {:?}", other),
    }
}

#[test]
fn flush_with_no_pending_work_is_a_no_op() {
    let stack = SimStack::new(up_script(), 3, 1, 0, 0, 0, vec![5, 6], vec![], true, true, 7);
    let mut io = adapter_over(stack, 8);
    // bring-up consumed the one scripted work unit: nothing is pending
    assert!(!io.stack.has_pending());
    let before_unread = io.stack.unread();
    let before_room = io.stack.room_left();
    let before_sent = io.stack.sent().len();
    assert!(io.flush().is_ok());
    assert!(!io.stack.has_pending());
    assert_eq!(io.stack.unread(), before_unread);
    assert_eq!(io.stack.room_left(), before_room);
    assert_eq!(io.stack.sent().len(), before_sent);
}

#[test]
fn flush_drains_pending_work() {
    let stack = SimStack::new(up_script(), 3, 6, 0, 0, 0, vec![], vec![], true, true, 7);
    let mut io = adapter_over(stack, 16);
    assert!(io.stack.has_pending());
    assert!(io.flush().is_ok());
    assert!(!io.stack.has_pending());
}

#[test]
fn error_kinds() {
    assert_eq!(IoError::TimedOut.kind(), IoErrorKind::TimedOut);
    assert_eq!(IoError::Other(StackError::Illegal).kind(), IoErrorKind::Other);
}

#[test]
fn setup_errors_are_distinct() {
    assert_ne!(SetupError::BadConfig, SetupError::TimedOut);
    assert_ne!(SetupError::PoolEmpty, SetupError::BadEndpoint);
}

#[test]
fn request_and_response_round() {
    // the program's own flow: send the request, flush, then read the reply
    let reply = b"HTTP/1.0 200 OK\r\n\r\nbye".to_vec();
    let stack = SimStack::new(up_script(), 3, 4, 0, 0, 0, reply.clone(), vec![], false, true, 128);
    let mut io = adapter_over(stack, 16);

    let request = b"GET / HTTP/1.0\r\n\r\n".to_vec();
    assert_eq!(io.write(&request).unwrap(), request.len());
    // the accepted bytes are queued outbound work until a flush drains them
    assert!(io.stack.has_pending());
    assert!(io.flush().is_ok());
    assert!(!io.stack.has_pending());
    assert_eq!(io.stack.sent().as_slice(), request.as_slice());

    let mut buf = vec![0u8; 512];
    let n = io.read(&mut buf).unwrap();
    assert_eq!(&buf[..n], reply.as_slice());

    match io.read(&mut buf) {
        Err(IoError::Other(StackError::Illegal)) => {}
        other => panic!("expected the close to surface as an error, got {:?}", other),
    }
}
