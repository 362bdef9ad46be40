use tunlib::connection::TcpConnection;
use tunlib::connection::SINGLE_CONNECTION_BUFFER_SIZE;
use tunlib::outcome::ConnState;
use tunlib::outcome::ReadOutcome;
use tunlib::outcome::RecvOutcome;
use tunlib::status::ErrorKind;
use tunlib::status::ERR_ABRT;
use tunlib::status::ERR_MEM;
use tunlib::status::ERR_OK;
use tunlib::status::TCP_ESTABLISHED;

fn pattern(len: usize, seed: u8) -> Vec<u8> {
    let mut bytes = Vec::with_capacity(len);
    let mut i = 0usize;
    while i < len {
        bytes.push(((i * 31 + seed as usize) % 251) as u8);
        i += 1;
    }
    bytes
}

#[test]
fn new_connection_is_open_and_empty() {
    let conn: TcpConnection<u32, u8> = TcpConnection::new(17, TCP_ESTABLISHED);
    assert_eq!(*conn.pcb(), 17);
    assert_eq!(conn.state(), ConnState::Open);
    assert_eq!(conn.capacity(), 65536);
    assert_eq!(SINGLE_CONNECTION_BUFFER_SIZE, 65536);
    assert_eq!(conn.buffered(), 0);
}

#[test]
fn eight_deliveries_are_read_at_once_in_order() {
    let mut conn: TcpConnection<u32, u8> = TcpConnection::new(1, TCP_ESTABLISHED);
    let mut expected: Vec<u8> = Vec::new();
    let mut i = 0u8;
    while i < 8 {
        let chunk = pattern(1024, i);
        let outcome = conn.on_recv(ERR_OK, Some(&chunk));
        assert_eq!(outcome, RecvOutcome::Accepted { acked: 1024, wake: None });
        expected.extend_from_slice(&chunk);
        i += 1;
    }
    assert_eq!(conn.buffered(), 8192);
    match conn.poll_read(3, 16 * 1024) {
        ReadOutcome::Ready { data, rewake } => {
            assert_eq!(data.len(), 8192);
            assert_eq!(data, expected);
            assert!(!rewake);
        }
        other => panic!("read came to {:?}", other),
    }
    assert_eq!(conn.buffered(), 0);
}

#[test]
fn end_of_stream_with_empty_buffer_reads_zero_bytes() {
    let mut conn: TcpConnection<u32, u8> = TcpConnection::new(1, TCP_ESTABLISHED);
    let outcome = conn.on_recv(ERR_OK, None);
    assert_eq!(outcome, RecvOutcome::EndOfStream);
    assert_eq!(outcome.status(), ERR_OK);
    assert_eq!(outcome.acked(), Some(0));
    assert!(!outcome.releases_buffer());
    assert_eq!(conn.state(), ConnState::HalfClosedRemote);
    assert_eq!(conn.poll_read(3, 4096), ReadOutcome::Ready { data: vec![], rewake: false });
    assert_eq!(conn.poll_read(3, 4096), ReadOutcome::Ready { data: vec![], rewake: false });
}

#[test]
fn read_with_nothing_buffered_is_pending() {
    let mut conn: TcpConnection<u32, u8> = TcpConnection::new(1, TCP_ESTABLISHED);
    assert_eq!(conn.poll_read(3, 4096), ReadOutcome::Pending);
    assert_eq!(conn.poll_read(3, 0), ReadOutcome::Pending);
}

#[test]
fn accepted_data_wakes_the_registered_reader_once() {
    let mut conn: TcpConnection<u32, u8> = TcpConnection::new(1, TCP_ESTABLISHED);
    assert_eq!(conn.poll_read(41, 16), ReadOutcome::Pending);
    assert_eq!(conn.poll_read(42, 16), ReadOutcome::Pending);
    let first = conn.on_recv(ERR_OK, Some(&[1, 2, 3]));
    assert_eq!(first, RecvOutcome::Accepted { acked: 3, wake: Some(42) });
    assert_eq!(first.status(), ERR_OK);
    assert_eq!(first.acked(), Some(3));
    assert!(first.releases_buffer());
    let second = conn.on_recv(ERR_OK, Some(&[4]));
    assert_eq!(second, RecvOutcome::Accepted { acked: 1, wake: None });
    assert_eq!(conn.poll_read(43, 16), ReadOutcome::Ready { data: vec![1, 2, 3, 4], rewake: false });
}

#[test]
fn end_of_stream_does_not_wake_the_reader() {
    let mut conn: TcpConnection<u32, u8> = TcpConnection::new(1, TCP_ESTABLISHED);
    assert_eq!(conn.poll_read(41, 16), ReadOutcome::Pending);
    assert_eq!(conn.on_recv(ERR_OK, None), RecvOutcome::EndOfStream);
    let later = conn.on_recv(ERR_OK, Some(&[9]));
    assert_eq!(later, RecvOutcome::Accepted { acked: 1, wake: Some(41) });
}

#[test]
fn small_buffer_gets_a_part_and_is_woken_again() {
    let mut conn: TcpConnection<u32, u8> = TcpConnection::new(1, TCP_ESTABLISHED);
    conn.on_recv(ERR_OK, Some(&[10, 11, 12, 13, 14]));
    assert_eq!(conn.poll_read(1, 2), ReadOutcome::Ready { data: vec![10, 11], rewake: true });
    assert_eq!(conn.buffered(), 3);
    assert_eq!(conn.poll_read(1, 2), ReadOutcome::Ready { data: vec![12, 13], rewake: true });
    assert_eq!(conn.poll_read(1, 2), ReadOutcome::Ready { data: vec![14], rewake: false });
    assert_eq!(conn.poll_read(1, 2), ReadOutcome::Pending);
}

#[test]
fn exact_fit_is_not_woken_again() {
    let mut conn: TcpConnection<u32, u8> = TcpConnection::new(1, TCP_ESTABLISHED);
    conn.on_recv(ERR_OK, Some(&[1, 2, 3]));
    assert_eq!(conn.poll_read(1, 3), ReadOutcome::Ready { data: vec![1, 2, 3], rewake: false });
}

#[test]
fn read_without_room_takes_nothing_and_is_woken_again() {
    let mut conn: TcpConnection<u32, u8> = TcpConnection::new(1, TCP_ESTABLISHED);
    conn.on_recv(ERR_OK, Some(&[1, 2, 3]));
    assert_eq!(conn.poll_read(1, 0), ReadOutcome::Ready { data: vec![], rewake: true });
    assert_eq!(conn.buffered(), 3);
}

#[test]
fn data_before_end_of_stream_is_read_first_and_wakes_again() {
    let mut conn: TcpConnection<u32, u8> = TcpConnection::new(1, TCP_ESTABLISHED);
    conn.on_recv(ERR_OK, Some(&[7, 8]));
    conn.on_recv(ERR_OK, None);
    assert_eq!(conn.poll_read(1, 64), ReadOutcome::Ready { data: vec![7, 8], rewake: true });
    assert_eq!(conn.poll_read(1, 64), ReadOutcome::Ready { data: vec![], rewake: false });
}

#[test]
fn reads_return_the_stream_in_order_over_interleaved_deliveries() {
    let mut conn: TcpConnection<u32, u8> = TcpConnection::with_capacity(1, TCP_ESTABLISHED, 4096);
    let mut sent: Vec<u8> = Vec::new();
    let mut got: Vec<u8> = Vec::new();
    let mut round = 0usize;
    while round < 40 {
        let chunk = pattern(100 + round * 7, round as u8);
        let outcome = conn.on_recv(ERR_OK, Some(&chunk));
        if outcome.releases_buffer() {
            sent.extend_from_slice(&chunk);
        } else {
            assert_eq!(outcome, RecvOutcome::Rejected);
        }
        if round % 3 != 0 {
            if let ReadOutcome::Ready { data, .. } = conn.poll_read(0, 64 + round * 11) {
                assert!(data.len() <= 64 + round * 11);
                got.extend_from_slice(&data);
            }
        }
        assert!(conn.buffered() <= conn.capacity());
        round += 1;
    }
    conn.on_recv(ERR_OK, None);
    loop {
        match conn.poll_read(0, 333) {
            ReadOutcome::Ready { data, .. } => {
                if data.is_empty() {
                    break;
                }
                got.extend_from_slice(&data);
            }
            other => panic!("read came to {:?}", other),
        }
    }
    assert_eq!(got, sent);
}

#[test]
fn full_buffer_rejects_and_keeps_what_it_has() {
    let mut conn: TcpConnection<u32, u8> = TcpConnection::with_capacity(1, TCP_ESTABLISHED, 4);
    assert_eq!(conn.poll_read(5, 8), ReadOutcome::Pending);
    assert_eq!(conn.on_recv(ERR_OK, Some(&[1, 2, 3])), RecvOutcome::Accepted { acked: 3, wake: Some(5) });
    assert_eq!(conn.poll_read(6, 0), ReadOutcome::Ready { data: vec![], rewake: true });
    let rejected = conn.on_recv(ERR_OK, Some(&[4, 5]));
    assert_eq!(rejected, RecvOutcome::Rejected);
    assert_eq!(rejected.status(), ERR_MEM);
    assert_eq!(rejected.acked(), None);
    assert!(!rejected.releases_buffer());
    assert_eq!(conn.buffered(), 3);
    assert_eq!(conn.on_recv(ERR_OK, Some(&[4])), RecvOutcome::Accepted { acked: 1, wake: Some(6) });
    assert_eq!(conn.buffered(), 4);
    assert_eq!(conn.on_recv(ERR_OK, Some(&[5])), RecvOutcome::Rejected);
    assert_eq!(conn.on_recv(ERR_OK, Some(&[])), RecvOutcome::Accepted { acked: 0, wake: None });
    assert_eq!(conn.poll_read(7, 8), ReadOutcome::Ready { data: vec![1, 2, 3, 4], rewake: false });
    assert_eq!(conn.on_recv(ERR_OK, Some(&[4, 5])), RecvOutcome::Accepted { acked: 2, wake: Some(7) });
}

#[test]
fn default_capacity_takes_exactly_its_size() {
    let mut conn: TcpConnection<u32, u8> = TcpConnection::new(1, TCP_ESTABLISHED);
    let chunk = pattern(65535, 3);
    assert_eq!(conn.on_recv(ERR_OK, Some(&chunk)), RecvOutcome::Accepted { acked: 65535, wake: None });
    assert_eq!(conn.on_recv(ERR_OK, Some(&[1, 2])), RecvOutcome::Rejected);
    assert_eq!(conn.on_recv(ERR_OK, Some(&[1])), RecvOutcome::Accepted { acked: 1, wake: None });
    assert_eq!(conn.buffered(), 65536);
    assert_eq!(conn.on_recv(ERR_OK, Some(&[1])), RecvOutcome::Rejected);
}

#[test]
fn delivery_with_an_engine_error_changes_nothing() {
    let mut conn: TcpConnection<u32, u8> = TcpConnection::new(1, TCP_ESTABLISHED);
    assert_eq!(conn.poll_read(5, 8), ReadOutcome::Pending);
    let outcome = conn.on_recv(ERR_ABRT, Some(&[1, 2, 3]));
    assert_eq!(outcome, RecvOutcome::Failed { status: ERR_ABRT });
    assert_eq!(outcome.status(), ERR_ABRT);
    assert_eq!(outcome.acked(), None);
    assert!(!outcome.releases_buffer());
    assert_eq!(conn.buffered(), 0);
    assert_eq!(conn.on_recv(ERR_ABRT, None), RecvOutcome::Failed { status: ERR_ABRT });
    assert_eq!(conn.state(), ConnState::Open);
    assert_eq!(conn.poll_read(5, 8), ReadOutcome::Pending);
}

#[test]
fn read_after_reset_drains_then_fails() {
    let mut conn: TcpConnection<u32, u8> = TcpConnection::new(1, TCP_ESTABLISHED);
    conn.on_recv(ERR_OK, Some(&[1, 2]));
    conn.on_error();
    assert_eq!(conn.state(), ConnState::Reset);
    assert_eq!(conn.poll_read(1, 8), ReadOutcome::Ready { data: vec![1, 2], rewake: false });
    assert_eq!(conn.poll_read(1, 8), ReadOutcome::Failed(ErrorKind::ConnectionReset));
    assert_eq!(conn.poll_read(1, 8), ReadOutcome::Failed(ErrorKind::ConnectionReset));
}

#[test]
fn end_of_stream_is_clean_even_after_reset() {
    let mut conn: TcpConnection<u32, u8> = TcpConnection::new(1, TCP_ESTABLISHED);
    conn.on_recv(ERR_OK, None);
    conn.on_error();
    assert_eq!(conn.poll_read(1, 8), ReadOutcome::Ready { data: vec![], rewake: false });
}
