use coap_dtls::{
    Cause, Connecting, DtlsConfig, DtlsConnection, Error, ErrorKind, Handshake, Handshaking,
    SocketAddr, SocketAddrV4, SocketAddrV6, HANDSHAKE_TIMEOUT_SECS,
};

const LOCALHOST: SocketAddr = SocketAddr::V4(SocketAddrV4 { octets: [127, 0, 0, 1], port: 5684 });

fn connecting(dest_addr: SocketAddr) -> Connecting<&'static str, u32, u64> {
    let binding = DtlsConnection::<u32>::try_new(DtlsConfig { config: "psk", dest_addr });
    binding.bound::<u64, String>(Ok(7)).unwrap_or_else(|_| panic!("not bound"))
}

fn handshaking(
    dest_addr: SocketAddr,
) -> (Handshake<&'static str, u64, u8>, Handshaking<u32>) {
    connecting(dest_addr).connected::<String, u8>(Ok(())).unwrap_or_else(|_| panic!("not connected"))
}

fn connection(dest_addr: SocketAddr) -> DtlsConnection<u32> {
    let (_, handshaking) = handshaking(dest_addr);
    handshaking.finished::<String, ()>(Ok(Ok(42))).unwrap_or_else(|_| panic!("no handshake"))
}

#[test]
fn socket_is_bound_to_any_v4_address() {
    let binding = DtlsConnection::<u32>::try_new(DtlsConfig { config: (), dest_addr: LOCALHOST });
    assert_eq!(
        binding.local_addr(),
        SocketAddr::V4(SocketAddrV4 { octets: [0, 0, 0, 0], port: 0 })
    );
}

#[test]
fn bind_failure_is_wrapped() {
    let binding = DtlsConnection::<u32>::try_new(DtlsConfig { config: (), dest_addr: LOCALHOST });
    let error = binding.bound::<u64, &str>(Err("no socket")).err().unwrap();
    assert_eq!(error, Error { kind: ErrorKind::Other, cause: Cause::Source("no socket") });
}

#[test]
fn socket_is_connected_to_the_destination() {
    let connecting = connecting(LOCALHOST);
    assert_eq!(**connecting.socket(), 7);
    assert_eq!(connecting.dest_addr(), LOCALHOST);
}

#[test]
fn connect_failure_is_address_in_use() {
    let error = connecting(LOCALHOST).connected::<&str, u8>(Err("unreachable")).err().unwrap();
    assert_eq!(
        error,
        Error { kind: ErrorKind::AddrNotAvailable, cause: Cause::Message("address is in use") }
    );
}

#[test]
fn handshake_is_made_as_a_client() {
    let (handshake, _) = handshaking(LOCALHOST);
    assert_eq!(*handshake.socket, 7);
    assert_eq!(handshake.config, "psk");
    assert!(handshake.is_client);
    assert_eq!(handshake.initial_state, None);
    assert_eq!(handshake.timeout_secs, 30);
    assert_eq!(HANDSHAKE_TIMEOUT_SECS, 30);
}

#[test]
fn handshake_without_answer_times_out() {
    let (_, handshaking) = handshaking(LOCALHOST);
    let error = handshaking.finished::<String, ()>(Err(())).err().unwrap();
    assert_eq!(
        error,
        Error {
            kind: ErrorKind::TimedOut,
            cause: Cause::Message("Received no response on DTLS handshake"),
        }
    );
}

#[test]
fn handshake_failure_is_wrapped() {
    let (_, handshaking) = handshaking(LOCALHOST);
    let error = handshaking.finished::<&str, ()>(Ok(Err("bad psk"))).err().unwrap();
    assert_eq!(error, Error { kind: ErrorKind::Other, cause: Cause::Source("bad psk") });
}

#[test]
fn connection_has_the_destination_as_peer() {
    let dest_addr = SocketAddr::V6(SocketAddrV6 {
        octets: [0, 0, 0, 0, 0, 0, 0, 0, 0, 0, 0, 0, 0, 0, 0, 1],
        port: 5684,
        flowinfo: 3,
        scope_id: 9,
    });
    let connection = connection(dest_addr);
    assert_eq!(connection.conn, 42);
    assert_eq!(connection.peer_addr, dest_addr);
}

#[test]
fn everything_received_comes_from_the_peer() {
    let connection = connection(LOCALHOST);
    assert_eq!(connection.received::<String>(Ok(5)), Ok((5, LOCALHOST)));
    assert_eq!(connection.received::<String>(Ok(0)), Ok((0, LOCALHOST)));
}

#[test]
fn read_failure_is_wrapped() {
    assert_eq!(
        connection(LOCALHOST).received(Err("closed")),
        Err(Error { kind: ErrorKind::Other, cause: Cause::Source("closed") })
    );
}

#[test]
fn write_reports_the_number_of_bytes() {
    assert_eq!(connection(LOCALHOST).sent::<String>(Ok(11)), Ok(11));
}

#[test]
fn write_failure_is_wrapped() {
    assert_eq!(
        connection(LOCALHOST).sent(Err("closed")),
        Err(Error { kind: ErrorKind::Other, cause: Cause::Source("closed") })
    );
}

#[test]
fn read_fills_the_whole_buffer_without_time_limit() {
    let connection = connection(LOCALHOST);
    let mut buf = [1u8, 2, 3];
    let job = connection.read(&mut buf);
    assert_eq!(*job.conn, 42);
    assert_eq!(job.buffer, &[1u8, 2, 3][..]);
    assert_eq!(job.timeout, None);
    job.buffer[1] = 9;
    assert_eq!(buf, [1, 9, 3]);
}

#[test]
fn write_sends_the_whole_buffer_without_time_limit() {
    let connection = connection(LOCALHOST);
    let job = connection.write(b"hello");
    assert_eq!(*job.conn, 42);
    assert_eq!(job.bytes, b"hello");
    assert_eq!(job.timeout, None);
}
