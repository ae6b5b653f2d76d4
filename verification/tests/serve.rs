use coap_dtls::{
    accepted, spawn_webrtc_conn, Cause, ConnStep, DtlsResponse, Error, ErrorKind, Forwarding,
    Receiving, SocketAddr, SocketAddrV4, VECTOR_LENGTH,
};
use std::sync::Arc;

const PEER: SocketAddr = SocketAddr::V4(SocketAddrV4 { octets: [127, 0, 0, 1], port: 40000 });

fn forward(
    mut receiving: Receiving<str>,
    request: &[u8],
) -> (Vec<u8>, Arc<DtlsResponse<str>>, Forwarding<str>) {
    receiving.buffer()[..request.len()].copy_from_slice(request);
    match receiving.received::<()>(Ok(request.len())) {
        ConnStep::Forward(request, response, forwarding) => (request, response, forwarding),
        _ => panic!("not forwarded"),
    }
}

fn session() -> Receiving<str> {
    spawn_webrtc_conn(Arc::from("conn"), PEER)
}

#[test]
fn session_receives_into_a_blank_buffer() {
    let mut receiving = session();
    assert_eq!(&**receiving.conn(), "conn");
    assert_eq!(VECTOR_LENGTH, 1600);
    assert_eq!(receiving.buffer(), &[0u8; 1600][..]);
}

#[test]
fn received_part_of_the_buffer_is_handed_on() {
    let (request, _, _) = forward(session(), b"hello");
    assert_eq!(request, b"hello".to_vec());
}

#[test]
fn largest_request_is_handed_on() {
    let (request, _, _) = forward(session(), &[0xab; 1600]);
    assert_eq!(request, vec![0xab; 1600]);
}

#[test]
fn smallest_request_is_handed_on() {
    let (request, _, _) = forward(session(), &[9]);
    assert_eq!(request, vec![9]);
}

#[test]
fn receive_of_nothing_ends_the_session() {
    assert!(matches!(session().received::<()>(Ok(0)), ConnStep::Stop));
}

#[test]
fn receive_beyond_the_buffer_ends_the_session() {
    assert!(matches!(session().received::<()>(Ok(1601)), ConnStep::Stop));
    assert!(matches!(session().received::<()>(Ok(usize::MAX)), ConnStep::Stop));
}

#[test]
fn failed_receive_ends_the_session() {
    assert!(matches!(session().received(Err("closed")), ConnStep::Stop));
}

#[test]
fn session_goes_on_after_handing_on() {
    let (_, _, forwarding) = forward(session(), b"first");
    let mut receiving = match forwarding.forwarded::<()>(Ok(())) {
        ConnStep::Recv(receiving) => receiving,
        _ => panic!("session ended"),
    };
    assert_eq!(&**receiving.conn(), "conn");
    assert_eq!(receiving.buffer(), &[0u8; 1600][..]);
    let (request, response, _) = forward(receiving, b"second");
    assert_eq!(request, b"second".to_vec());
    assert_eq!(response.address(), PEER);
}

#[test]
fn session_ends_where_nobody_takes_the_request() {
    let (_, _, forwarding) = forward(session(), b"hello");
    assert!(matches!(forwarding.forwarded(Err("no handler")), ConnStep::Stop));
}

#[test]
fn reply_goes_back_to_the_sender() {
    let (_, response, _) = forward(session(), b"hello");
    assert_eq!(response.address(), PEER);
    let (conn, bytes) = response.reply(b"world".to_vec());
    assert!(Arc::ptr_eq(&conn, &response.conn));
    assert_eq!(&*conn, "conn");
    assert_eq!(bytes, b"world".to_vec());
}

#[test]
fn accepted_connection_starts_a_session() {
    let conn: Arc<str> = Arc::from("accepted");
    let receiving = accepted::<str, ()>(Ok((conn.clone(), PEER))).unwrap_or_else(|_| panic!());
    assert!(Arc::ptr_eq(receiving.conn(), &conn));
    let (request, response, _) = forward(receiving, b"hello");
    assert_eq!(request, b"hello".to_vec());
    assert!(Arc::ptr_eq(&response.conn, &conn));
    assert_eq!(response.remote_addr, PEER);
}

#[test]
fn failed_accept_ends_the_listener() {
    let error = accepted::<str, &str>(Err("closed")).err().unwrap();
    assert_eq!(
        error,
        Error { kind: ErrorKind::Other, cause: Cause::Message("could not accept") }
    );
}

#[test]
fn each_accepted_connection_has_its_own_way_back() {
    let other = SocketAddr::V4(SocketAddrV4 { octets: [127, 0, 0, 1], port: 40001 });
    let attempts: Vec<(Arc<str>, SocketAddr)> =
        vec![(Arc::from("first"), PEER), (Arc::from("second"), other)];
    let mut answers = Vec::new();
    for attempt in attempts {
        let receiving = accepted::<str, ()>(Ok(attempt)).unwrap_or_else(|_| panic!());
        let (request, response, _) = forward(receiving, b"hello");
        answers.push((response.address(), response.reply(request)));
    }
    assert_eq!(answers[0].0, PEER);
    assert_eq!(&*answers[0].1 .0, "first");
    assert_eq!(answers[1].0, other);
    assert_eq!(&*answers[1].1 .0, "second");
}

#[test]
fn requests_are_handed_on_in_order_until_one_cannot_be() {
    let outcomes = vec![Ok(()), Ok(()), Err("no handler"), Ok(())];
    let mut step = ConnStep::Recv(session());
    let mut handed = Vec::new();
    let mut taken = Vec::new();
    for (i, sent) in outcomes.into_iter().enumerate() {
        let receiving = match step {
            ConnStep::Recv(receiving) => receiving,
            _ => break,
        };
        let (request, _, forwarding) = forward(receiving, &[b'a', i as u8]);
        if sent.is_ok() {
            taken.push(request.clone());
        }
        handed.push(request);
        step = forwarding.forwarded(sent);
    }
    assert_eq!(handed, vec![vec![b'a', 0], vec![b'a', 1], vec![b'a', 2]]);
    assert_eq!(taken, vec![vec![b'a', 0], vec![b'a', 1]]);
}
