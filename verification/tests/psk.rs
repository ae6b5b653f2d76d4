use coap_dtls::{
    accepted, ConnStep, DtlsConfig, DtlsConnection, DtlsResponse, SocketAddr, SocketAddrV4,
};
use std::sync::Arc;
use std::time::Duration;
use webrtc_dtls::cipher_suite::CipherSuiteId;
use webrtc_dtls::config::Config;
use webrtc_dtls::conn::DTLSConn;
use webrtc_util::conn::conn_pipe::pipe;
use webrtc_util::conn::Conn;

const CLIENT: SocketAddr = SocketAddr::V4(SocketAddrV4 { octets: [127, 0, 0, 1], port: 40000 });
const SERVER: SocketAddr = SocketAddr::V4(SocketAddrV4 { octets: [127, 0, 0, 1], port: 5684 });

fn get_psk_config() -> Config {
    Config {
        psk: Some(Arc::new(|_| Ok(vec![1, 2, 3, 4, 5, 6, 7, 8, 9, 0]))),
        psk_identity_hint: Some("webrtc-rs DTLS Server".as_bytes().to_vec()),
        cipher_suites: vec![CipherSuiteId::Tls_Psk_With_Aes_128_Ccm_8],
        server_name: "localhost".to_string(),
        ..Default::default()
    }
}

async fn answer_one_request(socket: Arc<dyn Conn + Send + Sync>) {
    let conn = DTLSConn::new(socket, get_psk_config(), false, None).await.unwrap();
    let conn: Arc<dyn Conn + Send + Sync> = Arc::new(conn);
    let mut receiving = accepted::<_, webrtc_util::Error>(Ok((conn.clone(), CLIENT)))
        .unwrap_or_else(|_| panic!("no session"));
    let rx = conn.recv(receiving.buffer()).await;
    match receiving.received(rx) {
        ConnStep::Forward(request, response, forwarding) => {
            let response: Arc<DtlsResponse> = response;
            assert_eq!(response.address(), CLIENT);
            let (back, bytes) = response.reply(request);
            assert_eq!(back.send(&bytes).await.unwrap(), 5);
            assert!(matches!(forwarding.forwarded::<()>(Ok(())), ConnStep::Recv(_)));
        }
        _ => panic!("no request"),
    }
}

async fn send_one_request<S: Conn + Send + Sync + 'static>(socket: S) {
    let dtls_config = DtlsConfig { config: get_psk_config(), dest_addr: SERVER };
    let binding = DtlsConnection::try_new(dtls_config);
    let connecting = binding.bound::<S, ()>(Ok(socket)).unwrap_or_else(|_| panic!("not bound"));
    let (handshake, handshaking) =
        connecting.connected::<(), _>(Ok(())).unwrap_or_else(|_| panic!("not connected"));
    let finished = tokio::time::timeout(
        Duration::from_secs(handshake.timeout_secs),
        DTLSConn::new(
            handshake.socket,
            handshake.config,
            handshake.is_client,
            handshake.initial_state,
        ),
    )
    .await;
    let connection: DtlsConnection =
        handshaking.finished(finished).unwrap_or_else(|_| panic!("no handshake"));

    let job = connection.write(b"hello");
    let written = job.conn.write(job.bytes, job.timeout).await;
    assert_eq!(connection.sent(written).unwrap(), 5);
    let mut buf = [0u8; 64];
    let job = connection.read(&mut buf);
    let read = job.conn.read(job.buffer, job.timeout).await;
    assert_eq!(connection.received(read).unwrap(), (5, SERVER));
    assert_eq!(buf[..5], b"hello"[..]);
}

#[test]
fn request_over_a_shared_key_is_answered() {
    let runtime = tokio::runtime::Builder::new_multi_thread().enable_time().build().unwrap();
    runtime.block_on(async {
        let (near, far) = pipe();
        let server = tokio::spawn(answer_one_request(Arc::new(far)));
        send_one_request(near).await;
        server.await.unwrap();
    });
}

#[test]
fn wrong_shared_key_does_not_connect() {
    let runtime = tokio::runtime::Builder::new_multi_thread().enable_time().build().unwrap();
    runtime.block_on(async {
        let (near, far) = pipe();
        let server = tokio::spawn(async move {
            DTLSConn::new(Arc::new(far), get_psk_config(), false, None).await.is_ok()
        });
        let mut config = get_psk_config();
        config.psk = Some(Arc::new(|_| Ok(vec![1, 2, 3, 4, 5, 6, 7, 8, 9, 9])));
        let binding = DtlsConnection::try_new(DtlsConfig { config, dest_addr: SERVER });
        let connecting = binding.bound::<_, ()>(Ok(near)).unwrap_or_else(|_| panic!("not bound"));
        let (handshake, handshaking) =
            connecting.connected::<(), _>(Ok(())).unwrap_or_else(|_| panic!("not connected"));
        let finished = tokio::time::timeout(
            Duration::from_secs(5),
            DTLSConn::new(
                handshake.socket,
                handshake.config,
                handshake.is_client,
                handshake.initial_state,
            ),
        )
        .await;
        assert!(handshaking.finished(finished).is_err(), "should not have connected");
        server.abort();
    });
}
