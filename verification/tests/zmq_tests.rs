use hexcore::zmq::{
    frames_of, message_of, on_receive_error, ClientSocket, ReceiveStep, RecvControl, ServerSocket,
    DEFAULT_TIMEOUT_MS,
};
use tokio_util::sync::CancellationToken;
use zeromq::{Socket, SocketRecv, SocketSend};

async fn client_receive(
    st: &mut ClientSocket,
    sock: &mut zeromq::DealerSocket,
) -> Result<Vec<u8>, String> {
    if let Some(f) = st.pop_buffered() {
        return Ok(f);
    }
    loop {
        match sock.recv().await {
            Ok(msg) => {
                if let Some(f) = st.receive_message(msg) {
                    return Ok(f);
                }
            }
            Err(e) => match on_receive_error(matches!(e, zeromq::ZmqError::Codec(_))) {
                RecvControl::Retry => {}
                RecvControl::Fail => return Err(format!("{e:?}")),
            },
        }
    }
}

async fn server_receive(
    st: &mut ServerSocket,
    sock: &mut zeromq::RouterSocket,
    token: &CancellationToken,
) -> Result<Vec<u8>, String> {
    loop {
        match st.receive_step() {
            ReceiveStep::Deliver(f) => return Ok(f),
            ReceiveStep::Cancelled => return Err("cancelled".to_string()),
            ReceiveStep::AwaitTransport => {}
        }
        let outcome = futures_lite::future::or(async { Some(sock.recv().await) }, async {
            token.cancelled().await;
            None
        })
        .await;
        match outcome {
            None => st.cancel(),
            Some(Ok(msg)) => {
                if let Some(f) = st.receive_message(msg) {
                    return Ok(f);
                }
            }
            Some(Err(e)) => match on_receive_error(matches!(e, zeromq::ZmqError::Codec(_))) {
                RecvControl::Retry => {}
                RecvControl::Fail => return Err(format!("{e:?}")),
            },
        }
    }
}

async fn connect_client(
    client_id: Vec<u8>,
    endpoint: &str,
) -> (ClientSocket, zeromq::DealerSocket) {
    let mut state = ClientSocket::new(client_id.clone());
    let mut options = zeromq::SocketOptions::default();
    options.peer_identity(zeromq::util::PeerIdentity::try_from(client_id).unwrap());
    let mut sock = zeromq::DealerSocket::with_options(options);
    sock.connect(endpoint).await.unwrap();
    state.complete_connect();
    (state, sock)
}

#[test]
fn framing_client_message() {
    let mut client = ClientSocket::new(vec![b'A', b'B', b'C']);
    assert!(!client.connected());
    client.complete_connect();
    assert!(client.connected());
    let msg = client.outgoing_message(vec![1, 2, 3]);
    assert_eq!(frames_of(msg), vec![vec![1, 2, 3]]);
}

#[test]
fn framing_server_reply() {
    let server = ServerSocket::new();
    let msg = server.outgoing_message(vec![b'A', b'B', b'C'], vec![4, 5, 6]);
    assert_eq!(frames_of(msg), vec![vec![b'A', b'B', b'C'], vec![4, 5, 6]]);
}

#[test]
fn message_of_keeps_frames() {
    let msg = message_of(vec![vec![9], vec![], vec![7, 8]]);
    assert_eq!(frames_of(msg), vec![vec![9], vec![], vec![7, 8]]);
}

#[test]
fn receive_message_buffers_frames_in_order() {
    let mut server = ServerSocket::new();
    let msg = message_of(vec![vec![1], vec![2, 2], vec![3]]);
    assert_eq!(server.receive_message(msg), Some(vec![1]));
    assert!(matches!(server.receive_step(), ReceiveStep::Deliver(f) if f == vec![2, 2]));
    assert!(matches!(server.receive_step(), ReceiveStep::Deliver(f) if f == vec![3]));
    assert!(matches!(server.receive_step(), ReceiveStep::AwaitTransport));
}

#[test]
fn buffered_frames_win_over_cancellation() {
    let mut server = ServerSocket::new();
    let msg = message_of(vec![vec![1], vec![2]]);
    assert_eq!(server.receive_message(msg), Some(vec![1]));
    server.cancel();
    // The buffered frame is still delivered; only then does the
    // cancellation take over, and it stays in force.
    assert!(matches!(server.receive_step(), ReceiveStep::Deliver(f) if f == vec![2]));
    assert!(matches!(server.receive_step(), ReceiveStep::Cancelled));
    server.cancel();
    assert!(matches!(server.receive_step(), ReceiveStep::Cancelled));
}

#[test]
fn codec_noise_is_retried_other_errors_fail() {
    assert_eq!(on_receive_error(true), RecvControl::Retry);
    assert_eq!(on_receive_error(false), RecvControl::Fail);
}

#[test]
fn default_timeout_is_three_seconds() {
    assert_eq!(DEFAULT_TIMEOUT_MS, 3000);
}

// The check runs tests in a namespace without a network, so the round
// trips use the transport's unix-socket endpoints; a fresh path each run
// keeps a leftover socket file from blocking the bind.
fn ipc_endpoint(name: &str) -> String {
    let nanos = std::time::SystemTime::now()
        .duration_since(std::time::UNIX_EPOCH)
        .unwrap()
        .as_nanos();
    format!("ipc:///tmp/hexcore_{name}_{nanos}.sock")
}

#[test]
fn zmq_roundtrip() {
    let rt = tokio::runtime::Runtime::new().unwrap();
    rt.block_on(async {
        let client_id = vec![b'A', b'B', b'C'];
        let endpoint = ipc_endpoint("roundtrip");

        let mut server = ServerSocket::new();
        let mut server_sock = zeromq::RouterSocket::new();
        server_sock.bind(&endpoint).await.unwrap();
        server.complete_bind();
        let token = CancellationToken::new();

        let (client, mut client_sock) = connect_client(client_id.clone(), &endpoint).await;
        let mut client = client;

        // Send message from client to server
        let msg = client.outgoing_message(vec![1, 2, 3]);
        client_sock.send(msg).await.unwrap();

        let client_id_msg = server_receive(&mut server, &mut server_sock, &token).await.unwrap();
        let data_msg = server_receive(&mut server, &mut server_sock, &token).await.unwrap();

        assert_eq!(client_id_msg, vec![b'A', b'B', b'C']);
        assert_eq!(data_msg, vec![1, 2, 3]);

        // Send message from server to client
        let reply = server.outgoing_message(client_id.clone(), vec![4, 5, 6]);
        server_sock.send(reply).await.unwrap();

        let data_msg = client_receive(&mut client, &mut client_sock).await.unwrap();
        assert_eq!(data_msg, vec![4, 5, 6]);

        // Shutdown server which should immediately cancel receive calls
        let server_rx = server_receive(&mut server, &mut server_sock, &token);
        token.cancel();

        match server_rx.await {
            Err(e) if e == "cancelled" => {}
            res => panic!("got {res:?}"),
        };

        // Cancellation is one-shot and sticky: every further receive
        // resolves the same way without touching the transport.
        match server_receive(&mut server, &mut server_sock, &token).await {
            Err(e) if e == "cancelled" => {}
            res => panic!("got {res:?}"),
        };
    });
}

#[test]
fn zmq_roundtrip_2_clients() {
    let rt = tokio::runtime::Runtime::new().unwrap();
    rt.block_on(async {
        let client_id1 = vec![b'A', b'B', b'C'];
        let client_id2 = vec![b'A', b'B', b'D'];

        let endpoint = ipc_endpoint("roundtrip2");

        let mut server = ServerSocket::new();
        let mut server_sock = zeromq::RouterSocket::new();
        server_sock.bind(&endpoint).await.unwrap();
        server.complete_bind();
        let token = CancellationToken::new();

        let (client1, mut client_sock1) =
            connect_client(client_id1.clone(), &endpoint).await;
        let mut client1 = client1;

        // Send message from client to server
        let msg = client1.outgoing_message(vec![1, 2, 3]);
        client_sock1.send(msg).await.unwrap();

        let client_id_msg = server_receive(&mut server, &mut server_sock, &token).await.unwrap();
        let data_msg = server_receive(&mut server, &mut server_sock, &token).await.unwrap();

        assert_eq!(client_id_msg, vec![b'A', b'B', b'C']);
        assert_eq!(data_msg, vec![1, 2, 3]);

        let (client2, mut client_sock2) =
            connect_client(client_id2.clone(), &endpoint).await;
        let mut client2 = client2;

        // Send message from client to server
        let msg = client2.outgoing_message(vec![1, 2, 4]);
        client_sock2.send(msg).await.unwrap();

        let client_id_msg = server_receive(&mut server, &mut server_sock, &token).await.unwrap();
        let data_msg = server_receive(&mut server, &mut server_sock, &token).await.unwrap();

        assert_eq!(client_id_msg, vec![b'A', b'B', b'D']);
        assert_eq!(data_msg, vec![1, 2, 4]);

        // Send message from server to client
        let reply1 = server.outgoing_message(client_id1.clone(), vec![4, 5, 6]);
        server_sock.send(reply1).await.unwrap();
        let reply2 = server.outgoing_message(client_id2.clone(), vec![4, 5, 7]);
        server_sock.send(reply2).await.unwrap();

        let data_msg = client_receive(&mut client1, &mut client_sock1).await.unwrap();
        assert_eq!(data_msg, vec![4, 5, 6]);

        let data_msg = client_receive(&mut client2, &mut client_sock2).await.unwrap();
        assert_eq!(data_msg, vec![4, 5, 7]);

        // Shutdown server which should immediately cancel receive calls
        let server_rx = server_receive(&mut server, &mut server_sock, &token);
        token.cancel();

        match server_rx.await {
            Err(e) if e == "cancelled" => {}
            res => panic!("got {res:?}"),
        };
    });
}
