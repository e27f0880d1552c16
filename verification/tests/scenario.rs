use std::cell::RefCell;
use std::collections::VecDeque;
use std::rc::Rc;

use netperf::dgram::{DgramListener, PacketSocket, UdpConnection, UdpConnectionFactory};
use netperf::message::{encode_frame, Message, MessageReader, Syn, SynAck};
use netperf::os::{Ipv4Address, SockAddrV4};
use netperf::program::{handle_session, start_client, ClientConfig, SessionCounter};
use netperf::test::{TestData, TestListener, TestOptions, TestPlan};
use netperf::test_format::EventType;
use netperf::transport::{Client, Connection, IoError, IoErrorKind, Listener, SetReadTimeout};

fn plan() -> TestPlan {
    TestPlan { duration_ms: 500, packet_size: 1024 }
}

#[derive(Clone)]
struct Recorder {
    log: Rc<RefCell<Vec<(EventType, TestData)>>>,
}

impl Recorder {
    fn new() -> Recorder {
        Recorder { log: Rc::new(RefCell::new(Vec::new())) }
    }

    fn finish_data(&self) -> Option<TestData> {
        self.log
            .borrow()
            .iter()
            .find(|(t, _)| *t == EventType::Finish)
            .map(|(_, d)| *d)
    }
}

impl TestListener for Recorder {
    fn on_start(&mut self, data: &TestData) {
        self.log.borrow_mut().push((EventType::Start, *data));
    }

    fn on_finish(&mut self, data: &TestData) {
        self.log.borrow_mut().push((EventType::Finish, *data));
    }

    fn on_report(&mut self, data: &TestData) {
        self.log.borrow_mut().push((EventType::Report, *data));
    }
}

/// A connection over in-memory queues of segments, mirroring how a
/// socket hands data back per receive call; writes can be capped so the
/// peer appears to reset the connection.
#[derive(Clone)]
struct Loopback {
    inbound: Rc<RefCell<VecDeque<Vec<u8>>>>,
    outbound: Rc<RefCell<VecDeque<Vec<u8>>>>,
    writes_left: Rc<RefCell<Option<usize>>>,
}

impl Loopback {
    fn new(
        inbound: Rc<RefCell<VecDeque<Vec<u8>>>>,
        outbound: Rc<RefCell<VecDeque<Vec<u8>>>>,
    ) -> Loopback {
        Loopback { inbound, outbound, writes_left: Rc::new(RefCell::new(None)) }
    }
}

impl SetReadTimeout for Loopback {
    fn set_read_timeout(&mut self, _milliseconds: Option<u64>) -> Result<(), IoError> {
        Ok(())
    }
}

impl Connection for Loopback {
    fn spec_header_size() -> usize {
        0
    }

    fn header_size() -> usize {
        0
    }

    fn read(&mut self, max: usize) -> Result<Vec<u8>, IoError> {
        let mut inbound = self.inbound.borrow_mut();
        match inbound.pop_front() {
            None => Ok(Vec::new()),
            Some(mut segment) => {
                if segment.len() > max {
                    let rest = segment.split_off(max);
                    inbound.push_front(rest);
                }
                Ok(segment)
            },
        }
    }

    fn write(&mut self, buf: &Vec<u8>) -> Result<usize, IoError> {
        let mut left = self.writes_left.borrow_mut();
        if let Some(remaining) = left.as_mut() {
            if *remaining == 0 {
                return Err(IoError { kind: IoErrorKind::ConnectionReset, os_code: 104 });
            }
            *remaining -= 1;
        }
        self.outbound.borrow_mut().push_back(buf.clone());
        Ok(buf.len())
    }

    fn flush(&mut self) -> Result<(), IoError> {
        Ok(())
    }
}

struct LoopbackClient {
    connection: Loopback,
}

impl Client<Loopback> for LoopbackClient {
    fn connect(&self) -> Result<Loopback, IoError> {
        Ok(self.connection.clone())
    }
}

struct RefusingClient;

impl Client<Loopback> for RefusingClient {
    fn connect(&self) -> Result<Loopback, IoError> {
        Err(IoError { kind: IoErrorKind::Other, os_code: 111 })
    }
}

/// An end-to-end TCP-like session: the client proposes Send mode with a
/// 1024-byte packet plan, the handshake assigns session id 1, payload
/// flows, and both sides finish with at least one packet's worth of
/// bytes counted.
#[test]
fn stream_session_end_to_end() {
    let client_to_server: Rc<RefCell<VecDeque<Vec<u8>>>> = Rc::new(RefCell::new(VecDeque::new()));
    let server_to_client: Rc<RefCell<VecDeque<Vec<u8>>>> = Rc::new(RefCell::new(VecDeque::new()));

    // Pre-stage what the client sends during its data phase: the Syn,
    // three packets of payload, then end-of-stream.
    let syn_frame = encode_frame(&Message::Syn(Syn {
        mode: netperf::transport::TransportMode::Send,
        options: plan(),
    }));
    client_to_server.borrow_mut().push_back(syn_frame);
    for _ in 0..3 {
        client_to_server.borrow_mut().push_back(vec![0u8; 1024]);
    }

    // Server side: one accepted connection, one full session.
    let server_recorder = Recorder::new();
    let mut counter = SessionCounter::new();
    let server_conn = Loopback::new(client_to_server.clone(), server_to_client.clone());
    let server_data = handle_session(
        server_conn,
        &mut counter,
        TestOptions::new(u64::MAX, server_recorder.clone()),
    )
    .unwrap();
    assert_eq!(server_data.id, 1);
    assert_eq!(counter.assigned, 1);
    let server_finish = server_recorder.finish_data().unwrap();
    assert_eq!(server_finish.id, 1);
    assert!(server_finish.total_transfer >= 1024);
    assert_eq!(server_finish.total_transfer, 3 * 1024);

    // Client side: the SynAck is now waiting; the sender loop runs until
    // the connection is reset after three accepted writes.
    let client_recorder = Recorder::new();
    let client_conn = Loopback::new(server_to_client.clone(), client_to_server.clone());
    *client_conn.writes_left.borrow_mut() = Some(4);
    let client = LoopbackClient { connection: client_conn };
    let client_data = start_client(
        client,
        ClientConfig { mode: netperf::transport::TransportMode::Send, test_plan: plan() },
        TestOptions::new(u64::MAX, client_recorder.clone()),
    )
    .unwrap();
    assert_eq!(client_data.id, 1);
    let client_finish = client_recorder.finish_data().unwrap();
    assert_eq!(client_finish.id, 1);
    assert!(client_finish.total_transfer >= 1024);
}

#[test]
fn second_session_gets_the_next_id() {
    let mut counter = SessionCounter::new();
    for expected in 1..=2usize {
        let inbound: Rc<RefCell<VecDeque<Vec<u8>>>> = Rc::new(RefCell::new(VecDeque::new()));
        let outbound: Rc<RefCell<VecDeque<Vec<u8>>>> = Rc::new(RefCell::new(VecDeque::new()));
        let frame = encode_frame(&Message::Syn(Syn {
            mode: netperf::transport::TransportMode::Send,
            options: plan(),
        }));
        inbound.borrow_mut().push_back(frame);
        let conn = Loopback::new(inbound, outbound);
        let recorder = Recorder::new();
        let data =
            handle_session(conn, &mut counter, TestOptions::new(u64::MAX, recorder)).unwrap();
        assert_eq!(data.id, expected);
    }
}

#[test]
fn responder_ignores_messages_before_the_syn() {
    // A FinAck and a SynAck arrive before the Syn: the responder
    // discards them and completes the handshake on the Syn.
    let inbound: Rc<RefCell<VecDeque<Vec<u8>>>> = Rc::new(RefCell::new(VecDeque::new()));
    let outbound: Rc<RefCell<VecDeque<Vec<u8>>>> = Rc::new(RefCell::new(VecDeque::new()));
    let mut bytes = encode_frame(&Message::FinAck);
    bytes.extend_from_slice(&encode_frame(&Message::SynAck(SynAck {
        test_id: 99,
        test_plan: plan(),
    })));
    bytes.extend_from_slice(&encode_frame(&Message::Syn(Syn {
        mode: netperf::transport::TransportMode::Send,
        options: plan(),
    })));
    inbound.borrow_mut().push_back(bytes);
    let conn = Loopback::new(inbound, outbound.clone());
    let mut counter = SessionCounter::new();
    let recorder = Recorder::new();
    let data = handle_session(conn, &mut counter, TestOptions::new(u64::MAX, recorder)).unwrap();
    assert_eq!(data.id, 1);

    // The SynAck the responder wrote echoes the proposed plan.
    let written: VecDeque<Vec<u8>> = outbound.borrow().iter().cloned().collect();
    let reply_conn = Loopback::new(
        Rc::new(RefCell::new(written)),
        Rc::new(RefCell::new(VecDeque::new())),
    );
    let mut reader = MessageReader::new(reply_conn);
    match reader.read().unwrap() {
        Message::SynAck(ack) => {
            assert_eq!(ack.test_id, 1);
            assert_eq!(ack.test_plan, plan());
        },
        other => panic!("expected the SynAck reply, got {:?}", other),
    }
}

#[test]
fn client_reports_connect_failure() {
    let recorder = Recorder::new();
    let outcome = start_client(
        RefusingClient,
        ClientConfig { mode: netperf::transport::TransportMode::Send, test_plan: plan() },
        TestOptions::new(u64::MAX, recorder),
    );
    match outcome {
        Err(netperf::program::Error::Io { error }) => assert_eq!(error.os_code, 111),
        other => panic!("expected the connect failure, got {:?}", other.map(|_| ())),
    }
}

#[test]
fn handshake_failure_does_not_consume_an_id() {
    // The connection ends before any Syn arrives: the handshake fails
    // and the counter is untouched.
    let conn = Loopback::new(
        Rc::new(RefCell::new(VecDeque::new())),
        Rc::new(RefCell::new(VecDeque::new())),
    );
    let mut counter = SessionCounter::new();
    let recorder = Recorder::new();
    let outcome = handle_session(conn, &mut counter, TestOptions::new(u64::MAX, recorder));
    match outcome {
        Err(netperf::program::Error::Message { source }) => {
            assert!(matches!(
                source,
                netperf::message::Error::Io { error: IoError { kind: IoErrorKind::UnexpectedEof, .. } }
            ));
        },
        other => panic!("expected the protocol failure, got {:?}", other.map(|_| ())),
    }
    assert_eq!(counter.assigned, 0);
}

// ---------------------------------------------------------------------------
// Connection emulation over a shared datagram socket
// ---------------------------------------------------------------------------

/// A scripted datagram socket: a queue of inbound datagrams with their
/// senders, and a log of everything sent.
#[derive(Clone)]
struct ScriptedSocket {
    inbound: Rc<RefCell<VecDeque<(Vec<u8>, SockAddrV4)>>>,
    sent: Rc<RefCell<Vec<(Vec<u8>, SockAddrV4)>>>,
}

impl ScriptedSocket {
    fn new(datagrams: Vec<(Vec<u8>, SockAddrV4)>) -> ScriptedSocket {
        ScriptedSocket {
            inbound: Rc::new(RefCell::new(datagrams.into_iter().collect())),
            sent: Rc::new(RefCell::new(Vec::new())),
        }
    }
}

impl PacketSocket for ScriptedSocket {
    fn recvfrom(&self, _max: usize) -> Result<(Vec<u8>, SockAddrV4), IoError> {
        self.inbound
            .borrow_mut()
            .pop_front()
            .ok_or(IoError { kind: IoErrorKind::WouldBlock, os_code: 11 })
    }

    fn sendto(&self, buf: &Vec<u8>, destination: &SockAddrV4) -> Result<usize, IoError> {
        self.sent.borrow_mut().push((buf.clone(), *destination));
        Ok(buf.len())
    }

    fn set_timeout(&self, _milliseconds: Option<u64>) -> Result<(), IoError> {
        Ok(())
    }
}

fn peer(last_octet: u8, port: u16) -> SockAddrV4 {
    SockAddrV4 { ip: Ipv4Address { o0: 10, o1: 0, o2: 0, o3: last_octet }, port }
}

/// A zero-length datagram from a previously unseen peer creates exactly
/// one new connection, pinned to that peer; payload datagrams are never
/// turned into connections.
#[test]
fn udp_zero_length_datagram_opens_one_connection() {
    let socket = ScriptedSocket::new(vec![
        (vec![1, 2, 3], peer(1, 5000)),
        (vec![], peer(2, 6000)),
        (vec![4, 5], peer(3, 7000)),
    ]);
    let listener: DgramListener<ScriptedSocket, UdpConnection<ScriptedSocket>, _> =
        DgramListener::new(socket.clone(), UdpConnectionFactory);

    // The payload datagram from peer 1 is discarded by the accept loop;
    // the empty datagram from peer 2 opens the connection.
    let connection = listener.accept().unwrap();
    assert_eq!(connection.destination, peer(2, 6000));

    // The remaining payload datagram is not a connection either; with
    // nothing else queued, accept reports the socket's failure instead
    // of inventing a connection.
    assert!(listener.accept().is_err());
}

#[test]
fn udp_connection_sends_to_its_pinned_peer() {
    let socket = ScriptedSocket::new(vec![]);
    let mut connection = UdpConnection::new(socket.clone(), peer(9, 4242));
    connection.write(&vec![7, 8, 9]).unwrap();
    connection.close();
    let sent = socket.sent.borrow();
    assert_eq!(sent.len(), 2);
    assert_eq!(sent[0], (vec![7, 8, 9], peer(9, 4242)));
    // The goodbye datagram: zero-length, to the same peer.
    assert_eq!(sent[1], (vec![], peer(9, 4242)));
}
