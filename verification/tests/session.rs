use netperf::dgram::{classify_datagram, ipv4_header_valid, DatagramClass, IPV4_HEADER_LEN};
use netperf::os::{handle_os_result, timeval_of_timeout, Ipv4Address, SockAddrV4};
use netperf::message::{Message, Syn, SynAck};
use netperf::program::{
    missing_field, select_transport, syn_ack_filter, syn_filter, zero_payload, ClientConfig,
    Config, EndpointConfig, Error, RawClientConfig, RawServerConfig, SessionCounter, SessionPlan,
};
use netperf::test::TestPlan;
use netperf::transport::TransportMode;

fn address() -> SockAddrV4 {
    SockAddrV4 { ip: Ipv4Address { o0: 127, o1: 0, o2: 0, o3: 1 }, port: 9000 }
}

fn client_config() -> ClientConfig {
    ClientConfig {
        mode: TransportMode::Send,
        test_plan: TestPlan { duration_ms: 500, packet_size: 1024 },
    }
}

fn empty_config(transport: &str) -> Config {
    Config {
        transport: transport.to_string(),
        tcp_server: None,
        tcp_client: None,
        udp_server: None,
        udp_client: None,
        raw_server: None,
        raw_client: None,
        client: None,
    }
}

#[test]
fn session_ids_are_sequential_from_one() {
    let mut counter = SessionCounter::new();
    let ids: Vec<usize> = (0..5).map(|_| counter.next_session_id()).collect();
    assert_eq!(ids, vec![1, 2, 3, 4, 5]);
    assert_eq!(counter.assigned, 5);
}

#[test]
fn handshake_filters_accept_exactly_their_message() {
    let plan = TestPlan { duration_ms: 100, packet_size: 8 };
    let syn = Syn { mode: TransportMode::Send, options: plan };
    let ack = SynAck { test_id: 4, test_plan: plan };
    assert_eq!(syn_filter(Message::Syn(syn)), Some(syn));
    assert_eq!(syn_filter(Message::SynAck(ack)), None);
    assert_eq!(syn_filter(Message::Fin), None);
    assert_eq!(syn_ack_filter(Message::SynAck(ack)), Some(ack));
    assert_eq!(syn_ack_filter(Message::Syn(syn)), None);
    assert_eq!(syn_ack_filter(Message::FinAck), None);
}

#[test]
fn payload_packets_are_zero_filled() {
    assert_eq!(zero_payload(0), Vec::<u8>::new());
    assert_eq!(zero_payload(5), vec![0u8; 5]);
}

#[test]
fn missing_field_message_exact() {
    match missing_field("tcp_server") {
        Error::InvalidConfig { message } => {
            assert_eq!(message, "The field \"tcp_server\" is required");
        },
        other => panic!("expected a configuration failure, got {:?}", other),
    }
}

#[test]
fn selects_tcp_server() {
    let mut config = empty_config("tcp-server");
    config.tcp_server = Some(EndpointConfig { address: address() });
    match select_transport(config).unwrap() {
        SessionPlan::TcpServer { address: a } => assert_eq!(a, address()),
        _ => panic!("expected the TCP server plan"),
    }
}

#[test]
fn selects_tcp_client() {
    let mut config = empty_config("tcp-client");
    config.tcp_client = Some(EndpointConfig { address: address() });
    config.client = Some(client_config());
    match select_transport(config).unwrap() {
        SessionPlan::TcpClient { address: a, client } => {
            assert_eq!(a, address());
            assert_eq!(client, client_config());
        },
        _ => panic!("expected the TCP client plan"),
    }
}

#[test]
fn selects_udp_both_roles() {
    let mut config = empty_config("udp-server");
    config.udp_server = Some(EndpointConfig { address: address() });
    assert!(matches!(select_transport(config), Ok(SessionPlan::UdpServer { .. })));

    let mut config = empty_config("udp-client");
    config.udp_client = Some(EndpointConfig { address: address() });
    config.client = Some(client_config());
    assert!(matches!(select_transport(config), Ok(SessionPlan::UdpClient { .. })));
}

#[test]
fn selects_raw_roles_with_port_zero_peer() {
    let mut config = empty_config("raw-server");
    config.raw_server = Some(RawServerConfig { interface: "eth0".to_string() });
    match select_transport(config).unwrap() {
        SessionPlan::RawServer { interface } => assert_eq!(interface, "eth0"),
        _ => panic!("expected the raw server plan"),
    }

    let mut config = empty_config("raw-client");
    config.raw_client = Some(RawClientConfig {
        interface: "eth0".to_string(),
        address: Ipv4Address { o0: 10, o1: 0, o2: 0, o3: 2 },
    });
    config.client = Some(client_config());
    match select_transport(config).unwrap() {
        SessionPlan::RawClient { interface, address: a, client } => {
            assert_eq!(interface, "eth0");
            assert_eq!(a.port, 0);
            assert_eq!(a.ip, Ipv4Address { o0: 10, o1: 0, o2: 0, o3: 2 });
            assert_eq!(client, client_config());
        },
        _ => panic!("expected the raw client plan"),
    }
}

#[test]
fn missing_blocks_are_reported_by_name() {
    let config = empty_config("tcp-server");
    match select_transport(config) {
        Err(Error::InvalidConfig { message }) => {
            assert_eq!(message, "The field \"tcp_server\" is required");
        },
        other => panic!("expected a configuration failure, got {:?}", other),
    }

    let mut config = empty_config("udp-client");
    config.udp_client = Some(EndpointConfig { address: address() });
    match select_transport(config) {
        Err(Error::InvalidConfig { message }) => {
            assert_eq!(message, "The field \"client\" is required");
        },
        other => panic!("expected a configuration failure, got {:?}", other),
    }

    let mut config = empty_config("raw-client");
    config.client = Some(client_config());
    match select_transport(config) {
        Err(Error::InvalidConfig { message }) => {
            assert_eq!(message, "The field \"raw_client\" is required");
        },
        other => panic!("expected a configuration failure, got {:?}", other),
    }
}

#[test]
fn unknown_transport_is_rejected_by_name() {
    match select_transport(empty_config("carrier-pigeon")) {
        Err(Error::InvalidConfig { message }) => {
            assert_eq!(message, "Invalid transport value \"carrier-pigeon\"");
        },
        other => panic!("expected a configuration failure, got {:?}", other),
    }
}

#[test]
fn zero_copy_transport_is_unimplemented() {
    match select_transport(empty_config("zero-copy-server")) {
        Err(Error::InvalidConfig { message }) => {
            assert_eq!(message, "The transport \"zero-copy-server\" is unimplemented");
        },
        other => panic!("expected a configuration failure, got {:?}", other),
    }
}

#[test]
fn sockaddr_conversion_round_trips() {
    let a = address();
    let c = a.into_c();
    assert_eq!(c.family, 2);
    // 9000 = 0x2328, byte-swapped 0x2823
    assert_eq!(c.port, 0x2823);
    assert_eq!(c.addr, 0x7f000001);
    assert_eq!(c.zero, 0);
    assert_eq!(SockAddrV4::from_c(&c), a);
}

#[test]
fn timeval_conversion_exact() {
    assert_eq!(timeval_of_timeout(Some(1500)), (1, 500_000));
    assert_eq!(timeval_of_timeout(Some(999)), (0, 999_000));
    assert_eq!(timeval_of_timeout(Some(2000)), (2, 0));
    assert_eq!(timeval_of_timeout(None), (0, 0));
}

#[test]
fn os_result_sign_convention() {
    assert_eq!(handle_os_result(0), Some(0));
    assert_eq!(handle_os_result(42), Some(42));
    assert_eq!(handle_os_result(-1), None);
}

fn ipv4_datagram(payload_len: usize) -> Vec<u8> {
    let total = IPV4_HEADER_LEN + payload_len;
    let mut d = vec![0u8; total];
    d[0] = 0x45;
    d[2] = (total >> 8) as u8;
    d[3] = (total & 0xff) as u8;
    d
}

#[test]
fn ipv4_header_validation() {
    assert!(ipv4_header_valid(&ipv4_datagram(0)));
    assert!(ipv4_header_valid(&ipv4_datagram(100)));
    let mut wrong_version = ipv4_datagram(0);
    wrong_version[0] = 0x65;
    assert!(!ipv4_header_valid(&wrong_version));
    let mut with_options = ipv4_datagram(0);
    with_options[0] = 0x46;
    assert!(!ipv4_header_valid(&with_options));
    let mut wrong_total = ipv4_datagram(4);
    wrong_total[3] = 0xff;
    assert!(!ipv4_header_valid(&wrong_total));
    assert!(!ipv4_header_valid(&vec![0x45; 10]));
}

#[test]
fn datagram_classification_udp() {
    assert_eq!(classify_datagram(&vec![], 0), DatagramClass::Connect);
    assert_eq!(classify_datagram(&vec![1, 2, 3], 0), DatagramClass::Payload);
}

#[test]
fn datagram_classification_raw() {
    assert_eq!(classify_datagram(&ipv4_datagram(0), IPV4_HEADER_LEN), DatagramClass::Connect);
    assert_eq!(classify_datagram(&ipv4_datagram(64), IPV4_HEADER_LEN), DatagramClass::Payload);
    assert_eq!(classify_datagram(&vec![0x45; 8], IPV4_HEADER_LEN), DatagramClass::Malformed);
    let mut broken = ipv4_datagram(0);
    broken[0] = 0x60;
    assert_eq!(classify_datagram(&broken, IPV4_HEADER_LEN), DatagramClass::Malformed);
}
