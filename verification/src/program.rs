//! Session orchestration: configuration validation and transport
//! selection, monotonic session-id assignment, the Syn/SynAck handshake
//! on both sides, and the sender/receiver data loops.
//!
//! The shutdown protocol is the unilateral one: the sender stops when
//! the configured duration has elapsed, and the receiver stops when a
//! read returns exactly the transport's framing bytes and no payload
//! (end-of-stream for TCP, the goodbye datagram for the connectionless
//! transports). `Fin`/`FinAck` remain in the wire vocabulary for a
//! graceful close initiated over a stream transport.

use vstd::prelude::*;
use vstd::string::StringExecFns;

use crate::message::{Error as MessageError, Message, MessageReader, MessageWriter, Syn, SynAck};
use crate::os::{Ipv4Address, SockAddrV4};
use crate::test::{Test, TestData, TestListener, TestOptions, TestPlan};
use crate::transport::{Client, Connection, IoError, IoErrorKind, TransportMode};

verus! {

/// One unit per data-loop iteration, so every loop provably terminates
/// while being bounded only by the peer and the clock in practice.
const LOOP_BUDGET: u64 = 0xffff_ffff_ffff_ffff;

/// How the orchestration fails: an OS failure, a rejected configuration,
/// or a control-protocol failure.
#[derive(Debug)]
pub enum Error {
    Io { error: IoError },
    InvalidConfig { message: String },
    Message { source: MessageError },
}

/// Client-side session parameters: which end sends, and the plan.
#[derive(Clone, Copy, Debug, PartialEq, Eq, Structural)]
pub struct ClientConfig {
    pub mode: TransportMode,
    pub test_plan: TestPlan,
}

/// A server bind address.
#[derive(Clone, Copy, Debug, PartialEq, Eq, Structural)]
pub struct EndpointConfig {
    pub address: SockAddrV4,
}

/// A raw-IP server: the interface the raw socket binds to.
#[derive(Debug)]
pub struct RawServerConfig {
    pub interface: String,
}

/// A raw-IP client: the interface and the peer address.
#[derive(Debug)]
pub struct RawClientConfig {
    pub interface: String,
    pub address: Ipv4Address,
}

/// One configuration entry: the transport name and the role-specific
/// parameter blocks, each optional until validation.
pub struct Config {
    pub transport: String,
    pub tcp_server: Option<EndpointConfig>,
    pub tcp_client: Option<EndpointConfig>,
    pub udp_server: Option<EndpointConfig>,
    pub udp_client: Option<EndpointConfig>,
    pub raw_server: Option<RawServerConfig>,
    pub raw_client: Option<RawClientConfig>,
    pub client: Option<ClientConfig>,
}

/// A validated selection: which backend to construct, with exactly the
/// parameters it needs.
#[derive(Debug)]
pub enum SessionPlan {
    TcpServer { address: SockAddrV4 },
    TcpClient { address: SockAddrV4, client: ClientConfig },
    UdpServer { address: SockAddrV4 },
    UdpClient { address: SockAddrV4, client: ClientConfig },
    RawServer { interface: String },
    RawClient { interface: String, address: SockAddrV4, client: ClientConfig },
}

pub open spec fn spec_missing_field_message(field: Seq<char>) -> Seq<char> {
    "The field \""@ + field + "\" is required"@
}

pub open spec fn spec_invalid_transport_message(transport: Seq<char>) -> Seq<char> {
    "Invalid transport value \""@ + transport + "\""@
}

pub open spec fn spec_unimplemented_transport_message(transport: Seq<char>) -> Seq<char> {
    "The transport \""@ + transport + "\" is unimplemented"@
}

/// The configuration failure for a required field that is absent.
pub fn missing_field(field: &str) -> (r: Error)
    ensures
        (r matches Error::InvalidConfig { message } && message@ == spec_missing_field_message(
            field@,
        )),
{
    let mut message = String::from_str("The field \"");
    message.append(field);
    message.append("\" is required");
    proof {
        assert(message@ =~= spec_missing_field_message(field@));
    }
    Error::InvalidConfig { message }
}

fn invalid_transport(transport: &str) -> (r: Error)
    ensures
        (r matches Error::InvalidConfig { message } && message@ == spec_invalid_transport_message(
            transport@,
        )),
{
    let mut message = String::from_str("Invalid transport value \"");
    message.append(transport);
    message.append("\"");
    proof {
        assert(message@ =~= spec_invalid_transport_message(transport@));
    }
    Error::InvalidConfig { message }
}

fn unimplemented_transport(transport: &str) -> (r: Error)
    ensures
        (r matches Error::InvalidConfig { message } && message@
            == spec_unimplemented_transport_message(transport@)),
{
    let mut message = String::from_str("The transport \"");
    message.append(transport);
    message.append("\" is unimplemented");
    proof {
        assert(message@ =~= spec_unimplemented_transport_message(transport@));
    }
    Error::InvalidConfig { message }
}

fn string_matches(s: &String, lit: &str) -> (r: bool)
    ensures
        r == (s@ == lit@),
{
    let owned: String = lit.to_owned();
    *s == owned
}

/// Validates one configuration entry and selects the backend: each
/// recognized transport name demands its parameter block (and, for the
/// client roles, the shared client block); the placeholder zero-copy
/// transport and unknown names are rejected.
pub fn select_transport(config: Config) -> (r: Result<SessionPlan, Error>)
    ensures
        config.transport@ == "tcp-server"@ ==> (match config.tcp_server {
            Some(c) => r == Ok::<SessionPlan, Error>(SessionPlan::TcpServer { address: c.address }),
            None => (r matches Err(Error::InvalidConfig { message }) && message@
                == spec_missing_field_message("tcp_server"@)),
        }),
        config.transport@ == "tcp-client"@ ==> (match (config.client, config.tcp_client) {
            (Some(cc), Some(c)) => r == Ok::<SessionPlan, Error>(
                SessionPlan::TcpClient { address: c.address, client: cc },
            ),
            (None, _) => (r matches Err(Error::InvalidConfig { message }) && message@
                == spec_missing_field_message("client"@)),
            (Some(cc), None) => (r matches Err(Error::InvalidConfig { message }) && message@
                == spec_missing_field_message("tcp_client"@)),
        }),
        config.transport@ == "udp-server"@ ==> (match config.udp_server {
            Some(c) => r == Ok::<SessionPlan, Error>(SessionPlan::UdpServer { address: c.address }),
            None => (r matches Err(Error::InvalidConfig { message }) && message@
                == spec_missing_field_message("udp_server"@)),
        }),
        config.transport@ == "udp-client"@ ==> (match (config.client, config.udp_client) {
            (Some(cc), Some(c)) => r == Ok::<SessionPlan, Error>(
                SessionPlan::UdpClient { address: c.address, client: cc },
            ),
            (None, _) => (r matches Err(Error::InvalidConfig { message }) && message@
                == spec_missing_field_message("client"@)),
            (Some(cc), None) => (r matches Err(Error::InvalidConfig { message }) && message@
                == spec_missing_field_message("udp_client"@)),
        }),
        config.transport@ == "raw-server"@ ==> (match config.raw_server {
            Some(c) => (r matches Ok(SessionPlan::RawServer { interface }) && interface@
                == c.interface@),
            None => (r matches Err(Error::InvalidConfig { message }) && message@
                == spec_missing_field_message("raw_server"@)),
        }),
        config.transport@ == "raw-client"@ ==> (match (config.client, config.raw_client) {
            (Some(cc), Some(c)) => (r matches Ok(
                SessionPlan::RawClient { interface, address, client },
            ) && interface@ == c.interface@ && address == (SockAddrV4 { ip: c.address, port: 0 })
                && client == cc),
            (None, _) => (r matches Err(Error::InvalidConfig { message }) && message@
                == spec_missing_field_message("client"@)),
            (Some(cc), None) => (r matches Err(Error::InvalidConfig { message }) && message@
                == spec_missing_field_message("raw_client"@)),
        }),
        (config.transport@ == "zero-copy-server"@ || config.transport@ == "zero-copy-client"@) ==> (
        r matches Err(Error::InvalidConfig { message }) && message@
            == spec_unimplemented_transport_message(config.transport@)),
        (config.transport@ != "tcp-server"@ && config.transport@ != "tcp-client"@
            && config.transport@ != "udp-server"@ && config.transport@ != "udp-client"@
            && config.transport@ != "raw-server"@ && config.transport@ != "raw-client"@
            && config.transport@ != "zero-copy-server"@ && config.transport@
            != "zero-copy-client"@) ==> (r matches Err(Error::InvalidConfig { message }) && message@
            == spec_invalid_transport_message(config.transport@)),
{
    proof {
        reveal_strlit("tcp-server");
        reveal_strlit("tcp-client");
        reveal_strlit("udp-server");
        reveal_strlit("udp-client");
        reveal_strlit("raw-server");
        reveal_strlit("raw-client");
        reveal_strlit("zero-copy-server");
        reveal_strlit("zero-copy-client");
        // Pin one distinguishing character of each name so the eight
        // names are known to be pairwise distinct.
        assert("tcp-server"@[0] == 't' && "tcp-server"@[4] == 's');
        assert("tcp-client"@[0] == 't' && "tcp-client"@[4] == 'c');
        assert("udp-server"@[0] == 'u' && "udp-server"@[4] == 's');
        assert("udp-client"@[0] == 'u' && "udp-client"@[4] == 'c');
        assert("raw-server"@[0] == 'r' && "raw-server"@[4] == 's');
        assert("raw-client"@[0] == 'r' && "raw-client"@[4] == 'c');
        assert("zero-copy-server"@[0] == 'z' && "zero-copy-server"@[10] == 's');
        assert("zero-copy-client"@[0] == 'z' && "zero-copy-client"@[10] == 'c');
    }
    if string_matches(&config.transport, "tcp-server") {
        match config.tcp_server {
            None => Err(missing_field("tcp_server")),
            Some(c) => Ok(SessionPlan::TcpServer { address: c.address }),
        }
    } else if string_matches(&config.transport, "tcp-client") {
        match config.client {
            None => Err(missing_field("client")),
            Some(cc) => match config.tcp_client {
                None => Err(missing_field("tcp_client")),
                Some(c) => Ok(SessionPlan::TcpClient { address: c.address, client: cc }),
            },
        }
    } else if string_matches(&config.transport, "udp-server") {
        match config.udp_server {
            None => Err(missing_field("udp_server")),
            Some(c) => Ok(SessionPlan::UdpServer { address: c.address }),
        }
    } else if string_matches(&config.transport, "udp-client") {
        match config.client {
            None => Err(missing_field("client")),
            Some(cc) => match config.udp_client {
                None => Err(missing_field("udp_client")),
                Some(c) => Ok(SessionPlan::UdpClient { address: c.address, client: cc }),
            },
        }
    } else if string_matches(&config.transport, "raw-server") {
        match config.raw_server {
            None => Err(missing_field("raw_server")),
            Some(c) => Ok(SessionPlan::RawServer { interface: c.interface }),
        }
    } else if string_matches(&config.transport, "raw-client") {
        match config.client {
            None => Err(missing_field("client")),
            Some(cc) => match config.raw_client {
                None => Err(missing_field("raw_client")),
                Some(c) => Ok(
                    SessionPlan::RawClient {
                        interface: c.interface,
                        address: SockAddrV4 { ip: c.address, port: 0 },
                        client: cc,
                    },
                ),
            },
        }
    } else if string_matches(&config.transport, "zero-copy-server") || string_matches(
        &config.transport,
        "zero-copy-client",
    ) {
        Err(unimplemented_transport(config.transport.as_str()))
    } else {
        Err(invalid_transport(config.transport.as_str()))
    }
}

/// The server-scoped session-id counter: ids are assigned starting at 1,
/// monotonically, and never reused. An id is consumed once a `Syn` has
/// been received, whether or not the rest of the handshake succeeds.
#[derive(Clone, Copy, Debug, PartialEq, Eq, Structural)]
pub struct SessionCounter {
    /// How many ids have been assigned so far.
    pub assigned: usize,
}

impl SessionCounter {
    pub fn new() -> (r: SessionCounter)
        ensures
            r.assigned == 0,
    {
        SessionCounter { assigned: 0 }
    }

    /// Assigns the next session id: one more than the count assigned so
    /// far, so a fresh counter yields 1, 2, 3, ... in order.
    pub fn next_session_id(&mut self) -> (id: usize)
        requires
            old(self).assigned < usize::MAX,
        ensures
            id == old(self).assigned + 1,
            final(self).assigned == old(self).assigned + 1,
    {
        self.assigned = self.assigned + 1;
        self.assigned
    }
}

/// The ids that a counter hands out, in order, over its first `n`
/// assignments.
pub open spec fn spec_session_ids(n: nat) -> Seq<nat>
    decreases n,
{
    if n == 0 {
        Seq::empty()
    } else {
        spec_session_ids((n - 1) as nat).push(n)
    }
}

/// Session id assignment: n sequential handshakes on one listener are
/// assigned exactly the ids 1 through n, in order; a handshake that
/// fails after its `Syn` was read still consumes its id exactly once.
pub proof fn lemma_session_ids_sequential(n: nat)
    ensures
        spec_session_ids(n).len() == n,
        forall|i: int| 0 <= i < n ==> spec_session_ids(n)[i] == i + 1,
    decreases n,
{
    if n > 0 {
        lemma_session_ids_sequential((n - 1) as nat);
    }
}

/// The responder's handshake filter: accepts exactly the `Syn` messages
/// and hands their contents on.
pub fn syn_filter(m: Message) -> (r: Option<Syn>)
    ensures
        (r matches Some(s) ==> m == Message::Syn(s)),
        (m matches Message::Syn(s) ==> r == Some(s)),
{
    match m {
        Message::Syn(s) => Some(s),
        _ => None,
    }
}

/// The initiator's handshake filter: accepts exactly the `SynAck`
/// messages and hands their contents on.
pub fn syn_ack_filter(m: Message) -> (r: Option<SynAck>)
    ensures
        (r matches Some(a) ==> m == Message::SynAck(a)),
        (m matches Message::SynAck(a) ==> r == Some(a)),
{
    match m {
        Message::SynAck(a) => Some(a),
        _ => None,
    }
}

/// One payload packet: exactly `n` zero bytes.
pub fn zero_payload(n: usize) -> (r: Vec<u8>)
    ensures
        r@.len() == n,
        forall|i: int| 0 <= i < n ==> r@[i] == 0,
{
    let mut r: Vec<u8> = Vec::new();
    let mut i: usize = 0;
    while i < n
        invariant
            i <= n,
            r@.len() == i,
            forall|j: int| 0 <= j < i ==> r@[j] == 0,
        decreases n - i,
    {
        r.push(0);
        i = i + 1;
    }
    r
}

/// The sender data loop: writes zero-filled `packet_size`-byte packets
/// until the plan's duration has elapsed. Outbound buffer exhaustion
/// retries the same write without counting it; a connection reset ends
/// the loop without error; any other failure propagates. Returns the
/// final counters, which only grow.
pub fn start_sender<Conn: Connection, L: TestListener>(connection: &mut Conn, test: Test<L>) -> (r:
    Result<TestData, Error>)
    requires
        test.options.wf(),
    ensures
        (r matches Ok(data) ==> data.id == test.data.id && data.plan == test.data.plan
            && data.total_transfer >= test.data.total_transfer && data.total_packets
            >= test.data.total_packets),
        (r matches Err(e) ==> e is Io),
        (r matches Err(Error::Io { error }) ==> error.kind != IoErrorKind::ConnectionReset
            && error.kind != IoErrorKind::NoBufferSpace),
{
    let mut test = test;
    let ghost id = test.data.id;
    let ghost plan = test.data.plan;
    let ghost transfer0 = test.data.total_transfer;
    let ghost packets0 = test.data.total_packets;
    let buffer = zero_payload(test.data.plan.packet_size);
    test.start();
    let mut budget: u64 = LOOP_BUDGET;
    loop
        invariant
            test.options.wf(),
            test.data.id == id,
            test.data.plan == plan,
            test.data.total_transfer >= transfer0,
            test.data.total_packets >= packets0,
        decreases budget,
    {
        if budget == 0 {
            break ;
        }
        budget = budget - 1;
        match connection.write(&buffer) {
            Ok(written) => {
                test.transferred(written);
                if test.elapsed() > test.data.plan.duration_ms {
                    break ;
                }
            },
            Err(e) => {
                match e.kind {
                    IoErrorKind::ConnectionReset => {
                        break ;
                    },
                    IoErrorKind::NoBufferSpace => {
                        // transient: retry the same write, counting nothing
                    },
                    _ => {
                        return Err(Error::Io { error: e });
                    },
                }
            },
        }
    }
    test.finish();
    Ok(test.data)
}

/// The receiver data loop: reads packets and counts them until a read
/// returns exactly the transport's framing bytes with zero payload,
/// which signals end-of-stream. Returns the final counters.
pub fn start_receiver<Conn: Connection, L: TestListener>(connection: &mut Conn, test: Test<L>) -> (
    r: Result<TestData, Error>)
    requires
        test.options.wf(),
    ensures
        (r matches Ok(data) ==> data.id == test.data.id && data.plan == test.data.plan
            && data.total_transfer >= test.data.total_transfer && data.total_packets
            >= test.data.total_packets),
        (r matches Err(e) ==> e is Io),
{
    let mut test = test;
    let ghost id = test.data.id;
    let ghost plan = test.data.plan;
    let ghost transfer0 = test.data.total_transfer;
    let ghost packets0 = test.data.total_packets;
    let header_size = Conn::header_size();
    let max_read = header_size.saturating_add(test.data.plan.packet_size);
    test.start();
    let mut budget: u64 = LOOP_BUDGET;
    loop
        invariant
            test.options.wf(),
            test.data.id == id,
            test.data.plan == plan,
            test.data.total_transfer >= transfer0,
            test.data.total_packets >= packets0,
        decreases budget,
    {
        if budget == 0 {
            break ;
        }
        budget = budget - 1;
        let data = match connection.read(max_read) {
            Ok(d) => d,
            Err(e) => {
                return Err(Error::Io { error: e });
            },
        };
        if data.len() == header_size {
            break ;
        }
        test.transferred(data.len());
    }
    test.finish();
    Ok(test.data)
}

/// The responder side of one accepted connection: reads until a `Syn`
/// arrives (discarding everything else), consumes the next session id,
/// echoes the plan in a `SynAck`, and runs the data phase in the role
/// opposite to the mode the `Syn` carries. The id is consumed exactly
/// once, after the `Syn` is read, whether or not the rest succeeds.
pub fn handle_session<Conn: Connection, L: TestListener>(
    connection: Conn,
    counter: &mut SessionCounter,
    options: TestOptions<L>,
) -> (r: Result<TestData, Error>)
    requires
        options.wf(),
        old(counter).assigned < usize::MAX,
    ensures
        final(counter).assigned == old(counter).assigned + 1 || (r is Err
            && final(counter).assigned == old(counter).assigned),
        (r matches Ok(data) ==> data.id == old(counter).assigned + 1),
        (r matches Ok(data) ==> exists|m: Message, syn: Syn|
            call_ensures(syn_filter, (m,), Some(syn)) && data.plan == syn.options),
        (r matches Err(Error::Message { source }) ==> source is Io),
        (r matches Err(e) ==> e is Io || e is Message),
{
    let mut connection = connection;
    let mut reader = MessageReader::new(connection.clone());
    let mut writer = MessageWriter::new(connection.clone());

    let syn = match reader.read_until(syn_filter) {
        Ok(s) => s,
        Err(e) => {
            return Err(Error::Message { source: e });
        },
    };

    let test_id = counter.next_session_id();

    let syn_ack = Message::SynAck(SynAck { test_id, test_plan: syn.options });
    if let Err(e) = writer.write(syn_ack) {
        return Err(Error::Message { source: e });
    }

    let test = Test::new(TestData::new(test_id, syn.options), options);
    match syn.mode {
        TransportMode::Send => start_receiver(&mut connection, test),
        TransportMode::Receive => start_sender(&mut connection, test),
    }
}

/// The initiator side: connect, send `Syn` with the requested mode and
/// plan, block until the matching `SynAck` arrives (no timeout, by
/// design: the benchmark has not started), then run the data phase in
/// the requested mode under the plan the `SynAck` echoes.
pub fn start_client<C: Client<Conn>, Conn: Connection, L: TestListener>(
    client: C,
    client_config: ClientConfig,
    test_options: TestOptions<L>,
) -> (r: Result<TestData, Error>)
    requires
        test_options.wf(),
    ensures
        (r matches Ok(data) ==> exists|m: Message|
            call_ensures(
                syn_ack_filter,
                (m,),
                Some(SynAck { test_id: data.id, test_plan: data.plan }),
            )),
        (r matches Err(Error::Message { source }) ==> source is Io),
        (r matches Err(e) ==> e is Io || e is Message),
{
    let mut connection = match client.connect() {
        Ok(c) => c,
        Err(e) => {
            return Err(Error::Io { error: e });
        },
    };
    let mut reader = MessageReader::new(connection.clone());
    let mut writer = MessageWriter::new(connection.clone());

    let syn = Message::Syn(Syn { mode: client_config.mode, options: client_config.test_plan });
    if let Err(e) = writer.write(syn) {
        return Err(Error::Message { source: e });
    }

    let syn_ack = match reader.read_until(syn_ack_filter) {
        Ok(a) => a,
        Err(e) => {
            return Err(Error::Message { source: e });
        },
    };

    let test = Test::new(TestData::new(syn_ack.test_id, syn_ack.test_plan), test_options);
    match client_config.mode {
        TransportMode::Send => start_sender(&mut connection, test),
        TransportMode::Receive => start_receiver(&mut connection, test),
    }
}

} // verus!
