use serial_mcp_server::broker::read_size_refusal;
use serial_mcp_server::broker::{
    broker_io_error, map_broker_error, serial_error_code, BrokerClient, BrokerConnectionManager, BrokerError,
    BrokerRefusal, BufferRead, ConnectionLifecycle, ConnectionTable, OpenPlan, ReceiveBuffer, SHARED_RX_CAPACITY,
};
use serial_mcp_server::serial::connection::{ConnectionConfig, DataBits, FlowControl, Parity, StopBits};
use serial_mcp_server::serial::error::LocalSerialError;

fn config(port: &str, baud_rate: u32) -> ConnectionConfig {
    ConnectionConfig {
        port: port.to_string(),
        baud_rate,
        data_bits: DataBits::Eight,
        stop_bits: StopBits::One,
        parity: Parity::NoParity,
        flow_control: FlowControl::NoFlowControl,
    }
}

fn data(read: BufferRead) -> Vec<u8> {
    match read {
        BufferRead::Data(d) => d,
        BufferRead::Empty => panic!("expected data, got an empty buffer"),
        BufferRead::Closed => panic!("expected data, got a closed buffer"),
    }
}

#[test]
fn shared_receive_buffer_delivers_bytes_once_in_order() {
    let mut buffer = ReceiveBuffer::new();
    assert!(buffer.push(b"abc"));
    assert!(buffer.push(b"def"));
    assert_eq!(data(buffer.take(4)), b"abcd".to_vec());
    assert_eq!(data(buffer.take(10)), b"ef".to_vec());
    assert!(matches!(buffer.take(10), BufferRead::Empty));
}

#[test]
fn closing_shared_buffer_discards_unconsumed_bytes() {
    let mut buffer = ReceiveBuffer::new();
    assert!(buffer.push(b"stale"));
    buffer.close();
    assert!(matches!(buffer.take(10), BufferRead::Closed));
    assert!(!buffer.push(b"late"));
    assert!(matches!(buffer.take(10), BufferRead::Closed));
}

#[test]
fn shared_buffer_keeps_the_newest_bytes_at_capacity() {
    let mut buffer = ReceiveBuffer::new();
    let big = vec![1u8; SHARED_RX_CAPACITY];
    assert!(buffer.push(&big));
    assert!(buffer.push(&[2, 3]));
    let first = data(buffer.take(SHARED_RX_CAPACITY));
    assert_eq!(first.len(), SHARED_RX_CAPACITY);
    assert_eq!(&first[SHARED_RX_CAPACITY - 2..], &[2, 3]);
    assert!(matches!(buffer.take(1), BufferRead::Empty));
}

#[test]
fn reopening_a_port_reuses_or_conflicts() {
    let mut table = ConnectionTable::new();
    let settings = config("COM3", 9600);
    assert!(matches!(table.plan_open(&settings), OpenPlan::OpenNew));
    table.complete_open("conn-1".to_string(), settings.clone());
    assert_eq!(table.len(), 1);
    assert!(table.contains("conn-1"));
    assert!(matches!(table.plan_open(&config("COM3", 9600)), OpenPlan::Reuse(id) if id == "conn-1"));
    assert!(matches!(table.plan_open(&config("COM3", 115200)), OpenPlan::Conflict(_)));
    assert!(matches!(table.plan_open(&config("COM4", 9600)), OpenPlan::OpenNew));
    assert_eq!(table.list()[0].lifecycle, ConnectionLifecycle::Open);
}

#[test]
fn close_gate_rejects_late_operations() {
    let mut table = ConnectionTable::new();
    table.complete_open("connection".to_string(), config("COM3", 9600));
    assert!(table.begin_operation("connection").is_ok());
    assert!(matches!(table.begin_close("connection", false), Err(_)));
    assert!(table.begin_operation("connection").is_ok());
    assert!(table.begin_close("connection", true).is_ok());
    assert!(matches!(table.begin_operation("connection"), Err(LocalSerialError::InvalidConnection(_))));
    table.finish_close("connection");
    assert!(!table.contains("connection"));
    assert!(matches!(
        table.begin_operation("connection"),
        Err(LocalSerialError::InvalidConnection(m)) if m == "connection"
    ));
    assert!(matches!(
        table.begin_close("missing", true),
        Err(BrokerRefusal::Serial(LocalSerialError::InvalidConnection(m))) if m == "missing"
    ));
}

#[test]
fn broker_errors_map_back_to_serial_errors() {
    let error = |code: &str, message: &str| {
        map_broker_error(Some(BrokerError { code: code.to_string(), message: message.to_string() }))
    };
    assert!(matches!(error("read_timeout", "x"), LocalSerialError::ReadTimeout));
    assert!(matches!(error("invalid_connection", "c1"), LocalSerialError::InvalidConnection(m) if m == "c1"));
    assert!(matches!(error("connection_exists", "COM3"), LocalSerialError::ConnectionExists(m) if m == "COM3"));
    assert!(matches!(error("connection_busy", "busy"), LocalSerialError::ConnectionFailed(m) if m == "busy"));
    assert!(matches!(error("invalid_baud_rate", "bad"), LocalSerialError::InvalidConfig(m) if m == "bad"));
    assert!(matches!(error("other", "why"), LocalSerialError::InvalidConfig(m) if m == "why"));
    assert!(matches!(
        map_broker_error(None),
        LocalSerialError::InvalidConfig(m) if m == "Unknown broker error"
    ));
    assert_eq!(serial_error_code(&LocalSerialError::ReadTimeout), "read_timeout");
    assert_eq!(serial_error_code(&LocalSerialError::InvalidBaudRate(7)), "invalid_baud_rate");
}

#[test]
fn unreachable_brokers_are_connection_failures() {
    assert!(matches!(
        broker_io_error("127.0.0.1:9", "connection refused"),
        LocalSerialError::ConnectionFailed(m) if m == "Cannot reach shared serial broker at 127.0.0.1:9: connection refused"
    ));
}

#[test]
fn clients_address_the_broker() {
    let client = BrokerClient::new(None);
    assert_eq!(client.address(), "127.0.0.1:47832");
    let client = BrokerClient::at("10.1.1.1:5".to_string());
    assert_eq!(client.address(), "10.1.1.1:5");
    let manager = BrokerConnectionManager::new(client);
    let connection = manager.connection("conn-7".to_string());
    assert_eq!(connection.id(), "conn-7");
    assert_eq!(connection.client().address(), "10.1.1.1:5");
}

#[test]
fn read_sizes_out_of_bounds_are_refused_as_invalid_config() {
    assert!(read_size_refusal(1).is_none());
    assert!(read_size_refusal(65_536).is_none());
    match read_size_refusal(0) {
        Some(BrokerRefusal::Failure { code, message }) => {
            assert_eq!(code, "invalid_config");
            assert_eq!(message, "max_bytes must be greater than zero");
        }
        other => panic!("unexpected refusal: {other:?}"),
    }
    match read_size_refusal(65_537) {
        Some(BrokerRefusal::Failure { code, message }) => {
            assert_eq!(code, "invalid_config");
            assert_eq!(message, "max_bytes must not exceed 65536");
        }
        other => panic!("unexpected refusal: {other:?}"),
    }
}

#[test]
fn tables_stay_well_formed() {
    let mut table = ConnectionTable::new();
    table.check_well_formed();
    table.complete_open("a".to_string(), config("COM1", 9600));
    table.complete_open("b".to_string(), config("COM2", 9600));
    table.check_well_formed();
    assert_eq!(table.list().len(), 2);
}

#[test]
fn close_gate_waits_for_in_flight_operation_and_rejects_late_operations() {
    let mut table = ConnectionTable::new();
    table.complete_open("connection".to_string(), config("COM7", 9600));
    table.begin_operation("connection").unwrap();
    assert!(table.begin_close("connection", false).is_err());
    table.begin_close("connection", true).expect("a drained close must succeed");
    assert!(matches!(table.begin_operation("connection"), Err(LocalSerialError::InvalidConnection(_))));
}

#[test]
fn close_gate_timeout_preserves_open_connection_state() {
    let mut table = ConnectionTable::new();
    table.complete_open("connection".to_string(), config("COM8", 9600));
    table.begin_operation("connection").unwrap();
    assert!(matches!(
        table.begin_close("connection", false),
        Err(BrokerRefusal::Failure { code, .. }) if code == "connection_busy"
    ));
    table.begin_operation("connection").expect("a timed-out close must leave the connection open");
    assert_eq!(table.list()[0].lifecycle, ConnectionLifecycle::Open);
}
