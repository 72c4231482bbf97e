use serial_mcp_server::automation::dsl::{
    AssemblyDefinition, AssemblyStep, DataRecord, DelayStep, Encoding, ExpectOperation, ExpectStep,
    MacroCallStep, MacroDefinition, MacroPack, MacroStep, SendStep,
};
use serial_mcp_server::automation::error::AutomationError;
use serial_mcp_server::automation::transport::{MacroTransport, SimulatedMacroTransport};
use serial_mcp_server::automation::validation::validate_pack;
use serial_mcp_server::broker::MAX_READ_BYTES;

fn send(data: &str) -> MacroStep {
    MacroStep::Send(SendStep { data: data.to_string(), encoding: Encoding::Utf8 })
}

fn expect(op: ExpectOperation, data: &str, idle_ms: u64, trim: bool, max_bytes: usize) -> MacroStep {
    MacroStep::Expect(ExpectStep {
        op,
        data: data.to_string(),
        encoding: Encoding::Utf8,
        timeout_ms: 1000,
        idle_ms,
        max_bytes,
        trim,
    })
}

fn macro_named(name: &str, steps: Vec<MacroStep>) -> MacroDefinition {
    MacroDefinition { name: name.to_string(), description: None, steps }
}

fn call(name: &str) -> AssemblyStep {
    AssemblyStep::Macro(MacroCallStep { name: name.to_string() })
}

fn pack(name: &str, macros: Vec<MacroDefinition>, assemblies: Vec<AssemblyDefinition>) -> MacroPack {
    MacroPack {
        schema_version: "0.3".to_string(),
        name: name.to_string(),
        description: None,
        macros,
        assemblies,
    }
}

fn ping_pack() -> MacroPack {
    let mut p = pack(
        "ping-pack",
        vec![
            macro_named(
                "ping",
                vec![
                    send("PING\n"),
                    MacroStep::Delay(DelayStep { ms: 5 }),
                    expect(ExpectOperation::Contains, "PONG", 50, false, 1024),
                ],
            ),
            macro_named("status", vec![send("STATUS\n"), expect(ExpectOperation::Equals, "OK", 10, true, 1024)]),
        ],
        vec![AssemblyDefinition {
            name: "boot-check".to_string(),
            description: None,
            steps: vec![call("ping"), call("status")],
        }],
    );
    p.description = Some("serial handshake".to_string());
    p
}

#[test]
fn macro_dsl_valid_pack_lists_targets() {
    let inventory = validate_pack(&ping_pack()).expect("pack should validate");

    assert_eq!(inventory.schema_version, "0.3");
    assert_eq!(inventory.name, "ping-pack");
    assert_eq!(inventory.macros, vec!["ping", "status"]);
    assert_eq!(inventory.assemblies, vec!["boot-check"]);
}

#[test]
fn macro_dsl_rejects_invalid_packs_before_execution() {
    let duplicate_pack = pack(
        "bad-pack",
        vec![macro_named("ping", vec![send("A")]), macro_named("ping", vec![send("B")])],
        vec![],
    );
    assert!(validate_pack(&duplicate_pack).is_err());

    let reference_pack = pack(
        "bad-pack",
        vec![macro_named("ping", vec![send("A")])],
        vec![AssemblyDefinition { name: "boot".to_string(), description: None, steps: vec![call("missing")] }],
    );
    assert!(validate_pack(&reference_pack).is_err());
}

#[test]
fn macro_dsl_enforces_expect_max_bytes_without_hardware() {
    let pack_with_max_bytes = |max_bytes| {
        pack(
            "read-bounds",
            vec![macro_named("bounded-read", vec![expect(ExpectOperation::Contains, "OK", 50, false, max_bytes)])],
            vec![],
        )
    };

    validate_pack(&pack_with_max_bytes(1)).expect("one byte should be accepted");
    validate_pack(&pack_with_max_bytes(MAX_READ_BYTES)).expect("the shared read limit should be accepted");

    for (max_bytes, expected_message) in [
        (0, "max_bytes must be greater than zero".to_string()),
        (MAX_READ_BYTES + 1, format!("max_bytes must not exceed {MAX_READ_BYTES}")),
    ] {
        let error = validate_pack(&pack_with_max_bytes(max_bytes)).expect_err("out-of-range max_bytes should be rejected");
        match error {
            AutomationError::Validation { field, message } => {
                assert_eq!(field, "macros[0].steps[0].max_bytes");
                assert_eq!(message, expected_message);
            }
            other => panic!("expected validation error, got {other:?}"),
        }
    }
}

fn validation_error(p: &MacroPack) -> (String, String) {
    match validate_pack(p) {
        Err(AutomationError::Validation { field, message }) => (field, message),
        other => panic!("expected validation error, got {other:?}"),
    }
}

#[test]
fn validation_names_the_first_offending_field() {
    let (field, message) = validation_error(&pack(
        "p",
        vec![macro_named("ping", vec![send("A")]), macro_named("ping", vec![send("B")])],
        vec![],
    ));
    assert_eq!(field, "macros[1].name");
    assert_eq!(message, "duplicate macro name ping");

    let (field, message) = validation_error(&pack(
        "p",
        vec![macro_named("ping", vec![send("A")])],
        vec![AssemblyDefinition { name: "boot".to_string(), description: None, steps: vec![call("ping"), call("missing")] }],
    ));
    assert_eq!(field, "assemblies[0].steps[1].name");
    assert_eq!(message, "unknown macro reference missing");

    let (field, message) = validation_error(&pack(
        "p",
        vec![macro_named("ping", vec![send("A")])],
        vec![AssemblyDefinition { name: "ping".to_string(), description: None, steps: vec![call("ping")] }],
    ));
    assert_eq!(field, "assemblies[0].name");
    assert_eq!(message, "assembly name ping conflicts with a macro");

    let (field, message) = validation_error(&pack("  ", vec![macro_named("ping", vec![send("A")])], vec![]));
    assert_eq!(field, "name");
    assert_eq!(message, "value must not be empty");

    let mut wrong_version = pack("p", vec![macro_named("ping", vec![send("A")])], vec![]);
    wrong_version.schema_version = "0.2".to_string();
    let (field, message) = validation_error(&wrong_version);
    assert_eq!(field, "schema_version");
    assert_eq!(message, "expected schema version 0.3");

    let (field, message) = validation_error(&pack("p", vec![], vec![]));
    assert_eq!(field, "macros");
    assert_eq!(message, "at least one macro is required");

    let (field, message) = validation_error(&pack("p", vec![macro_named("ping", vec![])], vec![]));
    assert_eq!(field, "macros[0].steps");
    assert_eq!(message, "macro steps must not be empty");
}

#[test]
fn undecodable_data_is_an_encoding_error_at_its_field() {
    let bad_hex = pack(
        "p",
        vec![macro_named(
            "ping",
            vec![MacroStep::Send(SendStep { data: "zz".to_string(), encoding: Encoding::Hex })],
        )],
        vec![],
    );
    match validate_pack(&bad_hex) {
        Err(AutomationError::Encoding { field, .. }) => assert_eq!(field, "macros[0].steps[0].data"),
        other => panic!("expected encoding error, got {other:?}"),
    }
}

#[test]
fn encodings_decode_and_encode_data() {
    assert_eq!(Encoding::Hex.decode("50 49", "f").unwrap(), b"PI".to_vec());
    assert_eq!(Encoding::Base64.decode("UEk=", "f").unwrap(), b"PI".to_vec());
    assert_eq!(Encoding::Base64.decode("UEk", "f").unwrap(), b"PI".to_vec());
    assert_eq!(Encoding::Hex.encode(b"PI", "f").unwrap(), "5049");
    assert_eq!(Encoding::Utf8.as_str(), "utf8");
    assert!(matches!(Encoding::Utf8.encode(&[0xff], "f"), Err(AutomationError::Encoding { field, .. }) if field == "f"));
    let record = DataRecord::from_bytes(&[0xff, 0x00]);
    assert_eq!(record.encoding, Encoding::Hex);
    assert_eq!(record.data, "ff00");
    let record = DataRecord::from_bytes(b"OK");
    assert_eq!(record.encoding, Encoding::Utf8);
    assert_eq!(record.data, "OK");
}

#[test]
fn simulated_transport_replays_reads_and_records_writes() {
    let mut transport = SimulatedMacroTransport::new(vec![b"noise PONG\r\n".to_vec(), b"OK\n".to_vec()]);
    assert_eq!(transport.write(b"PING\n").unwrap(), 5);
    assert_eq!(transport.read(4, 100).unwrap(), b"nois".to_vec());
    assert_eq!(transport.read(1024, 100).unwrap(), b"OK\n".to_vec());
    assert!(transport.read(1024, 100).unwrap().is_empty());
    assert_eq!(transport.write(b"STATUS\n").unwrap(), 7);
    assert_eq!(transport.writes(), &[b"PING\n".to_vec(), b"STATUS\n".to_vec()]);
}
