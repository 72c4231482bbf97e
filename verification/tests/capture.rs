use serial_mcp_server::serial::connection::{check_baud_rate, reconfigure};
use serial_mcp_server::serial::capture::{
    next_timeout_ms, remaining_ms, elapsed_between_ms, CaptureCompletionReason, CaptureConfig, CaptureReport,
    CaptureSession, CaptureStartTrigger, CaptureStep,
};
use serial_mcp_server::serial::error::{IoErrorKind, LocalSerialError};

fn config() -> CaptureConfig {
    CaptureConfig {
        timeout_ms: 1,
        max_bytes: 1024,
        duration_ms: 3,
        start_trigger: CaptureStartTrigger::Immediate,
        initial_timeout_ms: None,
        idle_timeout_ms: None,
    }
}

/// Drives a capture with scripted reads: each read delivers the next chunk
/// (cut to what the capture accepts) one millisecond later, or times out
/// after its full wait when the script is used up.
fn run(config: CaptureConfig, chunks: Vec<&[u8]>) -> CaptureReport {
    let mut session = CaptureSession::start(config).expect("valid configuration");
    let mut script = chunks.into_iter();
    let mut now: u64 = 0;
    loop {
        match session.next_step(now) {
            CaptureStep::Finish(reason) => return session.finish(reason, now),
            CaptureStep::Retry => panic!("a valid capture never spins"),
            CaptureStep::Read { timeout_ms, max_len } => match script.next() {
                Some(chunk) => {
                    now += 1;
                    let n = chunk.len().min(max_len);
                    session.record_chunk(&chunk[..n], now).expect("non-empty chunk");
                }
                None => now += timeout_ms,
            },
        }
    }
}

#[test]
fn immediate_capture_continues_after_first_chunk() {
    let report = run(config(), vec![b"one", b"two"]);
    assert_eq!(report.data, b"onetwo");
    assert_eq!(report.completion_reason, CaptureCompletionReason::DurationElapsed);
    assert_eq!(report.chunks.len(), 2);
    assert_eq!(report.chunks[0].offset, 0);
    assert_eq!(report.chunks[1].offset, 3);
}

#[test]
fn first_byte_mode_reports_initial_timeout_without_data() {
    let mut capture_config = config();
    capture_config.start_trigger = CaptureStartTrigger::FirstByte;
    capture_config.initial_timeout_ms = Some(2);
    let report = run(capture_config, vec![]);
    assert_eq!(report.data, b"");
    assert_eq!(report.completion_reason, CaptureCompletionReason::InitialTimeout);
    assert_eq!(report.elapsed_ms, 0);
    assert_eq!(report.waited_ms, 2);
}

#[test]
fn idle_timeout_stops_after_capture_starts() {
    let mut capture_config = config();
    capture_config.duration_ms = 50;
    capture_config.idle_timeout_ms = Some(2);
    let report = run(capture_config, vec![b"one"]);
    assert_eq!(report.data, b"one");
    assert_eq!(report.completion_reason, CaptureCompletionReason::IdleTimeout);
}

#[test]
fn max_bytes_stops_and_truncates_chunk() {
    let mut capture_config = config();
    capture_config.max_bytes = 2;
    let report = run(capture_config, vec![b"abcdef"]);
    assert_eq!(report.data, b"ab");
    assert_eq!(report.bytes_read(), 2);
    assert_eq!(report.completion_reason, CaptureCompletionReason::MaxBytes);
    assert_eq!(report.chunks[0].bytes_read, 2);
}

#[test]
fn zero_byte_read_reports_unexpected_eof() {
    let mut session = CaptureSession::start(config()).unwrap();
    match session.record_chunk(&[], 1) {
        Err(LocalSerialError::IoError(kind, _)) => assert_eq!(kind, IoErrorKind::UnexpectedEof),
        other => panic!("expected UnexpectedEof, got {other:?}"),
    }
}

#[test]
fn first_byte_starts_the_window() {
    let mut capture_config = config();
    capture_config.start_trigger = CaptureStartTrigger::FirstByte;
    capture_config.initial_timeout_ms = Some(100);
    capture_config.duration_ms = 10;
    let mut session = CaptureSession::start(capture_config).unwrap();
    assert!(matches!(session.next_step(40), CaptureStep::Read { timeout_ms: 1, max_len: 1024 }));
    session.record_chunk(b"x", 40).unwrap();
    assert!(matches!(session.next_step(49), CaptureStep::Read { .. }));
    let report = match session.next_step(50) {
        CaptureStep::Finish(reason) => session.finish(reason, 50),
        other => panic!("expected the window to end, got {other:?}"),
    };
    assert_eq!(report.completion_reason, CaptureCompletionReason::DurationElapsed);
    assert_eq!(report.waited_ms, 40);
    assert_eq!(report.elapsed_ms, 10);
    assert_eq!(report.chunks[0].waited_ms, 40);
    assert_eq!(report.chunks[0].elapsed_ms, 0);
}

#[test]
fn invalid_windows_are_refused() {
    let mut capture_config = config();
    capture_config.duration_ms = 0;
    match CaptureSession::start(capture_config) {
        Err(LocalSerialError::InvalidConfig(m)) => assert_eq!(m, "duration_ms must be greater than zero"),
        _ => panic!("expected an invalid configuration"),
    }
    capture_config.duration_ms = 5;
    capture_config.timeout_ms = 0;
    assert!(capture_config.validate().is_err());
}

#[test]
fn read_waits_shrink_near_the_deadlines() {
    let mut capture_config = config();
    capture_config.timeout_ms = 100;
    capture_config.duration_ms = 30;
    capture_config.idle_timeout_ms = Some(8);
    assert_eq!(next_timeout_ms(&capture_config, Some(0), None, 10), 20);
    assert_eq!(next_timeout_ms(&capture_config, Some(0), Some(10), 12), 6);
    capture_config.initial_timeout_ms = Some(50);
    assert_eq!(capture_config.effective_initial_timeout_ms(), 50);
    assert_eq!(next_timeout_ms(&capture_config, None, None, 45), 5);
    assert_eq!(remaining_ms(10, 5, 30), 0);
    assert_eq!(remaining_ms(10, 50, 30), 30);
    assert_eq!(elapsed_between_ms(30, 10), 0);
    assert_eq!(elapsed_between_ms(10, 30), 20);
}

#[test]
fn open_ports_cannot_change_their_baud_rate() {
    assert!(reconfigure(None).is_ok());
    assert!(matches!(reconfigure(Some(0)), Err(LocalSerialError::InvalidBaudRate(0))));
    assert!(matches!(reconfigure(Some(4_000_001)), Err(LocalSerialError::InvalidBaudRate(4_000_001))));
    assert!(matches!(
        reconfigure(Some(9600)),
        Err(LocalSerialError::InvalidConfig(m))
            if m == "Runtime reconfiguration not supported. Please close and reopen the connection."
    ));
    assert!(check_baud_rate(4_000_000).is_ok());
}

#[test]
fn sessions_stay_well_formed_while_reading() {
    let mut session = CaptureSession::start(config()).unwrap();
    session.check_well_formed();
    session.record_chunk(b"ab", 1).unwrap();
    session.check_well_formed();
    assert_eq!(session.remaining_capacity(), 1022);
}
