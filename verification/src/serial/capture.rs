//! Capture windows: collecting serial data over a period of time.
//!
//! A capture alternates between deciding what to do next and reading from
//! the port. [`CaptureSession`] makes every decision; the caller performs the
//! reads and supplies the clock, as milliseconds since the capture began.

use vstd::prelude::*;
use crate::serial::error::{IoErrorKind, LocalSerialError};

verus! {

/// When a capture window starts.
#[derive(Debug, Clone, Copy, PartialEq, Eq, Structural)]
pub enum CaptureStartTrigger {
    /// As soon as the capture is requested.
    Immediate,
    /// When the first byte arrives.
    FirstByte,
}

impl Default for CaptureStartTrigger {
    fn default() -> (r: Self)
        ensures
            r == CaptureStartTrigger::FirstByte,
    {
        CaptureStartTrigger::FirstByte
    }
}

impl CaptureStartTrigger {
    /// The name under which the trigger is shown to users.
    pub fn display_name(self) -> (r: &'static str)
        ensures
            r@ == match self {
                CaptureStartTrigger::Immediate => "immediate"@,
                CaptureStartTrigger::FirstByte => "first-byte"@,
            },
    {
        match self {
            CaptureStartTrigger::Immediate => "immediate",
            CaptureStartTrigger::FirstByte => "first-byte",
        }
    }
}

/// Why a capture ended.
#[derive(Debug, Clone, Copy, PartialEq, Eq, Structural)]
pub enum CaptureCompletionReason {
    DurationElapsed,
    InitialTimeout,
    IdleTimeout,
    MaxBytes,
}

/// One successful read during a capture.
#[derive(Debug, Clone, Copy, PartialEq, Eq, Structural)]
pub struct CaptureChunk {
    /// Position of the chunk's first byte in the captured data.
    pub offset: usize,
    /// Number of bytes the read returned.
    pub bytes_read: usize,
    /// Milliseconds since the capture was requested.
    pub waited_ms: u64,
    /// Milliseconds since the capture window started.
    pub elapsed_ms: u64,
}

/// The parameters of a capture.
#[derive(Debug, Clone, Copy, PartialEq, Eq, Structural)]
pub struct CaptureConfig {
    /// Longest wait of a single read.
    pub timeout_ms: u64,
    /// Most bytes to collect.
    pub max_bytes: usize,
    /// Length of the capture window.
    pub duration_ms: u64,
    pub start_trigger: CaptureStartTrigger,
    /// Longest wait for the first byte in first-byte mode (default: `timeout_ms`).
    pub initial_timeout_ms: Option<u64>,
    /// Quiet period after which a started capture ends.
    pub idle_timeout_ms: Option<u64>,
}

/// The first problem of a capture configuration, if any.
pub open spec fn capture_config_problem(c: CaptureConfig) -> Option<Seq<char>> {
    if c.timeout_ms == 0 {
        Some("timeout_ms must be greater than zero"@)
    } else if c.max_bytes == 0 {
        Some("max_bytes must be greater than zero"@)
    } else if c.duration_ms == 0 {
        Some("duration_ms must be greater than zero"@)
    } else if c.initial_timeout_ms == Some(0u64) {
        Some("initial_timeout_ms must be greater than zero"@)
    } else if c.idle_timeout_ms == Some(0u64) {
        Some("idle_timeout_ms must be greater than zero"@)
    } else {
        None
    }
}

/// The wait for the first byte: the initial timeout, or else the read timeout.
pub open spec fn initial_timeout_of(c: CaptureConfig) -> u64 {
    match c.initial_timeout_ms {
        Some(t) => t,
        None => c.timeout_ms,
    }
}

impl CaptureConfig {
    /// Checks that every duration and the byte limit are positive.
    pub fn validate(&self) -> (r: Result<(), LocalSerialError>)
        ensures
            r is Ok <==> capture_config_problem(*self) is None,
            r matches Err(e) ==> (e matches LocalSerialError::InvalidConfig(m)
                && Some(m@) == capture_config_problem(*self)),
    {
        if self.timeout_ms == 0 {
            return Err(LocalSerialError::InvalidConfig(String::from_str("timeout_ms must be greater than zero")));
        }
        if self.max_bytes == 0 {
            return Err(LocalSerialError::InvalidConfig(String::from_str("max_bytes must be greater than zero")));
        }
        if self.duration_ms == 0 {
            return Err(LocalSerialError::InvalidConfig(String::from_str("duration_ms must be greater than zero")));
        }
        if self.initial_timeout_ms == Some(0u64) {
            return Err(LocalSerialError::InvalidConfig(String::from_str("initial_timeout_ms must be greater than zero")));
        }
        if self.idle_timeout_ms == Some(0u64) {
            return Err(LocalSerialError::InvalidConfig(String::from_str("idle_timeout_ms must be greater than zero")));
        }
        Ok(())
    }

    /// The wait for the first byte in first-byte mode.
    pub fn effective_initial_timeout_ms(&self) -> (r: u64)
        ensures
            r == initial_timeout_of(*self),
    {
        match self.initial_timeout_ms {
            Some(t) => t,
            None => self.timeout_ms,
        }
    }
}

/// The result of a capture.
#[derive(Debug, Clone)]
pub struct CaptureReport {
    pub data: Vec<u8>,
    pub chunks: Vec<CaptureChunk>,
    /// Milliseconds from the request to the start of the window (or to the
    /// end, if the window never started).
    pub waited_ms: u64,
    /// Milliseconds the window was open.
    pub elapsed_ms: u64,
    pub completion_reason: CaptureCompletionReason,
}

impl CaptureReport {
    /// The number of captured bytes.
    pub fn bytes_read(&self) -> (r: usize)
        ensures
            r == self.data@.len(),
    {
        self.data.len()
    }
}

/// Milliseconds from `since` to `now` (zero if the clock reads earlier).
pub open spec fn elapsed(since: u64, now: u64) -> u64 {
    if now >= since { (now - since) as u64 } else { 0 }
}

/// What is left of `limit_ms` milliseconds counted from `since`.
pub open spec fn remaining_of(since: u64, limit_ms: u64, now: u64) -> u64 {
    if limit_ms >= elapsed(since, now) { (limit_ms - elapsed(since, now)) as u64 } else { 0 }
}

/// The lesser of two numbers.
pub open spec fn min_u64(a: u64, b: u64) -> u64 {
    if a <= b { a } else { b }
}

/// The wait of the next read: the read timeout, cut to the time left in the
/// window and before the idle boundary once the window started, or to the
/// time left for the first byte before it.
pub open spec fn read_timeout_at(c: CaptureConfig, started: Option<u64>, last: Option<u64>, now: u64) -> u64 {
    match started {
        Some(s) => {
            let t = min_u64(c.timeout_ms, remaining_of(s, c.duration_ms, now));
            match (c.idle_timeout_ms, last) {
                (Some(i), Some(l)) => min_u64(t, remaining_of(l, i, now)),
                _ => t,
            }
        },
        None => min_u64(c.timeout_ms, remaining_of(0, initial_timeout_of(c), now)),
    }
}

/// What a capture does next.
#[derive(Debug, Clone, Copy, PartialEq, Eq, Structural)]
pub enum CaptureStep {
    /// The capture is over for this reason.
    Finish(CaptureCompletionReason),
    /// Read at most `max_len` bytes, waiting at most `timeout_ms`.
    Read { timeout_ms: u64, max_len: usize },
    /// No time is left for a read; decide again.
    Retry,
}

/// The next step of a capture that collected `len` bytes, whose window
/// started at `started` and whose last chunk arrived at `last`, at time `now`.
pub open spec fn step_at(c: CaptureConfig, len: usize, started: Option<u64>, last: Option<u64>, now: u64) -> CaptureStep {
    if len >= c.max_bytes {
        CaptureStep::Finish(CaptureCompletionReason::MaxBytes)
    } else if started is Some && elapsed(started->0, now) >= c.duration_ms {
        CaptureStep::Finish(CaptureCompletionReason::DurationElapsed)
    } else if started is Some && c.idle_timeout_ms is Some && last is Some
        && elapsed(last->0, now) >= c.idle_timeout_ms->0 {
        CaptureStep::Finish(CaptureCompletionReason::IdleTimeout)
    } else if started is None && now >= initial_timeout_of(c) {
        CaptureStep::Finish(CaptureCompletionReason::InitialTimeout)
    } else if read_timeout_at(c, started, last, now) == 0 {
        CaptureStep::Retry
    } else {
        CaptureStep::Read { timeout_ms: read_timeout_at(c, started, last, now), max_len: (c.max_bytes - len) as usize }
    }
}

/// The end position of chunk `i`.
pub open spec fn chunk_end(chunks: Seq<CaptureChunk>, i: int) -> int {
    chunks[i].offset + chunks[i].bytes_read
}

/// The chunks tile the captured data: each is non-empty and starts where the
/// previous one ended, the first at zero, the last at the end of the data.
pub open spec fn chunks_tile(chunks: Seq<CaptureChunk>, len: int) -> bool {
    &&& forall|i: int| 0 <= i < chunks.len() ==> #[trigger] chunks[i].bytes_read > 0
    &&& forall|i: int| 0 <= i < chunks.len() ==> #[trigger] chunks[i].offset
        == (if i == 0 { 0 } else { chunk_end(chunks, i - 1) })
    &&& len == (if chunks.len() == 0 { 0 } else { chunk_end(chunks, chunks.len() - 1) })
}

/// A capture in progress.
pub struct CaptureSession {
    config: CaptureConfig,
    data: Vec<u8>,
    chunks: Vec<CaptureChunk>,
    started: Option<u64>,
    last: Option<u64>,
}

impl CaptureSession {
    #[verifier::type_invariant]
    spec fn inv(self) -> bool {
        &&& capture_config_problem(self.config) is None
        &&& self.data@.len() <= self.config.max_bytes
        &&& chunks_tile(self.chunks@, self.data@.len() as int)
        &&& (self.last is Some <==> self.chunks@.len() > 0)
        &&& (self.config.start_trigger == CaptureStartTrigger::Immediate ==> self.started == Some(0u64))
        &&& (self.config.start_trigger == CaptureStartTrigger::FirstByte ==> (self.started is Some <==> self.chunks@.len() > 0))
    }

    /// The configuration of the capture.
    pub closed spec fn config(&self) -> CaptureConfig {
        self.config
    }

    /// The bytes captured so far.
    pub closed spec fn data(&self) -> Seq<u8> {
        self.data@
    }

    /// The chunks read so far.
    pub closed spec fn chunks(&self) -> Seq<CaptureChunk> {
        self.chunks@
    }

    /// When the window started, if it did.
    pub closed spec fn started(&self) -> Option<u64> {
        self.started
    }

    /// When the last chunk arrived, if any did.
    pub closed spec fn last_chunk_at(&self) -> Option<u64> {
        self.last
    }

    /// What every capture keeps: its configuration is valid; it holds no
    /// more than `max_bytes` bytes, which its chunks tile in order; it has a
    /// last-chunk time exactly when it has chunks; an immediate window
    /// starts at time zero, and a first-byte window starts exactly when the
    /// first chunk arrives.
    pub open spec fn well_formed(&self) -> bool {
        &&& capture_config_problem(self.config()) is None
        &&& self.data().len() <= self.config().max_bytes
        &&& chunks_tile(self.chunks(), self.data().len() as int)
        &&& (self.last_chunk_at() is Some <==> self.chunks().len() > 0)
        &&& (self.config().start_trigger == CaptureStartTrigger::Immediate ==> self.started() == Some(0u64))
        &&& (self.config().start_trigger == CaptureStartTrigger::FirstByte
            ==> (self.started() is Some <==> self.chunks().len() > 0))
    }

    /// Every capture session is well formed (see `well_formed`).
    pub fn check_well_formed(&self)
        ensures
            self.well_formed(),
    {
        proof { use_type_invariant(self); }
    }

    /// Begins a capture at time zero. An invalid configuration is refused.
    pub fn start(config: CaptureConfig) -> (r: Result<CaptureSession, LocalSerialError>)
        ensures
            r is Ok <==> capture_config_problem(config) is None,
            r matches Err(e) ==> (e matches LocalSerialError::InvalidConfig(m)
                && Some(m@) == capture_config_problem(config)),
            r matches Ok(s) ==> {
                &&& s.config() == config
                &&& s.data() == Seq::<u8>::empty()
                &&& s.chunks() == Seq::<CaptureChunk>::empty()
                &&& s.last_chunk_at() is None
                &&& s.started() == match config.start_trigger {
                    CaptureStartTrigger::Immediate => Some(0u64),
                    CaptureStartTrigger::FirstByte => None,
                }
            },
    {
        match config.validate() {
            Err(e) => Err(e),
            Ok(()) => {
                let started = match config.start_trigger {
                    CaptureStartTrigger::Immediate => Some(0u64),
                    CaptureStartTrigger::FirstByte => None,
                };
                Ok(CaptureSession { config, data: Vec::new(), chunks: Vec::new(), started, last: None })
            },
        }
    }

    /// How many more bytes the capture accepts.
    pub fn remaining_capacity(&self) -> (r: usize)
        ensures
            r == self.config().max_bytes - self.data().len(),
    {
        proof { use_type_invariant(self); }
        self.config.max_bytes - self.data.len()
    }

    /// Decides the next step at time `now`.
    pub fn next_step(&self, now: u64) -> (r: CaptureStep)
        ensures
            r == step_at(self.config(), self.data().len() as usize, self.started(), self.last_chunk_at(), now),
    {
        proof { use_type_invariant(self); }
        let c = &self.config;
        if self.data.len() >= c.max_bytes {
            return CaptureStep::Finish(CaptureCompletionReason::MaxBytes);
        }
        match self.started {
            Some(s) => {
                if elapsed_between_ms(s, now) >= c.duration_ms {
                    return CaptureStep::Finish(CaptureCompletionReason::DurationElapsed);
                }
                match (c.idle_timeout_ms, self.last) {
                    (Some(i), Some(l)) => {
                        if elapsed_between_ms(l, now) >= i {
                            return CaptureStep::Finish(CaptureCompletionReason::IdleTimeout);
                        }
                    },
                    _ => {},
                }
            },
            None => {
                if now >= c.effective_initial_timeout_ms() {
                    return CaptureStep::Finish(CaptureCompletionReason::InitialTimeout);
                }
            },
        }
        let t = next_timeout_ms(c, self.started, self.last, now);
        if t == 0 {
            CaptureStep::Retry
        } else {
            CaptureStep::Read { timeout_ms: t, max_len: c.max_bytes - self.data.len() }
        }
    }

    /// Records the bytes of a successful read at time `now`. The first chunk
    /// of a first-byte capture starts its window. A read of zero bytes means
    /// the stream ended: it is reported as an unexpected end of file and
    /// nothing is recorded.
    pub fn record_chunk(&mut self, bytes: &[u8], now: u64) -> (r: Result<(), LocalSerialError>)
        requires
            bytes@.len() <= old(self).config().max_bytes - old(self).data().len(),
        ensures
            final(self).config() == old(self).config(),
            bytes@.len() == 0 ==> (r matches Err(LocalSerialError::IoError(k, _)) && k == IoErrorKind::UnexpectedEof)
                && final(self).data() == old(self).data() && final(self).chunks() == old(self).chunks()
                && final(self).started() == old(self).started()
                && final(self).last_chunk_at() == old(self).last_chunk_at(),
            bytes@.len() > 0 ==> {
                &&& r is Ok
                &&& final(self).data() == old(self).data() + bytes@
                &&& final(self).started() == match old(self).started() {
                    Some(s) => Some(s),
                    None => Some(now),
                }
                &&& final(self).last_chunk_at() == Some(now)
                &&& final(self).chunks() == old(self).chunks().push(CaptureChunk {
                    offset: old(self).data().len() as usize,
                    bytes_read: bytes@.len() as usize,
                    waited_ms: now,
                    elapsed_ms: elapsed(final(self).started()->0, now),
                })
            },
    {
        proof { use_type_invariant(&*self); }
        if bytes.len() == 0 {
            return Err(LocalSerialError::IoError(
                IoErrorKind::UnexpectedEof,
                String::from_str("serial stream returned zero bytes during capture"),
            ));
        }
        let fresh_started = match self.config.start_trigger {
            CaptureStartTrigger::Immediate => Some(0u64),
            CaptureStartTrigger::FirstByte => None,
        };
        let mut cur = CaptureSession {
            config: self.config,
            data: Vec::new(),
            chunks: Vec::new(),
            started: fresh_started,
            last: None,
        };
        std::mem::swap(&mut cur, self);
        proof { use_type_invariant(&cur); }
        let CaptureSession { config, mut data, mut chunks, started: cur_started, last: _ } = cur;
        let started = match cur_started {
            Some(s) => s,
            None => now,
        };
        let offset = data.len();
        let ghost old_chunks = chunks@;
        let ghost old_data = data@;
        let mut i: usize = 0;
        while i < bytes.len()
            invariant
                i <= bytes.len(),
                data@ == old_data + bytes@.take(i as int),
            decreases bytes.len() - i,
        {
            data.push(bytes[i]);
            i = i + 1;
            assert(bytes@.take(i as int) == bytes@.take((i - 1) as int).push(bytes@[i - 1]));
        }
        assert(bytes@.take(bytes.len() as int) == bytes@);
        let chunk = CaptureChunk {
            offset,
            bytes_read: bytes.len(),
            waited_ms: now,
            elapsed_ms: elapsed_between_ms(started, now),
        };
        chunks.push(chunk);
        proof {
            let n = old_chunks.len() as int;
            assert(chunks@[n] == chunk);
            assert forall|j: int| 0 <= j < chunks@.len() implies #[trigger] chunks@[j].bytes_read > 0 by {
                if j < n { assert(chunks@[j] == old_chunks[j]); }
            }
            assert forall|j: int| 0 <= j < chunks@.len() implies #[trigger] chunks@[j].offset
                == (if j == 0 { 0 } else { chunk_end(chunks@, j - 1) }) by {
                if j < n {
                    assert(chunks@[j] == old_chunks[j]);
                    if j > 0 { assert(chunks@[j - 1] == old_chunks[j - 1]); }
                } else if j > 0 {
                    assert(chunks@[j - 1] == old_chunks[j - 1]);
                }
            }
        }
        *self = CaptureSession { config, data, chunks, started: Some(started), last: Some(now) };
        Ok(())
    }

    /// Ends the capture at time `now` for `reason` and reports what it
    /// collected.
    pub fn finish(self, reason: CaptureCompletionReason, now: u64) -> (r: CaptureReport)
        ensures
            r.data@ == self.data(),
            r.chunks@ == self.chunks(),
            r.completion_reason == reason,
            r.data@.len() <= self.config().max_bytes,
            chunks_tile(r.chunks@, r.data@.len() as int),
            self.started() is None ==> r.data@.len() == 0 && r.chunks@.len() == 0,
            r.waited_ms == match self.started() {
                Some(s) => s,
                None => now,
            },
            r.elapsed_ms == match self.started() {
                Some(s) => elapsed(s, now),
                None => 0,
            },
    {
        proof { use_type_invariant(&self); }
        let waited_ms = match self.started {
            Some(s) => s,
            None => now,
        };
        let elapsed_ms = match self.started {
            Some(s) => elapsed_between_ms(s, now),
            None => 0,
        };
        CaptureReport { data: self.data, chunks: self.chunks, waited_ms, elapsed_ms, completion_reason: reason }
    }
}

/// With a valid configuration a capture never has to decide again without
/// reading: whenever no time is left for a read, one of its deadlines has
/// passed and the capture finishes.
pub proof fn law_capture_never_spins(c: CaptureConfig, len: usize, started: Option<u64>, last: Option<u64>, now: u64)
    requires
        capture_config_problem(c) is None,
        last is Some ==> started is Some,
    ensures
        step_at(c, len, started, last, now) != CaptureStep::Retry,
{
}

/// A read step never waits longer than the read timeout, never for nothing,
/// and asks for exactly the bytes the capture still accepts.
pub proof fn law_read_step_is_bounded(c: CaptureConfig, len: usize, started: Option<u64>, last: Option<u64>, now: u64)
    requires
        capture_config_problem(c) is None,
        len <= c.max_bytes,
    ensures
        step_at(c, len, started, last, now) matches CaptureStep::Read { timeout_ms, max_len }
            ==> 1 <= timeout_ms <= c.timeout_ms && max_len == c.max_bytes - len && max_len > 0,
{
}

/// A capture ends for reaching its byte limit exactly when it holds that many
/// bytes (it never holds more), and it reports an initial timeout only while
/// its window has not started.
pub proof fn law_completion_reasons(c: CaptureConfig, len: usize, started: Option<u64>, last: Option<u64>, now: u64)
    requires
        len <= c.max_bytes,
    ensures
        step_at(c, len, started, last, now) == CaptureStep::Finish(CaptureCompletionReason::MaxBytes)
            <==> len == c.max_bytes,
        step_at(c, len, started, last, now) == CaptureStep::Finish(CaptureCompletionReason::InitialTimeout)
            ==> started is None,
        step_at(c, len, started, last, now) == CaptureStep::Finish(CaptureCompletionReason::IdleTimeout)
            ==> started is Some && last is Some,
{
}

/// Milliseconds from `started` to `ended`, zero where the clock reads
/// earlier.
pub fn elapsed_between_ms(started: u64, ended: u64) -> (r: u64)
    ensures
        r == elapsed(started, ended),
{
    ended.saturating_sub(started)
}

/// What is left of `limit_ms` milliseconds counted from `since`, at `now`.
pub fn remaining_ms(since: u64, limit_ms: u64, now: u64) -> (r: u64)
    ensures
        r == remaining_of(since, limit_ms, now),
{
    limit_ms.saturating_sub(elapsed_between_ms(since, now))
}

/// The wait of the next read (see `read_timeout_at`).
pub fn next_timeout_ms(config: &CaptureConfig, started: Option<u64>, last: Option<u64>, now: u64) -> (r: u64)
    ensures
        r == read_timeout_at(*config, started, last, now),
{
    let mut timeout_ms = config.timeout_ms;
    match started {
        Some(s) => {
            let left = remaining_ms(s, config.duration_ms, now);
            if left < timeout_ms {
                timeout_ms = left;
            }
            match (config.idle_timeout_ms, last) {
                (Some(i), Some(l)) => {
                    let idle_left = remaining_ms(l, i, now);
                    if idle_left < timeout_ms {
                        timeout_ms = idle_left;
                    }
                },
                _ => {},
            }
        },
        None => {
            let left = remaining_ms(0, config.effective_initial_timeout_ms(), now);
            if left < timeout_ms {
                timeout_ms = left;
            }
        },
    }
    timeout_ms
}

/// Without an initial timeout, the wait for the first byte is the read
/// timeout: the effective initial timeout is `timeout_ms`, and a capture
/// whose window has not started ends with `InitialTimeout` exactly once
/// `timeout_ms` has passed (as long as it still has room for bytes).
pub proof fn law_first_byte_wait_defaults_to_read_timeout(c: CaptureConfig, len: usize, last: Option<u64>, now: u64)
    requires
        capture_config_problem(c) is None,
        c.initial_timeout_ms is None,
        len < c.max_bytes,
    ensures
        initial_timeout_of(c) == c.timeout_ms,
        now >= c.timeout_ms ==> step_at(c, len, None, last, now)
            == CaptureStep::Finish(CaptureCompletionReason::InitialTimeout),
        now < c.timeout_ms ==> step_at(c, len, None, last, now)
            != CaptureStep::Finish(CaptureCompletionReason::InitialTimeout),
{
}

} // verus!
