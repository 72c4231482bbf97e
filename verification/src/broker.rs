//! The bookkeeping of the shared serial broker: the receive buffer that the
//! single background reader fills, the table of shared connections with their
//! lifecycle, and the mapping between serial errors and protocol error codes.
//!
//! Sockets, locks, timers and the background reader task live with the
//! caller; every decision they need is made here.

use vstd::prelude::*;
use std::collections::VecDeque;
use crate::serial::connection::ConnectionConfig;
use crate::serial::error::LocalSerialError;
use crate::text::append_decimal;

verus! {

/// Address used when no broker address is configured.
pub const DEFAULT_BROKER_ADDRESS: &'static str = "127.0.0.1:47832";
/// Environment variable that overrides the broker address.
pub const BROKER_ADDRESS_ENV: &'static str = "SERIAL_MCP_BROKER_ADDR";
/// The largest read or capture a client may request.
pub const MAX_READ_BYTES: usize = 65_536;
/// The most bytes the shared receive buffer keeps before it drops the oldest.
pub const SHARED_RX_CAPACITY: usize = 1_048_576;
/// Read timeout applied when a read request names none.
pub const DEFAULT_READ_TIMEOUT_MS: u64 = 1_000;

// ---------------------------------------------------------------------------
// Request size validation
// ---------------------------------------------------------------------------

/// The complaint about a requested read size, if any.
pub open spec fn max_bytes_complaint(max_bytes: usize) -> Option<Seq<char>> {
    if max_bytes == 0 {
        Some("max_bytes must be greater than zero"@)
    } else if max_bytes > MAX_READ_BYTES {
        Some("max_bytes must not exceed 65536"@)
    } else {
        None
    }
}

/// Checks the size of a read or capture request against the protocol bounds
/// `1..=MAX_READ_BYTES`.
pub fn max_bytes_error(max_bytes: usize) -> (r: Option<&'static str>)
    ensures
        r is None <==> max_bytes_complaint(max_bytes) is None,
        r matches Some(m) ==> max_bytes_complaint(max_bytes) == Some(m@),
{
    if max_bytes == 0 {
        Some("max_bytes must be greater than zero")
    } else if max_bytes > MAX_READ_BYTES {
        Some("max_bytes must not exceed 65536")
    } else {
        None
    }
}

/// The timeout of a read request: the requested one, or one second.
pub fn effective_read_timeout(timeout_ms: Option<u64>) -> (r: u64)
    ensures
        r == match timeout_ms {
            Some(t) => t,
            None => DEFAULT_READ_TIMEOUT_MS,
        },
{
    match timeout_ms {
        Some(t) => t,
        None => DEFAULT_READ_TIMEOUT_MS,
    }
}

/// The broker address: the configured one if there is one, else the default.
pub fn broker_address(configured: Option<String>) -> (r: String)
    ensures
        r@ == match configured {
            Some(a) => a@,
            None => DEFAULT_BROKER_ADDRESS@,
        },
{
    match configured {
        Some(a) => a,
        None => String::from_str(DEFAULT_BROKER_ADDRESS),
    }
}

// ---------------------------------------------------------------------------
// Shared receive buffer
// ---------------------------------------------------------------------------

/// The contents of a buffer after `incoming` was appended to `current`:
/// the oldest bytes are dropped so that, as far as the existing contents
/// allow, no more than `SHARED_RX_CAPACITY` bytes remain.
pub open spec fn after_push(current: Seq<u8>, incoming: Seq<u8>) -> Seq<u8> {
    let sum = current.len() + incoming.len();
    let total = if sum > usize::MAX { usize::MAX as int } else { sum as int };
    let overflow = if total > SHARED_RX_CAPACITY { total - SHARED_RX_CAPACITY } else { 0 };
    let dropped = if overflow < current.len() { overflow } else { current.len() as int };
    current.skip(dropped) + incoming
}

/// What a read of at most `max_bytes` bytes takes from the front of `current`.
pub open spec fn taken(current: Seq<u8>, max_bytes: usize) -> Seq<u8> {
    if max_bytes < current.len() { current.take(max_bytes as int) } else { current }
}

/// What remains after such a read.
pub open spec fn remaining_after_take(current: Seq<u8>, max_bytes: usize) -> Seq<u8> {
    if max_bytes < current.len() { current.skip(max_bytes as int) } else { Seq::empty() }
}

/// A read never loses or duplicates bytes: what it takes, followed by what
/// it leaves, is exactly what was buffered.
pub proof fn law_take_splits_contents(current: Seq<u8>, max_bytes: usize)
    ensures
        taken(current, max_bytes) + remaining_after_take(current, max_bytes) == current,
        taken(current, max_bytes).len() <= max_bytes,
{
    if max_bytes < current.len() {
        assert(current.take(max_bytes as int) + current.skip(max_bytes as int) =~= current);
    } else {
        assert(current + Seq::<u8>::empty() =~= current);
    }
}

/// Consecutive reads deliver consecutive bytes in arrival order: two reads of
/// `a` and then `b` bytes take what one read of `a + b` bytes would take.
pub proof fn law_consecutive_reads_are_in_order(current: Seq<u8>, a: usize, b: usize)
    requires
        a + b <= usize::MAX,
    ensures
        taken(current, a) + taken(remaining_after_take(current, a), b)
            == taken(current, (a + b) as usize),
{
    let first = taken(current, a);
    let rest = remaining_after_take(current, a);
    if a < current.len() {
        if b < rest.len() {
            assert(first + rest.take(b as int) =~= current.take(a + b));
        } else {
            assert(first + rest =~= current);
        }
    } else {
        assert(rest =~= Seq::<u8>::empty());
        assert(first + Seq::<u8>::empty() =~= current);
    }
}

/// While the capacity is not exceeded, a push appends the new bytes and drops
/// nothing.
pub proof fn law_push_within_capacity_keeps_everything(current: Seq<u8>, incoming: Seq<u8>)
    requires
        current.len() + incoming.len() <= SHARED_RX_CAPACITY,
    ensures
        after_push(current, incoming) == current + incoming,
{
    assert(current.skip(0) =~= current);
}

/// The buffer never grows beyond its capacity when it starts within it and
/// each push is no larger than the capacity; the newest bytes are always kept.
pub proof fn law_push_respects_capacity(current: Seq<u8>, incoming: Seq<u8>)
    requires
        current.len() <= SHARED_RX_CAPACITY,
        incoming.len() <= SHARED_RX_CAPACITY,
    ensures
        after_push(current, incoming).len() <= SHARED_RX_CAPACITY,
        after_push(current, incoming).len() >= incoming.len(),
        after_push(current, incoming).skip(after_push(current, incoming).len() - incoming.len())
            == incoming,
{
    let r = after_push(current, incoming);
    let k = r.len() - incoming.len();
    assert(r.skip(k) =~= incoming);
}

/// Outcome of an attempt to read from the shared receive buffer.
#[derive(Debug)]
pub enum BufferRead {
    /// The bytes taken from the front of the buffer.
    Data(Vec<u8>),
    /// Nothing is buffered yet; the reader waits for a push or its deadline.
    Empty,
    /// The connection was closed; the buffer accepts and delivers nothing.
    Closed,
}

/// The bytes that the background reader received from a shared connection
/// and that clients have not consumed yet. Every byte is delivered to at most
/// one reader, in the order it arrived.
pub struct ReceiveBuffer {
    data: VecDeque<u8>,
    active: bool,
}

impl ReceiveBuffer {
    /// The buffered bytes, oldest first.
    pub closed spec fn contents(&self) -> Seq<u8> {
        self.data@
    }

    /// Whether the connection is still open.
    pub closed spec fn is_active(&self) -> bool {
        self.active
    }

    /// An empty buffer of an open connection.
    pub fn new() -> (r: Self)
        ensures
            r.contents() == Seq::<u8>::empty(),
            r.is_active(),
    {
        ReceiveBuffer { data: VecDeque::new(), active: true }
    }

    /// Appends bytes read from the device, dropping the oldest buffered bytes
    /// beyond the capacity. Returns whether the bytes were accepted; a closed
    /// buffer accepts nothing.
    pub fn push(&mut self, bytes: &[u8]) -> (accepted: bool)
        ensures
            accepted == old(self).is_active(),
            final(self).is_active() == old(self).is_active(),
            accepted ==> final(self).contents() == after_push(old(self).contents(), bytes@),
            !accepted ==> final(self).contents() == old(self).contents(),
    {
        if !self.active {
            return false;
        }
        let total = self.data.len().saturating_add(bytes.len());
        let overflow = total.saturating_sub(SHARED_RX_CAPACITY);
        let drop_count = if overflow < self.data.len() { overflow } else { self.data.len() };
        let ghost start = self.data@;
        let mut k: usize = 0;
        while k < drop_count
            invariant
                drop_count <= start.len(),
                k <= drop_count,
                self.data@ == start.skip(k as int),
                self.active,
            decreases drop_count - k,
        {
            let _ = self.data.pop_front();
            k = k + 1;
        }
        let mut i: usize = 0;
        while i < bytes.len()
            invariant
                i <= bytes.len(),
                self.data@ == start.skip(drop_count as int) + bytes@.take(i as int),
                self.active,
            decreases bytes.len() - i,
        {
            self.data.push_back(bytes[i]);
            i = i + 1;
            assert(bytes@.take(i as int) == bytes@.take((i - 1) as int).push(bytes@[i - 1]));
        }
        assert(bytes@.take(bytes.len() as int) == bytes@);
        true
    }

    /// Takes up to `max_bytes` bytes from the front of the buffer.
    pub fn take(&mut self, max_bytes: usize) -> (r: BufferRead)
        ensures
            final(self).is_active() == old(self).is_active(),
            !old(self).is_active() ==> r is Closed && final(self).contents() == old(self).contents(),
            old(self).is_active() && old(self).contents().len() == 0 ==> r is Empty
                && final(self).contents() == old(self).contents(),
            old(self).is_active() && old(self).contents().len() > 0 ==> {
                &&& r matches BufferRead::Data(d)
                &&& d@ == taken(old(self).contents(), max_bytes)
                &&& final(self).contents() == remaining_after_take(old(self).contents(), max_bytes)
            },
    {
        if !self.active {
            return BufferRead::Closed;
        }
        if self.data.len() == 0 {
            return BufferRead::Empty;
        }
        let length = if max_bytes < self.data.len() { max_bytes } else { self.data.len() };
        let ghost start = self.data@;
        let mut out: Vec<u8> = Vec::new();
        while out.len() < length
            invariant
                length <= start.len(),
                out.len() <= length,
                out@ == start.take(out.len() as int),
                self.data@ == start.skip(out.len() as int),
                self.active,
            decreases length - out.len(),
        {
            let ghost before = out@;
            match self.data.pop_front() {
                Some(b) => {
                    out.push(b);
                    assert(start.take(out.len() as int) == before.push(b));
                },
                None => {
                    assert(false);
                },
            }
        }
        proof {
            if max_bytes >= start.len() {
                assert(start.take(start.len() as int) == start);
                assert(start.skip(start.len() as int) == Seq::<u8>::empty());
            }
        }
        BufferRead::Data(out)
    }

    /// Marks the connection closed and discards the unconsumed bytes.
    pub fn close(&mut self)
        ensures
            !final(self).is_active(),
            final(self).contents() == Seq::<u8>::empty(),
    {
        self.active = false;
        self.data.clear();
    }
}


// ---------------------------------------------------------------------------
// Shared connection table
// ---------------------------------------------------------------------------

/// Whether a shared connection accepts new operations.
#[derive(Debug, Clone, Copy, PartialEq, Eq, Structural)]
pub enum ConnectionLifecycle {
    Open,
    Closed,
}

/// A connection that the broker owns on behalf of all its clients.
#[derive(Debug, Clone)]
pub struct SharedConnection {
    pub id: String,
    pub config: ConnectionConfig,
    pub lifecycle: ConnectionLifecycle,
}

/// What the broker does with a request to open a port.
#[derive(Debug, Clone)]
pub enum OpenPlan {
    /// The port is already open with the same settings: hand out its id.
    Reuse(String),
    /// The port is already open with other settings: refuse with this message.
    Conflict(String),
    /// The port is not open yet: open it.
    OpenNew,
}

/// Why the broker refused a request: a serial error (answered with the code
/// of `serial_error_code`) or a protocol failure with its own code.
#[derive(Debug, Clone)]
pub enum BrokerRefusal {
    Serial(LocalSerialError),
    Failure { code: String, message: String },
}

/// The broker's answer to a read or capture request whose size is out of
/// bounds, given before the connection is looked up: an `invalid_config`
/// failure carrying the complaint. `None` for a size within bounds.
pub fn read_size_refusal(max_bytes: usize) -> (r: Option<BrokerRefusal>)
    ensures
        r is None <==> max_bytes_complaint(max_bytes) is None,
        r matches Some(x) ==> (x matches BrokerRefusal::Failure { code, message }
            && code@ == "invalid_config"@ && max_bytes_complaint(max_bytes) == Some(message@)),
{
    match max_bytes_error(max_bytes) {
        Some(m) => Some(BrokerRefusal::Failure { code: String::from_str("invalid_config"), message: String::from_str(m) }),
        None => None,
    }
}

/// No two entries share an id.
pub open spec fn ids_unique(es: Seq<SharedConnection>) -> bool {
    forall|i: int, j: int| 0 <= i < es.len() && 0 <= j < es.len() && i != j
        ==> #[trigger] es[i].id@ != #[trigger] es[j].id@
}

/// No two entries share a port.
pub open spec fn ports_unique(es: Seq<SharedConnection>) -> bool {
    forall|i: int, j: int| 0 <= i < es.len() && 0 <= j < es.len() && i != j
        ==> #[trigger] es[i].config.port@ != #[trigger] es[j].config.port@
}

/// The invariant of the connection table.
pub open spec fn entries_wf(es: Seq<SharedConnection>) -> bool {
    ids_unique(es) && ports_unique(es)
}

/// Whether some entry has this id.
pub open spec fn has_id(es: Seq<SharedConnection>, id: Seq<char>) -> bool {
    exists|i: int| 0 <= i < es.len() && #[trigger] es[i].id@ == id
}

/// Whether some entry uses this port.
pub open spec fn port_in_use(es: Seq<SharedConnection>, port: Seq<char>) -> bool {
    exists|i: int| 0 <= i < es.len() && #[trigger] es[i].config.port@ == port
}

/// The position of the entry with this id (meaningful when `has_id`).
pub open spec fn index_of_id(es: Seq<SharedConnection>, id: Seq<char>) -> int {
    choose|i: int| 0 <= i < es.len() && #[trigger] es[i].id@ == id
}

/// The position of the entry using this port (meaningful when `port_in_use`).
pub open spec fn index_of_port(es: Seq<SharedConnection>, port: Seq<char>) -> int {
    choose|i: int| 0 <= i < es.len() && #[trigger] es[i].config.port@ == port
}

/// The lifecycle of the connection with this id, if there is one.
pub open spec fn lifecycle_of(es: Seq<SharedConnection>, id: Seq<char>) -> Option<ConnectionLifecycle> {
    if has_id(es, id) {
        Some(es[index_of_id(es, id)].lifecycle)
    } else {
        None
    }
}

/// Whether operations (status, write, control lines) may start on `id`.
pub open spec fn operation_allowed(es: Seq<SharedConnection>, id: Seq<char>) -> bool {
    lifecycle_of(es, id) == Some(ConnectionLifecycle::Open)
}

/// The message of an open request that conflicts with an open port.
pub open spec fn conflict_message(port: Seq<char>) -> Seq<char> {
    "Port "@ + port + " is already open with different serial settings"@
}

/// The message of an operation on a connection that is being closed.
pub open spec fn closing_message(id: Seq<char>) -> Seq<char> {
    "Connection "@ + id + " is closing or closed"@
}

/// The message of a close that found operations still running.
pub open spec fn busy_message(id: Seq<char>) -> Seq<char> {
    "Timed out waiting for in-flight operations on connection "@ + id
}

/// The plan for opening `config` given the table `es`: reuse the connection
/// of the same port if its settings are equal, refuse if they differ, open a
/// new connection if the port is not open.
pub open spec fn open_plan_is(es: Seq<SharedConnection>, config: ConnectionConfig, plan: OpenPlan) -> bool {
    if port_in_use(es, config.port@) {
        let e = es[index_of_port(es, config.port@)];
        if e.config.same_settings(config) {
            plan matches OpenPlan::Reuse(id) && id@ == e.id@
        } else {
            plan matches OpenPlan::Conflict(m) && m@ == conflict_message(config.port@)
        }
    } else {
        plan is OpenNew
    }
}

/// The table after a newly opened connection was registered.
pub open spec fn registered(es: Seq<SharedConnection>, id: String, config: ConnectionConfig) -> Seq<SharedConnection> {
    es.push(SharedConnection { id, config, lifecycle: ConnectionLifecycle::Open })
}

/// The table after the connection `id` was marked closed.
pub open spec fn marked_closed(es: Seq<SharedConnection>, id: Seq<char>) -> Seq<SharedConnection> {
    let i = index_of_id(es, id);
    es.update(i, SharedConnection { lifecycle: ConnectionLifecycle::Closed, ..es[i] })
}

/// The table after the connection `id` was removed.
pub open spec fn removed(es: Seq<SharedConnection>, id: Seq<char>) -> Seq<SharedConnection> {
    if has_id(es, id) { es.remove(index_of_id(es, id)) } else { es }
}

/// Opening a port that the broker already holds with the same settings hands
/// out the id of the existing connection, whichever client asks.
pub proof fn law_reopen_same_settings_reuses_connection(
    es: Seq<SharedConnection>,
    id: String,
    config: ConnectionConfig,
    request: ConnectionConfig,
    plan: OpenPlan,
)
    requires
        entries_wf(es),
        !port_in_use(es, config.port@),
        !has_id(es, id@),
        request.port@ == config.port@,
        request.same_settings(config),
        open_plan_is(registered(es, id, config), request, plan),
    ensures
        plan matches OpenPlan::Reuse(got) && got@ == id@,
{
    let es2 = registered(es, id, config);
    let n = es.len() as int;
    assert(es2[n].config.port@ == request.port@);
    let k = index_of_port(es2, request.port@);
    if k != n {
        assert(es[k].config.port@ == config.port@);
    }
}

/// Opening a port that the broker already holds with other settings is
/// refused; the existing connection is not touched.
pub proof fn law_reopen_other_settings_conflicts(
    es: Seq<SharedConnection>,
    id: String,
    config: ConnectionConfig,
    request: ConnectionConfig,
    plan: OpenPlan,
)
    requires
        entries_wf(es),
        !port_in_use(es, config.port@),
        !has_id(es, id@),
        request.port@ == config.port@,
        !request.same_settings(config),
        open_plan_is(registered(es, id, config), request, plan),
    ensures
        plan matches OpenPlan::Conflict(m) && m@ == conflict_message(request.port@),
{
    let es2 = registered(es, id, config);
    let n = es.len() as int;
    assert(es2[n].config.port@ == request.port@);
    let k = index_of_port(es2, request.port@);
    if k != n {
        assert(es[k].config.port@ == config.port@);
    }
}

/// A newly registered connection accepts operations at once, and the table
/// invariant is kept.
pub proof fn law_registered_connection_accepts_operations(
    es: Seq<SharedConnection>,
    id: String,
    config: ConnectionConfig,
)
    requires
        entries_wf(es),
        !port_in_use(es, config.port@),
        !has_id(es, id@),
    ensures
        operation_allowed(registered(es, id, config), id@),
        entries_wf(registered(es, id, config)),
{
    let es2 = registered(es, id, config);
    let n = es.len() as int;
    assert(es2[n].id@ == id@);
    let k = index_of_id(es2, id@);
    if k != n {
        assert(es[k].id@ == id@);
    }
    assert forall|i: int, j: int| 0 <= i < es2.len() && 0 <= j < es2.len() && i != j
        implies #[trigger] es2[i].id@ != #[trigger] es2[j].id@ by {
        if i == n {
            assert(es[j].id@ != id@);
        } else if j == n {
            assert(es[i].id@ != id@);
        }
    }
    assert forall|i: int, j: int| 0 <= i < es2.len() && 0 <= j < es2.len() && i != j
        implies #[trigger] es2[i].config.port@ != #[trigger] es2[j].config.port@ by {
        if i == n {
            assert(es[j].config.port@ != config.port@);
        } else if j == n {
            assert(es[i].config.port@ != config.port@);
        }
    }
}

/// Once a close has started, the connection admits no new operation, and
/// after it finished the connection is gone; the other connections are not
/// affected by either step.
pub proof fn law_close_rejects_later_operations(
    es: Seq<SharedConnection>,
    id: Seq<char>,
    other: Seq<char>,
)
    requires
        entries_wf(es),
        has_id(es, id),
        other != id,
    ensures
        !operation_allowed(marked_closed(es, id), id),
        !has_id(removed(marked_closed(es, id), id), id),
        operation_allowed(marked_closed(es, id), other) == operation_allowed(es, other),
        operation_allowed(removed(marked_closed(es, id), id), other) == operation_allowed(es, other),
{
    let i = index_of_id(es, id);
    let closed = marked_closed(es, id);
    assert(closed[i].id@ == id);
    let k = index_of_id(closed, id);
    if k != i {
        assert(closed[k].id@ == es[k].id@);
    }
    assert(has_id(closed, id));
    let gone = removed(closed, id);
    assert(gone == closed.remove(i));
    if has_id(gone, id) {
        let j = choose|j: int| 0 <= j < gone.len() && #[trigger] gone[j].id@ == id;
        let j0 = if j < i { j } else { j + 1 };
        assert(gone[j] == closed[j0]);
        assert(closed[j0].id@ == es[j0].id@);
    }
    // the other connection keeps its entry and lifecycle
    if has_id(es, other) {
        let o = index_of_id(es, other);
        assert(o != i);
        assert(closed[o] == es[o]);
        assert(has_id(closed, other));
        let ko = index_of_id(closed, other);
        assert(closed[ko].id@ == es[ko].id@);
        assert(ko == o);
        let og = if o < i { o } else { o - 1 };
        assert(gone[og] == closed[o]);
        assert(has_id(gone, other));
        let kg = index_of_id(gone, other);
        let kg0 = if kg < i { kg } else { kg + 1 };
        assert(gone[kg] == closed[kg0]);
        assert(closed[kg0].id@ == es[kg0].id@);
        assert(kg0 == o);
    } else {
        if has_id(closed, other) {
            let c = choose|c: int| 0 <= c < closed.len() && #[trigger] closed[c].id@ == other;
            assert(closed[c].id@ == es[c].id@);
        }
        if has_id(gone, other) {
            let g = choose|g: int| 0 <= g < gone.len() && #[trigger] gone[g].id@ == other;
            let g0 = if g < i { g } else { g + 1 };
            assert(gone[g] == closed[g0]);
            assert(closed[g0].id@ == es[g0].id@);
        }
    }
}

/// The connections that the broker owns, in the order they were opened.
/// An entry leaves the table only through an explicit close.
pub struct ConnectionTable {
    entries: Vec<SharedConnection>,
}

impl ConnectionTable {
    #[verifier::type_invariant]
    spec fn inv(self) -> bool {
        entries_wf(self.entries@)
    }

    /// The entries of the table.
    pub closed spec fn entries(&self) -> Seq<SharedConnection> {
        self.entries@
    }

    /// Every table is well formed: no two entries share an id or a port.
    pub fn check_well_formed(&self)
        ensures
            entries_wf(self.entries()),
    {
        proof { use_type_invariant(self); }
    }

    /// An empty table.
    pub fn new() -> (r: Self)
        ensures
            r.entries() == Seq::<SharedConnection>::empty(),
    {
        ConnectionTable { entries: Vec::new() }
    }

    /// The number of shared connections.
    pub fn len(&self) -> (r: usize)
        ensures
            r == self.entries().len(),
    {
        self.entries.len()
    }

    /// The shared connections, in the order they were opened.
    pub fn list(&self) -> (r: &Vec<SharedConnection>)
        ensures
            r@ == self.entries(),
    {
        &self.entries
    }

    fn find_id(&self, id: &str) -> (r: Option<usize>)
        ensures
            r is None <==> !has_id(self.entries(), id@),
            r matches Some(i) ==> i < self.entries().len() && i == index_of_id(self.entries(), id@),
    {
        proof { use_type_invariant(self); }
        let mut i: usize = 0;
        while i < self.entries.len()
            invariant
                i <= self.entries.len(),
                forall|j: int| 0 <= j < i ==> #[trigger] self.entries@[j].id@ != id@,
                entries_wf(self.entries@),
            decreases self.entries.len() - i,
        {
            if crate::text::str_eq(self.entries[i].id.as_str(), id) {
                let ghost k = index_of_id(self.entries@, id@);
                assert(self.entries@[i as int].id@ == id@);
                assert(self.entries@[k].id@ == id@);
                return Some(i);
            }
            i = i + 1;
        }
        None
    }

    /// Whether some shared connection has this id.
    pub fn contains(&self, id: &str) -> (r: bool)
        ensures
            r == has_id(self.entries(), id@),
    {
        self.find_id(id).is_some()
    }

    /// Decides what an open request for `config` does.
    pub fn plan_open(&self, config: &ConnectionConfig) -> (r: OpenPlan)
        ensures
            open_plan_is(self.entries(), *config, r),
    {
        proof { use_type_invariant(self); }
        let mut i: usize = 0;
        while i < self.entries.len()
            invariant
                i <= self.entries.len(),
                forall|j: int| 0 <= j < i ==> #[trigger] self.entries@[j].config.port@ != config.port@,
                entries_wf(self.entries@),
            decreases self.entries.len() - i,
        {
            let e = &self.entries[i];
            if crate::text::str_eq(e.config.port.as_str(), config.port.as_str()) {
                let ghost k = index_of_port(self.entries@, config.port@);
                assert(self.entries@[i as int].config.port@ == config.port@);
                assert(self.entries@[k].config.port@ == config.port@);
                if e.config.baud_rate == config.baud_rate && e.config.data_bits == config.data_bits
                    && e.config.stop_bits == config.stop_bits && e.config.parity == config.parity
                    && e.config.flow_control == config.flow_control
                {
                    return OpenPlan::Reuse(e.id.clone());
                } else {
                    let mut m = String::from_str("Port ");
                    m.append(config.port.as_str());
                    m.append(" is already open with different serial settings");
                    return OpenPlan::Conflict(m);
                }
            }
            i = i + 1;
        }
        OpenPlan::OpenNew
    }

    /// Registers a connection that was opened because `plan_open` answered
    /// `OpenNew`; the new connection accepts operations at once.
    pub fn complete_open(&mut self, id: String, config: ConnectionConfig)
        requires
            !port_in_use(old(self).entries(), config.port@),
            !has_id(old(self).entries(), id@),
        ensures
            final(self).entries() == registered(old(self).entries(), id, config),
    {
        proof { use_type_invariant(&*self); }
        let ghost es = self.entries@;
        let entry = SharedConnection { id, config, lifecycle: ConnectionLifecycle::Open };
        let ghost e = entry;
        let mut entries: Vec<SharedConnection> = Vec::new();
        std::mem::swap(&mut entries, &mut self.entries);
        entries.push(entry);
        assert(entries@ == es.push(e));
        assert forall|i: int, j: int| 0 <= i < entries@.len() && 0 <= j < entries@.len() && i != j
            implies #[trigger] entries@[i].id@ != #[trigger] entries@[j].id@ by {
            if i == es.len() as int {
                assert(es[j].id@ != e.id@);
            } else if j == es.len() as int {
                assert(es[i].id@ != e.id@);
            }
        }
        assert forall|i: int, j: int| 0 <= i < entries@.len() && 0 <= j < entries@.len() && i != j
            implies #[trigger] entries@[i].config.port@ != #[trigger] entries@[j].config.port@ by {
            if i == es.len() as int {
                assert(es[j].config.port@ != e.config.port@);
            } else if j == es.len() as int {
                assert(es[i].config.port@ != e.config.port@);
            }
        }
        self.entries = entries;
    }

    /// Admits an operation (status, write, control lines) on connection `id`:
    /// the connection must exist and must not be closing.
    pub fn begin_operation(&self, id: &str) -> (r: Result<(), LocalSerialError>)
        ensures
            r is Ok <==> operation_allowed(self.entries(), id@),
            !has_id(self.entries(), id@) ==> (r matches Err(LocalSerialError::InvalidConnection(m)) && m@ == id@),
            lifecycle_of(self.entries(), id@) == Some(ConnectionLifecycle::Closed)
                ==> (r matches Err(LocalSerialError::InvalidConnection(m)) && m@ == closing_message(id@)),
    {
        match self.find_id(id) {
            None => Err(LocalSerialError::InvalidConnection(String::from_str(id))),
            Some(i) => {
                if self.entries[i].lifecycle == ConnectionLifecycle::Open {
                    Ok(())
                } else {
                    let mut m = String::from_str("Connection ");
                    m.append(id);
                    m.append(" is closing or closed");
                    Err(LocalSerialError::InvalidConnection(m))
                }
            },
        }
    }

    /// Starts closing connection `id`. `drained` tells whether the in-flight
    /// operations finished before the close deadline. On success the
    /// connection is marked closed, so no new operation is admitted; a
    /// refused close leaves the table as it was.
    pub fn begin_close(&mut self, id: &str, drained: bool) -> (r: Result<(), BrokerRefusal>)
        ensures
            r is Ok <==> drained && operation_allowed(old(self).entries(), id@),
            r is Ok ==> final(self).entries() == marked_closed(old(self).entries(), id@),
            r is Err ==> final(self).entries() == old(self).entries(),
            !has_id(old(self).entries(), id@)
                ==> (r matches Err(BrokerRefusal::Serial(LocalSerialError::InvalidConnection(m))) && m@ == id@),
            has_id(old(self).entries(), id@) && !drained ==> (r matches Err(BrokerRefusal::Failure { code, message })
                && code@ == "connection_busy"@ && message@ == busy_message(id@)),
            has_id(old(self).entries(), id@) && drained && !operation_allowed(old(self).entries(), id@)
                ==> (r matches Err(BrokerRefusal::Serial(LocalSerialError::InvalidConnection(m))) && m@ == id@),
    {
        proof { use_type_invariant(&*self); }
        let found = self.find_id(id);
        match found {
            None => Err(BrokerRefusal::Serial(LocalSerialError::InvalidConnection(String::from_str(id)))),
            Some(i) => {
                if !drained {
                    let mut m = String::from_str("Timed out waiting for in-flight operations on connection ");
                    m.append(id);
                    return Err(BrokerRefusal::Failure { code: String::from_str("connection_busy"), message: m });
                }
                if self.entries[i].lifecycle != ConnectionLifecycle::Open {
                    return Err(BrokerRefusal::Serial(LocalSerialError::InvalidConnection(String::from_str(id))));
                }
                let ghost es = self.entries@;
                let mut entries: Vec<SharedConnection> = Vec::new();
                std::mem::swap(&mut entries, &mut self.entries);
                let mut e = entries.remove(i);
                e.lifecycle = ConnectionLifecycle::Closed;
                entries.insert(i, e);
                assert(entries@ =~= marked_closed(es, id@));
                assert forall|a: int, b: int| 0 <= a < entries@.len() && 0 <= b < entries@.len() && a != b
                    implies #[trigger] entries@[a].id@ != #[trigger] entries@[b].id@ by {
                    assert(entries@[a].id@ == es[a].id@);
                    assert(entries@[b].id@ == es[b].id@);
                }
                assert forall|a: int, b: int| 0 <= a < entries@.len() && 0 <= b < entries@.len() && a != b
                    implies #[trigger] entries@[a].config.port@ != #[trigger] entries@[b].config.port@ by {
                    assert(entries@[a].config.port@ == es[a].config.port@);
                    assert(entries@[b].config.port@ == es[b].config.port@);
                }
                self.entries = entries;
                Ok(())
            },
        }
    }

    /// Removes connection `id` after its port was released. Removing an
    /// unknown id changes nothing.
    pub fn finish_close(&mut self, id: &str)
        ensures
            final(self).entries() == removed(old(self).entries(), id@),
    {
        proof { use_type_invariant(&*self); }
        match self.find_id(id) {
            None => {},
            Some(i) => {
                let ghost es = self.entries@;
                let mut entries: Vec<SharedConnection> = Vec::new();
                std::mem::swap(&mut entries, &mut self.entries);
                let _ = entries.remove(i);
                assert forall|a: int, b: int| 0 <= a < entries@.len() && 0 <= b < entries@.len() && a != b
                    implies #[trigger] entries@[a].id@ != #[trigger] entries@[b].id@ by {
                    let a0 = if a < i { a } else { a + 1 };
                    let b0 = if b < i { b } else { b + 1 };
                    assert(entries@[a] == es[a0]);
                    assert(entries@[b] == es[b0]);
                }
                assert forall|a: int, b: int| 0 <= a < entries@.len() && 0 <= b < entries@.len() && a != b
                    implies #[trigger] entries@[a].config.port@ != #[trigger] entries@[b].config.port@ by {
                    let a0 = if a < i { a } else { a + 1 };
                    let b0 = if b < i { b } else { b + 1 };
                    assert(entries@[a] == es[a0]);
                    assert(entries@[b] == es[b0]);
                }
                self.entries = entries;
            },
        }
    }
}


// ---------------------------------------------------------------------------
// Error codes of the broker protocol
// ---------------------------------------------------------------------------

/// The error part of a broker response.
#[derive(Debug, Clone)]
pub struct BrokerError {
    pub code: String,
    pub message: String,
}

/// The protocol code under which a serial error travels to the client.
pub open spec fn code_of(e: LocalSerialError) -> Seq<char> {
    match e {
        LocalSerialError::ReadTimeout => "read_timeout"@,
        LocalSerialError::InvalidConnection(_) => "invalid_connection"@,
        LocalSerialError::ConnectionExists(_) => "connection_exists"@,
        LocalSerialError::InvalidBaudRate(_) => "invalid_baud_rate"@,
        _ => "serial_error"@,
    }
}

/// The protocol code under which a serial error travels to the client.
pub fn serial_error_code(e: &LocalSerialError) -> (r: &'static str)
    ensures
        r@ == code_of(*e),
{
    match e {
        LocalSerialError::ReadTimeout => "read_timeout",
        LocalSerialError::InvalidConnection(_) => "invalid_connection",
        LocalSerialError::ConnectionExists(_) => "connection_exists",
        LocalSerialError::InvalidBaudRate(_) => "invalid_baud_rate",
        _ => "serial_error",
    }
}

/// The serial error a client reports for a broker error with this code and
/// message.
pub open spec fn client_error_is(code: Seq<char>, message: Seq<char>, r: LocalSerialError) -> bool {
    if code == "read_timeout"@ {
        r is ReadTimeout
    } else if code == "invalid_connection"@ {
        r matches LocalSerialError::InvalidConnection(m) && m@ == message
    } else if code == "connection_exists"@ {
        r matches LocalSerialError::ConnectionExists(m) && m@ == message
    } else if code == "connection_busy"@ {
        r matches LocalSerialError::ConnectionFailed(m) && m@ == message
    } else {
        r matches LocalSerialError::InvalidConfig(m) && m@ == message
    }
}

/// Turns the error of a failed broker response into the serial error the
/// client reports. A response without an error part counts as the code
/// `broker_error` with the message `Unknown broker error`.
pub fn map_broker_error(error: Option<BrokerError>) -> (r: LocalSerialError)
    ensures
        match error {
            Some(e) => client_error_is(e.code@, e.message@, r),
            None => client_error_is("broker_error"@, "Unknown broker error"@, r),
        },
{
    let error = match error {
        Some(e) => e,
        None => BrokerError {
            code: String::from_str("broker_error"),
            message: String::from_str("Unknown broker error"),
        },
    };
    proof {
        reveal_strlit("read_timeout");
        reveal_strlit("invalid_connection");
        reveal_strlit("connection_exists");
        reveal_strlit("connection_busy");
        reveal_strlit("broker_error");
    }
    let code = error.code.as_str();
    if crate::text::str_eq(code, "read_timeout") {
        LocalSerialError::ReadTimeout
    } else if crate::text::str_eq(code, "invalid_connection") {
        LocalSerialError::InvalidConnection(error.message)
    } else if crate::text::str_eq(code, "connection_exists") {
        LocalSerialError::ConnectionExists(error.message)
    } else if crate::text::str_eq(code, "connection_busy") {
        LocalSerialError::ConnectionFailed(error.message)
    } else {
        LocalSerialError::InvalidConfig(error.message)
    }
}

/// The error of a client that cannot reach the broker at `address`;
/// `reason` is the I/O error's text.
pub fn broker_io_error(address: &str, reason: &str) -> (r: LocalSerialError)
    ensures
        r matches LocalSerialError::ConnectionFailed(m)
            && m@ == "Cannot reach shared serial broker at "@ + address@ + ": "@ + reason@,
{
    let mut m = String::from_str("Cannot reach shared serial broker at ");
    m.append(address);
    m.append(": ");
    m.append(reason);
    LocalSerialError::ConnectionFailed(m)
}

/// A serial error sent through the broker comes back to the client as an
/// error of the same kind for timeouts, unknown connections and port
/// conflicts; any other error comes back as a configuration error carrying
/// the message.
pub proof fn law_error_codes_round_trip(e: LocalSerialError, message: Seq<char>, r: LocalSerialError)
    requires
        client_error_is(code_of(e), message, r),
    ensures
        e is ReadTimeout ==> r is ReadTimeout,
        e is InvalidConnection ==> (r matches LocalSerialError::InvalidConnection(m) && m@ == message),
        e is ConnectionExists ==> (r matches LocalSerialError::ConnectionExists(m) && m@ == message),
        !(e is ReadTimeout || e is InvalidConnection || e is ConnectionExists)
            ==> (r matches LocalSerialError::InvalidConfig(m) && m@ == message),
{
    reveal_strlit("read_timeout");
    reveal_strlit("invalid_connection");
    reveal_strlit("connection_exists");
    reveal_strlit("connection_busy");
    reveal_strlit("invalid_baud_rate");
    reveal_strlit("serial_error");
    assert("read_timeout"@.len() == 12);
    assert("invalid_connection"@.len() == 18);
    assert("connection_exists"@.len() == 17);
    assert("invalid_connection"@ != "read_timeout"@);
    assert("connection_exists"@ != "read_timeout"@);
    assert("connection_exists"@ != "invalid_connection"@);
    assert("connection_busy"@.len() == 15);
    assert("invalid_baud_rate"@.len() == 17);
    assert("serial_error"@.len() == 12);
    assert("invalid_baud_rate"@[0] != "connection_exists"@[0]);
    assert("serial_error"@[0] != "read_timeout"@[0]);
    assert("invalid_baud_rate"@ != "connection_exists"@);
    assert("serial_error"@ != "read_timeout"@);
}

// ---------------------------------------------------------------------------
// Client handles
// ---------------------------------------------------------------------------

/// Where a client reaches the broker.
#[derive(Debug, Clone)]
pub struct BrokerClient {
    address: String,
}

impl BrokerClient {
    /// The address this client connects to.
    pub closed spec fn address_view(&self) -> Seq<char> {
        self.address@
    }

    /// A client of the broker at the configured address (the value of
    /// `SERIAL_MCP_BROKER_ADDR`, if set), else at the default address.
    pub fn new(configured: Option<String>) -> (r: Self)
        ensures
            r.address_view() == match configured {
                Some(a) => a@,
                None => DEFAULT_BROKER_ADDRESS@,
            },
    {
        BrokerClient { address: broker_address(configured) }
    }

    /// A client of the broker at `address`.
    pub fn at(address: String) -> (r: Self)
        ensures
            r.address_view() == address@,
    {
        BrokerClient { address }
    }

    /// The address this client connects to.
    pub fn address(&self) -> (r: &str)
        ensures
            r@ == self.address_view(),
    {
        self.address.as_str()
    }
}

/// Opens, lists and closes shared connections through the broker.
#[derive(Debug, Clone)]
pub struct BrokerConnectionManager {
    client: BrokerClient,
}

impl BrokerConnectionManager {
    /// The client this manager talks through.
    pub closed spec fn client_view(&self) -> BrokerClient {
        self.client
    }

    /// A manager talking to the broker through `client`.
    pub fn new(client: BrokerClient) -> (r: Self)
        ensures
            r.client_view() == client,
    {
        BrokerConnectionManager { client }
    }

    /// The client this manager talks through.
    pub fn client(&self) -> (r: &BrokerClient)
        ensures
            *r == self.client_view(),
    {
        &self.client
    }

    /// A handle on the shared connection `connection_id`, using this
    /// manager's client.
    pub fn connection(&self, connection_id: String) -> (r: BrokerSerialConnection)
        ensures
            r.client_view() == self.client_view(),
            r.id_view() == connection_id@,
    {
        BrokerSerialConnection { client: self.client.clone_client(), connection_id }
    }
}

impl BrokerClient {
    /// A copy of this client.
    pub fn clone_client(&self) -> (r: BrokerClient)
        ensures
            r == *self,
    {
        BrokerClient { address: self.address.clone() }
    }
}

/// A handle on one shared connection.
#[derive(Debug)]
pub struct BrokerSerialConnection {
    client: BrokerClient,
    connection_id: String,
}

impl BrokerSerialConnection {
    /// The client this handle talks through.
    pub closed spec fn client_view(&self) -> BrokerClient {
        self.client
    }

    /// The id of the shared connection.
    pub closed spec fn id_view(&self) -> Seq<char> {
        self.connection_id@
    }

    /// The id of the shared connection.
    pub fn id(&self) -> (r: &str)
        ensures
            r@ == self.id_view(),
    {
        self.connection_id.as_str()
    }

    /// The client this handle talks through.
    pub fn client(&self) -> (r: &BrokerClient)
        ensures
            *r == self.client_view(),
    {
        &self.client
    }
}

/// A port's connection is handed out again only to a request that agrees
/// with it on every serial setting: a `Reuse` answer names the entry of the
/// requested port, whose baud rate, data bits, stop bits, parity and flow
/// control all equal the request's; and where the port's entry differs from
/// the request in any one of them, the answer is a conflict.
pub proof fn law_reuse_needs_identical_settings(es: Seq<SharedConnection>, config: ConnectionConfig, plan: OpenPlan)
    requires
        entries_wf(es),
        open_plan_is(es, config, plan),
    ensures
        plan matches OpenPlan::Reuse(id) ==> exists|i: int| 0 <= i < es.len() && {
            let e = #[trigger] es[i];
            &&& e.id@ == id@
            &&& e.config.port@ == config.port@
            &&& e.config.baud_rate == config.baud_rate
            &&& e.config.data_bits == config.data_bits
            &&& e.config.stop_bits == config.stop_bits
            &&& e.config.parity == config.parity
            &&& e.config.flow_control == config.flow_control
        },
        forall|i: int| 0 <= i < es.len() && #[trigger] es[i].config.port@ == config.port@ && {
            ||| es[i].config.baud_rate != config.baud_rate
            ||| es[i].config.data_bits != config.data_bits
            ||| es[i].config.stop_bits != config.stop_bits
            ||| es[i].config.parity != config.parity
            ||| es[i].config.flow_control != config.flow_control
        } ==> plan is Conflict,
{
    if port_in_use(es, config.port@) {
        let k = index_of_port(es, config.port@);
        assert(es[k].config.port@ == config.port@);
        assert forall|i: int| 0 <= i < es.len() && #[trigger] es[i].config.port@ == config.port@ implies i == k by {
            if i != k {
                assert(es[i].config.port@ != es[k].config.port@);
            }
        }
    }
}

} // verus!
