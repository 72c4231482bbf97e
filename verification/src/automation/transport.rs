//! Where a macro run writes and reads: a shared broker connection, or a
//! scripted simulation.

use vstd::prelude::*;
use std::collections::VecDeque;
use std::sync::Arc;
use crate::automation::error::AutomationError;
use crate::broker::BrokerSerialConnection;
use crate::serial::error::LocalSerialError;

verus! {

/// What a macro run needs from the line it drives.
pub trait MacroTransport {
    /// Sends `data`; returns how many bytes went out.
    fn write(&mut self, data: &[u8]) -> Result<usize, AutomationError>;

    /// Reads at most `max_bytes`, waiting up to `timeout_ms`; nothing came
    /// when the result is empty.
    fn read(&mut self, max_bytes: usize, timeout_ms: u64) -> Result<Vec<u8>, AutomationError>;
}

/// A transport that drives a shared connection of the broker. The broker
/// calls themselves are made by the application, which hands their results
/// to `read_result`.
pub struct SerialMacroTransport {
    connection: Arc<BrokerSerialConnection>,
}

impl SerialMacroTransport {
    /// A transport over `connection`.
    pub fn new(connection: Arc<BrokerSerialConnection>) -> (r: Self)
        ensures
            r.connection_view() == *connection,
    {
        SerialMacroTransport { connection }
    }

    /// The connection this transport drives.
    pub closed spec fn connection_view(&self) -> BrokerSerialConnection {
        *self.connection
    }

    /// The connection this transport drives.
    pub fn connection(&self) -> (r: &BrokerSerialConnection)
        ensures
            *r == self.connection_view(),
    {
        &*self.connection
    }

    /// What a read returns, given the buffer it filled and what the broker
    /// answered: the bytes read, nothing on a timeout, or the failure,
    /// described by `failure`.
    pub fn read_result(
        buffer: Vec<u8>,
        outcome: Result<usize, LocalSerialError>,
        failure: String,
    ) -> (r: Result<Vec<u8>, AutomationError>)
        ensures
            match outcome {
                Ok(n) => r matches Ok(v) && v@ == buffer@.take(
                    if n < buffer@.len() { n as int } else { buffer@.len() as int },
                ),
                Err(LocalSerialError::ReadTimeout) => r matches Ok(v) && v@.len() == 0,
                Err(_) => r matches Err(AutomationError::Transport(m)) && m == failure,
            },
    {
        match outcome {
            Ok(n) => {
                let mut buffer = buffer;
                buffer.truncate(n);
                Ok(buffer)
            },
            Err(LocalSerialError::ReadTimeout) => Ok(Vec::new()),
            Err(_) => Err(AutomationError::Transport(failure)),
        }
    }
}

/// A transport that replays scripted reads and records every write.
#[derive(Debug, Clone)]
pub struct SimulatedMacroTransport {
    reads: VecDeque<Vec<u8>>,
    writes: Vec<Vec<u8>>,
}

/// The contents of each buffer of a list, in order.
pub open spec fn byte_views(bufs: Seq<Vec<u8>>) -> Seq<Seq<u8>> {
    bufs.map_values(|b: Vec<u8>| b@)
}

impl SimulatedMacroTransport {
    /// The reads still to be replayed, in order.
    pub closed spec fn pending(&self) -> Seq<Seq<u8>> {
        byte_views(self.reads@)
    }

    /// The writes made so far, in order.
    pub closed spec fn written(&self) -> Seq<Seq<u8>> {
        byte_views(self.writes@)
    }

    /// A simulation that will replay `reads` in order and has written
    /// nothing.
    pub fn new(reads: Vec<Vec<u8>>) -> (r: Self)
        ensures
            r.pending() == byte_views(reads@),
            r.written().len() == 0,
    {
        let ghost all = reads@;
        let mut rest = reads;
        let mut queue: VecDeque<Vec<u8>> = VecDeque::new();
        while rest.len() > 0
            invariant
                queue@ + rest@ == all,
            decreases rest.len(),
        {
            let ghost before = rest@;
            let first = rest.remove(0);
            assert(queue@.push(first) + rest@ =~= queue@ + before);
            queue.push_back(first);
        }
        assert(queue@ =~= all);
        let writes: Vec<Vec<u8>> = Vec::new();
        assert(byte_views(writes@) =~= Seq::<Seq<u8>>::empty());
        SimulatedMacroTransport { reads: queue, writes }
    }

    /// The writes made so far.
    pub fn writes(&self) -> (r: &[Vec<u8>])
        ensures
            byte_views(r@) == self.written(),
    {
        self.writes.as_slice()
    }
}

/// What one call on a simulation does to its write log: a write of `d`
/// (`Some(d)`) appends `d`; a read (`None`) leaves the log as it was.
pub open spec fn logged_step(before: SimulatedMacroTransport, call: Option<Seq<u8>>, after: SimulatedMacroTransport) -> bool {
    match call {
        Some(d) => after.written() == before.written().push(d),
        None => after.written() == before.written(),
    }
}

/// The data of the writes among a run of calls, oldest first.
pub open spec fn writes_of(calls: Seq<Option<Seq<u8>>>) -> Seq<Seq<u8>>
    decreases calls.len(),
{
    if calls.len() == 0 {
        Seq::empty()
    } else {
        let earlier = writes_of(calls.drop_last());
        match calls.last() {
            Some(d) => earlier.push(d),
            None => earlier,
        }
    }
}

/// A simulation logs every write, in call order: started with an empty log
/// and driven through any run of writes and reads, its log is exactly the
/// data of the writes, oldest first.
pub proof fn law_simulated_writes_are_logged_in_order(
    states: Seq<SimulatedMacroTransport>,
    calls: Seq<Option<Seq<u8>>>,
)
    requires
        states.len() == calls.len() + 1,
        states[0].written().len() == 0,
        forall|i: int| 0 <= i < calls.len() ==> #[trigger] logged_step(states[i], calls[i], states[i + 1]),
    ensures
        states.last().written() == writes_of(calls),
    decreases calls.len(),
{
    if calls.len() == 0 {
        assert(states[0].written() =~= Seq::<Seq<u8>>::empty());
    } else {
        let n = calls.len() as int;
        let earlier_states = states.drop_last();
        let earlier_calls = calls.drop_last();
        assert forall|i: int| 0 <= i < earlier_calls.len()
            implies #[trigger] logged_step(earlier_states[i], earlier_calls[i], earlier_states[i + 1]) by {
            assert(logged_step(states[i], calls[i], states[i + 1]));
        }
        law_simulated_writes_are_logged_in_order(earlier_states, earlier_calls);
        assert(logged_step(states[n - 1], calls[n - 1], states[n]));
    }
}

impl MacroTransport for SimulatedMacroTransport {
    /// Records the write and reports every byte as sent.
    fn write(&mut self, data: &[u8]) -> (r: Result<usize, AutomationError>)
        ensures
            final(self).written() == old(self).written().push(data@),
            final(self).pending() == old(self).pending(),
            r matches Ok(n) && n == data@.len(),
    {
        let ghost before = self.writes@;
        self.writes.push(crate::text::bytes_vec(data));
        assert(byte_views(self.writes@) =~= byte_views(before).push(data@));
        Ok(data.len())
    }

    /// Replays the next scripted read, cut to `max_bytes`; nothing once the
    /// script is used up.
    fn read(&mut self, max_bytes: usize, timeout_ms: u64) -> (r: Result<Vec<u8>, AutomationError>)
        ensures
            final(self).written() == old(self).written(),
            old(self).pending().len() == 0 ==> final(self).pending().len() == 0,
            old(self).pending().len() == 0 ==> (r matches Ok(v) && v@.len() == 0),
            old(self).pending().len() > 0 ==> ({
                let next = old(self).pending()[0];
                &&& final(self).pending() == old(self).pending().drop_first()
                &&& r matches Ok(v)
                &&& v@ == next.take(if max_bytes < next.len() { max_bytes as int } else { next.len() as int })
            }),
    {
        let ghost before = self.reads@;
        match self.reads.pop_front() {
            Some(data) => {
                assert(byte_views(self.reads@) =~= byte_views(before).drop_first());
                let mut data = data;
                data.truncate(max_bytes);
                Ok(data)
            },
            None => Ok(Vec::new()),
        }
    }
}

} // verus!
