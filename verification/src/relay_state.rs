use vstd::prelude::*;

verus! {

/// The process-wide relay counters, one instance for the process
/// lifetime, shared by all concurrent requests. Callers guard it with a
/// reader/writer lock: reads may run beside each other, a write (a
/// successful send) takes exclusive access. Only a confirmed successful
/// transmission mutates it.
pub struct RelayState {
    /// Timestamp (epoch seconds) at process start; never changes.
    pub started_on: i64,
    /// Count of frames successfully transmitted; never wraps.
    pub packets_sent: u32,
    /// Time of the most recent successful send, `None` before the first.
    pub last_packet_sent: Option<i64>,
    /// The bus names configured at startup; read-only thereafter.
    pub available_sockets: Vec<String>,
}

/// The state after one successful send at time `now`: the counter is one
/// higher, the last-send time is `now`, everything else is untouched.
pub open spec fn sent_one(s: RelayState, now: i64) -> RelayState
    recommends
        s.packets_sent < u32::MAX,
{
    RelayState {
        started_on: s.started_on,
        packets_sent: (s.packets_sent + 1) as u32,
        last_packet_sent: Some(now),
        available_sockets: s.available_sockets,
    }
}

/// The state after a sequence of successful sends, in order.
pub open spec fn after_sends(s: RelayState, times: Seq<i64>) -> RelayState
    decreases times.len(),
{
    if times.len() == 0 {
        s
    } else {
        sent_one(after_sends(s, times.drop_last()), times.last())
    }
}

/// No lost updates: a run of successful sends, each applied under
/// exclusive access, raises `packets_sent` by exactly the number of
/// sends, and never touches the start time or the configured buses.
pub proof fn lemma_sends_accumulate(s: RelayState, times: Seq<i64>)
    requires
        s.packets_sent + times.len() <= u32::MAX,
    ensures
        after_sends(s, times).packets_sent == s.packets_sent + times.len(),
        after_sends(s, times).started_on == s.started_on,
        after_sends(s, times).available_sockets == s.available_sockets,
    decreases times.len(),
{
    if times.len() > 0 {
        lemma_sends_accumulate(s, times.drop_last());
    }
}

impl RelayState {
    /// The counters as they stand at process start.
    pub fn new(started_on: i64, available_sockets: Vec<String>) -> (r: RelayState)
        ensures
            r.started_on == started_on,
            r.packets_sent == 0,
            r.last_packet_sent is None,
            r.available_sockets == available_sockets,
    {
        RelayState { started_on, packets_sent: 0, last_packet_sent: None, available_sockets }
    }

    /// Records one confirmed successful transmission at time `now`.
    /// `packets_sent` grows by exactly one and never silently wraps: the
    /// caller checks the counter first and treats a full counter as
    /// fatal, as a wrapped statistic would be silently wrong.
    pub fn sent_packet(&mut self, now: i64)
        requires
            old(self).packets_sent < u32::MAX,
        ensures
            *final(self) == sent_one(*old(self), now),
            final(self).packets_sent == old(self).packets_sent + 1,
            final(self).last_packet_sent == Some(now),
            final(self).started_on == old(self).started_on,
            final(self).available_sockets == old(self).available_sockets,
    {
        self.packets_sent = self.packets_sent + 1;
        self.last_packet_sent = Some(now);
    }

    /// Seconds since the process started, for the statistics query.
    pub fn uptime(&self, now: i64) -> (r: i64)
        requires
            0 <= self.started_on <= now,
        ensures
            r == now - self.started_on,
    {
        now - self.started_on
    }

    /// The time of the last successful send, zero before the first,
    /// as the statistics query reports it.
    pub fn last_request(&self) -> (r: i64)
        ensures
            r == match self.last_packet_sent {
                Some(t) => t,
                None => 0i64,
            },
    {
        match self.last_packet_sent {
            Some(t) => t,
            None => 0,
        }
    }
}

} // verus!
