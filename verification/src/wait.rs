use vstd::prelude::*;

use crate::errors::RelayError;
use crate::frame::CanFrame;
use crate::frame::MAX_STANDARD_ID;
use crate::hex_codec::decode_payload;
use crate::hex_codec::hex_bytes;
use crate::hex_codec::hex_number_value;
use crate::hex_codec::parse_hex_u32;
use crate::hex_codec::u32_parses;
use crate::hex_codec::valid_hex_number;
use crate::hex_codec::valid_hex_string;
use crate::isotp::build_isotp_payload;
use crate::isotp::isotp_payload;
use crate::packets::Packets;
use crate::packets::renders_frame;

verus! {

/// Wait this long for responses when the request names no timeout.
pub const DEFAULT_TIMEOUT_MS: u32 = 1500;

/// Collect at most this many frames when the request names no bound.
pub const DEFAULT_MAXPKTS: u32 = 3;

/// The mask under which the destination identifier filters responses:
/// all eleven standard identifier bits must match.
pub const RESPONSE_FILTER_MASK: u32 = 0x7FF;

/// Where a wait operation stands. The phases follow the operation's
/// single forward path: install the response filter, transmit the
/// framed payload, collect responses under the count/time bound, clear
/// the filter back to accept-all, done.
#[derive(Clone, Copy, Debug, PartialEq, Eq, Structural)]
pub enum WaitPhase {
    SetFilter,
    Transmit,
    Collect,
    ClearFilter,
    Done,
}

/// One wait-and-collect operation: transmit one framed payload, then
/// gather response frames until the packet bound or the time budget is
/// reached. The caller performs the bus I/O and reports each outcome
/// through the `on_*` methods; this type decides every transition and
/// guarantees the bookkeeping: the packet list never outgrows the
/// bound, and the filter is never left installed on a finished
/// operation unless clearing itself failed.
#[derive(Debug)]
pub struct WaitOperation {
    /// The frame to transmit: source identifier, ISO-TP framed payload.
    pub frame: CanFrame,
    /// The destination identifier; responses are filtered to it under
    /// `RESPONSE_FILTER_MASK`.
    pub filter_id: u32,
    /// The collection time budget, milliseconds of monotonic elapsed time.
    pub timeout_ms: u32,
    /// The collection packet bound.
    pub maxpkts: u32,
    /// Where the operation stands.
    pub phase: WaitPhase,
    /// Whether the response filter is currently installed on the bus.
    pub filter_installed: bool,
    /// Whether clearing the filter failed (the one failure that can
    /// leave a filter behind; the operation still reports failure).
    pub clear_failed: bool,
    /// The first failure the operation hit, if any; a finished
    /// operation succeeded exactly when there is none. Failures are
    /// terminal: nothing is retried, and a later failure never masks
    /// the first.
    pub fault: Option<RelayError>,
    /// How many response frames were collected.
    pub count: u32,
    /// The collected frames, rendered, in arrival order.
    pub packets: Packets,
}

impl WaitOperation {
    /// The operation's invariant. Among its clauses stands the filter
    /// guarantee: a finished operation still holding its filter is only
    /// possible when clearing was attempted and failed.
    pub open spec fn wf(self) -> bool {
        &&& self.frame.wf()
        &&& self.count <= self.maxpkts
        &&& self.packets.frames@.len() == self.count as nat
        &&& self.packets.success is None
        &&& (self.phase is SetFilter ==> !self.filter_installed && self.count == 0
            && self.fault is None && !self.clear_failed)
        &&& (self.phase is Transmit ==> self.filter_installed && self.count == 0
            && self.fault is None && !self.clear_failed)
        &&& (self.phase is Collect ==> self.filter_installed && self.fault is None
            && !self.clear_failed)
        &&& (self.phase is ClearFilter ==> self.filter_installed && !self.clear_failed)
        &&& (self.phase is Done ==> (self.filter_installed ==> self.clear_failed))
        &&& (self.clear_failed ==> self.phase is Done && self.fault is Some)
    }

    /// The request parameters an operation was built with never change
    /// while it runs.
    pub open spec fn same_request(self, other: WaitOperation) -> bool {
        &&& self.frame == other.frame
        &&& self.filter_id == other.filter_id
        &&& self.timeout_ms == other.timeout_ms
        &&& self.maxpkts == other.maxpkts
    }

    /// A fresh operation, ready for the filter step.
    pub fn new(frame: CanFrame, filter_id: u32, timeout_ms: u32, maxpkts: u32) -> (r:
        WaitOperation)
        requires
            frame.wf(),
        ensures
            r.wf(),
            r.phase is SetFilter,
            r.frame == frame,
            r.filter_id == filter_id,
            r.timeout_ms == timeout_ms,
            r.maxpkts == maxpkts,
            r.count == 0,
            r.packets.frames@.len() == 0,
            !r.filter_installed,
            r.fault is None,
            !r.clear_failed,
    {
        WaitOperation {
            frame,
            filter_id,
            timeout_ms,
            maxpkts,
            phase: WaitPhase::SetFilter,
            filter_installed: false,
            clear_failed: false,
            fault: None,
            count: 0,
            packets: Packets::new(),
        }
    }

    /// The caller tried to install the response filter and reports the
    /// outcome. On success the transmit step is next; on failure no
    /// filter was installed, so the operation finishes failed with
    /// nothing to clean up.
    pub fn on_filter_set(&mut self, ok: bool)
        requires
            old(self).wf(),
            old(self).phase is SetFilter,
        ensures
            final(self).wf(),
            old(self).same_request(*final(self)),
            final(self).count == 0,
            final(self).packets.frames@.len() == 0,
            ok ==> final(self).phase is Transmit && final(self).filter_installed
                && final(self).fault is None,
            !ok ==> final(self).phase is Done && !final(self).filter_installed
                && final(self).fault == Some(RelayError::Filter) && !final(self).clear_failed,
    {
        if ok {
            self.filter_installed = true;
            self.phase = WaitPhase::Transmit;
        } else {
            self.fault = Some(RelayError::Filter);
            self.phase = WaitPhase::Done;
        }
    }

    /// The caller transmitted the frame (with forced retry) and reports
    /// the outcome. Success enters the collection phase — the moment
    /// the send counts: the caller then records it on the shared relay
    /// counters, whatever the collection later yields. Failure still
    /// owes the filter cleanup before the operation may finish.
    pub fn on_transmitted(&mut self, ok: bool)
        requires
            old(self).wf(),
            old(self).phase is Transmit,
        ensures
            final(self).wf(),
            old(self).same_request(*final(self)),
            final(self).count == 0,
            final(self).packets.frames@.len() == 0,
            final(self).filter_installed,
            ok ==> final(self).phase is Collect && final(self).fault is None,
            !ok ==> final(self).phase is ClearFilter && final(self).fault == Some(
                RelayError::Transmit,
            ),
    {
        if ok {
            self.phase = WaitPhase::Collect;
        } else {
            self.fault = Some(RelayError::Transmit);
            self.phase = WaitPhase::ClearFilter;
        }
    }

    /// The collection loop's one stop test: collection is over exactly
    /// when the packet bound is reached or the elapsed monotonic time
    /// has consumed the budget — whichever comes first.
    pub fn collect_done(&self, elapsed_ms: u64) -> (r: bool)
        requires
            self.wf(),
            self.phase is Collect,
        ensures
            r == (self.count >= self.maxpkts || elapsed_ms >= self.timeout_ms as u64),
    {
        self.count >= self.maxpkts || elapsed_ms >= self.timeout_ms as u64
    }

    /// A bounded receive returned a frame before the stop test held
    /// (a timed-out receive simply reports nothing and is not an
    /// error). The frame is appended in arrival order.
    pub fn on_received(&mut self, frame: CanFrame)
        requires
            old(self).wf(),
            old(self).phase is Collect,
            old(self).count < old(self).maxpkts,
        ensures
            final(self).wf(),
            old(self).same_request(*final(self)),
            final(self).phase is Collect,
            final(self).filter_installed,
            final(self).fault is None,
            final(self).count == old(self).count + 1,
            final(self).packets.frames@.drop_last() == old(self).packets.frames@,
            renders_frame(final(self).packets.frames@.last(), frame),
    {
        self.count = self.count + 1;
        self.packets.add_frame(frame);
    }

    /// The stop test held — the packet bound is reached or the time
    /// budget is spent; nothing else ends collection. The filter,
    /// still installed, must now be cleared back to accept-all.
    pub fn finish_collect(&mut self, elapsed_ms: u64)
        requires
            old(self).wf(),
            old(self).phase is Collect,
            old(self).count >= old(self).maxpkts || elapsed_ms >= old(self).timeout_ms as u64,
        ensures
            final(self).wf(),
            old(self).same_request(*final(self)),
            final(self).phase is ClearFilter,
            final(self).filter_installed,
            final(self).fault is None,
            final(self).count == old(self).count,
            final(self).packets.frames@ == old(self).packets.frames@,
    {
        self.phase = WaitPhase::ClearFilter;
    }

    /// The caller tried to restore the accept-all filter and reports
    /// the outcome. On success the filter is gone and the operation
    /// finishes with whatever verdict the earlier steps earned; on
    /// failure the operation reports failure even though frames may
    /// already have been collected — the packet list stays.
    pub fn on_cleared(&mut self, ok: bool)
        requires
            old(self).wf(),
            old(self).phase is ClearFilter,
        ensures
            final(self).wf(),
            old(self).same_request(*final(self)),
            final(self).phase is Done,
            final(self).count == old(self).count,
            final(self).packets.frames@ == old(self).packets.frames@,
            ok ==> !final(self).filter_installed && final(self).fault == old(self).fault
                && !final(self).clear_failed,
            !ok ==> final(self).clear_failed && final(self).filter_installed == old(
                self,
            ).filter_installed && final(self).fault == (match old(self).fault {
                Some(e) => Some(e),
                None => Some(RelayError::FilterReset),
            }),
    {
        if ok {
            self.filter_installed = false;
        } else {
            self.clear_failed = true;
            if self.fault.is_none() {
                self.fault = Some(RelayError::FilterReset);
            }
        }
        self.phase = WaitPhase::Done;
    }

    /// The operation's outcome: success exactly when no step failed,
    /// and the collected frames, still in arrival order and within the
    /// packet bound.
    pub fn into_result(self) -> (r: Packets)
        requires
            self.wf(),
            self.phase is Done,
        ensures
            r.success == Some(self.fault is None),
            r.frames@ == self.packets.frames@,
            r.frames@.len() <= self.maxpkts as nat,
    {
        let mut p = self.packets;
        p.success = Some(self.fault.is_none());
        p
    }
}

/// Bound termination, the count half: while collecting, the stored
/// frames never exceed the packet bound (`collect_done` states the time
/// half: the stop test holds as soon as the elapsed time reaches the
/// budget).
pub proof fn lemma_collect_bound(op: WaitOperation)
    requires
        op.wf(),
        op.phase is Collect,
    ensures
        op.packets.frames@.len() <= op.maxpkts as nat,
{
}

/// Filter cleanup: a finished operation whose clear step did not fail
/// holds no filter — the bus is back to accept-all on every path,
/// success or failure, zero frames or many.
pub proof fn lemma_filter_cleanup(op: WaitOperation)
    requires
        op.wf(),
        op.phase is Done,
        !op.clear_failed,
    ensures
        !op.filter_installed,
{
}

/// The padding request is usable: absent, or a hex numeral naming one
/// byte.
pub open spec fn padding_ok(p: Option<Seq<char>>) -> bool {
    match p {
        None => true,
        Some(s) => valid_hex_number(s) && hex_number_value(s) <= 0xFF,
    }
}

/// The padding byte a usable padding request names.
pub open spec fn padding_byte(p: Option<Seq<char>>) -> Option<u8> {
    match p {
        None => None,
        Some(s) => Some(hex_number_value(s) as u8),
    }
}

/// The views of an optional hex field.
pub open spec fn opt_view(p: Option<&str>) -> Option<Seq<char>> {
    match p {
        None => None,
        Some(s) => Some(s@),
    }
}

/// The inputs of a wait request that yield a runnable operation.
pub open spec fn wait_request_ok(
    srcid: Seq<char>,
    dstid: Seq<char>,
    data: Seq<char>,
    padding: Option<Seq<char>>,
) -> bool {
    &&& u32_parses(srcid)
    &&& hex_number_value(srcid) <= MAX_STANDARD_ID
    &&& u32_parses(dstid)
    &&& valid_hex_string(data)
    &&& hex_bytes(data).len() <= 255
    &&& padding_ok(padding)
}

/// The pure half of the wait operation's setup: parses the source and
/// destination identifiers, decodes the payload, applies the ISO-TP
/// length-prefix, truncation and padding rules, and fills in the
/// default time budget and packet bound. A malformed hex field is a
/// decode failure — never a crash of the serving process; an
/// out-of-range source identifier or a payload too long for a length
/// prefix is a frame-build failure. The time budget and packet bound
/// are bounded by their `u32` range; each request occupies one worker
/// for at most its budget.
pub fn prepare_wait(
    srcid: &str,
    dstid: &str,
    data_hex: &str,
    timeout: Option<u32>,
    maxpkts: Option<u32>,
    padding: Option<&str>,
) -> (r: Result<WaitOperation, RelayError>)
    ensures
        r matches Ok(op) <==> wait_request_ok(srcid@, dstid@, data_hex@, opt_view(padding)),
        r matches Ok(op) ==> {
            &&& op.wf()
            &&& op.phase is SetFilter
            &&& op.frame.id as nat == hex_number_value(srcid@)
            &&& op.frame.data@ == isotp_payload(hex_bytes(data_hex@), padding_byte(opt_view(padding)))
            &&& op.filter_id as nat == hex_number_value(dstid@)
            &&& op.timeout_ms == (match timeout {
                Some(t) => t,
                None => DEFAULT_TIMEOUT_MS,
            })
            &&& op.maxpkts == (match maxpkts {
                Some(m) => m,
                None => DEFAULT_MAXPKTS,
            })
            &&& op.count == 0
            &&& op.packets.frames@.len() == 0
        },
        !u32_parses(srcid@) ==> (r matches Err(e) && e == RelayError::Decode),
        u32_parses(srcid@) && hex_number_value(srcid@) > MAX_STANDARD_ID ==> (r matches Err(e)
            && e == RelayError::FrameBuild),
        u32_parses(srcid@) && hex_number_value(srcid@) <= MAX_STANDARD_ID && !u32_parses(dstid@)
            ==> (r matches Err(e) && e == RelayError::Decode),
        u32_parses(srcid@) && hex_number_value(srcid@) <= MAX_STANDARD_ID && u32_parses(dstid@)
            && !valid_hex_string(data_hex@) ==> (r matches Err(e) && e == RelayError::Decode),
        u32_parses(srcid@) && hex_number_value(srcid@) <= MAX_STANDARD_ID && u32_parses(dstid@)
            && valid_hex_string(data_hex@) && !padding_ok(opt_view(padding)) ==> (r matches Err(e)
            && e == RelayError::Decode),
        u32_parses(srcid@) && hex_number_value(srcid@) <= MAX_STANDARD_ID && u32_parses(dstid@)
            && valid_hex_string(data_hex@) && padding_ok(opt_view(padding)) && hex_bytes(
            data_hex@,
        ).len() > 255 ==> (r matches Err(e) && e == RelayError::FrameBuild),
{
    let src = match parse_hex_u32(srcid) {
        Some(v) => v,
        None => {
            return Err(RelayError::Decode);
        },
    };
    if src > MAX_STANDARD_ID {
        return Err(RelayError::FrameBuild);
    }
    let dst = match parse_hex_u32(dstid) {
        Some(v) => v,
        None => {
            return Err(RelayError::Decode);
        },
    };
    let data = match decode_payload(data_hex) {
        Ok(d) => d,
        Err(e) => {
            return Err(e);
        },
    };
    let pad: Option<u8> = match padding {
        Some(p) => {
            let v = match parse_hex_u32(p) {
                Some(v) => v,
                None => {
                    return Err(RelayError::Decode);
                },
            };
            if v > 0xFF {
                return Err(RelayError::Decode);
            }
            Some(v as u8)
        },
        None => None,
    };
    let payload = match build_isotp_payload(&data, pad) {
        Ok(v) => v,
        Err(e) => {
            return Err(e);
        },
    };
    let frame = match CanFrame::new(src, payload) {
        Ok(f) => f,
        Err(e) => {
            return Err(e);
        },
    };
    let t = match timeout {
        Some(t) => t,
        None => DEFAULT_TIMEOUT_MS,
    };
    let m = match maxpkts {
        Some(m) => m,
        None => DEFAULT_MAXPKTS,
    };
    Ok(WaitOperation::new(frame, dst, t, m))
}

} // verus!
