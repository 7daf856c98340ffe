use vstd::prelude::*;

use crate::bytes::{is_terminator, CANCEL_BYTE};
use crate::errors::DeviceError;
use crate::pending::{
    pending_bytes, pending_clear, pending_contents, pending_len, pending_new, pending_push,
    PendingBuf,
};

verus! {

/// Room kept for the CRLF that every flushed line carries, so a full line
/// plus its terminator always fits the pending buffer.
pub const PENDING_LIMIT: usize = 254;

/// What one timeout-bounded UART read gave the bridge.
#[derive(Clone, Copy, PartialEq, Eq, Structural, Debug)]
pub enum UartEvent {
    /// The bounded wait elapsed with no byte: the expected idle case.
    Timeout,
    /// One byte arrived from the console user.
    Byte(u8),
    /// A hard read error (not a timeout).
    ReadFailed,
}

/// What the bridge decided to do with one UART event. Every received byte is
/// echoed back to the console as it was typed; a flushed line is echoed with
/// a newline.
#[derive(PartialEq, Eq, Debug)]
pub enum UartOutcome {
    /// Nothing happened; poll the AT socket and go round again.
    Idle,
    /// The byte was echoed and appended to the pending line.
    Echoed(u8),
    /// The byte was echoed, but the pending line is at its limit and the
    /// byte was dropped — the bridge's deterministic overflow policy.
    Dropped(u8),
    /// A terminator arrived: write exactly these bytes — the pending line
    /// followed by CRLF — to the AT socket; the pending line is now empty.
    Flush(Vec<u8>),
    /// The cancel byte arrived: leave the bridge, discarding any pending
    /// line, and return to normal dispatch.
    Exit,
    /// The UART read failed hard: leave the bridge with a read-error report.
    Abort,
}

/// What the bridge decided after one non-blocking AT-socket read.
#[derive(PartialEq, Eq, Debug)]
pub enum RelayOutcome {
    /// No data was available.
    Quiet,
    /// Write exactly these bytes to the console: the received bytes minus
    /// the command-terminating NUL.
    Forward(Vec<u8>),
    /// The socket read failed: leave the bridge reporting this error.
    Fail(DeviceError),
}

/// The pending line after one received byte: a cancel or a terminator
/// empties it, an ordinary byte is appended while the limit allows, and
/// beyond the limit the byte is dropped.
pub open spec fn spec_pending_after(p: Seq<u8>, b: u8) -> Seq<u8> {
    if b == CANCEL_BYTE {
        Seq::empty()
    } else if is_terminator(b) {
        Seq::empty()
    } else if p.len() < PENDING_LIMIT {
        p.push(b)
    } else {
        p
    }
}

/// The pending line after a whole sequence of received bytes.
pub open spec fn spec_store_run(p: Seq<u8>, bs: Seq<u8>) -> Seq<u8>
    decreases bs.len(),
{
    if bs.len() == 0 {
        p
    } else {
        spec_store_run(spec_pending_after(p, bs[0]), bs.drop_first())
    }
}

/// The pending line after one UART event: only a received byte can move it.
pub open spec fn spec_pending_after_event(p: Seq<u8>, ev: UartEvent) -> Seq<u8> {
    match ev {
        UartEvent::Timeout => p,
        UartEvent::ReadFailed => p,
        UartEvent::Byte(b) => spec_pending_after(p, b),
    }
}

/// The pending line after a whole run of UART events.
pub open spec fn spec_event_run(p: Seq<u8>, evs: Seq<UartEvent>) -> Seq<u8>
    decreases evs.len(),
{
    if evs.len() == 0 {
        p
    } else {
        spec_event_run(spec_pending_after_event(p, evs[0]), evs.drop_first())
    }
}

/// A byte the bridge stores: neither the cancel byte nor a terminator.
pub open spec fn ordinary_byte(b: u8) -> bool {
    b != CANCEL_BYTE && !is_terminator(b)
}

/// The AT pass-through bridge: relays bytes between the console UART and the
/// modem's AT socket until the cancel byte or a hard error.
pub struct Bridge {
    pending: PendingBuf,
}

impl Bridge {
    /// The pending line: what the user has typed since the last flush.
    pub closed spec fn pending(&self) -> Seq<u8> {
        pending_bytes(self.pending)
    }

    pub open spec fn wf(&self) -> bool {
        self.pending().len() <= PENDING_LIMIT
    }

    /// Enters the bridge with nothing pending (the socket was just opened).
    pub fn open() -> (b: Bridge)
        ensures
            b.wf(),
            b.pending() == Seq::<u8>::empty(),
    {
        Bridge { pending: pending_new() }
    }

    /// Step one: what one timeout-bounded console read means for the bridge.
    /// A timeout is the expected idle case and changes nothing; the cancel
    /// byte always exits, whatever is pending; a terminator flushes the
    /// pending line with CRLF appended; any other byte joins the pending
    /// line (and is dropped once the line is at its limit).
    pub fn on_uart_event(&mut self, ev: UartEvent) -> (r: UartOutcome)
        requires
            old(self).wf(),
        ensures
            final(self).wf(),
            final(self).pending() == spec_pending_after_event(old(self).pending(), ev),
            ev == UartEvent::Timeout ==> (r is Idle && final(self).pending() == old(
                self,
            ).pending()),
            ev == UartEvent::ReadFailed ==> (r is Abort && final(self).pending() == old(
                self,
            ).pending()),
            ev matches UartEvent::Byte(b) ==> final(self).pending() == spec_pending_after(
                old(self).pending(),
                b,
            ),
            ev == UartEvent::Byte(CANCEL_BYTE) ==> r is Exit,
            ev matches UartEvent::Byte(b) ==> ((b != CANCEL_BYTE && is_terminator(b)) ==> (r
                matches UartOutcome::Flush(w) && w@ == old(self).pending() + seq![13u8, 10u8])),
            ev matches UartEvent::Byte(b) ==> ((ordinary_byte(b) && old(self).pending().len()
                < PENDING_LIMIT) ==> (r matches UartOutcome::Echoed(x) && x == b)),
            ev matches UartEvent::Byte(b) ==> ((ordinary_byte(b) && old(self).pending().len()
                >= PENDING_LIMIT) ==> (r matches UartOutcome::Dropped(x) && x == b)),
    {
        match ev {
            UartEvent::Timeout => UartOutcome::Idle,
            UartEvent::ReadFailed => UartOutcome::Abort,
            UartEvent::Byte(b) => {
                if b == CANCEL_BYTE {
                    pending_clear(&mut self.pending);
                    UartOutcome::Exit
                } else if b == 10 || b == 13 {
                    let mut w = pending_contents(&self.pending);
                    w.push(13);
                    w.push(10);
                    pending_clear(&mut self.pending);
                    proof {
                        assert(w@ =~= old(self).pending() + seq![13u8, 10u8]);
                    }
                    UartOutcome::Flush(w)
                } else {
                    if pending_len(&self.pending) < PENDING_LIMIT {
                        pending_push(&mut self.pending, b);
                        UartOutcome::Echoed(b)
                    } else {
                        UartOutcome::Dropped(b)
                    }
                }
            },
        }
    }

    /// Step two, run every cycle: what one non-blocking AT-socket read means.
    /// `buf` is the scratch buffer the read filled and `r` its result: no
    /// data, a positive byte count, or an error. A count of `n` forwards the
    /// first `n - 1` bytes to the console, dropping the trailing NUL.
    pub fn on_socket_read(buf: &[u8], r: &Result<Option<usize>, DeviceError>) -> (out:
        RelayOutcome)
        requires
            r matches Ok(Some(n)) ==> 1 <= *n <= buf@.len(),
        ensures
            r matches Ok(None) ==> out is Quiet,
            r matches Err(e) ==> (out matches RelayOutcome::Fail(e2) && e2 == *e),
            r matches Ok(Some(n)) ==> (out matches RelayOutcome::Forward(v) && v@ == buf@.subrange(
                0,
                *n - 1,
            )),
    {
        match r {
            Err(e) => RelayOutcome::Fail(*e),
            Ok(None) => RelayOutcome::Quiet,
            Ok(Some(n)) => RelayOutcome::Forward(crate::bytes::copy_range(buf, 0, *n - 1)),
        }
    }
}

/// Law: idle polling is idempotent. Over a run of cycles in which every
/// UART read times out, the bridge's pending line never moves — and by the
/// step contracts above each such cycle's outcomes are Idle and Quiet, which
/// carry no output.
pub proof fn lemma_idle_polling_is_idempotent(p: Seq<u8>, evs: Seq<UartEvent>)
    requires
        forall|i: int| 0 <= i < evs.len() ==> evs[i] == UartEvent::Timeout,
    ensures
        spec_event_run(p, evs) == p,
    decreases evs.len(),
{
    if evs.len() > 0 {
        assert(evs[0] == UartEvent::Timeout);
        lemma_idle_polling_is_idempotent(p, evs.drop_first());
    }
}

/// Law: a run of UART events that are all received bytes moves the pending
/// line exactly as the byte-level model says, so the byte laws below apply
/// to event runs as well.
pub proof fn lemma_byte_events_act_as_bytes(p: Seq<u8>, bs: Seq<u8>)
    ensures
        spec_event_run(p, bs.map_values(|b: u8| UartEvent::Byte(b))) == spec_store_run(p, bs),
    decreases bs.len(),
{
    let evs = bs.map_values(|b: u8| UartEvent::Byte(b));
    if bs.len() > 0 {
        assert(evs[0] == UartEvent::Byte(bs[0]));
        lemma_byte_events_act_as_bytes(spec_pending_after(p, bs[0]), bs.drop_first());
        assert(bs.drop_first().map_values(|b: u8| UartEvent::Byte(b)) =~= evs.drop_first());
    }
}

/// Law: typing ordinary bytes only appends them — starting from any pending
/// line with room for them, a run of ordinary bytes (each echoed as itself)
/// leaves the pending line equal to the old line followed by exactly those
/// bytes. With the flush contract above, the one write a terminator then
/// emits is that line with CRLF appended.
pub proof fn lemma_typed_line_flushes_exactly(p: Seq<u8>, bs: Seq<u8>)
    requires
        p.len() + bs.len() <= PENDING_LIMIT,
        forall|i: int| 0 <= i < bs.len() ==> ordinary_byte(bs[i]),
    ensures
        spec_store_run(p, bs) == p + bs,
    decreases bs.len(),
{
    if bs.len() == 0 {
        assert(p + bs =~= p);
    } else {
        assert(spec_pending_after(p, bs[0]) == p.push(bs[0]));
        lemma_typed_line_flushes_exactly(p.push(bs[0]), bs.drop_first());
        assert(p.push(bs[0]) + bs.drop_first() =~= p + bs);
    }
}

/// Law, at the bridge's entry state: a line of ordinary bytes typed from an
/// empty pending line is stored exactly as echoed.
pub proof fn lemma_line_from_clean_buffer(bs: Seq<u8>)
    requires
        bs.len() <= PENDING_LIMIT,
        forall|i: int| 0 <= i < bs.len() ==> ordinary_byte(bs[i]),
    ensures
        spec_store_run(Seq::empty(), bs) == bs,
{
    lemma_typed_line_flushes_exactly(Seq::empty(), bs);
    assert(Seq::<u8>::empty() + bs =~= bs);
}

} // verus!
