use vstd::prelude::*;

use crate::bytes::{is_terminator, CANCEL_BYTE};

verus! {

/// Capacity of the line buffer, in bytes.
pub const LINE_CAPACITY: usize = 64;

/// A printable byte that the line reader accumulates. Terminators, backspace
/// codes and the other control bytes are handled separately and never stored.
pub open spec fn is_printable(b: u8) -> bool {
    32 <= b && b <= 126
}

/// A backspace or delete code: the user erasing the last typed byte.
pub open spec fn is_erase(b: u8) -> bool {
    b == 8 || b == 127
}

/// What the line reader did with one incoming byte.
#[derive(PartialEq, Eq, Debug)]
pub enum LineEvent {
    /// The byte was stored; echo it back as typed.
    Stored(u8),
    /// The last buffered byte was erased (or there was nothing to erase).
    Erased,
    /// The buffer is at capacity: the byte was silently dropped. This is the
    /// reader's deterministic overflow policy — input past the capacity is
    /// discarded until a terminator arrives.
    DroppedFull(u8),
    /// The cancel byte (Ctrl-C): the line being typed was abandoned and the
    /// buffer cleared.
    Aborted,
    /// A control byte the reader does not interpret; nothing changed.
    Ignored,
    /// A terminator arrived: the finished line, with the buffer cleared for
    /// the next one. Echo a newline.
    Ready(Vec<u8>),
}

/// Accumulates incoming bytes into one command line at a time.
pub struct LineReader {
    buf: Vec<u8>,
}

impl LineReader {
    /// The bytes accumulated so far for the line being typed.
    pub closed spec fn buffered(&self) -> Seq<u8> {
        self.buf@
    }

    pub open spec fn wf(&self) -> bool {
        self.buffered().len() <= LINE_CAPACITY
    }

    pub fn new() -> (r: LineReader)
        ensures
            r.wf(),
            r.buffered() == Seq::<u8>::empty(),
    {
        LineReader { buf: Vec::new() }
    }

    /// Drops whatever has been typed so far (an aborted line).
    pub fn reset(&mut self)
        ensures
            final(self).wf(),
            final(self).buffered() == Seq::<u8>::empty(),
    {
        self.buf = Vec::new();
    }

    /// Feeds one byte from the UART into the reader.
    pub fn push_byte(&mut self, b: u8) -> (ev: LineEvent)
        requires
            old(self).wf(),
        ensures
            final(self).wf(),
            is_terminator(b) ==> (ev matches LineEvent::Ready(l) && l@ == old(self).buffered()
                && final(self).buffered() == Seq::<u8>::empty()),
            b == CANCEL_BYTE ==> (ev matches LineEvent::Aborted && final(self).buffered()
                == Seq::<u8>::empty()),
            is_erase(b) ==> (ev matches LineEvent::Erased && final(self).buffered() == (
            if old(self).buffered().len() > 0 {
                old(self).buffered().drop_last()
            } else {
                old(self).buffered()
            })),
            (is_printable(b) && old(self).buffered().len() < LINE_CAPACITY) ==> (ev
                matches LineEvent::Stored(x) && x == b && final(self).buffered() == old(
            self,
            ).buffered().push(b)),
            (is_printable(b) && old(self).buffered().len() >= LINE_CAPACITY) ==> (ev
                matches LineEvent::DroppedFull(x) && x == b && final(self).buffered() == old(
            self,
            ).buffered()),
            (!is_terminator(b) && b != CANCEL_BYTE && !is_erase(b) && !is_printable(b)) ==> (ev
                matches LineEvent::Ignored && final(self).buffered() == old(self).buffered()),
    {
        if b == 10 || b == 13 {
            let mut line: Vec<u8> = Vec::new();
            core::mem::swap(&mut line, &mut self.buf);
            LineEvent::Ready(line)
        } else if b == CANCEL_BYTE {
            self.buf = Vec::new();
            LineEvent::Aborted
        } else if b == 8 || b == 127 {
            if self.buf.len() > 0 {
                self.buf.pop();
            }
            LineEvent::Erased
        } else if 32 <= b && b <= 126 {
            if self.buf.len() < LINE_CAPACITY {
                self.buf.push(b);
                LineEvent::Stored(b)
            } else {
                LineEvent::DroppedFull(b)
            }
        } else {
            LineEvent::Ignored
        }
    }
}

} // verus!
