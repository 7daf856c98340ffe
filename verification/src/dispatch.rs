use vstd::prelude::*;

use crate::bytes::{byte_is_ws, bytes_eq, copy_range, is_ws};

verus! {

/// The console commands, one per entry of the command table, in table order.
#[derive(Clone, Copy, PartialEq, Eq, Structural, Debug)]
pub enum Command {
    /// Power the modem on and start GNSS acquisition.
    On,
    /// Query or set the system mode (LTE-M, NB-IoT, GPS).
    Mode,
    /// Put the modem into flight mode.
    Flight,
    /// Power the modem off.
    Off,
    /// Wait for LTE registration.
    Wait,
    /// Run the fixed list of diagnostic queries.
    Stat,
    /// Fetch a document over TLS.
    Get,
    /// Provision the CA certificate chain.
    Store,
    /// Deliberately enter the unrecoverable-fault path.
    Panic,
    /// Read a single GNSS fix.
    Fix,
    /// Enter the AT pass-through bridge.
    GoAt,
    /// The literal query `AT+CFUN?`: answer it, then enter the bridge.
    GoAtFun,
}

/// The bytes of `on`.
pub open spec fn tok_on() -> Seq<u8> {
    seq![111u8, 110]
}

/// The bytes of `mode`.
pub open spec fn tok_mode() -> Seq<u8> {
    seq![109u8, 111, 100, 101]
}

/// The bytes of `flight`.
pub open spec fn tok_flight() -> Seq<u8> {
    seq![102u8, 108, 105, 103, 104, 116]
}

/// The bytes of `off`.
pub open spec fn tok_off() -> Seq<u8> {
    seq![111u8, 102, 102]
}

/// The bytes of `wait`.
pub open spec fn tok_wait() -> Seq<u8> {
    seq![119u8, 97, 105, 116]
}

/// The bytes of `stat`.
pub open spec fn tok_stat() -> Seq<u8> {
    seq![115u8, 116, 97, 116]
}

/// The bytes of `get`.
pub open spec fn tok_get() -> Seq<u8> {
    seq![103u8, 101, 116]
}

/// The bytes of `store`.
pub open spec fn tok_store() -> Seq<u8> {
    seq![115u8, 116, 111, 114, 101]
}

/// The bytes of `panic`.
pub open spec fn tok_panic() -> Seq<u8> {
    seq![112u8, 97, 110, 105, 99]
}

/// The bytes of `fix`.
pub open spec fn tok_fix() -> Seq<u8> {
    seq![102u8, 105, 120]
}

/// The bytes of `go_at`.
pub open spec fn tok_go_at() -> Seq<u8> {
    seq![103u8, 111, 95, 97, 116]
}

/// The bytes of `AT+CFUN?`, itself a valid AT command used as a trigger.
pub open spec fn tok_at_cfun() -> Seq<u8> {
    seq![65u8, 84, 43, 67, 70, 85, 78, 63]
}

/// Table lookup: exact, case-sensitive match in table order; the first match
/// wins, and the tokens are pairwise distinct.
pub open spec fn spec_lookup(t: Seq<u8>) -> Option<Command> {
    if t == tok_on() {
        Some(Command::On)
    } else if t == tok_mode() {
        Some(Command::Mode)
    } else if t == tok_flight() {
        Some(Command::Flight)
    } else if t == tok_off() {
        Some(Command::Off)
    } else if t == tok_wait() {
        Some(Command::Wait)
    } else if t == tok_stat() {
        Some(Command::Stat)
    } else if t == tok_get() {
        Some(Command::Get)
    } else if t == tok_store() {
        Some(Command::Store)
    } else if t == tok_panic() {
        Some(Command::Panic)
    } else if t == tok_fix() {
        Some(Command::Fix)
    } else if t == tok_go_at() {
        Some(Command::GoAt)
    } else if t == tok_at_cfun() {
        Some(Command::GoAtFun)
    } else {
        None
    }
}

/// Index of the first whitespace byte at or after `i`, or the length if
/// there is none.
pub open spec fn first_ws_from(s: Seq<u8>, i: int) -> int
    decreases s.len() - i,
{
    if i < 0 || i >= s.len() {
        s.len() as int
    } else if is_ws(s[i]) {
        i
    } else {
        first_ws_from(s, i + 1)
    }
}

/// The first-whitespace scan never moves backwards and never runs past the
/// end.
pub proof fn lemma_first_ws_bounds(s: Seq<u8>, i: int)
    requires
        0 <= i <= s.len(),
    ensures
        i <= first_ws_from(s, i) <= s.len(),
    decreases s.len() - i,
{
    if i < s.len() && !is_ws(s[i]) {
        lemma_first_ws_bounds(s, i + 1);
    }
}

/// Index of the first non-whitespace byte at or after `i`, or the length if
/// there is none.
pub open spec fn skip_ws_from(s: Seq<u8>, i: int) -> int
    decreases s.len() - i,
{
    if i < 0 || i >= s.len() {
        s.len() as int
    } else if is_ws(s[i]) {
        skip_ws_from(s, i + 1)
    } else {
        i
    }
}

/// The leading command token of a line: everything before the first
/// whitespace run.
pub open spec fn token_of(s: Seq<u8>) -> Seq<u8> {
    s.subrange(0, first_ws_from(s, 0))
}

/// The argument text of a line: everything after the first whitespace run,
/// passed verbatim to the handler.
pub open spec fn rest_of(s: Seq<u8>) -> Seq<u8> {
    s.subrange(skip_ws_from(s, first_ws_from(s, 0)), s.len() as int)
}

/// The session state threaded through every handler invocation: the model of
/// the free-running timer handle, refreshed by the runtime before each call.
#[derive(Clone, Copy, PartialEq, Eq, Structural, Debug)]
pub struct SessionContext {
    pub timer_ticks: u64,
}

/// What the dispatcher decided about one completed line.
#[derive(PartialEq, Eq, Debug)]
pub enum Dispatch {
    /// The leading token matches no table entry: report an unknown command.
    Unknown,
    /// Run this command's handler on the argument text.
    Invoke(Command, Vec<u8>),
}

/// Looks a command token up in the table.
pub fn lookup_command(token: &[u8]) -> (r: Option<Command>)
    ensures
        r == spec_lookup(token@),
{
    let pat: Vec<u8> = vec![111u8, 110];
    proof {
        assert(pat@ =~= tok_on());
    }
    if bytes_eq(token, pat.as_slice()) {
        return Some(Command::On);
    }
    let pat: Vec<u8> = vec![109u8, 111, 100, 101];
    proof {
        assert(pat@ =~= tok_mode());
    }
    if bytes_eq(token, pat.as_slice()) {
        return Some(Command::Mode);
    }
    let pat: Vec<u8> = vec![102u8, 108, 105, 103, 104, 116];
    proof {
        assert(pat@ =~= tok_flight());
    }
    if bytes_eq(token, pat.as_slice()) {
        return Some(Command::Flight);
    }
    let pat: Vec<u8> = vec![111u8, 102, 102];
    proof {
        assert(pat@ =~= tok_off());
    }
    if bytes_eq(token, pat.as_slice()) {
        return Some(Command::Off);
    }
    let pat: Vec<u8> = vec![119u8, 97, 105, 116];
    proof {
        assert(pat@ =~= tok_wait());
    }
    if bytes_eq(token, pat.as_slice()) {
        return Some(Command::Wait);
    }
    let pat: Vec<u8> = vec![115u8, 116, 97, 116];
    proof {
        assert(pat@ =~= tok_stat());
    }
    if bytes_eq(token, pat.as_slice()) {
        return Some(Command::Stat);
    }
    let pat: Vec<u8> = vec![103u8, 101, 116];
    proof {
        assert(pat@ =~= tok_get());
    }
    if bytes_eq(token, pat.as_slice()) {
        return Some(Command::Get);
    }
    let pat: Vec<u8> = vec![115u8, 116, 111, 114, 101];
    proof {
        assert(pat@ =~= tok_store());
    }
    if bytes_eq(token, pat.as_slice()) {
        return Some(Command::Store);
    }
    let pat: Vec<u8> = vec![112u8, 97, 110, 105, 99];
    proof {
        assert(pat@ =~= tok_panic());
    }
    if bytes_eq(token, pat.as_slice()) {
        return Some(Command::Panic);
    }
    let pat: Vec<u8> = vec![102u8, 105, 120];
    proof {
        assert(pat@ =~= tok_fix());
    }
    if bytes_eq(token, pat.as_slice()) {
        return Some(Command::Fix);
    }
    let pat: Vec<u8> = vec![103u8, 111, 95, 97, 116];
    proof {
        assert(pat@ =~= tok_go_at());
    }
    if bytes_eq(token, pat.as_slice()) {
        return Some(Command::GoAt);
    }
    let pat: Vec<u8> = vec![65u8, 84, 43, 67, 70, 85, 78, 63];
    proof {
        assert(pat@ =~= tok_at_cfun());
    }
    if bytes_eq(token, pat.as_slice()) {
        return Some(Command::GoAtFun);
    }
    None
}

/// Splits a completed line at the first whitespace run into the command
/// token and the verbatim argument text.
pub fn split_line(line: &[u8]) -> (r: (Vec<u8>, Vec<u8>))
    ensures
        r.0@ == token_of(line@),
        r.1@ == rest_of(line@),
{
    let mut k: usize = 0;
    while k < line.len() && !byte_is_ws(line[k])
        invariant
            k <= line@.len(),
            first_ws_from(line@, 0) == first_ws_from(line@, k as int),
        decreases line@.len() - k,
    {
        k += 1;
    }
    proof {
        assert(first_ws_from(line@, 0) == k as int);
    }
    let mut m: usize = k;
    while m < line.len() && byte_is_ws(line[m])
        invariant
            k <= m <= line@.len(),
            skip_ws_from(line@, k as int) == skip_ws_from(line@, m as int),
        decreases line@.len() - m,
    {
        m += 1;
    }
    proof {
        assert(skip_ws_from(line@, k as int) == m as int);
    }
    let token = copy_range(line, 0, k);
    let rest = copy_range(line, m, line.len());
    (token, rest)
}

/// Routes one completed line: looks the leading token up in the table and
/// either hands the argument text to that command or reports it unknown.
/// The session context is never touched by dispatch itself.
pub fn dispatch_line(line: &[u8], ctx: &mut SessionContext) -> (d: Dispatch)
    ensures
        *final(ctx) == *old(ctx),
        spec_lookup(token_of(line@)) is None <==> d is Unknown,
        (d matches Dispatch::Invoke(c, rest) ==> spec_lookup(token_of(line@)) == Some(c) && rest@
            == rest_of(line@)),
{
    let (token, rest) = split_line(line);
    match lookup_command(token.as_slice()) {
        Some(c) => Dispatch::Invoke(c, rest),
        None => Dispatch::Unknown,
    }
}

} // verus!
