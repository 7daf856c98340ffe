use vstd::prelude::*;

use crate::bytes::{byte_is_ws, byte_views, bytes_eq_lower, copy_range, is_ws, lower_seq};

verus! {

/// The tri-state system-mode flag vector, in the order the mode-set command
/// writes it: LTE-M, NB-IoT, GPS. All flags default to off.
#[derive(Clone, Copy, PartialEq, Eq, Structural, Debug)]
pub struct ModeFlags {
    pub ltem: bool,
    pub nbiot: bool,
    pub gps: bool,
}

/// The bytes of `gps`.
pub open spec fn tok_gps() -> Seq<u8> {
    seq![103u8, 112, 115]
}

/// The bytes of `nbiot`.
pub open spec fn tok_nbiot() -> Seq<u8> {
    seq![110u8, 98, 105, 111, 116]
}

/// The bytes of `nb-iot`.
pub open spec fn tok_nb_iot() -> Seq<u8> {
    seq![110u8, 98, 45, 105, 111, 116]
}

/// The bytes of `ltem`.
pub open spec fn tok_ltem() -> Seq<u8> {
    seq![108u8, 116, 101, 109]
}

/// The bytes of `lte-m`.
pub open spec fn tok_lte_m() -> Seq<u8> {
    seq![108u8, 116, 101, 45, 109]
}

pub open spec fn is_gps_token(t: Seq<u8>) -> bool {
    lower_seq(t) == tok_gps()
}

pub open spec fn is_nbiot_token(t: Seq<u8>) -> bool {
    lower_seq(t) == tok_nbiot() || lower_seq(t) == tok_nb_iot()
}

pub open spec fn is_ltem_token(t: Seq<u8>) -> bool {
    lower_seq(t) == tok_ltem() || lower_seq(t) == tok_lte_m()
}

pub open spec fn token_recognized(t: Seq<u8>) -> bool {
    is_gps_token(t) || is_nbiot_token(t) || is_ltem_token(t)
}

pub open spec fn all_recognized(ts: Seq<Seq<u8>>) -> bool {
    forall|i: int| 0 <= i < ts.len() ==> token_recognized(ts[i])
}

/// The flag vector a token list asks for: a flag is set exactly when some
/// token (of any case) names it, so order and duplicates do not matter.
pub open spec fn spec_mode_flags(ts: Seq<Seq<u8>>) -> ModeFlags {
    ModeFlags {
        ltem: exists|i: int| 0 <= i < ts.len() && is_ltem_token(ts[i]),
        nbiot: exists|i: int| 0 <= i < ts.len() && is_nbiot_token(ts[i]),
        gps: exists|i: int| 0 <= i < ts.len() && is_gps_token(ts[i]),
    }
}

pub open spec fn no_flags(f: ModeFlags) -> bool {
    !f.ltem && !f.nbiot && !f.gps
}

/// The digit byte a flag is written as: `1` when set, `0` when clear.
pub open spec fn flag_digit(b: bool) -> u8 {
    if b {
        49
    } else {
        48
    }
}

/// The bytes of `AT%XSYSTEMMODE=`.
pub open spec fn sysmode_set_prefix() -> Seq<u8> {
    seq![65u8, 84, 37, 88, 83, 89, 83, 84, 69, 77, 77, 79, 68, 69, 61]
}

/// The system-mode-set command for a flag vector: the prefix, the three
/// flags as digits in LTE-M, NB-IoT, GPS order, and a fixed trailing `0`.
pub open spec fn spec_mode_set_command(f: ModeFlags) -> Seq<u8> {
    sysmode_set_prefix() + seq![
        flag_digit(f.ltem),
        44,
        flag_digit(f.nbiot),
        44,
        flag_digit(f.gps),
        44,
        48,
    ]
}

/// The bytes of the system-mode query `AT%XSYSTEMMODE?`.
pub open spec fn spec_mode_query() -> Seq<u8> {
    seq![65u8, 84, 37, 88, 83, 89, 83, 84, 69, 77, 77, 79, 68, 69, 63]
}

/// Splits argument text into whitespace-separated tokens.
pub open spec fn spec_tokens(s: Seq<u8>) -> Seq<Seq<u8>>
    decreases s.len(),
    via spec_tokens_decreases
{
    if s.len() == 0 {
        Seq::empty()
    } else if is_ws(s[0]) {
        spec_tokens(s.drop_first())
    } else {
        let k = crate::dispatch::first_ws_from(s, 0);
        seq![s.subrange(0, k)] + spec_tokens(s.subrange(k, s.len() as int))
    }
}

#[via_fn]
proof fn spec_tokens_decreases(s: Seq<u8>) {
    if s.len() > 0 && !is_ws(s[0]) {
        crate::dispatch::lemma_first_ws_bounds(s, 1);
    }
}

/// What the mode handler does with one argument list.
#[derive(PartialEq, Eq, Debug)]
pub enum ModeAction {
    /// Issue this system-mode-set command.
    SendSet(Vec<u8>),
    /// Issue the system-mode query and print its raw response.
    SendQuery(Vec<u8>),
    /// Print the usage hint naming the recognized tokens.
    Usage,
}

/// Splits argument text into whitespace-separated tokens.
pub fn tokenize(rest: &[u8]) -> (ts: Vec<Vec<u8>>)
    ensures
        byte_views(ts@) == spec_tokens(rest@),
{
    let mut ts: Vec<Vec<u8>> = Vec::new();
    let mut i: usize = 0;
    proof {
        assert(byte_views(ts@) =~= Seq::<Seq<u8>>::empty());
        assert(rest@.subrange(0, rest@.len() as int) =~= rest@);
        assert(byte_views(ts@) + spec_tokens(rest@) =~= spec_tokens(rest@));
    }
    while i < rest.len()
        invariant
            i <= rest@.len(),
            byte_views(ts@) + spec_tokens(rest@.subrange(i as int, rest@.len() as int))
                == spec_tokens(rest@),
        decreases rest@.len() - i,
    {
        if byte_is_ws(rest[i]) {
            proof {
                assert(rest@.subrange(i as int, rest@.len() as int).drop_first() =~= rest@.subrange(
                    i as int + 1,
                    rest@.len() as int,
                ));
            }
            i += 1;
        } else {
            let mut k: usize = i;
            while k < rest.len() && !byte_is_ws(rest[k])
                invariant
                    i <= k <= rest@.len(),
                    crate::dispatch::first_ws_from(rest@, i as int)
                        == crate::dispatch::first_ws_from(rest@, k as int),
                decreases rest@.len() - k,
            {
                k += 1;
            }
            let tok = copy_range(rest, i, k);
            let ghost prev = ts@;
            ts.push(tok);
            proof {
                assert(crate::dispatch::first_ws_from(rest@, i as int) == k as int);
                let s = rest@.subrange(i as int, rest@.len() as int);
                lemma_first_ws_shift(rest@, i as int);
                let kk = crate::dispatch::first_ws_from(s, 0);
                assert(kk == k - i);
                assert(s.subrange(0, kk) =~= rest@.subrange(i as int, k as int));
                assert(s.subrange(kk, s.len() as int) =~= rest@.subrange(
                    k as int,
                    rest@.len() as int,
                ));
                assert(spec_tokens(s) == seq![tok@] + spec_tokens(
                    rest@.subrange(k as int, rest@.len() as int),
                ));
                assert(byte_views(ts@) =~= byte_views(prev) + seq![tok@]);
                assert(byte_views(ts@) + spec_tokens(rest@.subrange(k as int, rest@.len() as int))
                    =~= byte_views(prev) + spec_tokens(s));
            }
            i = k;
        }
    }
    proof {
        assert(spec_tokens(rest@.subrange(rest@.len() as int, rest@.len() as int))
            =~= Seq::<Seq<u8>>::empty());
        assert(byte_views(ts@) + Seq::<Seq<u8>>::empty() =~= byte_views(ts@));
    }
    ts
}

/// The first-whitespace scan from `i` lands `i` past where the scan of the
/// suffix starting at `i` lands.
proof fn lemma_first_ws_shift(s: Seq<u8>, i: int)
    requires
        0 <= i <= s.len(),
    ensures
        crate::dispatch::first_ws_from(s, i) == i + crate::dispatch::first_ws_from(
            s.subrange(i, s.len() as int),
            0,
        ),
    decreases s.len() - i, 1int,
{
    let suf = s.subrange(i, s.len() as int);
    if i == s.len() {
    } else if is_ws(s[i]) {
        assert(suf[0] == s[i]);
    } else {
        assert(suf[0] == s[i]);
        lemma_first_ws_shift(s, i + 1);
        lemma_first_ws_head_step(suf);
        assert(suf.subrange(1, suf.len() as int) =~= s.subrange(i + 1, s.len() as int));
    }
}

/// For a sequence whose head is not whitespace, the scan from the start is
/// one past the scan of the tail.
proof fn lemma_first_ws_head_step(s: Seq<u8>)
    requires
        s.len() > 0,
        !is_ws(s[0]),
    ensures
        crate::dispatch::first_ws_from(s, 0) == 1 + crate::dispatch::first_ws_from(
            s.subrange(1, s.len() as int),
            0,
        ),
    decreases s.len(), 0int,
{
    lemma_first_ws_shift(s, 1);
}

/// Parses mode tokens case-insensitively into the flag vector; rejects the
/// whole list at the first unrecognized token, reporting its index.
pub fn parse_mode_args(tokens: &Vec<Vec<u8>>) -> (r: Result<ModeFlags, usize>)
    ensures
        r is Ok <==> all_recognized(byte_views(tokens@)),
        r matches Ok(f) ==> f == spec_mode_flags(byte_views(tokens@)),
        r matches Err(i) ==> i < tokens@.len() && !token_recognized(byte_views(tokens@)[i as int])
            && (forall|j: int| 0 <= j < i ==> token_recognized(byte_views(tokens@)[j])),
{
    let ghost ts = byte_views(tokens@);
    let mut flags = ModeFlags { ltem: false, nbiot: false, gps: false };
    let mut i: usize = 0;
    while i < tokens.len()
        invariant
            i <= tokens@.len(),
            ts == byte_views(tokens@),
            forall|j: int| 0 <= j < i ==> token_recognized(ts[j]),
            flags.ltem == exists|j: int| 0 <= j < i && is_ltem_token(ts[j]),
            flags.nbiot == exists|j: int| 0 <= j < i && is_nbiot_token(ts[j]),
            flags.gps == exists|j: int| 0 <= j < i && is_gps_token(ts[j]),
        decreases tokens@.len() - i,
    {
        let t = &tokens[i];
        let pat_gps: Vec<u8> = vec![103u8, 112, 115];
        let pat_nbiot: Vec<u8> = vec![110u8, 98, 105, 111, 116];
        let pat_nb_iot: Vec<u8> = vec![110u8, 98, 45, 105, 111, 116];
        let pat_ltem: Vec<u8> = vec![108u8, 116, 101, 109];
        let pat_lte_m: Vec<u8> = vec![108u8, 116, 101, 45, 109];
        proof {
            assert(pat_gps@ =~= tok_gps());
            assert(pat_nbiot@ =~= tok_nbiot());
            assert(pat_nb_iot@ =~= tok_nb_iot());
            assert(pat_ltem@ =~= tok_ltem());
            assert(pat_lte_m@ =~= tok_lte_m());
            assert(ts[i as int] == t@);
        }
        if bytes_eq_lower(t.as_slice(), pat_gps.as_slice()) {
            flags.gps = true;
        } else if bytes_eq_lower(t.as_slice(), pat_nbiot.as_slice()) || bytes_eq_lower(
            t.as_slice(),
            pat_nb_iot.as_slice(),
        ) {
            flags.nbiot = true;
        } else if bytes_eq_lower(t.as_slice(), pat_ltem.as_slice()) || bytes_eq_lower(
            t.as_slice(),
            pat_lte_m.as_slice(),
        ) {
            flags.ltem = true;
        } else {
            return Err(i);
        }
        i += 1;
    }
    Ok(flags)
}

/// Builds the system-mode-set command for a flag vector.
pub fn mode_set_command(f: ModeFlags) -> (v: Vec<u8>)
    ensures
        v@ == spec_mode_set_command(f),
{
    let mut v: Vec<u8> = vec![65u8, 84, 37, 88, 83, 89, 83, 84, 69, 77, 77, 79, 68, 69, 61];
    v.push(if f.ltem {
        49
    } else {
        48
    });
    v.push(44);
    v.push(if f.nbiot {
        49
    } else {
        48
    });
    v.push(44);
    v.push(if f.gps {
        49
    } else {
        48
    });
    v.push(44);
    v.push(48);
    proof {
        assert(v@ =~= spec_mode_set_command(f));
    }
    v
}

/// Builds the system-mode query.
pub fn mode_query_command() -> (v: Vec<u8>)
    ensures
        v@ == spec_mode_query(),
{
    let v: Vec<u8> = vec![65u8, 84, 37, 88, 83, 89, 83, 84, 69, 77, 77, 79, 68, 69, 63];
    proof {
        assert(v@ =~= spec_mode_query());
    }
    v
}

/// The whole mode handler's decision for one argument list. An unrecognized
/// token yields only the usage hint: mode-setting is abandoned and — as the
/// handler has always behaved — the trailing query is skipped too. With only
/// recognized tokens, a mode-set command is issued exactly when some flag was
/// set, and the query always follows.
pub fn mode_plan(tokens: &Vec<Vec<u8>>) -> (plan: Vec<ModeAction>)
    ensures
        !all_recognized(byte_views(tokens@)) ==> plan@.len() == 1 && plan@[0] is Usage,
        (all_recognized(byte_views(tokens@)) && no_flags(spec_mode_flags(byte_views(tokens@))))
            ==> plan@.len() == 1 && (plan@[0] matches ModeAction::SendQuery(q) && q@
            == spec_mode_query()),
        (all_recognized(byte_views(tokens@)) && !no_flags(spec_mode_flags(byte_views(tokens@))))
            ==> plan@.len() == 2 && (plan@[0] matches ModeAction::SendSet(c) && c@
            == spec_mode_set_command(spec_mode_flags(byte_views(tokens@)))) && (plan@[1]
            matches ModeAction::SendQuery(q) && q@ == spec_mode_query()),
{
    let mut plan: Vec<ModeAction> = Vec::new();
    match parse_mode_args(tokens) {
        Err(_) => {
            plan.push(ModeAction::Usage);
        },
        Ok(f) => {
            if f.ltem || f.nbiot || f.gps {
                plan.push(ModeAction::SendSet(mode_set_command(f)));
            }
            plan.push(ModeAction::SendQuery(mode_query_command()));
        },
    }
    plan
}

/// Law: the flag vector depends only on which tokens occur, not on their
/// order or multiplicity — two argument lists with the same token set yield
/// the same flags, and one is fully recognized exactly when the other is.
pub proof fn lemma_mode_flags_depend_on_token_set(a: Seq<Seq<u8>>, b: Seq<Seq<u8>>)
    requires
        forall|t: Seq<u8>| a.contains(t) <==> b.contains(t),
    ensures
        spec_mode_flags(a) == spec_mode_flags(b),
        all_recognized(a) <==> all_recognized(b),
{
    assert(spec_mode_flags(a).ltem == spec_mode_flags(b).ltem) by {
        lemma_flag_iff(a, b);
        lemma_flag_iff(b, a);
    }
    assert(spec_mode_flags(a).nbiot == spec_mode_flags(b).nbiot) by {
        lemma_flag_iff(a, b);
        lemma_flag_iff(b, a);
    }
    assert(spec_mode_flags(a).gps == spec_mode_flags(b).gps) by {
        lemma_flag_iff(a, b);
        lemma_flag_iff(b, a);
    }
    assert(all_recognized(a) ==> all_recognized(b)) by {
        if all_recognized(a) {
            assert forall|i: int| 0 <= i < b.len() implies token_recognized(b[i]) by {
                assert(b.contains(b[i]));
                assert(a.contains(b[i]));
                let j = choose|j: int| 0 <= j < a.len() && a[j] == b[i];
                assert(token_recognized(a[j]));
            }
        }
    }
    assert(all_recognized(b) ==> all_recognized(a)) by {
        if all_recognized(b) {
            assert forall|i: int| 0 <= i < a.len() implies token_recognized(a[i]) by {
                assert(a.contains(a[i]));
                assert(b.contains(a[i]));
                let j = choose|j: int| 0 <= j < b.len() && b[j] == a[i];
                assert(token_recognized(b[j]));
            }
        }
    }
}

/// One direction of the flag comparison: every flag set by `a` is set by `b`
/// when `b` contains every token of `a`.
proof fn lemma_flag_iff(a: Seq<Seq<u8>>, b: Seq<Seq<u8>>)
    requires
        forall|t: Seq<u8>| a.contains(t) ==> b.contains(t),
    ensures
        spec_mode_flags(a).ltem ==> spec_mode_flags(b).ltem,
        spec_mode_flags(a).nbiot ==> spec_mode_flags(b).nbiot,
        spec_mode_flags(a).gps ==> spec_mode_flags(b).gps,
{
    if spec_mode_flags(a).ltem {
        let i = choose|i: int| 0 <= i < a.len() && is_ltem_token(a[i]);
        assert(a.contains(a[i]));
        let j = choose|j: int| 0 <= j < b.len() && b[j] == a[i];
        assert(is_ltem_token(b[j]));
    }
    if spec_mode_flags(a).nbiot {
        let i = choose|i: int| 0 <= i < a.len() && is_nbiot_token(a[i]);
        assert(a.contains(a[i]));
        let j = choose|j: int| 0 <= j < b.len() && b[j] == a[i];
        assert(is_nbiot_token(b[j]));
    }
    if spec_mode_flags(a).gps {
        let i = choose|i: int| 0 <= i < a.len() && is_gps_token(a[i]);
        assert(a.contains(a[i]));
        let j = choose|j: int| 0 <= j < b.len() && b[j] == a[i];
        assert(is_gps_token(b[j]));
    }
}

} // verus!
