use vstd::prelude::*;

verus! {

/// The cancel byte (Ctrl-C): aborts the line being typed, and ends the AT
/// bridge.
pub const CANCEL_BYTE: u8 = 3;

/// Whitespace for splitting a command line into tokens: space or tab.
pub open spec fn is_ws(b: u8) -> bool {
    b == 32 || b == 9
}

/// Line terminators accepted by the console: LF or CR.
pub open spec fn is_terminator(b: u8) -> bool {
    b == 10 || b == 13
}

/// An ASCII upper-case letter folded to lower case; every other byte is
/// left as it is.
pub open spec fn to_lower(b: u8) -> u8 {
    if 65 <= b && b <= 90 {
        (b + 32) as u8
    } else {
        b
    }
}

/// The byte sequence with every ASCII letter folded to lower case.
pub open spec fn lower_seq(s: Seq<u8>) -> Seq<u8> {
    s.map_values(|b: u8| to_lower(b))
}

/// The views of a sequence of byte vectors.
pub open spec fn byte_views(ts: Seq<Vec<u8>>) -> Seq<Seq<u8>> {
    Seq::new(ts.len(), |i: int| ts[i]@)
}

pub fn byte_is_ws(b: u8) -> (r: bool)
    ensures
        r == is_ws(b),
{
    b == 32 || b == 9
}

pub fn byte_is_terminator(b: u8) -> (r: bool)
    ensures
        r == is_terminator(b),
{
    b == 10 || b == 13
}

pub fn byte_to_lower(b: u8) -> (r: u8)
    ensures
        r == to_lower(b),
{
    if 65 <= b && b <= 90 {
        b + 32
    } else {
        b
    }
}

/// Exact, case-sensitive equality of two byte strings.
pub fn bytes_eq(a: &[u8], b: &[u8]) -> (r: bool)
    ensures
        r <==> a@ == b@,
{
    if a.len() != b.len() {
        return false;
    }
    let mut i: usize = 0;
    while i < a.len()
        invariant
            i <= a@.len(),
            a@.len() == b@.len(),
            forall|j: int| 0 <= j < i ==> a@[j] == b@[j],
        decreases a@.len() - i,
    {
        if a[i] != b[i] {
            return false;
        }
        i += 1;
    }
    proof {
        assert(a@ =~= b@);
    }
    true
}

/// Case-insensitive match of a byte string against a lower-case pattern.
pub fn bytes_eq_lower(t: &[u8], pat: &[u8]) -> (r: bool)
    ensures
        r <==> lower_seq(t@) == pat@,
{
    if t.len() != pat.len() {
        return false;
    }
    let mut i: usize = 0;
    while i < t.len()
        invariant
            i <= t@.len(),
            t@.len() == pat@.len(),
            forall|j: int| 0 <= j < i ==> to_lower(t@[j]) == pat@[j],
        decreases t@.len() - i,
    {
        if byte_to_lower(t[i]) != pat[i] {
            proof {
                assert(lower_seq(t@)[i as int] == to_lower(t@[i as int]));
            }
            return false;
        }
        i += 1;
    }
    proof {
        assert(lower_seq(t@) =~= pat@);
    }
    true
}

/// The bytes of `s` from `from` (inclusive) to `to` (exclusive), as a new
/// vector.
pub fn copy_range(s: &[u8], from: usize, to: usize) -> (v: Vec<u8>)
    requires
        from <= to <= s@.len(),
    ensures
        v@ == s@.subrange(from as int, to as int),
{
    let mut v: Vec<u8> = Vec::new();
    let mut i: usize = from;
    while i < to
        invariant
            from <= i <= to <= s@.len(),
            v@ == s@.subrange(from as int, i as int),
        decreases to - i,
    {
        v.push(s[i]);
        proof {
            assert(v@ =~= s@.subrange(from as int, i as int + 1));
        }
        i += 1;
    }
    v
}

/// Appends all of `s` to `v`.
pub fn append_bytes(v: &mut Vec<u8>, s: &[u8])
    ensures
        final(v)@ == old(v)@ + s@,
{
    let mut i: usize = 0;
    while i < s.len()
        invariant
            i <= s@.len(),
            v@ == old(v)@ + s@.subrange(0, i as int),
        decreases s@.len() - i,
    {
        v.push(s[i]);
        proof {
            assert(v@ =~= old(v)@ + s@.subrange(0, i as int + 1));
        }
        i += 1;
    }
    proof {
        assert(old(v)@ + s@.subrange(0, s@.len() as int) =~= old(v)@ + s@);
    }
}

} // verus!
