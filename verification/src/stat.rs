use vstd::prelude::*;

use crate::errors::DeviceError;

verus! {

/// How many diagnostic queries the status command runs.
pub const STAT_QUERY_COUNT: usize = 11;

/// The fixed, ordered list of read-only diagnostic queries.
pub open spec fn spec_stat_queries() -> Seq<Seq<u8>> {
    seq![
        seq![65u8, 84, 43, 67, 70, 85, 78, 63],
        seq![65u8, 84, 43, 67, 69, 82, 69, 71, 63],
        seq![65u8, 84, 37, 88, 83, 78, 82, 83, 81, 63],
        seq![65u8, 84, 43, 67, 69, 83, 81],
        seq![65u8, 84, 37, 88, 84, 69, 77, 80, 63],
        seq![65u8, 84, 43, 67, 71, 67, 79, 78, 84, 82, 68, 80, 61, 48],
        seq![65u8, 84, 43, 67, 67, 76, 75, 63],
        seq![65u8, 84, 37, 88, 77, 79, 78, 73, 84, 79, 82],
        seq![65u8, 84, 43, 67, 71, 68, 67, 79, 78, 84, 63],
        seq![65u8, 84, 43, 67, 71, 80, 65, 68, 68, 82],
        seq![65u8, 84, 37, 88, 67, 79, 78, 78, 83, 84, 65, 84, 63],
    ]
}

/// One line of the status report, in query order.
#[derive(Clone, Copy, PartialEq, Eq, Structural, Debug)]
pub enum StatLine {
    /// This query succeeded; its raw response was printed.
    Answered(usize),
    /// This query failed with this error; the failure is reported in place
    /// and the remaining queries still run.
    Failed(usize, DeviceError),
}

/// The status line for one query's result.
pub open spec fn spec_stat_line(i: usize, r: Result<(), DeviceError>) -> StatLine {
    match r {
        Ok(_) => StatLine::Answered(i),
        Err(e) => StatLine::Failed(i, e),
    }
}

/// The eleven diagnostic queries, in the order they are issued.
pub fn stat_queries() -> (qs: Vec<Vec<u8>>)
    ensures
        qs@.len() == STAT_QUERY_COUNT,
        forall|i: int| 0 <= i < STAT_QUERY_COUNT ==> qs@[i]@ == spec_stat_queries()[i],
{
    let mut qs: Vec<Vec<u8>> = Vec::new();
    qs.push(vec![65u8, 84, 43, 67, 70, 85, 78, 63]);
    qs.push(vec![65u8, 84, 43, 67, 69, 82, 69, 71, 63]);
    qs.push(vec![65u8, 84, 37, 88, 83, 78, 82, 83, 81, 63]);
    qs.push(vec![65u8, 84, 43, 67, 69, 83, 81]);
    qs.push(vec![65u8, 84, 37, 88, 84, 69, 77, 80, 63]);
    qs.push(vec![65u8, 84, 43, 67, 71, 67, 79, 78, 84, 82, 68, 80, 61, 48]);
    qs.push(vec![65u8, 84, 43, 67, 67, 76, 75, 63]);
    qs.push(vec![65u8, 84, 37, 88, 77, 79, 78, 73, 84, 79, 82]);
    qs.push(vec![65u8, 84, 43, 67, 71, 68, 67, 79, 78, 84, 63]);
    qs.push(vec![65u8, 84, 43, 67, 71, 80, 65, 68, 68, 82]);
    qs.push(vec![65u8, 84, 37, 88, 67, 79, 78, 78, 83, 84, 65, 84, 63]);
    proof {
        assert forall|i: int| 0 <= i < STAT_QUERY_COUNT implies qs@[i]@ == spec_stat_queries()[i]
        by {
            assert(qs@[0]@ =~= spec_stat_queries()[0]);
            assert(qs@[1]@ =~= spec_stat_queries()[1]);
            assert(qs@[2]@ =~= spec_stat_queries()[2]);
            assert(qs@[3]@ =~= spec_stat_queries()[3]);
            assert(qs@[4]@ =~= spec_stat_queries()[4]);
            assert(qs@[5]@ =~= spec_stat_queries()[5]);
            assert(qs@[6]@ =~= spec_stat_queries()[6]);
            assert(qs@[7]@ =~= spec_stat_queries()[7]);
            assert(qs@[8]@ =~= spec_stat_queries()[8]);
            assert(qs@[9]@ =~= spec_stat_queries()[9]);
            assert(qs@[10]@ =~= spec_stat_queries()[10]);
        }
    }
    qs
}

/// The status report for the queries' results: the collect-all policy. One
/// line per query, in the original order; a failure is reported in its
/// place and never stops the later queries.
pub fn stat_report(results: &Vec<Result<(), DeviceError>>) -> (lines: Vec<StatLine>)
    ensures
        lines@.len() == results@.len(),
        forall|i: int| 0 <= i < results@.len() ==> lines@[i] == spec_stat_line(
            i as usize,
            results@[i],
        ),
{
    let mut lines: Vec<StatLine> = Vec::new();
    let mut i: usize = 0;
    while i < results.len()
        invariant
            i <= results@.len(),
            lines@.len() == i,
            forall|j: int| 0 <= j < i ==> lines@[j] == spec_stat_line(j as usize, results@[j]),
        decreases results@.len() - i,
    {
        match &results[i] {
            Ok(_) => lines.push(StatLine::Answered(i)),
            Err(e) => lines.push(StatLine::Failed(i, *e)),
        }
        i += 1;
    }
    lines
}

} // verus!
