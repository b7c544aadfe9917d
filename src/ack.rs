//! ACK ranges: the engine keeps an ascending sequence of half-open intervals
//! of acknowledged packet numbers; plugins see the delta-encoded form
//! (largest acknowledged, first range length, then descending gap/length
//! pairs).
use vstd::prelude::*;

verus! {

/// A half-open interval `[start, end)` of acknowledged packet numbers.
#[derive(Clone, Copy, Debug, PartialEq, Eq, Structural)]
pub struct Range {
    pub start: u64,
    pub end: u64,
}

/// One `(gap, ack_range_length)` pair of the delta-encoded form.
///
/// `gap` is the number of unacknowledged packets between two acknowledged
/// runs, minus one; `ack_range_length` is the number of packets of the lower
/// run, minus one.
#[derive(Clone, Copy, Debug, PartialEq, Eq, Structural)]
pub struct AckRange {
    pub gap: u64,
    pub ack_range_length: u64,
}

/// Each range is non-empty, the ranges ascend, and at least one packet number
/// lies unacknowledged between two neighbours.
pub open spec fn ranges_wf(rs: Seq<Range>) -> bool {
    &&& forall|i: int| 0 <= i < rs.len() ==> (#[trigger] rs[i]).start < rs[i].end
    &&& forall|i: int| 0 <= i < rs.len() - 1 ==> (#[trigger] rs[i]).end < rs[i + 1].start
}

/// The highest acknowledged packet number.
pub open spec fn largest_acknowledged(rs: Seq<Range>) -> int {
    rs.last().end - 1
}

/// The number of packets of the highest range, minus one.
pub open spec fn first_ack_range(rs: Seq<Range>) -> int {
    rs.last().end - 1 - rs.last().start
}

/// Pair `i` describes range `rs[n - 2 - i]`, measured from the start of the
/// range above it, `rs[n - 1 - i]`.
pub open spec fn ack_pairs(rs: Seq<Range>) -> Seq<AckRange> {
    Seq::new(
        (rs.len() - 1) as nat,
        |i: int|
            AckRange {
                gap: (rs[rs.len() - 1 - i].start - rs[rs.len() - 2 - i].end - 1) as u64,
                ack_range_length: (rs[rs.len() - 2 - i].end - 1 - rs[rs.len() - 2 - i].start) as u64,
            },
    )
}

/// Start of the `k`-th range counted from the highest one (which is `k == 0`).
pub open spec fn start_from_top(largest: u64, first: u64, pairs: Seq<AckRange>, k: nat) -> int
    decreases k,
{
    if k == 0 {
        largest - first
    } else {
        start_from_top(largest, first, pairs, (k - 1) as nat) - pairs[k - 1].gap - 2
            - pairs[k - 1].ack_range_length
    }
}

/// End (exclusive) of the `k`-th range counted from the highest one.
pub open spec fn end_from_top(largest: u64, first: u64, pairs: Seq<AckRange>, k: nat) -> int {
    if k == 0 {
        largest + 1
    } else {
        start_from_top(largest, first, pairs, (k - 1) as nat) - pairs[k - 1].gap - 1
    }
}

/// The delta-encoded form describes ranges of packet numbers that all fit in a `u64`.
pub open spec fn ack_decodable(largest: u64, first: u64, pairs: Seq<AckRange>) -> bool {
    &&& largest < u64::MAX
    &&& first <= largest
    &&& start_from_top(largest, first, pairs, pairs.len()) >= 0
}

/// The ascending range sequence that a delta-encoded form describes.
pub open spec fn decoded_ranges(largest: u64, first: u64, pairs: Seq<AckRange>) -> Seq<Range> {
    Seq::new(
        pairs.len() + 1,
        |j: int|
            Range {
                start: start_from_top(largest, first, pairs, (pairs.len() - j) as nat) as u64,
                end: end_from_top(largest, first, pairs, (pairs.len() - j) as nat) as u64,
            },
    )
}

/// Ranges further down start lower.
pub proof fn lemma_start_descends(largest: u64, first: u64, pairs: Seq<AckRange>, j: nat, k: nat)
    requires
        j <= k <= pairs.len(),
    ensures
        start_from_top(largest, first, pairs, k) <= start_from_top(largest, first, pairs, j),
        j < k ==> end_from_top(largest, first, pairs, k) < start_from_top(largest, first, pairs, j),
    decreases k - j,
{
    if j < k {
        lemma_start_descends(largest, first, pairs, j, (k - 1) as nat);
    }
}

/// Delta-encodes a non-empty, well-formed range sequence, from the highest
/// range down: `(largest_acknowledged, first_ack_range, pairs)`.
pub fn ack_delta_encode(ranges: &Vec<Range>) -> (r: (u64, u64, Vec<AckRange>))
    requires
        ranges@.len() > 0,
        ranges_wf(ranges@),
    ensures
        r.0 == largest_acknowledged(ranges@),
        r.1 == first_ack_range(ranges@),
        r.2@ == ack_pairs(ranges@),
{
    let n = ranges.len();
    let top = ranges[n - 1];
    let largest = top.end - 1;
    let first = largest - top.start;
    let mut pairs: Vec<AckRange> = Vec::new();
    let mut i: usize = 0;
    while i < n - 1
        invariant
            n == ranges@.len(),
            n > 0,
            ranges_wf(ranges@),
            i <= n - 1,
            pairs@.len() == i,
            forall|j: int| 0 <= j < i ==> pairs@[j] == #[trigger] ack_pairs(ranges@)[j],
        decreases n - 1 - i,
    {
        let above = ranges[n - 1 - i];
        let below = ranges[n - 2 - i];
        assert(below.end < above.start);
        pairs.push(
            AckRange {
                gap: above.start - below.end - 1,
                ack_range_length: below.end - 1 - below.start,
            },
        );
        i = i + 1;
    }
    assert(pairs@ =~= ack_pairs(ranges@));
    (largest, first, pairs)
}

/// Rebuilds the ascending range sequence from its delta-encoded form; `None`
/// where the form reaches below packet number zero or above `u64::MAX`.
pub fn ack_reconstruct(largest: u64, first: u64, pairs: &Vec<AckRange>) -> (r: Option<Vec<Range>>)
    ensures
        r is Some <==> ack_decodable(largest, first, pairs@),
        r matches Some(v) ==> v@ == decoded_ranges(largest, first, pairs@),
{
    if largest == u64::MAX || first > largest {
        return None;
    }
    let m = pairs.len();
    let mut desc: Vec<Range> = Vec::new();
    desc.push(Range { start: largest - first, end: largest + 1 });
    let mut smallest: u64 = largest - first;
    let mut i: usize = 0;
    while i < m
        invariant
            m == pairs@.len(),
            largest < u64::MAX,
            first <= largest,
            i <= m,
            smallest == start_from_top(largest, first, pairs@, i as nat),
            desc@.len() == i + 1,
            forall|k: int|
                0 <= k <= i ==> #[trigger] desc@[k] == (Range {
                    start: start_from_top(largest, first, pairs@, k as nat) as u64,
                    end: end_from_top(largest, first, pairs@, k as nat) as u64,
                }),
        decreases m - i,
    {
        let p = pairs[i];
        if smallest < 2 || p.gap > smallest - 2 || p.ack_range_length > smallest - 2 - p.gap {
            proof {
                lemma_start_descends(largest, first, pairs@, (i + 1) as nat, m as nat);
            }
            return None;
        }
        let end = smallest - p.gap - 1;
        let start = end - 1 - p.ack_range_length;
        desc.push(Range { start, end });
        smallest = start;
        i = i + 1;
    }
    let n = desc.len();
    let mut asc: Vec<Range> = Vec::new();
    let mut k: usize = n;
    while k > 0
        invariant
            n == desc@.len(),
            k <= n,
            asc@.len() == n - k,
            forall|j: int| 0 <= j < n - k ==> #[trigger] asc@[j] == desc@[n - 1 - j],
        decreases k,
    {
        k = k - 1;
        asc.push(desc[k]);
    }
    assert(asc@ =~= decoded_ranges(largest, first, pairs@));
    Some(asc)
}

/// Delta-encoding a well-formed, non-empty range sequence and rebuilding it
/// gives the same sequence back.
pub proof fn lemma_ack_round_trip(rs: Seq<Range>)
    requires
        rs.len() > 0,
        ranges_wf(rs),
    ensures
        ack_decodable(
            largest_acknowledged(rs) as u64,
            first_ack_range(rs) as u64,
            ack_pairs(rs),
        ),
        decoded_ranges(largest_acknowledged(rs) as u64, first_ack_range(rs) as u64, ack_pairs(rs))
            == rs,
{
    let l = largest_acknowledged(rs) as u64;
    let f = first_ack_range(rs) as u64;
    let p = ack_pairs(rs);
    let n = rs.len();
    assert(rs[n - 1].start < rs[n - 1].end);
    assert forall|k: nat| k <= n - 1 implies start_from_top(l, f, p, k) == rs[n - 1 - k].start
        && end_from_top(l, f, p, k) == rs[n - 1 - k].end by {
        lemma_start_matches(rs, k);
    }
    assert(start_from_top(l, f, p, p.len()) == rs[0].start);
    assert(decoded_ranges(l, f, p) =~= rs);
}

proof fn lemma_start_matches(rs: Seq<Range>, k: nat)
    requires
        rs.len() > 0,
        ranges_wf(rs),
        k <= rs.len() - 1,
    ensures
        start_from_top(
            largest_acknowledged(rs) as u64,
            first_ack_range(rs) as u64,
            ack_pairs(rs),
            k,
        ) == rs[rs.len() - 1 - k].start,
        end_from_top(
            largest_acknowledged(rs) as u64,
            first_ack_range(rs) as u64,
            ack_pairs(rs),
            k,
        ) == rs[rs.len() - 1 - k].end,
    decreases k,
{
    let n = rs.len();
    assert(rs[n - 1].start < rs[n - 1].end);
    if k > 0 {
        lemma_start_matches(rs, (k - 1) as nat);
        let hi = rs[n - k];
        let lo = rs[n - 1 - k];
        assert(lo.start < lo.end);
        assert(lo.end < hi.start);
    }
}

/// A delta-encoded form that rebuilds at all rebuilds into a well-formed,
/// non-empty range sequence.
pub proof fn lemma_decoded_wf(largest: u64, first: u64, pairs: Seq<AckRange>)
    requires
        ack_decodable(largest, first, pairs),
    ensures
        decoded_ranges(largest, first, pairs).len() > 0,
        ranges_wf(decoded_ranges(largest, first, pairs)),
{
    let d = decoded_ranges(largest, first, pairs);
    let m = pairs.len();
    assert forall|k: nat| k <= m implies 0 <= #[trigger] start_from_top(largest, first, pairs, k)
        < end_from_top(largest, first, pairs, k) <= largest + 1 by {
        lemma_start_descends(largest, first, pairs, k, m);
        lemma_start_descends(largest, first, pairs, 0, k);
        if k > 0 {
            lemma_start_descends(largest, first, pairs, (k - 1) as nat, k);
            lemma_start_descends(largest, first, pairs, 0, (k - 1) as nat);
        }
    }
    assert forall|i: int| 0 <= i < d.len() implies (#[trigger] d[i]).start < d[i].end by {
        let k = (m - i) as nat;
        assert(k <= m);
    }
    assert forall|i: int| #![trigger d[i], d[i + 1]] 0 <= i < d.len() - 1 implies d[i].end
        < d[i + 1].start by {
        let k = (m - i) as nat;
        assert(k <= m);
        assert((k - 1) as nat <= m);
        lemma_start_descends(largest, first, pairs, (k - 1) as nat, k);
    }
}

} // verus!
