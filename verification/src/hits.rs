//! Distance hits and their reduction to one best hit for each query.
//!
//! A hit carries the text of its distance as the listing printed it, and a
//! rank: an integer that orders hits as their distances do. The reduction
//! compares ranks only. For each query it keeps the hit of lowest rank, and
//! among hits of that rank the one that came first. The best hits stand in
//! the order in which their queries first appeared.
//!
//! A distance is a number in binary floating point, which this library does
//! not hold. Its 32-bit pattern is a sign bit over a magnitude, and patterns
//! other than those of not-a-number are ordered as the numbers are, but for
//! the two zeros, which are equal as numbers. `rank` turns such a pattern into
//! an integer that keeps that order; a caller to whom the two zeros are one
//! passes the same pattern for both.

use vstd::prelude::*;
use crate::text::{copy_bytes, fields_of, lines_of, rows_of, same_bytes, split_fields, split_lines};

verus! {

/// One distance measurement, as byte sequences and a rank.
pub ghost struct Hit {
    pub query: Seq<u8>,
    pub reference: Seq<u8>,
    pub distance: Seq<u8>,
    pub p_value: Seq<u8>,
    pub rank: u64,
}

/// One distance measurement between a query and a reference genome.
#[derive(Debug)]
pub struct DistanceHit {
    pub query: Vec<u8>,
    pub reference: Vec<u8>,
    /// The distance as the listing printed it.
    pub distance: Vec<u8>,
    /// The p-value as the listing printed it.
    pub p_value: Vec<u8>,
    /// Orders hits as their distances do: a smaller distance has a smaller
    /// rank.
    pub rank: u64,
}

impl View for DistanceHit {
    type V = Hit;

    open spec fn view(&self) -> Hit {
        Hit {
            query: self.query@,
            reference: self.reference@,
            distance: self.distance@,
            p_value: self.p_value@,
            rank: self.rank,
        }
    }
}

/// A line of a distance listing that has fewer than four fields.
#[derive(Clone, Copy, Debug, PartialEq, Eq, Structural)]
pub struct ShortLine {
    /// The index of the line, from 0.
    pub line: usize,
}

/// Fields that a line of a distance listing must have.
pub const HIT_WIDTH: usize = 4;

/// The sign bit of a 32-bit pattern.
pub const SIGN: u32 = 0x8000_0000;

/// The pattern is of a negative number.
pub open spec fn is_negative(bits: u32) -> bool {
    bits & SIGN != 0
}

/// The pattern without its sign.
pub open spec fn magnitude(bits: u32) -> u32 {
    bits & !SIGN
}

/// The number of pattern `a` stands before that of pattern `b`: a negative
/// one before one that is not, of two negative ones the one of greater
/// magnitude, of two others the one of smaller magnitude.
pub open spec fn stands_before(a: u32, b: u32) -> bool {
    if is_negative(a) {
        !is_negative(b) || magnitude(a) > magnitude(b)
    } else {
        !is_negative(b) && magnitude(a) < magnitude(b)
    }
}

/// The rank of a pattern: a negative one is inverted, any other gets the sign
/// bit set.
pub open spec fn rank_of(bits: u32) -> u64 {
    if is_negative(bits) {
        (!bits) as u64
    } else {
        (bits | SIGN) as u64
    }
}

/// Ranks are ordered exactly as the numbers of their patterns are.
pub proof fn rank_keeps_order(a: u32, b: u32)
    ensures
        stands_before(a, b) <==> rank_of(a) < rank_of(b),
        a == b <==> rank_of(a) == rank_of(b),
{
    let ra: u32 = if a & SIGN != 0 { !a } else { a | SIGN };
    let rb: u32 = if b & SIGN != 0 { !b } else { b | SIGN };
    assert(rank_of(a) == ra as u64 && rank_of(b) == rb as u64);
    assert(stands_before(a, b) <==> ra < rb) by (bit_vector)
        requires
            ra == (if a & 0x8000_0000u32 != 0 { !a } else { a | 0x8000_0000u32 }),
            rb == (if b & 0x8000_0000u32 != 0 { !b } else { b | 0x8000_0000u32 }),
            stands_before(a, b) == (if a & 0x8000_0000u32 != 0 {
                !(b & 0x8000_0000u32 != 0) || (a & !0x8000_0000u32) > (b & !0x8000_0000u32)
            } else {
                !(b & 0x8000_0000u32 != 0) && (a & !0x8000_0000u32) < (b & !0x8000_0000u32)
            }),
    ;
    assert(a == b <==> ra == rb) by (bit_vector)
        requires
            ra == (if a & 0x8000_0000u32 != 0 { !a } else { a | 0x8000_0000u32 }),
            rb == (if b & 0x8000_0000u32 != 0 { !b } else { b | 0x8000_0000u32 }),
    ;
}

/// The rank of the 32-bit pattern of a distance.
pub fn rank(bits: u32) -> (out: u64)
    ensures
        out == rank_of(bits),
{
    if bits & SIGN != 0 {
        (!bits) as u64
    } else {
        (bits | SIGN) as u64
    }
}

/// The views of a list of hits.
pub open spec fn hits_of(hits: Seq<DistanceHit>) -> Seq<Hit> {
    hits.map_values(|h: DistanceHit| h@)
}

/// The hit that a line with these fields states, not yet ranked: reference,
/// query, distance and p-value, in that order.
pub open spec fn hit_of_fields(fields: Seq<Seq<u8>>) -> Hit {
    Hit { reference: fields[0], query: fields[1], distance: fields[2], p_value: fields[3], rank: 0 }
}

/// The index in `best` of the hit for `query`, at or after `start`.
pub open spec fn position_from(best: Seq<Hit>, query: Seq<u8>, start: int) -> Option<int>
    decreases best.len() - start,
{
    if start < 0 || start >= best.len() {
        None
    } else if best[start].query == query {
        Some(start)
    } else {
        position_from(best, query, start + 1)
    }
}

/// The best hits after one more hit was seen: a hit for a new query is added
/// at the end, a hit of strictly lower rank takes the place of the one kept
/// for its query, any other hit changes nothing.
pub open spec fn absorb(best: Seq<Hit>, hit: Hit) -> Seq<Hit> {
    match position_from(best, hit.query, 0) {
        None => best.push(hit),
        Some(k) => if hit.rank < best[k].rank {
            best.update(k, hit)
        } else {
            best
        },
    }
}

/// The best hits of a list of hits.
pub open spec fn reduced(hits: Seq<Hit>) -> Seq<Hit>
    decreases hits.len(),
{
    if hits.len() == 0 {
        Seq::empty()
    } else {
        absorb(reduced(hits.drop_last()), hits.last())
    }
}

/// Hit `j` is the best of its query: no hit for the same query has a lower
/// rank, and none before it has the same rank.
pub open spec fn is_best(hits: Seq<Hit>, j: int) -> bool {
    &&& 0 <= j < hits.len()
    &&& forall|i: int|
        0 <= i < hits.len() && (#[trigger] hits[i]).query == hits[j].query ==> hits[j].rank
            <= hits[i].rank && (i < j ==> hits[j].rank < hits[i].rank)
}

/// No two of the hits are for the same query.
pub open spec fn distinct_queries(best: Seq<Hit>) -> bool {
    forall|a: int, b: int|
        0 <= a < b < best.len() ==> (#[trigger] best[a]).query != (#[trigger] best[b]).query
}

/// `best` has a hit for `query`.
pub open spec fn has_query(best: Seq<Hit>, query: Seq<u8>) -> bool {
    exists|k: int| 0 <= k < best.len() && (#[trigger] best[k]).query == query
}

/// `hit` is the best of its query in `hits`.
pub open spec fn is_a_best(hits: Seq<Hit>, hit: Hit) -> bool {
    exists|j: int| is_best(hits, j) && #[trigger] hits[j] == hit
}

/// What `position_from` finds is for `query`, and nothing between `start` and
/// it is; it finds nothing only where no hit at or after `start` is for
/// `query`.
pub proof fn position_from_is_first(best: Seq<Hit>, query: Seq<u8>, start: int)
    requires
        0 <= start <= best.len(),
    ensures
        match position_from(best, query, start) {
            Some(k) => start <= k < best.len() && best[k].query == query && forall|j: int|
                start <= j < k ==> (#[trigger] best[j]).query != query,
            None => forall|j: int| start <= j < best.len() ==> (#[trigger] best[j]).query != query,
        },
    decreases best.len() - start,
{
    if start < best.len() && best[start].query != query {
        position_from_is_first(best, query, start + 1);
    }
}

/// The reduction keeps, for each query, the hit with the smallest rank: the
/// best hits are for distinct queries, every query of the list has one, and
/// each of them is the best of its query in the list.
pub proof fn reduced_is_minimal(hits: Seq<Hit>)
    ensures
        distinct_queries(reduced(hits)),
        forall|i: int| 0 <= i < hits.len() ==> has_query(reduced(hits), (#[trigger] hits[i]).query),
        forall|k: int|
            0 <= k < reduced(hits).len() ==> is_a_best(hits, #[trigger] reduced(hits)[k]),
    decreases hits.len(),
{
    if hits.len() > 0 {
        let prev = hits.drop_last();
        let hit = hits.last();
        let n = prev.len() as int;
        let before = reduced(prev);
        let after = reduced(hits);
        reduced_is_minimal(prev);
        position_from_is_first(before, hit.query, 0);
        assert forall|i: int| 0 <= i < n implies hits[i] == prev[i] by {}
        match position_from(before, hit.query, 0) {
            None => {
                assert(after == before.push(hit));
                assert forall|i: int| 0 <= i < hits.len() implies has_query(
                    after,
                    (#[trigger] hits[i]).query,
                ) by {
                    if i < n {
                        assert(has_query(before, prev[i].query));
                        let k = choose|k: int|
                            0 <= k < before.len() && (#[trigger] before[k]).query == prev[i].query;
                        assert(after[k].query == hits[i].query);
                    } else {
                        assert(after[before.len() as int].query == hits[i].query);
                    }
                }
                assert forall|k: int| 0 <= k < after.len() implies is_a_best(
                    hits,
                    #[trigger] after[k],
                ) by {
                    if k < before.len() {
                        assert(is_a_best(prev, before[k]));
                        let j = choose|j: int| is_best(prev, j) && #[trigger] prev[j] == before[k];
                        assert(is_best(hits, j));
                        assert(hits[j] == after[k]);
                    } else {
                        assert forall|i: int|
                            0 <= i < n implies (#[trigger] hits[i]).query != hit.query by {
                            assert(has_query(before, prev[i].query));
                        }
                        assert(is_best(hits, n));
                        assert(hits[n] == after[k]);
                    }
                }
            },
            Some(at) => {
                assert(is_a_best(prev, before[at]));
                let j0 = choose|j: int| is_best(prev, j) && #[trigger] prev[j] == before[at];
                if hit.rank < before[at].rank {
                    assert(after == before.update(at, hit));
                    assert forall|i: int| 0 <= i < hits.len() implies has_query(
                        after,
                        (#[trigger] hits[i]).query,
                    ) by {
                        if i < n {
                            assert(has_query(before, prev[i].query));
                            let k = choose|k: int|
                                0 <= k < before.len() && (#[trigger] before[k]).query
                                    == prev[i].query;
                            assert(after[k].query == hits[i].query);
                        } else {
                            assert(after[at].query == hits[i].query);
                        }
                    }
                    assert forall|k: int| 0 <= k < after.len() implies is_a_best(
                        hits,
                        #[trigger] after[k],
                    ) by {
                        if k == at {
                            assert forall|i: int|
                                0 <= i < hits.len() && (#[trigger] hits[i]).query
                                    == hits[n].query implies hits[n].rank <= hits[i].rank && (i < n
                                ==> hits[n].rank < hits[i].rank) by {
                                if i < n {
                                    assert(prev[i].query == prev[j0].query);
                                }
                            }
                            assert(is_best(hits, n));
                            assert(hits[n] == after[k]);
                        } else {
                            assert(is_a_best(prev, before[k]));
                            let j = choose|j: int|
                                is_best(prev, j) && #[trigger] prev[j] == before[k];
                            assert(before[k].query != before[at].query);
                            assert(is_best(hits, j));
                            assert(hits[j] == after[k]);
                        }
                    }
                } else {
                    assert(after == before);
                    assert forall|i: int| 0 <= i < hits.len() implies has_query(
                        after,
                        (#[trigger] hits[i]).query,
                    ) by {
                        if i < n {
                            assert(has_query(before, prev[i].query));
                        } else {
                            assert(after[at].query == hits[i].query);
                        }
                    }
                    assert forall|k: int| 0 <= k < after.len() implies is_a_best(
                        hits,
                        #[trigger] after[k],
                    ) by {
                        assert(is_a_best(prev, before[k]));
                        let j = choose|j: int| is_best(prev, j) && #[trigger] prev[j] == before[k];
                        if k != at {
                            assert(before[k].query != before[at].query);
                        }
                        assert(is_best(hits, j));
                        assert(hits[j] == after[k]);
                    }
                }
            },
        }
    }
}

impl DistanceHit {
    /// A copy of this hit.
    pub fn copy(&self) -> (out: DistanceHit)
        ensures
            out@ == self@,
    {
        DistanceHit {
            query: copy_bytes(self.query.as_slice()),
            reference: copy_bytes(self.reference.as_slice()),
            distance: copy_bytes(self.distance.as_slice()),
            p_value: copy_bytes(self.p_value.as_slice()),
            rank: self.rank,
        }
    }

    /// The hit that one line of a distance listing states, with rank 0; none
    /// where the line has fewer than four fields.
    pub fn from_line(line: &[u8]) -> (out: Option<DistanceHit>)
        ensures
            match out {
                Some(hit) => fields_of(line@).len() >= HIT_WIDTH && hit@ == hit_of_fields(
                    fields_of(line@),
                ),
                None => fields_of(line@).len() < HIT_WIDTH,
            },
    {
        let fields = split_fields(line);
        if fields.len() < HIT_WIDTH {
            return None;
        }
        Some(
            DistanceHit {
                reference: copy_bytes(fields[0].as_slice()),
                query: copy_bytes(fields[1].as_slice()),
                distance: copy_bytes(fields[2].as_slice()),
                p_value: copy_bytes(fields[3].as_slice()),
                rank: 0,
            },
        )
    }
}

/// The hits of a distance listing, one for each line and in the listing's
/// order, each with rank 0. A listing with a line of fewer than four fields
/// is refused, with the index of the first such line.
pub fn read_hits(listing: &[u8]) -> (out: Result<Vec<DistanceHit>, ShortLine>)
    ensures
        match out {
            Ok(hits) => hits@.len() == lines_of(listing@).len() && forall|i: int|
                0 <= i < hits@.len() ==> fields_of(#[trigger] lines_of(listing@)[i]).len()
                    >= HIT_WIDTH && hits@[i]@ == hit_of_fields(fields_of(lines_of(listing@)[i])),
            Err(short) => short.line < lines_of(listing@).len() && fields_of(
                lines_of(listing@)[short.line as int],
            ).len() < HIT_WIDTH && forall|i: int|
                0 <= i < short.line ==> fields_of(#[trigger] lines_of(listing@)[i]).len()
                    >= HIT_WIDTH,
        },
{
    let lines = split_lines(listing);
    let mut hits: Vec<DistanceHit> = Vec::new();
    let mut i: usize = 0;
    while i < lines.len()
        invariant
            i <= lines@.len(),
            rows_of(lines@) == lines_of(listing@),
            hits@.len() == i,
            forall|k: int|
                0 <= k < i ==> fields_of(#[trigger] lines_of(listing@)[k]).len() >= HIT_WIDTH
                    && hits@[k]@ == hit_of_fields(fields_of(lines_of(listing@)[k])),
        decreases lines@.len() - i,
    {
        match DistanceHit::from_line(lines[i].as_slice()) {
            Some(hit) => {
                hits.push(hit);
            },
            None => {
                return Err(ShortLine { line: i });
            },
        }
        i += 1;
    }
    Ok(hits)
}

/// The index in `best` of the hit for `query`.
pub fn position(best: &Vec<DistanceHit>, query: &[u8]) -> (found: Option<usize>)
    ensures
        match found {
            Some(k) => k < best@.len() && position_from(hits_of(best@), query@, 0) == Some(
                k as int,
            ),
            None => position_from(hits_of(best@), query@, 0).is_none(),
        },
{
    let mut at: usize = 0;
    while at < best.len()
        invariant
            at <= best@.len(),
            position_from(hits_of(best@), query@, 0) == position_from(
                hits_of(best@),
                query@,
                at as int,
            ),
        decreases best@.len() - at,
    {
        if same_bytes(best[at].query.as_slice(), query) {
            return Some(at);
        }
        at += 1;
    }
    None
}

/// Reduces a list of hits to the best hit of each query: the one with the
/// smallest rank, and of several with that rank the first. The best hits
/// stand in the order in which their queries first appear in the list.
pub fn reduce(hits: &Vec<DistanceHit>) -> (best: Vec<DistanceHit>)
    ensures
        hits_of(best@) == reduced(hits_of(hits@)),
        distinct_queries(hits_of(best@)),
        forall|i: int| 0 <= i < hits@.len() ==> has_query(hits_of(best@), (#[trigger] hits@[i])@.query),
        forall|k: int| 0 <= k < best@.len() ==> is_a_best(hits_of(hits@), (#[trigger] best@[k])@),
{
    let mut best: Vec<DistanceHit> = Vec::new();
    let mut i: usize = 0;
    while i < hits.len()
        invariant
            i <= hits@.len(),
            hits_of(best@) == reduced(hits_of(hits@).take(i as int)),
        decreases hits@.len() - i,
    {
        assert(hits_of(hits@).take(i + 1).drop_last() =~= hits_of(hits@).take(i as int));
        let hit = &hits[i];
        match position(&best, hit.query.as_slice()) {
            None => {
                best.push(hit.copy());
            },
            Some(k) => {
                if hit.rank < best[k].rank {
                    best.set(k, hit.copy());
                }
            },
        }
        i += 1;
    }
    proof {
        assert(hits_of(hits@).take(i as int) =~= hits_of(hits@));
        reduced_is_minimal(hits_of(hits@));
        assert forall|i: int| 0 <= i < hits@.len() implies has_query(
            hits_of(best@),
            (#[trigger] hits@[i])@.query,
        ) by {
            assert(hits_of(hits@)[i] == hits@[i]@);
        }
        assert forall|k: int| 0 <= k < best@.len() implies is_a_best(
            hits_of(hits@),
            (#[trigger] best@[k])@,
        ) by {
            assert(hits_of(best@)[k] == best@[k]@);
        }
    }
    best
}

} // verus!
