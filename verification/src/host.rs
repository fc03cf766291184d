//! The best-match join: every query of a distance listing gets its closest
//! reference genome and what the phage reference table says of that genome.
//!
//! The table row for a genome is the last row that answers to its
//! identifier. In summary form the host is the row's host column, and rows
//! without that column are passed over; in full form it is the whole row.
//! A genome without a row gets the empty host.

use vstd::prelude::*;
use crate::hits::{hits_of, reduce, reduced, DistanceHit, Hit};
use crate::link::{find_last, last_match};
use crate::names::{
    name_contig_id, name_contig_id_bytes, name_host, name_host_bytes, name_mash_distance,
    name_mash_distance_bytes, name_mash_p, name_mash_p_bytes, name_phage_id,
    name_phage_id_bytes,
};
use crate::text::{
    copy_bytes, fields_of, fields_rejoin, joined, push_cell, rows_of, split_fields, with_cell,
};

verus! {

/// Fields that a phage reference row must have for its host column to be
/// read: the host is the fifteenth.
pub const HOST_WIDTH: usize = 15;

/// What the phage reference table says of the genome `reference`: all
/// columns of its row, or the host column alone.
pub open spec fn host_of(reference: Seq<u8>, phage: Seq<Seq<u8>>, all_info: bool) -> Seq<u8> {
    if all_info {
        match last_match(phage, reference, 0) {
            Some(i) => joined(fields_of(phage[i])),
            None => Seq::empty(),
        }
    } else {
        match last_match(phage, reference, HOST_WIDTH as nat) {
            Some(i) => fields_of(phage[i])[14],
            None => Seq::empty(),
        }
    }
}

/// The four columns that every output line starts with.
pub open spec fn hit_columns() -> Seq<u8> {
    with_cell(
        with_cell(with_cell(name_contig_id(), name_phage_id()), name_mash_distance()),
        name_mash_p(),
    )
}

/// The header line: the four hit columns, then the host column or, in full
/// form, the header of the phage reference table. An empty table has an
/// empty header.
pub open spec fn host_header(phage: Seq<Seq<u8>>, all_info: bool) -> Seq<u8> {
    if !all_info {
        with_cell(hit_columns(), name_host())
    } else if phage.len() > 0 {
        with_cell(hit_columns(), phage[0])
    } else {
        with_cell(hit_columns(), Seq::empty())
    }
}

/// The output line of one best hit: query, reference genome, distance,
/// p-value and host.
pub open spec fn host_line(hit: Hit, host: Seq<u8>) -> Seq<u8> {
    with_cell(
        with_cell(with_cell(with_cell(hit.query, hit.reference), hit.distance), hit.p_value),
        host,
    )
}

/// The output line of hit `k` of a list of best hits.
pub open spec fn joined_hit(best: Seq<Hit>, phage: Seq<Seq<u8>>, all_info: bool, k: int) -> Seq<
    u8,
> {
    host_line(best[k], host_of(best[k].reference, phage, all_info))
}

/// The whole output: the header, then one line for each best hit.
pub open spec fn host_report_of(hits: Seq<Hit>, phage: Seq<Seq<u8>>, all_info: bool) -> Seq<
    Seq<u8>,
> {
    Seq::new(
        reduced(hits).len() + 1,
        |i: int|
            if i == 0 {
                host_header(phage, all_info)
            } else {
                joined_hit(reduced(hits), phage, all_info, i - 1)
            },
    )
}

/// Two runs of the join on the same hits and table give the same output,
/// byte for byte.
pub proof fn host_report_is_repeatable(
    first: Vec<Vec<u8>>,
    second: Vec<Vec<u8>>,
    hits: Seq<Hit>,
    phage: Seq<Seq<u8>>,
    all_info: bool,
)
    requires
        rows_of(first@) == host_report_of(hits, phage, all_info),
        rows_of(second@) == host_report_of(hits, phage, all_info),
    ensures
        first@.len() == second@.len(),
        forall|i: int| 0 <= i < first@.len() ==> (#[trigger] first@[i])@ == second@[i]@,
{
    assert(rows_of(first@).len() == first@.len());
    assert forall|i: int| 0 <= i < first@.len() implies (#[trigger] first@[i])@ == second@[i]@ by {
        assert(rows_of(first@)[i] == first@[i]@);
    }
}

/// What the phage reference table says of the genome `reference`.
pub fn host(reference: &[u8], phage: &Vec<Vec<u8>>, all_info: bool) -> (out: Vec<u8>)
    ensures
        out@ == host_of(reference@, rows_of(phage@), all_info),
{
    if all_info {
        match find_last(phage, reference, 0) {
            Some(i) => {
                proof {
                    fields_rejoin(phage@[i as int]@);
                }
                copy_bytes(phage[i].as_slice())
            },
            None => Vec::new(),
        }
    } else {
        match find_last(phage, reference, HOST_WIDTH) {
            Some(i) => {
                proof {
                    crate::link::last_match_is_last(
                        rows_of(phage@),
                        reference@,
                        HOST_WIDTH as nat,
                    );
                }
                let fields = split_fields(phage[i].as_slice());
                copy_bytes(fields[14].as_slice())
            },
            None => Vec::new(),
        }
    }
}

/// The header line of the output.
pub fn header(phage: &Vec<Vec<u8>>, all_info: bool) -> (out: Vec<u8>)
    ensures
        out@ == host_header(rows_of(phage@), all_info),
{
    let mut out = name_contig_id_bytes();
    push_cell(&mut out, name_phage_id_bytes().as_slice());
    push_cell(&mut out, name_mash_distance_bytes().as_slice());
    push_cell(&mut out, name_mash_p_bytes().as_slice());
    if !all_info {
        push_cell(&mut out, name_host_bytes().as_slice());
    } else if phage.len() > 0 {
        push_cell(&mut out, phage[0].as_slice());
    } else {
        let nothing: Vec<u8> = Vec::new();
        push_cell(&mut out, nothing.as_slice());
    }
    out
}

/// The output line of one best hit.
pub fn emit_hit(hit: &DistanceHit, host: &[u8]) -> (out: Vec<u8>)
    ensures
        out@ == host_line(hit@, host@),
{
    let mut out = copy_bytes(hit.query.as_slice());
    push_cell(&mut out, hit.reference.as_slice());
    push_cell(&mut out, hit.distance.as_slice());
    push_cell(&mut out, hit.p_value.as_slice());
    push_cell(&mut out, host);
    out
}

/// The best-match join: the header, then for each query its best hit with
/// the host of the hit's reference genome, in the order in which the queries
/// first appear among the hits.
pub fn host_report(hits: &Vec<DistanceHit>, phage: &Vec<Vec<u8>>, all_info: bool) -> (out: Vec<
    Vec<u8>,
>)
    ensures
        rows_of(out@) == host_report_of(hits_of(hits@), rows_of(phage@), all_info),
        out@.len() == reduced(hits_of(hits@)).len() + 1,
{
    let best = reduce(hits);
    let mut out: Vec<Vec<u8>> = Vec::new();
    out.push(header(phage, all_info));
    let mut k: usize = 0;
    while k < best.len()
        invariant
            k <= best@.len(),
            out@.len() == k + 1,
            out@[0]@ == host_header(rows_of(phage@), all_info),
            forall|j: int|
                0 <= j < k ==> (#[trigger] out@[j + 1])@ == joined_hit(
                    hits_of(best@),
                    rows_of(phage@),
                    all_info,
                    j,
                ),
        decreases best@.len() - k,
    {
        let hit = &best[k];
        let found = host(hit.reference.as_slice(), phage, all_info);
        out.push(emit_hit(hit, found.as_slice()));
        k += 1;
    }
    proof {
        let want = host_report_of(hits_of(hits@), rows_of(phage@), all_info);
        assert forall|i: int| 0 <= i < want.len() implies rows_of(out@)[i] == want[i] by {
            if i > 0 {
                assert(out@[(i - 1) + 1]@ == joined_hit(
                    hits_of(best@),
                    rows_of(phage@),
                    all_info,
                    i - 1,
                ));
            }
        }
    }
    out
}

} // verus!
