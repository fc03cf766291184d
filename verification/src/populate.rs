//! The annotation join: every row of an abundance table gets the reference
//! genome that the completeness table links it to, and that genome's
//! annotation.
//!
//! The first line of the abundance table is its header and gets the column
//! names; every later line is a data row whose first field is the subject.
//! A subject is linked through the first completeness row that answers to it
//! and has a reference column; a subject without such a row gets the empty
//! reference identifier, which is of no family. Output lines stand in the
//! order of the abundance table's lines, one for each.

use vstd::prelude::*;
use crate::annotation::{
    annotate, annotation_of, blank, Annotation, AnnotationRecord, SourceTables, Sources,
};
use crate::link::{find_first, first_match};
use crate::names::{
    name_habitat, name_habitat_bytes, name_lineage, name_lineage_bytes, name_ncbi_id,
    name_ncbi_id_bytes, name_ncbi_name, name_ncbi_name_bytes, name_phage_class,
    name_phage_class_bytes, name_phage_desc, name_phage_desc_bytes, name_phage_host,
    name_phage_host_bytes, name_ref_id, name_ref_id_bytes, name_source, name_source_bytes,
    name_vog_clade, name_vog_clade_bytes,
};
use crate::text::{
    copy_bytes, fields_of, lines_of, push_cell, rows_of, split_fields, split_lines, starts_with,
    with_cell,
};

verus! {

/// Fields that a completeness row must have: the reference identifier is the
/// ninth.
pub const COMPLETENESS_WIDTH: usize = 9;

/// The subject of an abundance row: its first field.
pub open spec fn subject_of(line: Seq<u8>) -> Seq<u8> {
    fields_of(line)[0]
}

/// The subjects of an abundance table: one for each line after the header.
pub open spec fn subjects_of(lines: Seq<Seq<u8>>) -> Seq<Seq<u8>> {
    if lines.len() == 0 {
        Seq::empty()
    } else {
        Seq::new((lines.len() - 1) as nat, |i: int| subject_of(lines[i + 1]))
    }
}

/// The reference identifier that the completeness table links `subject` to;
/// empty where it links it to none.
pub open spec fn reference_of(subject: Seq<u8>, completeness: Seq<Seq<u8>>) -> Seq<u8> {
    match first_match(completeness, subject, COMPLETENESS_WIDTH as nat) {
        Some(i) => fields_of(completeness[i])[8],
        None => Seq::empty(),
    }
}

/// `line` followed by the reference identifier and the nine fields, each after
/// a tab.
pub open spec fn annotated_line(line: Seq<u8>, id: Seq<u8>, a: Annotation) -> Seq<u8> {
    with_cell(
        with_cell(
            with_cell(
                with_cell(
                    with_cell(
                        with_cell(
                            with_cell(
                                with_cell(with_cell(with_cell(line, id), a.ncbi_name), a.ncbi_id),
                                a.vog_clade,
                            ),
                            a.habitat,
                        ),
                        a.source,
                    ),
                    a.phage_desc,
                ),
                a.phage_class,
            ),
            a.phage_host,
        ),
        a.lineage,
    )
}

/// The record in which every field holds its own name.
pub open spec fn field_names() -> Annotation {
    Annotation {
        ncbi_name: name_ncbi_name(),
        ncbi_id: name_ncbi_id(),
        vog_clade: name_vog_clade(),
        habitat: name_habitat(),
        source: name_source(),
        phage_desc: name_phage_desc(),
        phage_class: name_phage_class(),
        phage_host: name_phage_host(),
        lineage: name_lineage(),
    }
}

/// The header line: the table's own header followed by the column names.
pub open spec fn header_line(line: Seq<u8>) -> Seq<u8> {
    annotated_line(line, name_ref_id(), field_names())
}

/// Entry `k` of a list of identifiers; empty where the list ends before it.
pub open spec fn id_at(ids: Seq<Seq<u8>>, k: int) -> Seq<u8> {
    if 0 <= k < ids.len() {
        ids[k]
    } else {
        Seq::empty()
    }
}

/// Entry `k` of a list of records; blank where the list ends before it.
pub open spec fn record_at(records: Seq<Annotation>, k: int) -> Annotation {
    if 0 <= k < records.len() {
        records[k]
    } else {
        blank()
    }
}

/// Line `i` of the joined table, from line `i` of the abundance table, the
/// identifiers and the records of the data rows.
pub open spec fn aligned_line(
    lines: Seq<Seq<u8>>,
    ids: Seq<Seq<u8>>,
    records: Seq<Annotation>,
    i: int,
) -> Seq<u8> {
    if i == 0 {
        header_line(lines[0])
    } else {
        annotated_line(lines[i], id_at(ids, i - 1), record_at(records, i - 1))
    }
}

/// Line `i` of the joined table.
pub open spec fn populated_line(
    lines: Seq<Seq<u8>>,
    completeness: Seq<Seq<u8>>,
    sources: Sources,
    i: int,
) -> Seq<u8> {
    if i == 0 {
        header_line(lines[0])
    } else {
        let id = reference_of(subject_of(lines[i]), completeness);
        annotated_line(lines[i], id, annotation_of(id, sources))
    }
}

/// The joined table: one line for each line of the abundance table, in its
/// order.
pub open spec fn populated(
    lines: Seq<Seq<u8>>,
    completeness: Seq<Seq<u8>>,
    sources: Sources,
) -> Seq<Seq<u8>> {
    Seq::new(lines.len(), |i: int| populated_line(lines, completeness, sources, i))
}

/// The views of a list of records.
pub open spec fn annotations_of(records: Seq<AnnotationRecord>) -> Seq<Annotation> {
    records.map_values(|r: AnnotationRecord| r@)
}

/// Appending a cell keeps what the line began with.
pub proof fn with_cell_extends(start: Seq<u8>, line: Seq<u8>, cell: Seq<u8>)
    requires
        starts_with(line, start),
    ensures
        starts_with(with_cell(line, cell), start),
{
    assert(with_cell(line, cell).subrange(0, start.len() as int) =~= line.subrange(
        0,
        start.len() as int,
    ));
}

/// An annotated line begins with the line that it annotates.
pub proof fn annotated_line_extends(line: Seq<u8>, id: Seq<u8>, a: Annotation)
    ensures
        starts_with(annotated_line(line, id, a), line),
{
    assert(line.subrange(0, line.len() as int) =~= line);
    let l1 = with_cell(line, id);
    with_cell_extends(line, line, id);
    let l2 = with_cell(l1, a.ncbi_name);
    with_cell_extends(line, l1, a.ncbi_name);
    let l3 = with_cell(l2, a.ncbi_id);
    with_cell_extends(line, l2, a.ncbi_id);
    let l4 = with_cell(l3, a.vog_clade);
    with_cell_extends(line, l3, a.vog_clade);
    let l5 = with_cell(l4, a.habitat);
    with_cell_extends(line, l4, a.habitat);
    let l6 = with_cell(l5, a.source);
    with_cell_extends(line, l5, a.source);
    let l7 = with_cell(l6, a.phage_desc);
    with_cell_extends(line, l6, a.phage_desc);
    let l8 = with_cell(l7, a.phage_class);
    with_cell_extends(line, l7, a.phage_class);
    let l9 = with_cell(l8, a.phage_host);
    with_cell_extends(line, l8, a.phage_host);
    with_cell_extends(line, l9, a.lineage);
}

/// The joined table has exactly one line for each line of the abundance
/// table, and line `i` of it begins with line `i` of the abundance table: no
/// row is dropped, added or moved.
pub proof fn populated_keeps_rows(
    lines: Seq<Seq<u8>>,
    completeness: Seq<Seq<u8>>,
    sources: Sources,
)
    ensures
        populated(lines, completeness, sources).len() == lines.len(),
        forall|i: int|
            0 <= i < lines.len() ==> starts_with(
                #[trigger] populated(lines, completeness, sources)[i],
                lines[i],
            ),
{
    assert forall|i: int| 0 <= i < lines.len() implies starts_with(
        #[trigger] populated(lines, completeness, sources)[i],
        lines[i],
    ) by {
        if i == 0 {
            annotated_line_extends(lines[0], name_ref_id(), field_names());
        } else {
            let id = reference_of(subject_of(lines[i]), completeness);
            annotated_line_extends(lines[i], id, annotation_of(id, sources));
        }
    }
}

/// Two runs of the join on the same tables give the same output, byte for
/// byte.
pub proof fn populate_is_repeatable(
    first: Vec<Vec<u8>>,
    second: Vec<Vec<u8>>,
    lines: Seq<Seq<u8>>,
    completeness: Seq<Seq<u8>>,
    sources: Sources,
)
    requires
        rows_of(first@) == populated(lines, completeness, sources),
        rows_of(second@) == populated(lines, completeness, sources),
    ensures
        first@.len() == second@.len(),
        forall|i: int| 0 <= i < first@.len() ==> (#[trigger] first@[i])@ == second@[i]@,
{
    assert(rows_of(first@).len() == first@.len());
    assert forall|i: int| 0 <= i < first@.len() implies (#[trigger] first@[i])@ == second@[i]@ by {
        assert(rows_of(first@)[i] == first@[i]@);
    }
}

/// The subject of an abundance row.
pub fn subject(line: &[u8]) -> (id: Vec<u8>)
    ensures
        id@ == subject_of(line@),
{
    let fields = split_fields(line);
    copy_bytes(fields[0].as_slice())
}

/// The subjects of the data rows of an abundance table, in the table's order.
pub fn subjects(lines: &Vec<Vec<u8>>) -> (ids: Vec<Vec<u8>>)
    ensures
        rows_of(ids@) == subjects_of(rows_of(lines@)),
        lines@.len() > 0 ==> ids@.len() == lines@.len() - 1,
{
    let mut ids: Vec<Vec<u8>> = Vec::new();
    if lines.len() == 0 {
        return ids;
    }
    let mut i: usize = 1;
    while i < lines.len()
        invariant
            1 <= i <= lines@.len(),
            ids@.len() == i - 1,
            forall|k: int| 0 <= k < i - 1 ==> (#[trigger] ids@[k])@ == subject_of(lines@[k + 1]@),
        decreases lines@.len() - i,
    {
        ids.push(subject(lines[i].as_slice()));
        i += 1;
    }
    ids
}

/// The reference identifier of one subject.
pub fn resolve(subject: &[u8], completeness: &Vec<Vec<u8>>) -> (id: Vec<u8>)
    ensures
        id@ == reference_of(subject@, rows_of(completeness@)),
{
    match find_first(completeness, subject, COMPLETENESS_WIDTH) {
        Some(i) => {
            proof {
                crate::link::first_match_is_first(
                    rows_of(completeness@),
                    subject@,
                    COMPLETENESS_WIDTH as nat,
                );
            }
            let fields = split_fields(completeness[i].as_slice());
            copy_bytes(fields[8].as_slice())
        },
        None => Vec::new(),
    }
}

/// The reference identifiers of a list of subjects: exactly one for each, in
/// the list's order.
pub fn resolve_all(subjects: &Vec<Vec<u8>>, completeness: &Vec<Vec<u8>>) -> (ids: Vec<Vec<u8>>)
    ensures
        ids@.len() == subjects@.len(),
        forall|k: int|
            0 <= k < subjects@.len() ==> (#[trigger] ids@[k])@ == reference_of(
                subjects@[k]@,
                rows_of(completeness@),
            ),
{
    let mut ids: Vec<Vec<u8>> = Vec::new();
    let mut i: usize = 0;
    while i < subjects.len()
        invariant
            i <= subjects@.len(),
            ids@.len() == i,
            forall|k: int|
                0 <= k < i ==> (#[trigger] ids@[k])@ == reference_of(
                    subjects@[k]@,
                    rows_of(completeness@),
                ),
        decreases subjects@.len() - i,
    {
        ids.push(resolve(subjects[i].as_slice(), completeness));
        i += 1;
    }
    ids
}

/// The records of a list of reference identifiers: exactly one for each, in
/// the list's order.
pub fn annotate_all(ids: &Vec<Vec<u8>>, tables: &SourceTables) -> (records: Vec<AnnotationRecord>)
    ensures
        records@.len() == ids@.len(),
        forall|k: int|
            0 <= k < ids@.len() ==> (#[trigger] records@[k])@ == annotation_of(ids@[k]@, tables@),
{
    let mut records: Vec<AnnotationRecord> = Vec::new();
    let mut i: usize = 0;
    while i < ids.len()
        invariant
            i <= ids@.len(),
            records@.len() == i,
            forall|k: int|
                0 <= k < i ==> (#[trigger] records@[k])@ == annotation_of(ids@[k]@, tables@),
        decreases ids@.len() - i,
    {
        records.push(annotate(ids[i].as_slice(), tables));
        i += 1;
    }
    records
}

/// The record in which every field holds its own name.
pub fn header_record() -> (rec: AnnotationRecord)
    ensures
        rec@ == field_names(),
{
    AnnotationRecord {
        ncbi_name: name_ncbi_name_bytes(),
        ncbi_id: name_ncbi_id_bytes(),
        vog_clade: name_vog_clade_bytes(),
        habitat: name_habitat_bytes(),
        source: name_source_bytes(),
        phage_desc: name_phage_desc_bytes(),
        phage_class: name_phage_class_bytes(),
        phage_host: name_phage_host_bytes(),
        lineage: name_lineage_bytes(),
    }
}

/// One output line: `line`, the reference identifier and the nine fields.
pub fn emit_line(line: &[u8], id: &[u8], rec: &AnnotationRecord) -> (out: Vec<u8>)
    ensures
        out@ == annotated_line(line@, id@, rec@),
{
    let mut out = copy_bytes(line);
    push_cell(&mut out, id);
    push_cell(&mut out, rec.ncbi_name.as_slice());
    push_cell(&mut out, rec.ncbi_id.as_slice());
    push_cell(&mut out, rec.vog_clade.as_slice());
    push_cell(&mut out, rec.habitat.as_slice());
    push_cell(&mut out, rec.source.as_slice());
    push_cell(&mut out, rec.phage_desc.as_slice());
    push_cell(&mut out, rec.phage_class.as_slice());
    push_cell(&mut out, rec.phage_host.as_slice());
    push_cell(&mut out, rec.lineage.as_slice());
    out
}

/// Joins the lines of an abundance table with the identifiers and records of
/// its data rows, by position: the header gets the column names, data row `i`
/// gets identifier and record `i - 1`. A row beyond the end of a list gets the
/// empty identifier or the blank record, so that no row is lost.
pub fn align(lines: &Vec<Vec<u8>>, ids: &Vec<Vec<u8>>, records: &Vec<AnnotationRecord>) -> (out:
    Vec<Vec<u8>>)
    ensures
        out@.len() == lines@.len(),
        forall|i: int|
            0 <= i < lines@.len() ==> (#[trigger] out@[i])@ == aligned_line(
                rows_of(lines@),
                rows_of(ids@),
                annotations_of(records@),
                i,
            ),
{
    let mut out: Vec<Vec<u8>> = Vec::new();
    let mut i: usize = 0;
    while i < lines.len()
        invariant
            i <= lines@.len(),
            out@.len() == i,
            forall|k: int|
                0 <= k < i ==> (#[trigger] out@[k])@ == aligned_line(
                    rows_of(lines@),
                    rows_of(ids@),
                    annotations_of(records@),
                    k,
                ),
        decreases lines@.len() - i,
    {
        if i == 0 {
            let names = header_record();
            out.push(emit_line(lines[0].as_slice(), name_ref_id_bytes().as_slice(), &names));
        } else {
            let id = if i - 1 < ids.len() {
                copy_bytes(ids[i - 1].as_slice())
            } else {
                Vec::new()
            };
            if i - 1 < records.len() {
                out.push(emit_line(lines[i].as_slice(), id.as_slice(), &records[i - 1]));
            } else {
                let none = AnnotationRecord::empty();
                out.push(emit_line(lines[i].as_slice(), id.as_slice(), &none));
            }
        }
        i += 1;
    }
    out
}

/// The annotation join on tables that are already split into lines.
pub fn populate_rows(
    lines: &Vec<Vec<u8>>,
    completeness: &Vec<Vec<u8>>,
    tables: &SourceTables,
) -> (out: Vec<Vec<u8>>)
    ensures
        rows_of(out@) == populated(rows_of(lines@), rows_of(completeness@), tables@),
        out@.len() == lines@.len(),
        forall|i: int| 0 <= i < lines@.len() ==> starts_with((#[trigger] out@[i])@, lines@[i]@),
{
    if lines.len() == 0 {
        return Vec::new();
    }
    let subjects = subjects(lines);
    let ids = resolve_all(&subjects, completeness);
    let records = annotate_all(&ids, tables);
    let out = align(lines, &ids, &records);
    proof {
        let ls = rows_of(lines@);
        let cs = rows_of(completeness@);
        let want = populated(ls, cs, tables@);
        assert forall|i: int| 0 <= i < ls.len() implies rows_of(out@)[i] == want[i] by {
            if i > 0 {
                assert(rows_of(subjects@)[i - 1] == subjects@[i - 1]@);
            }
        }
        assert(rows_of(out@) =~= want);
        populated_keeps_rows(ls, cs, tables@);
        assert forall|i: int| 0 <= i < lines@.len() implies starts_with(
            (#[trigger] out@[i])@,
            lines@[i]@,
        ) by {
            assert(rows_of(out@)[i] == out@[i]@);
        }
    }
    out
}

/// The annotation join: for every line of the abundance table one output
/// line, in the same order, that begins with that line and goes on with the
/// reference identifier and the nine annotation fields; the first line gets
/// the column names instead.
pub fn populate(abundance: &[u8], completeness: &[u8], tables: &SourceTables) -> (out: Vec<
    Vec<u8>,
>)
    ensures
        rows_of(out@) == populated(lines_of(abundance@), lines_of(completeness@), tables@),
        out@.len() == lines_of(abundance@).len(),
        forall|i: int|
            0 <= i < out@.len() ==> starts_with((#[trigger] out@[i])@, lines_of(abundance@)[i]),
{
    let lines = split_lines(abundance);
    let links = split_lines(completeness);
    let out = populate_rows(&lines, &links, tables);
    assert forall|i: int| 0 <= i < out@.len() implies starts_with(
        (#[trigger] out@[i])@,
        lines_of(abundance@)[i],
    ) by {
    }
    out
}

} // verus!
