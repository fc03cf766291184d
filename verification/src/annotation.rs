//! Annotation of a reference genome from the source table of its family.
//!
//! The prefix of a reference identifier names its family, the family names
//! the table to search and the columns to read. The record is taken from the
//! first row of that table that answers to the identifier and has all the
//! columns that the family reads. An identifier of no family, or one that no
//! such row answers to, gets the blank record.

use vstd::prelude::*;
use crate::link::{find_first, first_match};
use crate::names::{
    circular_prefix, circular_prefix_bytes, curated_prefix_lr, curated_prefix_lr_bytes,
    curated_prefix_nc, curated_prefix_nc_bytes, genbank_prefix, genbank_prefix_bytes,
};
use crate::text::{copy_bytes, fields_of, has_prefix, rows_of, split_fields, starts_with};

verus! {

/// The annotation source that a reference identifier belongs to.
#[derive(Clone, Copy, Debug, PartialEq, Eq, Structural)]
pub enum Family {
    /// Circular genomes.
    Circular,
    /// GenBank genomes.
    Genbank,
    /// Lab-curated phage genomes.
    LabCurated,
    /// No known source.
    Unknown,
}

/// The nine annotation fields of one subject, as byte sequences.
pub ghost struct Annotation {
    pub ncbi_name: Seq<u8>,
    pub ncbi_id: Seq<u8>,
    pub vog_clade: Seq<u8>,
    pub habitat: Seq<u8>,
    pub source: Seq<u8>,
    pub phage_desc: Seq<u8>,
    pub phage_class: Seq<u8>,
    pub phage_host: Seq<u8>,
    pub lineage: Seq<u8>,
}

/// The nine annotation fields of one subject.
#[derive(Debug)]
pub struct AnnotationRecord {
    pub ncbi_name: Vec<u8>,
    pub ncbi_id: Vec<u8>,
    pub vog_clade: Vec<u8>,
    pub habitat: Vec<u8>,
    pub source: Vec<u8>,
    pub phage_desc: Vec<u8>,
    pub phage_class: Vec<u8>,
    pub phage_host: Vec<u8>,
    pub lineage: Vec<u8>,
}

impl View for AnnotationRecord {
    type V = Annotation;

    open spec fn view(&self) -> Annotation {
        Annotation {
            ncbi_name: self.ncbi_name@,
            ncbi_id: self.ncbi_id@,
            vog_clade: self.vog_clade@,
            habitat: self.habitat@,
            source: self.source@,
            phage_desc: self.phage_desc@,
            phage_class: self.phage_class@,
            phage_host: self.phage_host@,
            lineage: self.lineage@,
        }
    }
}

/// The three source tables, each as the sequence of its lines.
pub struct SourceTables {
    pub circular: Vec<Vec<u8>>,
    pub genbank: Vec<Vec<u8>>,
    pub curated: Vec<Vec<u8>>,
}

/// The lines of the three source tables.
pub ghost struct Sources {
    pub circular: Seq<Seq<u8>>,
    pub genbank: Seq<Seq<u8>>,
    pub curated: Seq<Seq<u8>>,
}

impl View for SourceTables {
    type V = Sources;

    open spec fn view(&self) -> Sources {
        Sources {
            circular: rows_of(self.circular@),
            genbank: rows_of(self.genbank@),
            curated: rows_of(self.curated@),
        }
    }
}

/// Fields that a circular-genome row must have.
pub const CIRCULAR_WIDTH: usize = 7;

/// Fields that a GenBank row must have.
pub const GENBANK_WIDTH: usize = 8;

/// Fields that a lab-curated row must have.
pub const CURATED_WIDTH: usize = 20;

/// The family that the prefix of `id` names.
pub open spec fn family_of(id: Seq<u8>) -> Family {
    if starts_with(id, circular_prefix()) {
        Family::Circular
    } else if starts_with(id, genbank_prefix()) {
        Family::Genbank
    } else if starts_with(id, curated_prefix_lr()) || starts_with(id, curated_prefix_nc()) {
        Family::LabCurated
    } else {
        Family::Unknown
    }
}

/// The record with nine empty fields.
pub open spec fn blank() -> Annotation {
    Annotation {
        ncbi_name: Seq::empty(),
        ncbi_id: Seq::empty(),
        vog_clade: Seq::empty(),
        habitat: Seq::empty(),
        source: Seq::empty(),
        phage_desc: Seq::empty(),
        phage_class: Seq::empty(),
        phage_host: Seq::empty(),
        lineage: Seq::empty(),
    }
}

/// What a circular-genome row with these fields says.
pub open spec fn circular_annotation(fields: Seq<Seq<u8>>) -> Annotation {
    Annotation { source: fields[1], lineage: fields[5], habitat: fields[6], ..blank() }
}

/// What a GenBank row with these fields says.
pub open spec fn genbank_annotation(fields: Seq<Seq<u8>>) -> Annotation {
    Annotation {
        ncbi_id: fields[2],
        ncbi_name: fields[3],
        vog_clade: fields[6],
        lineage: fields[7],
        ..blank()
    }
}

/// What a lab-curated row with these fields says.
pub open spec fn curated_annotation(fields: Seq<Seq<u8>>) -> Annotation {
    Annotation {
        phage_desc: fields[1],
        phage_class: fields[2],
        phage_host: fields[14],
        lineage: fields[19],
        ..blank()
    }
}

/// The annotation of the reference genome `id`.
pub open spec fn annotation_of(id: Seq<u8>, sources: Sources) -> Annotation {
    match family_of(id) {
        Family::Circular => match first_match(sources.circular, id, CIRCULAR_WIDTH as nat) {
            Some(i) => circular_annotation(fields_of(sources.circular[i])),
            None => blank(),
        },
        Family::Genbank => match first_match(sources.genbank, id, GENBANK_WIDTH as nat) {
            Some(i) => genbank_annotation(fields_of(sources.genbank[i])),
            None => blank(),
        },
        Family::LabCurated => match first_match(sources.curated, id, CURATED_WIDTH as nat) {
            Some(i) => curated_annotation(fields_of(sources.curated[i])),
            None => blank(),
        },
        Family::Unknown => blank(),
    }
}

/// The fields that only a circular-genome row fills are empty.
pub open spec fn circular_group_empty(a: Annotation) -> bool {
    a.habitat.len() == 0 && a.source.len() == 0
}

/// The fields that only a GenBank row fills are empty.
pub open spec fn genbank_group_empty(a: Annotation) -> bool {
    a.ncbi_name.len() == 0 && a.ncbi_id.len() == 0 && a.vog_clade.len() == 0
}

/// The fields that only a lab-curated row fills are empty.
pub open spec fn curated_group_empty(a: Annotation) -> bool {
    a.phage_desc.len() == 0 && a.phage_class.len() == 0 && a.phage_host.len() == 0
}

/// At most one of the three field groups is filled.
pub open spec fn one_family(a: Annotation) -> bool {
    ||| circular_group_empty(a) && genbank_group_empty(a)
    ||| circular_group_empty(a) && curated_group_empty(a)
    ||| genbank_group_empty(a) && curated_group_empty(a)
}

/// The field groups of the families exclude each other: in the annotation of
/// any identifier, a group is empty unless the identifier is of that group's
/// family, so at most one group is filled. An identifier of no family has all
/// nine fields empty. The lineage, which every family fills, belongs to no
/// group.
pub proof fn family_exclusivity(id: Seq<u8>, sources: Sources)
    ensures
        family_of(id) != Family::Circular ==> circular_group_empty(annotation_of(id, sources)),
        family_of(id) != Family::Genbank ==> genbank_group_empty(annotation_of(id, sources)),
        family_of(id) != Family::LabCurated ==> curated_group_empty(annotation_of(id, sources)),
        family_of(id) == Family::Unknown ==> annotation_of(id, sources) == blank(),
        one_family(annotation_of(id, sources)),
{
}

/// The family of a reference identifier, by its prefix.
pub fn classify(id: &[u8]) -> (family: Family)
    ensures
        family == family_of(id@),
{
    if has_prefix(id, circular_prefix_bytes().as_slice()) {
        Family::Circular
    } else if has_prefix(id, genbank_prefix_bytes().as_slice()) {
        Family::Genbank
    } else if has_prefix(id, curated_prefix_lr_bytes().as_slice()) || has_prefix(
        id,
        curated_prefix_nc_bytes().as_slice(),
    ) {
        Family::LabCurated
    } else {
        Family::Unknown
    }
}

/// A copy of field `k` of a split row.
pub fn field(fields: &Vec<Vec<u8>>, k: usize) -> (out: Vec<u8>)
    requires
        k < fields@.len(),
    ensures
        out@ == rows_of(fields@)[k as int],
{
    copy_bytes(fields[k].as_slice())
}

impl AnnotationRecord {
    /// The record with nine empty fields.
    pub fn empty() -> (rec: AnnotationRecord)
        ensures
            rec@ == blank(),
    {
        AnnotationRecord {
            ncbi_name: Vec::new(),
            ncbi_id: Vec::new(),
            vog_clade: Vec::new(),
            habitat: Vec::new(),
            source: Vec::new(),
            phage_desc: Vec::new(),
            phage_class: Vec::new(),
            phage_host: Vec::new(),
            lineage: Vec::new(),
        }
    }

    /// The record that a circular-genome row gives.
    pub fn from_circular(row: &[u8]) -> (rec: AnnotationRecord)
        requires
            fields_of(row@).len() >= CIRCULAR_WIDTH,
        ensures
            rec@ == circular_annotation(fields_of(row@)),
    {
        let fields = split_fields(row);
        let mut rec = AnnotationRecord::empty();
        rec.source = field(&fields, 1);
        rec.lineage = field(&fields, 5);
        rec.habitat = field(&fields, 6);
        rec
    }

    /// The record that a GenBank row gives.
    pub fn from_genbank(row: &[u8]) -> (rec: AnnotationRecord)
        requires
            fields_of(row@).len() >= GENBANK_WIDTH,
        ensures
            rec@ == genbank_annotation(fields_of(row@)),
    {
        let fields = split_fields(row);
        let mut rec = AnnotationRecord::empty();
        rec.ncbi_id = field(&fields, 2);
        rec.ncbi_name = field(&fields, 3);
        rec.vog_clade = field(&fields, 6);
        rec.lineage = field(&fields, 7);
        rec
    }

    /// The record that a lab-curated row gives.
    pub fn from_curated(row: &[u8]) -> (rec: AnnotationRecord)
        requires
            fields_of(row@).len() >= CURATED_WIDTH,
        ensures
            rec@ == curated_annotation(fields_of(row@)),
    {
        let fields = split_fields(row);
        let mut rec = AnnotationRecord::empty();
        rec.phage_desc = field(&fields, 1);
        rec.phage_class = field(&fields, 2);
        rec.phage_host = field(&fields, 14);
        rec.lineage = field(&fields, 19);
        rec
    }
}

impl SourceTables {
    /// The three tables, split into lines.
    pub fn parse(circular: &[u8], genbank: &[u8], curated: &[u8]) -> (tables: SourceTables)
        ensures
            tables@ == (Sources {
                circular: crate::text::lines_of(circular@),
                genbank: crate::text::lines_of(genbank@),
                curated: crate::text::lines_of(curated@),
            }),
    {
        SourceTables {
            circular: crate::text::split_lines(circular),
            genbank: crate::text::split_lines(genbank),
            curated: crate::text::split_lines(curated),
        }
    }
}

/// Exactly one record for the reference genome `id`: that of the first
/// eligible row of its family's table, or the blank record.
pub fn annotate(id: &[u8], tables: &SourceTables) -> (rec: AnnotationRecord)
    ensures
        rec@ == annotation_of(id@, tables@),
        one_family(rec@),
        family_of(id@) == Family::Unknown ==> rec@ == blank(),
{
    proof {
        family_exclusivity(id@, tables@);
    }
    match classify(id) {
        Family::Circular => match find_first(&tables.circular, id, CIRCULAR_WIDTH) {
            Some(i) => {
                proof {
                    crate::link::first_match_is_first(tables@.circular, id@, CIRCULAR_WIDTH as nat);
                }
                AnnotationRecord::from_circular(tables.circular[i].as_slice())
            },
            None => AnnotationRecord::empty(),
        },
        Family::Genbank => match find_first(&tables.genbank, id, GENBANK_WIDTH) {
            Some(i) => {
                proof {
                    crate::link::first_match_is_first(tables@.genbank, id@, GENBANK_WIDTH as nat);
                }
                AnnotationRecord::from_genbank(tables.genbank[i].as_slice())
            },
            None => AnnotationRecord::empty(),
        },
        Family::LabCurated => match find_first(&tables.curated, id, CURATED_WIDTH) {
            Some(i) => {
                proof {
                    crate::link::first_match_is_first(tables@.curated, id@, CURATED_WIDTH as nat);
                }
                AnnotationRecord::from_curated(tables.curated[i].as_slice())
            },
            None => AnnotationRecord::empty(),
        },
        Family::Unknown => AnnotationRecord::empty(),
    }
}

} // verus!
