use phage_annotate::annotation::{annotate, classify, AnnotationRecord, Family, SourceTables};
use phage_annotate::populate::{
    align, annotate_all, emit_line, header_record, populate, populate_rows, resolve, resolve_all,
    subject, subjects,
};
use phage_annotate::text::split_lines;

fn row(width: usize, cells: &[(usize, &str)]) -> String {
    let mut fields = vec![String::new(); width];
    for (at, text) in cells {
        fields[*at] = text.to_string();
    }
    fields.join("\t")
}

fn text(lines: &[String]) -> Vec<u8> {
    let mut out = String::new();
    for line in lines {
        out.push_str(line);
        out.push('\n');
    }
    out.into_bytes()
}

fn strings(lines: &[Vec<u8>]) -> Vec<String> {
    lines.iter().map(|l| String::from_utf8(l.clone()).unwrap()).collect()
}

fn completeness() -> Vec<u8> {
    text(&[
        row(9, &[(0, "contig_id"), (8, "aai_top_hit")]),
        row(9, &[(0, "contigA"), (8, "DTR_ref1")]),
        row(9, &[(0, "contigB"), (8, "GCA_ref2")]),
        row(9, &[(0, "contigC"), (8, "LR_ref3")]),
        row(9, &[(0, "contigD"), (8, "NC_ref4")]),
        row(9, &[(0, "contigE"), (8, "XYZ123")]),
    ])
}

fn tables() -> SourceTables {
    let circular = text(&[
        row(7, &[(0, "DTR_ref0"), (1, "lake"), (5, "Viruses;Other"), (6, "water")]),
        row(7, &[(0, "DTR_ref1"), (1, "metagenome"), (5, "Viruses;Caudo"), (6, "soil")]),
        row(7, &[(0, "DTR_ref1"), (1, "second"), (5, "second"), (6, "second")]),
    ]);
    let genbank = text(&[row(
        8,
        &[(0, "GCA_ref2"), (2, "12345"), (3, "Phage X"), (6, "cladeK"), (7, "Viruses;Sipho")],
    )]);
    let curated = text(&[
        row(20, &[(0, "Accession"), (1, "Description"), (2, "Classification"), (14, "Host")]),
        row(20, &[(0, "LR_ref3"), (1, "phage three"), (2, "Myo"), (14, "Vibrio"), (19, "Class3")]),
        row(20, &[(0, "NC_ref4"), (1, "phage four"), (2, "Podo"), (14, "Bacillus"), (19, "Class4")]),
    ]);
    SourceTables::parse(&circular, &genbank, &curated)
}

fn fields_of(rec: &AnnotationRecord) -> Vec<String> {
    strings(&[
        rec.ncbi_name.clone(),
        rec.ncbi_id.clone(),
        rec.vog_clade.clone(),
        rec.habitat.clone(),
        rec.source.clone(),
        rec.phage_desc.clone(),
        rec.phage_class.clone(),
        rec.phage_host.clone(),
        rec.lineage.clone(),
    ])
}

#[test]
fn circular_and_genbank_rows_are_joined() {
    let abundance = b"contig\tsample1\ncontigA\t10\ncontigB\t20\n";
    let out = strings(&populate(abundance, &completeness(), &tables()));
    assert_eq!(
        out,
        vec![
            "contig\tsample1\tref_id\tncbi_name\tncbi_id\tvog_clade\thabitat\tsource\tphage_desc\tphage_class\tphage_host\tlineage",
            "contigA\t10\tDTR_ref1\t\t\t\tsoil\tmetagenome\t\t\t\tViruses;Caudo",
            "contigB\t20\tGCA_ref2\tPhage X\t12345\tcladeK\t\t\t\t\t\tViruses;Sipho",
        ]
    );
}

#[test]
fn unknown_prefix_gives_nine_empty_fields() {
    let rec = annotate(b"XYZ123", &tables());
    assert_eq!(fields_of(&rec), vec![""; 9]);
    assert_eq!(classify(b"XYZ123"), Family::Unknown);
}

#[test]
fn prefixes_name_the_family() {
    assert_eq!(classify(b"DTR_1"), Family::Circular);
    assert_eq!(classify(b"GCA_1"), Family::Genbank);
    assert_eq!(classify(b"LR1"), Family::LabCurated);
    assert_eq!(classify(b"NC_1"), Family::LabCurated);
    assert_eq!(classify(b"DT"), Family::Unknown);
    assert_eq!(classify(b"xDTR"), Family::Unknown);
    assert_eq!(classify(b""), Family::Unknown);
    assert_eq!(classify(b"L"), Family::Unknown);
}

#[test]
fn curated_rows_fill_the_phage_fields() {
    let rec = annotate(b"LR_ref3", &tables());
    assert_eq!(
        fields_of(&rec),
        vec!["", "", "", "", "", "phage three", "Myo", "Vibrio", "Class3"]
    );
    let rec = annotate(b"NC_ref4", &tables());
    assert_eq!(
        fields_of(&rec),
        vec!["", "", "", "", "", "phage four", "Podo", "Bacillus", "Class4"]
    );
}

#[test]
fn first_matching_row_wins() {
    let rec = annotate(b"DTR_ref1", &tables());
    assert_eq!(
        fields_of(&rec),
        vec!["", "", "", "soil", "metagenome", "", "", "", "Viruses;Caudo"]
    );
}

#[test]
fn identifier_without_row_is_blank() {
    assert_eq!(fields_of(&annotate(b"DTR_missing", &tables())), vec![""; 9]);
    assert_eq!(fields_of(&annotate(b"GCA_missing", &tables())), vec![""; 9]);
    assert_eq!(fields_of(&annotate(b"NC_missing", &tables())), vec![""; 9]);
}

#[test]
fn family_decides_the_table() {
    // The genbank table holds a row that answers to this circular identifier.
    let genbank = text(&[row(8, &[(0, "DTR_only_here"), (3, "wrong")])]);
    let tables = SourceTables::parse(b"", &genbank, b"");
    assert_eq!(fields_of(&annotate(b"DTR_only_here", &tables)), vec![""; 9]);
}

#[test]
fn short_rows_are_passed_over() {
    let circular = text(&[
        row(6, &[(0, "DTR_x"), (1, "short")]),
        row(7, &[(0, "DTR_x"), (1, "full"), (5, "lin"), (6, "hab")]),
    ]);
    let tables = SourceTables::parse(&circular, b"", b"");
    assert_eq!(
        fields_of(&annotate(b"DTR_x", &tables)),
        vec!["", "", "", "hab", "full", "", "", "", "lin"]
    );
    let only_short = text(&[row(6, &[(0, "DTR_x"), (1, "short")])]);
    let tables = SourceTables::parse(&only_short, b"", b"");
    assert_eq!(fields_of(&annotate(b"DTR_x", &tables)), vec![""; 9]);
}

#[test]
fn at_most_one_group_is_filled() {
    let tables = tables();
    for id in ["DTR_ref1", "GCA_ref2", "LR_ref3", "NC_ref4", "XYZ123", ""] {
        let rec = annotate(id.as_bytes(), &tables);
        let circular = !rec.habitat.is_empty() || !rec.source.is_empty();
        let genbank =
            !rec.ncbi_name.is_empty() || !rec.ncbi_id.is_empty() || !rec.vog_clade.is_empty();
        let curated = !rec.phage_desc.is_empty()
            || !rec.phage_class.is_empty()
            || !rec.phage_host.is_empty();
        let filled = [circular, genbank, curated].iter().filter(|g| **g).count();
        assert!(filled <= 1);
    }
}

#[test]
fn subjects_are_the_first_fields_after_the_header() {
    let lines = split_lines(b"contig\ts1\ncontigA\t10\n\ncontigB\t20");
    assert_eq!(strings(&subjects(&lines)), vec!["contigA", "", "contigB"]);
    assert_eq!(subject(b"contigA\t10"), b"contigA".to_vec());
    assert_eq!(subject(b""), b"".to_vec());
    assert_eq!(subject(b"\t10"), b"".to_vec());
}

#[test]
fn every_subject_gets_one_reference() {
    let links = split_lines(&completeness());
    assert_eq!(resolve(b"contigA", &links), b"DTR_ref1".to_vec());
    assert_eq!(resolve(b"nobody", &links), b"".to_vec());
    let subjects = vec![b"contigB".to_vec(), b"nobody".to_vec(), b"contigA".to_vec()];
    let ids = resolve_all(&subjects, &links);
    assert_eq!(strings(&ids), vec!["GCA_ref2", "", "DTR_ref1"]);
}

#[test]
fn first_completeness_row_wins_and_short_rows_are_skipped() {
    let links = split_lines(&text(&[
        row(8, &[(0, "contigA")]),
        row(9, &[(0, "contigA"), (8, "first")]),
        row(9, &[(0, "contigA"), (8, "second")]),
    ]));
    assert_eq!(resolve(b"contigA", &links), b"first".to_vec());
}

#[test]
fn one_output_row_for_each_input_row() {
    let abundance = b"contig\ts1\ncontigA\t1\nnobody\t2\ncontigE\t3\ncontigD\t4\ncontigA\t5\n";
    let lines = split_lines(abundance);
    let links = split_lines(&completeness());
    let tables = tables();
    let subjects = subjects(&lines);
    let ids = resolve_all(&subjects, &links);
    let records = annotate_all(&ids, &tables);
    assert_eq!(subjects.len(), lines.len() - 1);
    assert_eq!(ids.len(), lines.len() - 1);
    assert_eq!(records.len(), lines.len() - 1);
    let out = populate(abundance, &completeness(), &tables);
    assert_eq!(out.len(), lines.len());
    assert_eq!(out, align(&lines, &ids, &records));
    for line in &out {
        assert_eq!(line.iter().filter(|b| **b == b'\t').count(), 1 + 10);
    }
}

#[test]
fn output_keeps_the_input_order() {
    let abundance = b"contig\ts1\ncontigB\t1\ncontigA\t2\nnobody\t3\ncontigB\t4\n";
    let lines = split_lines(abundance);
    let out = populate(abundance, &completeness(), &tables());
    assert_eq!(out.len(), lines.len());
    for (line, joined) in lines.iter().zip(out.iter()) {
        assert!(joined.starts_with(line));
        assert_eq!(joined[line.len()], b'\t');
    }
    assert_eq!(
        strings(&out)[3],
        "nobody\t3\t\t\t\t\t\t\t\t\t\t"
    );
}

#[test]
fn populate_twice_gives_the_same_bytes() {
    let abundance = b"contig\ts1\ncontigB\t1\ncontigA\t2\nnobody\t3\n";
    let first = populate(abundance, &completeness(), &tables());
    let second = populate(abundance, &completeness(), &tables());
    assert_eq!(first, second);
}

#[test]
fn empty_abundance_table_gives_no_output() {
    let out = populate(b"", &completeness(), &tables());
    assert!(out.is_empty());
    let none: Vec<Vec<u8>> = Vec::new();
    assert!(populate_rows(&none, &none, &tables()).is_empty());
}

#[test]
fn header_only_table_gets_the_column_names() {
    let out = strings(&populate(b"contig", b"", &tables()));
    assert_eq!(
        out,
        vec!["contig\tref_id\tncbi_name\tncbi_id\tvog_clade\thabitat\tsource\tphage_desc\tphage_class\tphage_host\tlineage"]
    );
}

#[test]
fn header_record_holds_the_field_names() {
    assert_eq!(
        fields_of(&header_record()),
        vec![
            "ncbi_name",
            "ncbi_id",
            "vog_clade",
            "habitat",
            "source",
            "phage_desc",
            "phage_class",
            "phage_host",
            "lineage"
        ]
    );
}

#[test]
fn emitted_line_has_the_fields_in_fixed_order() {
    let rec = AnnotationRecord {
        ncbi_name: b"1".to_vec(),
        ncbi_id: b"2".to_vec(),
        vog_clade: b"3".to_vec(),
        habitat: b"4".to_vec(),
        source: b"5".to_vec(),
        phage_desc: b"6".to_vec(),
        phage_class: b"7".to_vec(),
        phage_host: b"8".to_vec(),
        lineage: b"9".to_vec(),
    };
    assert_eq!(emit_line(b"line", b"id", &rec), b"line\tid\t1\t2\t3\t4\t5\t6\t7\t8\t9".to_vec());
    assert_eq!(
        emit_line(b"", b"", &AnnotationRecord::empty()),
        b"\t\t\t\t\t\t\t\t\t\t".to_vec()
    );
}

#[test]
fn rows_beyond_the_lists_get_blank_fields() {
    let lines = split_lines(b"head\nrow1\nrow2\nrow3\n");
    let ids = vec![b"id1".to_vec(), b"id2".to_vec()];
    let mut rec = AnnotationRecord::empty();
    rec.lineage = b"lin".to_vec();
    let out = strings(&align(&lines, &ids, &vec![rec]));
    assert_eq!(
        out,
        vec![
            "head\tref_id\tncbi_name\tncbi_id\tvog_clade\thabitat\tsource\tphage_desc\tphage_class\tphage_host\tlineage",
            "row1\tid1\t\t\t\t\t\t\t\t\tlin",
            "row2\tid2\t\t\t\t\t\t\t\t\t",
            "row3\t\t\t\t\t\t\t\t\t\t",
        ]
    );
}

#[test]
fn table_without_lines_has_no_subjects() {
    assert!(subjects(&Vec::new()).is_empty());
    assert!(subjects(&split_lines(b"header only\n")).is_empty());
}
