use phage_annotate::link::{find_first, find_last, is_eligible};
use phage_annotate::names::{
    circular_prefix_bytes, curated_prefix_lr_bytes, curated_prefix_nc_bytes,
    genbank_prefix_bytes, name_contig_id_bytes, name_habitat_bytes, name_host_bytes,
    name_lineage_bytes, name_mash_distance_bytes, name_mash_p_bytes, name_ncbi_id_bytes,
    name_ncbi_name_bytes, name_phage_class_bytes, name_phage_desc_bytes, name_phage_host_bytes,
    name_phage_id_bytes, name_ref_id_bytes, name_source_bytes, name_vog_clade_bytes,
};
use phage_annotate::text::{
    copy_bytes, copy_range, find, has_prefix, matches_at, push_cell, same_bytes, split,
    split_fields, split_lines,
};

fn bytes(items: &[&str]) -> Vec<Vec<u8>> {
    items.iter().map(|s| s.as_bytes().to_vec()).collect()
}

#[test]
fn lines_end_at_line_feeds() {
    assert_eq!(split_lines(b"a\nb\n"), bytes(&["a", "b"]));
    assert_eq!(split_lines(b"a\nb"), bytes(&["a", "b"]));
    assert_eq!(split_lines(b""), bytes(&[]));
    assert_eq!(split_lines(b"\n"), bytes(&[""]));
    assert_eq!(split_lines(b"a\n\nb\n\n"), bytes(&["a", "", "b", ""]));
}

#[test]
fn carriage_return_before_line_feed_is_dropped() {
    assert_eq!(split_lines(b"a\r\nb\r\n"), bytes(&["a", "b"]));
    assert_eq!(split_lines(b"a\r\r\nb"), bytes(&["a\r", "b"]));
    assert_eq!(split_lines(b"a\rb\n"), bytes(&["a\rb"]));
    assert_eq!(split_lines(b"a\nb\r"), bytes(&["a", "b\r"]));
    assert_eq!(split_lines(b"\r\n"), bytes(&[""]));
}

#[test]
fn lines_agree_with_the_standard_library() {
    for text in ["", "x", "x\n", "x\r\n", "\n\n", "a\tb\nc\td\r\n\r\ne", "\r", "a\r\n\rb\n\r"] {
        let want: Vec<Vec<u8>> = text.lines().map(|l| l.as_bytes().to_vec()).collect();
        assert_eq!(split_lines(text.as_bytes()), want);
    }
}

#[test]
fn fields_are_split_at_tabs() {
    assert_eq!(split_fields(b"a\tb\tc"), bytes(&["a", "b", "c"]));
    assert_eq!(split_fields(b""), bytes(&[""]));
    assert_eq!(split_fields(b"\t"), bytes(&["", ""]));
    assert_eq!(split_fields(b"a\t\tb\t"), bytes(&["a", "", "b", ""]));
    assert_eq!(split(b"a,b", b','), bytes(&["a", "b"]));
}

#[test]
fn fields_agree_with_the_standard_library() {
    for text in ["", "x", "\t", "a\tb", "\ta\t\tb\t\t"] {
        let want: Vec<Vec<u8>> = text.split('\t').map(|l| l.as_bytes().to_vec()).collect();
        assert_eq!(split_fields(text.as_bytes()), want);
    }
}

#[test]
fn joining_the_fields_gives_the_line_back() {
    for text in ["", "x", "\t", "a\tb", "\ta\t\tb\t\t"] {
        let fields = split_fields(text.as_bytes());
        let mut line = fields[0].clone();
        for cell in &fields[1..] {
            push_cell(&mut line, cell);
        }
        assert_eq!(line, text.as_bytes().to_vec());
    }
}

#[test]
fn substring_search() {
    assert!(find(b"hello world", b"lo w"));
    assert!(find(b"hello", b"hello"));
    assert!(find(b"hello", b""));
    assert!(find(b"", b""));
    assert!(find(b"aab", b"ab"));
    assert!(!find(b"hello", b"hello!"));
    assert!(!find(b"hello", b"world"));
    assert!(!find(b"", b"a"));
    assert!(find(b"xyz", b"z"));
    assert!(matches_at(b"hello", b"ll", 2));
    assert!(!matches_at(b"hello", b"ll", 1));
    assert!(matches_at(b"hello", b"", 5));
}

#[test]
fn prefixes_and_equality() {
    assert!(has_prefix(b"DTR_1", b"DTR"));
    assert!(has_prefix(b"DTR", b"DTR"));
    assert!(has_prefix(b"DTR", b""));
    assert!(!has_prefix(b"DT", b"DTR"));
    assert!(!has_prefix(b"xDTR", b"DTR"));
    assert!(same_bytes(b"abc", b"abc"));
    assert!(same_bytes(b"", b""));
    assert!(!same_bytes(b"abc", b"abd"));
    assert!(!same_bytes(b"abc", b"ab"));
    assert!(!same_bytes(b"ab", b"abc"));
}

#[test]
fn copies() {
    assert_eq!(copy_bytes(b"abc"), b"abc".to_vec());
    assert_eq!(copy_range(b"abcdef", 2, 4), b"cd".to_vec());
    assert_eq!(copy_range(b"abcdef", 3, 3), b"".to_vec());
    let mut line = b"a".to_vec();
    push_cell(&mut line, b"bc");
    push_cell(&mut line, b"");
    assert_eq!(line, b"a\tbc\t".to_vec());
}

#[test]
fn first_and_last_eligible_rows() {
    let rows = bytes(&["key", "key\tx", "other\ty", "akeyb\tz", "key"]);
    assert_eq!(find_first(&rows, b"key", 0), Some(0));
    assert_eq!(find_first(&rows, b"key", 2), Some(1));
    assert_eq!(find_first(&rows, b"key", 3), None);
    assert_eq!(find_first(&rows, b"other", 1), Some(2));
    assert_eq!(find_first(&rows, b"nothing", 0), None);
    assert_eq!(find_last(&rows, b"key", 0), Some(4));
    assert_eq!(find_last(&rows, b"key", 2), Some(3));
    assert_eq!(find_last(&rows, b"key", 3), None);
    assert_eq!(find_last(&bytes(&[]), b"key", 0), None);
    assert!(is_eligible(b"a\tkey\tb", b"key", 3));
    assert!(!is_eligible(b"a\tkey\tb", b"key", 4));
    assert!(!is_eligible(b"a\tb\tc", b"key", 1));
}

#[test]
fn names_are_the_column_headers() {
    assert_eq!(name_ref_id_bytes(), b"ref_id".to_vec());
    assert_eq!(name_ncbi_name_bytes(), b"ncbi_name".to_vec());
    assert_eq!(name_ncbi_id_bytes(), b"ncbi_id".to_vec());
    assert_eq!(name_vog_clade_bytes(), b"vog_clade".to_vec());
    assert_eq!(name_habitat_bytes(), b"habitat".to_vec());
    assert_eq!(name_source_bytes(), b"source".to_vec());
    assert_eq!(name_phage_desc_bytes(), b"phage_desc".to_vec());
    assert_eq!(name_phage_class_bytes(), b"phage_class".to_vec());
    assert_eq!(name_phage_host_bytes(), b"phage_host".to_vec());
    assert_eq!(name_lineage_bytes(), b"lineage".to_vec());
    assert_eq!(name_contig_id_bytes(), b"contig_id".to_vec());
    assert_eq!(name_phage_id_bytes(), b"phage_id".to_vec());
    assert_eq!(name_mash_distance_bytes(), b"mash_distance".to_vec());
    assert_eq!(name_mash_p_bytes(), b"mash_p".to_vec());
    assert_eq!(name_host_bytes(), b"host".to_vec());
    assert_eq!(circular_prefix_bytes(), b"DTR".to_vec());
    assert_eq!(genbank_prefix_bytes(), b"GCA".to_vec());
    assert_eq!(curated_prefix_lr_bytes(), b"LR".to_vec());
    assert_eq!(curated_prefix_nc_bytes(), b"NC".to_vec());
}
