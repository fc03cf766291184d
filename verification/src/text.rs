//! Byte-level text primitives: substring search, splitting into lines and
//! into tab-separated fields, and building tab-separated lines.

use vstd::prelude::*;

verus! {

/// The field separator.
pub const TAB: u8 = 9;

/// The line terminator.
pub const LINE_FEED: u8 = 10;

/// Dropped when it stands directly before a line terminator.
pub const CARRIAGE_RETURN: u8 = 13;

/// `needle` stands in `hay` at offset `at`.
pub open spec fn occurs_at(hay: Seq<u8>, needle: Seq<u8>, at: int) -> bool {
    &&& 0 <= at
    &&& at + needle.len() <= hay.len()
    &&& hay.subrange(at, at + needle.len()) == needle
}

/// `needle` is a contiguous part of `hay`.
pub open spec fn contains(hay: Seq<u8>, needle: Seq<u8>) -> bool {
    exists|at: int| occurs_at(hay, needle, at)
}

/// `text` begins with `prefix`.
pub open spec fn starts_with(text: Seq<u8>, prefix: Seq<u8>) -> bool {
    occurs_at(text, prefix, 0)
}

/// The pieces of `text` between occurrences of `sep`. There is always one
/// piece more than there are separators, so the result is never empty.
pub open spec fn split_on(text: Seq<u8>, sep: u8) -> Seq<Seq<u8>>
    decreases text.len(),
{
    if text.len() == 0 {
        seq![Seq::<u8>::empty()]
    } else {
        let before = split_on(text.drop_last(), sep);
        if text.last() == sep {
            before.push(Seq::<u8>::empty())
        } else {
            before.drop_last().push(before.last().push(text.last()))
        }
    }
}

/// The tab-separated fields of a line.
pub open spec fn fields_of(line: Seq<u8>) -> Seq<Seq<u8>> {
    split_on(line, TAB)
}

/// `piece` without one trailing carriage return.
pub open spec fn strip_cr(piece: Seq<u8>) -> Seq<u8> {
    if piece.len() > 0 && piece.last() == CARRIAGE_RETURN {
        piece.drop_last()
    } else {
        piece
    }
}

/// The lines of a text. Every line feed ends a line; a carriage return
/// directly before it belongs to the line ending. What follows the last line
/// feed is a line of its own unless it is empty.
pub open spec fn lines_of(text: Seq<u8>) -> Seq<Seq<u8>> {
    let pieces = split_on(text, LINE_FEED);
    let ended = pieces.drop_last().map_values(|p: Seq<u8>| strip_cr(p));
    if pieces.last().len() == 0 {
        ended
    } else {
        ended.push(pieces.last())
    }
}

/// The byte sequences that a vector of byte vectors holds.
pub open spec fn rows_of(rows: Seq<Vec<u8>>) -> Seq<Seq<u8>> {
    rows.map_values(|r: Vec<u8>| r@)
}

/// `line` followed by a tab and `cell`.
pub open spec fn with_cell(line: Seq<u8>, cell: Seq<u8>) -> Seq<u8> {
    line.push(TAB) + cell
}

/// The fields joined into one line, with a tab between neighbours.
pub open spec fn joined(fields: Seq<Seq<u8>>) -> Seq<u8>
    decreases fields.len(),
{
    if fields.len() == 0 {
        Seq::empty()
    } else if fields.len() == 1 {
        fields[0]
    } else {
        with_cell(joined(fields.drop_last()), fields.last())
    }
}

/// A split has one piece more than the text has separators: at least one.
pub proof fn split_on_nonempty(text: Seq<u8>, sep: u8)
    ensures
        split_on(text, sep).len() >= 1,
    decreases text.len(),
{
    if text.len() > 0 {
        split_on_nonempty(text.drop_last(), sep);
    }
}

/// No piece of a split holds the separator.
pub proof fn split_on_pieces_clean(text: Seq<u8>, sep: u8, k: int)
    requires
        0 <= k < split_on(text, sep).len(),
    ensures
        !split_on(text, sep)[k].contains(sep),
    decreases text.len(),
{
    if text.len() > 0 {
        let before = split_on(text.drop_last(), sep);
        split_on_nonempty(text.drop_last(), sep);
        if text.last() == sep {
            if k < before.len() {
                split_on_pieces_clean(text.drop_last(), sep, k);
            }
        } else {
            if k < before.len() - 1 {
                split_on_pieces_clean(text.drop_last(), sep, k);
            } else {
                split_on_pieces_clean(text.drop_last(), sep, before.len() - 1);
                let piece = before.last().push(text.last());
                assert forall|j: int| 0 <= j < piece.len() implies piece[j] != sep by {
                    if j < before.last().len() {
                        assert(before.last().contains(before.last()[j]));
                    }
                }
            }
        }
    }
}

/// Joining the fields of a line gives the line back.
pub proof fn fields_rejoin(line: Seq<u8>)
    ensures
        joined(fields_of(line)) == line,
    decreases line.len(),
{
    if line.len() == 0 {
        assert(fields_of(line)[0] =~= line);
    } else {
        let before = fields_of(line.drop_last());
        let b = line.last();
        split_on_nonempty(line.drop_last(), TAB);
        fields_rejoin(line.drop_last());
        assert(line =~= line.drop_last().push(b));
        if b == TAB {
            let fields = before.push(Seq::<u8>::empty());
            assert(fields.drop_last() =~= before);
            assert(joined(fields) =~= joined(before).push(TAB));
        } else {
            let fields = before.drop_last().push(before.last().push(b));
            if before.len() == 1 {
                assert(joined(fields) == before[0].push(b));
            } else {
                assert(fields.drop_last() =~= before.drop_last());
                assert(joined(fields) =~= joined(before).push(b));
            }
        }
    }
}

/// A copy of `src[from..to]`.
pub fn copy_range(src: &[u8], from: usize, to: usize) -> (out: Vec<u8>)
    requires
        from <= to <= src@.len(),
    ensures
        out@ == src@.subrange(from as int, to as int),
{
    let mut out: Vec<u8> = Vec::new();
    let mut i: usize = from;
    while i < to
        invariant
            from <= i <= to <= src@.len(),
            out@ == src@.subrange(from as int, i as int),
        decreases to - i,
    {
        out.push(src[i]);
        i += 1;
        assert(out@ =~= src@.subrange(from as int, i as int));
    }
    out
}

/// A copy of `src`.
pub fn copy_bytes(src: &[u8]) -> (out: Vec<u8>)
    ensures
        out@ == src@,
{
    let out = copy_range(src, 0, src.len());
    assert(src@.subrange(0, src@.len() as int) =~= src@);
    out
}

/// Whether two byte strings are the same.
pub fn same_bytes(a: &[u8], b: &[u8]) -> (same: bool)
    ensures
        same == (a@ == b@),
{
    if a.len() != b.len() {
        return false;
    }
    let same = matches_at(a, b, 0);
    assert(a@.subrange(0, a@.len() as int) =~= a@);
    same
}

/// Whether `needle` stands in `hay` at offset `at`.
pub fn matches_at(hay: &[u8], needle: &[u8], at: usize) -> (found: bool)
    requires
        at + needle@.len() <= hay@.len(),
    ensures
        found == occurs_at(hay@, needle@, at as int),
{
    let size: usize = hay.len();
    let mut k: usize = 0;
    while k < needle.len()
        invariant
            k <= needle@.len(),
            size == hay@.len(),
            at + needle@.len() <= hay@.len(),
            forall|j: int| 0 <= j < k ==> hay@[at + j] == needle@[j],
        decreases needle@.len() - k,
    {
        if hay[at + k] != needle[k] {
            assert(hay@.subrange(at as int, at + needle@.len())[k as int] != needle@[k as int]);
            return false;
        }
        k += 1;
    }
    assert(hay@.subrange(at as int, at + needle@.len()) =~= needle@);
    true
}

/// Whether `needle` is a contiguous part of `hay`.
pub fn find(hay: &[u8], needle: &[u8]) -> (found: bool)
    ensures
        found == contains(hay@, needle@),
{
    if needle.len() > hay.len() {
        return false;
    }
    let last: usize = hay.len() - needle.len();
    let mut at: usize = 0;
    while at < last
        invariant
            at <= last,
            last == hay@.len() - needle@.len(),
            forall|a: int| 0 <= a < at ==> !occurs_at(hay@, needle@, a),
        decreases last - at,
    {
        if matches_at(hay, needle, at) {
            return true;
        }
        at += 1;
    }
    matches_at(hay, needle, last)
}

/// Whether `text` begins with `prefix`.
pub fn has_prefix(text: &[u8], prefix: &[u8]) -> (found: bool)
    ensures
        found == starts_with(text@, prefix@),
{
    prefix.len() <= text.len() && matches_at(text, prefix, 0)
}

/// Splits `text` at every occurrence of `sep`.
pub fn split(text: &[u8], sep: u8) -> (parts: Vec<Vec<u8>>)
    ensures
        rows_of(parts@) == split_on(text@, sep),
        parts@.len() >= 1,
        forall|k: int| 0 <= k < parts@.len() ==> !(#[trigger] parts@[k])@.contains(sep),
{
    let mut parts: Vec<Vec<u8>> = Vec::new();
    let mut cur: Vec<u8> = Vec::new();
    let mut i: usize = 0;
    assert(text@.take(0).len() == 0);
    assert(rows_of(parts@).push(cur@) =~= seq![Seq::<u8>::empty()]);
    while i < text.len()
        invariant
            i <= text@.len(),
            rows_of(parts@).push(cur@) == split_on(text@.take(i as int), sep),
        decreases text@.len() - i,
    {
        let ghost before = split_on(text@.take(i as int), sep);
        let ghost old_rows = rows_of(parts@);
        let ghost old_cur = cur@;
        let b: u8 = text[i];
        proof {
            let next = text@.take(i + 1);
            assert(next.drop_last() =~= text@.take(i as int));
            assert(next.last() == b);
        }
        if b == sep {
            parts.push(cur);
            cur = Vec::new();
            assert(rows_of(parts@) =~= old_rows.push(old_cur));
        } else {
            cur.push(b);
            assert(before.drop_last() =~= old_rows);
            assert(before.last() == old_cur);
        }
        i += 1;
    }
    assert(text@.take(i as int) =~= text@);
    let ghost rows = rows_of(parts@);
    let ghost tail = cur@;
    parts.push(cur);
    assert(rows_of(parts@) =~= rows.push(tail));
    assert forall|k: int| 0 <= k < parts@.len() implies !(#[trigger] parts@[k])@.contains(sep) by {
        split_on_pieces_clean(text@, sep, k);
        assert(rows_of(parts@)[k] == parts@[k]@);
    }
    parts
}

/// Splits a line into its tab-separated fields.
pub fn split_fields(line: &[u8]) -> (fields: Vec<Vec<u8>>)
    ensures
        rows_of(fields@) == fields_of(line@),
        fields@.len() >= 1,
        forall|k: int| 0 <= k < fields@.len() ==> !(#[trigger] fields@[k])@.contains(TAB),
{
    split(line, TAB)
}

/// Splits a text into its lines.
pub fn split_lines(text: &[u8]) -> (lines: Vec<Vec<u8>>)
    ensures
        rows_of(lines@) == lines_of(text@),
{
    let pieces = split(text, LINE_FEED);
    let n: usize = pieces.len() - 1;
    let mut lines: Vec<Vec<u8>> = Vec::new();
    let mut i: usize = 0;
    let ghost ended = rows_of(pieces@).drop_last().map_values(|p: Seq<u8>| strip_cr(p));
    while i < n
        invariant
            i <= n,
            n == pieces@.len() - 1,
            ended == rows_of(pieces@).drop_last().map_values(|p: Seq<u8>| strip_cr(p)),
            rows_of(lines@) == ended.take(i as int),
        decreases n - i,
    {
        let piece = pieces[i].as_slice();
        let len: usize = piece.len();
        let line = if len > 0 && piece[len - 1] == CARRIAGE_RETURN {
            copy_range(piece, 0, len - 1)
        } else {
            copy_bytes(piece)
        };
        assert(rows_of(pieces@).drop_last()[i as int] == piece@);
        assert(ended[i as int] == line@);
        let ghost rows = rows_of(lines@);
        lines.push(line);
        assert(rows_of(lines@) =~= rows.push(ended[i as int]));
        i += 1;
        assert(rows_of(lines@) =~= ended.take(i as int));
    }
    assert(ended.take(n as int) =~= ended);
    let tail = pieces[n].as_slice();
    if tail.len() > 0 {
        let ghost rows = rows_of(lines@);
        lines.push(copy_bytes(tail));
        assert(rows_of(lines@) =~= rows.push(tail@));
    }
    lines
}

/// Appends a tab and `cell` to `line`.
pub fn push_cell(line: &mut Vec<u8>, cell: &[u8])
    ensures
        final(line)@ == with_cell(old(line)@, cell@),
{
    line.push(TAB);
    let mut i: usize = 0;
    while i < cell.len()
        invariant
            i <= cell@.len(),
            line@ == old(line)@.push(TAB) + cell@.take(i as int),
        decreases cell@.len() - i,
    {
        line.push(cell[i]);
        i += 1;
        assert(line@ =~= old(line)@.push(TAB) + cell@.take(i as int));
    }
    assert(cell@.take(i as int) =~= cell@);
}

} // verus!
