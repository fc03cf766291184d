//! Linking a key to a row of a table.
//!
//! A row answers to a key when the key is a contiguous part of the row's text
//! and the row has at least as many fields as the caller will read. Rows with
//! fewer fields are passed over, so that no lookup ever reads a field that is
//! not there.

use vstd::prelude::*;
use crate::text::{contains, fields_of, find, rows_of, split_fields};

verus! {

/// `row` answers to `key` and has at least `width` fields.
pub open spec fn eligible(row: Seq<u8>, key: Seq<u8>, width: nat) -> bool {
    contains(row, key) && fields_of(row).len() >= width
}

/// The index of the first eligible row at or after `start`.
pub open spec fn first_match_from(rows: Seq<Seq<u8>>, key: Seq<u8>, width: nat, start: int)
    -> Option<int>
    decreases rows.len() - start,
{
    if start < 0 || start >= rows.len() {
        None
    } else if eligible(rows[start], key, width) {
        Some(start)
    } else {
        first_match_from(rows, key, width, start + 1)
    }
}

/// The index of the first eligible row.
pub open spec fn first_match(rows: Seq<Seq<u8>>, key: Seq<u8>, width: nat) -> Option<int> {
    first_match_from(rows, key, width, 0)
}

/// The index of the last eligible row before `end`.
pub open spec fn last_match_upto(rows: Seq<Seq<u8>>, key: Seq<u8>, width: nat, end: int)
    -> Option<int>
    decreases end,
{
    if end <= 0 || end > rows.len() {
        None
    } else if eligible(rows[end - 1], key, width) {
        Some(end - 1)
    } else {
        last_match_upto(rows, key, width, end - 1)
    }
}

/// The index of the last eligible row.
pub open spec fn last_match(rows: Seq<Seq<u8>>, key: Seq<u8>, width: nat) -> Option<int> {
    last_match_upto(rows, key, width, rows.len() as int)
}

/// What `first_match_from` finds is an eligible row at or after `start` with
/// no eligible row between `start` and it; it finds nothing only where no row
/// at or after `start` is eligible.
pub proof fn first_match_from_is_first(
    rows: Seq<Seq<u8>>,
    key: Seq<u8>,
    width: nat,
    start: int,
)
    requires
        0 <= start <= rows.len(),
    ensures
        match first_match_from(rows, key, width, start) {
            Some(i) => start <= i < rows.len() && eligible(rows[i], key, width) && forall|j: int|
                start <= j < i ==> !eligible(#[trigger] rows[j], key, width),
            None => forall|j: int|
                start <= j < rows.len() ==> !eligible(#[trigger] rows[j], key, width),
        },
    decreases rows.len() - start,
{
    if start < rows.len() && !eligible(rows[start], key, width) {
        first_match_from_is_first(rows, key, width, start + 1);
    }
}

/// The first match is an eligible row that no eligible row precedes; there is
/// none exactly when no row is eligible.
pub proof fn first_match_is_first(rows: Seq<Seq<u8>>, key: Seq<u8>, width: nat)
    ensures
        match first_match(rows, key, width) {
            Some(i) => 0 <= i < rows.len() && eligible(rows[i], key, width) && forall|j: int|
                0 <= j < i ==> !eligible(#[trigger] rows[j], key, width),
            None => forall|j: int|
                0 <= j < rows.len() ==> !eligible(#[trigger] rows[j], key, width),
        },
{
    first_match_from_is_first(rows, key, width, 0);
}

/// What `last_match_upto` finds is an eligible row before `end` with no
/// eligible row between it and `end`; it finds nothing only where no row
/// before `end` is eligible.
pub proof fn last_match_upto_is_last(rows: Seq<Seq<u8>>, key: Seq<u8>, width: nat, end: int)
    requires
        0 <= end <= rows.len(),
    ensures
        match last_match_upto(rows, key, width, end) {
            Some(i) => 0 <= i < end && eligible(rows[i], key, width) && forall|j: int|
                i < j < end ==> !eligible(#[trigger] rows[j], key, width),
            None => forall|j: int| 0 <= j < end ==> !eligible(#[trigger] rows[j], key, width),
        },
    decreases end,
{
    if end > 0 && !eligible(rows[end - 1], key, width) {
        last_match_upto_is_last(rows, key, width, end - 1);
    }
}

/// The last match is an eligible row that no eligible row follows; there is
/// none exactly when no row is eligible.
pub proof fn last_match_is_last(rows: Seq<Seq<u8>>, key: Seq<u8>, width: nat)
    ensures
        match last_match(rows, key, width) {
            Some(i) => 0 <= i < rows.len() && eligible(rows[i], key, width) && forall|j: int|
                i < j < rows.len() ==> !eligible(#[trigger] rows[j], key, width),
            None => forall|j: int|
                0 <= j < rows.len() ==> !eligible(#[trigger] rows[j], key, width),
        },
{
    last_match_upto_is_last(rows, key, width, rows.len() as int);
}

/// Whether `row` answers to `key` and has at least `width` fields.
pub fn is_eligible(row: &[u8], key: &[u8], width: usize) -> (yes: bool)
    ensures
        yes == eligible(row@, key@, width as nat),
{
    if !find(row, key) {
        return false;
    }
    let fields = split_fields(row);
    fields.len() >= width
}

/// The index of the first row that answers to `key` with at least `width`
/// fields.
pub fn find_first(rows: &Vec<Vec<u8>>, key: &[u8], width: usize) -> (found: Option<usize>)
    ensures
        match found {
            Some(i) => i < rows@.len() && first_match(rows_of(rows@), key@, width as nat) == Some(
                i as int,
            ),
            None => first_match(rows_of(rows@), key@, width as nat).is_none(),
        },
{
    let mut at: usize = 0;
    while at < rows.len()
        invariant
            at <= rows@.len(),
            first_match(rows_of(rows@), key@, width as nat) == first_match_from(
                rows_of(rows@),
                key@,
                width as nat,
                at as int,
            ),
        decreases rows@.len() - at,
    {
        if is_eligible(rows[at].as_slice(), key, width) {
            return Some(at);
        }
        at += 1;
    }
    None
}

/// The index of the last row that answers to `key` with at least `width`
/// fields.
pub fn find_last(rows: &Vec<Vec<u8>>, key: &[u8], width: usize) -> (found: Option<usize>)
    ensures
        match found {
            Some(i) => i < rows@.len() && last_match(rows_of(rows@), key@, width as nat) == Some(
                i as int,
            ),
            None => last_match(rows_of(rows@), key@, width as nat).is_none(),
        },
{
    let mut end: usize = rows.len();
    while end > 0
        invariant
            end <= rows@.len(),
            last_match(rows_of(rows@), key@, width as nat) == last_match_upto(
                rows_of(rows@),
                key@,
                width as nat,
                end as int,
            ),
        decreases end,
    {
        if is_eligible(rows[end - 1].as_slice(), key, width) {
            return Some(end - 1);
        }
        end -= 1;
    }
    None
}

} // verus!
