//! Record linkage for sequence-assembly tables.
//!
//! Two joins are offered. The first appends, to every row of an abundance
//! table, the reference genome that a completeness table links it to and the
//! annotation that the matching source table holds for that genome. The second
//! keeps, for every query sequence of a distance listing, its closest
//! reference genome and looks up that genome's host.
//!
//! All text is handled as bytes; a table is the sequence of its lines.

pub mod annotation;
pub mod hits;
pub mod host;
pub mod link;
pub mod names;
pub mod populate;
pub mod text;
