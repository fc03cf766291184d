//! The fixed byte strings of the tables: identifier prefixes and column
//! headers. Each is given once as a sequence and once as a vector that holds
//! it.

use vstd::prelude::*;

verus! {

/// `DTR`: the identifier prefix of circular genomes.
pub open spec fn circular_prefix() -> Seq<u8> {
    seq![68u8, 84u8, 82u8]
}

/// The bytes of `DTR`.
pub fn circular_prefix_bytes() -> (out: Vec<u8>)
    ensures
        out@ == circular_prefix(),
{
    let out: Vec<u8> = vec![68u8, 84u8, 82u8];
    assert(out@ =~= circular_prefix());
    out
}

/// `GCA`: the identifier prefix of GenBank genomes.
pub open spec fn genbank_prefix() -> Seq<u8> {
    seq![71u8, 67u8, 65u8]
}

/// The bytes of `GCA`.
pub fn genbank_prefix_bytes() -> (out: Vec<u8>)
    ensures
        out@ == genbank_prefix(),
{
    let out: Vec<u8> = vec![71u8, 67u8, 65u8];
    assert(out@ =~= genbank_prefix());
    out
}

/// `LR`: the identifier prefix of lab-curated genomes, first form.
pub open spec fn curated_prefix_lr() -> Seq<u8> {
    seq![76u8, 82u8]
}

/// The bytes of `LR`.
pub fn curated_prefix_lr_bytes() -> (out: Vec<u8>)
    ensures
        out@ == curated_prefix_lr(),
{
    let out: Vec<u8> = vec![76u8, 82u8];
    assert(out@ =~= curated_prefix_lr());
    out
}

/// `NC`: the identifier prefix of lab-curated genomes, second form.
pub open spec fn curated_prefix_nc() -> Seq<u8> {
    seq![78u8, 67u8]
}

/// The bytes of `NC`.
pub fn curated_prefix_nc_bytes() -> (out: Vec<u8>)
    ensures
        out@ == curated_prefix_nc(),
{
    let out: Vec<u8> = vec![78u8, 67u8];
    assert(out@ =~= curated_prefix_nc());
    out
}

/// `ref_id`: the header of the column that holds the reference identifier.
pub open spec fn name_ref_id() -> Seq<u8> {
    seq![114u8, 101u8, 102u8, 95u8, 105u8, 100u8]
}

/// The bytes of `ref_id`.
pub fn name_ref_id_bytes() -> (out: Vec<u8>)
    ensures
        out@ == name_ref_id(),
{
    let out: Vec<u8> = vec![114u8, 101u8, 102u8, 95u8, 105u8, 100u8];
    assert(out@ =~= name_ref_id());
    out
}

/// `ncbi_name`: the header of the column that holds the taxon name.
pub open spec fn name_ncbi_name() -> Seq<u8> {
    seq![110u8, 99u8, 98u8, 105u8, 95u8, 110u8, 97u8, 109u8, 101u8]
}

/// The bytes of `ncbi_name`.
pub fn name_ncbi_name_bytes() -> (out: Vec<u8>)
    ensures
        out@ == name_ncbi_name(),
{
    let out: Vec<u8> = vec![110u8, 99u8, 98u8, 105u8, 95u8, 110u8, 97u8, 109u8, 101u8];
    assert(out@ =~= name_ncbi_name());
    out
}

/// `ncbi_id`: the header of the column that holds the taxon identifier.
pub open spec fn name_ncbi_id() -> Seq<u8> {
    seq![110u8, 99u8, 98u8, 105u8, 95u8, 105u8, 100u8]
}

/// The bytes of `ncbi_id`.
pub fn name_ncbi_id_bytes() -> (out: Vec<u8>)
    ensures
        out@ == name_ncbi_id(),
{
    let out: Vec<u8> = vec![110u8, 99u8, 98u8, 105u8, 95u8, 105u8, 100u8];
    assert(out@ =~= name_ncbi_id());
    out
}

/// `vog_clade`: the header of the column that holds the orthologous-group clade.
pub open spec fn name_vog_clade() -> Seq<u8> {
    seq![118u8, 111u8, 103u8, 95u8, 99u8, 108u8, 97u8, 100u8, 101u8]
}

/// The bytes of `vog_clade`.
pub fn name_vog_clade_bytes() -> (out: Vec<u8>)
    ensures
        out@ == name_vog_clade(),
{
    let out: Vec<u8> = vec![118u8, 111u8, 103u8, 95u8, 99u8, 108u8, 97u8, 100u8, 101u8];
    assert(out@ =~= name_vog_clade());
    out
}

/// `habitat`: the header of the column that holds the habitat.
pub open spec fn name_habitat() -> Seq<u8> {
    seq![104u8, 97u8, 98u8, 105u8, 116u8, 97u8, 116u8]
}

/// The bytes of `habitat`.
pub fn name_habitat_bytes() -> (out: Vec<u8>)
    ensures
        out@ == name_habitat(),
{
    let out: Vec<u8> = vec![104u8, 97u8, 98u8, 105u8, 116u8, 97u8, 116u8];
    assert(out@ =~= name_habitat());
    out
}

/// `source`: the header of the column that holds the source.
pub open spec fn name_source() -> Seq<u8> {
    seq![115u8, 111u8, 117u8, 114u8, 99u8, 101u8]
}

/// The bytes of `source`.
pub fn name_source_bytes() -> (out: Vec<u8>)
    ensures
        out@ == name_source(),
{
    let out: Vec<u8> = vec![115u8, 111u8, 117u8, 114u8, 99u8, 101u8];
    assert(out@ =~= name_source());
    out
}

/// `phage_desc`: the header of the column that holds the phage description.
pub open spec fn name_phage_desc() -> Seq<u8> {
    seq![112u8, 104u8, 97u8, 103u8, 101u8, 95u8, 100u8, 101u8, 115u8, 99u8]
}

/// The bytes of `phage_desc`.
pub fn name_phage_desc_bytes() -> (out: Vec<u8>)
    ensures
        out@ == name_phage_desc(),
{
    let out: Vec<u8> = vec![112u8, 104u8, 97u8, 103u8, 101u8, 95u8, 100u8, 101u8, 115u8, 99u8];
    assert(out@ =~= name_phage_desc());
    out
}

/// `phage_class`: the header of the column that holds the phage classification.
pub open spec fn name_phage_class() -> Seq<u8> {
    seq![112u8, 104u8, 97u8, 103u8, 101u8, 95u8, 99u8, 108u8, 97u8, 115u8, 115u8]
}

/// The bytes of `phage_class`.
pub fn name_phage_class_bytes() -> (out: Vec<u8>)
    ensures
        out@ == name_phage_class(),
{
    let out: Vec<u8> = vec![112u8, 104u8, 97u8, 103u8, 101u8, 95u8, 99u8, 108u8, 97u8, 115u8, 115u8];
    assert(out@ =~= name_phage_class());
    out
}

/// `phage_host`: the header of the column that holds the phage host.
pub open spec fn name_phage_host() -> Seq<u8> {
    seq![112u8, 104u8, 97u8, 103u8, 101u8, 95u8, 104u8, 111u8, 115u8, 116u8]
}

/// The bytes of `phage_host`.
pub fn name_phage_host_bytes() -> (out: Vec<u8>)
    ensures
        out@ == name_phage_host(),
{
    let out: Vec<u8> = vec![112u8, 104u8, 97u8, 103u8, 101u8, 95u8, 104u8, 111u8, 115u8, 116u8];
    assert(out@ =~= name_phage_host());
    out
}

/// `lineage`: the header of the column that holds the lineage.
pub open spec fn name_lineage() -> Seq<u8> {
    seq![108u8, 105u8, 110u8, 101u8, 97u8, 103u8, 101u8]
}

/// The bytes of `lineage`.
pub fn name_lineage_bytes() -> (out: Vec<u8>)
    ensures
        out@ == name_lineage(),
{
    let out: Vec<u8> = vec![108u8, 105u8, 110u8, 101u8, 97u8, 103u8, 101u8];
    assert(out@ =~= name_lineage());
    out
}

/// `contig_id`: the header of the column that holds the query sequence.
pub open spec fn name_contig_id() -> Seq<u8> {
    seq![99u8, 111u8, 110u8, 116u8, 105u8, 103u8, 95u8, 105u8, 100u8]
}

/// The bytes of `contig_id`.
pub fn name_contig_id_bytes() -> (out: Vec<u8>)
    ensures
        out@ == name_contig_id(),
{
    let out: Vec<u8> = vec![99u8, 111u8, 110u8, 116u8, 105u8, 103u8, 95u8, 105u8, 100u8];
    assert(out@ =~= name_contig_id());
    out
}

/// `phage_id`: the header of the column that holds the closest reference genome.
pub open spec fn name_phage_id() -> Seq<u8> {
    seq![112u8, 104u8, 97u8, 103u8, 101u8, 95u8, 105u8, 100u8]
}

/// The bytes of `phage_id`.
pub fn name_phage_id_bytes() -> (out: Vec<u8>)
    ensures
        out@ == name_phage_id(),
{
    let out: Vec<u8> = vec![112u8, 104u8, 97u8, 103u8, 101u8, 95u8, 105u8, 100u8];
    assert(out@ =~= name_phage_id());
    out
}

/// `mash_distance`: the header of the column that holds the distance.
pub open spec fn name_mash_distance() -> Seq<u8> {
    seq![109u8, 97u8, 115u8, 104u8, 95u8, 100u8, 105u8, 115u8, 116u8, 97u8, 110u8, 99u8, 101u8]
}

/// The bytes of `mash_distance`.
pub fn name_mash_distance_bytes() -> (out: Vec<u8>)
    ensures
        out@ == name_mash_distance(),
{
    let out: Vec<u8> = vec![109u8, 97u8, 115u8, 104u8, 95u8, 100u8, 105u8, 115u8, 116u8, 97u8, 110u8, 99u8, 101u8];
    assert(out@ =~= name_mash_distance());
    out
}

/// `mash_p`: the header of the column that holds the p-value.
pub open spec fn name_mash_p() -> Seq<u8> {
    seq![109u8, 97u8, 115u8, 104u8, 95u8, 112u8]
}

/// The bytes of `mash_p`.
pub fn name_mash_p_bytes() -> (out: Vec<u8>)
    ensures
        out@ == name_mash_p(),
{
    let out: Vec<u8> = vec![109u8, 97u8, 115u8, 104u8, 95u8, 112u8];
    assert(out@ =~= name_mash_p());
    out
}

/// `host`: the header of the column that holds the host.
pub open spec fn name_host() -> Seq<u8> {
    seq![104u8, 111u8, 115u8, 116u8]
}

/// The bytes of `host`.
pub fn name_host_bytes() -> (out: Vec<u8>)
    ensures
        out@ == name_host(),
{
    let out: Vec<u8> = vec![104u8, 111u8, 115u8, 116u8];
    assert(out@ =~= name_host());
    out
}

} // verus!
