//! The export of a model into its two files, and the laws that hold of it.

use vstd::prelude::*;
use crate::codec::{fits_width, le_value, lemma_round_trip, padded, FIELD_SIZE};
use crate::model::{counts_fit, dims_spec, resolve_dimensions, ConstraintModel, Dimensions, ExportError};
use crate::r1cs::{
    constraints_fit, encode_r1cs, encoded_constraints, encoded_row, header_spec, r1cs_image, r1cs_result,
    result_bytes, row_fits, HeaderView,
};
use crate::witness::{
    all_fit, assignment, encode_witness, witness_vector, witness_vector_result, wtns_image, wtns_result,
};

verus! {

/// The two encoded files of one export.
pub struct ExportedFiles {
    /// The constraint-system file.
    pub r1cs: Vec<u8>,
    /// The witness file.
    pub wtns: Vec<u8>,
}

/// What exporting a model gives: its counts are resolved once, then both
/// files are encoded with them.
pub open spec fn export_result(m: &ConstraintModel) -> Result<(Seq<u8>, Seq<u8>), ExportError> {
    if !counts_fit(m) {
        Err(ExportError::Encoding)
    } else {
        match r1cs_result(m, dims_spec(m)) {
            Err(e) => Err(e),
            Ok(r) => match wtns_result(m, dims_spec(m)) {
                Err(e) => Err(e),
                Ok(w) => Ok((r, w)),
            },
        }
    }
}

/// What an export's result holds.
pub open spec fn export_view(r: Result<ExportedFiles, ExportError>) -> Result<(Seq<u8>, Seq<u8>), ExportError> {
    match r {
        Ok(f) => Ok((f.r1cs@, f.wtns@)),
        Err(e) => Err(e),
    }
}

/// Exports a model into the bytes of its constraint-system file and of its
/// witness file.
pub fn export(model: &ConstraintModel) -> (r: Result<ExportedFiles, ExportError>)
    requires
        model.wf(),
    ensures
        export_view(r) == export_result(model),
{
    let dims = resolve_dimensions(model)?;
    let r1cs = encode_r1cs(model, &dims);
    assert(result_bytes(r1cs) == r1cs_result(model, dims_spec(model)));
    let r1cs = r1cs?;
    let wtns = encode_witness(model, &dims)?;
    Ok(ExportedFiles { r1cs, wtns })
}

/// Whether every count, the modulus, every coefficient and every value of a
/// model fits its fixed-width field.
pub open spec fn export_fits(m: &ConstraintModel) -> bool {
    &&& counts_fit(m)
    &&& fits_width(m.prime@)
    &&& constraints_fit(m)
    &&& all_fit(assignment(m))
}

/// An export succeeds exactly when everything fits its field.
pub proof fn lemma_export_succeeds(m: &ConstraintModel)
    requires
        m.wf(),
    ensures
        export_result(m) is Ok <==> export_fits(m),
{
}

/// The constraint-system file of a successful export holds a header with the
/// model's constraint count, its public count (constant wire included), its
/// private count and their sum as wire count, no public outputs and one
/// label per wire; then the model's constraints in order; then an empty map.
pub proof fn lemma_header_counts(m: &ConstraintModel)
    requires
        m.wf(),
    ensures
        export_result(m) matches Ok(files) ==> {
            let h: HeaderView = header_spec(m.prime@, dims_spec(m));
            &&& files.0 == r1cs_image(h, encoded_constraints(m), Seq::empty())
            &&& h.n_constraints as int == m.a@.len()
            &&& h.n_pub_in as int == m.instance@.len()
            &&& h.n_prvt_in as int == m.witness@.len()
            &&& h.n_wires as int == m.instance@.len() + m.witness@.len()
            &&& h.n_pub_out == 0
            &&& h.n_labels as int == h.n_wires
            &&& h.prime == padded(m.prime@)
        },
{
}

/// The witness file of a successful export holds the same modulus as the
/// constraint-system header and exactly one value per wire of that header.
pub proof fn lemma_witness_length(m: &ConstraintModel)
    requires
        m.wf(),
    ensures
        export_result(m) matches Ok(files) ==> {
            let h: HeaderView = header_spec(m.prime@, dims_spec(m));
            &&& files.1 == wtns_image(h.prime, witness_vector(m))
            &&& witness_vector(m).len() == h.n_wires
        },
{
}

/// Whatever counts the encoders are given, a witness vector that is built
/// has exactly as many values as the header has wires.
pub proof fn lemma_witness_vector_length(m: &ConstraintModel, d: Dimensions)
    ensures
        witness_vector_result(m, d) matches Ok(w) ==> w.len() == header_spec(m.prime@, d).n_wires,
{
}

/// In a successful export every value written keeps its number: each witness
/// value decodes to the value it was made from, one below the modulus stays
/// below the written modulus, and the constant wire decodes to one.
pub proof fn lemma_values_kept(m: &ConstraintModel)
    requires
        m.wf(),
        export_result(m) is Ok,
    ensures
        witness_vector(m).len() == assignment(m).len(),
        forall|k: int| 0 <= k < assignment(m).len()
            ==> le_value(#[trigger] witness_vector(m)[k]) == le_value(assignment(m)[k]@),
        forall|k: int| 0 <= k < assignment(m).len() && le_value(assignment(m)[k]@) < le_value(m.prime@)
            ==> le_value(#[trigger] witness_vector(m)[k]) < le_value(padded(m.prime@)),
        le_value(witness_vector(m)[0]) == 1,
{
    lemma_round_trip(m.prime@);
    assert forall|k: int| 0 <= k < assignment(m).len()
        implies le_value(#[trigger] witness_vector(m)[k]) == le_value(assignment(m)[k]@) by {
        lemma_round_trip(assignment(m)[k]@);
    }
    assert(assignment(m)[0] == m.instance@[0]);
}

/// Every term of a source row stands in the written row at the same place,
/// with the same wire index and a coefficient of the same value (the very
/// same bytes when it is at full width).
pub proof fn lemma_row_terms_kept(row: Seq<(Vec<u8>, usize)>)
    requires
        row_fits(row),
    ensures
        encoded_row(row).len() == row.len(),
        forall|k: int| 0 <= k < row.len() ==> {
            &&& (#[trigger] encoded_row(row)[k]).1 as int == row[k].1
            &&& le_value(encoded_row(row)[k].0) == le_value(row[k].0@)
            &&& row[k].0@.len() == FIELD_SIZE ==> encoded_row(row)[k].0 == row[k].0@
        },
{
    assert forall|k: int| 0 <= k < row.len() implies {
        &&& (#[trigger] encoded_row(row)[k]).1 as int == row[k].1
        &&& le_value(encoded_row(row)[k].0) == le_value(row[k].0@)
        &&& row[k].0@.len() == FIELD_SIZE ==> encoded_row(row)[k].0 == row[k].0@
    } by {
        assert(fits_width(row[k].0@));
        lemma_round_trip(row[k].0@);
    }
}

/// Exporting the same model twice gives the same files, byte for byte.
pub proof fn lemma_export_deterministic(
    m: &ConstraintModel,
    first: Result<ExportedFiles, ExportError>,
    second: Result<ExportedFiles, ExportError>,
)
    requires
        m.wf(),
        export_view(first) == export_result(m),
        export_view(second) == export_result(m),
    ensures
        export_view(first) == export_view(second),
{
}

} // verus!
