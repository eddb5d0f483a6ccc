//! The witness file: one fixed-width value per wire, in wire order.

use vstd::prelude::*;
use crate::codec::{encode, fits_width, padded, FieldBytes, FIELD_SIZE};
use crate::model::{ConstraintModel, Dimensions, ExportError};
use wtns_file as wf;

verus! {

/// The values of the wires in wire order: public ones (the constant first),
/// then private ones.
pub open spec fn assignment(m: &ConstraintModel) -> Seq<Vec<u8>> {
    m.instance@ + m.witness@
}

/// Whether every value of a sequence fits the width.
pub open spec fn all_fit(vs: Seq<Vec<u8>>) -> bool {
    forall|k: int| 0 <= k < vs.len() ==> fits_width(#[trigger] vs[k]@)
}

/// Each value of a sequence padded to the width.
pub open spec fn padded_all(vs: Seq<Vec<u8>>) -> Seq<Seq<u8>> {
    Seq::new(vs.len(), |k: int| padded(vs[k]@))
}

/// The witness vector of a model.
pub open spec fn witness_vector(m: &ConstraintModel) -> Seq<Seq<u8>> {
    padded_all(assignment(m))
}

/// What building the witness vector gives: it must have exactly one value
/// per wire of `d`, and every value must fit the width.
pub open spec fn witness_vector_result(m: &ConstraintModel, d: Dimensions) -> Result<Seq<Seq<u8>>, ExportError> {
    if d.n_wires as int != assignment(m).len() {
        Err(ExportError::WireCountMismatch)
    } else if !all_fit(assignment(m)) {
        Err(ExportError::Encoding)
    } else {
        Ok(witness_vector(m))
    }
}

/// What a list of fixed-width values holds.
pub open spec fn bytes_seq(v: Seq<FieldBytes>) -> Seq<Seq<u8>> {
    v.map_values(|b: FieldBytes| b@)
}

/// Appends each of `values`, encoded, to `out`; `false` as soon as one does
/// not fit, `out` then holding some prefix of them.
fn append_encoded(out: &mut Vec<FieldBytes>, values: &Vec<Vec<u8>>) -> (r: bool)
    ensures
        r == all_fit(values@),
        r ==> bytes_seq(final(out)@) == bytes_seq(old(out)@) + padded_all(values@),
{
    let ghost start = bytes_seq(out@);
    let mut k: usize = 0;
    while k < values.len()
        invariant
            0 <= k <= values@.len(),
            all_fit(values@.subrange(0, k as int)),
            bytes_seq(out@) == start + padded_all(values@.subrange(0, k as int)),
        decreases values@.len() - k,
    {
        match encode(&values[k]) {
            Some(b) => {
                proof {
                    assert(padded_all(values@.subrange(0, k + 1)) =~= padded_all(values@.subrange(0, k as int)).push(b@));
                }
                let ghost before = out@;
                out.push(b);
                assert(bytes_seq(out@) =~= bytes_seq(before).push(b@));
                assert(bytes_seq(out@) =~= start + padded_all(values@.subrange(0, k + 1)));
                assert(all_fit(values@.subrange(0, k + 1))) by {
                    assert forall|j: int| 0 <= j < k + 1 implies fits_width(#[trigger] values@.subrange(0, k + 1)[j]@) by {
                        if j < k {
                            assert(values@.subrange(0, k as int)[j] == values@.subrange(0, k + 1)[j]);
                        }
                    }
                }
            },
            None => {
                return false;
            },
        }
        k = k + 1;
    }
    assert(values@.subrange(0, k as int) =~= values@);
    true
}

/// Builds the witness vector: the public values, the constant first, then
/// the private values, each at the fixed width. Fails if that is not one
/// value per wire of `dims`.
pub fn build_witness(model: &ConstraintModel, dims: &Dimensions) -> (r: Result<Vec<FieldBytes>, ExportError>)
    ensures
        match r {
            Ok(w) => witness_vector_result(model, *dims) == Ok::<Seq<Seq<u8>>, ExportError>(bytes_seq(w@)),
            Err(e) => witness_vector_result(model, *dims) == Err::<Seq<Seq<u8>>, ExportError>(e),
        },
{
    let n_public = model.instance.len();
    if n_public > dims.n_wires as usize || model.witness.len() != dims.n_wires as usize - n_public {
        return Err(ExportError::WireCountMismatch);
    }
    let mut out: Vec<FieldBytes> = Vec::new();
    assert(bytes_seq(out@) =~= Seq::<Seq<u8>>::empty());
    let public_ok = append_encoded(&mut out, &model.instance);
    if !public_ok {
        assert(!all_fit(assignment(model))) by {
            let k = choose|k: int| 0 <= k < model.instance@.len() && !fits_width(#[trigger] model.instance@[k]@);
            assert(assignment(model)[k] == model.instance@[k]);
        }
        return Err(ExportError::Encoding);
    }
    let private_ok = append_encoded(&mut out, &model.witness);
    if !private_ok {
        assert(!all_fit(assignment(model))) by {
            let k = choose|k: int| 0 <= k < model.witness@.len() && !fits_width(#[trigger] model.witness@[k]@);
            assert(assignment(model)[n_public + k] == model.witness@[k]);
        }
        return Err(ExportError::Encoding);
    }
    assert(bytes_seq(out@) =~= witness_vector(model));
    assert(all_fit(assignment(model))) by {
        assert forall|k: int| 0 <= k < assignment(model).len() implies fits_width(#[trigger] assignment(model)[k]@) by {
            if k >= n_public {
                assert(assignment(model)[k] == model.witness@[k - n_public]);
            }
        }
    }
    Ok(out)
}

/// The bytes of the witness file for this modulus and these values.
pub uninterp spec fn wtns_image(prime: Seq<u8>, witness: Seq<Seq<u8>>) -> Seq<u8>;

/// Relies on `wtns_file::WtnsFile::from_vec` and `write`, writing into a
/// `Vec<u8>`, which does not fail. The file records the vector's length as
/// 32 bits.
#[verifier::external_body]
fn write_wtns(prime: &FieldBytes, witness: &Vec<FieldBytes>) -> (r: Vec<u8>)
    requires
        witness@.len() <= u32::MAX,
    ensures
        r@ == wtns_image(prime@, bytes_seq(witness@)),
{
    let witness = witness.iter().map(|&b| b.into()).collect();
    let mut out = Vec::new();
    let _ = wf::WtnsFile::<FIELD_SIZE>::from_vec(witness, (*prime).into()).write(&mut out);
    out
}

/// What encoding the model's witness file gives.
pub open spec fn wtns_result(m: &ConstraintModel, d: Dimensions) -> Result<Seq<u8>, ExportError> {
    if !fits_width(m.prime@) {
        Err(ExportError::Encoding)
    } else {
        match witness_vector_result(m, d) {
            Err(e) => Err(e),
            Ok(w) => Ok(wtns_image(padded(m.prime@), w)),
        }
    }
}

/// Encodes the witness file: the modulus, then the witness vector.
pub fn encode_witness(model: &ConstraintModel, dims: &Dimensions) -> (r: Result<Vec<u8>, ExportError>)
    ensures
        crate::r1cs::result_bytes(r) == wtns_result(model, *dims),
{
    let prime = match encode(&model.prime) {
        Some(p) => p,
        None => return Err(ExportError::Encoding),
    };
    let witness = build_witness(model, dims)?;
    assert(bytes_seq(witness@).len() == witness@.len());
    Ok(write_wtns(&prime, &witness))
}

} // verus!
