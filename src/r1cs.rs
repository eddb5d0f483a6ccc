//! The constraint-system file: its header and its constraint section.

use vstd::prelude::*;
use crate::codec::{encode, fits_width, padded, FieldBytes, FIELD_SIZE};
use crate::model::{ConstraintModel, Dimensions, ExportError, SparseRow};
use r1cs_file as rf;

verus! {

/// One term of a written row: coefficient at the fixed width, and wire index.
pub type Term = (FieldBytes, u32);

/// What a term stands for.
pub open spec fn term_view(t: Term) -> (Seq<u8>, u32) {
    (t.0@, t.1)
}

/// The three written rows (A, B, C) of one constraint.
pub struct R1csConstraint {
    pub a: Vec<Term>,
    pub b: Vec<Term>,
    pub c: Vec<Term>,
}

/// A constraint seen as its three term lists.
pub type ConstraintView = (Seq<(Seq<u8>, u32)>, Seq<(Seq<u8>, u32)>, Seq<(Seq<u8>, u32)>);

impl View for R1csConstraint {
    type V = ConstraintView;

    open spec fn view(&self) -> ConstraintView {
        (
            self.a@.map_values(|t: Term| term_view(t)),
            self.b@.map_values(|t: Term| term_view(t)),
            self.c@.map_values(|t: Term| term_view(t)),
        )
    }
}

/// The header of the constraint-system file.
#[derive(Debug, Clone, Copy, PartialEq, Eq)]
pub struct R1csHeader {
    pub prime: FieldBytes,
    pub n_wires: u32,
    pub n_pub_out: u32,
    pub n_pub_in: u32,
    pub n_prvt_in: u32,
    pub n_labels: u64,
    pub n_constraints: u32,
}

/// A header seen as plain values.
pub struct HeaderView {
    pub prime: Seq<u8>,
    pub n_wires: u32,
    pub n_pub_out: u32,
    pub n_pub_in: u32,
    pub n_prvt_in: u32,
    pub n_labels: u64,
    pub n_constraints: u32,
}

impl View for R1csHeader {
    type V = HeaderView;

    open spec fn view(&self) -> HeaderView {
        HeaderView {
            prime: self.prime@,
            n_wires: self.n_wires,
            n_pub_out: self.n_pub_out,
            n_pub_in: self.n_pub_in,
            n_prvt_in: self.n_prvt_in,
            n_labels: self.n_labels,
            n_constraints: self.n_constraints,
        }
    }
}

/// The header for a field of modulus `prime` and the counts `d`: no public
/// outputs, every public variable an input, one label per wire.
pub open spec fn header_spec(prime: Seq<u8>, d: Dimensions) -> HeaderView {
    HeaderView {
        prime: padded(prime),
        n_wires: d.n_wires,
        n_pub_out: 0,
        n_pub_in: d.n_public,
        n_prvt_in: d.n_private,
        n_labels: d.n_wires as u64,
        n_constraints: d.n_constraints,
    }
}

/// Whether every term of a row can be written: its coefficient fits the
/// width, its wire index and the row's length fit 32 bits.
pub open spec fn row_fits(row: Seq<(Vec<u8>, usize)>) -> bool {
    &&& row.len() <= u32::MAX
    &&& forall|k: int| 0 <= k < row.len() ==> fits_width(#[trigger] row[k].0@) && row[k].1 <= u32::MAX
}

/// A row as written: the same terms in the same order, each coefficient
/// padded to the width.
pub open spec fn encoded_row(row: Seq<(Vec<u8>, usize)>) -> Seq<(Seq<u8>, u32)> {
    Seq::new(row.len(), |k: int| (padded(row[k].0@), row[k].1 as u32))
}

/// Whether the three rows of constraint `i` can be written.
pub open spec fn constraint_fits(m: &ConstraintModel, i: int) -> bool {
    &&& row_fits(m.a@[i]@)
    &&& row_fits(m.b@[i]@)
    &&& row_fits(m.c@[i]@)
}

/// Whether every row of every constraint of the model can be written.
pub open spec fn constraints_fit(m: &ConstraintModel) -> bool {
    forall|i: int| 0 <= i < m.a@.len() ==> #[trigger] constraint_fits(m, i)
}

/// The model's constraints as written, in the model's order.
pub open spec fn encoded_constraints(m: &ConstraintModel) -> Seq<ConstraintView> {
    Seq::new(
        m.a@.len(),
        |i: int| (encoded_row(m.a@[i]@), encoded_row(m.b@[i]@), encoded_row(m.c@[i]@)),
    )
}

/// The bytes of the constraint-system file with this header, these
/// constraints and this wire-to-label map.
pub uninterp spec fn r1cs_image(header: HeaderView, constraints: Seq<ConstraintView>, map: Seq<u64>) -> Seq<u8>;

/// Relies on `r1cs_file::R1csFile::write`, writing into a `Vec<u8>`, which
/// does not fail: the file's bytes depend on its header, constraints and map.
#[verifier::external_body]
fn write_r1cs(header: &R1csHeader, constraints: &Vec<R1csConstraint>, map: &Vec<u64>) -> (r: Vec<u8>)
    ensures
        r@ == r1cs_image(header@, constraints@.map_values(|c: R1csConstraint| c@), map@),
{
    let R1csHeader { prime, n_wires, n_pub_out, n_pub_in, n_prvt_in, n_labels, n_constraints } = *header;
    let header = rf::Header { prime: prime.into(), n_wires, n_pub_out, n_pub_in, n_prvt_in, n_labels, n_constraints };
    let row = |t: &Vec<Term>| t.iter().map(|&(c, w)| (c.into(), w)).collect();
    let constraints = rf::Constraints(constraints.iter().map(|c| rf::Constraint(row(&c.a), row(&c.b), row(&c.c))).collect());
    let mut out = Vec::new();
    let _ = rf::R1csFile::<FIELD_SIZE> { header, constraints, map: rf::WireMap(map.clone()) }.write(&mut out);
    out
}

/// Builds the header from the field's modulus and the shared counts.
pub fn build_header(prime: &Vec<u8>, dims: &Dimensions) -> (r: Result<R1csHeader, ExportError>)
    ensures
        r.is_ok() == fits_width(prime@),
        match r {
            Ok(h) => h@ == header_spec(prime@, *dims),
            Err(e) => e == ExportError::Encoding,
        },
{
    match encode(prime) {
        Some(p) => Ok(R1csHeader {
            prime: p,
            n_wires: dims.n_wires,
            n_pub_out: 0,
            n_pub_in: dims.n_public,
            n_prvt_in: dims.n_private,
            n_labels: dims.n_wires as u64,
            n_constraints: dims.n_constraints,
        }),
        None => Err(ExportError::Encoding),
    }
}

/// Converts a sparse row into written terms, keeping every term and its
/// position.
pub fn convert_row(row: &SparseRow) -> (r: Result<Vec<Term>, ExportError>)
    ensures
        r.is_ok() == row_fits(row@),
        match r {
            Ok(t) => t@.map_values(|t: Term| term_view(t)) == encoded_row(row@),
            Err(e) => e == ExportError::Encoding,
        },
{
    if row.len() > u32::MAX as usize {
        return Err(ExportError::Encoding);
    }
    let mut out: Vec<Term> = Vec::new();
    let mut k: usize = 0;
    while k < row.len()
        invariant
            0 <= k <= row@.len(),
            row@.len() <= u32::MAX,
            out@.len() == k,
            forall|j: int| 0 <= j < k ==> fits_width(#[trigger] row@[j].0@) && row@[j].1 <= u32::MAX,
            forall|j: int| 0 <= j < k ==> term_view(#[trigger] out@[j]) == (padded(row@[j].0@), row@[j].1 as u32),
        decreases row@.len() - k,
    {
        let (coeff, wire) = &row[k];
        if *wire > u32::MAX as usize {
            assert(!(fits_width(row@[k as int].0@) && row@[k as int].1 <= u32::MAX));
            return Err(ExportError::Encoding);
        }
        match encode(coeff) {
            Some(c) => out.push((c, *wire as u32)),
            None => return Err(ExportError::Encoding),
        }
        k = k + 1;
    }
    assert(out@.map_values(|t: Term| term_view(t)) =~= encoded_row(row@));
    Ok(out)
}

/// Converts every constraint of the model, in order, rows A, B, C each.
pub fn build_constraints(model: &ConstraintModel) -> (r: Result<Vec<R1csConstraint>, ExportError>)
    requires
        model.wf(),
    ensures
        r.is_ok() == constraints_fit(model),
        match r {
            Ok(cs) => cs@.map_values(|c: R1csConstraint| c@) == encoded_constraints(model),
            Err(e) => e == ExportError::Encoding,
        },
{
    let mut out: Vec<R1csConstraint> = Vec::new();
    let mut i: usize = 0;
    while i < model.a.len()
        invariant
            model.wf(),
            0 <= i <= model.a@.len(),
            out@.len() == i,
            forall|j: int| 0 <= j < i ==> #[trigger] constraint_fits(model, j),
            forall|j: int| 0 <= j < i ==> (#[trigger] out@[j])@ == encoded_constraints(model)[j],
        decreases model.a@.len() - i,
    {
        let a = convert_row(&model.a[i]);
        let b = convert_row(&model.b[i]);
        let c = convert_row(&model.c[i]);
        match (a, b, c) {
            (Ok(a), Ok(b), Ok(c)) => {
                assert(constraint_fits(model, i as int));
                out.push(R1csConstraint { a, b, c });
            },
            _ => {
                assert(!constraint_fits(model, i as int));
                return Err(ExportError::Encoding);
            },
        }
        i = i + 1;
    }
    assert(out@.map_values(|c: R1csConstraint| c@) =~= encoded_constraints(model));
    Ok(out)
}

/// What encoding the model's constraint-system file gives: its header, its
/// constraints in order, and an empty wire-to-label map.
pub open spec fn r1cs_result(m: &ConstraintModel, d: Dimensions) -> Result<Seq<u8>, ExportError> {
    if !fits_width(m.prime@) || !constraints_fit(m) {
        Err(ExportError::Encoding)
    } else {
        Ok(r1cs_image(header_spec(m.prime@, d), encoded_constraints(m), Seq::empty()))
    }
}

/// What a byte result holds.
pub open spec fn result_bytes(r: Result<Vec<u8>, ExportError>) -> Result<Seq<u8>, ExportError> {
    match r {
        Ok(b) => Ok(b@),
        Err(e) => Err(e),
    }
}

/// Encodes the constraint-system file: header, then constraints, then a
/// wire-to-label map that is always empty (no custom labels).
pub fn encode_r1cs(model: &ConstraintModel, dims: &Dimensions) -> (r: Result<Vec<u8>, ExportError>)
    requires
        model.wf(),
    ensures
        result_bytes(r) == r1cs_result(model, *dims),
{
    let header = build_header(&model.prime, dims)?;
    let constraints = build_constraints(model)?;
    let map: Vec<u64> = Vec::new();
    Ok(write_r1cs(&header, &constraints, &map))
}

/// The check a reader makes of a header's modulus: all of its bytes equal
/// the expected ones.
pub open spec fn prime_check(found: Seq<u8>, expected: Seq<u8>) -> bool {
    found == expected
}

/// Whether a header's modulus is the expected one, byte for byte.
pub fn prime_matches(found: &FieldBytes, expected: &FieldBytes) -> (r: bool)
    ensures
        r == prime_check(found@, expected@),
{
    let mut i: usize = 0;
    while i < FIELD_SIZE
        invariant
            0 <= i <= FIELD_SIZE,
            found@.len() == FIELD_SIZE,
            expected@.len() == FIELD_SIZE,
            forall|j: int| 0 <= j < i ==> found@[j] == expected@[j],
        decreases FIELD_SIZE - i,
    {
        if found[i] != expected[i] {
            return false;
        }
        i = i + 1;
    }
    assert(found@ =~= expected@);
    true
}

/// A single changed byte of the modulus is always caught by the check.
pub proof fn lemma_tamper_detected(prime: Seq<u8>, i: int, byte: u8)
    requires
        prime.len() == FIELD_SIZE,
        0 <= i < FIELD_SIZE,
        byte != prime[i],
    ensures
        !prime_check(prime.update(i, byte), prime),
{
    assert(prime.update(i, byte)[i] != prime[i]);
}

} // verus!
