//! The finalized constraint system handed to the encoders, and the counts
//! that both encoders share.

use vstd::prelude::*;
use crate::codec::{le_value, FIELD_SIZE};

verus! {

/// Why an export failed.
#[derive(Debug, Clone, Copy, PartialEq, Eq, Structural)]
pub enum ExportError {
    /// A variable had no value when the constraint system was built.
    Resolution,
    /// A value or a count does not fit its fixed-width field.
    Encoding,
    /// The constraint system's parts do not agree with each other.
    MalformedModel,
    /// The witness vector does not have one value per wire.
    WireCountMismatch,
    /// Creating or writing an output failed.
    Io,
}

/// One matrix row: (coefficient, wire index) pairs in the order the
/// constraint system produced them. Coefficients are canonical little-endian
/// byte strings.
pub type SparseRow = Vec<(Vec<u8>, usize)>;

/// A finalized constraint system with fully resolved assignments.
///
/// Constraint `i` states `(a[i]·w) * (b[i]·w) = (c[i]·w)` where `w` is
/// `instance` followed by `witness`; `instance[0]` is the constant wire.
pub struct ConstraintModel {
    /// The field's prime modulus, canonical little-endian.
    pub prime: Vec<u8>,
    pub a: Vec<SparseRow>,
    pub b: Vec<SparseRow>,
    pub c: Vec<SparseRow>,
    /// Public values, the constant one first.
    pub instance: Vec<Vec<u8>>,
    /// Private values.
    pub witness: Vec<Vec<u8>>,
}

/// The counts shared by the constraint-system and witness encoders.
#[derive(Debug, Clone, Copy, PartialEq, Eq, Structural)]
pub struct Dimensions {
    pub n_constraints: u32,
    /// Public variables, the constant wire included.
    pub n_public: u32,
    pub n_private: u32,
    /// `n_public + n_private`.
    pub n_wires: u32,
}

impl ConstraintModel {
    /// Three matrices of one row per constraint, and a constant wire of value one.
    pub open spec fn wf(&self) -> bool {
        &&& self.a@.len() == self.b@.len()
        &&& self.b@.len() == self.c@.len()
        &&& self.instance@.len() >= 1
        &&& le_value(self.instance@[0]@) == 1
    }

    /// Builds a model from its parts, checking that they fit together.
    pub fn new(
        prime: Vec<u8>,
        a: Vec<SparseRow>,
        b: Vec<SparseRow>,
        c: Vec<SparseRow>,
        instance: Vec<Vec<u8>>,
        witness: Vec<Vec<u8>>,
    ) -> (r: Result<ConstraintModel, ExportError>)
        ensures
            match r {
                Ok(m) => m.wf() && m.prime == prime && m.a == a && m.b == b && m.c == c
                    && m.instance == instance && m.witness == witness,
                Err(e) => e == ExportError::MalformedModel,
            },
            r.is_ok() == (a@.len() == b@.len() && b@.len() == c@.len() && instance@.len() >= 1
                && le_value(instance@[0]@) == 1),
    {
        if a.len() != b.len() || b.len() != c.len() || instance.len() == 0 {
            return Err(ExportError::MalformedModel);
        }
        if !is_one(&instance[0]) {
            return Err(ExportError::MalformedModel);
        }
        Ok(ConstraintModel { prime, a, b, c, instance, witness })
    }
}

/// Whether a little-endian byte string stands for the number one.
pub fn is_one(v: &Vec<u8>) -> (r: bool)
    ensures
        r == (le_value(v@) == 1),
{
    if v.len() == 0 {
        return false;
    }
    let mut i: usize = v.len();
    assert(v@.subrange(0, i as int) =~= v@);
    while i > 1
        invariant
            1 <= i <= v@.len(),
            le_value(v@) == le_value(v@.subrange(0, i as int)),
        decreases i,
    {
        if v[i - 1] != 0 {
            proof { lemma_high_nonzero_large(v@.subrange(0, i as int)); }
            return false;
        }
        proof { lemma_drop_high_zero(v@.subrange(0, i as int)); }
        assert(v@.subrange(0, i as int).drop_last() =~= v@.subrange(0, i - 1));
        i = i - 1;
    }
    proof {
        let s = v@.subrange(0, 1);
        assert(s.drop_first() =~= Seq::<u8>::empty());
        assert(le_value(Seq::<u8>::empty()) == 0);
        assert(le_value(s) == v@[0] as nat);
    }
    v[0] == 1
}

/// A string whose last (most significant) byte is zero has the value of the
/// string without it.
proof fn lemma_drop_high_zero(s: Seq<u8>)
    requires
        s.len() >= 1,
        s.last() == 0,
    ensures
        le_value(s) == le_value(s.drop_last()),
    decreases s.len(),
{
    if s.len() == 1 {
        assert(s.drop_first() =~= Seq::<u8>::empty());
        assert(s.drop_last() =~= Seq::<u8>::empty());
        assert(le_value(Seq::<u8>::empty()) == 0);
    } else {
        assert(s.drop_first().drop_last() =~= s.drop_last().drop_first());
        lemma_drop_high_zero(s.drop_first());
    }
}

/// A string of two or more bytes whose last byte is not zero stands for at
/// least 256.
proof fn lemma_high_nonzero_large(s: Seq<u8>)
    requires
        s.len() >= 2,
        s.last() != 0,
    ensures
        le_value(s) >= 256,
    decreases s.len(),
{
    if s.len() == 2 {
        let t = s.drop_first();
        assert(t.drop_first() =~= Seq::<u8>::empty());
        assert(le_value(Seq::<u8>::empty()) == 0);
        assert(le_value(t) == t[0] as nat);
        assert(t[0] == s.last());
    } else {
        lemma_high_nonzero_large(s.drop_first());
    }
}

/// The counts of a model, when each fits a 32-bit header field.
pub open spec fn counts_fit(m: &ConstraintModel) -> bool {
    &&& m.a@.len() <= u32::MAX
    &&& m.instance@.len() + m.witness@.len() <= u32::MAX
}

/// The counts of a model, read as 32-bit values.
pub open spec fn dims_spec(m: &ConstraintModel) -> Dimensions {
    Dimensions {
        n_constraints: m.a@.len() as u32,
        n_public: m.instance@.len() as u32,
        n_private: m.witness@.len() as u32,
        n_wires: (m.instance@.len() + m.witness@.len()) as u32,
    }
}

/// Computes the shared counts once, failing on a count that a 32-bit header
/// field cannot hold.
pub fn resolve_dimensions(model: &ConstraintModel) -> (r: Result<Dimensions, ExportError>)
    ensures
        r.is_ok() == counts_fit(model),
        r matches Ok(d) ==> d == dims_spec(model),
        match r {
            Ok(d) => {
                &&& d.n_constraints as int == model.a@.len()
                &&& d.n_public as int == model.instance@.len()
                &&& d.n_private as int == model.witness@.len()
                &&& d.n_wires as int == d.n_public + d.n_private
            },
            Err(e) => e == ExportError::Encoding,
        },
{
    let n_constraints = model.a.len();
    let n_public = model.instance.len();
    let n_private = model.witness.len();
    if n_constraints > u32::MAX as usize || n_public > u32::MAX as usize
        || n_private > u32::MAX as usize - n_public {
        return Err(ExportError::Encoding);
    }
    Ok(Dimensions {
        n_constraints: n_constraints as u32,
        n_public: n_public as u32,
        n_private: n_private as u32,
        n_wires: (n_public + n_private) as u32,
    })
}

} // verus!
