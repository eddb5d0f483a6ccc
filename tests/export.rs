use r1cs_export::codec::{decode, encode, FieldBytes, FIELD_SIZE};
use r1cs_export::export::export;
use r1cs_export::model::{is_one, resolve_dimensions, ConstraintModel, Dimensions, ExportError, SparseRow};
use r1cs_export::r1cs::{build_constraints, build_header, convert_row, encode_r1cs, prime_matches};
use r1cs_export::witness::{build_witness, encode_witness};

const BN254_R: [u8; 32] = [
    0x01, 0x00, 0x00, 0xf0, 0x93, 0xf5, 0xe1, 0x43, 0x91, 0x70, 0xb9, 0x79, 0x48, 0xe8, 0x33, 0x28,
    0x5d, 0x58, 0x81, 0x81, 0xb6, 0x45, 0x50, 0xb8, 0x29, 0xa0, 0x31, 0xe1, 0x72, 0x4e, 0x64, 0x30,
];

fn fe(n: u64) -> Vec<u8> {
    let mut v = n.to_le_bytes().to_vec();
    v.resize(32, 0);
    v
}

fn fixed(n: u64) -> FieldBytes {
    let mut b = [0u8; 32];
    b[..8].copy_from_slice(&n.to_le_bytes());
    b
}

fn value_of(bytes: &[u8]) -> u64 {
    assert!(bytes[8..].iter().all(|&x| x == 0));
    u64::from_le_bytes(bytes[..8].try_into().unwrap())
}

/// a=3, b=5 private; c=a*b=15, d=a+b=8 public. Wires: 1, c, d, a, b.
fn demo_model() -> ConstraintModel {
    let one = fe(1);
    let a: Vec<SparseRow> = vec![vec![(one.clone(), 3)], vec![(one.clone(), 3), (one.clone(), 4)]];
    let b: Vec<SparseRow> = vec![vec![(one.clone(), 4)], vec![(one.clone(), 0)]];
    let c: Vec<SparseRow> = vec![vec![(one.clone(), 1)], vec![(one.clone(), 2)]];
    ConstraintModel::new(
        BN254_R.to_vec(),
        a,
        b,
        c,
        vec![fe(1), fe(15), fe(8)],
        vec![fe(3), fe(5)],
    )
    .unwrap()
}

fn read_r1cs(bytes: &[u8]) -> r1cs_file::R1csFile<32> {
    r1cs_file::R1csFile::<32>::read(bytes).unwrap()
}

fn read_wtns(bytes: &[u8]) -> wtns_file::WtnsFile<32> {
    wtns_file::WtnsFile::<32>::read(bytes).unwrap()
}

#[test]
fn demo_circuit_export() {
    let files = export(&demo_model()).unwrap();
    let r1cs = read_r1cs(&files.r1cs);
    assert_eq!(r1cs.header.n_constraints, 2);
    assert_eq!(r1cs.header.n_pub_in, 3);
    assert_eq!(r1cs.header.n_prvt_in, 2);
    assert_eq!(r1cs.header.n_wires, 5);
    assert_eq!(r1cs.header.n_pub_out, 0);
    assert_eq!(r1cs.header.n_labels, 5);
    assert_eq!(r1cs.header.prime.as_bytes(), &BN254_R[..]);
    assert_eq!(r1cs.map.0.len(), 0);

    let wtns = read_wtns(&files.wtns);
    assert_eq!(wtns.header.witness_len, 5);
    assert_eq!(wtns.header.prime.as_bytes(), &BN254_R[..]);
    let values: Vec<u64> = wtns.witness.0.iter().map(|e| value_of(&decode(e))).collect();
    assert_eq!(values, vec![1, 15, 8, 3, 5]);
}

#[test]
fn written_file_starts_with_magic() {
    let files = export(&demo_model()).unwrap();
    assert_eq!(&files.r1cs[..4], b"r1cs");
    assert_eq!(&files.wtns[..4], b"wtns");
}

#[test]
fn header_counts_follow_model() {
    let one = fe(1);
    let row: SparseRow = vec![(one.clone(), 0)];
    let m = ConstraintModel::new(
        BN254_R.to_vec(),
        vec![row.clone(); 4],
        vec![row.clone(); 4],
        vec![Vec::new(); 4],
        vec![fe(1), fe(2)],
        vec![fe(7), fe(8), fe(9)],
    )
    .unwrap();
    let d = resolve_dimensions(&m).unwrap();
    assert_eq!(d, Dimensions { n_constraints: 4, n_public: 2, n_private: 3, n_wires: 5 });
    let h = build_header(&m.prime, &d).unwrap();
    assert_eq!((h.n_constraints, h.n_pub_in, h.n_prvt_in, h.n_wires, h.n_pub_out, h.n_labels), (4, 2, 3, 5, 0, 5));
    let r1cs = read_r1cs(&encode_r1cs(&m, &d).unwrap());
    assert_eq!(r1cs.header.n_constraints, 4);
    assert_eq!(r1cs.constraints.0.len(), 4);
}

#[test]
fn witness_length_is_wire_count() {
    let m = demo_model();
    let d = resolve_dimensions(&m).unwrap();
    let w = build_witness(&m, &d).unwrap();
    assert_eq!(w.len(), d.n_wires as usize);
    assert_eq!(w[0], fixed(1));
    let wtns = read_wtns(&encode_witness(&m, &d).unwrap());
    assert_eq!(wtns.witness.0.len(), 5);
}

#[test]
fn witness_count_mismatch_is_an_error() {
    let m = demo_model();
    let d = Dimensions { n_constraints: 2, n_public: 3, n_private: 2, n_wires: 6 };
    assert_eq!(build_witness(&m, &d), Err(ExportError::WireCountMismatch));
    assert_eq!(encode_witness(&m, &d), Err(ExportError::WireCountMismatch));
    let d = Dimensions { n_constraints: 2, n_public: 3, n_private: 2, n_wires: 2 };
    assert_eq!(build_witness(&m, &d), Err(ExportError::WireCountMismatch));
}

#[test]
fn codec_round_trip() {
    for v in [fe(0), fe(1), fe(15), BN254_R.to_vec(), vec![0xff; 32]] {
        let e = encode(&v).unwrap();
        assert_eq!(decode(&e), v);
    }
    assert_eq!(encode(&vec![7u8]).unwrap(), fixed(7));
    assert_eq!(decode(&encode(&vec![0x34, 0x12]).unwrap()), fe(0x1234));
    assert_eq!(encode(&Vec::new()).unwrap(), [0u8; FIELD_SIZE]);
}

#[test]
fn codec_rejects_too_wide() {
    assert_eq!(encode(&vec![1u8; 33]), None);
    assert_eq!(encode(&vec![0u8; 40]), None);
    assert!(encode(&vec![1u8; 32]).is_some());
}

#[test]
fn row_terms_kept_in_order() {
    let row: SparseRow = vec![(fe(9), 4), (vec![2], 0), (fe(5), 2)];
    let t = convert_row(&row).unwrap();
    assert_eq!(t, vec![(fixed(9), 4), (fixed(2), 0), (fixed(5), 2)]);
    assert_eq!(convert_row(&Vec::new()).unwrap(), Vec::new());
}

#[test]
fn row_with_wide_coefficient_fails() {
    let row: SparseRow = vec![(fe(9), 4), (vec![1; 33], 0)];
    assert_eq!(convert_row(&row), Err(ExportError::Encoding));
}

#[test]
fn row_with_wide_wire_index_fails() {
    let row: SparseRow = vec![(fe(9), u32::MAX as usize + 1)];
    assert_eq!(convert_row(&row), Err(ExportError::Encoding));
    let row: SparseRow = vec![(fe(9), u32::MAX as usize)];
    assert_eq!(convert_row(&row).unwrap(), vec![(fixed(9), u32::MAX)]);
}

#[test]
fn exported_rows_match_source() {
    let m = demo_model();
    let cs = build_constraints(&m).unwrap();
    assert_eq!(cs.len(), 2);
    assert_eq!(cs[1].a, vec![(fixed(1), 3), (fixed(1), 4)]);
    assert_eq!(cs[1].b, vec![(fixed(1), 0)]);
    assert_eq!(cs[0].c, vec![(fixed(1), 1)]);
    let r1cs = read_r1cs(&export(&m).unwrap().r1cs);
    let second = &r1cs.constraints.0[1];
    let a: Vec<(u64, u32)> = second.0.iter().map(|(f, w)| (value_of(f.as_bytes()), *w)).collect();
    assert_eq!(a, vec![(1, 3), (1, 4)]);
    assert_eq!(r1cs.constraints.0[0].2[0].1, 1);
}

#[test]
fn export_is_deterministic() {
    let m = demo_model();
    let first = export(&m).unwrap();
    let second = export(&m).unwrap();
    assert_eq!(first.r1cs, second.r1cs);
    assert_eq!(first.wtns, second.wtns);
}

#[test]
fn tampered_prime_is_detected() {
    let r1cs = read_r1cs(&export(&demo_model()).unwrap().r1cs);
    let found: FieldBytes = *r1cs.header.prime;
    assert!(prime_matches(&found, &BN254_R));
    for i in 0..FIELD_SIZE {
        let mut bad = found;
        bad[i] ^= 0x01;
        assert!(!prime_matches(&bad, &BN254_R));
    }
}

#[test]
fn malformed_models_are_refused() {
    let one = fe(1);
    let row: SparseRow = vec![(one.clone(), 0)];
    let unequal = ConstraintModel::new(BN254_R.to_vec(), vec![row.clone()], vec![], vec![row.clone()], vec![fe(1)], vec![]);
    assert!(matches!(unequal, Err(ExportError::MalformedModel)));
    let no_constant = ConstraintModel::new(BN254_R.to_vec(), vec![], vec![], vec![], vec![], vec![fe(1)]);
    assert!(matches!(no_constant, Err(ExportError::MalformedModel)));
    let wrong_constant = ConstraintModel::new(BN254_R.to_vec(), vec![], vec![], vec![], vec![fe(2)], vec![]);
    assert!(matches!(wrong_constant, Err(ExportError::MalformedModel)));
    let short_constant = ConstraintModel::new(BN254_R.to_vec(), vec![], vec![], vec![], vec![vec![1]], vec![]);
    assert!(short_constant.is_ok());
}

#[test]
fn one_is_recognised() {
    assert!(is_one(&fe(1)));
    assert!(is_one(&vec![1]));
    assert!(!is_one(&vec![]));
    assert!(!is_one(&fe(0)));
    assert!(!is_one(&fe(257)));
    assert!(!is_one(&vec![1, 0, 0, 1]));
}

#[test]
fn too_wide_prime_is_an_encoding_error() {
    let m = ConstraintModel::new(vec![1u8; 33], vec![], vec![], vec![], vec![fe(1)], vec![]).unwrap();
    let d = resolve_dimensions(&m).unwrap();
    assert!(matches!(build_header(&m.prime, &d), Err(ExportError::Encoding)));
    assert!(matches!(export(&m), Err(ExportError::Encoding)));
}

#[test]
fn too_wide_assignment_is_an_encoding_error() {
    let m = ConstraintModel::new(BN254_R.to_vec(), vec![], vec![], vec![], vec![fe(1)], vec![vec![3u8; 33]]).unwrap();
    assert!(matches!(export(&m), Err(ExportError::Encoding)));
}

#[test]
fn empty_model_exports() {
    let m = ConstraintModel::new(BN254_R.to_vec(), vec![], vec![], vec![], vec![fe(1)], vec![]).unwrap();
    let files = export(&m).unwrap();
    let r1cs = read_r1cs(&files.r1cs);
    assert_eq!((r1cs.header.n_constraints, r1cs.header.n_wires, r1cs.header.n_pub_in), (0, 1, 1));
    let wtns = read_wtns(&files.wtns);
    assert_eq!(wtns.witness.0.len(), 1);
}
