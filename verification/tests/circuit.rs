use halo2_intdiv::circuit::{RangeCircuit, Witness};

#[test]
fn new_circuit_is_empty_and_satisfied() {
    let circuit = RangeCircuit::new(6, 5).unwrap();
    assert_eq!(circuit.len(), 0);
    assert!(circuit.is_satisfied());
}

#[test]
fn new_refuses_a_table_that_does_not_fit() {
    assert!(RangeCircuit::new(6, 6).is_none());
    assert!(RangeCircuit::new(6, 7).is_none());
    assert!(RangeCircuit::new(6, 0).is_none());
}

#[test]
fn new_refuses_rows_out_of_range() {
    assert!(RangeCircuit::new(5, 4).is_none());
    assert!(RangeCircuit::new(29, 8).is_none());
    assert!(RangeCircuit::new(6, 1).is_some());
    assert!(RangeCircuit::new(10, 9).is_some());
}

#[test]
fn load_witness_appends_one_cell() {
    let mut circuit = RangeCircuit::new(6, 5).unwrap();
    let a = circuit.load_witness(41);
    let b = circuit.load_witness(u64::MAX);
    assert_eq!(a, Witness { offset: 0 });
    assert_eq!(b, Witness { offset: 1 });
    assert_eq!(circuit.len(), 2);
    assert_eq!(circuit.value(a), Some(41));
    assert_eq!(circuit.value(b), Some(u64::MAX));
    assert!(circuit.is_satisfied());
}

#[test]
fn mul_commits_zero_the_factors_and_the_product() {
    let mut circuit = RangeCircuit::new(6, 5).unwrap();
    let a = circuit.load_witness(6);
    let b = circuit.load_witness(7);
    let product = circuit.mul(a, b);
    assert_eq!(product, Witness { offset: 5 });
    assert_eq!(circuit.len(), 6);
    assert_eq!(circuit.value(Witness { offset: 2 }), Some(0));
    assert_eq!(circuit.value(Witness { offset: 3 }), Some(6));
    assert_eq!(circuit.value(Witness { offset: 4 }), Some(7));
    assert_eq!(circuit.value(product), Some(42));
    assert!(circuit.is_satisfied());
}

#[test]
fn add_commits_the_terms_one_and_the_sum() {
    let mut circuit = RangeCircuit::new(6, 5).unwrap();
    let a = circuit.load_witness(6);
    let b = circuit.load_witness(7);
    let sum = circuit.add(a, b);
    assert_eq!(sum, Witness { offset: 5 });
    assert_eq!(circuit.value(Witness { offset: 2 }), Some(6));
    assert_eq!(circuit.value(Witness { offset: 3 }), Some(7));
    assert_eq!(circuit.value(Witness { offset: 4 }), Some(1));
    assert_eq!(circuit.value(sum), Some(13));
    assert!(circuit.is_satisfied());
}

#[test]
fn value_is_none_above_64_bits() {
    let mut circuit = RangeCircuit::new(6, 5).unwrap();
    let a = circuit.load_witness(1 << 63);
    let b = circuit.load_witness(2);
    let c = circuit.load_witness(u64::MAX);
    let d = circuit.load_witness(1);
    let zero = circuit.load_witness(0);
    let product = circuit.mul(a, b);
    let sum = circuit.add(c, d);
    let below = circuit.add(c, zero);
    assert_eq!(circuit.value(product), None);
    assert_eq!(circuit.value(sum), None);
    assert_eq!(circuit.value(below), Some(u64::MAX));
    assert!(circuit.is_satisfied());
}

#[test]
fn constrain_equal_accepts_equal_cells() {
    let mut circuit = RangeCircuit::new(6, 5).unwrap();
    let a = circuit.load_witness(9);
    let b = circuit.load_witness(9);
    circuit.constrain_equal(a, b);
    assert_eq!(circuit.len(), 2);
    assert!(circuit.is_satisfied());
}

#[test]
fn constrain_equal_refuses_different_cells() {
    let mut circuit = RangeCircuit::new(6, 5).unwrap();
    let a = circuit.load_witness(9);
    let b = circuit.load_witness(10);
    circuit.constrain_equal(a, b);
    assert!(!circuit.is_satisfied());
}

#[test]
fn range_check_holds_below_the_limit_only() {
    for (value, bits, expected) in [
        (0u64, 0usize, true),
        (1, 0, false),
        (1, 1, true),
        (2, 1, false),
        (31, 5, true),
        (32, 5, false),
        (255, 8, true),
        (256, 8, false),
        (65535, 16, true),
        (65536, 16, false),
        (4294967295, 32, true),
        (4294967296, 32, false),
        (u64::MAX, 32, false),
        (5, 3, true),
        (8, 3, false),
    ] {
        let mut circuit = RangeCircuit::new(7, 5).unwrap();
        let a = circuit.load_witness(value);
        circuit.range_check(a, bits);
        assert_eq!(circuit.is_satisfied(), expected, "{value} in {bits} bits");
        assert_eq!(circuit.value(a), Some(value));
    }
}

#[test]
fn range_check_works_with_every_table() {
    for lookup_bits in 1..10 {
        let mut circuit = RangeCircuit::new(10, lookup_bits).unwrap();
        let a = circuit.load_witness(4294967295);
        circuit.range_check(a, 32);
        assert!(circuit.is_satisfied(), "table of {lookup_bits} bits");
        let mut circuit = RangeCircuit::new(10, lookup_bits).unwrap();
        let a = circuit.load_witness(4294967296);
        circuit.range_check(a, 32);
        assert!(!circuit.is_satisfied(), "table of {lookup_bits} bits");
    }
}

#[test]
fn range_check_commits_the_same_cells_for_the_same_value() {
    let mut first = RangeCircuit::new(6, 5).unwrap();
    let a = first.load_witness(123456789);
    first.range_check(a, 32);
    let mut second = RangeCircuit::new(6, 5).unwrap();
    second.load_witness(77);
    let b = second.load_witness(123456789);
    second.range_check(b, 32);
    assert_eq!(first.len() + 1, second.len());
    for offset in 1..first.len() {
        assert_eq!(
            first.value(Witness { offset }),
            second.value(Witness { offset: offset + 1 })
        );
    }
}

#[test]
fn is_satisfied_does_not_change_the_circuit() {
    let mut circuit = RangeCircuit::new(6, 5).unwrap();
    let a = circuit.load_witness(3);
    circuit.range_check(a, 32);
    let cells = circuit.len();
    assert!(circuit.is_satisfied());
    assert!(circuit.is_satisfied());
    assert_eq!(circuit.len(), cells);
    let b = circuit.load_witness(4);
    circuit.constrain_equal(a, b);
    assert!(!circuit.is_satisfied());
}

fn fits(cells: usize, rows: usize) -> bool {
    cells <= cells.div_ceil(rows) * (rows - 3)
}

#[test]
fn circuits_that_fit_their_columns_are_laid_out() {
    // 2^6 rows, of which 55 hold cells
    for witnesses in 0..4 {
        let mut circuit = RangeCircuit::new(6, 5).unwrap();
        for value in 0..witnesses {
            circuit.load_witness(value);
        }
        let a = circuit.load_witness(3);
        let b = circuit.load_witness(5);
        while circuit.len() < 240 {
            if fits(circuit.len(), 55) {
                assert!(circuit.is_satisfied(), "{} cells", circuit.len());
            }
            circuit.mul(a, b);
            if fits(circuit.len(), 55) {
                assert!(circuit.is_satisfied(), "{} cells", circuit.len());
            }
            circuit.load_witness(1);
        }
    }
}

#[test]
fn witnesses_alone_fill_columns_to_the_last_row_but_three() {
    let mut circuit = RangeCircuit::new(6, 5).unwrap();
    for value in 0..52 {
        circuit.load_witness(value);
        assert!(circuit.is_satisfied());
    }
    assert_eq!(circuit.len(), 52);
}
