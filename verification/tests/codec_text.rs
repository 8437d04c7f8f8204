use btor_facade::codec::{decode_text, encode_bits, var_symbol};

#[test]
fn value_one_of_width_eight_encodes_msb_first() {
    // Least-significant bit first: the value 1 in eight bits.
    let bits = vec![true, false, false, false, false, false, false, false];
    assert_eq!(encode_bits(&bits), b"00000001".to_vec());
}

#[test]
fn single_bit_constants_encode_to_one_digit() {
    assert_eq!(encode_bits(&vec![true]), b"1".to_vec());
    assert_eq!(encode_bits(&vec![false]), b"0".to_vec());
}

#[test]
fn mixed_constant_encodes_reversed() {
    let bits = vec![false, true, true, false, true];
    assert_eq!(encode_bits(&bits), b"10110".to_vec());
}

#[test]
fn assignment_text_decodes_lsb_first() {
    let text = b"00000001".to_vec();
    assert_eq!(
        decode_text(&text),
        vec![true, false, false, false, false, false, false, false]
    );
}

#[test]
fn empty_assignment_decodes_to_no_bits() {
    assert_eq!(decode_text(&Vec::new()), Vec::<bool>::new());
}

#[test]
fn constants_survive_the_round_trip() {
    let patterns: Vec<Vec<bool>> = vec![
        vec![true],
        vec![false],
        vec![true, true, false],
        vec![false, false, false, true],
        vec![true, false, true, false, true, false, true, false],
    ];
    for bits in patterns {
        assert_eq!(decode_text(&encode_bits(&bits)), bits);
    }
}

#[test]
fn distinct_equal_width_constants_encode_distinctly() {
    let a = vec![true, false, false, false, false, false, false, false];
    let b = vec![false, true, false, false, false, false, false, false];
    assert_ne!(encode_bits(&a), encode_bits(&b));
}

#[test]
fn variable_symbols_carry_the_identifier_in_decimal() {
    assert_eq!(var_symbol(0), b"var 0".to_vec());
    assert_eq!(var_symbol(7), b"var 7".to_vec());
    assert_eq!(var_symbol(17), b"var 17".to_vec());
    assert_eq!(var_symbol(1000), b"var 1000".to_vec());
    assert_eq!(var_symbol(u32::MAX), b"var 4294967295".to_vec());
}
