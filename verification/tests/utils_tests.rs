use permcon::utils::{
    bool_arr_to_octal_digit, get_filetype_from_char, parse_octal_digit,
    parse_symbolic_execution_bit,
};
use permcon::ParseError;

fn digit_bit_cases() -> [(u8, [bool; 3]); 8] {
    [
        (0, [false; 3]),
        (1, [false, false, true]),
        (2, [false, true, false]),
        (3, [false, true, true]),
        (4, [true, false, false]),
        (5, [true, false, true]),
        (6, [true, true, false]),
        (7, [true, true, true]),
    ]
}

#[test]
fn test_parse_octal_digit() {
    for (digit, output) in digit_bit_cases() {
        assert_eq!(parse_octal_digit(digit), Ok(output));
    }
}

#[test]
fn test_bool_arr_to_octal_digit() {
    for (digit, array) in digit_bit_cases() {
        assert_eq!(bool_arr_to_octal_digit(&array), digit);
    }
}

#[test]
fn test_parse_octal_digit_rejects_large_digits() {
    assert_eq!(parse_octal_digit(8), Err(ParseError::InvalidOctalPermission));
    assert_eq!(parse_octal_digit(9), Err(ParseError::InvalidOctalPermission));
    assert_eq!(parse_octal_digit(255), Err(ParseError::InvalidOctalPermission));
}

#[test]
fn test_digit_bit_round_trips() {
    for (digit, array) in digit_bit_cases() {
        assert_eq!(bool_arr_to_octal_digit(&parse_octal_digit(digit).unwrap()), digit);
        assert_eq!(parse_octal_digit(bool_arr_to_octal_digit(&array)), Ok(array));
    }
}

#[test]
fn test_parse_symbolic_execution_bit() {
    assert_eq!((true, false), parse_symbolic_execution_bit('x'));
    assert_eq!((false, false), parse_symbolic_execution_bit('-'));
    assert_eq!((true, true), parse_symbolic_execution_bit('s'));
    assert_eq!((true, true), parse_symbolic_execution_bit('t'));
    assert_eq!((false, true), parse_symbolic_execution_bit('S'));
    assert_eq!((false, true), parse_symbolic_execution_bit('T'));
}

#[test]
fn test_get_filetype_from_char() {
    assert_eq!(get_filetype_from_char('-'), String::from("Regular File"));
    assert_eq!(get_filetype_from_char('d'), String::from("Directory"));
    assert_eq!(get_filetype_from_char('l'), String::from("Symbolic Link"));
    assert_eq!(get_filetype_from_char('b'), String::from("Block Device"));
    assert_eq!(get_filetype_from_char('c'), String::from("Character Device"));
    assert_eq!(get_filetype_from_char('s'), String::from("Socket"));
    assert_eq!(get_filetype_from_char('p'), String::from("Named Pipe"));
    assert_eq!(get_filetype_from_char('q'), String::from("Unknown"));
}
