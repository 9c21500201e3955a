//! Bit/digit conversion utilities shared by the octal and symbolic codecs.

use vstd::prelude::*;
use crate::ParseError;

verus! {

/// The three permission bits `[read, write, execute]` encoded by an octal
/// digit, most-significant bit first.
pub open spec fn octal_digit_bits(d: u8) -> Seq<bool> {
    seq![d / 4 % 2 == 1, d / 2 % 2 == 1, d % 2 == 1]
}

/// The octal digit encoding the bits `[read, write, execute]` by binary
/// weighting (read = 4, write = 2, execute = 1).
pub open spec fn digit_of_bits(read: bool, write: bool, execute: bool) -> int {
    (if read { 4int } else { 0 }) + (if write { 2int } else { 0 }) + (if execute { 1int } else { 0 })
}

/// Parses an octal digit into `[read, write, execute]` bits from its binary
/// expansion; digits above 7 are rejected.
pub fn parse_octal_digit(digit: u8) -> (r: Result<[bool; 3], ParseError>)
    ensures
        digit <= 7 ==> (r matches Ok(bits) && bits@ == octal_digit_bits(digit)),
        digit > 7 ==> (r matches Err(e) && e == ParseError::InvalidOctalPermission),
{
    if digit > 7 {
        return Err(ParseError::InvalidOctalPermission);
    }

    let bits: [bool; 3] = [digit / 4 % 2 == 1, digit / 2 % 2 == 1, digit % 2 == 1];
    proof {
        assert(bits@ =~= octal_digit_bits(digit));
    }
    Ok(bits)
}

/// Packs `[read, write, execute]` bits into the octal digit they encode.
pub fn bool_arr_to_octal_digit(arr: &[bool; 3]) -> (d: u8)
    ensures
        d == digit_of_bits(arr@[0], arr@[1], arr@[2]),
        d <= 7,
{
    let r: u8 = if arr[0] { 4 } else { 0 };
    let w: u8 = if arr[1] { 2 } else { 0 };
    let x: u8 = if arr[2] { 1 } else { 0 };
    r + w + x
}

/// Law: decoding an octal digit into its three bits and packing the bits
/// again yields the digit, for every digit 0–7.
pub proof fn lemma_octal_digit_round_trip(d: u8)
    requires
        d <= 7,
    ensures
        digit_of_bits(octal_digit_bits(d)[0], octal_digit_bits(d)[1], octal_digit_bits(d)[2])
            == d,
{
}

/// Law: packing `[read, write, execute]` bits into an octal digit and
/// decoding the digit again yields the same bits, for every combination.
pub proof fn lemma_bits_round_trip(read: bool, write: bool, execute: bool)
    ensures
        octal_digit_bits(digit_of_bits(read, write, execute) as u8) == seq![read, write, execute],
{
    assert(octal_digit_bits(digit_of_bits(read, write, execute) as u8) =~= seq![
        read,
        write,
        execute,
    ]);
}

/// What the execution/special slot character of a symbolic triplet means, as
/// `(execute, special)`: a plain `x` executes without a special bit, a
/// lowercase special character (`s`, `t`) executes with the special bit set,
/// an uppercase one (`S`, `T`) sets the special bit without executing, and
/// anything else (in a valid string only `-`) sets neither.
pub open spec fn exec_slot_meaning(c: char) -> (bool, bool) {
    if c == 'S' || c == 'T' {
        (false, true)
    } else if c == 's' || c == 't' {
        (true, true)
    } else if c == 'x' {
        (true, false)
    } else {
        (false, false)
    }
}

/// Decodes the execution/special slot character of a symbolic triplet (the
/// `x` of `rwx`) into `(execute, special)`.
pub fn parse_symbolic_execution_bit(bit: char) -> (r: (bool, bool))
    ensures
        r == exec_slot_meaning(bit),
        bit == 's' || bit == 't' ==> r == (true, true),
        bit == 'S' || bit == 'T' ==> r == (false, true),
        bit == 'x' ==> r == (true, false),
        bit == '-' ==> r == (false, false),
{
    if bit == 'S' || bit == 'T' {
        (false, true)
    } else if bit == 's' || bit == 't' {
        (true, true)
    } else if bit == 'x' {
        (true, false)
    } else {
        (false, false)
    }
}

/// The human-readable label of a symbolic filetype character.
pub open spec fn filetype_label(c: char) -> Seq<char> {
    if c == '-' {
        "Regular File"@
    } else if c == 'd' {
        "Directory"@
    } else if c == 'l' {
        "Symbolic Link"@
    } else if c == 'b' {
        "Block Device"@
    } else if c == 'c' {
        "Character Device"@
    } else if c == 's' {
        "Socket"@
    } else if c == 'p' {
        "Named Pipe"@
    } else {
        "Unknown"@
    }
}

/// Returns the human-readable file type for a symbolic filetype character.
pub fn get_filetype_from_char(ft_char: char) -> (r: String)
    ensures
        r@ == filetype_label(ft_char),
{
    if ft_char == '-' {
        "Regular File".to_owned()
    } else if ft_char == 'd' {
        "Directory".to_owned()
    } else if ft_char == 'l' {
        "Symbolic Link".to_owned()
    } else if ft_char == 'b' {
        "Block Device".to_owned()
    } else if ft_char == 'c' {
        "Character Device".to_owned()
    } else if ft_char == 's' {
        "Socket".to_owned()
    } else if ft_char == 'p' {
        "Named Pipe".to_owned()
    } else {
        "Unknown".to_owned()
    }
}

} // verus!
