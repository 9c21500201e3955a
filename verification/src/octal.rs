//! The octal notation parser: validates and decomposes strings such as
//! `755` or `1755` into one digit per triplet plus a special-bit digit.

use vstd::prelude::*;
use crate::ParseError;

verus! {

/// The numeric value of an octal digit character, or -1 for any other
/// character.
pub open spec fn octal_char_value(c: char) -> int {
    if c == '0' {
        0
    } else if c == '1' {
        1
    } else if c == '2' {
        2
    } else if c == '3' {
        3
    } else if c == '4' {
        4
    } else if c == '5' {
        5
    } else if c == '6' {
        6
    } else if c == '7' {
        7
    } else {
        -1
    }
}

/// The character of an octal digit value (0–7), the inverse of
/// `octal_char_value` on that range.
pub open spec fn octal_digit_char(d: int) -> char {
    if d == 0 {
        '0'
    } else if d == 1 {
        '1'
    } else if d == 2 {
        '2'
    } else if d == 3 {
        '3'
    } else if d == 4 {
        '4'
    } else if d == 5 {
        '5'
    } else if d == 6 {
        '6'
    } else {
        '7'
    }
}

/// Whether a character is an octal digit (`0` through `7`).
pub open spec fn is_octal_digit_char(c: char) -> bool {
    octal_char_value(c) >= 0
}

/// The octal grammar: 3 or 4 octal digits. When 4, the leading digit holds
/// the special bits; when 3, the special digit defaults to 0.
pub open spec fn valid_octal(s: Seq<char>) -> bool {
    &&& s.len() == 3 || s.len() == 4
    &&& forall|i: int| 0 <= i < s.len() ==> is_octal_digit_char(#[trigger] s[i])
}

/// The three digits of an octal permission string that encode the
/// user/group/other triplets (everything after the optional special digit).
pub open spec fn octal_body(s: Seq<char>) -> Seq<char> {
    if s.len() == 4 {
        s.skip(1)
    } else {
        s
    }
}

/// The value of the special digit of an octal permission string: the leading
/// digit when there are four, 0 when there are three.
pub open spec fn octal_special_value(s: Seq<char>) -> int {
    if s.len() == 4 {
        octal_char_value(s[0])
    } else {
        0
    }
}

/// Law: rendering the value of an octal digit character yields the same
/// character.
pub proof fn lemma_octal_char_round_trip(c: char)
    requires
        is_octal_digit_char(c),
    ensures
        octal_digit_char(octal_char_value(c)) == c,
{
}

/// Tests whether a character is an octal digit.
fn is_octal_char(c: char) -> (r: bool)
    ensures
        r == is_octal_digit_char(c),
{
    c == '0' || c == '1' || c == '2' || c == '3' || c == '4' || c == '5' || c == '6' || c == '7'
}

/// Converts an octal digit character into its numeric value.
fn octal_char_to_digit(c: char) -> (d: u8)
    requires
        is_octal_digit_char(c),
    ensures
        d == octal_char_value(c),
        d <= 7,
{
    if c == '0' {
        0
    } else if c == '1' {
        1
    } else if c == '2' {
        2
    } else if c == '3' {
        3
    } else if c == '4' {
        4
    } else if c == '5' {
        5
    } else if c == '6' {
        6
    } else {
        7
    }
}

/// A parsed octal permission: one digit (0–7) per triplet, plus the
/// special-bit digit (setuid/setgid/sticky).
#[derive(Debug, PartialEq, Eq, Structural, Clone, Copy)]
pub struct Octal {
    pub special: u8,
    pub user: u8,
    pub group: u8,
    pub other: u8,
}

impl Octal {
    /// All four digits are in range.
    pub open spec fn wf(self) -> bool {
        &&& self.special <= 7
        &&& self.user <= 7
        &&& self.group <= 7
        &&& self.other <= 7
    }

    /// This record holds exactly the digits written in the octal string `s`.
    pub open spec fn parsed_from(self, s: Seq<char>) -> bool {
        let body = octal_body(s);
        &&& self.special == octal_special_value(s)
        &&& self.user == octal_char_value(body[0])
        &&& self.group == octal_char_value(body[1])
        &&& self.other == octal_char_value(body[2])
    }

    /// Checks whether the given permission string is a valid permission in
    /// the octal notation.
    pub fn is_valid(permission: &str) -> (r: bool)
        ensures
            r == valid_octal(permission@),
    {
        let n = permission.unicode_len();
        if n != 3 && n != 4 {
            return false;
        }
        let mut i: usize = 0;
        while i < n
            invariant
                n == permission@.len(),
                n == 3 || n == 4,
                i <= n,
                forall|k: int| 0 <= k < i ==> is_octal_digit_char(#[trigger] permission@[k]),
            decreases n - i,
        {
            let c = permission.get_char(i);
            if !is_octal_char(c) {
                return false;
            }
            i = i + 1;
        }
        true
    }

    /// Tries to parse the permission string into the Octal struct.
    pub fn from_str(permission: &str) -> (r: Result<Self, ParseError>)
        ensures
            r is Ok <==> valid_octal(permission@),
            valid_octal(permission@) ==> (r matches Ok(o) && o.parsed_from(permission@)
                && o.wf()),
            !valid_octal(permission@) ==> (r matches Err(e) && e
                == ParseError::InvalidOctalPermission),
    {
        if !Self::is_valid(permission) {
            return Err(ParseError::InvalidOctalPermission);
        }

        let n = permission.unicode_len();
        let off: usize = if n == 4 {
            1
        } else {
            0
        };
        let special: u8 = if n == 4 {
            octal_char_to_digit(permission.get_char(0))
        } else {
            0
        };
        let user = octal_char_to_digit(permission.get_char(off));
        let group = octal_char_to_digit(permission.get_char(off + 1));
        let other = octal_char_to_digit(permission.get_char(off + 2));

        proof {
            assert(octal_body(permission@)[0] == permission@[off as int]);
            assert(octal_body(permission@)[1] == permission@[off + 1]);
            assert(octal_body(permission@)[2] == permission@[off + 2]);
        }
        Ok(Octal { special, user, group, other })
    }
}

} // verus!
