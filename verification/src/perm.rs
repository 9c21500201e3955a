//! The canonical permission model: one `GroupPermission` per triplet, the
//! special-bit kinds, and the `FilePermission` that both parsers build and
//! both notations are rendered from.

use vstd::prelude::*;
use crate::ParseError;
use crate::octal::{
    Octal, lemma_octal_char_round_trip, octal_body, octal_char_value, octal_digit_char,
    octal_special_value, valid_octal,
};
use crate::symbolic::{
    Symbolic, special_upper, symbolic_body, symbolic_filetype_char, valid_symbolic, valid_triplet,
};
use crate::utils::{
    bool_arr_to_octal_digit, digit_of_bits, exec_slot_meaning, filetype_label,
    get_filetype_from_char, lemma_octal_digit_round_trip, octal_digit_bits, parse_octal_digit,
    parse_symbolic_execution_bit,
};

verus! {

/// One special permission bit, tied to its triplet position: setuid for
/// user, setgid for group, the sticky bit for other; `Nil` when unset.
#[derive(Debug, PartialEq, Eq, Structural, Clone, Copy)]
pub enum SpecialPermission {
    Nil,
    SGID,
    SUID,
    StickyBit,
}

/// The notation a `FilePermission` was parsed from.
#[derive(Debug, PartialEq, Eq, Structural, Clone, Copy)]
pub enum SourceFormat {
    Octal,
    Symbolic,
}

/// The permission triplet decoded from three symbolic characters.
pub open spec fn triplet_of_chars(t: Seq<char>) -> GroupPermission {
    GroupPermission {
        read: t[0] == 'r',
        write: t[1] == 'w',
        execute: exec_slot_meaning(t[2]).0,
        special: exec_slot_meaning(t[2]).1,
    }
}

/// The permission triplet decoded from an octal digit plus the triplet's
/// special flag.
pub open spec fn triplet_of_digit(digit: u8, special: bool) -> GroupPermission {
    GroupPermission {
        read: octal_digit_bits(digit)[0],
        write: octal_digit_bits(digit)[1],
        execute: octal_digit_bits(digit)[2],
        special: special,
    }
}

/// The character rendered into a triplet's execution/special slot: the
/// inverse of `exec_slot_meaning` for the triplet's special character `sc`.
pub open spec fn exec_slot_char(execute: bool, special: bool, sc: char) -> char {
    if !special {
        if execute {
            'x'
        } else {
            '-'
        }
    } else if execute {
        sc
    } else {
        special_upper(sc)
    }
}

/// The three characters rendering a triplet in symbolic notation, with `sc`
/// the triplet's special character (`s` for user and group, `t` for other).
pub open spec fn triplet_chars(g: GroupPermission, sc: char) -> Seq<char> {
    seq![
        if g.read {
            'r'
        } else {
            '-'
        },
        if g.write {
            'w'
        } else {
            '-'
        },
        exec_slot_char(g.execute, g.special, sc),
    ]
}

/// The special-kind triple derived from the three positional special flags:
/// index 0 is setuid, 1 is setgid, 2 is the sticky bit.
pub open spec fn special_kind_array(user: bool, group: bool, other: bool) -> Seq<
    SpecialPermission,
> {
    seq![
        if user {
            SpecialPermission::SUID
        } else {
            SpecialPermission::Nil
        },
        if group {
            SpecialPermission::SGID
        } else {
            SpecialPermission::Nil
        },
        if other {
            SpecialPermission::StickyBit
        } else {
            SpecialPermission::Nil
        },
    ]
}

/// Derives the special-kind triple from the positional special flags
/// `[user, group, other]`.
pub fn get_special_perms_array(flags: &[bool; 3]) -> (r: [SpecialPermission; 3])
    ensures
        r@ == special_kind_array(flags@[0], flags@[1], flags@[2]),
{
    let r: [SpecialPermission; 3] = [
        if flags[0] {
            SpecialPermission::SUID
        } else {
            SpecialPermission::Nil
        },
        if flags[1] {
            SpecialPermission::SGID
        } else {
            SpecialPermission::Nil
        },
        if flags[2] {
            SpecialPermission::StickyBit
        } else {
            SpecialPermission::Nil
        },
    ];
    proof {
        assert(r@ =~= special_kind_array(flags@[0], flags@[1], flags@[2]));
    }
    r
}

/// A parsed triplet (user, group or other): the read/write/execute bits plus
/// whether this position's special bit is set.
#[derive(Debug, PartialEq, Eq, Structural, Clone, Copy)]
pub struct GroupPermission {
    pub read: bool,
    pub write: bool,
    pub execute: bool,
    pub special: bool,
}

impl GroupPermission {
    /// Tries to parse a 3-character symbolic triplet (e.g. `rwx`) into a
    /// `GroupPermission`.
    pub fn from_symbolic_bits(bits: &str) -> (r: Result<Self, ParseError>)
        ensures
            r is Ok <==> bits@.len() == 3,
            bits@.len() == 3 ==> (r matches Ok(g) && g == triplet_of_chars(bits@)),
            bits@.len() != 3 ==> (r matches Err(e) && e
                == ParseError::InvalidSymbolicPermission),
    {
        let n = bits.unicode_len();
        if n != 3 {
            return Err(ParseError::InvalidSymbolicPermission);
        }
        let r = bits.get_char(0);
        let w = bits.get_char(1);
        let x = bits.get_char(2);
        let (execute, special) = parse_symbolic_execution_bit(x);
        Ok(GroupPermission { read: r == 'r', write: w == 'w', execute, special })
    }

    /// Parses an octal digit (0–7) plus this position's special flag into a
    /// `GroupPermission`.
    pub fn from_octal_digit(digit: u8, is_special: bool) -> (r: Result<Self, ParseError>)
        requires
            digit <= 7,
        ensures
            r matches Ok(g) && g == triplet_of_digit(digit, is_special),
    {
        let bits = parse_octal_digit(digit).unwrap();
        Ok(GroupPermission { read: bits[0], write: bits[1], execute: bits[2], special: is_special })
    }

    /// Renders the triplet as its three symbolic characters, with
    /// `special_char` the triplet's special character (`s` for user and
    /// group, `t` for other).
    pub fn to_symbolic_str(&self, special_char: &char) -> (r: String)
        requires
            *special_char == 's' || *special_char == 't',
        ensures
            r@ == triplet_chars(*self, *special_char),
    {
        let mut s = String::new();
        s.append(if self.read {
            "r"
        } else {
            "-"
        });
        s.append(if self.write {
            "w"
        } else {
            "-"
        });
        if !self.special {
            s.append(if self.execute {
                "x"
            } else {
                "-"
            });
        } else if self.execute {
            s.append(if *special_char == 's' {
                "s"
            } else {
                "t"
            });
        } else {
            s.append(if *special_char == 's' {
                "S"
            } else {
                "T"
            });
        }
        proof {
            reveal_strlit("r");
            reveal_strlit("w");
            reveal_strlit("x");
            reveal_strlit("-");
            reveal_strlit("s");
            reveal_strlit("t");
            reveal_strlit("S");
            reveal_strlit("T");
            assert(s@ =~= triplet_chars(*self, *special_char));
        }
        s
    }

    /// Packs the triplet's read/write/execute bits into its octal digit.
    pub fn to_octal_digit(&self) -> (d: u8)
        ensures
            d == digit_of_bits(self.read, self.write, self.execute),
            d <= 7,
    {
        bool_arr_to_octal_digit(&self.as_rwx_array())
    }

    /// Returns the triplet's `[read, write, execute]` bits.
    pub fn as_rwx_array(&self) -> (r: [bool; 3])
        ensures
            r@ == seq![self.read, self.write, self.execute],
    {
        let r: [bool; 3] = [self.read, self.write, self.execute];
        proof {
            assert(r@ =~= seq![self.read, self.write, self.execute]);
        }
        r
    }
}

/// Relies on `String::from(char)`: the one-character string holding exactly
/// the given character.
#[verifier::external_body]
fn char_to_string(c: char) -> (r: String)
    ensures
        r@ == seq![c],
{
    String::from(c)
}

/// Appends the character of an octal digit value to `s`.
fn append_octal_digit(s: &mut String, d: u8)
    requires
        d <= 7,
    ensures
        final(s)@ == old(s)@ + seq![octal_digit_char(d as int)],
{
    let digit: &str = if d == 0 {
        "0"
    } else if d == 1 {
        "1"
    } else if d == 2 {
        "2"
    } else if d == 3 {
        "3"
    } else if d == 4 {
        "4"
    } else if d == 5 {
        "5"
    } else if d == 6 {
        "6"
    } else {
        "7"
    };
    s.append(digit);
    proof {
        reveal_strlit("0");
        reveal_strlit("1");
        reveal_strlit("2");
        reveal_strlit("3");
        reveal_strlit("4");
        reveal_strlit("5");
        reveal_strlit("6");
        reveal_strlit("7");
        assert(s@ =~= old(s)@ + seq![octal_digit_char(d as int)]);
    }
}

/// A parsed file permission: the three triplets, the filetype, the
/// special-kind triple, and the notation it came from. Both notations can be
/// rendered back from it.
#[derive(Debug, PartialEq, Eq)]
pub struct FilePermission {
    pub user: GroupPermission,
    pub group: GroupPermission,
    pub other: GroupPermission,
    pub filetype: String,
    pub filetype_char: char,
    pub source_format: Option<SourceFormat>,
    pub special: [SpecialPermission; 3],
}

impl FilePermission {
    /// The derived fields agree with the triplets: the special-kind triple
    /// reflects the positional special flags, and the filetype label matches
    /// the filetype character.
    pub open spec fn wf(self) -> bool {
        &&& self.special@ == special_kind_array(
            self.user.special,
            self.group.special,
            self.other.special,
        )
        &&& self.filetype@ == filetype_label(self.filetype_char)
    }

    /// The symbolic rendering of this permission: the filetype character
    /// followed by the three triplets.
    pub open spec fn spec_symbolic_str(self) -> Seq<char> {
        seq![self.filetype_char] + triplet_chars(self.user, 's') + triplet_chars(self.group, 's')
            + triplet_chars(self.other, 't')
    }

    /// The octal rendering of this permission: the special digit followed by
    /// one digit per triplet.
    pub open spec fn spec_octal_str(self) -> Seq<char> {
        seq![
            octal_digit_char(
                digit_of_bits(
                    self.special@[0] != SpecialPermission::Nil,
                    self.special@[1] != SpecialPermission::Nil,
                    self.special@[2] != SpecialPermission::Nil,
                ),
            ),
            octal_digit_char(digit_of_bits(self.user.read, self.user.write, self.user.execute)),
            octal_digit_char(digit_of_bits(self.group.read, self.group.write, self.group.execute)),
            octal_digit_char(digit_of_bits(self.other.read, self.other.write, self.other.execute)),
        ]
    }

    /// This model is the one the symbolic string `s` parses to.
    pub open spec fn parsed_from_symbolic(self, s: Seq<char>) -> bool {
        let body = symbolic_body(s);
        &&& self.user == triplet_of_chars(body.subrange(0, 3))
        &&& self.group == triplet_of_chars(body.subrange(3, 6))
        &&& self.other == triplet_of_chars(body.subrange(6, 9))
        &&& self.filetype_char == symbolic_filetype_char(s)
        &&& self.filetype@ == filetype_label(symbolic_filetype_char(s))
        &&& self.source_format == Some(SourceFormat::Symbolic)
        &&& self.special@ == special_kind_array(
            self.user.special,
            self.group.special,
            self.other.special,
        )
    }

    /// This model is the one the octal string `s` parses to.
    pub open spec fn parsed_from_octal(self, s: Seq<char>) -> bool {
        let body = octal_body(s);
        let spd = octal_special_value(s) as u8;
        &&& self.user == triplet_of_digit(
            octal_char_value(body[0]) as u8,
            octal_digit_bits(spd)[0],
        )
        &&& self.group == triplet_of_digit(
            octal_char_value(body[1]) as u8,
            octal_digit_bits(spd)[1],
        )
        &&& self.other == triplet_of_digit(
            octal_char_value(body[2]) as u8,
            octal_digit_bits(spd)[2],
        )
        &&& self.filetype_char == '-'
        &&& self.filetype@ == filetype_label('-')
        &&& self.source_format == Some(SourceFormat::Octal)
        &&& self.special@ == special_kind_array(
            self.user.special,
            self.group.special,
            self.other.special,
        )
    }

    /// Builds the canonical model from a parsed symbolic record.
    pub fn from_symbolic(sym: Symbolic) -> (r: Self)
        requires
            sym.user@.len() == 3,
            sym.group@.len() == 3,
            sym.other@.len() == 3,
        ensures
            r.user == triplet_of_chars(sym.user@),
            r.group == triplet_of_chars(sym.group@),
            r.other == triplet_of_chars(sym.other@),
            r.filetype_char == sym.filetype,
            r.filetype@ == filetype_label(sym.filetype),
            r.source_format == Some(SourceFormat::Symbolic),
            r.special@ == special_kind_array(r.user.special, r.group.special, r.other.special),
            r.wf(),
    {
        let user = GroupPermission::from_symbolic_bits(sym.user.as_str()).unwrap();
        let group = GroupPermission::from_symbolic_bits(sym.group.as_str()).unwrap();
        let other = GroupPermission::from_symbolic_bits(sym.other.as_str()).unwrap();

        let special = get_special_perms_array(&[user.special, group.special, other.special]);
        let filetype = get_filetype_from_char(sym.filetype);

        FilePermission {
            user,
            group,
            other,
            filetype,
            filetype_char: sym.filetype,
            source_format: Some(SourceFormat::Symbolic),
            special,
        }
    }

    /// Builds the canonical model from a parsed octal record. Octal notation
    /// carries no filetype, so the filetype character defaults to `-`.
    pub fn from_octal(octal: Octal) -> (r: Self)
        requires
            octal.wf(),
        ensures
            r.user == triplet_of_digit(octal.user, octal_digit_bits(octal.special)[0]),
            r.group == triplet_of_digit(octal.group, octal_digit_bits(octal.special)[1]),
            r.other == triplet_of_digit(octal.other, octal_digit_bits(octal.special)[2]),
            r.filetype_char == '-',
            r.filetype@ == filetype_label('-'),
            r.source_format == Some(SourceFormat::Octal),
            r.special@ == special_kind_array(r.user.special, r.group.special, r.other.special),
            r.wf(),
    {
        let special_bits = parse_octal_digit(octal.special).unwrap();

        let user = GroupPermission::from_octal_digit(octal.user, special_bits[0]).unwrap();
        let group = GroupPermission::from_octal_digit(octal.group, special_bits[1]).unwrap();
        let other = GroupPermission::from_octal_digit(octal.other, special_bits[2]).unwrap();

        let special = get_special_perms_array(&special_bits);
        let filetype = get_filetype_from_char('-');

        FilePermission {
            user,
            group,
            other,
            filetype,
            filetype_char: '-',
            source_format: Some(SourceFormat::Octal),
            special,
        }
    }

    /// Renders the permission in symbolic notation.
    pub fn to_symbolic_str(&self) -> (r: String)
        ensures
            r@ == self.spec_symbolic_str(),
    {
        let mut s = char_to_string(self.filetype_char);
        let user = self.user.to_symbolic_str(&'s');
        let group = self.group.to_symbolic_str(&'s');
        let other = self.other.to_symbolic_str(&'t');
        s.append(user.as_str());
        s.append(group.as_str());
        s.append(other.as_str());
        proof {
            assert(s@ =~= self.spec_symbolic_str());
        }
        s
    }

    /// Renders each triplet's three symbolic characters, as
    /// `[user, group, other]`.
    pub fn to_symbolic_bits_arr(&self) -> (r: [String; 3])
        ensures
            r@.len() == 3,
            r@[0]@ == triplet_chars(self.user, 's'),
            r@[1]@ == triplet_chars(self.group, 's'),
            r@[2]@ == triplet_chars(self.other, 't'),
    {
        [
            self.user.to_symbolic_str(&'s'),
            self.group.to_symbolic_str(&'s'),
            self.other.to_symbolic_str(&'t'),
        ]
    }

    /// Renders the permission in octal notation, special digit first.
    pub fn to_octal_str(&self) -> (r: String)
        ensures
            r@ == self.spec_octal_str(),
    {
        let special_flags: [bool; 3] = [
            !matches!(self.special[0], SpecialPermission::Nil),
            !matches!(self.special[1], SpecialPermission::Nil),
            !matches!(self.special[2], SpecialPermission::Nil),
        ];
        let special_digit = bool_arr_to_octal_digit(&special_flags);

        let mut s = String::new();
        append_octal_digit(&mut s, special_digit);
        append_octal_digit(&mut s, self.user.to_octal_digit());
        append_octal_digit(&mut s, self.group.to_octal_digit());
        append_octal_digit(&mut s, self.other.to_octal_digit());
        proof {
            assert(s@ =~= self.spec_octal_str());
        }
        s
    }

    /// Returns the triplets as `[user, group, other]`.
    pub fn to_perm_group_array(&self) -> (r: [&GroupPermission; 3])
        ensures
            r@.len() == 3,
            r@[0] == self.user,
            r@[1] == self.group,
            r@[2] == self.other,
    {
        [&self.user, &self.group, &self.other]
    }
}

/// Law: rendering the triplet decoded from a valid symbolic triplet yields
/// the same three characters, for both special-character alphabets.
pub proof fn lemma_triplet_round_trip(t: Seq<char>, sc: char)
    requires
        valid_triplet(t, sc),
        sc == 's' || sc == 't',
    ensures
        triplet_chars(triplet_of_chars(t), sc) == t,
{
    assert(triplet_chars(triplet_of_chars(t), sc) =~= t);
}

/// Law: for every valid 10-character symbolic string, parsing and rendering
/// back to symbolic notation returns the same string. (A 9-character input
/// is excluded: it gains the default `-` filetype character.)
pub proof fn lemma_symbolic_round_trip(s: Seq<char>, p: FilePermission)
    requires
        valid_symbolic(s),
        s.len() == 10,
        p.parsed_from_symbolic(s),
    ensures
        p.spec_symbolic_str() == s,
{
    let body = symbolic_body(s);
    lemma_triplet_round_trip(body.subrange(0, 3), 's');
    lemma_triplet_round_trip(body.subrange(3, 6), 's');
    lemma_triplet_round_trip(body.subrange(6, 9), 't');
    assert(p.spec_symbolic_str() =~= s);
}

/// Law: for every valid 4-digit octal string, parsing and rendering back to
/// octal notation returns the same string. (A 3-digit input is excluded: it
/// gains the default special digit 0 in front.)
pub proof fn lemma_octal_round_trip(s: Seq<char>, p: FilePermission)
    requires
        valid_octal(s),
        s.len() == 4,
        p.parsed_from_octal(s),
    ensures
        p.spec_octal_str() == s,
{
    let body = octal_body(s);
    assert(body[0] == s[1] && body[1] == s[2] && body[2] == s[3]);
    let spd = octal_special_value(s) as u8;
    lemma_octal_digit_round_trip(spd);
    lemma_octal_digit_round_trip(octal_char_value(body[0]) as u8);
    lemma_octal_digit_round_trip(octal_char_value(body[1]) as u8);
    lemma_octal_digit_round_trip(octal_char_value(body[2]) as u8);
    lemma_octal_char_round_trip(s[0]);
    lemma_octal_char_round_trip(s[1]);
    lemma_octal_char_round_trip(s[2]);
    lemma_octal_char_round_trip(s[3]);
    assert(p.spec_octal_str() =~= s);
}

/// Law: two well-formed permissions whose triplets carry the same
/// read/write/execute bits and no special bits render the same octal string
/// and the same symbolic triplet characters, whatever notation each was
/// parsed from; only the filetype character may differ.
pub proof fn lemma_cross_format_consistency(p: FilePermission, q: FilePermission)
    requires
        p.wf(),
        q.wf(),
        p.user == q.user,
        p.group == q.group,
        p.other == q.other,
        !p.user.special,
        !p.group.special,
        !p.other.special,
    ensures
        p.spec_octal_str() == q.spec_octal_str(),
        p.spec_symbolic_str().skip(1) == q.spec_symbolic_str().skip(1),
{
    assert(p.spec_octal_str() =~= q.spec_octal_str());
    assert(p.spec_symbolic_str().skip(1) =~= q.spec_symbolic_str().skip(1));
}

} // verus!
