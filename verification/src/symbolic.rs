//! The symbolic notation parser: validates and decomposes strings such as
//! `drwxr-xr-x` into a filetype character plus three 3-character triplets.

use vstd::prelude::*;
use crate::ParseError;

verus! {

/// The characters allowed in the leading filetype slot of a symbolic string.
pub open spec fn is_filetype_char(c: char) -> bool {
    c == 'b' || c == 'c' || c == 'd' || c == 'l' || c == 'p' || c == 's' || c == '-'
}

/// The uppercase form of a triplet's special character (`s` or `t`).
pub open spec fn special_upper(c: char) -> char {
    if c == 's' {
        'S'
    } else {
        'T'
    }
}

/// One triplet of the symbolic grammar: `r` or `-`, then `w` or `-`, then the
/// execution/special slot, whose alphabet is `x`, `-`, or the triplet's
/// special character in either case (`s`/`S` for user and group, `t`/`T` for
/// other).
pub open spec fn valid_triplet(t: Seq<char>, special: char) -> bool {
    &&& t.len() == 3
    &&& (t[0] == 'r' || t[0] == '-')
    &&& (t[1] == 'w' || t[1] == '-')
    &&& (t[2] == 'x' || t[2] == special || t[2] == special_upper(special) || t[2] == '-')
}

/// The 9-character body of the symbolic grammar: user, group and other
/// triplets in that order.
pub open spec fn valid_symbolic_body(b: Seq<char>) -> bool {
    &&& b.len() == 9
    &&& valid_triplet(b.subrange(0, 3), 's')
    &&& valid_triplet(b.subrange(3, 6), 's')
    &&& valid_triplet(b.subrange(6, 9), 't')
}

/// The symbolic grammar: an optional filetype character followed by the
/// 9-character body.
pub open spec fn valid_symbolic(s: Seq<char>) -> bool {
    if s.len() == 10 {
        is_filetype_char(s[0]) && valid_symbolic_body(s.skip(1))
    } else {
        valid_symbolic_body(s)
    }
}

/// The 9-character body of a symbolic string (everything after the optional
/// filetype character).
pub open spec fn symbolic_body(s: Seq<char>) -> Seq<char> {
    if s.len() == 10 {
        s.skip(1)
    } else {
        s
    }
}

/// The filetype character of a symbolic string, `-` when it was omitted.
pub open spec fn symbolic_filetype_char(s: Seq<char>) -> char {
    if s.len() == 10 {
        s[0]
    } else {
        '-'
    }
}

/// Tests whether a character may stand in the filetype slot.
fn is_filetype(c: char) -> (r: bool)
    ensures
        r == is_filetype_char(c),
{
    c == 'b' || c == 'c' || c == 'd' || c == 'l' || c == 'p' || c == 's' || c == '-'
}

/// Checks the three characters starting at `off` against the triplet grammar
/// with the given special-character pair.
fn valid_triplet_at(s: &str, off: usize, lower: char, upper: char) -> (r: bool)
    requires
        off + 3 <= s@.len(),
        s@.len() <= usize::MAX,
        (lower == 's' && upper == 'S') || (lower == 't' && upper == 'T'),
    ensures
        r == valid_triplet(s@.subrange(off as int, off + 3), lower),
{
    let c0 = s.get_char(off);
    let c1 = s.get_char(off + 1);
    let c2 = s.get_char(off + 2);
    proof {
        let t = s@.subrange(off as int, off + 3);
        assert(t[0] == s@[off as int]);
        assert(t[1] == s@[off + 1]);
        assert(t[2] == s@[off + 2]);
    }
    (c0 == 'r' || c0 == '-') && (c1 == 'w' || c1 == '-') && (c2 == 'x' || c2 == lower || c2
        == upper || c2 == '-')
}

/// A parsed symbolic permission: the filetype character and the raw
/// 3-character triplet of each of user, group and other.
#[derive(Debug, PartialEq, Eq)]
pub struct Symbolic {
    pub filetype: char,
    pub user: String,
    pub group: String,
    pub other: String,
}

impl Symbolic {
    /// The triplets have the grammar's shape and the filetype character is
    /// from the filetype alphabet.
    pub open spec fn wf(self) -> bool {
        &&& valid_triplet(self.user@, 's')
        &&& valid_triplet(self.group@, 's')
        &&& valid_triplet(self.other@, 't')
        &&& is_filetype_char(self.filetype)
    }

    /// This record holds exactly the slots of the symbolic string `s`.
    pub open spec fn parsed_from(self, s: Seq<char>) -> bool {
        let body = symbolic_body(s);
        &&& self.filetype == symbolic_filetype_char(s)
        &&& self.user@ == body.subrange(0, 3)
        &&& self.group@ == body.subrange(3, 6)
        &&& self.other@ == body.subrange(6, 9)
    }

    /// Checks whether the given permission string is a valid permission in
    /// the symbolic notation.
    pub fn is_valid(permission: &str) -> (r: bool)
        ensures
            r == valid_symbolic(permission@),
    {
        let n = permission.unicode_len();
        if n == 9 {
            valid_triplet_at(permission, 0, 's', 'S') && valid_triplet_at(permission, 3, 's', 'S')
                && valid_triplet_at(permission, 6, 't', 'T')
        } else if n == 10 {
            proof {
                let s = permission@;
                assert(s.subrange(1, 4) =~= s.skip(1).subrange(0, 3));
                assert(s.subrange(4, 7) =~= s.skip(1).subrange(3, 6));
                assert(s.subrange(7, 10) =~= s.skip(1).subrange(6, 9));
            }
            is_filetype(permission.get_char(0)) && valid_triplet_at(permission, 1, 's', 'S')
                && valid_triplet_at(permission, 4, 's', 'S') && valid_triplet_at(
                permission,
                7,
                't',
                'T',
            )
        } else {
            false
        }
    }

    /// Tries to parse the permission string into the Symbolic struct.
    pub fn from_str(permission: &str) -> (r: Result<Self, ParseError>)
        ensures
            r is Ok <==> valid_symbolic(permission@),
            valid_symbolic(permission@) ==> (r matches Ok(sym) && sym.parsed_from(permission@)
                && sym.wf()),
            !valid_symbolic(permission@) ==> (r matches Err(e) && e
                == ParseError::InvalidSymbolicPermission),
    {
        if !Self::is_valid(permission) {
            return Err(ParseError::InvalidSymbolicPermission);
        }

        let n = permission.unicode_len();
        let filetype: char = if n == 10 {
            permission.get_char(0)
        } else {
            '-'
        };
        let off: usize = if n == 10 {
            1
        } else {
            0
        };
        let user = permission.substring_char(off, off + 3).to_owned();
        let group = permission.substring_char(off + 3, off + 6).to_owned();
        let other = permission.substring_char(off + 6, off + 9).to_owned();

        proof {
            let s = permission@;
            let body = symbolic_body(s);
            assert(s.subrange(off as int, off + 3) =~= body.subrange(0, 3));
            assert(s.subrange(off + 3, off + 6) =~= body.subrange(3, 6));
            assert(s.subrange(off + 6, off + 9) =~= body.subrange(6, 9));
        }
        Ok(Symbolic { filetype, user, group, other })
    }
}

} // verus!
