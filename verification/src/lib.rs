//! Parses Linux-style file permission strings — symbolic (`drwxr-xr-t`) and
//! octal (`1755`) — into a structured model and converts between the two
//! notations.

pub mod octal;
pub mod perm;
pub mod symbolic;
pub mod utils;

pub use octal::Octal;
pub use perm::{FilePermission, GroupPermission, SourceFormat, SpecialPermission};
pub use symbolic::Symbolic;

use vstd::prelude::*;

verus! {

/// The ways a permission string can fail to parse.
#[derive(Debug, PartialEq, Eq, Clone)]
pub enum ParseError {
    /// The input does not match the symbolic grammar.
    InvalidSymbolicPermission,
    /// The input does not match the octal grammar.
    InvalidOctalPermission,
    /// The input matches neither grammar; carries the offending input.
    InvalidPermission(String),
}

/// Parses a permission string in either notation into the canonical model:
/// the symbolic grammar is attempted first, then the octal one; when both
/// fail, the combined error carries the input.
pub fn parse(raw: &str) -> (r: Result<FilePermission, ParseError>)
    ensures
        r is Ok <==> (symbolic::valid_symbolic(raw@) || octal::valid_octal(raw@)),
        symbolic::valid_symbolic(raw@) ==> (r matches Ok(p) && p.parsed_from_symbolic(raw@)),
        !symbolic::valid_symbolic(raw@) && octal::valid_octal(raw@) ==> (r matches Ok(p)
            && p.parsed_from_octal(raw@)),
        !symbolic::valid_symbolic(raw@) && !octal::valid_octal(raw@) ==> (r matches Err(e)
            && e matches ParseError::InvalidPermission(m) && m@ == raw@),
        r matches Ok(p) ==> p.wf(),
{
    match Symbolic::from_str(raw) {
        Ok(sym) => Ok(FilePermission::from_symbolic(sym)),
        Err(_) => match Octal::from_str(raw) {
            Ok(oct) => Ok(FilePermission::from_octal(oct)),
            Err(_) => Err(ParseError::InvalidPermission(raw.to_owned())),
        },
    }
}

} // verus!
