//! Resolution of a delimiter argument to a single byte.

use vstd::prelude::*;
use vstd::string::*;

verus! {

/// The byte named by the text `s`: the two characters `\t` name a tab, and
/// any text of exactly one byte names that byte.
pub open spec fn delimiter_of(s: Seq<u8>) -> Option<u8> {
    if s == seq![92u8, 116u8] {
        Some(9u8)
    } else if s.len() == 1 {
        Some(s[0])
    } else {
        None
    }
}

/// The message for a delimiter that names no single byte.
pub open spec fn delimiter_error_text(s: Seq<char>) -> Seq<char> {
    "error parsing delimiter '"@ + s + "', note that only one-character delimiters are supported"@
}

/// Resolves a delimiter argument to exactly one byte.
pub fn parse_delimiter(delimiter_str: &str) -> (r: Result<u8, String>)
    ensures
        delimiter_of(delimiter_str.spec_bytes()) matches Some(b) ==> r == Ok::<u8, String>(b),
        delimiter_of(delimiter_str.spec_bytes()) is None ==> (r matches Err(m) && m@
            == delimiter_error_text(delimiter_str@)),
{
    let b = delimiter_str.as_bytes();
    if b.len() == 2 && b[0] == 92u8 && b[1] == 116u8 {
        assert(b@ =~= seq![92u8, 116u8]);
        Ok(9u8)
    } else if b.len() == 1 {
        assert(b@ != seq![92u8, 116u8]);
        Ok(b[0])
    } else {
        assert(b@ != seq![92u8, 116u8]) by {
            if b.len() == 2 {
                assert(b@[0] != 92u8 || b@[1] != 116u8);
            }
        }
        let mut m = String::from_str("error parsing delimiter '");
        m.append(delimiter_str);
        m.append("', note that only one-character delimiters are supported");
        Err(m)
    }
}

} // verus!
