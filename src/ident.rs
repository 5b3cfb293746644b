//! Symbolic names derived from SPDX identifiers, usable as Rust type names.

use vstd::prelude::*;
use vstd::string::{StrSliceExecFns, StringExecFns};
use crate::text::{chars_of, str_eq};

verus! {

/// What `reword::pascal_case` makes of a string.
pub uninterp spec fn pascal_case_of(s: Seq<char>) -> Seq<char>;

/// Relies on `reword::pascal_case`: splits the input into words and joins
/// them in PascalCase; the result depends on the characters alone.
#[verifier::external_body]
fn pascal_case(s: &str) -> (r: String)
    ensures
        r@ == pascal_case_of(s@),
{
    reword::pascal_case(s)
}

/// What one character of a license identifier becomes: `-` and `.` turn into
/// `_`, and `+` into `_plus`.
pub open spec fn license_piece(c: char) -> Seq<char> {
    if c == '-' || c == '.' {
        seq!['_']
    } else if c == '+' {
        seq!['_', 'p', 'l', 'u', 's']
    } else {
        seq![c]
    }
}

/// What one character of an exception identifier becomes: `-` and `.` turn
/// into `_`.
pub open spec fn exception_piece(c: char) -> Seq<char> {
    if c == '-' || c == '.' {
        seq!['_']
    } else {
        seq![c]
    }
}

/// `s` with each character replaced by its piece.
pub open spec fn replaced(s: Seq<char>, license: bool) -> Seq<char>
    decreases s.len(),
{
    if s.len() == 0 {
        Seq::empty()
    } else {
        replaced(s.drop_last(), license) + if license {
            license_piece(s.last())
        } else {
            exception_piece(s.last())
        }
    }
}

/// The symbolic name of a license identifier. `0BSD` cannot start a type
/// name and becomes `Bsd0`.
pub open spec fn license_ident_of(id: Seq<char>) -> Seq<char> {
    let u = replaced(id, true);
    if u == "0BSD"@ {
        "Bsd0"@
    } else {
        pascal_case_of(u)
    }
}

/// The symbolic name of an exception identifier. `389-exception` cannot start
/// a type name and becomes `Exception389`.
pub open spec fn exception_ident_of(id: Seq<char>) -> Seq<char> {
    let u = replaced(id, false);
    if u == "389_exception"@ {
        "Exception389"@
    } else {
        pascal_case_of(u)
    }
}

/// `id` with its punctuation replaced as `replaced` says.
fn replace_punctuation(id: &str, license: bool) -> (r: String)
    ensures
        r@ == replaced(id@, license),
{
    let cs = chars_of(id);
    let mut out = String::new();
    let mut i: usize = 0;
    while i < cs.len()
        invariant
            cs@ == id@,
            i <= cs@.len(),
            out@ == replaced(cs@.take(i as int), license),
        decreases cs@.len() - i,
    {
        let c = cs[i];
        assert(cs@.take(i + 1).drop_last() =~= cs@.take(i as int));
        if c == '-' || c == '.' {
            out.append("_");
            proof { reveal_strlit("_"); }
        } else if license && c == '+' {
            out.append("_plus");
            proof { reveal_strlit("_plus"); }
        } else {
            let one = id.substring_char(i, i + 1);
            assert(one@ =~= seq![c]);
            out.append(one);
        }
        i = i + 1;
    }
    assert(cs@.take(cs@.len() as int) =~= cs@);
    out
}

/// The symbolic name of a license identifier.
pub fn license_ident(id: &str) -> (r: String)
    ensures
        r@ == license_ident_of(id@),
{
    let u = replace_punctuation(id, true);
    if str_eq(u.as_str(), "0BSD") {
        String::from_str("Bsd0")
    } else {
        pascal_case(u.as_str())
    }
}

/// The symbolic name of an exception identifier.
pub fn exception_ident(id: &str) -> (r: String)
    ensures
        r@ == exception_ident_of(id@),
{
    let u = replace_punctuation(id, false);
    if str_eq(u.as_str(), "389_exception") {
        String::from_str("Exception389")
    } else {
        pascal_case(u.as_str())
    }
}

} // verus!
