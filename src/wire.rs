//! The wire form of licenses and exceptions: the bare identifier as a JSON
//! string. Decoding resolves the identifier through the catalog.

use vstd::prelude::*;
use crate::catalog::Catalog;
use crate::entry::{ExceptionEntry, LicenseEntry};
use crate::table::find_key;

verus! {

#[verifier::external_type_specification]
#[verifier::external_body]
pub struct ExJsonError(serde_json::Error);

/// A lowercase hexadecimal digit.
pub open spec fn hex_digit(n: u32) -> char {
    "0123456789abcdef"@[n as int]
}

/// How one character is written inside a JSON string: `"` and `\` and the
/// control characters are escaped, with the short forms where JSON has them.
pub open spec fn json_escape_char(c: char) -> Seq<char> {
    if c == '"' {
        seq!['\\', '"']
    } else if c == '\\' {
        seq!['\\', '\\']
    } else if c == '\u{8}' {
        seq!['\\', 'b']
    } else if c == '\t' {
        seq!['\\', 't']
    } else if c == '\n' {
        seq!['\\', 'n']
    } else if c == '\u{c}' {
        seq!['\\', 'f']
    } else if c == '\r' {
        seq!['\\', 'r']
    } else if (c as u32) < 0x20 {
        let n = c as u32;
        seq!['\\', 'u', '0', '0'] + seq![hex_digit(n / 16)] + seq![hex_digit(n % 16)]
    } else {
        seq![c]
    }
}

/// The characters of `s`, each escaped.
pub open spec fn json_escape(s: Seq<char>) -> Seq<char>
    decreases s.len(),
{
    if s.len() == 0 {
        Seq::empty()
    } else {
        json_escape(s.drop_last()) + json_escape_char(s.last())
    }
}

/// `s` as a JSON string literal.
pub open spec fn json_string(s: Seq<char>) -> Seq<char> {
    seq!['"'] + json_escape(s) + seq!['"']
}

/// Relies on `serde_json::to_string` on a `str`: it writes into a `Vec<u8>`,
/// which cannot fail, and gives the string quoted, escaped by serde_json's
/// escape table.
#[verifier::external_body]
fn encode_str(s: &str) -> (r: Result<String, serde_json::Error>)
    ensures
        r is Ok,
        r matches Ok(j) ==> j@ == json_string(s@),
{
    serde_json::to_string(s)
}

/// The string that `serde_json::from_str::<String>` reads from a JSON text,
/// where it reads one.
pub uninterp spec fn json_decoded(j: Seq<char>) -> Option<Seq<char>>;

/// Relies on `serde_json::from_str::<String>`: reads one JSON string literal;
/// whether it succeeds, and with what, depends on the text alone.
#[verifier::external_body]
fn decode_str(j: &str) -> (r: Result<String, serde_json::Error>)
    ensures
        r is Ok <==> json_decoded(j@) is Some,
        r matches Ok(s) ==> json_decoded(j@) == Some(s@),
{
    serde_json::from_str::<String>(j)
}

/// Why a wire form could not be read.
#[derive(Clone, Copy, Debug, PartialEq, Eq, Structural)]
pub enum WireError {
    /// The text is not a JSON string.
    Malformed,
    /// The string is not an identifier of the catalog.
    NotFound,
}

impl WireError {
    /// What went wrong, for display.
    pub fn message(&self) -> (r: &'static str)
        ensures
            *self == WireError::Malformed ==> r@ == "expected an SPDX id as a JSON string"@,
            *self == WireError::NotFound ==> r@ == "SPDX id not found"@,
    {
        match self {
            WireError::Malformed => "expected an SPDX id as a JSON string",
            WireError::NotFound => "SPDX id not found",
        }
    }
}

/// An identifier as a JSON string.
pub fn id_to_json(id: &str) -> (r: String)
    ensures
        r@ == json_string(id@),
{
    match encode_str(id) {
        Ok(j) => j,
        Err(_) => String::new(),
    }
}

/// The wire form of a license: its identifier as a JSON string.
pub fn license_to_json(license: &LicenseEntry) -> (r: String)
    ensures
        r@ == json_string(license.id@),
{
    id_to_json(license.id.as_str())
}

/// The wire form of an exception: its identifier as a JSON string.
pub fn exception_to_json(exception: &ExceptionEntry) -> (r: String)
    ensures
        r@ == json_string(exception.id@),
{
    id_to_json(exception.id.as_str())
}

/// Reads a license from its wire form: a JSON string holding its identifier.
pub fn license_from_json<'a>(catalog: &'a Catalog, j: &str) -> (r: Result<&'a LicenseEntry, WireError>)
    ensures
        json_decoded(j@) is None ==> r == Err::<&LicenseEntry, WireError>(WireError::Malformed),
        json_decoded(j@) matches Some(id) ==> match r {
            Ok(e) => find_key(catalog.license_entries(), id) == Some(*e),
            Err(e) => e == WireError::NotFound && find_key(catalog.license_entries(), id) is None,
        },
{
    let id = match decode_str(j) {
        Ok(id) => id,
        Err(_) => return Err(WireError::Malformed),
    };
    match catalog.parse_license(id.as_str()) {
        Ok(e) => Ok(e),
        Err(_) => Err(WireError::NotFound),
    }
}

/// Reads an exception from its wire form: a JSON string holding its
/// identifier.
pub fn exception_from_json<'a>(catalog: &'a Catalog, j: &str) -> (r: Result<&'a ExceptionEntry, WireError>)
    ensures
        json_decoded(j@) is None ==> r == Err::<&ExceptionEntry, WireError>(WireError::Malformed),
        json_decoded(j@) matches Some(id) ==> match r {
            Ok(e) => find_key(catalog.exception_entries(), id) == Some(*e),
            Err(e) => e == WireError::NotFound && find_key(catalog.exception_entries(), id) is None,
        },
{
    let id = match decode_str(j) {
        Ok(id) => id,
        Err(_) => return Err(WireError::Malformed),
    };
    match catalog.parse_exception(id.as_str()) {
        Ok(e) => Ok(e),
        Err(_) => Err(WireError::NotFound),
    }
}

} // verus!
