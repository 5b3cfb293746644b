//! License and exception entries, the corpus records they are made from, and
//! the read-only views that consumers use.

use vstd::prelude::*;
use crate::catalog::{Field, Record};
use crate::ident::{exception_ident, exception_ident_of, license_ident, license_ident_of};
use crate::table::Keyed;

verus! {

/// One license record of the corpus, as read; any field may be absent.
#[derive(Debug)]
pub struct LicenseRecord {
    pub name: Option<String>,
    pub license_id: Option<String>,
    pub license_text: Option<String>,
    pub standard_license_header: Option<String>,
    pub license_comments: Option<String>,
    pub see_also: Option<Vec<String>>,
    pub is_osi_approved: Option<bool>,
    pub is_fsf_libre: Option<bool>,
    pub is_deprecated_license_id: Option<bool>,
}

/// One exception record of the corpus, as read; any field may be absent.
#[derive(Debug)]
pub struct ExceptionRecord {
    pub name: Option<String>,
    pub license_exception_id: Option<String>,
    pub license_exception_text: Option<String>,
    pub license_comments: Option<String>,
    pub see_also: Option<Vec<String>>,
    pub is_deprecated_license_id: Option<bool>,
}

/// A license of the catalog.
#[derive(Debug)]
pub struct LicenseEntry {
    /// The SPDX short identifier, such as `MIT`.
    pub id: String,
    /// The full name.
    pub name: String,
    /// The license text, verbatim.
    pub text: String,
    /// The standard license header, if the license has one.
    pub header: Option<String>,
    /// Free-text remarks.
    pub comments: Option<String>,
    /// Related references, in corpus order.
    pub see_also: Vec<String>,
    pub is_osi_approved: bool,
    pub is_fsf_libre: bool,
    pub is_deprecated: bool,
    /// A symbolic name for the license, usable as a Rust type name.
    pub ident: String,
}

/// A license exception of the catalog.
#[derive(Debug)]
pub struct ExceptionEntry {
    /// The SPDX exception identifier, such as `GCC-exception-3.1`.
    pub id: String,
    /// The full name.
    pub name: String,
    /// The exception text, verbatim.
    pub text: String,
    /// Free-text remarks.
    pub comments: Option<String>,
    /// Related references, in corpus order.
    pub see_also: Vec<String>,
    pub is_deprecated: bool,
    /// A symbolic name for the exception, usable as a Rust type name.
    pub ident: String,
}

/// Read access to a license.
pub trait License {
    /// The SPDX short identifier.
    fn id(&self) -> &str;

    /// The full name.
    fn name(&self) -> &str;

    /// The license text.
    fn text(&self) -> &str;

    /// The standard license header.
    fn header(&self) -> Option<&str>;

    /// Whether the OSI approved the license.
    fn is_osi_approved(&self) -> bool;

    /// Whether the FSF lists the license as free/libre.
    fn is_fsf_libre(&self) -> bool;

    /// Whether the identifier is deprecated.
    fn is_deprecated(&self) -> bool;

    /// The license comments.
    fn comments(&self) -> Option<&str>;

    /// Related references.
    fn see_also(&self) -> &[String];
}

/// Read access to a license exception.
pub trait Exception {
    /// The SPDX exception identifier.
    fn id(&self) -> &str;

    /// The full name.
    fn name(&self) -> &str;

    /// The exception text.
    fn text(&self) -> &str;

    /// Whether the identifier is deprecated.
    fn is_deprecated(&self) -> bool;

    /// The exception comments.
    fn comments(&self) -> Option<&str>;

    /// Related references.
    fn see_also(&self) -> &[String];
}

/// The string inside an optional one, borrowed.
fn borrow_opt(s: &Option<String>) -> (r: Option<&str>)
    ensures
        match r {
            Some(x) => s is Some && x@ == s->0@,
            None => s is None,
        },
{
    match s {
        Some(x) => Some(x.as_str()),
        None => None,
    }
}

impl License for LicenseEntry {
    fn id(&self) -> (r: &str)
        ensures
            r@ == self.id@,
    {
        self.id.as_str()
    }

    fn name(&self) -> (r: &str)
        ensures
            r@ == self.name@,
    {
        self.name.as_str()
    }

    fn text(&self) -> (r: &str)
        ensures
            r@ == self.text@,
    {
        self.text.as_str()
    }

    fn header(&self) -> (r: Option<&str>)
        ensures
            match r {
                Some(x) => self.header is Some && x@ == self.header->0@,
                None => self.header is None,
            },
    {
        borrow_opt(&self.header)
    }

    fn is_osi_approved(&self) -> (r: bool)
        ensures
            r == self.is_osi_approved,
    {
        self.is_osi_approved
    }

    fn is_fsf_libre(&self) -> (r: bool)
        ensures
            r == self.is_fsf_libre,
    {
        self.is_fsf_libre
    }

    fn is_deprecated(&self) -> (r: bool)
        ensures
            r == self.is_deprecated,
    {
        self.is_deprecated
    }

    fn comments(&self) -> (r: Option<&str>)
        ensures
            match r {
                Some(x) => self.comments is Some && x@ == self.comments->0@,
                None => self.comments is None,
            },
    {
        borrow_opt(&self.comments)
    }

    fn see_also(&self) -> (r: &[String])
        ensures
            r@ == self.see_also@,
    {
        self.see_also.as_slice()
    }
}

impl Exception for ExceptionEntry {
    fn id(&self) -> (r: &str)
        ensures
            r@ == self.id@,
    {
        self.id.as_str()
    }

    fn name(&self) -> (r: &str)
        ensures
            r@ == self.name@,
    {
        self.name.as_str()
    }

    fn text(&self) -> (r: &str)
        ensures
            r@ == self.text@,
    {
        self.text.as_str()
    }

    fn is_deprecated(&self) -> (r: bool)
        ensures
            r == self.is_deprecated,
    {
        self.is_deprecated
    }

    fn comments(&self) -> (r: Option<&str>)
        ensures
            match r {
                Some(x) => self.comments is Some && x@ == self.comments->0@,
                None => self.comments is None,
            },
    {
        borrow_opt(&self.comments)
    }

    fn see_also(&self) -> (r: &[String])
        ensures
            r@ == self.see_also@,
    {
        self.see_also.as_slice()
    }
}

/// An absent flag reads as `false`.
pub open spec fn flag(b: Option<bool>) -> bool {
    b == Some(true)
}

/// An absent list of references reads as empty.
pub open spec fn links(v: Option<Vec<String>>) -> Seq<String> {
    match v {
        Some(v) => v@,
        None => Seq::empty(),
    }
}

fn flag_of(b: Option<bool>) -> (r: bool)
    ensures
        r == flag(b),
{
    match b {
        Some(v) => v,
        None => false,
    }
}

fn links_of(v: Option<Vec<String>>) -> (r: Vec<String>)
    ensures
        r@ == links(v),
{
    match v {
        Some(v) => v,
        None => Vec::new(),
    }
}

impl Keyed for LicenseEntry {
    open spec fn key(&self) -> Seq<char> {
        self.id@
    }

    fn key_str(&self) -> (r: &str) {
        self.id.as_str()
    }
}

impl Keyed for ExceptionEntry {
    open spec fn key(&self) -> Seq<char> {
        self.id@
    }

    fn key_str(&self) -> (r: &str) {
        self.id.as_str()
    }
}

impl Record for LicenseRecord {
    type Entry = LicenseEntry;

    open spec fn missing(&self) -> Option<Field> {
        if self.license_id is None {
            Some(Field::Id)
        } else if self.name is None {
            Some(Field::Name)
        } else if self.license_text is None {
            Some(Field::Text)
        } else {
            None
        }
    }

    open spec fn record_id(&self) -> Seq<char> {
        self.license_id->0@
    }

    open spec fn is_entry_of(&self, e: LicenseEntry) -> bool {
        &&& self.license_id == Some(e.id)
        &&& self.name == Some(e.name)
        &&& self.license_text == Some(e.text)
        &&& e.header == self.standard_license_header
        &&& e.comments == self.license_comments
        &&& e.see_also@ == links(self.see_also)
        &&& e.is_osi_approved == flag(self.is_osi_approved)
        &&& e.is_fsf_libre == flag(self.is_fsf_libre)
        &&& e.is_deprecated == flag(self.is_deprecated_license_id)
        &&& e.ident@ == license_ident_of(e.id@)
    }

    /// The entry that the record describes, or the first required field it
    /// lacks. Absent flags read as `false`, absent references as none.
    fn into_entry(self) -> (r: Result<LicenseEntry, Field>) {
        let LicenseRecord {
            name,
            license_id,
            license_text,
            standard_license_header,
            license_comments,
            see_also,
            is_osi_approved,
            is_fsf_libre,
            is_deprecated_license_id,
        } = self;
        let id = match license_id {
            Some(id) => id,
            None => return Err(Field::Id),
        };
        let name = match name {
            Some(n) => n,
            None => return Err(Field::Name),
        };
        let text = match license_text {
            Some(t) => t,
            None => return Err(Field::Text),
        };
        let ident = license_ident(id.as_str());
        Ok(LicenseEntry {
            id,
            name,
            text,
            header: standard_license_header,
            comments: license_comments,
            see_also: links_of(see_also),
            is_osi_approved: flag_of(is_osi_approved),
            is_fsf_libre: flag_of(is_fsf_libre),
            is_deprecated: flag_of(is_deprecated_license_id),
            ident,
        })
    }
}

impl Record for ExceptionRecord {
    type Entry = ExceptionEntry;

    open spec fn missing(&self) -> Option<Field> {
        if self.license_exception_id is None {
            Some(Field::Id)
        } else if self.name is None {
            Some(Field::Name)
        } else if self.license_exception_text is None {
            Some(Field::Text)
        } else {
            None
        }
    }

    open spec fn record_id(&self) -> Seq<char> {
        self.license_exception_id->0@
    }

    open spec fn is_entry_of(&self, e: ExceptionEntry) -> bool {
        &&& self.license_exception_id == Some(e.id)
        &&& self.name == Some(e.name)
        &&& self.license_exception_text == Some(e.text)
        &&& e.comments == self.license_comments
        &&& e.see_also@ == links(self.see_also)
        &&& e.is_deprecated == flag(self.is_deprecated_license_id)
        &&& e.ident@ == exception_ident_of(e.id@)
    }

    /// The entry that the record describes, or the first required field it
    /// lacks. An absent flag reads as `false`, absent references as none.
    fn into_entry(self) -> (r: Result<ExceptionEntry, Field>) {
        let ExceptionRecord {
            name,
            license_exception_id,
            license_exception_text,
            license_comments,
            see_also,
            is_deprecated_license_id,
        } = self;
        let id = match license_exception_id {
            Some(id) => id,
            None => return Err(Field::Id),
        };
        let name = match name {
            Some(n) => n,
            None => return Err(Field::Name),
        };
        let text = match license_exception_text {
            Some(t) => t,
            None => return Err(Field::Text),
        };
        let ident = exception_ident(id.as_str());
        Ok(ExceptionEntry {
            id,
            name,
            text,
            comments: license_comments,
            see_also: links_of(see_also),
            is_deprecated: flag_of(is_deprecated_license_id),
            ident,
        })
    }
}

/// A flag that a license record leaves out is unset in its entry.
pub proof fn law_absent_license_flags_are_false(r: LicenseRecord, e: LicenseEntry)
    requires
        r.is_entry_of(e),
    ensures
        r.is_osi_approved is None ==> !e.is_osi_approved,
        r.is_fsf_libre is None ==> !e.is_fsf_libre,
        r.is_deprecated_license_id is None ==> !e.is_deprecated,
{
}

/// A deprecation flag that an exception record leaves out is unset in its
/// entry.
pub proof fn law_absent_exception_flag_is_false(r: ExceptionRecord, e: ExceptionEntry)
    requires
        r.is_entry_of(e),
    ensures
        r.is_deprecated_license_id is None ==> !e.is_deprecated,
{
}

} // verus!
