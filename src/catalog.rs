//! The catalog: license and exception entries built once from corpus records,
//! then looked up by exact identifier.

use vstd::prelude::*;
use crate::entry::{ExceptionEntry, ExceptionRecord, LicenseEntry, LicenseRecord};
use crate::ext::{curated_by_id, curated_by_text, from_id_ext, from_text, CuratedLicense};
use crate::table::{find_key, has_key, lemma_find_key_matches, sorted_by_key, Keyed, Table};

verus! {

/// A required field of a corpus record.
#[derive(Clone, Copy, Debug, PartialEq, Eq, Structural)]
pub enum Field {
    Id,
    Name,
    Text,
}

/// Why a list of corpus records does not make a table.
#[derive(Debug)]
pub enum BuildError {
    /// The record at `index` lacks `field`.
    MissingField { index: usize, field: Field },
    /// The record at `index` repeats the identifier `id` of an earlier one.
    DuplicateId { index: usize, id: String },
}

/// A corpus record, as read, that can become a table entry.
pub trait Record: Sized {
    type Entry: Keyed;

    /// The first required field that the record lacks.
    spec fn missing(&self) -> Option<Field>;

    /// The record's identifier, where it has one.
    spec fn record_id(&self) -> Seq<char>;

    /// `e` holds what this record says, with the defaults for what it leaves out.
    spec fn is_entry_of(&self, e: Self::Entry) -> bool;

    fn into_entry(self) -> (r: Result<Self::Entry, Field>)
        ensures
            match r {
                Ok(e) => self.missing() is None && self.is_entry_of(e) && e.key() == self.record_id(),
                Err(f) => self.missing() == Some(f),
            },
    ;
}

/// Records `0..n` are complete and their identifiers pairwise distinct.
pub open spec fn valid_upto<R: Record>(rs: Seq<R>, n: int) -> bool {
    &&& forall|i: int| 0 <= i < n ==> (#[trigger] rs[i]).missing() is None
    &&& forall|i: int, j: int|
        #![trigger rs[i], rs[j]]
        0 <= i < j < n ==> rs[i].record_id() != rs[j].record_id()
}

/// All of `rs` is complete, with no identifier twice.
pub open spec fn valid_records<R: Record>(rs: Seq<R>) -> bool {
    valid_upto(rs, rs.len() as int)
}

/// `e` reports the first record of `rs` that cannot go into a table.
pub open spec fn is_first_error<R: Record>(rs: Seq<R>, e: BuildError) -> bool {
    match e {
        BuildError::MissingField { index, field } => {
            &&& index < rs.len()
            &&& valid_upto(rs, index as int)
            &&& rs[index as int].missing() == Some(field)
        },
        BuildError::DuplicateId { index, id } => {
            &&& index < rs.len()
            &&& valid_upto(rs, index as int)
            &&& rs[index as int].missing() is None
            &&& rs[index as int].record_id() == id@
            &&& exists|j: int| 0 <= j < index && #[trigger] rs[j].record_id() == id@
        },
    }
}

/// `t` holds exactly one entry for each record of `rs`, found under its
/// identifier.
pub open spec fn is_table_of<R: Record>(t: Seq<R::Entry>, rs: Seq<R>) -> bool {
    &&& t.len() == rs.len()
    &&& forall|k: Seq<char>|
        has_key(t, k) ==> exists|i: int| 0 <= i < rs.len() && #[trigger] rs[i].record_id() == k
    &&& forall|i: int|
        0 <= i < rs.len() ==> match find_key(t, (#[trigger] rs[i]).record_id()) {
            Some(e) => rs[i].is_entry_of(e),
            None => false,
        }
}

/// Builds a table from corpus records, in any order. Fails on the first
/// record that lacks a required field or repeats an identifier.
pub fn build_table<R: Record>(records: Vec<R>) -> (r: Result<Table<R::Entry>, BuildError>)
    ensures
        r is Ok <==> valid_records(records@),
        match r {
            Ok(t) => t.wf() && is_table_of(t@, records@),
            Err(e) => is_first_error(records@, e),
        },
{
    let ghost rs = records@;
    let n: usize = records.len();
    let mut table: Table<R::Entry> = Table::new();
    let mut index: usize = 0;
    for rec in it: records.into_iter()
        invariant
            it.seq() == rs,
            n == rs.len(),
            index == it.index(),
            index <= rs.len(),
            table.wf(),
            valid_upto(rs, index as int),
            table@.len() == index,
            forall|i: int|
                0 <= i < index ==> match find_key(table@, (#[trigger] rs[i]).record_id()) {
                    Some(e) => rs[i].is_entry_of(e),
                    None => false,
                },
            forall|k: Seq<char>|
                has_key(table@, k) ==> exists|i: int| 0 <= i < index && #[trigger] rs[i].record_id() == k,
    {
        let ghost here = rec;
        assert(here == rs[index as int]);
        let entry = match rec.into_entry() {
            Ok(e) => e,
            Err(field) => {
                return Err(BuildError::MissingField { index, field });
            },
        };
        let ghost old_table = table@;
        match table.insert(entry) {
            Ok(()) => {},
            Err(back) => {
                let id = String::from_str(back.key_str());
                proof {
                    let k = here.record_id();
                    assert(has_key(old_table, k));
                }
                return Err(BuildError::DuplicateId { index, id });
            },
        }
        proof {
            let k = here.record_id();
            assert(!has_key(old_table, k));
            assert forall|i: int| 0 <= i < index implies rs[i].record_id() != k by {
                if rs[i].record_id() == k {
                    assert(find_key(old_table, k) is Some);
                }
            }
            assert forall|i: int|
                0 <= i < index + 1 implies match find_key(table@, (#[trigger] rs[i]).record_id()) {
                    Some(e) => rs[i].is_entry_of(e),
                    None => false,
                } by {
                if i < index {
                    assert(find_key(table@, rs[i].record_id()) == find_key(old_table, rs[i].record_id()));
                }
            }
            assert forall|q: Seq<char>| has_key(table@, q) implies exists|i: int|
                0 <= i < index + 1 && #[trigger] rs[i].record_id() == q by {
                if q != k {
                    assert(find_key(table@, q) == find_key(old_table, q));
                    assert(has_key(old_table, q));
                } else {
                    assert(rs[index as int].record_id() == q);
                }
            }
        }
        index = index + 1;
    }
    Ok(table)
}

/// Every identifier of the corpus finds its own record's entry: looking it up
/// in a table built from the records gives an entry whose identifier is the
/// one asked for, holding what that record says.
pub proof fn law_lookup_finds_every_record<R: Record>(t: Seq<R::Entry>, rs: Seq<R>, i: int)
    requires
        is_table_of(t, rs),
        0 <= i < rs.len(),
    ensures
        find_key(t, rs[i].record_id()) matches Some(e) && e.key() == rs[i].record_id()
            && rs[i].is_entry_of(e),
{
    lemma_find_key_matches(t, rs[i].record_id());
}

/// An identifier that no record of the corpus carries finds nothing.
pub proof fn law_lookup_misses_unknown<R: Record>(t: Seq<R::Entry>, rs: Seq<R>, k: Seq<char>)
    requires
        is_table_of(t, rs),
        forall|i: int| 0 <= i < rs.len() ==> #[trigger] rs[i].record_id() != k,
    ensures
        find_key(t, k) is None,
{
}

/// The error of a failed lookup by identifier.
#[derive(Clone, Copy, Debug, PartialEq, Eq, Structural)]
pub struct ParseError;

impl ParseError {
    /// What went wrong, for display.
    pub fn message(&self) -> (r: &'static str)
        ensures
            r@ == "SPDX id not found"@,
    {
        "SPDX id not found"
    }
}

/// Which table of the catalog failed to build.
#[derive(Debug)]
pub enum CatalogError {
    Licenses(BuildError),
    Exceptions(BuildError),
}

/// The license and exception tables, built once and read-only afterwards.
pub struct Catalog {
    licenses: Table<LicenseEntry>,
    exceptions: Table<ExceptionEntry>,
}

impl Catalog {
    /// The licenses, in increasing order of identifier.
    pub closed spec fn license_entries(&self) -> Seq<LicenseEntry> {
        self.licenses@
    }

    /// The exceptions, in increasing order of identifier.
    pub closed spec fn exception_entries(&self) -> Seq<ExceptionEntry> {
        self.exceptions@
    }

    /// Builds the catalog from the license records and the exception records
    /// of a corpus. Fails, with nothing built, on the first record that lacks
    /// a required field or repeats an identifier of its own kind; licenses
    /// are checked before exceptions.
    pub fn build(licenses: Vec<LicenseRecord>, exceptions: Vec<ExceptionRecord>) -> (r: Result<
        Catalog,
        CatalogError,
    >)
        ensures
            r is Ok <==> valid_records(licenses@) && valid_records(exceptions@),
            match r {
                Ok(c) => {
                    &&& sorted_by_key(c.license_entries())
                    &&& sorted_by_key(c.exception_entries())
                    &&& is_table_of(c.license_entries(), licenses@)
                    &&& is_table_of(c.exception_entries(), exceptions@)
                },
                Err(CatalogError::Licenses(e)) => is_first_error(licenses@, e),
                Err(CatalogError::Exceptions(e)) => valid_records(licenses@) && is_first_error(
                    exceptions@,
                    e,
                ),
            },
    {
        let licenses = match build_table(licenses) {
            Ok(t) => t,
            Err(e) => return Err(CatalogError::Licenses(e)),
        };
        let exceptions = match build_table(exceptions) {
            Ok(t) => t,
            Err(e) => return Err(CatalogError::Exceptions(e)),
        };
        Ok(Catalog { licenses, exceptions })
    }

    /// The license whose identifier is exactly `id` (case-sensitive).
    pub fn license(&self, id: &str) -> (r: Option<&LicenseEntry>)
        ensures
            match r {
                Some(e) => find_key(self.license_entries(), id@) == Some(*e),
                None => find_key(self.license_entries(), id@) is None,
            },
    {
        self.licenses.get(id)
    }

    /// The exception whose identifier is exactly `id` (case-sensitive).
    pub fn exception(&self, id: &str) -> (r: Option<&ExceptionEntry>)
        ensures
            match r {
                Some(e) => find_key(self.exception_entries(), id@) == Some(*e),
                None => find_key(self.exception_entries(), id@) is None,
            },
    {
        self.exceptions.get(id)
    }

    /// All licenses, in increasing order of identifier.
    pub fn all_licenses(&self) -> (r: &[LicenseEntry])
        ensures
            r@ == self.license_entries(),
            sorted_by_key(r@),
    {
        self.licenses.as_slice()
    }

    /// All exceptions, in increasing order of identifier.
    pub fn all_exceptions(&self) -> (r: &[ExceptionEntry])
        ensures
            r@ == self.exception_entries(),
            sorted_by_key(r@),
    {
        self.exceptions.as_slice()
    }

    /// The license whose identifier is exactly `id`, with its curated rights
    /// profile; `None` where the identifier has no curated profile or the
    /// catalog has no such license.
    pub fn classify(&self, id: &str) -> (r: Option<(&LicenseEntry, CuratedLicense)>)
        ensures
            match r {
                Some(p) => {
                    &&& curated_by_id(id@) == Some(p.1)
                    &&& find_key(self.license_entries(), id@) == Some(*p.0)
                },
                None => curated_by_id(id@) is None || find_key(self.license_entries(), id@) is None,
            },
    {
        let k = match from_id_ext(id) {
            Some(k) => k,
            None => return None,
        };
        match self.license(id) {
            Some(e) => Some((e, k)),
            None => None,
        }
    }

    /// The license that `text` is taken for by its signatures, as the catalog
    /// holds it, with its curated rights profile; `None` where no signature
    /// matches or the catalog lacks the license found.
    pub fn classify_text(&self, text: &str) -> (r: Option<(&LicenseEntry, CuratedLicense)>)
        ensures
            match r {
                Some(p) => {
                    &&& curated_by_text(text@) == Some(p.1)
                    &&& find_key(self.license_entries(), p.1.spec_id()) == Some(*p.0)
                },
                None => match curated_by_text(text@) {
                    Some(k) => find_key(self.license_entries(), k.spec_id()) is None,
                    None => true,
                },
            },
    {
        let k = match from_text(text) {
            Some(k) => k,
            None => return None,
        };
        match self.license(k.id()) {
            Some(e) => Some((e, k)),
            None => None,
        }
    }

    /// Parses a license identifier: the license it names, or an error.
    pub fn parse_license(&self, s: &str) -> (r: Result<&LicenseEntry, ParseError>)
        ensures
            match r {
                Ok(e) => find_key(self.license_entries(), s@) == Some(*e),
                Err(_) => find_key(self.license_entries(), s@) is None,
            },
    {
        match self.license(s) {
            Some(e) => Ok(e),
            None => Err(ParseError),
        }
    }

    /// Parses an exception identifier: the exception it names, or an error.
    pub fn parse_exception(&self, s: &str) -> (r: Result<&ExceptionEntry, ParseError>)
        ensures
            match r {
                Ok(e) => find_key(self.exception_entries(), s@) == Some(*e),
                Err(_) => find_key(self.exception_entries(), s@) is None,
            },
    {
        match self.exception(s) {
            Some(e) => Ok(e),
            None => Err(ParseError),
        }
    }
}

} // verus!
