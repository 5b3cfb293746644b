//! Embedded SPDX license catalog: exact lookup of licenses and exceptions by
//! identifier, a curated rights classification of well-known licenses, and a
//! signature-based guess of a license from its text.
//!
//! The catalog is built once from the records of a license-list corpus and
//! is read-only afterwards.

pub mod catalog;
pub mod entry;
pub mod ext;
pub mod ident;
pub mod table;
pub mod text;
pub mod wire;

pub use catalog::{BuildError, Catalog, CatalogError, Field, ParseError};
pub use entry::{Exception, ExceptionEntry, ExceptionRecord, License, LicenseEntry, LicenseRecord};
pub use ext::{from_id_ext, from_text, Conditions, CuratedLicense, LicenseExt, Limitations, Permissions};
pub use wire::{exception_from_json, exception_to_json, license_from_json, license_to_json, WireError};
