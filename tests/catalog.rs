use license::ident::{exception_ident, license_ident};
use license::{
    BuildError, CuratedLicense, LicenseExt, Catalog, CatalogError, Exception, ExceptionRecord, Field, License, LicenseRecord,
};

fn license_record(id: &str, name: &str, text: &str) -> LicenseRecord {
    LicenseRecord {
        name: Some(name.to_string()),
        license_id: Some(id.to_string()),
        license_text: Some(text.to_string()),
        standard_license_header: None,
        license_comments: None,
        see_also: None,
        is_osi_approved: None,
        is_fsf_libre: None,
        is_deprecated_license_id: None,
    }
}

fn exception_record(id: &str, name: &str, text: &str) -> ExceptionRecord {
    ExceptionRecord {
        name: Some(name.to_string()),
        license_exception_id: Some(id.to_string()),
        license_exception_text: Some(text.to_string()),
        license_comments: None,
        see_also: None,
        is_deprecated_license_id: None,
    }
}

fn sample_catalog() -> Catalog {
    let mut apache = license_record("Apache-2.0", "Apache License 2.0", "Apache License\nVersion 2.0, January 2004\n");
    apache.is_osi_approved = Some(true);
    apache.is_fsf_libre = Some(true);
    apache.is_deprecated_license_id = Some(false);
    apache.standard_license_header = Some("Licensed under the Apache License, Version 2.0".to_string());
    apache.see_also = Some(vec!["https://www.apache.org/licenses/LICENSE-2.0".to_string()]);
    let licenses = vec![
        license_record("MIT", "MIT License", "MIT License\n\nCopyright (c) <year> <copyright holders>\n"),
        apache,
        license_record("0BSD", "BSD Zero Clause License", "Permission to use, copy, modify"),
        license_record("GPL-2.0+", "GNU General Public License v2.0 or later", "GNU GENERAL PUBLIC LICENSE\nVersion 2, June 1991\n"),
    ];
    let exceptions = vec![
        exception_record("GCC-exception-3.1", "GCC Runtime Library exception 3.1", "GCC RUNTIME LIBRARY EXCEPTION"),
        exception_record("389-exception", "389 Directory Server Exception", "In addition, as a special exception"),
    ];
    Catalog::build(licenses, exceptions).unwrap()
}

#[test]
fn lookup_finds_each_record() {
    let catalog = sample_catalog();
    for id in ["MIT", "Apache-2.0", "0BSD", "GPL-2.0+"] {
        let entry = catalog.license(id).unwrap();
        assert_eq!(License::id(entry), id);
    }
    for id in ["GCC-exception-3.1", "389-exception"] {
        let entry = catalog.exception(id).unwrap();
        assert_eq!(Exception::id(entry), id);
    }
    let apache = catalog.license("Apache-2.0").unwrap();
    assert_eq!(apache.name(), "Apache License 2.0");
    assert_eq!(apache.header(), Some("Licensed under the Apache License, Version 2.0"));
    assert_eq!(apache.see_also().len(), 1);
    assert_eq!(apache.see_also()[0], "https://www.apache.org/licenses/LICENSE-2.0");
    let gcc = catalog.exception("GCC-exception-3.1").unwrap();
    assert_eq!(gcc.name(), "GCC Runtime Library exception 3.1");
}

#[test]
fn lookup_unknown_id_is_not_found() {
    let catalog = sample_catalog();
    assert!(catalog.license("__not_a_real_id__").is_none());
    assert!(catalog.exception("__not_a_real_id__").is_none());
    assert!(catalog.license("GCC-exception-3.1").is_none());
    assert!(catalog.exception("MIT").is_none());
    assert!(catalog.license("").is_none());
}

#[test]
fn lookup_is_exact_and_case_sensitive() {
    let catalog = sample_catalog();
    assert!(catalog.license("mit").is_none());
    assert!(catalog.license("MIT ").is_none());
    assert!(catalog.license("Apache-2").is_none());
    assert!(catalog.license("GPL-2.0").is_none());
}

#[test]
fn parse_reports_unknown_ids() {
    let catalog = sample_catalog();
    assert_eq!(License::id(catalog.parse_license("MIT").unwrap()), "MIT");
    let err = catalog.parse_license("NOPE").unwrap_err();
    assert_eq!(err.message(), "SPDX id not found");
    assert!(catalog.parse_exception("NOPE").is_err());
    assert_eq!(Exception::id(catalog.parse_exception("389-exception").unwrap()), "389-exception");
}

#[test]
fn all_entries_sorted_by_id() {
    let catalog = sample_catalog();
    let ids: Vec<&str> = catalog.all_licenses().iter().map(|e| e.id.as_str()).collect();
    assert_eq!(ids, vec!["0BSD", "Apache-2.0", "GPL-2.0+", "MIT"]);
    let ids: Vec<&str> = catalog.all_exceptions().iter().map(|e| e.id.as_str()).collect();
    assert_eq!(ids, vec!["389-exception", "GCC-exception-3.1"]);
}

#[test]
fn absent_flags_default_to_false() {
    let catalog = sample_catalog();
    let mit = catalog.license("MIT").unwrap();
    assert!(!mit.is_osi_approved());
    assert!(!mit.is_fsf_libre());
    assert!(!mit.is_deprecated());
    assert_eq!(mit.header(), None);
    assert_eq!(mit.comments(), None);
    assert!(mit.see_also().is_empty());
    let gcc = catalog.exception("GCC-exception-3.1").unwrap();
    assert!(!gcc.is_deprecated());
    assert!(gcc.see_also().is_empty());
}

#[test]
fn present_flags_are_kept() {
    let catalog = sample_catalog();
    let apache = catalog.license("Apache-2.0").unwrap();
    assert!(apache.is_osi_approved());
    assert!(apache.is_fsf_libre());
    assert!(!apache.is_deprecated());
    let mut old = license_record("GPL-2.0", "GNU General Public License v2.0", "text");
    old.is_deprecated_license_id = Some(true);
    old.license_comments = Some("Use GPL-2.0-only".to_string());
    let catalog = Catalog::build(vec![old], vec![]).unwrap();
    let gpl = catalog.license("GPL-2.0").unwrap();
    assert!(gpl.is_deprecated());
    assert_eq!(gpl.comments(), Some("Use GPL-2.0-only"));
}

#[test]
fn duplicate_id_fails_the_build() {
    let licenses = vec![
        license_record("MIT", "MIT License", "a"),
        license_record("ISC", "ISC License", "b"),
        license_record("MIT", "MIT License again", "c"),
    ];
    match Catalog::build(licenses, vec![]) {
        Err(CatalogError::Licenses(BuildError::DuplicateId { index, id })) => {
            assert_eq!(index, 2);
            assert_eq!(id, "MIT");
        }
        _ => panic!("expected a duplicate id"),
    }
    let exceptions = vec![
        exception_record("X-exception", "X", "a"),
        exception_record("X-exception", "X again", "b"),
    ];
    match Catalog::build(vec![], exceptions) {
        Err(CatalogError::Exceptions(BuildError::DuplicateId { index, id })) => {
            assert_eq!(index, 1);
            assert_eq!(id, "X-exception");
        }
        _ => panic!("expected a duplicate exception id"),
    }
}

#[test]
fn missing_field_fails_the_build() {
    let mut no_id = license_record("A", "A", "a");
    no_id.license_id = None;
    let mut no_name = license_record("B", "B", "b");
    no_name.name = None;
    let mut no_text = license_record("C", "C", "c");
    no_text.license_text = None;
    for (bad, field) in [(no_id, Field::Id), (no_name, Field::Name), (no_text, Field::Text)] {
        let licenses = vec![license_record("MIT", "MIT License", "m"), bad];
        match Catalog::build(licenses, vec![]) {
            Err(CatalogError::Licenses(BuildError::MissingField { index, field: f })) => {
                assert_eq!(index, 1);
                assert_eq!(f, field);
            }
            _ => panic!("expected a missing field"),
        }
    }
    let mut no_text = exception_record("E", "E", "e");
    no_text.license_exception_text = None;
    match Catalog::build(vec![], vec![no_text]) {
        Err(CatalogError::Exceptions(BuildError::MissingField { index, field })) => {
            assert_eq!(index, 0);
            assert_eq!(field, Field::Text);
        }
        _ => panic!("expected a missing exception field"),
    }
}

#[test]
fn first_bad_record_is_reported() {
    let mut no_name = license_record("B", "B", "b");
    no_name.name = None;
    let licenses = vec![
        license_record("A", "A", "a"),
        license_record("A", "A", "a"),
        no_name,
    ];
    match Catalog::build(licenses, vec![]) {
        Err(CatalogError::Licenses(BuildError::DuplicateId { index, .. })) => assert_eq!(index, 1),
        _ => panic!("expected the duplicate at 1"),
    }
}

#[test]
fn empty_corpus_builds_empty_catalog() {
    let catalog = Catalog::build(vec![], vec![]).unwrap();
    assert!(catalog.all_licenses().is_empty());
    assert!(catalog.all_exceptions().is_empty());
    assert!(catalog.license("MIT").is_none());
}

#[test]
fn symbolic_names() {
    assert_eq!(license_ident("0BSD"), "Bsd0");
    assert_eq!(exception_ident("389-exception"), "Exception389");
    assert_eq!(license_ident("MIT"), "Mit");
    assert_eq!(license_ident("Apache-2.0"), "Apache2_0");
    assert_eq!(license_ident("GPL-2.0+"), "Gpl2_0Plus");
    let catalog = sample_catalog();
    assert_eq!(catalog.license("0BSD").unwrap().ident, "Bsd0");
    assert_eq!(catalog.exception("389-exception").unwrap().ident, "Exception389");
}

#[test]
fn classify_joins_entry_and_profile() {
    let catalog = sample_catalog();
    let (entry, profile) = catalog.classify("MIT").unwrap();
    assert_eq!(License::id(entry), "MIT");
    assert_eq!(entry.name(), "MIT License");
    assert_eq!(profile, CuratedLicense::Mit);
    assert!(profile.conditions().license_and_copyright_notice());
    assert!(catalog.classify("GPL-2.0+").is_none());
    assert!(catalog.classify("WTFPL").is_none());
    assert!(catalog.classify("__not_a_real_id__").is_none());
}

#[test]
fn classify_text_finds_stored_entry() {
    let catalog = sample_catalog();
    let mit_text = catalog.license("MIT").unwrap().text().to_string();
    let (entry, profile) = catalog.classify_text(&mit_text).unwrap();
    assert_eq!(License::id(entry), "MIT");
    assert_eq!(profile, CuratedLicense::Mit);
    let apache_text = catalog.license("Apache-2.0").unwrap().text().to_string();
    let (entry, profile) = catalog.classify_text(&apache_text).unwrap();
    assert_eq!(entry.name(), "Apache License 2.0");
    assert_eq!(profile, CuratedLicense::Apache20);
    assert!(catalog.classify_text("CC0 1.0 Universal").is_none());
    assert!(catalog.classify_text("no signature here").is_none());
}
