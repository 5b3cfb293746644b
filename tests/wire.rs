use license::wire::id_to_json;
use license::{
    exception_from_json, exception_to_json, license_from_json, license_to_json, Catalog, Exception,
    ExceptionRecord, License, LicenseRecord, WireError,
};

fn catalog() -> Catalog {
    let mit = LicenseRecord {
        name: Some("MIT License".to_string()),
        license_id: Some("MIT".to_string()),
        license_text: Some("MIT License\n".to_string()),
        standard_license_header: None,
        license_comments: None,
        see_also: Some(vec!["https://opensource.org/license/mit/".to_string()]),
        is_osi_approved: Some(true),
        is_fsf_libre: Some(true),
        is_deprecated_license_id: Some(false),
    };
    let gcc = ExceptionRecord {
        name: Some("GCC Runtime Library exception 3.1".to_string()),
        license_exception_id: Some("GCC-exception-3.1".to_string()),
        license_exception_text: Some("GCC RUNTIME LIBRARY EXCEPTION".to_string()),
        license_comments: None,
        see_also: None,
        is_deprecated_license_id: Some(false),
    };
    Catalog::build(vec![mit], vec![gcc]).unwrap()
}

#[test]
fn serde() {
    let catalog = catalog();
    let mit = catalog.parse_license("MIT").unwrap();
    let s = license_to_json(mit);
    assert_eq!(s, "\"MIT\"");
    let _ = license_from_json(&catalog, &s).unwrap();
}

#[test]
fn exception_wire_round_trip() {
    let catalog = catalog();
    let gcc = catalog.parse_exception("GCC-exception-3.1").unwrap();
    let s = exception_to_json(gcc);
    assert_eq!(s, "\"GCC-exception-3.1\"");
    let back = exception_from_json(&catalog, &s).unwrap();
    assert_eq!(Exception::id(back), "GCC-exception-3.1");
}

#[test]
fn decode_resolves_through_catalog() {
    let catalog = catalog();
    let mit = license_from_json(&catalog, " \"MIT\" ").unwrap();
    assert_eq!(License::id(mit), "MIT");
    assert_eq!(mit.name(), "MIT License");
}

#[test]
fn decode_unknown_id_is_not_found() {
    let catalog = catalog();
    let err = license_from_json(&catalog, "\"NOPE\"").unwrap_err();
    assert_eq!(err, WireError::NotFound);
    assert_eq!(err.message(), "SPDX id not found");
    assert_eq!(WireError::Malformed.message(), "expected an SPDX id as a JSON string");
    assert_eq!(exception_from_json(&catalog, "\"MIT\"").unwrap_err(), WireError::NotFound);
}

#[test]
fn decode_malformed_payload() {
    let catalog = catalog();
    assert_eq!(license_from_json(&catalog, "MIT").unwrap_err(), WireError::Malformed);
    assert_eq!(license_from_json(&catalog, "42").unwrap_err(), WireError::Malformed);
    assert_eq!(license_from_json(&catalog, "\"MIT").unwrap_err(), WireError::Malformed);
    assert_eq!(exception_from_json(&catalog, "").unwrap_err(), WireError::Malformed);
}

#[test]
fn encode_escapes() {
    assert_eq!(id_to_json("a\"b\\c"), "\"a\\\"b\\\\c\"");
    assert_eq!(id_to_json("\n\t\r\u{8}\u{c}"), "\"\\n\\t\\r\\b\\f\"");
    assert_eq!(id_to_json("\u{1}\u{1f}"), "\"\\u0001\\u001f\"");
    assert_eq!(id_to_json(""), "\"\"");
    assert_eq!(id_to_json("kjær/"), "\"kjær/\"");
}
