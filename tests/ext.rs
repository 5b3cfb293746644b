use license::text::{contains, str_eq};
use license::{from_id_ext, from_text, Conditions, CuratedLicense, LicenseExt, Limitations, Permissions};

const CURATED: [&str; 16] = [
    "AFL-3.0",
    "AGPL-3.0-only",
    "Apache-2.0",
    "0BSD",
    "BSD-2-Clause",
    "BSD-3-Clause",
    "BSD-3-Clause-Clear",
    "BSL-1.0",
    "CC0-1.0",
    "GPL-3.0-only",
    "LGPL-3.0-only",
    "MIT",
    "MPL-2.0",
    "OSL-3.0",
    "Unlicense",
    "WTFPL",
];

const MIT_TEXT: &str = "MIT License\n\nCopyright (c) <year> <copyright holders>\n\nPermission is hereby granted, free of charge, to any person obtaining a copy\n";
const APACHE_TEXT: &str = "Apache License\nVersion 2.0, January 2004\nhttp://www.apache.org/licenses/\n\nTERMS AND CONDITIONS FOR USE, REPRODUCTION, AND DISTRIBUTION\n";
const GPL_TEXT: &str = "GNU GENERAL PUBLIC LICENSE\nVersion 3, 29 June 2007\n\nCopyright (C) 2007 Free Software Foundation, Inc. <https://fsf.org/>\n";
const UNLICENSE_TEXT: &str = "This is free and unencumbered software released into the public domain.\n\nAnyone is free to copy, modify, publish, use, compile, sell, or\n";
const CC0_TEXT: &str = "Creative Commons Legal Code\n\nCC0 1.0 Universal\n\n    CREATIVE COMMONS CORPORATION IS NOT A LAW FIRM\n";
const MPL_TEXT: &str = "Mozilla Public License Version 2.0\n==================================\n\n1. Definitions\n";
const LGPL_TEXT: &str = "GNU LESSER GENERAL PUBLIC LICENSE\nVersion 3, 29 June 2007\n\nThis version of the GNU Lesser General Public License incorporates\n";
const AGPL_TEXT: &str = "GNU AFFERO GENERAL PUBLIC LICENSE\nVersion 3, 19 November 2007\n";

#[test]
fn every_curated_id_has_a_profile() {
    for id in CURATED {
        let first = from_id_ext(id).unwrap();
        let second = from_id_ext(id).unwrap();
        assert_eq!(first, second);
        assert_eq!(LicenseExt::id(&first), id);
        assert_eq!(first.permissions(), second.permissions());
        assert_eq!(first.conditions(), second.conditions());
        assert_eq!(first.limitations(), second.limitations());
    }
}

#[test]
fn uncurated_ids_have_no_profile() {
    assert!(from_id_ext("__not_a_real_id__").is_none());
    assert!(from_id_ext("ISC").is_none());
    assert!(from_id_ext("mit").is_none());
    assert!(from_id_ext("GPL-3.0").is_none());
    assert!(from_id_ext("").is_none());
}

#[test]
fn mit_profile() {
    let mit = from_id_ext("MIT").unwrap();
    assert_eq!(mit, CuratedLicense::Mit);
    let perm = mit.permissions();
    assert!(perm.private_use() && perm.commercial_use());
    assert!(perm.distribution() && perm.modification());
    assert!(!perm.patent_rights());
    let cond = mit.conditions();
    assert!(cond.license_and_copyright_notice());
    assert!(!cond.disclose_sources() && !cond.document_changes());
    assert!(!cond.network_use_is_distribution() && !cond.same_license());
    let lim = mit.limitations();
    assert!(lim.no_liability() && lim.no_warranty());
    assert!(!lim.no_trademark_rights() && !lim.no_patent_rights());
}

#[test]
fn copyleft_profiles() {
    let agpl = from_id_ext("AGPL-3.0-only").unwrap().conditions();
    assert!(agpl.network_use_is_distribution() && agpl.same_license() && agpl.disclose_sources());
    let gpl = from_id_ext("GPL-3.0-only").unwrap().conditions();
    assert!(!gpl.network_use_is_distribution() && gpl.same_license());
    let mpl = from_id_ext("MPL-2.0").unwrap().conditions();
    assert!(!mpl.document_changes() && mpl.disclose_sources());
    let wtfpl = from_id_ext("WTFPL").unwrap();
    assert_eq!(wtfpl.conditions(), Conditions::default());
    assert_eq!(wtfpl.limitations(), Limitations::default());
    let clear = from_id_ext("BSD-3-Clause-Clear").unwrap().limitations();
    assert!(clear.no_patent_rights() && !clear.no_trademark_rights());
    let cc0 = from_id_ext("CC0-1.0").unwrap();
    assert!(cc0.limitations().no_trademark_rights() && cc0.limitations().no_patent_rights());
    assert!(!cc0.permissions().patent_rights());
}

#[test]
fn own_text_recovers_license() {
    assert_eq!(from_text(MIT_TEXT), Some(CuratedLicense::Mit));
    assert_eq!(from_text(APACHE_TEXT), Some(CuratedLicense::Apache20));
    assert_eq!(from_text(GPL_TEXT), Some(CuratedLicense::Gpl30Only));
    assert_eq!(from_text(UNLICENSE_TEXT), Some(CuratedLicense::Unlicense));
    assert_eq!(from_text(CC0_TEXT), Some(CuratedLicense::Cc010));
    assert_eq!(from_text(MPL_TEXT), Some(CuratedLicense::Mpl20));
    assert_eq!(from_text(LGPL_TEXT), Some(CuratedLicense::Lgpl30Only));
    assert_eq!(from_text(AGPL_TEXT), Some(CuratedLicense::Agpl30Only));
}

#[test]
fn text_without_signature_is_unknown() {
    assert_eq!(from_text(""), None);
    assert_eq!(from_text("Permission to use, copy, modify, and/or distribute this software"), None);
    assert_eq!(from_text("mit license"), None);
    assert_eq!(from_text("Apache License"), None);
    assert_eq!(from_text("GNU GENERAL PUBLIC LICENSE\nVersion 2, June 1991"), None);
}

#[test]
fn mit_rule_comes_before_gpl() {
    let text = format!("{}\n{}", GPL_TEXT, MIT_TEXT);
    assert_eq!(from_text(&text), Some(CuratedLicense::Mit));
    let both = "MIT License\nApache License\nVersion 2.0";
    assert_eq!(from_text(both), Some(CuratedLicense::Mit));
}

#[test]
fn rendering_commercial_use_only() {
    let perm = Permissions { commercial_use: true, ..Permissions::default() };
    assert_eq!(perm.render(), "- May be used for commercial purposes.\n");
}

#[test]
fn rendering_empty_and_full() {
    assert_eq!(Permissions::default().render(), "");
    assert_eq!(Conditions::default().render(), "");
    assert_eq!(Limitations::default().render(), "");
    let perm = from_id_ext("Apache-2.0").unwrap().permissions();
    assert_eq!(
        perm.render(),
        "- May be used for commercial purposes.\n- May be distributed.\n- May be modified.\n- Provides an express grant of patent rights from contributors.\n- May be used for private purposes.\n"
    );
    let cond = from_id_ext("OSL-3.0").unwrap().conditions();
    assert_eq!(
        cond.render(),
        "- Source code must be made available when the software is distributed.\n- Changes made to the code must be documented.\n- The license and copyright notice must be included with the software.\n- Users who interact with the software via network are given the right to receive a copy of the source code.\n- Modifications must be released under the same license.\n"
    );
    let lim = from_id_ext("CC0-1.0").unwrap().limitations();
    assert_eq!(
        lim.render(),
        "- Includes a limitation of liability.\n- Does not grant trademark rights.\n- Does not provide any warranty.\n- Does not provide any rights in the patents of contributors.\n"
    );
    let mit = from_id_ext("MIT").unwrap();
    assert_eq!(mit.conditions().render(), "- The license and copyright notice must be included with the software.\n");
}

#[test]
fn substring_search() {
    assert!(contains("hello world", "lo w"));
    assert!(contains("hello", ""));
    assert!(contains("", ""));
    assert!(!contains("", "a"));
    assert!(!contains("hello", "Hello"));
    assert!(contains("aaab", "aab"));
    assert!(!contains("ab", "abc"));
    assert!(contains("Rogstadkjærnet", "kjær"));
    assert!(str_eq("MIT", "MIT"));
    assert!(!str_eq("MIT", "MI"));
}
