//! The curated rights profiles of well-known licenses: what each permits,
//! requires and limits, looked up by identifier or guessed from license text.

use vstd::prelude::*;
use vstd::string::StringExecFns;
use crate::entry::LicenseEntry;
use crate::table::find_key;
use crate::text::{chars_of, contains_chars, has_substring, str_eq};

verus! {

/// The permissions of a license.
#[derive(Copy, Clone, Debug, Default, Hash, PartialEq, Eq, Structural, PartialOrd, Ord)]
pub struct Permissions {
    pub commercial_use: bool,
    pub distribution: bool,
    pub modification: bool,
    pub patent_rights: bool,
    pub private_use: bool,
}

/// Appends `line` to `out` where `on` holds.
fn append_if(out: &mut String, on: bool, line: &str)
    ensures
        final(out)@ == old(out)@ + if on {
            line@
        } else {
            Seq::empty()
        },
{
    if on {
        out.append(line);
    } else {
        assert(old(out)@ + Seq::<char>::empty() =~= old(out)@);
    }
}

/// `line` where `on` holds, else nothing.
pub open spec fn line_if(on: bool, line: &str) -> Seq<char> {
    if on {
        line@
    } else {
        Seq::empty()
    }
}

impl Permissions {
    /// May be used for commercial purposes.
    pub fn commercial_use(self) -> (r: bool)
        ensures
            r == self.commercial_use,
    {
        self.commercial_use
    }

    /// May be distributed.
    pub fn distribution(self) -> (r: bool)
        ensures
            r == self.distribution,
    {
        self.distribution
    }

    /// May be modified.
    pub fn modification(self) -> (r: bool)
        ensures
            r == self.modification,
    {
        self.modification
    }

    /// Provides an express grant of patent rights from contributors.
    pub fn patent_rights(self) -> (r: bool)
        ensures
            r == self.patent_rights,
    {
        self.patent_rights
    }

    /// May be used for private purposes.
    pub fn private_use(self) -> (r: bool)
        ensures
            r == self.private_use,
    {
        self.private_use
    }

    /// One line per flag that is set, in field order, each `- ...` and a
    /// newline.
    pub open spec fn spec_render(self) -> Seq<char> {
        line_if(self.commercial_use, "- May be used for commercial purposes.\n")
            + line_if(self.distribution, "- May be distributed.\n")
            + line_if(self.modification, "- May be modified.\n")
            + line_if(self.patent_rights, "- Provides an express grant of patent rights from contributors.\n")
            + line_if(self.private_use, "- May be used for private purposes.\n")
    }

    /// The text form: one bullet line per permission granted.
    pub fn render(&self) -> (r: String)
        ensures
            r@ == self.spec_render(),
    {
        let mut out = String::new();
        append_if(&mut out, self.commercial_use, "- May be used for commercial purposes.\n");
        append_if(&mut out, self.distribution, "- May be distributed.\n");
        append_if(&mut out, self.modification, "- May be modified.\n");
        append_if(&mut out, self.patent_rights, "- Provides an express grant of patent rights from contributors.\n");
        append_if(&mut out, self.private_use, "- May be used for private purposes.\n");
        assert(out@ =~= self.spec_render());
        out
    }
}

/// The conditions of a license.
#[derive(Copy, Clone, Debug, Default, Hash, PartialEq, Eq, Structural, PartialOrd, Ord)]
pub struct Conditions {
    pub disclose_sources: bool,
    pub document_changes: bool,
    pub license_and_copyright_notice: bool,
    pub network_use_is_distribution: bool,
    pub same_license: bool,
}

impl Conditions {
    /// Source code must be made available when the software is distributed.
    pub fn disclose_sources(self) -> (r: bool)
        ensures
            r == self.disclose_sources,
    {
        self.disclose_sources
    }

    /// Changes made to the code must be documented.
    pub fn document_changes(self) -> (r: bool)
        ensures
            r == self.document_changes,
    {
        self.document_changes
    }

    /// The license and copyright notice must be included with the software.
    pub fn license_and_copyright_notice(self) -> (r: bool)
        ensures
            r == self.license_and_copyright_notice,
    {
        self.license_and_copyright_notice
    }

    /// Users who interact with the software via network are given the right to
    /// receive a copy of the source code.
    pub fn network_use_is_distribution(self) -> (r: bool)
        ensures
            r == self.network_use_is_distribution,
    {
        self.network_use_is_distribution
    }

    /// Modifications must be released under the same license.
    pub fn same_license(self) -> (r: bool)
        ensures
            r == self.same_license,
    {
        self.same_license
    }

    /// One line per flag that is set, in field order, each `- ...` and a
    /// newline.
    pub open spec fn spec_render(self) -> Seq<char> {
        line_if(self.disclose_sources, "- Source code must be made available when the software is distributed.\n")
            + line_if(self.document_changes, "- Changes made to the code must be documented.\n")
            + line_if(self.license_and_copyright_notice, "- The license and copyright notice must be included with the software.\n")
            + line_if(self.network_use_is_distribution, "- Users who interact with the software via network are given the right to receive a copy of the source code.\n")
            + line_if(self.same_license, "- Modifications must be released under the same license.\n")
    }

    /// The text form: one bullet line per flag that is set.
    pub fn render(&self) -> (r: String)
        ensures
            r@ == self.spec_render(),
    {
        let mut out = String::new();
        append_if(&mut out, self.disclose_sources, "- Source code must be made available when the software is distributed.\n");
        append_if(&mut out, self.document_changes, "- Changes made to the code must be documented.\n");
        append_if(&mut out, self.license_and_copyright_notice, "- The license and copyright notice must be included with the software.\n");
        append_if(&mut out, self.network_use_is_distribution, "- Users who interact with the software via network are given the right to receive a copy of the source code.\n");
        append_if(&mut out, self.same_license, "- Modifications must be released under the same license.\n");
        assert(out@ =~= self.spec_render());
        out
    }
}

/// The limitations of a license.
#[derive(Copy, Clone, Debug, Default, Hash, PartialEq, Eq, Structural, PartialOrd, Ord)]
pub struct Limitations {
    pub no_liability: bool,
    pub no_trademark_rights: bool,
    pub no_warranty: bool,
    pub no_patent_rights: bool,
}

impl Limitations {
    /// Includes a limitation of liability.
    pub fn no_liability(self) -> (r: bool)
        ensures
            r == self.no_liability,
    {
        self.no_liability
    }

    /// Does not grant trademark rights.
    pub fn no_trademark_rights(self) -> (r: bool)
        ensures
            r == self.no_trademark_rights,
    {
        self.no_trademark_rights
    }

    /// Does not provide any warranty.
    pub fn no_warranty(self) -> (r: bool)
        ensures
            r == self.no_warranty,
    {
        self.no_warranty
    }

    /// Does not provide any rights in the patents of contributors.
    pub fn no_patent_rights(self) -> (r: bool)
        ensures
            r == self.no_patent_rights,
    {
        self.no_patent_rights
    }

    /// One line per flag that is set, in field order, each `- ...` and a
    /// newline.
    pub open spec fn spec_render(self) -> Seq<char> {
        line_if(self.no_liability, "- Includes a limitation of liability.\n")
            + line_if(self.no_trademark_rights, "- Does not grant trademark rights.\n")
            + line_if(self.no_warranty, "- Does not provide any warranty.\n")
            + line_if(self.no_patent_rights, "- Does not provide any rights in the patents of contributors.\n")
    }

    /// The text form: one bullet line per flag that is set.
    pub fn render(&self) -> (r: String)
        ensures
            r@ == self.spec_render(),
    {
        let mut out = String::new();
        append_if(&mut out, self.no_liability, "- Includes a limitation of liability.\n");
        append_if(&mut out, self.no_trademark_rights, "- Does not grant trademark rights.\n");
        append_if(&mut out, self.no_warranty, "- Does not provide any warranty.\n");
        append_if(&mut out, self.no_patent_rights, "- Does not provide any rights in the patents of contributors.\n");
        assert(out@ =~= self.spec_render());
        out
    }
}

/// The licenses that carry a curated rights profile.
#[derive(Copy, Clone, Debug, Hash, PartialEq, Eq, Structural, PartialOrd, Ord)]
pub enum CuratedLicense {
    /// `AFL-3.0`
    Afl30,
    /// `AGPL-3.0-only`
    Agpl30Only,
    /// `Apache-2.0`
    Apache20,
    /// `0BSD`
    Bsd0,
    /// `BSD-2-Clause`
    Bsd2Clause,
    /// `BSD-3-Clause`
    Bsd3Clause,
    /// `BSD-3-Clause-Clear`
    Bsd3ClauseClear,
    /// `BSL-1.0`
    Bsl10,
    /// `CC0-1.0`
    Cc010,
    /// `GPL-3.0-only`
    Gpl30Only,
    /// `LGPL-3.0-only`
    Lgpl30Only,
    /// `MIT`
    Mit,
    /// `MPL-2.0`
    Mpl20,
    /// `OSL-3.0`
    Osl30,
    /// `Unlicense`
    Unlicense,
    /// `WTFPL`
    Wtfpl,
}

impl CuratedLicense {
    /// The SPDX identifier of the license.
    pub open spec fn spec_id(self) -> Seq<char> {
        match self {
            CuratedLicense::Afl30 => "AFL-3.0"@,
            CuratedLicense::Agpl30Only => "AGPL-3.0-only"@,
            CuratedLicense::Apache20 => "Apache-2.0"@,
            CuratedLicense::Bsd0 => "0BSD"@,
            CuratedLicense::Bsd2Clause => "BSD-2-Clause"@,
            CuratedLicense::Bsd3Clause => "BSD-3-Clause"@,
            CuratedLicense::Bsd3ClauseClear => "BSD-3-Clause-Clear"@,
            CuratedLicense::Bsl10 => "BSL-1.0"@,
            CuratedLicense::Cc010 => "CC0-1.0"@,
            CuratedLicense::Gpl30Only => "GPL-3.0-only"@,
            CuratedLicense::Lgpl30Only => "LGPL-3.0-only"@,
            CuratedLicense::Mit => "MIT"@,
            CuratedLicense::Mpl20 => "MPL-2.0"@,
            CuratedLicense::Osl30 => "OSL-3.0"@,
            CuratedLicense::Unlicense => "Unlicense"@,
            CuratedLicense::Wtfpl => "WTFPL"@,
        }
    }

    /// The SPDX identifier of the license.
    pub fn id(self) -> (r: &'static str)
        ensures
            r@ == self.spec_id(),
    {
        match self {
            CuratedLicense::Afl30 => "AFL-3.0",
            CuratedLicense::Agpl30Only => "AGPL-3.0-only",
            CuratedLicense::Apache20 => "Apache-2.0",
            CuratedLicense::Bsd0 => "0BSD",
            CuratedLicense::Bsd2Clause => "BSD-2-Clause",
            CuratedLicense::Bsd3Clause => "BSD-3-Clause",
            CuratedLicense::Bsd3ClauseClear => "BSD-3-Clause-Clear",
            CuratedLicense::Bsl10 => "BSL-1.0",
            CuratedLicense::Cc010 => "CC0-1.0",
            CuratedLicense::Gpl30Only => "GPL-3.0-only",
            CuratedLicense::Lgpl30Only => "LGPL-3.0-only",
            CuratedLicense::Mit => "MIT",
            CuratedLicense::Mpl20 => "MPL-2.0",
            CuratedLicense::Osl30 => "OSL-3.0",
            CuratedLicense::Unlicense => "Unlicense",
            CuratedLicense::Wtfpl => "WTFPL",
        }
    }

    /// The curated permissions of the license.
    pub open spec fn spec_permissions(self) -> Permissions {
        match self {
            CuratedLicense::Afl30 => Permissions { commercial_use: true, distribution: true, modification: true, patent_rights: true, private_use: true },
            CuratedLicense::Agpl30Only => Permissions { commercial_use: true, distribution: true, modification: true, patent_rights: true, private_use: true },
            CuratedLicense::Apache20 => Permissions { commercial_use: true, distribution: true, modification: true, patent_rights: true, private_use: true },
            CuratedLicense::Bsd0 => Permissions { commercial_use: true, distribution: true, modification: true, patent_rights: false, private_use: true },
            CuratedLicense::Bsd2Clause => Permissions { commercial_use: true, distribution: true, modification: true, patent_rights: false, private_use: true },
            CuratedLicense::Bsd3Clause => Permissions { commercial_use: true, distribution: true, modification: true, patent_rights: false, private_use: true },
            CuratedLicense::Bsd3ClauseClear => Permissions { commercial_use: true, distribution: true, modification: true, patent_rights: false, private_use: true },
            CuratedLicense::Bsl10 => Permissions { commercial_use: true, distribution: true, modification: true, patent_rights: false, private_use: true },
            CuratedLicense::Cc010 => Permissions { commercial_use: true, distribution: true, modification: true, patent_rights: false, private_use: true },
            CuratedLicense::Gpl30Only => Permissions { commercial_use: true, distribution: true, modification: true, patent_rights: true, private_use: true },
            CuratedLicense::Lgpl30Only => Permissions { commercial_use: true, distribution: true, modification: true, patent_rights: true, private_use: true },
            CuratedLicense::Mit => Permissions { commercial_use: true, distribution: true, modification: true, patent_rights: false, private_use: true },
            CuratedLicense::Mpl20 => Permissions { commercial_use: true, distribution: true, modification: true, patent_rights: true, private_use: true },
            CuratedLicense::Osl30 => Permissions { commercial_use: true, distribution: true, modification: true, patent_rights: true, private_use: true },
            CuratedLicense::Unlicense => Permissions { commercial_use: true, distribution: true, modification: true, patent_rights: false, private_use: true },
            CuratedLicense::Wtfpl => Permissions { commercial_use: true, distribution: true, modification: true, patent_rights: false, private_use: true },
        }
    }

    /// The curated conditions of the license.
    pub open spec fn spec_conditions(self) -> Conditions {
        match self {
            CuratedLicense::Afl30 => Conditions { disclose_sources: false, document_changes: true, license_and_copyright_notice: true, network_use_is_distribution: false, same_license: false },
            CuratedLicense::Agpl30Only => Conditions { disclose_sources: true, document_changes: true, license_and_copyright_notice: true, network_use_is_distribution: true, same_license: true },
            CuratedLicense::Apache20 => Conditions { disclose_sources: false, document_changes: true, license_and_copyright_notice: true, network_use_is_distribution: false, same_license: false },
            CuratedLicense::Bsd0 => Conditions { disclose_sources: false, document_changes: false, license_and_copyright_notice: false, network_use_is_distribution: false, same_license: false },
            CuratedLicense::Bsd2Clause => Conditions { disclose_sources: false, document_changes: false, license_and_copyright_notice: true, network_use_is_distribution: false, same_license: false },
            CuratedLicense::Bsd3Clause => Conditions { disclose_sources: false, document_changes: false, license_and_copyright_notice: true, network_use_is_distribution: false, same_license: false },
            CuratedLicense::Bsd3ClauseClear => Conditions { disclose_sources: false, document_changes: false, license_and_copyright_notice: true, network_use_is_distribution: false, same_license: false },
            CuratedLicense::Bsl10 => Conditions { disclose_sources: false, document_changes: false, license_and_copyright_notice: true, network_use_is_distribution: false, same_license: false },
            CuratedLicense::Cc010 => Conditions { disclose_sources: false, document_changes: false, license_and_copyright_notice: false, network_use_is_distribution: false, same_license: false },
            CuratedLicense::Gpl30Only => Conditions { disclose_sources: true, document_changes: true, license_and_copyright_notice: true, network_use_is_distribution: false, same_license: true },
            CuratedLicense::Lgpl30Only => Conditions { disclose_sources: true, document_changes: true, license_and_copyright_notice: true, network_use_is_distribution: false, same_license: true },
            CuratedLicense::Mit => Conditions { disclose_sources: false, document_changes: false, license_and_copyright_notice: true, network_use_is_distribution: false, same_license: false },
            CuratedLicense::Mpl20 => Conditions { disclose_sources: true, document_changes: false, license_and_copyright_notice: true, network_use_is_distribution: false, same_license: true },
            CuratedLicense::Osl30 => Conditions { disclose_sources: true, document_changes: true, license_and_copyright_notice: true, network_use_is_distribution: true, same_license: true },
            CuratedLicense::Unlicense => Conditions { disclose_sources: false, document_changes: false, license_and_copyright_notice: false, network_use_is_distribution: false, same_license: false },
            CuratedLicense::Wtfpl => Conditions { disclose_sources: false, document_changes: false, license_and_copyright_notice: false, network_use_is_distribution: false, same_license: false },
        }
    }

    /// The curated limitations of the license.
    pub open spec fn spec_limitations(self) -> Limitations {
        match self {
            CuratedLicense::Afl30 => Limitations { no_liability: true, no_trademark_rights: true, no_warranty: true, no_patent_rights: false },
            CuratedLicense::Agpl30Only => Limitations { no_liability: true, no_trademark_rights: false, no_warranty: true, no_patent_rights: false },
            CuratedLicense::Apache20 => Limitations { no_liability: true, no_trademark_rights: true, no_warranty: true, no_patent_rights: false },
            CuratedLicense::Bsd0 => Limitations { no_liability: true, no_trademark_rights: false, no_warranty: true, no_patent_rights: false },
            CuratedLicense::Bsd2Clause => Limitations { no_liability: true, no_trademark_rights: false, no_warranty: true, no_patent_rights: false },
            CuratedLicense::Bsd3Clause => Limitations { no_liability: true, no_trademark_rights: false, no_warranty: true, no_patent_rights: false },
            CuratedLicense::Bsd3ClauseClear => Limitations { no_liability: true, no_trademark_rights: false, no_warranty: true, no_patent_rights: true },
            CuratedLicense::Bsl10 => Limitations { no_liability: true, no_trademark_rights: false, no_warranty: true, no_patent_rights: false },
            CuratedLicense::Cc010 => Limitations { no_liability: true, no_trademark_rights: true, no_warranty: true, no_patent_rights: true },
            CuratedLicense::Gpl30Only => Limitations { no_liability: true, no_trademark_rights: false, no_warranty: true, no_patent_rights: false },
            CuratedLicense::Lgpl30Only => Limitations { no_liability: true, no_trademark_rights: false, no_warranty: true, no_patent_rights: false },
            CuratedLicense::Mit => Limitations { no_liability: true, no_trademark_rights: false, no_warranty: true, no_patent_rights: false },
            CuratedLicense::Mpl20 => Limitations { no_liability: true, no_trademark_rights: true, no_warranty: true, no_patent_rights: false },
            CuratedLicense::Osl30 => Limitations { no_liability: true, no_trademark_rights: true, no_warranty: true, no_patent_rights: false },
            CuratedLicense::Unlicense => Limitations { no_liability: true, no_trademark_rights: false, no_warranty: true, no_patent_rights: false },
            CuratedLicense::Wtfpl => Limitations { no_liability: false, no_trademark_rights: false, no_warranty: false, no_patent_rights: false },
        }
    }

}

/// A license with a curated rights profile.
pub trait LicenseExt {
    /// The SPDX identifier.
    fn id(&self) -> &'static str;

    /// The permissions of the license.
    fn permissions(&self) -> Permissions;

    /// The conditions of the license.
    fn conditions(&self) -> Conditions;

    /// The limitations of the license.
    fn limitations(&self) -> Limitations;
}

impl LicenseExt for CuratedLicense {
    fn id(&self) -> (r: &'static str)
        ensures
            r@ == self.spec_id(),
    {
        CuratedLicense::id(*self)
    }

    fn permissions(&self) -> (r: Permissions)
        ensures
            r == self.spec_permissions(),
    {
        match self {
            CuratedLicense::Afl30 => Permissions { commercial_use: true, distribution: true, modification: true, patent_rights: true, private_use: true },
            CuratedLicense::Agpl30Only => Permissions { commercial_use: true, distribution: true, modification: true, patent_rights: true, private_use: true },
            CuratedLicense::Apache20 => Permissions { commercial_use: true, distribution: true, modification: true, patent_rights: true, private_use: true },
            CuratedLicense::Bsd0 => Permissions { commercial_use: true, distribution: true, modification: true, patent_rights: false, private_use: true },
            CuratedLicense::Bsd2Clause => Permissions { commercial_use: true, distribution: true, modification: true, patent_rights: false, private_use: true },
            CuratedLicense::Bsd3Clause => Permissions { commercial_use: true, distribution: true, modification: true, patent_rights: false, private_use: true },
            CuratedLicense::Bsd3ClauseClear => Permissions { commercial_use: true, distribution: true, modification: true, patent_rights: false, private_use: true },
            CuratedLicense::Bsl10 => Permissions { commercial_use: true, distribution: true, modification: true, patent_rights: false, private_use: true },
            CuratedLicense::Cc010 => Permissions { commercial_use: true, distribution: true, modification: true, patent_rights: false, private_use: true },
            CuratedLicense::Gpl30Only => Permissions { commercial_use: true, distribution: true, modification: true, patent_rights: true, private_use: true },
            CuratedLicense::Lgpl30Only => Permissions { commercial_use: true, distribution: true, modification: true, patent_rights: true, private_use: true },
            CuratedLicense::Mit => Permissions { commercial_use: true, distribution: true, modification: true, patent_rights: false, private_use: true },
            CuratedLicense::Mpl20 => Permissions { commercial_use: true, distribution: true, modification: true, patent_rights: true, private_use: true },
            CuratedLicense::Osl30 => Permissions { commercial_use: true, distribution: true, modification: true, patent_rights: true, private_use: true },
            CuratedLicense::Unlicense => Permissions { commercial_use: true, distribution: true, modification: true, patent_rights: false, private_use: true },
            CuratedLicense::Wtfpl => Permissions { commercial_use: true, distribution: true, modification: true, patent_rights: false, private_use: true },
        }
    }

    fn conditions(&self) -> (r: Conditions)
        ensures
            r == self.spec_conditions(),
    {
        match self {
            CuratedLicense::Afl30 => Conditions { disclose_sources: false, document_changes: true, license_and_copyright_notice: true, network_use_is_distribution: false, same_license: false },
            CuratedLicense::Agpl30Only => Conditions { disclose_sources: true, document_changes: true, license_and_copyright_notice: true, network_use_is_distribution: true, same_license: true },
            CuratedLicense::Apache20 => Conditions { disclose_sources: false, document_changes: true, license_and_copyright_notice: true, network_use_is_distribution: false, same_license: false },
            CuratedLicense::Bsd0 => Conditions { disclose_sources: false, document_changes: false, license_and_copyright_notice: false, network_use_is_distribution: false, same_license: false },
            CuratedLicense::Bsd2Clause => Conditions { disclose_sources: false, document_changes: false, license_and_copyright_notice: true, network_use_is_distribution: false, same_license: false },
            CuratedLicense::Bsd3Clause => Conditions { disclose_sources: false, document_changes: false, license_and_copyright_notice: true, network_use_is_distribution: false, same_license: false },
            CuratedLicense::Bsd3ClauseClear => Conditions { disclose_sources: false, document_changes: false, license_and_copyright_notice: true, network_use_is_distribution: false, same_license: false },
            CuratedLicense::Bsl10 => Conditions { disclose_sources: false, document_changes: false, license_and_copyright_notice: true, network_use_is_distribution: false, same_license: false },
            CuratedLicense::Cc010 => Conditions { disclose_sources: false, document_changes: false, license_and_copyright_notice: false, network_use_is_distribution: false, same_license: false },
            CuratedLicense::Gpl30Only => Conditions { disclose_sources: true, document_changes: true, license_and_copyright_notice: true, network_use_is_distribution: false, same_license: true },
            CuratedLicense::Lgpl30Only => Conditions { disclose_sources: true, document_changes: true, license_and_copyright_notice: true, network_use_is_distribution: false, same_license: true },
            CuratedLicense::Mit => Conditions { disclose_sources: false, document_changes: false, license_and_copyright_notice: true, network_use_is_distribution: false, same_license: false },
            CuratedLicense::Mpl20 => Conditions { disclose_sources: true, document_changes: false, license_and_copyright_notice: true, network_use_is_distribution: false, same_license: true },
            CuratedLicense::Osl30 => Conditions { disclose_sources: true, document_changes: true, license_and_copyright_notice: true, network_use_is_distribution: true, same_license: true },
            CuratedLicense::Unlicense => Conditions { disclose_sources: false, document_changes: false, license_and_copyright_notice: false, network_use_is_distribution: false, same_license: false },
            CuratedLicense::Wtfpl => Conditions { disclose_sources: false, document_changes: false, license_and_copyright_notice: false, network_use_is_distribution: false, same_license: false },
        }
    }

    fn limitations(&self) -> (r: Limitations)
        ensures
            r == self.spec_limitations(),
    {
        match self {
            CuratedLicense::Afl30 => Limitations { no_liability: true, no_trademark_rights: true, no_warranty: true, no_patent_rights: false },
            CuratedLicense::Agpl30Only => Limitations { no_liability: true, no_trademark_rights: false, no_warranty: true, no_patent_rights: false },
            CuratedLicense::Apache20 => Limitations { no_liability: true, no_trademark_rights: true, no_warranty: true, no_patent_rights: false },
            CuratedLicense::Bsd0 => Limitations { no_liability: true, no_trademark_rights: false, no_warranty: true, no_patent_rights: false },
            CuratedLicense::Bsd2Clause => Limitations { no_liability: true, no_trademark_rights: false, no_warranty: true, no_patent_rights: false },
            CuratedLicense::Bsd3Clause => Limitations { no_liability: true, no_trademark_rights: false, no_warranty: true, no_patent_rights: false },
            CuratedLicense::Bsd3ClauseClear => Limitations { no_liability: true, no_trademark_rights: false, no_warranty: true, no_patent_rights: true },
            CuratedLicense::Bsl10 => Limitations { no_liability: true, no_trademark_rights: false, no_warranty: true, no_patent_rights: false },
            CuratedLicense::Cc010 => Limitations { no_liability: true, no_trademark_rights: true, no_warranty: true, no_patent_rights: true },
            CuratedLicense::Gpl30Only => Limitations { no_liability: true, no_trademark_rights: false, no_warranty: true, no_patent_rights: false },
            CuratedLicense::Lgpl30Only => Limitations { no_liability: true, no_trademark_rights: false, no_warranty: true, no_patent_rights: false },
            CuratedLicense::Mit => Limitations { no_liability: true, no_trademark_rights: false, no_warranty: true, no_patent_rights: false },
            CuratedLicense::Mpl20 => Limitations { no_liability: true, no_trademark_rights: true, no_warranty: true, no_patent_rights: false },
            CuratedLicense::Osl30 => Limitations { no_liability: true, no_trademark_rights: true, no_warranty: true, no_patent_rights: false },
            CuratedLicense::Unlicense => Limitations { no_liability: true, no_trademark_rights: false, no_warranty: true, no_patent_rights: false },
            CuratedLicense::Wtfpl => Limitations { no_liability: false, no_trademark_rights: false, no_warranty: false, no_patent_rights: false },
        }
    }
}

/// The curated license whose identifier is exactly `id`.
pub open spec fn curated_by_id(id: Seq<char>) -> Option<CuratedLicense> {
    if id == "AFL-3.0"@ {
        Some(CuratedLicense::Afl30)
    } else if id == "AGPL-3.0-only"@ {
        Some(CuratedLicense::Agpl30Only)
    } else if id == "Apache-2.0"@ {
        Some(CuratedLicense::Apache20)
    } else if id == "0BSD"@ {
        Some(CuratedLicense::Bsd0)
    } else if id == "BSD-2-Clause"@ {
        Some(CuratedLicense::Bsd2Clause)
    } else if id == "BSD-3-Clause"@ {
        Some(CuratedLicense::Bsd3Clause)
    } else if id == "BSD-3-Clause-Clear"@ {
        Some(CuratedLicense::Bsd3ClauseClear)
    } else if id == "BSL-1.0"@ {
        Some(CuratedLicense::Bsl10)
    } else if id == "CC0-1.0"@ {
        Some(CuratedLicense::Cc010)
    } else if id == "GPL-3.0-only"@ {
        Some(CuratedLicense::Gpl30Only)
    } else if id == "LGPL-3.0-only"@ {
        Some(CuratedLicense::Lgpl30Only)
    } else if id == "MIT"@ {
        Some(CuratedLicense::Mit)
    } else if id == "MPL-2.0"@ {
        Some(CuratedLicense::Mpl20)
    } else if id == "OSL-3.0"@ {
        Some(CuratedLicense::Osl30)
    } else if id == "Unlicense"@ {
        Some(CuratedLicense::Unlicense)
    } else if id == "WTFPL"@ {
        Some(CuratedLicense::Wtfpl)
    } else {
        None
    }
}

/// The curated license whose identifier is exactly `id` (case-sensitive),
/// or `None` for every other identifier.
pub fn from_id_ext(id: &str) -> (r: Option<CuratedLicense>)
    ensures
        r == curated_by_id(id@),
{
    if str_eq(id, "AFL-3.0") {
        return Some(CuratedLicense::Afl30);
    }
    if str_eq(id, "AGPL-3.0-only") {
        return Some(CuratedLicense::Agpl30Only);
    }
    if str_eq(id, "Apache-2.0") {
        return Some(CuratedLicense::Apache20);
    }
    if str_eq(id, "0BSD") {
        return Some(CuratedLicense::Bsd0);
    }
    if str_eq(id, "BSD-2-Clause") {
        return Some(CuratedLicense::Bsd2Clause);
    }
    if str_eq(id, "BSD-3-Clause") {
        return Some(CuratedLicense::Bsd3Clause);
    }
    if str_eq(id, "BSD-3-Clause-Clear") {
        return Some(CuratedLicense::Bsd3ClauseClear);
    }
    if str_eq(id, "BSL-1.0") {
        return Some(CuratedLicense::Bsl10);
    }
    if str_eq(id, "CC0-1.0") {
        return Some(CuratedLicense::Cc010);
    }
    if str_eq(id, "GPL-3.0-only") {
        return Some(CuratedLicense::Gpl30Only);
    }
    if str_eq(id, "LGPL-3.0-only") {
        return Some(CuratedLicense::Lgpl30Only);
    }
    if str_eq(id, "MIT") {
        return Some(CuratedLicense::Mit);
    }
    if str_eq(id, "MPL-2.0") {
        return Some(CuratedLicense::Mpl20);
    }
    if str_eq(id, "OSL-3.0") {
        return Some(CuratedLicense::Osl30);
    }
    if str_eq(id, "Unlicense") {
        return Some(CuratedLicense::Unlicense);
    }
    if str_eq(id, "WTFPL") {
        return Some(CuratedLicense::Wtfpl);
    }
    None
}

/// Whether the text `t` carries the signature by which `k` is recognised.
/// Only some curated licenses have one.
pub open spec fn has_signature(k: CuratedLicense, t: Seq<char>) -> bool {
    match k {
        CuratedLicense::Mit => has_substring(t, "MIT License"@),
        CuratedLicense::Apache20 => has_substring(t, "Version 2.0"@) && has_substring(t, "Apache License"@),
        CuratedLicense::Gpl30Only => has_substring(t, "Version 3"@) && has_substring(t, "GNU GENERAL PUBLIC LICENSE"@),
        CuratedLicense::Mpl20 => has_substring(t, "Version 2.0"@) && has_substring(t, "Mozilla Public License"@),
        CuratedLicense::Unlicense => has_substring(t, "This is free and unencumbered software released into the public domain."@),
        CuratedLicense::Lgpl30Only => has_substring(t, "Version 3"@) && has_substring(t, "GNU LESSER GENERAL PUBLIC LICENSE"@),
        CuratedLicense::Agpl30Only => has_substring(t, "Version 3"@) && has_substring(t, "GNU AFFERO GENERAL PUBLIC LICENSE"@),
        CuratedLicense::Cc010 => has_substring(t, "CC0 1.0 Universal"@),
        _ => false,
    }
}

/// The place of `k`'s signature in the order in which signatures are tried.
pub open spec fn signature_rank(k: CuratedLicense) -> int {
    match k {
        CuratedLicense::Mit => 0,
        CuratedLicense::Apache20 => 1,
        CuratedLicense::Gpl30Only => 2,
        CuratedLicense::Mpl20 => 3,
        CuratedLicense::Unlicense => 4,
        CuratedLicense::Lgpl30Only => 5,
        CuratedLicense::Agpl30Only => 6,
        CuratedLicense::Cc010 => 7,
        _ => 8,
    }
}

/// The license that a text is taken for: the first license, in signature
/// order, whose signature the text carries.
pub open spec fn curated_by_text(t: Seq<char>) -> Option<CuratedLicense> {
    if has_signature(CuratedLicense::Mit, t) {
        Some(CuratedLicense::Mit)
    } else if has_signature(CuratedLicense::Apache20, t) {
        Some(CuratedLicense::Apache20)
    } else if has_signature(CuratedLicense::Gpl30Only, t) {
        Some(CuratedLicense::Gpl30Only)
    } else if has_signature(CuratedLicense::Mpl20, t) {
        Some(CuratedLicense::Mpl20)
    } else if has_signature(CuratedLicense::Unlicense, t) {
        Some(CuratedLicense::Unlicense)
    } else if has_signature(CuratedLicense::Lgpl30Only, t) {
        Some(CuratedLicense::Lgpl30Only)
    } else if has_signature(CuratedLicense::Agpl30Only, t) {
        Some(CuratedLicense::Agpl30Only)
    } else if has_signature(CuratedLicense::Cc010, t) {
        Some(CuratedLicense::Cc010)
    } else {
        None
    }
}

/// Whether the characters `t` contain those of `p`.
fn has_chars(t: &Vec<char>, p: &str) -> (r: bool)
    ensures
        r == has_substring(t@, p@),
{
    let pc = chars_of(p);
    contains_chars(t, &pc)
}

/// Guesses the curated license that `text` is the text of, by exact,
/// case-sensitive signature substrings tried in a fixed order; the first that
/// matches wins.
pub fn from_text(text: &str) -> (r: Option<CuratedLicense>)
    ensures
        r == curated_by_text(text@),
{
    let t = chars_of(text);
    if has_chars(&t, "MIT License") {
        return Some(CuratedLicense::Mit);
    }
    if has_chars(&t, "Version 2.0") && has_chars(&t, "Apache License") {
        return Some(CuratedLicense::Apache20);
    }
    if has_chars(&t, "Version 3") && has_chars(&t, "GNU GENERAL PUBLIC LICENSE") {
        return Some(CuratedLicense::Gpl30Only);
    }
    if has_chars(&t, "Version 2.0") && has_chars(&t, "Mozilla Public License") {
        return Some(CuratedLicense::Mpl20);
    }
    if has_chars(&t, "This is free and unencumbered software released into the public domain.") {
        return Some(CuratedLicense::Unlicense);
    }
    if has_chars(&t, "Version 3") && has_chars(&t, "GNU LESSER GENERAL PUBLIC LICENSE") {
        return Some(CuratedLicense::Lgpl30Only);
    }
    if has_chars(&t, "Version 3") && has_chars(&t, "GNU AFFERO GENERAL PUBLIC LICENSE") {
        return Some(CuratedLicense::Agpl30Only);
    }
    if has_chars(&t, "CC0 1.0 Universal") {
        return Some(CuratedLicense::Cc010);
    }
    None
}

/// Every curated license is found under its own identifier.
pub proof fn law_curated_ids_resolve(k: CuratedLicense)
    ensures
        curated_by_id(k.spec_id()) == Some(k),
{
    reveal_strlit("AFL-3.0");
    assert("AFL-3.0"@.len() == 7 && "AFL-3.0"@[0] == 'A');
    reveal_strlit("AGPL-3.0-only");
    assert("AGPL-3.0-only"@.len() == 13 && "AGPL-3.0-only"@[0] == 'A');
    reveal_strlit("Apache-2.0");
    assert("Apache-2.0"@.len() == 10 && "Apache-2.0"@[0] == 'A');
    reveal_strlit("0BSD");
    assert("0BSD"@.len() == 4 && "0BSD"@[0] == '0');
    reveal_strlit("BSD-2-Clause");
    assert("BSD-2-Clause"@.len() == 12 && "BSD-2-Clause"@[0] == 'B' && "BSD-2-Clause"@[4] == '2');
    reveal_strlit("BSD-3-Clause");
    assert("BSD-3-Clause"@.len() == 12 && "BSD-3-Clause"@[0] == 'B' && "BSD-3-Clause"@[4] == '3');
    reveal_strlit("BSD-3-Clause-Clear");
    assert("BSD-3-Clause-Clear"@.len() == 18 && "BSD-3-Clause-Clear"@[0] == 'B' && "BSD-3-Clause-Clear"@[4] == '3');
    reveal_strlit("BSL-1.0");
    assert("BSL-1.0"@.len() == 7 && "BSL-1.0"@[0] == 'B');
    reveal_strlit("CC0-1.0");
    assert("CC0-1.0"@.len() == 7 && "CC0-1.0"@[0] == 'C');
    reveal_strlit("GPL-3.0-only");
    assert("GPL-3.0-only"@.len() == 12 && "GPL-3.0-only"@[0] == 'G');
    reveal_strlit("LGPL-3.0-only");
    assert("LGPL-3.0-only"@.len() == 13 && "LGPL-3.0-only"@[0] == 'L');
    reveal_strlit("MIT");
    assert("MIT"@.len() == 3 && "MIT"@[0] == 'M');
    reveal_strlit("MPL-2.0");
    assert("MPL-2.0"@.len() == 7 && "MPL-2.0"@[0] == 'M');
    reveal_strlit("OSL-3.0");
    assert("OSL-3.0"@.len() == 7 && "OSL-3.0"@[0] == 'O');
    reveal_strlit("Unlicense");
    assert("Unlicense"@.len() == 9 && "Unlicense"@[0] == 'U');
    reveal_strlit("WTFPL");
    assert("WTFPL"@.len() == 5 && "WTFPL"@[0] == 'W');
}

/// Signatures are tried in a fixed order and the first that matches wins: a
/// text that carries `k`'s signature and none that comes before it is taken
/// for `k`.
pub proof fn law_first_signature_wins(k: CuratedLicense, t: Seq<char>)
    requires
        has_signature(k, t),
        forall|j: CuratedLicense| signature_rank(j) < signature_rank(k) ==> !#[trigger] has_signature(j, t),
    ensures
        curated_by_text(t) == Some(k),
{
    assert(signature_rank(k) < 8);
    assert(!has_signature(CuratedLicense::Mit, t) || k == CuratedLicense::Mit);
    if signature_rank(k) > 1 {
        assert(!has_signature(CuratedLicense::Apache20, t));
    }
    if signature_rank(k) > 2 {
        assert(!has_signature(CuratedLicense::Gpl30Only, t));
    }
    if signature_rank(k) > 3 {
        assert(!has_signature(CuratedLicense::Mpl20, t));
    }
    if signature_rank(k) > 4 {
        assert(!has_signature(CuratedLicense::Unlicense, t));
    }
    if signature_rank(k) > 5 {
        assert(!has_signature(CuratedLicense::Lgpl30Only, t));
    }
    if signature_rank(k) > 6 {
        assert(!has_signature(CuratedLicense::Agpl30Only, t));
    }
}

/// A license's own stored text is taken for that license, wherever the text
/// carries the license's signature and none that comes before it.
pub proof fn law_own_text_recovers_license(entries: Seq<LicenseEntry>, k: CuratedLicense)
    requires
        find_key(entries, k.spec_id()) is Some,
        has_signature(k, find_key(entries, k.spec_id())->0.text@),
        forall|j: CuratedLicense|
            signature_rank(j) < signature_rank(k) ==> !#[trigger] has_signature(
                j,
                find_key(entries, k.spec_id())->0.text@,
            ),
    ensures
        curated_by_text(find_key(entries, k.spec_id())->0.text@) == Some(k),
        find_key(entries, k.spec_id())->0.id@ == k.spec_id(),
{
    let e = find_key(entries, k.spec_id())->0;
    crate::table::lemma_find_key_matches(entries, k.spec_id());
    law_first_signature_wins(k, e.text@);
}

/// A text that says "MIT License" is taken for MIT even where it also
/// carries the GPL-3.0 signature: the MIT rule comes first.
pub proof fn law_mit_before_gpl(t: Seq<char>)
    requires
        has_substring(t, "MIT License"@),
        has_substring(t, "Version 3"@),
        has_substring(t, "GNU GENERAL PUBLIC LICENSE"@),
    ensures
        curated_by_text(t) == Some(CuratedLicense::Mit),
{
}

} // verus!
