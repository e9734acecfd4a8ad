//! Information about the package as a whole, written to its summary
//! information stream.

use vstd::prelude::*;

verus! {

/// The kind of package being built.
#[derive(Clone, Copy, Debug, PartialEq, Eq, Structural)]
pub enum PackageType {
    Installer,
    Patch,
    Transform,
}

/// The processor architecture that a package targets.
#[derive(Clone, Copy, Debug, PartialEq, Eq, Structural)]
pub enum MsiArchitecture {
    Intel,
    X64,
    Arm64,
    Intel64,
}

/// The platform name written to the summary information for an
/// architecture.
pub open spec fn architecture_name(a: MsiArchitecture) -> Seq<char> {
    match a {
        MsiArchitecture::Intel => "Intel"@,
        MsiArchitecture::X64 => "x64"@,
        MsiArchitecture::Arm64 => "Arm64"@,
        MsiArchitecture::Intel64 => "Intel64"@,
    }
}

impl MsiArchitecture {
    /// The platform name of the architecture.
    pub fn name(&self) -> (r: &'static str)
        ensures
            r@ == architecture_name(*self),
    {
        match self {
            MsiArchitecture::Intel => "Intel",
            MsiArchitecture::X64 => "x64",
            MsiArchitecture::Arm64 => "Arm64",
            MsiArchitecture::Intel64 => "Intel64",
        }
    }
}

/// How strongly a package asks to be opened read-only.
#[derive(Clone, Copy, Debug, PartialEq, Eq, Structural)]
pub enum DocSecurity {
    NoRestriction,
    ReadOnlyRecommended,
    ReadOnlyEnforced,
}

/// The number that the summary information stores for a security level.
pub open spec fn doc_security_value(d: DocSecurity) -> i32 {
    match d {
        DocSecurity::NoRestriction => 0,
        DocSecurity::ReadOnlyRecommended => 2,
        DocSecurity::ReadOnlyEnforced => 4,
    }
}

/// The security level used when none is given: read-only recommended for
/// an installer, read-only enforced for a patch or a transform.
pub open spec fn default_doc_security(p: PackageType) -> DocSecurity {
    match p {
        PackageType::Installer => DocSecurity::ReadOnlyRecommended,
        _ => DocSecurity::ReadOnlyEnforced,
    }
}

impl DocSecurity {
    /// The number stored for the security level.
    pub fn value(&self) -> (r: i32)
        ensures
            r == doc_security_value(*self),
    {
        match self {
            DocSecurity::NoRestriction => 0,
            DocSecurity::ReadOnlyRecommended => 2,
            DocSecurity::ReadOnlyEnforced => 4,
        }
    }

    /// The security level used for a package of the given kind when none is
    /// given.
    pub fn from_package_type(package_type: &PackageType) -> (r: DocSecurity)
        ensures
            r == default_doc_security(*package_type),
    {
        match package_type {
            PackageType::Installer => DocSecurity::ReadOnlyRecommended,
            _ => DocSecurity::ReadOnlyEnforced,
        }
    }
}

/// Information about the whole package. A package cannot be built without
/// it.
pub struct MetaInformation {
    pub package_type: PackageType,
    pub subject: String,
    pub author: Option<String>,
    pub manufacturer: Option<String>,
    pub architecture: Option<MsiArchitecture>,
    /// The language identifiers of the package.
    pub languages: Vec<u16>,
    pub comments: Option<String>,
    pub keywords: Vec<String>,
    /// Left empty, the security level follows from the package type.
    pub security: Option<DocSecurity>,
}

impl MetaInformation {
    /// The information for a package of the given kind and subject, with
    /// everything else left empty.
    pub fn new(package_type: PackageType, subject: String) -> (r: MetaInformation)
        ensures
            r.package_type == package_type,
            r.subject == subject,
            r.author is None,
            r.manufacturer is None,
            r.architecture is None,
            r.languages@.len() == 0,
            r.comments is None,
            r.keywords@.len() == 0,
            r.security is None,
    {
        MetaInformation {
            package_type,
            subject,
            author: None,
            manufacturer: None,
            architecture: None,
            comments: None,
            keywords: Vec::new(),
            languages: Vec::new(),
            security: None,
        }
    }

    /// The same information with the given author.
    pub fn with_author(self, author: Option<String>) -> (r: MetaInformation)
        ensures
            r == (MetaInformation { author, ..self }),
    {
        MetaInformation { author, ..self }
    }

    /// The same information with the given comments.
    pub fn with_comments(self, comments: Option<String>) -> (r: MetaInformation)
        ensures
            r == (MetaInformation { comments, ..self }),
    {
        MetaInformation { comments, ..self }
    }

    /// The same information with the given manufacturer.
    pub fn with_manufacturer(self, manufacturer: Option<String>) -> (r: MetaInformation)
        ensures
            r == (MetaInformation { manufacturer, ..self }),
    {
        MetaInformation { manufacturer, ..self }
    }

    /// The same information with the given architecture.
    pub fn with_architecture(self, architecture: Option<MsiArchitecture>) -> (r: MetaInformation)
        ensures
            r == (MetaInformation { architecture, ..self }),
    {
        MetaInformation { architecture, ..self }
    }

    /// The same information with the given languages.
    pub fn with_languages(self, languages: Vec<u16>) -> (r: MetaInformation)
        ensures
            r == (MetaInformation { languages, ..self }),
    {
        MetaInformation { languages, ..self }
    }

    /// The same information with the given keywords.
    pub fn with_keywords(self, keywords: Vec<String>) -> (r: MetaInformation)
        ensures
            r == (MetaInformation { keywords, ..self }),
    {
        MetaInformation { keywords, ..self }
    }

    /// The same information with the given security level.
    pub fn with_security(self, security: Option<DocSecurity>) -> (r: MetaInformation)
        ensures
            r == (MetaInformation { security, ..self }),
    {
        MetaInformation { security, ..self }
    }

    /// The security level to write: the one given, or else the one that
    /// follows from the package type.
    pub fn doc_security(&self) -> (r: DocSecurity)
        ensures
            r == match self.security {
                Some(s) => s,
                None => default_doc_security(self.package_type),
            },
    {
        match self.security {
            Some(s) => s,
            None => DocSecurity::from_package_type(&self.package_type),
        }
    }
}

} // verus!
