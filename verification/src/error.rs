use vstd::prelude::*;

verus! {

/// Everything that can go wrong while assembling the tables of an installer.
#[derive(Debug, PartialEq)]
pub enum MsiBuilderError {
    /// A string that was to become an identifier breaks the identifier rules.
    InvalidIdentifier,
    /// A string that was to become a file name breaks the file name rules.
    InvalidFilename,
    /// A feature identifier is longer than the Feature table allows.
    FeatureIdentifierTooLong,
    /// An entry conflicts with an entry already present in its table.
    EntryConflict,
    /// The identifier is already used by another entry of the package.
    /// Identifiers must be unique across the whole package.
    IdentifierConflict { identifier: crate::identifier::Identifier },
    /// The Feature table holds no default feature.
    NoDefaultFeature,
    /// No File and Directory entries match the source path of a shortcut.
    ShortcutSourceNotFound,
    /// No component installs the feature that a shortcut points at.
    ShortcutFeatureNotFound,
    /// No ServiceInstall entry has the given identifier.
    ServiceInstallNotFound,
    /// A property reference names no property.
    PropertyNotFound,
    /// A reserved property reference `[[name]]` names no system folder.
    InvalidReservedProperty,
    /// Property references nest deeper than there are properties, which
    /// happens only when a property refers back to itself.
    PropertyCycle,
    /// A path has no components.
    EmptyPath,
    /// A directory path ends with `..`, which names no directory.
    NoDirectoryName,
    /// A file path ends with no name: it is empty, is the root alone, or ends
    /// with `.` or `..`.
    NoFileName,
    /// The executable of a service names no file of the package.
    ServiceExecutableNotFound,
    /// A path to set permissions on names no file of the package.
    PermissionPathNotFound,
    /// Permissions can be set on files only, not on directories.
    UnsupportedDirectoryPermission,
    /// An icon file name matches no file, or more than one, under the
    /// configured paths.
    IconNotFound,
    /// A property value is empty.
    EmptyPropertyValue,
    /// A disk number is below 1.
    InvalidDiskId,
    /// The Media table would have to count more files than it can.
    SequenceOverflow,
    /// The system gave no random bytes for a fresh identifier.
    RandomUnavailable,
}

} // verus!
