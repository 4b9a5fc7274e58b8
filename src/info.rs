//! Library-related metadata: version numbers and the keys of the library's
//! information strings.

use vstd::prelude::*;

verus! {

/// The OpenMPT core version number, most significant part first.
///
/// `CoreVersion(majormajor, major, minor, minorminor)`
#[derive(Debug, Clone, Copy, PartialEq, Eq, Structural)]
pub struct CoreVersion(pub u8, pub u8, pub u8, pub u8);

/// The libopenmpt version number, most significant part first.
///
/// `LibraryVersion(major, minor, revision)`
#[derive(Debug, Clone, Copy, PartialEq, Eq, Structural)]
pub struct LibraryVersion(pub u8, pub u8, pub u16);

impl CoreVersion {
    /// Splits a packed core version number into its four bytes, most
    /// significant first.
    pub fn from_version_number(version_number: u32) -> (r: CoreVersion)
        ensures
            r.0 == version_number / 0x100_0000,
            r.1 == (version_number / 0x1_0000) % 0x100,
            r.2 == (version_number / 0x100) % 0x100,
            r.3 == version_number % 0x100,
    {
        assert((version_number >> 24u32) as u8 == version_number / 0x100_0000) by (bit_vector);
        assert((version_number >> 16u32) as u8 == (version_number / 0x1_0000) % 0x100)
            by (bit_vector);
        assert((version_number >> 8u32) as u8 == (version_number / 0x100) % 0x100) by (bit_vector);
        assert(version_number as u8 == version_number % 0x100) by (bit_vector);
        CoreVersion(
            (version_number >> 24) as u8,
            (version_number >> 16) as u8,
            (version_number >> 8) as u8,
            version_number as u8,
        )
    }
}

impl LibraryVersion {
    /// Splits a packed library version number into major (top byte), minor
    /// (next byte) and revision (low 16 bits).
    pub fn from_version_number(version_number: u32) -> (r: LibraryVersion)
        ensures
            r.0 == version_number / 0x100_0000,
            r.1 == (version_number / 0x1_0000) % 0x100,
            r.2 == version_number % 0x1_0000,
    {
        assert((version_number >> 24u32) as u8 == version_number / 0x100_0000) by (bit_vector);
        assert((version_number >> 16u32) as u8 == (version_number / 0x1_0000) % 0x100)
            by (bit_vector);
        assert(version_number as u16 == version_number % 0x1_0000) by (bit_vector);
        LibraryVersion((version_number >> 24) as u8, (version_number >> 16) as u8, version_number as u16)
    }
}

/// All the keys that the library's information strings can be queried with.
#[derive(Debug, Clone, Copy, PartialEq, Eq, Structural)]
pub enum InfoField {
    /// Verbose library version string
    LibraryVersion,
    /// Verbose library features string
    LibraryFeatures,
    /// Verbose OpenMPT core version string
    CoreVersion,
    /// Original source code URL
    SourceURL,
    /// Original source code date
    SourceDate,
    /// Information about the current build (e.g. the build date or compiler used)
    Build,
    /// Information about the compiler used to build libopenmpt
    BuildCompiler,
    /// All contributors
    Credits,
    /// Contact information about libopenmpt
    Contact,
    /// The libopenmpt license
    License,
    /// libopenmpt website URL
    URL,
    /// libopenmpt support and discussions forum URL
    SupportForumUrl,
    /// libopenmpt bug and issue tracker URL
    BugtrackerURL,
}

/// The native key of each information field.
pub open spec fn info_key(f: InfoField) -> Seq<char> {
    match f {
        InfoField::LibraryVersion => "library_version"@,
        InfoField::LibraryFeatures => "library_features"@,
        InfoField::CoreVersion => "core_version"@,
        InfoField::SourceURL => "source_url"@,
        InfoField::SourceDate => "source_date"@,
        InfoField::Build => "build"@,
        InfoField::BuildCompiler => "build_compiler"@,
        InfoField::Credits => "credits"@,
        InfoField::Contact => "contact"@,
        InfoField::License => "license"@,
        InfoField::URL => "url"@,
        InfoField::SupportForumUrl => "support_forum_url"@,
        InfoField::BugtrackerURL => "bugtracker_url"@,
    }
}

impl InfoField {
    /// The key under which the native library answers for this field.
    pub fn to_str(&self) -> (r: &'static str)
        ensures
            r@ == info_key(*self),
    {
        match *self {
            InfoField::LibraryVersion => "library_version",
            InfoField::LibraryFeatures => "library_features",
            InfoField::CoreVersion => "core_version",
            InfoField::SourceURL => "source_url",
            InfoField::SourceDate => "source_date",
            InfoField::Build => "build",
            InfoField::BuildCompiler => "build_compiler",
            InfoField::Credits => "credits",
            InfoField::Contact => "contact",
            InfoField::License => "license",
            InfoField::URL => "url",
            InfoField::SupportForumUrl => "support_forum_url",
            InfoField::BugtrackerURL => "bugtracker_url",
        }
    }
}

} // verus!
