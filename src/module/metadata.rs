//! The keys of a loaded module's metadata.

use vstd::prelude::*;

verus! {

/// All the metadata keys that a module can be queried with.
#[derive(Debug, Clone, Copy, PartialEq, Eq, Structural)]
pub enum MetadataKey {
    /// Module format extension (e.g. it)
    TypeExt,
    /// Tracker name associated with the module format (e.g. Impulse Tracker)
    TypeName,
    /// Container format the module file is embedded in, if any (e.g. umx)
    ContainerExt,
    /// Full container name if the module is embedded in a container (e.g. Unreal Music)
    ContainerName,
    /// Module title
    ModuleTitle,
    /// Author of the module
    ModuleArtist,
    /// Tracker that was (most likely) used to save the module file, if known
    ModuleTracker,
    /// Date the module was last saved, in ISO-8601 format.
    ModuleSaveDate,
    /// Song message. If the song message is empty or the module format does not support song messages, an empty string is returned.
    SongMessage,
    /// Song message. If the song message is empty or the module format does not support song messages, a list of instrument and sample names is returned instead.
    SongMessageOrInstruments,
    /// A list of warnings that were generated while loading the module.
    LoadWarnings,
}

/// The native key of each metadata item.
pub open spec fn metadata_key_text(k: MetadataKey) -> Seq<char> {
    match k {
        MetadataKey::TypeExt => "type"@,
        MetadataKey::TypeName => "type_long"@,
        MetadataKey::ContainerExt => "container"@,
        MetadataKey::ContainerName => "container_long"@,
        MetadataKey::ModuleTitle => "title"@,
        MetadataKey::ModuleArtist => "artist"@,
        MetadataKey::ModuleTracker => "tracker"@,
        MetadataKey::ModuleSaveDate => "date"@,
        MetadataKey::SongMessage => "message"@,
        MetadataKey::SongMessageOrInstruments => "message_raw"@,
        MetadataKey::LoadWarnings => "warnings"@,
    }
}

impl MetadataKey {
    /// The key under which the native library answers for this item.
    pub fn to_str(&self) -> (r: &'static str)
        ensures
            r@ == metadata_key_text(*self),
    {
        match *self {
            MetadataKey::TypeExt => "type",
            MetadataKey::TypeName => "type_long",
            MetadataKey::ContainerExt => "container",
            MetadataKey::ContainerName => "container_long",
            MetadataKey::ModuleTitle => "title",
            MetadataKey::ModuleArtist => "artist",
            MetadataKey::ModuleTracker => "tracker",
            MetadataKey::ModuleSaveDate => "date",
            MetadataKey::SongMessage => "message",
            MetadataKey::SongMessageOrInstruments => "message_raw",
            MetadataKey::LoadWarnings => "warnings",
        }
    }
}

} // verus!
