use openmpt::module::iteration::{index_within, pattern_at_order, ModuleCommandIndex};
use openmpt::module::metadata::MetadataKey;
use openmpt::module::render::{
    interleaved_frame_count, quad_frame_count, render_param_result, stereo_frame_count,
    RENDER_INTERPOLATIONFILTER_LENGTH, RENDER_MASTERGAIN_MILLIBEL, RENDER_STEREOSEPARATION_PERCENT,
    RENDER_VOLUMERAMPING_STRENGTH,
};
use openmpt::module::stream::{seek_request, StreamSeek};
use openmpt::module::{is_nonzero, is_success, CouldOpenEffort};

#[test]
fn effort_values_in_tenths() {
    assert_eq!(CouldOpenEffort::NoEffort.value_tenths(), 0);
    assert_eq!(CouldOpenEffort::ProbeFileHeader.value_tenths(), 1);
    assert_eq!(CouldOpenEffort::VerifyHeader.value_tenths(), 2);
    assert_eq!(CouldOpenEffort::LoadWithoutPatternOrPluginData.value_tenths(), 6);
    assert_eq!(CouldOpenEffort::LoadCompleteModule.value_tenths(), 10);
}

#[test]
fn status_codes() {
    assert!(is_success(1));
    assert!(!is_success(0));
    assert!(!is_success(2));
    assert!(!is_success(-1));
    assert!(is_nonzero(1));
    assert!(is_nonzero(-1));
    assert!(!is_nonzero(0));
}

#[test]
fn metadata_keys() {
    assert_eq!(MetadataKey::TypeExt.to_str(), "type");
    assert_eq!(MetadataKey::TypeName.to_str(), "type_long");
    assert_eq!(MetadataKey::ContainerExt.to_str(), "container");
    assert_eq!(MetadataKey::ContainerName.to_str(), "container_long");
    assert_eq!(MetadataKey::ModuleTitle.to_str(), "title");
    assert_eq!(MetadataKey::ModuleArtist.to_str(), "artist");
    assert_eq!(MetadataKey::ModuleTracker.to_str(), "tracker");
    assert_eq!(MetadataKey::ModuleSaveDate.to_str(), "date");
    assert_eq!(MetadataKey::SongMessage.to_str(), "message");
    assert_eq!(MetadataKey::SongMessageOrInstruments.to_str(), "message_raw");
    assert_eq!(MetadataKey::LoadWarnings.to_str(), "warnings");
}

#[test]
fn command_index_values() {
    assert_eq!(ModuleCommandIndex::Note.value(), 0);
    assert_eq!(ModuleCommandIndex::Instrument.value(), 1);
    assert_eq!(ModuleCommandIndex::VolumeEffect.value(), 2);
    assert_eq!(ModuleCommandIndex::Effect.value(), 3);
    assert_eq!(ModuleCommandIndex::Volume.value(), 4);
    assert_eq!(ModuleCommandIndex::Parameter.value(), 5);
}

#[test]
fn order_pattern_sentinel() {
    assert_eq!(pattern_at_order(-1), None);
    assert_eq!(pattern_at_order(0), Some(0));
    assert_eq!(pattern_at_order(17), Some(17));
}

#[test]
fn index_bounds() {
    assert_eq!(index_within(0, 4), Some(0));
    assert_eq!(index_within(3, 4), Some(3));
    assert_eq!(index_within(4, 4), None);
    assert_eq!(index_within(-1, 4), None);
    assert_eq!(index_within(0, 0), None);
}

#[test]
fn frame_counts() {
    assert_eq!(stereo_frame_count(10, 7), 7);
    assert_eq!(stereo_frame_count(3, 7), 3);
    assert_eq!(quad_frame_count(8, 9, 5, 6), 5);
    assert_eq!(quad_frame_count(8, 9, 6, 2), 2);
    assert_eq!(interleaved_frame_count(11, 2), 5);
    assert_eq!(interleaved_frame_count(11, 4), 2);
    assert_eq!(interleaved_frame_count(0, 4), 0);
}

#[test]
fn render_params() {
    assert_eq!(RENDER_MASTERGAIN_MILLIBEL, 1);
    assert_eq!(RENDER_STEREOSEPARATION_PERCENT, 2);
    assert_eq!(RENDER_INTERPOLATIONFILTER_LENGTH, 3);
    assert_eq!(RENDER_VOLUMERAMPING_STRENGTH, 4);
    assert_eq!(render_param_result(1, 100), Some(100));
    assert_eq!(render_param_result(0, 100), None);
}

#[test]
fn seek_origins() {
    assert_eq!(seek_request(16, 0), Some(StreamSeek::Start(16)));
    assert_eq!(seek_request(-1, 0), Some(StreamSeek::Start(u64::MAX)));
    assert_eq!(seek_request(-4, 1), Some(StreamSeek::Current(-4)));
    assert_eq!(seek_request(-4, 2), Some(StreamSeek::End(-4)));
    assert_eq!(seek_request(0, 3), None);
}
