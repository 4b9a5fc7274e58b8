use openmpt::mod_command::{EffectCommand, ModCommand, Note, SpecialNote, VolumeCommand};

#[test]
fn middle_c_is_note_61() {
    assert_eq!(ModCommand::middle_c(), 61);
}

#[test]
fn full_cell_decodes() {
    let c = ModCommand::new(61, 3, 1, 1, 64, 0x37).unwrap();
    assert_eq!(c.note, Note::Note(61));
    assert_eq!(c.instr, 3);
    assert_eq!(c.volcmd, VolumeCommand::Volume(64));
    assert_eq!(c.command, EffectCommand::Arpeggio(3, 7));
}

#[test]
fn empty_cell_decodes() {
    let c = ModCommand::new(0, 0, 0, 0, 0, 0).unwrap();
    assert_eq!(
        c,
        ModCommand {
            note: Note::Empty,
            instr: 0,
            volcmd: VolumeCommand::Empty,
            command: EffectCommand::Empty,
        }
    );
}

#[test]
fn note_range_edges() {
    assert_eq!(ModCommand::note_from_value(1).unwrap(), Note::Note(1));
    assert_eq!(ModCommand::note_from_value(120).unwrap(), Note::Note(120));
    assert_eq!(ModCommand::note_from_value(121).unwrap_err(), "Invalid note");
    assert_eq!(ModCommand::note_from_value(0xFA).unwrap_err(), "Invalid note");
}

#[test]
fn special_notes_decode() {
    assert_eq!(ModCommand::note_from_value(0xFF).unwrap(), Note::Special(SpecialNote::KeyOff));
    assert_eq!(ModCommand::note_from_value(0xFE).unwrap(), Note::Special(SpecialNote::NoteCut));
    assert_eq!(ModCommand::note_from_value(0xFD).unwrap(), Note::Special(SpecialNote::Fade));
    assert_eq!(ModCommand::note_from_value(0xFC).unwrap(), Note::Special(SpecialNote::ParamControl));
    assert_eq!(
        ModCommand::note_from_value(0xFB).unwrap(),
        Note::Special(SpecialNote::ParamControlSmooth)
    );
}

#[test]
fn volume_commands_keep_their_parameter() {
    assert_eq!(ModCommand::volume_from_command_param(2, 0x20).unwrap(), VolumeCommand::Panning(0x20));
    assert_eq!(ModCommand::volume_from_command_param(11, 9).unwrap(), VolumeCommand::TonePortamento(9));
    assert_eq!(ModCommand::volume_from_command_param(15, 0xAB).unwrap(), VolumeCommand::Offset(0xAB));
    assert_eq!(ModCommand::volume_from_command_param(16, 0).unwrap_err(), "Invalid volume command");
}

#[test]
fn effects_split_or_keep_their_parameter() {
    assert_eq!(ModCommand::effect_from_command_param(2, 0xAB).unwrap(), EffectCommand::PortamentoUp(0xAB));
    assert_eq!(ModCommand::effect_from_command_param(5, 0xAB).unwrap(), EffectCommand::Vibrato(0xA, 0xB));
    assert_eq!(ModCommand::effect_from_command_param(16, 6).unwrap(), EffectCommand::Speed(6));
    assert_eq!(ModCommand::effect_from_command_param(17, 125).unwrap(), EffectCommand::Tempo(125));
    assert_eq!(ModCommand::effect_from_command_param(33, 0xF0).unwrap(), EffectCommand::DelayCut(0xF, 0));
    assert_eq!(ModCommand::effect_from_command_param(40, 0x0F).unwrap(), EffectCommand::DBMEcho(0, 0xF));
    assert_eq!(ModCommand::effect_from_command_param(41, 50).unwrap(), EffectCommand::OffsetPercentage(50));
    assert_eq!(ModCommand::effect_from_command_param(42, 0).unwrap_err(), "Invalid effect");
    assert_eq!(ModCommand::effect_from_command_param(255, 0).unwrap_err(), "Invalid effect");
}

#[test]
fn note_slides_follow_command_order() {
    assert_eq!(ModCommand::effect_from_command_param(35, 0x12).unwrap(), EffectCommand::NoteSlideUp(1, 2));
    assert_eq!(ModCommand::effect_from_command_param(36, 0x12).unwrap(), EffectCommand::NoteSlideUpRetrig(1, 2));
    assert_eq!(ModCommand::effect_from_command_param(37, 0x12).unwrap(), EffectCommand::NoteSlideDown(1, 2));
    assert_eq!(ModCommand::effect_from_command_param(38, 0x12).unwrap(), EffectCommand::NoteSlideDownRetrig(1, 2));
}

#[test]
fn first_invalid_field_is_reported() {
    assert_eq!(ModCommand::new(200, 0, 99, 99, 0, 0).unwrap_err(), "Invalid note");
    assert_eq!(ModCommand::new(0, 0, 99, 99, 0, 0).unwrap_err(), "Invalid volume command");
    assert_eq!(ModCommand::new(0, 0, 0, 99, 0, 0).unwrap_err(), "Invalid effect");
}
