//! Data structures meant to simplify pattern-matching against pattern data.
//!
//! The values follow OpenMPT's internal command tables. They are not part of
//! libopenmpt's public API and may change with it.

use vstd::prelude::*;

verus! {

pub const NOTE_NONE: u8 = 0;

pub const NOTE_MIN: u8 = 1;

pub const NOTE_MAX: u8 = 120;

pub const NOTE_MIDDLEC: u8 = 5 * 12 + NOTE_MIN;

pub const NOTE_KEYOFF: u8 = 0xFF;

pub const NOTE_NOTECUT: u8 = 0xFE;

pub const NOTE_FADE: u8 = 0xFD;

pub const NOTE_PC: u8 = 0xFC;

pub const NOTE_PCS: u8 = 0xFB;

/// The special values for Note commands.
#[derive(Debug, Clone, Copy, PartialEq, Eq, Structural)]
pub enum SpecialNote {
    KeyOff,
    NoteCut,
    Fade,
    ParamControl,
    ParamControlSmooth,
}

/// The different values for Note commands.
#[derive(Debug, Clone, Copy, PartialEq, Eq, Structural)]
pub enum Note {
    /// No note in the cell.
    Empty,
    Note(u8),
    Special(SpecialNote),
}


/// The different values for Volume commands.
///
/// Each variant holds its own volume parameter where one applies.
///
/// The meaning of each command varies with the format, internal parameters,
/// the tracker last used, and whether sub-semitone variations use
/// frequencies or periods; the notes here are for reference only.
#[derive(Debug, Clone, Copy, PartialEq, Eq, Structural)]
pub enum VolumeCommand {
    /// No volume command in the cell.
    Empty,
    Volume(u8),
    Panning(u8),
    VolSlideUp(u8),
    VolSlideDown(u8),
    FineVolUp(u8),
    FineVolDown(u8),
    VibratoSpeed(u8),
    VibratoDepth(u8),
    PanSlideLeft(u8),
    PanSlideRight(u8),
    /// Equivalent to the effect, but may be 4 or 16 times less precise
    TonePortamento(u8),
    /// Equivalent to the effect, but may be 4 or 16 times less precise
    PortaUp(u8),
    /// Equivalent to the effect, but may be 4 or 16 times less precise
    PortaDown(u8),
    /// Unused
    DelayCut(u8),
    Offset(u8),
}

/// The different values for Effect commands.
///
/// Each variant holds its own effect parameter where one applies. Effects
/// that read their parameter as two values x and y have them separated.
///
/// The meaning of each effect varies with the format, internal parameters,
/// the tracker last used, and whether sub-semitone variations use
/// frequencies or periods; the notes here are for reference only.
#[derive(Debug, Clone, Copy, PartialEq, Eq, Structural)]
pub enum EffectCommand {
    /// No effect in the cell.
    Empty,
    /// Cycle between note, note+x and note+y on each tick
    Arpeggio(u8, u8),
    /// Raise pitch by xy per tick, sometimes including the first
    ///
    /// Slide fraction is generally 1/16th of a semitone
    PortamentoUp(u8),
    /// Lower pitch by xy per tick, sometimes including the first
    ///
    /// Slide fraction is generally 1/16th of a semitone
    PortamentoDown(u8),
    /// Slide pitch of old note towards new note by xy per tick and stop once reached.
    ///
    /// Slide fraction is generally 1/16th of a semitone
    TonePortamento(u8),
    /// Modulates frequency at a speed of x steps (of 64) *PER ROW* and depth y
    ///
    /// Depth is generally in 1/16th of a semitone
    Vibrato(u8, u8),
    /// Volume Slide + Continue portamento
    TonePortaVol(u8, u8),
    /// Volume Slide + Continue vibrato
    VibratoVol(u8, u8),
    /// Modulates sample volume at a speed of x steps (of 64) *PER ROW* and depth y
    Tremolo(u8, u8),
    /// Set panning from 0x0 to 0xF
    Panning8(u8),
    /// Start playing sample at position xy * 256
    Offset(u8),
    /// Raise sample volume by x or lower by y on each tick but the first
    VolumeSlide(u8, u8),
    /// Jump to pattern at order xy
    PositionJump(u8),
    /// Set sample volume at xy (between 0 and 0x40)
    Volume(u8),
    /// Jump to row xy of pattern set to play next
    PatternBreak(u8),
    /// Retrigger every y ticks, x affects retrigger volume when set
    Retrig(u8, u8),
    /// Set speed at xy ticks per row
    Speed(u8),
    /// Set tempo at xy beats per minute
    Tempo(u8),
    /// Turn volume on for x+1 ticks and mute for y+1 ticks repeatedly
    Tremor(u8, u8),
    /// (Mod and XM) Super command, with x the subcommand and y the parameter.
    ModCmdEX(u8, u8),
    /// (S3M and IT) Super command, with x the subcommand and y the parameter.
    S3MCmdEX(u8, u8),
    /// Set channel volume at xy (between 0 and 0x40)
    ChannelVolume(u8),
    /// Raise channel volume by x or lower by y on each tick but the first
    ChannelVolSlide(u8, u8),
    /// Set global volume at xy (between 0 and 0x40)
    GlobalVolume(u8),
    /// Raise global volume by x or lower by y on each tick but the first
    GlobalVolSlide(u8, u8),
    /// Trigger Note Off after xy ticks
    KeyOff(u8),
    /// Same as vibrato, but depth is 4 times finer
    FineVibrato(u8, u8),
    /// Modulate panning at a speed of x steps (of 64) *PER ROW* and depth y
    Panbrello(u8, u8),
    /// (XM only) Super command, with x the subcommand and y the parameter.
    XFinePortaUpDown(u8, u8),
    /// Slide panning position right by x or left by y on each tick but the first
    ///
    /// Depending on format and settings, it could also apply on the first tick only or on every tick.
    PanningSlide(u8, u8),
    /// Sets the volume envelope position to xy ticks
    SetEnvPosition(u8),
    /// Execute a midi macro
    Midi(u8),
    /// Execute an interpolated midi macro
    SmoothMidi(u8),
    /// Delay note for x ticks and cut after another y ticks.
    ///
    /// If the row ends before either effect is applied (speed is greater than x or x+y), that effect won't be applied.
    DelayCut(u8, u8),
    /// Combines the parameter value with the one on the row above it
    XParam(u8),
    NoteSlideUp(u8, u8),
    NoteSlideDown(u8, u8),
    NoteSlideUpRetrig(u8, u8),
    NoteSlideDownRetrig(u8, u8),
    ReverseOffset(u8),
    /// x : channels, y : enable
    DBMEcho(u8, u8),
    OffsetPercentage(u8),
}

/// The decoded content of one pattern cell.
#[derive(Debug, Clone, Copy, PartialEq, Eq, Structural)]
pub struct ModCommand {
    pub note: Note,
    pub instr: u8,
    pub volcmd: VolumeCommand,
    pub command: EffectCommand,
}

/// The note that a raw note value stands for, or `None` for a value that no
/// note uses.
pub open spec fn note_of(v: u8) -> Option<Note> {
    if v == NOTE_NONE {
        Some(Note::Empty)
    } else if NOTE_MIN <= v && v <= NOTE_MAX {
        Some(Note::Note(v))
    } else if v == NOTE_KEYOFF {
        Some(Note::Special(SpecialNote::KeyOff))
    } else if v == NOTE_NOTECUT {
        Some(Note::Special(SpecialNote::NoteCut))
    } else if v == NOTE_FADE {
        Some(Note::Special(SpecialNote::Fade))
    } else if v == NOTE_PC {
        Some(Note::Special(SpecialNote::ParamControl))
    } else if v == NOTE_PCS {
        Some(Note::Special(SpecialNote::ParamControlSmooth))
    } else {
        None
    }
}

/// The volume command that a raw volume command and its parameter stand for,
/// or `None` for a command number that no volume command uses.
pub open spec fn volume_of(cmd: u8, param: u8) -> Option<VolumeCommand> {
    match cmd {
        0 => Some(VolumeCommand::Empty),
        1 => Some(VolumeCommand::Volume(param)),
        2 => Some(VolumeCommand::Panning(param)),
        3 => Some(VolumeCommand::VolSlideUp(param)),
        4 => Some(VolumeCommand::VolSlideDown(param)),
        5 => Some(VolumeCommand::FineVolUp(param)),
        6 => Some(VolumeCommand::FineVolDown(param)),
        7 => Some(VolumeCommand::VibratoSpeed(param)),
        8 => Some(VolumeCommand::VibratoDepth(param)),
        9 => Some(VolumeCommand::PanSlideLeft(param)),
        10 => Some(VolumeCommand::PanSlideRight(param)),
        11 => Some(VolumeCommand::TonePortamento(param)),
        12 => Some(VolumeCommand::PortaUp(param)),
        13 => Some(VolumeCommand::PortaDown(param)),
        14 => Some(VolumeCommand::DelayCut(param)),
        15 => Some(VolumeCommand::Offset(param)),
        _ => None,
    }
}

/// The high nibble of a parameter byte.
pub open spec fn nibble_x(param: u8) -> u8 {
    (param / 16) as u8
}

/// The low nibble of a parameter byte.
pub open spec fn nibble_y(param: u8) -> u8 {
    (param % 16) as u8
}

/// The effect that a raw effect command and its parameter stand for, or
/// `None` for a command number that no effect uses. Effects that read their
/// parameter as two values get its two nibbles.
pub open spec fn effect_of(cmd: u8, param: u8) -> Option<EffectCommand> {
    let x = nibble_x(param);
    let y = nibble_y(param);
    match cmd {
        0 => Some(EffectCommand::Empty),
        1 => Some(EffectCommand::Arpeggio(x, y)),
        2 => Some(EffectCommand::PortamentoUp(param)),
        3 => Some(EffectCommand::PortamentoDown(param)),
        4 => Some(EffectCommand::TonePortamento(param)),
        5 => Some(EffectCommand::Vibrato(x, y)),
        6 => Some(EffectCommand::TonePortaVol(x, y)),
        7 => Some(EffectCommand::VibratoVol(x, y)),
        8 => Some(EffectCommand::Tremolo(x, y)),
        9 => Some(EffectCommand::Panning8(param)),
        10 => Some(EffectCommand::Offset(param)),
        11 => Some(EffectCommand::VolumeSlide(x, y)),
        12 => Some(EffectCommand::PositionJump(param)),
        13 => Some(EffectCommand::Volume(param)),
        14 => Some(EffectCommand::PatternBreak(param)),
        15 => Some(EffectCommand::Retrig(x, y)),
        16 => Some(EffectCommand::Speed(param)),
        17 => Some(EffectCommand::Tempo(param)),
        18 => Some(EffectCommand::Tremor(x, y)),
        19 => Some(EffectCommand::ModCmdEX(x, y)),
        20 => Some(EffectCommand::S3MCmdEX(x, y)),
        21 => Some(EffectCommand::ChannelVolume(param)),
        22 => Some(EffectCommand::ChannelVolSlide(x, y)),
        23 => Some(EffectCommand::GlobalVolume(param)),
        24 => Some(EffectCommand::GlobalVolSlide(x, y)),
        25 => Some(EffectCommand::KeyOff(param)),
        26 => Some(EffectCommand::FineVibrato(x, y)),
        27 => Some(EffectCommand::Panbrello(x, y)),
        28 => Some(EffectCommand::XFinePortaUpDown(x, y)),
        29 => Some(EffectCommand::PanningSlide(x, y)),
        30 => Some(EffectCommand::SetEnvPosition(param)),
        31 => Some(EffectCommand::Midi(param)),
        32 => Some(EffectCommand::SmoothMidi(param)),
        33 => Some(EffectCommand::DelayCut(x, y)),
        34 => Some(EffectCommand::XParam(param)),
        35 => Some(EffectCommand::NoteSlideUp(x, y)),
        36 => Some(EffectCommand::NoteSlideUpRetrig(x, y)),
        37 => Some(EffectCommand::NoteSlideDown(x, y)),
        38 => Some(EffectCommand::NoteSlideDownRetrig(x, y)),
        39 => Some(EffectCommand::ReverseOffset(param)),
        40 => Some(EffectCommand::DBMEcho(x, y)),
        41 => Some(EffectCommand::OffsetPercentage(param)),
        _ => None,
    }
}

impl ModCommand {
    /// Constructs a ModCommand from raw pattern cell data.
    ///
    /// The raw values are the note, the instrument index, the volume
    /// command, the effect command, the volume parameter and the effect
    /// parameter. Returns an error message naming the first field, in that
    /// order of note, volume command and effect, whose value is unknown.
    pub fn new(note: u8, instr: u8, volcmd: u8, command: u8, vol: u8, param: u8)
        -> (r: Result<ModCommand, String>)
        ensures
            match r {
                Ok(c) => {
                    &&& note_of(note) == Some(c.note)
                    &&& c.instr == instr
                    &&& volume_of(volcmd, vol) == Some(c.volcmd)
                    &&& effect_of(command, param) == Some(c.command)
                },
                Err(e) => if note_of(note) is None {
                    e@ == "Invalid note"@
                } else if volume_of(volcmd, vol) is None {
                    e@ == "Invalid volume command"@
                } else {
                    effect_of(command, param) is None && e@ == "Invalid effect"@
                },
            },
    {
        let note_type = match ModCommand::note_from_value(note) {
            Ok(n) => n,
            Err(e) => return Err(e),
        };
        let vol_type = match ModCommand::volume_from_command_param(volcmd, vol) {
            Ok(v) => v,
            Err(e) => return Err(e),
        };
        let effect_type = match ModCommand::effect_from_command_param(command, param) {
            Ok(c) => c,
            Err(e) => return Err(e),
        };
        Ok(ModCommand { note: note_type, instr, volcmd: vol_type, command: effect_type })
    }

    /// Returns the note index of a middle C.
    pub fn middle_c() -> (r: u8)
        ensures
            r == 61,
    {
        NOTE_MIDDLEC
    }

    /// Decodes a raw note value.
    pub fn note_from_value(note_val: u8) -> (r: Result<Note, String>)
        ensures
            match r {
                Ok(n) => note_of(note_val) == Some(n),
                Err(e) => note_of(note_val) is None && e@ == "Invalid note"@,
            },
    {
        if note_val == NOTE_NONE {
            Ok(Note::Empty)
        } else if NOTE_MIN <= note_val && note_val <= NOTE_MAX {
            Ok(Note::Note(note_val))
        } else if note_val == NOTE_KEYOFF {
            Ok(Note::Special(SpecialNote::KeyOff))
        } else if note_val == NOTE_NOTECUT {
            Ok(Note::Special(SpecialNote::NoteCut))
        } else if note_val == NOTE_FADE {
            Ok(Note::Special(SpecialNote::Fade))
        } else if note_val == NOTE_PC {
            Ok(Note::Special(SpecialNote::ParamControl))
        } else if note_val == NOTE_PCS {
            Ok(Note::Special(SpecialNote::ParamControlSmooth))
        } else {
            Err("Invalid note".to_owned())
        }
    }

    /// Decodes a raw effect command and its parameter.
    pub fn effect_from_command_param(cmd: u8, param: u8) -> (r: Result<EffectCommand, String>)
        ensures
            match r {
                Ok(c) => effect_of(cmd, param) == Some(c),
                Err(e) => effect_of(cmd, param) is None && e@ == "Invalid effect"@,
            },
    {
        assert((param & 0xF0u8) >> 4u8 == param / 16 && param & 0x0Fu8 == param % 16) by (bit_vector);
        let x: u8 = (param & 0xF0) >> 4;
        let y: u8 = param & 0x0F;
        match cmd {
            0 => Ok(EffectCommand::Empty),
            1 => Ok(EffectCommand::Arpeggio(x, y)),
            2 => Ok(EffectCommand::PortamentoUp(param)),
            3 => Ok(EffectCommand::PortamentoDown(param)),
            4 => Ok(EffectCommand::TonePortamento(param)),
            5 => Ok(EffectCommand::Vibrato(x, y)),
            6 => Ok(EffectCommand::TonePortaVol(x, y)),
            7 => Ok(EffectCommand::VibratoVol(x, y)),
            8 => Ok(EffectCommand::Tremolo(x, y)),
            9 => Ok(EffectCommand::Panning8(param)),
            10 => Ok(EffectCommand::Offset(param)),
            11 => Ok(EffectCommand::VolumeSlide(x, y)),
            12 => Ok(EffectCommand::PositionJump(param)),
            13 => Ok(EffectCommand::Volume(param)),
            14 => Ok(EffectCommand::PatternBreak(param)),
            15 => Ok(EffectCommand::Retrig(x, y)),
            16 => Ok(EffectCommand::Speed(param)),
            17 => Ok(EffectCommand::Tempo(param)),
            18 => Ok(EffectCommand::Tremor(x, y)),
            19 => Ok(EffectCommand::ModCmdEX(x, y)),
            20 => Ok(EffectCommand::S3MCmdEX(x, y)),
            21 => Ok(EffectCommand::ChannelVolume(param)),
            22 => Ok(EffectCommand::ChannelVolSlide(x, y)),
            23 => Ok(EffectCommand::GlobalVolume(param)),
            24 => Ok(EffectCommand::GlobalVolSlide(x, y)),
            25 => Ok(EffectCommand::KeyOff(param)),
            26 => Ok(EffectCommand::FineVibrato(x, y)),
            27 => Ok(EffectCommand::Panbrello(x, y)),
            28 => Ok(EffectCommand::XFinePortaUpDown(x, y)),
            29 => Ok(EffectCommand::PanningSlide(x, y)),
            30 => Ok(EffectCommand::SetEnvPosition(param)),
            31 => Ok(EffectCommand::Midi(param)),
            32 => Ok(EffectCommand::SmoothMidi(param)),
            33 => Ok(EffectCommand::DelayCut(x, y)),
            34 => Ok(EffectCommand::XParam(param)),
            35 => Ok(EffectCommand::NoteSlideUp(x, y)),
            36 => Ok(EffectCommand::NoteSlideUpRetrig(x, y)),
            37 => Ok(EffectCommand::NoteSlideDown(x, y)),
            38 => Ok(EffectCommand::NoteSlideDownRetrig(x, y)),
            39 => Ok(EffectCommand::ReverseOffset(param)),
            40 => Ok(EffectCommand::DBMEcho(x, y)),
            41 => Ok(EffectCommand::OffsetPercentage(param)),
            _ => Err("Invalid effect".to_owned()),
        }
    }

    /// Decodes a raw volume command and its parameter.
    pub fn volume_from_command_param(cmd: u8, param: u8) -> (r: Result<VolumeCommand, String>)
        ensures
            match r {
                Ok(c) => volume_of(cmd, param) == Some(c),
                Err(e) => volume_of(cmd, param) is None && e@ == "Invalid volume command"@,
            },
    {
        match cmd {
            0 => Ok(VolumeCommand::Empty),
            1 => Ok(VolumeCommand::Volume(param)),
            2 => Ok(VolumeCommand::Panning(param)),
            3 => Ok(VolumeCommand::VolSlideUp(param)),
            4 => Ok(VolumeCommand::VolSlideDown(param)),
            5 => Ok(VolumeCommand::FineVolUp(param)),
            6 => Ok(VolumeCommand::FineVolDown(param)),
            7 => Ok(VolumeCommand::VibratoSpeed(param)),
            8 => Ok(VolumeCommand::VibratoDepth(param)),
            9 => Ok(VolumeCommand::PanSlideLeft(param)),
            10 => Ok(VolumeCommand::PanSlideRight(param)),
            11 => Ok(VolumeCommand::TonePortamento(param)),
            12 => Ok(VolumeCommand::PortaUp(param)),
            13 => Ok(VolumeCommand::PortaDown(param)),
            14 => Ok(VolumeCommand::DelayCut(param)),
            15 => Ok(VolumeCommand::Offset(param)),
            _ => Err("Invalid volume command".to_owned()),
        }
    }
}

} // verus!
