//! The keys and values of the native key/value settings ("ctls") of a
//! loaded module.

use vstd::prelude::*;

verus! {

pub const LOAD_SKIP_SAMPLES: &'static str = "load.skip_samples";

pub const LOAD_SKIP_PATTERNS: &'static str = "load.skip_patterns";

pub const LOAD_SKIP_PLUGINS: &'static str = "load.skip_plugins";

pub const LOAD_SKIP_SUBSONGS_INIT: &'static str = "load.skip_subsongs_init";

pub const SEEK_SYNC_SAMPLES: &'static str = "seek.sync_samples";

pub const PLAY_TEMPO_FACTOR: &'static str = "play.tempo_factor";

pub const PLAY_PITCH_FACTOR: &'static str = "play.pitch_factor";

pub const DITHER: &'static str = "dither";

/// The ctls that this library knows by name, without their values.
#[derive(Debug, Clone, Copy, PartialEq, Eq, Structural)]
pub enum CtlKey {
    /// Whether to avoid loading samples into memory
    SkipLoadingSamples,
    /// Whether to avoid loading patterns into memory
    SkipLoadingPatterns,
    /// Whether to avoid loading plugins
    SkipLoadingPlugins,
    /// Whether to avoid pre-initializing sub-songs
    SkipSubsongPreinit,
    /// Whether to sync sample playback when seeking
    SyncSamplesWhenSeeking,
    /// The floating point tempo factor
    PlaybackTempoFactor,
    /// The floating point pitch factor
    PlaybackPitchFactor,
    /// The dither algorithm of the 16 bit rendering methods
    DitherMode16Bit,
}

/// The native key of each ctl.
pub open spec fn ctl_key_text(k: CtlKey) -> Seq<char> {
    match k {
        CtlKey::SkipLoadingSamples => LOAD_SKIP_SAMPLES@,
        CtlKey::SkipLoadingPatterns => LOAD_SKIP_PATTERNS@,
        CtlKey::SkipLoadingPlugins => LOAD_SKIP_PLUGINS@,
        CtlKey::SkipSubsongPreinit => LOAD_SKIP_SUBSONGS_INIT@,
        CtlKey::SyncSamplesWhenSeeking => SEEK_SYNC_SAMPLES@,
        CtlKey::PlaybackTempoFactor => PLAY_TEMPO_FACTOR@,
        CtlKey::PlaybackPitchFactor => PLAY_PITCH_FACTOR@,
        CtlKey::DitherMode16Bit => DITHER@,
    }
}

impl CtlKey {
    /// The native key of this ctl.
    pub fn to_str(&self) -> (r: &'static str)
        ensures
            r@ == ctl_key_text(*self),
    {
        match *self {
            CtlKey::SkipLoadingSamples => LOAD_SKIP_SAMPLES,
            CtlKey::SkipLoadingPatterns => LOAD_SKIP_PATTERNS,
            CtlKey::SkipLoadingPlugins => LOAD_SKIP_PLUGINS,
            CtlKey::SkipSubsongPreinit => LOAD_SKIP_SUBSONGS_INIT,
            CtlKey::SyncSamplesWhenSeeking => SEEK_SYNC_SAMPLES,
            CtlKey::PlaybackTempoFactor => PLAY_TEMPO_FACTOR,
            CtlKey::PlaybackPitchFactor => PLAY_PITCH_FACTOR,
            CtlKey::DitherMode16Bit => DITHER,
        }
    }
}

/// The dither algorithms for the 16 bit rendering methods.
#[derive(Debug, Clone, Copy, PartialEq, Eq, Structural)]
pub enum DitherMode {
    /// Default mode. Chosen by OpenMPT code, might change.
    Auto,
    /// Rectangular, 0.5 bit depth, no noise shaping (original ModPlug Tracker).
    ModPlug,
    /// Rectangular, 1 bit depth, simple 1st order noise shaping
    Simple,
    /// No dithering.
    Disabled,
}

/// The text that the native library uses for each dither mode.
pub open spec fn dither_text(m: DitherMode) -> Seq<char> {
    match m {
        DitherMode::Disabled => seq!['0'],
        DitherMode::Auto => seq!['1'],
        DitherMode::ModPlug => seq!['2'],
        DitherMode::Simple => seq!['3'],
    }
}

/// The dither mode that a native text stands for, if any.
pub open spec fn dither_of_text(s: Seq<char>) -> Option<DitherMode> {
    if s == seq!['0'] {
        Some(DitherMode::Disabled)
    } else if s == seq!['1'] {
        Some(DitherMode::Auto)
    } else if s == seq!['2'] {
        Some(DitherMode::ModPlug)
    } else if s == seq!['3'] {
        Some(DitherMode::Simple)
    } else {
        None
    }
}

impl DitherMode {
    /// Parses the native text of a dither mode.
    pub fn from_text(s: &str) -> (r: Option<DitherMode>)
        ensures
            r == dither_of_text(s@),
    {
        if s.unicode_len() != 1 {
            return None;
        }
        let c = s.get_char(0);
        assert(s@.len() == 1 ==> s@ == seq![s@[0]]);
        if c == '0' {
            Some(DitherMode::Disabled)
        } else if c == '1' {
            Some(DitherMode::Auto)
        } else if c == '2' {
            Some(DitherMode::ModPlug)
        } else if c == '3' {
            Some(DitherMode::Simple)
        } else {
            None
        }
    }

    /// The native text of this dither mode.
    pub fn to_text(&self) -> (r: &'static str)
        ensures
            r@ == dither_text(*self),
    {
        proof {
            reveal_strlit("0");
            reveal_strlit("1");
            reveal_strlit("2");
            reveal_strlit("3");
        }
        match *self {
            DitherMode::Disabled => "0",
            DitherMode::Auto => "1",
            DitherMode::ModPlug => "2",
            DitherMode::Simple => "3",
        }
    }
}

impl std::str::FromStr for DitherMode {
    type Err = &'static str;

    fn from_str(s: &str) -> Result<Self, Self::Err> {
        match DitherMode::from_text(s) {
            Some(m) => Ok(m),
            None => Err("Failed to parse return value as known Dither Mode"),
        }
    }
}

/// Parsing the native text of a dither mode gives that mode back.
pub proof fn lemma_dither_text_round_trip(m: DitherMode)
    ensures
        dither_of_text(dither_text(m)) == Some(m),
{
    assert(seq!['1'] != seq!['0']) by {
        assert(seq!['1'][0] != seq!['0'][0]);
    }
    assert(seq!['2'] != seq!['0'] && seq!['2'] != seq!['1']) by {
        assert(seq!['2'][0] != seq!['0'][0]);
        assert(seq!['2'][0] != seq!['1'][0]);
    }
    assert(seq!['3'] != seq!['0'] && seq!['3'] != seq!['1'] && seq!['3'] != seq!['2']) by {
        assert(seq!['3'][0] != seq!['0'][0]);
        assert(seq!['3'][0] != seq!['1'][0]);
        assert(seq!['3'][0] != seq!['2'][0]);
    }
}


/// Whether a character is an ASCII decimal digit.
pub open spec fn is_decimal_digit(c: char) -> bool {
    '0' <= c && c <= '9'
}

/// The value of a string of decimal digits, most significant first.
pub open spec fn digits_value(d: Seq<char>) -> int
    decreases d.len(),
{
    if d.len() == 0 {
        0
    } else {
        digits_value(d.drop_last()) * 10 + (d.last() as int - '0' as int)
    }
}

/// Whether a text has a leading sign character.
pub open spec fn has_sign(s: Seq<char>) -> bool {
    s.len() > 0 && (s[0] == '-' || s[0] == '+')
}

/// A text without its leading sign character, if it has one.
pub open spec fn unsigned_part(s: Seq<char>) -> Seq<char> {
    if has_sign(s) {
        s.drop_first()
    } else {
        s
    }
}

/// Whether a text is one or more ASCII decimal digits.
pub open spec fn all_decimal_digits(d: Seq<char>) -> bool {
    d.len() > 0 && forall|i: int| 0 <= i < d.len() ==> is_decimal_digit(#[trigger] d[i])
}

/// The `i32` that a text denotes in decimal: an optional `+` or `-` sign
/// followed by one or more ASCII digits, with nothing around them, and a
/// value in range. `None` for any other text.
pub open spec fn decimal_i32(s: Seq<char>) -> Option<i32> {
    let magnitude = digits_value(unsigned_part(s));
    let v = if has_sign(s) && s[0] == '-' {
        -magnitude
    } else {
        magnitude
    };
    if all_decimal_digits(unsigned_part(s)) && i32::MIN <= v && v <= i32::MAX {
        Some(v as i32)
    } else {
        None
    }
}

/// Relies on `<i32 as FromStr>::from_str`, which accepts exactly an optional
/// sign followed by decimal digits whose value fits in an `i32`.
#[verifier::external_body]
fn parse_i32(s: &str) -> (r: Option<i32>)
    ensures
        r == decimal_i32(s@),
{
    <i32 as std::str::FromStr>::from_str(s).ok()
}

/// The boolean that a native ctl value stands for: any integer, non-zero
/// meaning `true`.
pub open spec fn flag_of_value(value: Option<Seq<char>>) -> Option<bool> {
    match value {
        Some(s) => match decimal_i32(s) {
            Some(n) => Some(n != 0),
            None => None,
        },
        None => None,
    }
}

/// Reads a boolean ctl from the value the native library returned for it,
/// `None` where no value came back or it is no integer.
pub fn flag_from_ctl_value(value: Option<&str>) -> (r: Option<bool>)
    ensures
        r == flag_of_value(
            match value {
                Some(s) => Some(s@),
                None => None,
            },
        ),
{
    match value {
        Some(s) => match parse_i32(s) {
            Some(n) => Some(n != 0),
            None => None,
        },
        None => None,
    }
}

/// Reads the dither ctl from the value the native library returned for it,
/// `None` where no value came back or it names no known mode.
pub fn dither_from_ctl_value(value: Option<&str>) -> (r: Option<DitherMode>)
    ensures
        r == match value {
            Some(s) => dither_of_text(s@),
            None => None,
        },
{
    match value {
        Some(s) => DitherMode::from_text(s),
        None => None,
    }
}

/// The native text of a boolean ctl value.
pub open spec fn flag_text(b: bool) -> Seq<char> {
    if b {
        seq!['1']
    } else {
        seq!['0']
    }
}

/// Writes a boolean ctl value as the native library reads it.
pub fn flag_to_text(b: bool) -> (r: &'static str)
    ensures
        r@ == flag_text(b),
{
    proof {
        reveal_strlit("0");
        reveal_strlit("1");
    }
    if b {
        "1"
    } else {
        "0"
    }
}

/// Reading back the text a boolean ctl value is written as gives that
/// value.
pub proof fn lemma_flag_text_round_trip(b: bool)
    ensures
        flag_of_value(Some(flag_text(b))) == Some(b),
{
    let s = flag_text(b);
    assert(!has_sign(s));
    assert(s.drop_last() =~= Seq::<char>::empty());
    assert(digits_value(s.drop_last()) == 0);
    assert(digits_value(s) == if b { 1int } else { 0int });
    assert(all_decimal_digits(s));
}

} // verus!
