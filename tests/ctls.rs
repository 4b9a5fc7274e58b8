use std::str::FromStr;

use openmpt::module::ctls::{
    dither_from_ctl_value, flag_from_ctl_value, flag_to_text, CtlKey, DitherMode, DITHER,
    LOAD_SKIP_PATTERNS, LOAD_SKIP_PLUGINS, LOAD_SKIP_SAMPLES, LOAD_SKIP_SUBSONGS_INIT,
    PLAY_PITCH_FACTOR, PLAY_TEMPO_FACTOR, SEEK_SYNC_SAMPLES,
};

#[test]
fn ctl_keys_match_native_names() {
    assert_eq!(CtlKey::SkipLoadingSamples.to_str(), "load.skip_samples");
    assert_eq!(CtlKey::SkipLoadingPatterns.to_str(), LOAD_SKIP_PATTERNS);
    assert_eq!(CtlKey::SkipLoadingPlugins.to_str(), LOAD_SKIP_PLUGINS);
    assert_eq!(CtlKey::SkipSubsongPreinit.to_str(), LOAD_SKIP_SUBSONGS_INIT);
    assert_eq!(CtlKey::SyncSamplesWhenSeeking.to_str(), SEEK_SYNC_SAMPLES);
    assert_eq!(CtlKey::PlaybackTempoFactor.to_str(), PLAY_TEMPO_FACTOR);
    assert_eq!(CtlKey::PlaybackPitchFactor.to_str(), PLAY_PITCH_FACTOR);
    assert_eq!(CtlKey::DitherMode16Bit.to_str(), DITHER);
    assert_eq!(LOAD_SKIP_SAMPLES, "load.skip_samples");
    assert_eq!(DITHER, "dither");
}

#[test]
fn flag_values_parse_as_integers() {
    assert_eq!(flag_from_ctl_value(Some("1")), Some(true));
    assert_eq!(flag_from_ctl_value(Some("0")), Some(false));
    assert_eq!(flag_from_ctl_value(Some("-5")), Some(true));
    assert_eq!(flag_from_ctl_value(Some("+0")), Some(false));
    assert_eq!(flag_from_ctl_value(Some("2147483647")), Some(true));
}

#[test]
fn flag_values_that_are_no_integer_give_nothing() {
    assert_eq!(flag_from_ctl_value(None), None);
    assert_eq!(flag_from_ctl_value(Some("")), None);
    assert_eq!(flag_from_ctl_value(Some("true")), None);
    assert_eq!(flag_from_ctl_value(Some(" 1")), None);
    assert_eq!(flag_from_ctl_value(Some("-")), None);
    assert_eq!(flag_from_ctl_value(Some("2147483648")), None);
}

#[test]
fn flag_text_reads_back() {
    assert_eq!(flag_to_text(true), "1");
    assert_eq!(flag_to_text(false), "0");
    assert_eq!(flag_from_ctl_value(Some(flag_to_text(true))), Some(true));
    assert_eq!(flag_from_ctl_value(Some(flag_to_text(false))), Some(false));
}

#[test]
fn dither_modes_parse() {
    assert_eq!(DitherMode::from_str("0"), Ok(DitherMode::Disabled));
    assert_eq!(DitherMode::from_str("1"), Ok(DitherMode::Auto));
    assert_eq!(DitherMode::from_str("2"), Ok(DitherMode::ModPlug));
    assert_eq!(DitherMode::from_str("3"), Ok(DitherMode::Simple));
    assert_eq!(
        DitherMode::from_str("26"),
        Err("Failed to parse return value as known Dither Mode")
    );
    assert_eq!(DitherMode::from_text(""), None);
    assert_eq!(dither_from_ctl_value(Some("3")), Some(DitherMode::Simple));
    assert_eq!(dither_from_ctl_value(Some("4")), None);
    assert_eq!(dither_from_ctl_value(None), None);
}

#[test]
fn dither_text_reads_back() {
    for m in [DitherMode::Auto, DitherMode::ModPlug, DitherMode::Simple, DitherMode::Disabled] {
        assert_eq!(DitherMode::from_text(m.to_text()), Some(m));
    }
    assert_eq!(DitherMode::Disabled.to_text(), "0");
    assert_eq!(DitherMode::Simple.to_text(), "3");
}
