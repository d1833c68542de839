//! The settings commands, their effects, and the scripts that run them.
use sone_proxy::app_state::{AppState, Settings, SettingsEdit, SoneError};
use sone_proxy::commands::{
    audio_devices_probed, get_bit_perfect, get_decorations, get_discord_rpc,
    get_discord_status_text, get_exclusive_device, get_exclusive_mode, get_gapless,
    get_max_quality, get_minimize_to_tray, get_proxy_settings, get_report_plays,
    get_volume_normalization, list_audio_devices, set_bit_perfect, set_decorations,
    set_discord_rpc, set_discord_status_text, set_exclusive_device, set_exclusive_mode,
    set_gapless, set_max_quality, set_minimize_to_tray, set_report_plays,
    set_volume_normalization, update_tray_tooltip, DeviceCache,
};
use sone_proxy::script::{DiscordCommand, Effect, Gain, Outcome, Script};
use sone_proxy::settings::ProxySettings;

fn state() -> AppState {
    AppState {
        decorations: false,
        minimize_to_tray: false,
        volume_normalization: false,
        last_replay_gain: (-6.5f64).to_bits(),
        last_peak_amplitude: f64::NAN.to_bits(),
        exclusive_mode: false,
        exclusive_device: Some("hw:1".to_string()),
        bit_perfect: false,
        gapless: false,
        max_quality: "HIGH".to_string(),
    }
}

fn settings() -> Settings {
    Settings {
        decorations: false,
        minimize_to_tray: false,
        volume_normalization: false,
        exclusive_mode: true,
        exclusive_device: None,
        bit_perfect: true,
        gapless: false,
        max_quality: "HIGH".to_string(),
        discord_rpc: true,
        discord_status_text: "listening".to_string(),
        report_plays: false,
        proxy: ProxySettings::default(),
    }
}

#[test]
fn plain_switches_set_their_flag_and_save_last() {
    let mut s = state();
    assert_eq!(
        set_decorations(&mut s, true),
        [
            Effect::SetWindowDecorations(true),
            Effect::SaveSettings(SettingsEdit::Decorations(true)),
        ]
    );
    assert!(get_decorations(&s));
    assert_eq!(
        set_minimize_to_tray(&mut s, true),
        [Effect::SaveSettings(SettingsEdit::MinimizeToTray(true))]
    );
    assert!(get_minimize_to_tray(&s));
    assert_eq!(
        set_gapless(&mut s, true),
        [
            Effect::SetAudioGapless(true),
            Effect::SaveSettings(SettingsEdit::Gapless(true)),
        ]
    );
    assert!(get_gapless(&s));
    set_decorations(&mut s, false);
    assert!(!get_decorations(&s));
    assert!(get_minimize_to_tray(&s) && get_gapless(&s));
}

#[test]
fn normalization_uses_the_finite_numbers_of_the_track() {
    let mut s = state();
    assert_eq!(
        set_volume_normalization(&mut s, true),
        [
            Effect::SetNormalizationGain(Gain::FromTrack {
                replay_gain: Some((-6.5f64).to_bits()),
                peak: None,
            }),
            Effect::ShowNormalization(true),
            Effect::SaveSettings(SettingsEdit::VolumeNormalization(true)),
        ]
    );
    assert!(get_volume_normalization(&s));
    assert_eq!(
        set_volume_normalization(&mut s, false),
        [
            Effect::SetNormalizationGain(Gain::Unity),
            Effect::ShowNormalization(false),
            Effect::SaveSettings(SettingsEdit::VolumeNormalization(false)),
        ]
    );
    assert!(!get_volume_normalization(&s));
}

#[test]
fn a_number_is_kept_exactly_when_it_is_finite() {
    for x in [
        0.0,
        -0.0,
        1.0,
        f64::MAX,
        f64::MIN,
        f64::MIN_POSITIVE,
        5e-324,
        f64::INFINITY,
        f64::NEG_INFINITY,
        f64::NAN,
        -f64::NAN,
    ] {
        let mut s = state();
        s.last_peak_amplitude = x.to_bits();
        let script = set_volume_normalization(&mut s, true);
        let want = if x.is_finite() { Some(x.to_bits()) } else { None };
        assert_eq!(
            script[0],
            Effect::SetNormalizationGain(Gain::FromTrack {
                replay_gain: Some((-6.5f64).to_bits()),
                peak: want,
            }),
            "{x}"
        );
    }
}

#[test]
fn leaving_exclusive_mode_ends_bit_perfect_output_first() {
    let mut s = state();
    s.exclusive_mode = true;
    s.bit_perfect = true;
    assert_eq!(
        set_exclusive_mode(&mut s, false),
        [
            Effect::SetAudioBitPerfect(false),
            Effect::SetAudioExclusive {
                enabled: false,
                device: Some("hw:1".to_string()),
            },
            Effect::SaveSettings(SettingsEdit::ExclusiveMode(false)),
        ]
    );
    assert!(!get_exclusive_mode(&s) && !get_bit_perfect(&s));
}

#[test]
fn entering_exclusive_mode_leaves_bit_perfect_output_alone() {
    let mut s = state();
    assert_eq!(
        set_exclusive_mode(&mut s, true),
        [
            Effect::SetAudioExclusive {
                enabled: true,
                device: Some("hw:1".to_string()),
            },
            Effect::SaveSettings(SettingsEdit::ExclusiveMode(true)),
        ]
    );
    assert!(get_exclusive_mode(&s) && !get_bit_perfect(&s));
}

#[test]
fn entering_bit_perfect_output_enters_exclusive_mode_first() {
    let mut s = state();
    assert_eq!(
        set_bit_perfect(&mut s, true),
        [
            Effect::SetAudioExclusive {
                enabled: true,
                device: Some("hw:1".to_string()),
            },
            Effect::SetAudioBitPerfect(true),
            Effect::SaveSettings(SettingsEdit::BitPerfect(true)),
        ]
    );
    assert!(get_exclusive_mode(&s) && get_bit_perfect(&s));
    // Already exclusive: nothing to enter.
    assert_eq!(
        set_bit_perfect(&mut s, true),
        [
            Effect::SetAudioBitPerfect(true),
            Effect::SaveSettings(SettingsEdit::BitPerfect(true)),
        ]
    );
    set_bit_perfect(&mut s, false);
    assert!(get_exclusive_mode(&s) && !get_bit_perfect(&s));
}

#[test]
fn a_quality_is_one_of_three() {
    for quality in ["HI_RES_LOSSLESS", "LOSSLESS", "HIGH"] {
        let mut s = state();
        s.max_quality = String::new();
        assert_eq!(
            set_max_quality(&mut s, quality.to_string()),
            Ok(vec![Effect::SaveSettings(SettingsEdit::MaxQuality(
                quality.to_string()
            ))])
        );
        assert_eq!(get_max_quality(&s), quality);
    }
    let mut s = state();
    for bad in ["", "high", "LOSSLESS ", "LOW"] {
        assert_eq!(
            set_max_quality(&mut s, bad.to_string()),
            Err(SoneError::Parse(format!("invalid max_quality: {bad}")))
        );
        assert_eq!(get_max_quality(&s), "HIGH");
    }
}

#[test]
fn a_device_is_handed_on_with_the_mode_as_it_is() {
    let mut s = state();
    assert_eq!(
        set_exclusive_device(&mut s, "hw:2".to_string()),
        [
            Effect::SetAudioExclusive {
                enabled: false,
                device: Some("hw:2".to_string()),
            },
            Effect::SaveSettings(SettingsEdit::ExclusiveDevice("hw:2".to_string())),
        ]
    );
    assert_eq!(get_exclusive_device(&s), Some("hw:2".to_string()));
}

#[test]
fn discord_hears_of_a_switch_before_it_is_saved() {
    assert_eq!(
        set_discord_rpc(true),
        [
            Effect::SendDiscord(DiscordCommand::Connect),
            Effect::SaveSettings(SettingsEdit::DiscordRpc(true)),
        ]
    );
    assert_eq!(
        set_discord_rpc(false)[0],
        Effect::SendDiscord(DiscordCommand::Disconnect)
    );
    assert_eq!(
        set_discord_status_text("hi".to_string()),
        [
            Effect::SendDiscord(DiscordCommand::SetStatusText {
                text: "hi".to_string()
            }),
            Effect::SaveSettings(SettingsEdit::DiscordStatusText("hi".to_string())),
        ]
    );
}

#[test]
fn play_reports_are_saved_before_the_reporter_hears() {
    assert_eq!(
        set_report_plays(true),
        [
            Effect::SaveSettings(SettingsEdit::ReportPlays(true)),
            Effect::EnableReporting(true),
            Effect::DrainReports,
        ]
    );
    assert_eq!(
        set_report_plays(false),
        [
            Effect::SaveSettings(SettingsEdit::ReportPlays(false)),
            Effect::EnableReporting(false),
            Effect::DropSession,
        ]
    );
}

#[test]
fn unreadable_settings_have_their_own_answers() {
    let loaded = Some(settings());
    assert!(get_discord_rpc(&loaded));
    assert!(!get_discord_rpc(&None));
    assert!(!get_report_plays(&loaded));
    assert!(get_report_plays(&None));
    assert_eq!(get_discord_status_text(&loaded), "listening");
    assert_eq!(get_discord_status_text(&None), "");
    let none = get_proxy_settings(&None);
    assert_eq!(none, ProxySettings::default());
    assert!(!none.enabled && none.port == 0 && none.host.is_empty());
    let mut with = settings();
    with.proxy.host = "h".to_string();
    assert_eq!(get_proxy_settings(&Some(with)).host, "h");
}

#[test]
fn edits_change_their_field_and_keep_the_settings_consistent() {
    let s = SettingsEdit::ExclusiveMode(false).apply(settings());
    assert!(!s.exclusive_mode && !s.bit_perfect);
    let s = SettingsEdit::BitPerfect(true).apply(s);
    assert!(s.exclusive_mode && s.bit_perfect);
    let s = SettingsEdit::BitPerfect(false).apply(s);
    assert!(s.exclusive_mode && !s.bit_perfect);
    let s = SettingsEdit::ExclusiveDevice("hw:3".to_string()).apply(s);
    let s = SettingsEdit::MaxQuality("LOSSLESS".to_string()).apply(s);
    let s = SettingsEdit::DiscordRpc(false).apply(s);
    let s = SettingsEdit::DiscordStatusText("x".to_string()).apply(s);
    let s = SettingsEdit::ReportPlays(true).apply(s);
    let s = SettingsEdit::Decorations(true).apply(s);
    let s = SettingsEdit::MinimizeToTray(true).apply(s);
    let s = SettingsEdit::VolumeNormalization(true).apply(s);
    let s = SettingsEdit::Gapless(true).apply(s);
    let proxy = ProxySettings {
        port: 9,
        ..ProxySettings::default()
    };
    let s = SettingsEdit::Proxy(proxy.clone()).apply(s);
    assert_eq!(
        s,
        Settings {
            decorations: true,
            minimize_to_tray: true,
            volume_normalization: true,
            exclusive_mode: true,
            exclusive_device: Some("hw:3".to_string()),
            bit_perfect: false,
            gapless: true,
            max_quality: "LOSSLESS".to_string(),
            discord_rpc: false,
            discord_status_text: "x".to_string(),
            report_plays: true,
            proxy: proxy.clone(),
        }
    );
    // Twice is once.
    let again = SettingsEdit::Proxy(proxy.clone()).apply(s);
    assert_eq!(again.proxy, proxy);
}

#[test]
fn a_switch_that_succeeds_leaves_flags_and_settings_in_step() {
    let mut s = state();
    let mut stored = settings();
    stored.exclusive_mode = false;
    stored.bit_perfect = false;
    for effect in set_bit_perfect(&mut s, true) {
        if let Effect::SaveSettings(edit) = effect {
            stored = edit.apply(stored);
        }
    }
    assert_eq!(stored.bit_perfect, s.bit_perfect);
    assert_eq!(stored.exclusive_mode, s.exclusive_mode);
}

#[test]
fn a_script_runs_in_order_to_its_end() {
    let mut script = Script::new(set_report_plays(false));
    let mut seen = Vec::new();
    while let Some(effect) = script.pending() {
        seen.push(format!("{effect:?}"));
        script.report(Outcome::Done);
    }
    assert_eq!(
        seen,
        ["SaveSettings(ReportPlays(false))", "EnableReporting(false)", "DropSession"]
    );
    assert_eq!(script.into_result(), Ok(()));
}

#[test]
fn the_first_failure_ends_a_script() {
    let mut script = Script::new(set_report_plays(false));
    script.report(Outcome::Failed(SoneError::Io("disk full".to_string())));
    assert!(script.pending().is_none());
    script.report(Outcome::Done);
    script.report(Outcome::AudioFailed("late".to_string()));
    assert_eq!(
        script.into_result(),
        Err(SoneError::Io("disk full".to_string()))
    );

    let mut s = state();
    let mut script = Script::new(set_gapless(&mut s, true));
    script.report(Outcome::AudioFailed("gone".to_string()));
    assert!(script.pending().is_none());
    assert_eq!(
        script.into_result(),
        Err(SoneError::Audio("gone".to_string()))
    );
    // The flag was set before the effect failed.
    assert!(get_gapless(&s));
}

#[test]
fn the_tray_is_updated_where_there_is_one() {
    assert_eq!(
        update_tray_tooltip(true, "song".to_string()),
        (Some("song".to_string()), "updated".to_string())
    );
    assert_eq!(
        update_tray_tooltip(false, "song".to_string()),
        (None, "tray not available".to_string())
    );
}

#[test]
fn devices_are_probed_once() {
    let mut cache: DeviceCache<String> = DeviceCache { devices: None };
    assert_eq!(list_audio_devices(&cache), None);
    assert_eq!(
        audio_devices_probed(&mut cache, Err("no alsa".to_string())),
        Err(SoneError::Audio("no alsa".to_string()))
    );
    assert_eq!(list_audio_devices(&cache), None);
    let found = vec!["hw:0".to_string(), "hw:1".to_string()];
    assert_eq!(
        audio_devices_probed(&mut cache, Ok(found.clone())),
        Ok(found.clone())
    );
    assert_eq!(list_audio_devices(&cache), Some(found));
}

#[test]
fn exclusive_commands_make_any_state_consistent() {
    for enabled in [true, false] {
        for change in [set_exclusive_mode, set_bit_perfect] {
            let mut s = state();
            s.exclusive_mode = false;
            s.bit_perfect = true;
            change(&mut s, enabled);
            assert!(!s.bit_perfect || s.exclusive_mode);
        }
        for edit in [SettingsEdit::ExclusiveMode(enabled), SettingsEdit::BitPerfect(enabled)] {
            let mut stored = settings();
            stored.exclusive_mode = false;
            stored.bit_perfect = true;
            let stored = edit.apply(stored);
            assert!(!stored.bit_perfect || stored.exclusive_mode);
        }
    }
}
