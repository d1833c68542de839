//! The settings commands: what each does to the live flags, and which effects
//! it asks for.
use crate::app_state::{
    edited, flagged, in_step, state_consistent, AppState, Settings, SettingsEdit, SoneError,
};
use crate::script::{DiscordCommand, Effect, Gain};
use crate::settings::{clone_text, ProxySettings, ProxySettingsView, ProxyType};
use crate::text::{joined, same_text};
use vstd::prelude::*;
use vstd::string::*;

verus! {

/// Whether the window has decorations.
pub open spec fn decorations_of(state: AppState) -> bool {
    state.decorations
}

pub fn get_decorations(state: &AppState) -> (r: bool)
    ensures
        r == decorations_of(*state),
        r == state.decorations,
{
    state.decorations
}

pub open spec fn decorations_script(enabled: bool) -> Seq<Effect> {
    seq![
        Effect::SetWindowDecorations(enabled),
        Effect::SaveSettings(SettingsEdit::Decorations(enabled)),
    ]
}

pub fn set_decorations(state: &mut AppState, enabled: bool) -> (script: Vec<Effect>)
    ensures
        *final(state) == (AppState { decorations: enabled, ..*old(state) }),
        *final(state) == flagged(*old(state), SettingsEdit::Decorations(enabled)),
        script@ == decorations_script(enabled),
{
    state.decorations = enabled;
    let script = vec![
        Effect::SetWindowDecorations(enabled),
        Effect::SaveSettings(SettingsEdit::Decorations(enabled)),
    ];
    assert(script@ =~= decorations_script(enabled));
    script
}

/// Whether closing minimizes to the tray.
pub open spec fn minimize_to_tray_of(state: AppState) -> bool {
    state.minimize_to_tray
}

pub fn get_minimize_to_tray(state: &AppState) -> (r: bool)
    ensures
        r == minimize_to_tray_of(*state),
        r == state.minimize_to_tray,
{
    state.minimize_to_tray
}

pub open spec fn minimize_to_tray_script(enabled: bool) -> Seq<Effect> {
    seq![Effect::SaveSettings(SettingsEdit::MinimizeToTray(enabled))]
}

pub fn set_minimize_to_tray(state: &mut AppState, enabled: bool) -> (script: Vec<Effect>)
    ensures
        *final(state) == (AppState { minimize_to_tray: enabled, ..*old(state) }),
        *final(state) == flagged(*old(state), SettingsEdit::MinimizeToTray(enabled)),
        script@ == minimize_to_tray_script(enabled),
{
    state.minimize_to_tray = enabled;
    let script = vec![Effect::SaveSettings(SettingsEdit::MinimizeToTray(enabled))];
    assert(script@ =~= minimize_to_tray_script(enabled));
    script
}

/// Whether the bits are those of a finite 64-bit float: the exponent, in the
/// eleven bits below the sign, is not all ones.
pub open spec fn finite(bits: u64) -> bool {
    (bits / 0x10_0000_0000_0000) % 0x800 != 0x7ff
}

pub open spec fn finite_or_none(bits: u64) -> Option<u64> {
    if finite(bits) {
        Some(bits)
    } else {
        None
    }
}

fn keep_finite(bits: u64) -> (r: Option<u64>)
    ensures
        r == finite_or_none(bits),
{
    if (bits / 0x10_0000_0000_0000) % 0x800 != 0x7ff {
        Some(bits)
    } else {
        None
    }
}

/// The gain that a switch of normalization asks for on the current track.
pub open spec fn gain_for(state: AppState, enabled: bool) -> Gain {
    if enabled {
        Gain::FromTrack {
            replay_gain: finite_or_none(state.last_replay_gain),
            peak: finite_or_none(state.last_peak_amplitude),
        }
    } else {
        Gain::Unity
    }
}

/// Whether the volume is normalized.
pub open spec fn volume_normalization_of(state: AppState) -> bool {
    state.volume_normalization
}

pub fn get_volume_normalization(state: &AppState) -> (r: bool)
    ensures
        r == volume_normalization_of(*state),
        r == state.volume_normalization,
{
    state.volume_normalization
}

pub open spec fn volume_normalization_script(state: AppState, enabled: bool) -> Seq<Effect> {
    seq![
        Effect::SetNormalizationGain(gain_for(state, enabled)),
        Effect::ShowNormalization(enabled),
        Effect::SaveSettings(SettingsEdit::VolumeNormalization(enabled)),
    ]
}

/// Applies or resets normalization on the current track at once.
pub fn set_volume_normalization(state: &mut AppState, enabled: bool) -> (script: Vec<Effect>)
    ensures
        *final(state) == (AppState { volume_normalization: enabled, ..*old(state) }),
        *final(state) == flagged(*old(state), SettingsEdit::VolumeNormalization(enabled)),
        script@ == volume_normalization_script(*old(state), enabled),
{
    state.volume_normalization = enabled;
    let gain = if enabled {
        Gain::FromTrack {
            replay_gain: keep_finite(state.last_replay_gain),
            peak: keep_finite(state.last_peak_amplitude),
        }
    } else {
        Gain::Unity
    };
    let script = vec![
        Effect::SetNormalizationGain(gain),
        Effect::ShowNormalization(enabled),
        Effect::SaveSettings(SettingsEdit::VolumeNormalization(enabled)),
    ];
    assert(script@ =~= volume_normalization_script(*old(state), enabled));
    script
}

/// Whether the output is exclusive.
pub open spec fn exclusive_mode_of(state: AppState) -> bool {
    state.exclusive_mode
}

pub fn get_exclusive_mode(state: &AppState) -> (r: bool)
    ensures
        r == exclusive_mode_of(*state),
        r == state.exclusive_mode,
{
    state.exclusive_mode
}

pub open spec fn with_exclusive_mode(state: AppState, enabled: bool) -> AppState {
    AppState { exclusive_mode: enabled, bit_perfect: state.bit_perfect && enabled, ..state }
}

pub open spec fn exclusive_mode_script(state: AppState, enabled: bool) -> Seq<Effect> {
    let switch = seq![
        Effect::SetAudioExclusive { enabled, device: state.exclusive_device },
        Effect::SaveSettings(SettingsEdit::ExclusiveMode(enabled)),
    ];
    if enabled {
        switch
    } else {
        seq![Effect::SetAudioBitPerfect(false)] + switch
    }
}

/// Switches exclusive mode. Leaving it ends bit-perfect output first.
pub fn set_exclusive_mode(state: &mut AppState, enabled: bool) -> (script: Vec<Effect>)
    ensures
        *final(state) == with_exclusive_mode(*old(state), enabled),
        *final(state) == flagged(*old(state), SettingsEdit::ExclusiveMode(enabled)),
        script@ == exclusive_mode_script(*old(state), enabled),
{
    state.exclusive_mode = enabled;
    let mut script: Vec<Effect> = Vec::new();
    if !enabled {
        state.bit_perfect = false;
        script.push(Effect::SetAudioBitPerfect(false));
    }
    script.push(Effect::SetAudioExclusive { enabled, device: clone_text(&state.exclusive_device) });
    script.push(Effect::SaveSettings(SettingsEdit::ExclusiveMode(enabled)));
    assert(script@ =~= exclusive_mode_script(*old(state), enabled));
    script
}

/// Whether the output is bit-perfect.
pub open spec fn bit_perfect_of(state: AppState) -> bool {
    state.bit_perfect
}

pub fn get_bit_perfect(state: &AppState) -> (r: bool)
    ensures
        r == bit_perfect_of(*state),
        r == state.bit_perfect,
{
    state.bit_perfect
}

pub open spec fn with_bit_perfect(state: AppState, enabled: bool) -> AppState {
    AppState { bit_perfect: enabled, exclusive_mode: state.exclusive_mode || enabled, ..state }
}

pub open spec fn bit_perfect_script(state: AppState, enabled: bool) -> Seq<Effect> {
    let switch = seq![
        Effect::SetAudioBitPerfect(enabled),
        Effect::SaveSettings(SettingsEdit::BitPerfect(enabled)),
    ];
    if enabled && !state.exclusive_mode {
        seq![Effect::SetAudioExclusive { enabled: true, device: state.exclusive_device }] + switch
    } else {
        switch
    }
}

/// Switches bit-perfect output. Entering it enters exclusive mode first.
pub fn set_bit_perfect(state: &mut AppState, enabled: bool) -> (script: Vec<Effect>)
    ensures
        *final(state) == with_bit_perfect(*old(state), enabled),
        *final(state) == flagged(*old(state), SettingsEdit::BitPerfect(enabled)),
        script@ == bit_perfect_script(*old(state), enabled),
{
    state.bit_perfect = enabled;
    let mut script: Vec<Effect> = Vec::new();
    if enabled && !state.exclusive_mode {
        state.exclusive_mode = true;
        script.push(
            Effect::SetAudioExclusive { enabled: true, device: clone_text(&state.exclusive_device) },
        );
    }
    script.push(Effect::SetAudioBitPerfect(enabled));
    script.push(Effect::SaveSettings(SettingsEdit::BitPerfect(enabled)));
    assert(script@ =~= bit_perfect_script(*old(state), enabled));
    script
}

/// Whether playback is gapless.
pub open spec fn gapless_of(state: AppState) -> bool {
    state.gapless
}

pub fn get_gapless(state: &AppState) -> (r: bool)
    ensures
        r == gapless_of(*state),
        r == state.gapless,
{
    state.gapless
}

pub open spec fn gapless_script(enabled: bool) -> Seq<Effect> {
    seq![
        Effect::SetAudioGapless(enabled),
        Effect::SaveSettings(SettingsEdit::Gapless(enabled)),
    ]
}

pub fn set_gapless(state: &mut AppState, enabled: bool) -> (script: Vec<Effect>)
    ensures
        *final(state) == (AppState { gapless: enabled, ..*old(state) }),
        *final(state) == flagged(*old(state), SettingsEdit::Gapless(enabled)),
        script@ == gapless_script(enabled),
{
    state.gapless = enabled;
    let script = vec![
        Effect::SetAudioGapless(enabled),
        Effect::SaveSettings(SettingsEdit::Gapless(enabled)),
    ];
    assert(script@ =~= gapless_script(enabled));
    script
}

/// The cap on the quality.
pub open spec fn max_quality_of(state: AppState) -> String {
    state.max_quality
}

pub fn get_max_quality(state: &AppState) -> (r: String)
    ensures
        r == max_quality_of(*state),
        r == state.max_quality,
{
    state.max_quality.clone()
}

/// The qualities a user may cap playback at.
pub open spec fn is_quality(q: Seq<char>) -> bool {
    q == "HI_RES_LOSSLESS"@ || q == "LOSSLESS"@ || q == "HIGH"@
}

pub open spec fn max_quality_script(quality: String) -> Seq<Effect> {
    seq![Effect::SaveSettings(SettingsEdit::MaxQuality(quality))]
}

/// Caps the quality. An unknown quality is refused and changes nothing.
pub fn set_max_quality(state: &mut AppState, quality: String) -> (r: Result<
    Vec<Effect>,
    SoneError,
>)
    ensures
        match r {
            Ok(script) => {
                &&& is_quality(quality@)
                &&& *final(state) == (AppState { max_quality: quality, ..*old(state) })
                &&& *final(state) == flagged(*old(state), SettingsEdit::MaxQuality(quality))
                &&& script@ == max_quality_script(quality)
            },
            Err(e) => {
                &&& !is_quality(quality@)
                &&& *final(state) == *old(state)
                &&& e matches SoneError::Parse(words) && words@ == "invalid max_quality: "@
                    + quality@
            },
        },
{
    if !(same_text(quality.as_str(), "HI_RES_LOSSLESS") || same_text(quality.as_str(), "LOSSLESS")
        || same_text(quality.as_str(), "HIGH")) {
        return Err(SoneError::Parse(joined("invalid max_quality: ", quality.as_str())));
    }
    state.max_quality = quality.clone();
    let script = vec![Effect::SaveSettings(SettingsEdit::MaxQuality(quality))];
    assert(script@ =~= max_quality_script(quality));
    Ok(script)
}

/// The device for exclusive mode.
pub open spec fn exclusive_device_of(state: AppState) -> Option<String> {
    state.exclusive_device
}

pub fn get_exclusive_device(state: &AppState) -> (r: Option<String>)
    ensures
        r == exclusive_device_of(*state),
        r == state.exclusive_device,
{
    clone_text(&state.exclusive_device)
}

pub open spec fn exclusive_device_script(state: AppState, device: String) -> Seq<Effect> {
    seq![
        Effect::SetAudioExclusive { enabled: state.exclusive_mode, device: Some(device) },
        Effect::SaveSettings(SettingsEdit::ExclusiveDevice(device)),
    ]
}

/// Chooses the device for exclusive mode, whether or not the mode is on.
pub fn set_exclusive_device(state: &mut AppState, device: String) -> (script: Vec<Effect>)
    ensures
        *final(state) == (AppState { exclusive_device: Some(device), ..*old(state) }),
        *final(state) == flagged(*old(state), SettingsEdit::ExclusiveDevice(device)),
        script@ == exclusive_device_script(*old(state), device),
{
    state.exclusive_device = Some(device.clone());
    let script = vec![
        Effect::SetAudioExclusive { enabled: state.exclusive_mode, device: Some(device.clone()) },
        Effect::SaveSettings(SettingsEdit::ExclusiveDevice(device)),
    ];
    assert(script@ =~= exclusive_device_script(*old(state), device));
    script
}

/// Whether Discord is to be told what plays, from what could be read.
pub open spec fn discord_rpc_of(loaded: Option<Settings>) -> bool {
    loaded matches Some(s) && s.discord_rpc
}

/// Off where the settings cannot be read.
pub fn get_discord_rpc(loaded: &Option<Settings>) -> (r: bool)
    ensures
        r == discord_rpc_of(*loaded),
        r == match *loaded {
            Some(s) => s.discord_rpc,
            None => false,
        },
{
    match loaded {
        Some(s) => s.discord_rpc,
        None => false,
    }
}

pub open spec fn discord_rpc_script(enabled: bool) -> Seq<Effect> {
    seq![
        Effect::SendDiscord(
            if enabled {
                DiscordCommand::Connect
            } else {
                DiscordCommand::Disconnect
            },
        ),
        Effect::SaveSettings(SettingsEdit::DiscordRpc(enabled)),
    ]
}

pub fn set_discord_rpc(enabled: bool) -> (script: Vec<Effect>)
    ensures
        script@ == discord_rpc_script(enabled),
{
    let command = if enabled {
        DiscordCommand::Connect
    } else {
        DiscordCommand::Disconnect
    };
    let script = vec![
        Effect::SendDiscord(command),
        Effect::SaveSettings(SettingsEdit::DiscordRpc(enabled)),
    ];
    assert(script@ =~= discord_rpc_script(enabled));
    script
}

/// Whether plays are reported, from what could be read.
pub open spec fn report_plays_of(loaded: Option<Settings>) -> bool {
    loaded matches Some(s) ==> s.report_plays
}

/// On where the settings cannot be read.
pub fn get_report_plays(loaded: &Option<Settings>) -> (r: bool)
    ensures
        r == report_plays_of(*loaded),
        r == match *loaded {
            Some(s) => s.report_plays,
            None => true,
        },
{
    match loaded {
        Some(s) => s.report_plays,
        None => true,
    }
}

pub open spec fn report_plays_script(enabled: bool) -> Seq<Effect> {
    seq![
        Effect::SaveSettings(SettingsEdit::ReportPlays(enabled)),
        Effect::EnableReporting(enabled),
        if enabled {
            Effect::DrainReports
        } else {
            Effect::DropSession
        },
    ]
}

/// Switches play reports. Persists first: if the write fails the caller sees an
/// error and the reporter still matches what is stored. Reversing this order
/// can silently discard a user's opt-out.
pub fn set_report_plays(enabled: bool) -> (script: Vec<Effect>)
    ensures
        script@ == report_plays_script(enabled),
{
    let last = if enabled {
        Effect::DrainReports
    } else {
        // Every lifecycle hook is gated on the switch, so an orphaned session
        // would keep accruing wall-clock time and get reported on the next
        // enable.
        Effect::DropSession
    };
    let script = vec![
        Effect::SaveSettings(SettingsEdit::ReportPlays(enabled)),
        Effect::EnableReporting(enabled),
        last,
    ];
    assert(script@ =~= report_plays_script(enabled));
    script
}

/// The text that Discord shows, from what could be read.
pub open spec fn discord_status_text_of(loaded: Option<Settings>) -> Seq<char> {
    match loaded {
        Some(s) => s.discord_status_text@,
        None => Seq::empty(),
    }
}

/// Empty where the settings cannot be read.
pub fn get_discord_status_text(loaded: &Option<Settings>) -> (r: String)
    ensures
        r@ == discord_status_text_of(*loaded),
        r@ == match *loaded {
            Some(s) => s.discord_status_text@,
            None => Seq::empty(),
        },
{
    match loaded {
        Some(s) => s.discord_status_text.clone(),
        None => String::new(),
    }
}

pub open spec fn discord_status_text_script(text: String) -> Seq<Effect> {
    seq![
        Effect::SendDiscord(DiscordCommand::SetStatusText { text }),
        Effect::SaveSettings(SettingsEdit::DiscordStatusText(text)),
    ]
}

pub fn set_discord_status_text(text: String) -> (script: Vec<Effect>)
    ensures
        script@ == discord_status_text_script(text),
{
    let script = vec![
        Effect::SendDiscord(DiscordCommand::SetStatusText { text: text.clone() }),
        Effect::SaveSettings(SettingsEdit::DiscordStatusText(text)),
    ];
    assert(script@ =~= discord_status_text_script(text));
    script
}

/// The proxy in force, from what could be read.
pub open spec fn proxy_settings_of(loaded: Option<Settings>) -> ProxySettingsView {
    match loaded {
        Some(s) => s.proxy@,
        None => ProxySettingsView {
            enabled: false,
            proxy_type: ProxyType::Http,
            host: Seq::empty(),
            port: 0,
            username: None,
            password: None,
        },
    }
}

/// The stored proxy, or none where the settings cannot be read.
pub fn get_proxy_settings(loaded: &Option<Settings>) -> (r: ProxySettings)
    ensures
        r@ == proxy_settings_of(*loaded),
        match *loaded {
            Some(s) => r == s.proxy,
            None => r@ == (ProxySettingsView {
                enabled: false,
                proxy_type: ProxyType::Http,
                host: Seq::empty(),
                port: 0,
                username: None,
                password: None,
            }),
        },
{
    match loaded {
        Some(s) => s.proxy.clone(),
        None => ProxySettings::default(),
    }
}

/// What the tray is to show, if there is one.
pub open spec fn tooltip_for(tray_present: bool, text: String) -> Option<String> {
    if tray_present {
        Some(text)
    } else {
        None
    }
}

/// What the tray is to show, if there is one, and what the caller is told.
pub fn update_tray_tooltip(tray_present: bool, text: String) -> (r: (Option<String>, String))
    ensures
        r.0 == tooltip_for(tray_present, text),
        tray_present ==> r.0 == Some(text) && r.1@ == "updated"@,
        !tray_present ==> r.0 is None && r.1@ == "tray not available"@,
{
    if tray_present {
        (Some(text), "updated".to_owned())
    } else {
        (None, "tray not available".to_owned())
    }
}

/// The devices found by the first probe, kept because probing is slow.
pub struct DeviceCache<D> {
    pub devices: Option<Vec<D>>,
}

/// Two lists hold clones of the same devices.
pub open spec fn same_devices<D: Clone>(a: Seq<D>, b: Seq<D>) -> bool {
    a.len() == b.len() && forall|i: int| 0 <= i < a.len() ==> cloned(a[i], #[trigger] b[i])
}

fn clone_devices<D: Clone>(devices: &Vec<D>) -> (r: Vec<D>)
    ensures
        same_devices(devices@, r@),
{
    devices.clone()
}

/// Whether `r` is what the cache answers: what it keeps, or that a probe is due.
pub open spec fn listed<D: Clone>(cache: DeviceCache<D>, r: Option<Vec<D>>) -> bool {
    match (cache.devices, r) {
        (Some(kept), Some(given)) => same_devices(kept@, given@),
        (None, None) => true,
        _ => false,
    }
}

/// The cached devices, or `None` where a probe is due.
pub fn list_audio_devices<D: Clone>(cache: &DeviceCache<D>) -> (r: Option<Vec<D>>)
    ensures
        listed(*cache, r),
        match (cache.devices, r) {
            (Some(kept), Some(given)) => same_devices(kept@, given@),
            (None, None) => true,
            _ => false,
        },
{
    match &cache.devices {
        Some(devices) => Some(clone_devices(devices)),
        None => None,
    }
}

/// Whether a probe left the cache as `after` and gave the caller `r`.
pub open spec fn probed_devices<D: Clone>(
    before: DeviceCache<D>,
    probed: Result<Vec<D>, String>,
    after: DeviceCache<D>,
    r: Result<Vec<D>, SoneError>,
) -> bool {
    match (probed, r) {
        (Ok(found), Ok(given)) => given == found && (after.devices matches Some(kept)
            && same_devices(found@, kept@)),
        (Err(words), Err(e)) => e == SoneError::Audio(words) && after == before,
        _ => false,
    }
}

/// Takes what the probe found: devices are kept and given, a failure is
/// reported and leaves the cache as it was.
pub fn audio_devices_probed<D: Clone>(
    cache: &mut DeviceCache<D>,
    probed: Result<Vec<D>, String>,
) -> (r: Result<Vec<D>, SoneError>)
    ensures
        probed_devices(*old(cache), probed, *final(cache), r),
        match (probed, r) {
            (Ok(found), Ok(given)) => given == found && (final(cache).devices matches Some(kept)
                && same_devices(found@, kept@)),
            (Err(words), Err(e)) => e == SoneError::Audio(words) && *final(cache) == *old(cache),
            _ => false,
        },
{
    match probed {
        Ok(devices) => {
            cache.devices = Some(clone_devices(&devices));
            Ok(devices)
        },
        Err(words) => Err(SoneError::Audio(words)),
    }
}

/// The exclusive-mode and bit-perfect commands establish the rule that
/// bit-perfect output implies exclusive mode, from any state.
pub proof fn law_exclusive_commands_make_state_consistent(state: AppState, enabled: bool)
    ensures
        state_consistent(with_exclusive_mode(state, enabled)),
        state_consistent(with_bit_perfect(state, enabled)),
{
}

/// Every other command leaves that rule as it found it.
pub proof fn law_commands_keep_state_consistent(state: AppState, enabled: bool, text: String)
    ensures
        state_consistent(AppState { decorations: enabled, ..state }) <==> state_consistent(state),
        state_consistent(AppState { minimize_to_tray: enabled, ..state }) <==> state_consistent(
            state,
        ),
        state_consistent(AppState { volume_normalization: enabled, ..state }) <==> state_consistent(
            state,
        ),
        state_consistent(AppState { gapless: enabled, ..state }) <==> state_consistent(state),
        state_consistent(AppState { max_quality: text, ..state }) <==> state_consistent(state),
        state_consistent(AppState { exclusive_device: Some(text), ..state }) <==> state_consistent(
            state,
        ),
{
}

/// A command whose effects all succeed leaves the live flags and the stored
/// settings in step, if they were in step before it.
pub proof fn law_flags_and_settings_stay_in_step(
    state: AppState,
    s: Settings,
    enabled: bool,
    text: String,
)
    requires
        in_step(state, s),
    ensures
        in_step(
            AppState { decorations: enabled, ..state },
            edited(s, SettingsEdit::Decorations(enabled)),
        ),
        in_step(
            AppState { minimize_to_tray: enabled, ..state },
            edited(s, SettingsEdit::MinimizeToTray(enabled)),
        ),
        in_step(
            AppState { volume_normalization: enabled, ..state },
            edited(s, SettingsEdit::VolumeNormalization(enabled)),
        ),
        in_step(
            with_exclusive_mode(state, enabled),
            edited(s, SettingsEdit::ExclusiveMode(enabled)),
        ),
        in_step(with_bit_perfect(state, enabled), edited(s, SettingsEdit::BitPerfect(enabled))),
        in_step(
            AppState { gapless: enabled, ..state },
            edited(s, SettingsEdit::Gapless(enabled)),
        ),
        in_step(
            AppState { max_quality: text, ..state },
            edited(s, SettingsEdit::MaxQuality(text)),
        ),
        in_step(
            AppState { exclusive_device: Some(text), ..state },
            edited(s, SettingsEdit::ExclusiveDevice(text)),
        ),
{
}

/// Whether the one save of a script is its last effect.
pub open spec fn saves_last(script: Seq<Effect>) -> bool {
    &&& script.len() > 0
    &&& script.last() is SaveSettings
    &&& forall|i: int| 0 <= i < script.len() - 1 ==> (#[trigger] script[i]) !is SaveSettings
}

/// Flags are saved only once every other effect of the command has succeeded.
pub proof fn law_flags_are_saved_last(
    state: AppState,
    enabled: bool,
    text: String,
)
    ensures
        saves_last(decorations_script(enabled)),
        saves_last(minimize_to_tray_script(enabled)),
        saves_last(volume_normalization_script(state, enabled)),
        saves_last(exclusive_mode_script(state, enabled)),
        saves_last(bit_perfect_script(state, enabled)),
        saves_last(gapless_script(enabled)),
        saves_last(max_quality_script(text)),
        saves_last(exclusive_device_script(state, text)),
        saves_last(discord_rpc_script(enabled)),
        saves_last(discord_status_text_script(text)),
{
}

/// An opt-out of play reports is stored before the reporter hears of it, so a
/// failed save leaves the reporter as it was.
pub proof fn law_report_plays_is_saved_first(enabled: bool)
    ensures
        report_plays_script(enabled)[0] == Effect::SaveSettings(SettingsEdit::ReportPlays(enabled)),
        forall|i: int|
            0 < i < report_plays_script(enabled).len() ==> (#[trigger] report_plays_script(
                enabled,
            )[i]) !is SaveSettings,
{
}

} // verus!
