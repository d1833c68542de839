//! The player's own state as plain values: the live flags, the stored
//! settings, the edits that commands make to them, and the errors a command
//! can end in.
use crate::settings::{opt_text, ProxySettings};
use vstd::prelude::*;

verus! {

#[derive(Debug, PartialEq, Eq)]
pub enum SoneError {
    Audio(String),
    Parse(String),
    Io(String),
    Network(String),
    ProxyBlocked { reason: String },
}

/// The flags that the running player goes by.
pub struct AppState {
    pub decorations: bool,
    pub minimize_to_tray: bool,
    pub volume_normalization: bool,
    /// The bits of the current track's replay gain, not finite if it has none.
    pub last_replay_gain: u64,
    /// The bits of the current track's peak, not finite if it has none.
    pub last_peak_amplitude: u64,
    pub exclusive_mode: bool,
    pub exclusive_device: Option<String>,
    pub bit_perfect: bool,
    pub gapless: bool,
    pub max_quality: String,
}

/// The stored settings that commands read and write.
#[derive(Debug, PartialEq, Eq)]
pub struct Settings {
    pub decorations: bool,
    pub minimize_to_tray: bool,
    pub volume_normalization: bool,
    pub exclusive_mode: bool,
    pub exclusive_device: Option<String>,
    pub bit_perfect: bool,
    pub gapless: bool,
    pub max_quality: String,
    pub discord_rpc: bool,
    pub discord_status_text: String,
    pub report_plays: bool,
    pub proxy: ProxySettings,
}

/// One change to the stored settings, made to whatever is stored at the time.
#[derive(Debug, PartialEq, Eq)]
pub enum SettingsEdit {
    Decorations(bool),
    MinimizeToTray(bool),
    VolumeNormalization(bool),
    ExclusiveMode(bool),
    ExclusiveDevice(String),
    BitPerfect(bool),
    Gapless(bool),
    MaxQuality(String),
    DiscordRpc(bool),
    DiscordStatusText(String),
    ReportPlays(bool),
    Proxy(ProxySettings),
}

/// The settings after an edit. Bit-perfect output needs exclusive mode, so
/// switching the one on or the other off carries the other along.
pub open spec fn edited(s: Settings, edit: SettingsEdit) -> Settings {
    match edit {
        SettingsEdit::Decorations(on) => Settings { decorations: on, ..s },
        SettingsEdit::MinimizeToTray(on) => Settings { minimize_to_tray: on, ..s },
        SettingsEdit::VolumeNormalization(on) => Settings { volume_normalization: on, ..s },
        SettingsEdit::ExclusiveMode(on) => Settings {
            exclusive_mode: on,
            bit_perfect: s.bit_perfect && on,
            ..s
        },
        SettingsEdit::ExclusiveDevice(device) => Settings { exclusive_device: Some(device), ..s },
        SettingsEdit::BitPerfect(on) => Settings {
            bit_perfect: on,
            exclusive_mode: s.exclusive_mode || on,
            ..s
        },
        SettingsEdit::Gapless(on) => Settings { gapless: on, ..s },
        SettingsEdit::MaxQuality(quality) => Settings { max_quality: quality, ..s },
        SettingsEdit::DiscordRpc(on) => Settings { discord_rpc: on, ..s },
        SettingsEdit::DiscordStatusText(text) => Settings { discord_status_text: text, ..s },
        SettingsEdit::ReportPlays(on) => Settings { report_plays: on, ..s },
        SettingsEdit::Proxy(proxy) => Settings { proxy, ..s },
    }
}

impl SettingsEdit {
    /// Makes the edit to the settings just loaded.
    pub fn apply(&self, settings: Settings) -> (r: Settings)
        ensures
            r == edited(settings, *self),
    {
        let mut s = settings;
        match self {
            SettingsEdit::Decorations(on) => s.decorations = *on,
            SettingsEdit::MinimizeToTray(on) => s.minimize_to_tray = *on,
            SettingsEdit::VolumeNormalization(on) => s.volume_normalization = *on,
            SettingsEdit::ExclusiveMode(on) => {
                s.exclusive_mode = *on;
                if !*on {
                    s.bit_perfect = false;
                }
            },
            SettingsEdit::ExclusiveDevice(device) => s.exclusive_device = Some(device.clone()),
            SettingsEdit::BitPerfect(on) => {
                s.bit_perfect = *on;
                if *on {
                    s.exclusive_mode = true;
                }
            },
            SettingsEdit::Gapless(on) => s.gapless = *on,
            SettingsEdit::MaxQuality(quality) => s.max_quality = quality.clone(),
            SettingsEdit::DiscordRpc(on) => s.discord_rpc = *on,
            SettingsEdit::DiscordStatusText(text) => s.discord_status_text = text.clone(),
            SettingsEdit::ReportPlays(on) => s.report_plays = *on,
            SettingsEdit::Proxy(proxy) => s.proxy = proxy.clone(),
        }
        s
    }
}

/// The live flags after a command that makes the edit. The flags hold no Discord
/// switch, no reports and no proxy, so those edits leave them alone.
pub open spec fn flagged(a: AppState, edit: SettingsEdit) -> AppState {
    match edit {
        SettingsEdit::Decorations(on) => AppState { decorations: on, ..a },
        SettingsEdit::MinimizeToTray(on) => AppState { minimize_to_tray: on, ..a },
        SettingsEdit::VolumeNormalization(on) => AppState { volume_normalization: on, ..a },
        SettingsEdit::ExclusiveMode(on) => AppState {
            exclusive_mode: on,
            bit_perfect: a.bit_perfect && on,
            ..a
        },
        SettingsEdit::ExclusiveDevice(device) => AppState { exclusive_device: Some(device), ..a },
        SettingsEdit::BitPerfect(on) => AppState {
            bit_perfect: on,
            exclusive_mode: a.exclusive_mode || on,
            ..a
        },
        SettingsEdit::Gapless(on) => AppState { gapless: on, ..a },
        SettingsEdit::MaxQuality(quality) => AppState { max_quality: quality, ..a },
        _ => a,
    }
}

/// Bit-perfect output implies exclusive mode, among the live flags.
pub open spec fn state_consistent(s: AppState) -> bool {
    s.bit_perfect ==> s.exclusive_mode
}

/// Bit-perfect output implies exclusive mode, among the stored settings.
pub open spec fn settings_consistent(s: Settings) -> bool {
    s.bit_perfect ==> s.exclusive_mode
}

/// The live flags are what a restart would read back.
pub open spec fn in_step(a: AppState, s: Settings) -> bool {
    &&& a.decorations == s.decorations
    &&& a.minimize_to_tray == s.minimize_to_tray
    &&& a.volume_normalization == s.volume_normalization
    &&& a.exclusive_mode == s.exclusive_mode
    &&& opt_text(a.exclusive_device) == opt_text(s.exclusive_device)
    &&& a.bit_perfect == s.bit_perfect
    &&& a.gapless == s.gapless
    &&& a.max_quality@ == s.max_quality@
}

/// The edits of exclusive mode and of bit-perfect output make the stored
/// settings consistent whatever they were, and every other edit leaves them as
/// consistent as they were.
pub proof fn law_edits_keep_settings_consistent(s: Settings, edit: SettingsEdit)
    ensures
        edit is ExclusiveMode || edit is BitPerfect ==> settings_consistent(edited(s, edit)),
        edit !is ExclusiveMode && edit !is BitPerfect ==> (settings_consistent(edited(s, edit))
            <==> settings_consistent(s)),
{
}

/// Making an edit twice is making it once.
pub proof fn law_edit_is_idempotent(s: Settings, edit: SettingsEdit)
    ensures
        edited(edited(s, edit), edit) == edited(s, edit),
{
}

} // verus!
