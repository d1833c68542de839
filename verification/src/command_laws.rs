//! What the settings commands mean: what reads back of what was stored, and
//! what the player around the commands is like once their effects are done.
use crate::app_state::{edited, flagged, in_step, AppState, Settings, SettingsEdit, SoneError};
use crate::commands::{
    bit_perfect_of, bit_perfect_script, decorations_of, decorations_script, discord_rpc_of,
    discord_rpc_script, discord_status_text_of, discord_status_text_script, exclusive_device_of,
    exclusive_device_script, exclusive_mode_of, exclusive_mode_script, finite, gain_for, gapless_of,
    gapless_script, is_quality, listed, max_quality_of, max_quality_script, minimize_to_tray_of,
    minimize_to_tray_script, probed_devices, proxy_settings_of, report_plays_of,
    report_plays_script, tooltip_for, volume_normalization_of, volume_normalization_script,
    with_bit_perfect, with_exclusive_mode, DeviceCache,
};
use crate::proxy::plan_of;
use crate::script::{DiscordCommand, Effect, Gain};
use crate::settings::ProxySettings;
use vstd::prelude::*;

verus! {

/// What was written reads back: the field that an edit is for holds what the
/// edit says, whatever was stored before.
pub proof fn law_edit_reads_back(s: Settings, edit: SettingsEdit)
    ensures
        ({
            let t = edited(s, edit);
            match edit {
                SettingsEdit::Decorations(on) => t.decorations == on,
                SettingsEdit::MinimizeToTray(on) => t.minimize_to_tray == on,
                SettingsEdit::VolumeNormalization(on) => t.volume_normalization == on,
                SettingsEdit::ExclusiveMode(on) => t.exclusive_mode == on,
                SettingsEdit::ExclusiveDevice(device) => t.exclusive_device == Some(device),
                SettingsEdit::BitPerfect(on) => t.bit_perfect == on,
                SettingsEdit::Gapless(on) => t.gapless == on,
                SettingsEdit::MaxQuality(quality) => t.max_quality == quality,
                SettingsEdit::DiscordRpc(on) => t.discord_rpc == on,
                SettingsEdit::DiscordStatusText(text) => t.discord_status_text == text,
                SettingsEdit::ReportPlays(on) => t.report_plays == on,
                SettingsEdit::Proxy(proxy) => t.proxy == proxy,
            }
        }),
{
}

/// An edit leaves every field alone that it is not for. Exclusive mode goes
/// along only when bit-perfect output is switched on, and bit-perfect output
/// only when exclusive mode is switched off.
pub proof fn law_edit_leaves_the_rest_alone(s: Settings, edit: SettingsEdit)
    ensures
        ({
            let t = edited(s, edit);
            &&& edit !is Decorations ==> t.decorations == s.decorations
            &&& edit !is MinimizeToTray ==> t.minimize_to_tray == s.minimize_to_tray
            &&& edit !is VolumeNormalization ==> t.volume_normalization == s.volume_normalization
            &&& edit !is ExclusiveDevice ==> t.exclusive_device == s.exclusive_device
            &&& edit !is Gapless ==> t.gapless == s.gapless
            &&& edit !is MaxQuality ==> t.max_quality == s.max_quality
            &&& edit !is DiscordRpc ==> t.discord_rpc == s.discord_rpc
            &&& edit !is DiscordStatusText ==> t.discord_status_text == s.discord_status_text
            &&& edit !is ReportPlays ==> t.report_plays == s.report_plays
            &&& edit !is Proxy ==> t.proxy == s.proxy
            &&& edit !is ExclusiveMode && edit != SettingsEdit::BitPerfect(true)
                ==> t.exclusive_mode == s.exclusive_mode
            &&& edit !is BitPerfect && edit != SettingsEdit::ExclusiveMode(false)
                ==> t.bit_perfect == s.bit_perfect
            &&& edit == SettingsEdit::BitPerfect(true) ==> t.exclusive_mode
            &&& edit == SettingsEdit::ExclusiveMode(false) ==> !t.bit_perfect
        }),
{
}

/// What the commands store is what their getters answer after a restart, and no
/// other getter answers differently for it.
pub proof fn law_getters_answer_what_was_stored(
    s: Settings,
    on: bool,
    text: String,
    proxy: ProxySettings,
)
    ensures
        ({
            let t = Some(edited(s, SettingsEdit::ReportPlays(on)));
            &&& report_plays_of(t) == on
            &&& discord_rpc_of(t) == discord_rpc_of(Some(s))
            &&& discord_status_text_of(t) == discord_status_text_of(Some(s))
            &&& proxy_settings_of(t) == proxy_settings_of(Some(s))
        }),
        ({
            let t = Some(edited(s, SettingsEdit::DiscordRpc(on)));
            &&& discord_rpc_of(t) == on
            &&& report_plays_of(t) == report_plays_of(Some(s))
            &&& discord_status_text_of(t) == discord_status_text_of(Some(s))
            &&& proxy_settings_of(t) == proxy_settings_of(Some(s))
        }),
        ({
            let t = Some(edited(s, SettingsEdit::DiscordStatusText(text)));
            &&& discord_status_text_of(t) == text@
            &&& discord_rpc_of(t) == discord_rpc_of(Some(s))
            &&& report_plays_of(t) == report_plays_of(Some(s))
            &&& proxy_settings_of(t) == proxy_settings_of(Some(s))
        }),
        ({
            let t = Some(edited(s, SettingsEdit::Proxy(proxy)));
            &&& proxy_settings_of(t) == proxy@
            &&& plan_of(proxy_settings_of(t)) == plan_of(proxy@)
            &&& discord_rpc_of(t) == discord_rpc_of(Some(s))
            &&& report_plays_of(t) == report_plays_of(Some(s))
            &&& discord_status_text_of(t) == discord_status_text_of(Some(s))
        }),
{
}

/// A command that sets a live flag sets it to what was asked, and moves no other
/// but where the rule between exclusive mode and bit-perfect output asks for it.
/// The current track's numbers are never touched.
pub proof fn law_live_flag_is_what_was_asked(a: AppState, edit: SettingsEdit)
    ensures
        ({
            let b = flagged(a, edit);
            &&& edit matches SettingsEdit::Decorations(on) ==> b.decorations == on
            &&& edit matches SettingsEdit::MinimizeToTray(on) ==> b.minimize_to_tray == on
            &&& edit matches SettingsEdit::VolumeNormalization(on) ==> b.volume_normalization == on
            &&& edit matches SettingsEdit::ExclusiveMode(on) ==> b.exclusive_mode == on
            &&& edit matches SettingsEdit::ExclusiveDevice(device) ==> b.exclusive_device == Some(
                device,
            )
            &&& edit matches SettingsEdit::BitPerfect(on) ==> b.bit_perfect == on
            &&& edit matches SettingsEdit::Gapless(on) ==> b.gapless == on
            &&& edit matches SettingsEdit::MaxQuality(quality) ==> b.max_quality == quality
            &&& edit !is Decorations ==> b.decorations == a.decorations
            &&& edit !is MinimizeToTray ==> b.minimize_to_tray == a.minimize_to_tray
            &&& edit !is VolumeNormalization ==> b.volume_normalization == a.volume_normalization
            &&& edit !is ExclusiveDevice ==> b.exclusive_device == a.exclusive_device
            &&& edit !is Gapless ==> b.gapless == a.gapless
            &&& edit !is MaxQuality ==> b.max_quality == a.max_quality
            &&& edit !is ExclusiveMode && edit != SettingsEdit::BitPerfect(true)
                ==> b.exclusive_mode == a.exclusive_mode
            &&& edit !is BitPerfect && edit != SettingsEdit::ExclusiveMode(false)
                ==> b.bit_perfect == a.bit_perfect
            &&& edit == SettingsEdit::BitPerfect(true) ==> b.exclusive_mode
            &&& edit == SettingsEdit::ExclusiveMode(false) ==> !b.bit_perfect
            &&& b.last_replay_gain == a.last_replay_gain
            &&& b.last_peak_amplitude == a.last_peak_amplitude
        }),
{
}

/// Each getter shows its own flag, and so what the last command set it to.
pub proof fn law_getters_show_the_live_flags(a: AppState, on: bool, text: String)
    ensures
        decorations_of(a) == a.decorations,
        minimize_to_tray_of(a) == a.minimize_to_tray,
        volume_normalization_of(a) == a.volume_normalization,
        exclusive_mode_of(a) == a.exclusive_mode,
        exclusive_device_of(a) == a.exclusive_device,
        bit_perfect_of(a) == a.bit_perfect,
        gapless_of(a) == a.gapless,
        max_quality_of(a) == a.max_quality,
        decorations_of(flagged(a, SettingsEdit::Decorations(on))) == on,
        minimize_to_tray_of(flagged(a, SettingsEdit::MinimizeToTray(on))) == on,
        volume_normalization_of(flagged(a, SettingsEdit::VolumeNormalization(on))) == on,
        exclusive_mode_of(flagged(a, SettingsEdit::ExclusiveMode(on))) == on,
        exclusive_device_of(flagged(a, SettingsEdit::ExclusiveDevice(text))) == Some(text),
        bit_perfect_of(flagged(a, SettingsEdit::BitPerfect(on))) == on,
        gapless_of(flagged(a, SettingsEdit::Gapless(on))) == on,
        max_quality_of(flagged(a, SettingsEdit::MaxQuality(text))) == text,
{
}

/// Whether `b` is a clone of a clone of `a`.
pub open spec fn cloned_twice<D: Clone>(a: D, b: D) -> bool {
    exists|between: D| cloned(a, between) && #[trigger] cloned(between, b)
}

/// A probe that succeeds is the last: its devices are given as they were found,
/// and the listing after it holds as many, each cloned from a clone of the one
/// found at its place.
pub proof fn law_devices_are_probed_once<D: Clone>(
    before: DeviceCache<D>,
    found: Vec<D>,
    after: DeviceCache<D>,
    r: Result<Vec<D>, SoneError>,
    next: Option<Vec<D>>,
)
    requires
        probed_devices(before, Ok(found), after, r),
        listed(after, next),
    ensures
        r == Ok::<Vec<D>, SoneError>(found),
        next is Some,
        next->0@.len() == found@.len(),
        forall|i: int|
            0 <= i < found@.len() ==> cloned_twice(found@[i], #[trigger] next->0@[i]),
{
    let kept = after.devices->0;
    assert forall|i: int| 0 <= i < found@.len() implies cloned_twice(
        found@[i],
        #[trigger] next->0@[i],
    ) by {
        assert(cloned(found@[i], kept@[i]));
        assert(cloned(kept@[i], next->0@[i]));
    }
}

/// A probe that fails is reported in its own words and changes nothing: the
/// cache answers as it did, and one that was empty asks for a probe again.
pub proof fn law_failed_probe_changes_nothing<D: Clone>(
    before: DeviceCache<D>,
    words: String,
    after: DeviceCache<D>,
    r: Result<Vec<D>, SoneError>,
    next: Option<Vec<D>>,
)
    requires
        probed_devices(before, Err(words), after, r),
        listed(after, next),
    ensures
        r == Err::<Vec<D>, SoneError>(SoneError::Audio(words)),
        after == before,
        next is None <==> before.devices is None,
{
}

/// Flags and stored settings that are in step stay in step under every command:
/// a restart reads back what the player goes by.
pub proof fn law_flags_and_store_move_together(a: AppState, s: Settings, edit: SettingsEdit)
    requires
        in_step(a, s),
    ensures
        in_step(flagged(a, edit), edited(s, edit)),
        flagged(a, edit).exclusive_mode == edited(s, edit).exclusive_mode,
        flagged(a, edit).bit_perfect == edited(s, edit).bit_perfect,
{
}

/// The tray shows the text it was given, and there is none to show without a
/// tray.
pub proof fn law_tray_shows_the_text(text: String)
    ensures
        tooltip_for(true, text) == Some(text),
        tooltip_for(false, text) is None,
{
}

/// Settings that cannot be read count as no Discord, no text, reported plays and
/// no proxy.
pub proof fn law_getters_answer_without_settings()
    ensures
        !discord_rpc_of(None),
        report_plays_of(None),
        discord_status_text_of(None).len() == 0,
        !proxy_settings_of(None).enabled,
{
}

/// The player around the commands: the window, the audio thread, the signal path
/// on show, Discord, the play reporter, and the stored settings.
pub struct World {
    pub decorations: bool,
    pub gain: Gain,
    pub normalization_shown: bool,
    pub exclusive: bool,
    pub device: Option<String>,
    pub bit_perfect: bool,
    pub gapless: bool,
    pub told_discord: Seq<DiscordCommand>,
    pub reporting: bool,
    pub drained: nat,
    pub dropped: nat,
    pub stored: Settings,
}

/// What is stored after an edit.
#[verifier::opaque]
pub open spec fn stored_after(s: Settings, edit: SettingsEdit) -> Settings {
    edited(s, edit)
}

/// The world after an effect.
#[verifier::opaque]
pub open spec fn performed(w: World, effect: Effect) -> World {
    match effect {
        Effect::SetWindowDecorations(on) => World { decorations: on, ..w },
        Effect::SetNormalizationGain(gain) => World { gain, ..w },
        Effect::ShowNormalization(on) => World { normalization_shown: on, ..w },
        Effect::SetAudioExclusive { enabled, device } => World { exclusive: enabled, device, ..w },
        Effect::SetAudioBitPerfect(on) => World { bit_perfect: on, ..w },
        Effect::SetAudioGapless(on) => World { gapless: on, ..w },
        Effect::SendDiscord(command) => World {
            told_discord: w.told_discord.push(command),
            ..w
        },
        Effect::SaveSettings(edit) => World { stored: stored_after(w.stored, edit), ..w },
        Effect::EnableReporting(on) => World { reporting: on, ..w },
        Effect::DrainReports => World { drained: w.drained + 1, ..w },
        Effect::DropSession => World { dropped: w.dropped + 1, ..w },
    }
}

/// The world after the first `k` effects of a script.
#[verifier::opaque]
pub open spec fn after(w: World, script: Seq<Effect>, k: int) -> World
    decreases k,
{
    if k <= 0 {
        w
    } else {
        performed(after(w, script, k - 1), script[k - 1])
    }
}

/// The world after a whole script.
pub open spec fn after_all(w: World, script: Seq<Effect>) -> World {
    after(w, script, script.len() as int)
}

proof fn lemma_saved(w: World, edit: SettingsEdit, stored: Settings)
    requires
        stored_after(w.stored, edit) == stored,
    ensures
        performed(w, Effect::SaveSettings(edit)) == (World { stored, ..w }),
{
    reveal(performed);
}

proof fn lemma_stored_decorations(s: Settings, on: bool)
    ensures
        stored_after(s, SettingsEdit::Decorations(on)) == (Settings {
            decorations: on,
            ..s
        }),
{
    reveal(stored_after);
}

proof fn lemma_stored_minimize_to_tray(s: Settings, on: bool)
    ensures
        stored_after(s, SettingsEdit::MinimizeToTray(on)) == (Settings {
            minimize_to_tray: on,
            ..s
        }),
{
    reveal(stored_after);
}

proof fn lemma_stored_gapless(s: Settings, on: bool)
    ensures
        stored_after(s, SettingsEdit::Gapless(on)) == (Settings {
            gapless: on,
            ..s
        }),
{
    reveal(stored_after);
}

proof fn lemma_stored_max_quality(s: Settings, text: String)
    ensures
        stored_after(s, SettingsEdit::MaxQuality(text)) == (Settings {
            max_quality: text,
            ..s
        }),
{
    reveal(stored_after);
}

proof fn lemma_stored_discord_rpc(s: Settings, on: bool)
    ensures
        stored_after(s, SettingsEdit::DiscordRpc(on)) == (Settings {
            discord_rpc: on,
            ..s
        }),
{
    reveal(stored_after);
}

proof fn lemma_stored_discord_status_text(s: Settings, text: String)
    ensures
        stored_after(s, SettingsEdit::DiscordStatusText(text)) == (Settings {
            discord_status_text: text,
            ..s
        }),
{
    reveal(stored_after);
}

proof fn lemma_stored_report_plays(s: Settings, on: bool)
    ensures
        stored_after(s, SettingsEdit::ReportPlays(on)) == (Settings {
            report_plays: on,
            ..s
        }),
{
    reveal(stored_after);
}

proof fn lemma_stored_volume_normalization(s: Settings, on: bool)
    ensures
        stored_after(s, SettingsEdit::VolumeNormalization(on)) == (Settings {
            volume_normalization: on,
            ..s
        }),
{
    reveal(stored_after);
}

proof fn lemma_stored_exclusive_device(s: Settings, device: String)
    ensures
        stored_after(s, SettingsEdit::ExclusiveDevice(device)) == (Settings {
            exclusive_device: Some(device),
            ..s
        }),
{
    reveal(stored_after);
}

proof fn lemma_stored_exclusive_mode(s: Settings, on: bool)
    ensures
        stored_after(s, SettingsEdit::ExclusiveMode(on)) == (Settings {
            exclusive_mode: on,
            bit_perfect: s.bit_perfect && on,
            ..s
        }),
{
    reveal(stored_after);
}

proof fn lemma_stored_bit_perfect(s: Settings, on: bool)
    ensures
        stored_after(s, SettingsEdit::BitPerfect(on)) == (Settings {
            bit_perfect: on,
            exclusive_mode: s.exclusive_mode || on,
            ..s
        }),
{
    reveal(stored_after);
}

proof fn lemma_exclusive_set(w: World, on: bool, device: Option<String>)
    ensures
        performed(w, Effect::SetAudioExclusive { enabled: on, device }) == (World {
            exclusive: on,
            device,
            ..w
        }),
{
    reveal(performed);
}

proof fn lemma_bit_perfect_set(w: World, on: bool)
    ensures
        performed(w, Effect::SetAudioBitPerfect(on)) == (World { bit_perfect: on, ..w }),
{
    reveal(performed);
}

proof fn lemma_gapless_set(w: World, on: bool)
    ensures
        performed(w, Effect::SetAudioGapless(on)) == (World { gapless: on, ..w }),
{
    reveal(performed);
}

proof fn lemma_gain_set(w: World, gain: Gain)
    ensures
        performed(w, Effect::SetNormalizationGain(gain)) == (World { gain, ..w }),
{
    reveal(performed);
}

proof fn lemma_normalization_shown(w: World, on: bool)
    ensures
        performed(w, Effect::ShowNormalization(on)) == (World { normalization_shown: on, ..w }),
{
    reveal(performed);
}

proof fn lemma_reporting_set(w: World, on: bool)
    ensures
        performed(w, Effect::EnableReporting(on)) == (World { reporting: on, ..w }),
{
    reveal(performed);
}

proof fn lemma_drained(w: World)
    ensures
        performed(w, Effect::DrainReports) == (World { drained: w.drained + 1, ..w }),
{
    reveal(performed);
}

proof fn lemma_dropped(w: World)
    ensures
        performed(w, Effect::DropSession) == (World { dropped: w.dropped + 1, ..w }),
{
    reveal(performed);
}

proof fn lemma_decorations_set(w: World, on: bool)
    ensures
        performed(w, Effect::SetWindowDecorations(on)) == (World { decorations: on, ..w }),
{
    reveal(performed);
}

proof fn lemma_told(w: World, command: DiscordCommand)
    ensures
        performed(w, Effect::SendDiscord(command)) == (World {
            told_discord: w.told_discord.push(command),
            ..w
        }),
{
    reveal(performed);
}

proof fn lemma_one(w: World, script: Seq<Effect>, a: Effect)
    requires
        script =~= seq![a],
    ensures
        after_all(w, script) == performed(w, a),
{
    reveal_with_fuel(after, 2);
}

proof fn lemma_two(w: World, script: Seq<Effect>, a: Effect, v: World, b: Effect, u: World)
    requires
        script =~= seq![a, b],
        performed(w, a) == v,
        performed(v, b) == u,
    ensures
        script.len() == 2,
        after(w, script, 0) == w,
        after(w, script, 1) == v,
        after(w, script, 2) == u,
{
    reveal_with_fuel(after, 3);
}

proof fn lemma_three(
    w: World,
    script: Seq<Effect>,
    a: Effect,
    v: World,
    b: Effect,
    u: World,
    c: Effect,
    t: World,
)
    requires
        script =~= seq![a, b, c],
        performed(w, a) == v,
        performed(v, b) == u,
        performed(u, c) == t,
    ensures
        script.len() == 3,
        after(w, script, 0) == w,
        after(w, script, 1) == v,
        after(w, script, 2) == u,
        after(w, script, 3) == t,
{
    reveal_with_fuel(after, 4);
}

/// A plain switch does its one thing, stores it, and touches nothing else.
pub proof fn law_plain_switches_do_their_one_thing(w: World, on: bool, text: String)
    ensures
        after_all(w, decorations_script(on)) == (World {
            decorations: on,
            stored: Settings { decorations: on, ..w.stored },
            ..w
        }),
        after_all(w, minimize_to_tray_script(on)) == (World {
            stored: Settings { minimize_to_tray: on, ..w.stored },
            ..w
        }),
        after_all(w, gapless_script(on)) == (World {
            gapless: on,
            stored: Settings { gapless: on, ..w.stored },
            ..w
        }),
        after_all(w, max_quality_script(text)) == (World {
            stored: Settings { max_quality: text, ..w.stored },
            ..w
        }),
{
    lemma_stored_decorations(w.stored, on);
    lemma_decorations_run(w, on, Settings { decorations: on, ..w.stored });
    lemma_stored_gapless(w.stored, on);
    lemma_gapless_run(w, on, Settings { gapless: on, ..w.stored });
    assert(after_all(w, minimize_to_tray_script(on)) == performed(
        w,
        Effect::SaveSettings(SettingsEdit::MinimizeToTray(on)),
    )) by {
        lemma_one(
            w,
            minimize_to_tray_script(on),
            Effect::SaveSettings(SettingsEdit::MinimizeToTray(on)),
        );
    }
    lemma_stored_minimize_to_tray(w.stored, on);
    lemma_saved(
        w,
        SettingsEdit::MinimizeToTray(on),
        Settings { minimize_to_tray: on, ..w.stored },
    );
    assert(after_all(w, max_quality_script(text)) == performed(
        w,
        Effect::SaveSettings(SettingsEdit::MaxQuality(text)),
    )) by {
        lemma_one(
            w,
            max_quality_script(text),
            Effect::SaveSettings(SettingsEdit::MaxQuality(text)),
        );
    }
    lemma_stored_max_quality(w.stored, text);
    lemma_saved(w, SettingsEdit::MaxQuality(text), Settings { max_quality: text, ..w.stored });
}

proof fn lemma_decorations_run(w: World, on: bool, stored: Settings)
    requires
        stored_after(w.stored, SettingsEdit::Decorations(on)) == stored,
    ensures
        after_all(w, decorations_script(on)) == (World { decorations: on, stored, ..w }),
{
    let v = World { decorations: on, ..w };
    let save = Effect::SaveSettings(SettingsEdit::Decorations(on));
    lemma_decorations_set(w, on);
    lemma_saved(v, SettingsEdit::Decorations(on), stored);
    lemma_two(
        w,
        decorations_script(on),
        Effect::SetWindowDecorations(on),
        v,
        save,
        World { stored, ..v },
    );
}

proof fn lemma_gapless_shape(w: World, v: World, u: World, on: bool)
    requires
        performed(w, Effect::SetAudioGapless(on)) == v,
        performed(v, Effect::SaveSettings(SettingsEdit::Gapless(on))) == u,
    ensures
        after_all(w, gapless_script(on)) == u,
{
    lemma_two(
        w,
        gapless_script(on),
        Effect::SetAudioGapless(on),
        v,
        Effect::SaveSettings(SettingsEdit::Gapless(on)),
        u,
    );
}

proof fn lemma_gapless_run(w: World, on: bool, stored: Settings)
    requires
        stored_after(w.stored, SettingsEdit::Gapless(on)) == stored,
    ensures
        after_all(w, gapless_script(on)) == (World { gapless: on, stored, ..w }),
{
    let v = World { gapless: on, ..w };
    lemma_gapless_set(w, on);
    lemma_saved(v, SettingsEdit::Gapless(on), stored);
    lemma_gapless_shape(w, v, World { stored, ..v }, on);
}

/// Discord is told once of a switch or a text, which is then stored.
pub proof fn law_discord_commands_tell_and_store(w: World, on: bool, text: String)
    ensures
        after_all(w, discord_rpc_script(on)) == (World {
            told_discord: w.told_discord.push(
                if on {
                    DiscordCommand::Connect
                } else {
                    DiscordCommand::Disconnect
                },
            ),
            stored: Settings { discord_rpc: on, ..w.stored },
            ..w
        }),
        after_all(w, discord_status_text_script(text)) == (World {
            told_discord: w.told_discord.push(DiscordCommand::SetStatusText { text }),
            stored: Settings { discord_status_text: text, ..w.stored },
            ..w
        }),
{
    let command = if on {
        DiscordCommand::Connect
    } else {
        DiscordCommand::Disconnect
    };
    lemma_stored_discord_rpc(w.stored, on);
    lemma_discord_run(
        w,
        discord_rpc_script(on),
        command,
        SettingsEdit::DiscordRpc(on),
        Settings { discord_rpc: on, ..w.stored },
    );
    lemma_stored_discord_status_text(w.stored, text);
    lemma_discord_run(
        w,
        discord_status_text_script(text),
        DiscordCommand::SetStatusText { text },
        SettingsEdit::DiscordStatusText(text),
        Settings { discord_status_text: text, ..w.stored },
    );
}

proof fn lemma_discord_run(
    w: World,
    script: Seq<Effect>,
    command: DiscordCommand,
    edit: SettingsEdit,
    stored: Settings,
)
    requires
        script =~= seq![Effect::SendDiscord(command), Effect::SaveSettings(edit)],
        stored_after(w.stored, edit) == stored,
    ensures
        after_all(w, script) == (World {
            told_discord: w.told_discord.push(command),
            stored,
            ..w
        }),
{
    let v = World { told_discord: w.told_discord.push(command), ..w };
    let u = World { stored, ..v };
    assert(performed(w, Effect::SendDiscord(command)) == v) by {
        lemma_told(w, command);
    }
    assert(performed(v, Effect::SaveSettings(edit)) == u) by {
        lemma_saved(v, edit, u.stored);
    }
    lemma_two(w, script, Effect::SendDiscord(command), v, Effect::SaveSettings(edit), u);
}

/// A switch of play reports is stored and reaches the reporter; the backlog is
/// flushed exactly when it is switched on, and the session dropped exactly when
/// it is switched off.
pub proof fn law_report_switch_is_stored_and_followed(w: World, on: bool)
    ensures
        after_all(w, report_plays_script(on)) == (World {
            reporting: on,
            drained: w.drained + if on {
                1nat
            } else {
                0nat
            },
            dropped: w.dropped + if on {
                0nat
            } else {
                1nat
            },
            stored: Settings { report_plays: on, ..w.stored },
            ..w
        }),
{
    let stored = Settings { report_plays: on, ..w.stored };
    lemma_stored_report_plays(w.stored, on);
    if on {
        lemma_report_on(w, stored);
    } else {
        lemma_report_off(w, stored);
    }
}

proof fn lemma_report_shape(w: World, v: World, u: World, t: World, on: bool)
    requires
        performed(w, Effect::SaveSettings(SettingsEdit::ReportPlays(on))) == v,
        performed(v, Effect::EnableReporting(on)) == u,
        on ==> performed(u, Effect::DrainReports) == t,
        !on ==> performed(u, Effect::DropSession) == t,
    ensures
        after_all(w, report_plays_script(on)) == t,
{
    let last = if on {
        Effect::DrainReports
    } else {
        Effect::DropSession
    };
    lemma_three(
        w,
        report_plays_script(on),
        Effect::SaveSettings(SettingsEdit::ReportPlays(on)),
        v,
        Effect::EnableReporting(on),
        u,
        last,
        t,
    );
}

proof fn lemma_report_on(w: World, stored: Settings)
    requires
        stored_after(w.stored, SettingsEdit::ReportPlays(true)) == stored,
    ensures
        after_all(w, report_plays_script(true)) == (World {
            reporting: true,
            drained: w.drained + 1,
            stored,
            ..w
        }),
{
    let v = World { stored, ..w };
    let u = World { reporting: true, ..v };
    lemma_saved(w, SettingsEdit::ReportPlays(true), stored);
    lemma_reporting_set(v, true);
    lemma_drained(u);
    lemma_report_shape(w, v, u, World { drained: w.drained + 1, ..u }, true);
}

proof fn lemma_report_off(w: World, stored: Settings)
    requires
        stored_after(w.stored, SettingsEdit::ReportPlays(false)) == stored,
    ensures
        after_all(w, report_plays_script(false)) == (World {
            reporting: false,
            dropped: w.dropped + 1,
            stored,
            ..w
        }),
{
    let v = World { stored, ..w };
    let u = World { reporting: false, ..v };
    lemma_saved(w, SettingsEdit::ReportPlays(false), stored);
    lemma_reporting_set(v, false);
    lemma_dropped(u);
    lemma_report_shape(w, v, u, World { dropped: w.dropped + 1, ..u }, false);
}

/// A number is finite exactly when its bits, without the sign, are below those
/// of infinity.
pub proof fn law_finite_is_below_infinity(bits: u64)
    ensures
        finite(bits) <==> bits % 0x8000_0000_0000_0000 < 0x7ff0_0000_0000_0000,
{
    assert((bits / 0x10_0000_0000_0000) % 0x800 != 0x7ff <==> bits % 0x8000_0000_0000_0000
        < 0x7ff0_0000_0000_0000) by (bit_vector);
}

/// Switching normalization on asks for the gain of the current track, from its
/// replay gain and its peak as far as each is finite; switching it off asks for
/// none. The switch is shown and stored.
pub proof fn law_normalization_follows_the_track(w: World, state: AppState, on: bool)
    ensures
        ({
            let v = after_all(w, volume_normalization_script(state, on));
            &&& v == World {
                gain: v.gain,
                normalization_shown: on,
                stored: Settings { volume_normalization: on, ..w.stored },
                ..w
            }
            &&& !on ==> v.gain is Unity
            &&& on ==> (v.gain matches Gain::FromTrack { replay_gain, peak } && replay_gain == (
            if state.last_replay_gain % 0x8000_0000_0000_0000 < 0x7ff0_0000_0000_0000 {
                Some(state.last_replay_gain)
            } else {
                None
            }) && peak == (if state.last_peak_amplitude % 0x8000_0000_0000_0000
                < 0x7ff0_0000_0000_0000 {
                Some(state.last_peak_amplitude)
            } else {
                None
            }))
        }),
{
    let stored = Settings { volume_normalization: on, ..w.stored };
    lemma_stored_volume_normalization(w.stored, on);
    lemma_normalization_run(w, state, on, stored);
    law_finite_is_below_infinity(state.last_replay_gain);
    law_finite_is_below_infinity(state.last_peak_amplitude);
}

proof fn lemma_normalization_run(w: World, state: AppState, on: bool, stored: Settings)
    requires
        stored_after(w.stored, SettingsEdit::VolumeNormalization(on)) == stored,
    ensures
        after_all(w, volume_normalization_script(state, on)) == (World {
            gain: gain_for(state, on),
            normalization_shown: on,
            stored,
            ..w
        }),
{
    let gain = gain_for(state, on);
    let v = World { gain, ..w };
    let u = World { normalization_shown: on, ..v };
    lemma_gain_set(w, gain);
    lemma_normalization_shown(v, on);
    lemma_saved(u, SettingsEdit::VolumeNormalization(on), stored);
    lemma_three(
        w,
        volume_normalization_script(state, on),
        Effect::SetNormalizationGain(gain),
        v,
        Effect::ShowNormalization(on),
        u,
        Effect::SaveSettings(SettingsEdit::VolumeNormalization(on)),
        World { stored, ..u },
    );
}

/// What the commands on exclusive output make of the live flags: the flag that
/// was asked for is set, the other follows only where the rule between them asks
/// for it, and nothing else moves.
pub proof fn law_exclusive_commands_set_what_was_asked(state: AppState, on: bool)
    ensures
        with_exclusive_mode(state, on) == (AppState {
            exclusive_mode: on,
            bit_perfect: if on {
                state.bit_perfect
            } else {
                false
            },
            ..state
        }),
        with_bit_perfect(state, on) == (AppState {
            bit_perfect: on,
            exclusive_mode: if on {
                true
            } else {
                state.exclusive_mode
            },
            ..state
        }),
{
}

/// Whether whatever the script tells the audio thread is what the live flags
/// say.
pub open spec fn speaks_for(script: Seq<Effect>, state: AppState) -> bool {
    forall|i: int|
        0 <= i < script.len() ==> match #[trigger] script[i] {
            Effect::SetAudioExclusive { enabled, device } => enabled == state.exclusive_mode
                && device == state.exclusive_device,
            Effect::SetAudioBitPerfect(on) => on == state.bit_perfect,
            _ => true,
        }
}

/// Whether the script tells the audio thread of exclusive mode.
pub open spec fn tells_exclusive(script: Seq<Effect>) -> bool {
    exists|i: int| 0 <= i < script.len() && (#[trigger] script[i]) is SetAudioExclusive
}

/// Whether the script tells the audio thread of bit-perfect output.
pub open spec fn tells_bit_perfect(script: Seq<Effect>) -> bool {
    exists|i: int| 0 <= i < script.len() && (#[trigger] script[i]) is SetAudioBitPerfect
}

/// What the commands on exclusive output tell the audio thread is what the live
/// flags and the chosen device are after the command; and a flag that moved is
/// told.
pub proof fn law_audio_is_told_the_live_flags(state: AppState, on: bool, device: String)
    ensures
        speaks_for(exclusive_mode_script(state, on), with_exclusive_mode(state, on)),
        speaks_for(bit_perfect_script(state, on), with_bit_perfect(state, on)),
        speaks_for(
            exclusive_device_script(state, device),
            AppState { exclusive_device: Some(device), ..state },
        ),
        tells_exclusive(exclusive_mode_script(state, on)),
        tells_exclusive(exclusive_device_script(state, device)),
        tells_bit_perfect(bit_perfect_script(state, on)),
        !on ==> tells_bit_perfect(exclusive_mode_script(state, on)),
        on && !state.exclusive_mode ==> tells_exclusive(bit_perfect_script(state, on)),
{
    let a = exclusive_mode_script(state, on);
    let b = bit_perfect_script(state, on);
    let c = exclusive_device_script(state, device);
    assert(a[if on {
        0
    } else {
        1
    }] is SetAudioExclusive);
    assert(c[0] is SetAudioExclusive);
    assert(b[if on && !state.exclusive_mode {
        1
    } else {
        0
    }] is SetAudioBitPerfect);
    if !on {
        assert(a[0] is SetAudioBitPerfect);
    }
    if on && !state.exclusive_mode {
        assert(b[0] is SetAudioExclusive);
    }
}

/// Whether the audio thread does what the live flags say.
pub open spec fn audio_in_step(w: World, state: AppState) -> bool {
    &&& w.exclusive == state.exclusive_mode
    &&& w.device == state.exclusive_device
    &&& w.bit_perfect == state.bit_perfect
}

/// Whether the stored settings say of exclusive output what the live flags say.
pub open spec fn store_in_step(w: World, state: AppState) -> bool {
    &&& w.stored.exclusive_mode == state.exclusive_mode
    &&& w.stored.exclusive_device == state.exclusive_device
    &&& w.stored.bit_perfect == state.bit_perfect
}

/// The commands on exclusive output keep audio thread, stored settings and live
/// flags in step, and touch nothing else of the player.
pub proof fn law_exclusive_commands_keep_the_player_in_step(
    w: World,
    state: AppState,
    on: bool,
    device: String,
)
    requires
        audio_in_step(w, state),
        store_in_step(w, state),
    ensures
        ({
            let v = after_all(w, exclusive_mode_script(state, on));
            let now = with_exclusive_mode(state, on);
            audio_in_step(v, now) && store_in_step(v, now) && rest_alone(w, v)
        }),
        ({
            let v = after_all(w, bit_perfect_script(state, on));
            let now = with_bit_perfect(state, on);
            audio_in_step(v, now) && store_in_step(v, now) && rest_alone(w, v)
        }),
        ({
            let v = after_all(w, exclusive_device_script(state, device));
            let now = AppState { exclusive_device: Some(device), ..state };
            audio_in_step(v, now) && store_in_step(v, now) && rest_alone(w, v)
        }),
{
    lemma_exclusive_in_step(w, state, on);
    lemma_bit_perfect_in_step(w, state, on);
    lemma_device_in_step(w, state, device);
}

proof fn lemma_exclusive_shape(
    w: World,
    v: World,
    u: World,
    t: World,
    state: AppState,
    on: bool,
)
    requires
        on ==> v == w,
        !on ==> performed(w, Effect::SetAudioBitPerfect(false)) == v,
        performed(
            v,
            Effect::SetAudioExclusive { enabled: on, device: state.exclusive_device },
        ) == u,
        performed(u, Effect::SaveSettings(SettingsEdit::ExclusiveMode(on))) == t,
    ensures
        ({
            let script = exclusive_mode_script(state, on);
            &&& after(w, script, 0) == w
            &&& on ==> script.len() == 2 && after(w, script, 1) == u
            &&& !on ==> script.len() == 3 && after(w, script, 1) == v && after(w, script, 2) == u
            &&& after_all(w, script) == t
        }),
{
    let script = exclusive_mode_script(state, on);
    let told = Effect::SetAudioExclusive { enabled: on, device: state.exclusive_device };
    let save = Effect::SaveSettings(SettingsEdit::ExclusiveMode(on));
    if on {
        lemma_two(w, script, told, u, save, t);
    } else {
        lemma_three(w, script, Effect::SetAudioBitPerfect(false), v, told, u, save, t);
    }
}

proof fn lemma_exclusive_run(w: World, state: AppState, on: bool, stored: Settings)
    requires
        stored_after(w.stored, SettingsEdit::ExclusiveMode(on)) == stored,
    ensures
        ({
            let script = exclusive_mode_script(state, on);
            let v = World { bit_perfect: w.bit_perfect && on, ..w };
            let u = World { exclusive: on, device: state.exclusive_device, ..v };
            &&& after(w, script, 0) == w
            &&& on ==> script.len() == 2 && after(w, script, 1) == u
            &&& !on ==> script.len() == 3 && after(w, script, 1) == v && after(w, script, 2) == u
            &&& after_all(w, script) == World { stored, ..u }
        }),
{
    let v = World { bit_perfect: w.bit_perfect && on, ..w };
    let u = World { exclusive: on, device: state.exclusive_device, ..v };
    if !on {
        lemma_bit_perfect_set(w, false);
    }
    lemma_exclusive_set(v, on, state.exclusive_device);
    lemma_saved(u, SettingsEdit::ExclusiveMode(on), stored);
    lemma_exclusive_shape(w, v, u, World { stored, ..u }, state, on);
}

proof fn lemma_bit_perfect_shape(
    w: World,
    v: World,
    u: World,
    t: World,
    state: AppState,
    on: bool,
)
    requires
        on && !state.exclusive_mode ==> performed(
            w,
            Effect::SetAudioExclusive { enabled: true, device: state.exclusive_device },
        ) == v,
        !(on && !state.exclusive_mode) ==> v == w,
        performed(v, Effect::SetAudioBitPerfect(on)) == u,
        performed(u, Effect::SaveSettings(SettingsEdit::BitPerfect(on))) == t,
    ensures
        ({
            let script = bit_perfect_script(state, on);
            let enters = on && !state.exclusive_mode;
            &&& after(w, script, 0) == w
            &&& !enters ==> script.len() == 2 && after(w, script, 1) == u
            &&& enters ==> script.len() == 3 && after(w, script, 1) == v && after(w, script, 2) == u
            &&& after_all(w, script) == t
        }),
{
    let script = bit_perfect_script(state, on);
    let entering = Effect::SetAudioExclusive { enabled: true, device: state.exclusive_device };
    let told = Effect::SetAudioBitPerfect(on);
    let save = Effect::SaveSettings(SettingsEdit::BitPerfect(on));
    if on && !state.exclusive_mode {
        lemma_three(w, script, entering, v, told, u, save, t);
    } else {
        lemma_two(w, script, told, u, save, t);
    }
}

proof fn lemma_bit_perfect_entered(w: World, state: AppState, stored: Settings)
    requires
        !state.exclusive_mode,
        stored_after(w.stored, SettingsEdit::BitPerfect(true)) == stored,
    ensures
        ({
            let script = bit_perfect_script(state, true);
            let v = World { exclusive: true, device: state.exclusive_device, ..w };
            let u = World { bit_perfect: true, ..v };
            &&& script.len() == 3
            &&& after(w, script, 0) == w
            &&& after(w, script, 1) == v
            &&& after(w, script, 2) == u
            &&& after_all(w, script) == World { stored, ..u }
        }),
{
    let v = World { exclusive: true, device: state.exclusive_device, ..w };
    let u = World { bit_perfect: true, ..v };
    lemma_exclusive_set(w, true, state.exclusive_device);
    lemma_bit_perfect_set(v, true);
    lemma_saved(u, SettingsEdit::BitPerfect(true), stored);
    lemma_bit_perfect_shape(w, v, u, World { stored, ..u }, state, true);
}

proof fn lemma_bit_perfect_kept(w: World, state: AppState, on: bool, stored: Settings)
    requires
        on ==> state.exclusive_mode,
        stored_after(w.stored, SettingsEdit::BitPerfect(on)) == stored,
    ensures
        ({
            let script = bit_perfect_script(state, on);
            let u = World { bit_perfect: on, ..w };
            &&& script.len() == 2
            &&& after(w, script, 0) == w
            &&& after(w, script, 1) == u
            &&& after_all(w, script) == World { stored, ..u }
        }),
{
    let u = World { bit_perfect: on, ..w };
    lemma_bit_perfect_set(w, on);
    lemma_saved(u, SettingsEdit::BitPerfect(on), stored);
    lemma_bit_perfect_shape(w, w, u, World { stored, ..u }, state, on);
}

proof fn lemma_device_run(w: World, state: AppState, device: String, stored: Settings)
    requires
        stored_after(w.stored, SettingsEdit::ExclusiveDevice(device)) == stored,
    ensures
        ({
            let script = exclusive_device_script(state, device);
            let v = World { exclusive: state.exclusive_mode, device: Some(device), ..w };
            &&& script.len() == 2
            &&& after(w, script, 0) == w
            &&& after(w, script, 1) == v
            &&& after_all(w, script) == World { stored, ..v }
        }),
{
    let told = Effect::SetAudioExclusive { enabled: state.exclusive_mode, device: Some(device) };
    let v = World { exclusive: state.exclusive_mode, device: Some(device), ..w };
    lemma_exclusive_set(w, state.exclusive_mode, Some(device));
    lemma_saved(v, SettingsEdit::ExclusiveDevice(device), stored);
    lemma_two(
        w,
        exclusive_device_script(state, device),
        told,
        v,
        Effect::SaveSettings(SettingsEdit::ExclusiveDevice(device)),
        World { stored, ..v },
    );
}

proof fn lemma_exclusive_in_step(w: World, state: AppState, on: bool)
    requires
        audio_in_step(w, state),
        store_in_step(w, state),
    ensures
        ({
            let v = after_all(w, exclusive_mode_script(state, on));
            let now = with_exclusive_mode(state, on);
            audio_in_step(v, now) && store_in_step(v, now) && rest_alone(w, v)
        }),
{
    lemma_stored_exclusive_mode(w.stored, on);
    lemma_exclusive_run(
        w,
        state,
        on,
        stored_after(w.stored, SettingsEdit::ExclusiveMode(on)),
    );
}

proof fn lemma_bit_perfect_in_step(w: World, state: AppState, on: bool)
    requires
        audio_in_step(w, state),
        store_in_step(w, state),
    ensures
        ({
            let v = after_all(w, bit_perfect_script(state, on));
            let now = with_bit_perfect(state, on);
            audio_in_step(v, now) && store_in_step(v, now) && rest_alone(w, v)
        }),
{
    let stored = stored_after(w.stored, SettingsEdit::BitPerfect(on));
    lemma_stored_bit_perfect(w.stored, on);
    if on && !state.exclusive_mode {
        lemma_bit_perfect_entered(w, state, stored);
    } else {
        lemma_bit_perfect_kept(w, state, on, stored);
    }
}

proof fn lemma_device_in_step(w: World, state: AppState, device: String)
    requires
        audio_in_step(w, state),
        store_in_step(w, state),
    ensures
        ({
            let v = after_all(w, exclusive_device_script(state, device));
            let now = AppState { exclusive_device: Some(device), ..state };
            audio_in_step(v, now) && store_in_step(v, now) && rest_alone(w, v)
        }),
{
    lemma_stored_exclusive_device(w.stored, device);
    lemma_device_run(
        w,
        state,
        device,
        stored_after(w.stored, SettingsEdit::ExclusiveDevice(device)),
    );
}

/// Whether two worlds differ in exclusive output at most.
pub open spec fn rest_alone(w: World, v: World) -> bool {
    v == World {
        exclusive: v.exclusive,
        device: v.device,
        bit_perfect: v.bit_perfect,
        stored: Settings {
            exclusive_mode: v.stored.exclusive_mode,
            exclusive_device: v.stored.exclusive_device,
            bit_perfect: v.stored.bit_perfect,
            ..w.stored
        },
        ..w
    }
}

/// At no point of these commands is the audio thread bit-perfect without being
/// exclusive: leaving exclusive mode ends bit-perfect output first, and entering
/// bit-perfect output enters exclusive mode first.
pub proof fn law_audio_is_never_bit_perfect_alone(
    w: World,
    state: AppState,
    on: bool,
    device: String,
    k: int,
)
    requires
        audio_in_step(w, state),
        w.bit_perfect ==> w.exclusive,
    ensures
        0 <= k <= exclusive_mode_script(state, on).len() ==> ({
            let v = after(w, exclusive_mode_script(state, on), k);
            v.bit_perfect ==> v.exclusive
        }),
        0 <= k <= bit_perfect_script(state, on).len() ==> ({
            let v = after(w, bit_perfect_script(state, on), k);
            v.bit_perfect ==> v.exclusive
        }),
        0 <= k <= exclusive_device_script(state, device).len() ==> ({
            let v = after(w, exclusive_device_script(state, device), k);
            v.bit_perfect ==> v.exclusive
        }),
{
    lemma_exclusive_run(
        w,
        state,
        on,
        stored_after(w.stored, SettingsEdit::ExclusiveMode(on)),
    );
    let stored = stored_after(w.stored, SettingsEdit::BitPerfect(on));
    if on && !state.exclusive_mode {
        lemma_bit_perfect_entered(w, state, stored);
    } else {
        lemma_bit_perfect_kept(w, state, on, stored);
    }
    lemma_device_run(
        w,
        state,
        device,
        stored_after(w.stored, SettingsEdit::ExclusiveDevice(device)),
    );
}

/// There are three qualities to cap playback at.
pub proof fn law_three_qualities(q: Seq<char>)
    ensures
        is_quality("HI_RES_LOSSLESS"@),
        is_quality("LOSSLESS"@),
        is_quality("HIGH"@),
        is_quality(q) ==> q.len() == 15 && q == "HI_RES_LOSSLESS"@ || q.len() == 8 && q
            == "LOSSLESS"@ || q.len() == 4 && q == "HIGH"@,
{
    reveal_strlit("HI_RES_LOSSLESS");
    reveal_strlit("LOSSLESS");
    reveal_strlit("HIGH");
}

} // verus!
