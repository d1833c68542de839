//! What saving a proxy, reporting on it and testing it mean.
use crate::app_state::{edited, Settings, SettingsEdit, SoneError};
use crate::commands::proxy_settings_of;
use crate::laws::plan_creds;
use crate::plan_laws::{
    cannot_seek, endpoint, law_credentials_are_those_of_the_settings,
    law_uri_spells_out_the_endpoint, law_what_blocks_a_consumer,
};
use crate::proxy::{
    plan_error_text, plan_of, route_of, BlockReason, Capability, HostCaps, PlanErrorView, PlanView,
    RouteView,
};
use crate::proxy_commands::{
    action_of, capabilities, claims, course, degraded, next_stage, reached, settles, status_is,
    status_reason, status_text, steps_at, test_may_begin, test_task_failure_text, told,
    update_start, verdict, ProxyAction, ProxyEvent, ProxyStatus, Stage, UpdateView,
};
use crate::proxy_http::{
    cell_claimed, cell_installed, cell_replaced, error_reads, proxy_refusal, reports,
    slot_for_settings, unbuilt_text, unusable_text, CellView, ClientConfig, Slot,
};
use crate::settings::{ProxySettings, ProxySettingsView, ProxyType};
use crate::text::{decimal, trimmed};
use vstd::prelude::*;

verus! {

/// Whatever an update asks for, it asks it of the very settings it holds, with
/// user name and password: to be stored, mirrored, applied and pushed.
pub proof fn law_every_action_carries_the_settings(u: UpdateView)
    ensures
        match action_of(u) {
            ProxyAction::Persist(edit) => edit matches SettingsEdit::Proxy(s) && s == u.settings,
            ProxyAction::WriteSidecar(s) => s == u.settings,
            ProxyAction::Apply { generation, settings, caps } => settings == u.settings,
            ProxyAction::PushToAudio(s) => s == u.settings,
            ProxyAction::Nothing => true,
        },
{
}

/// Each stage asks for its own action: nothing is skipped, and nothing is asked
/// for once the update is over. A client is built for a host with everything
/// present, under the generation that was claimed.
pub proof fn law_each_stage_asks_for_its_action(u: UpdateView)
    ensures
        u.stage is Persist <==> action_of(u) is Persist,
        u.stage is Sidecar <==> action_of(u) is WriteSidecar,
        u.stage is Apply <==> action_of(u) is Apply,
        u.stage is PushToAudio <==> action_of(u) is PushToAudio,
        u.stage is Over <==> action_of(u) is Nothing,
        action_of(u) matches ProxyAction::Apply { generation, settings, caps } ==> {
            &&& u.stage == Stage::Apply { generation }
            &&& caps.has_dashdemux && caps.has_curlhttpsrc
            &&& caps.gst_version == (1u32, 26u32, 10u32)
        },
{
}

/// The settings given to an update.
pub open spec fn settings_in(a: ProxyAction) -> Option<ProxySettings> {
    match a {
        ProxyAction::Persist(SettingsEdit::Proxy(s)) => Some(s),
        ProxyAction::WriteSidecar(s) => Some(s),
        ProxyAction::Apply { generation, settings, caps } => Some(settings),
        ProxyAction::PushToAudio(s) => Some(s),
        _ => None,
    }
}

/// Through the whole course of an update every action carries the settings it
/// began with, so what is stored, what is applied and what the audio thread gets
/// are the same.
pub proof fn law_course_never_changes_the_settings(
    us: Seq<UpdateView>,
    events: Seq<(ProxyEvent, u64)>,
    i: int,
)
    requires
        course(us, events),
        0 <= i < us.len(),
    ensures
        us[i].settings == us[0].settings,
        settings_in(action_of(us[i])) matches Some(s) ==> s == us[0].settings,
        settings_in(action_of(us[i])) is None ==> us[i].stage is Over,
    decreases i,
{
    if i > 0 {
        law_course_never_changes_the_settings(us, events, i - 1);
        assert(steps_at(us, events, i - 1));
    }
}

/// A completed update leaves a client for the stored settings: what the update
/// stored reads back as the settings it applied, and the client that was built
/// for them goes through their proxy with their credentials.
pub proof fn law_client_is_for_the_stored_settings(
    u: UpdateView,
    v: UpdateView,
    s: Settings,
    edit: SettingsEdit,
    generation: u64,
    applied: ProxySettings,
    caps: HostCaps,
    config: ClientConfig,
)
    requires
        u.settings == v.settings,
        action_of(u) == ProxyAction::Persist(edit),
        action_of(v) == (ProxyAction::Apply { generation, settings: applied, caps }),
        applied.enabled,
        slot_for_settings(applied@, caps, Ok(config)),
    ensures
        proxy_settings_of(Some(edited(s, edit))) == applied@,
        authenticates_as(config, proxy_settings_of(Some(edited(s, edit)))),
{
    law_client_goes_through_the_configured_proxy(applied@, caps, config);
}

/// Whether the client's one way out is the proxy of the settings, with their
/// user name and password, if they hold a user name.
pub open spec fn authenticates_as(config: ClientConfig, s: ProxySettingsView) -> bool {
    let scheme = match s.proxy_type {
        ProxyType::Http => "http://"@,
        ProxyType::Socks5 => "socks5h://"@,
    };
    &&& config.proxies.len() == 1
    &&& !config.system
    &&& config.proxies[0].uri == scheme + endpoint(trimmed(s.host), s.port)
    &&& s.username is None ==> config.proxies[0].creds is None
    &&& s.username matches Some(name) ==> (config.proxies[0].creds is None <==> trimmed(name).len()
        == 0)
    &&& config.proxies[0].creds matches Some(c) ==> {
        &&& s.username matches Some(name) && c.user == trimmed(name)
        &&& s.password matches Some(given) ==> c.pass == given
        &&& s.password is None ==> c.pass.len() == 0
    }
}

/// A client that enabled settings give goes through the configured proxy, named
/// by its host and port, with the configured credentials, and nowhere else.
pub proof fn law_client_goes_through_the_configured_proxy(
    s: ProxySettingsView,
    env: HostCaps,
    config: ClientConfig,
)
    requires
        s.enabled,
        slot_for_settings(s, env, Ok(config)),
    ensures
        authenticates_as(config, s),
{
    let p = plan_of(s)->Ok_0;
    law_credentials_are_those_of_the_settings(s, p);
    let route = route_of(p, Capability::Api, env)->Ok_0;
    if let RouteView::Via { uri, creds } = route {
        law_uri_spells_out_the_endpoint(p, Capability::Api, env, uri, creds);
    }
}

/// A client of settings with the proxy off has no proxy of its own and leaves
/// the system's in force.
pub proof fn law_client_without_a_proxy_is_the_systems(
    s: ProxySettingsView,
    env: HostCaps,
    slot: Result<ClientConfig, Seq<char>>,
)
    requires
        !s.enabled,
        slot_for_settings(s, env, slot),
    ensures
        slot matches Ok(config) && config.proxies.len() == 0 && config.system,
{
}

/// Every client gives a request thirty seconds, and is told of nothing but that
/// and its proxies.
pub proof fn law_every_client_waits_thirty_seconds(
    s: ProxySettingsView,
    env: HostCaps,
    config: ClientConfig,
)
    requires
        slot_for_settings(s, env, Ok(config)),
    ensures
        config.timeout_secs == Some(30u64),
        config.plain,
{
}

/// How a block for a proxy that reqwest refuses begins: with the proxy's URI.
pub open spec fn refusal_of(s: ProxySettingsView) -> Seq<char> {
    let scheme = match s.proxy_type {
        ProxyType::Http => "http://"@,
        ProxyType::Socks5 => "socks5h://"@,
    };
    "proxy unusable ("@ + (scheme + endpoint(trimmed(s.host), s.port)) + "): "@
}

/// A block for settings that form a plan says which proxy reqwest refused.
pub proof fn law_refused_proxy_is_named(s: ProxySettingsView, env: HostCaps, cause: Seq<char>)
    requires
        s.enabled,
        plan_of(s) is Ok,
        slot_for_settings(s, env, Err(cause)),
    ensures
        cause.len() >= refusal_of(s).len(),
        cause.take(refusal_of(s).len() as int) == refusal_of(s),
{
    let p = plan_of(s)->Ok_0;
    let route = route_of(p, Capability::Api, env)->Ok_0;
    if let RouteView::Via { uri, creds } = route {
        law_uri_spells_out_the_endpoint(p, Capability::Api, env, uri, creds);
        let (e, words) = choose|e: reqwest::Error, words: Seq<char>|
            #![trigger proxy_refusal(uri, e), error_reads(e, words)]
            proxy_refusal(uri, e) && error_reads(e, words) && cause == unusable_text(uri, words);
        assert(cause == refusal_of(s) + words);
        assert(cause.take(refusal_of(s).len() as int) =~= refusal_of(s));
    }
}

/// Settings that form no plan block with the words for what is wrong with them.
pub proof fn law_unplannable_settings_say_why(
    s: ProxySettingsView,
    env: HostCaps,
    slot: Result<ClientConfig, Seq<char>>,
)
    requires
        s.enabled,
        plan_of(s) is Err,
        slot_for_settings(s, env, slot),
    ensures
        s.port == 0 ==> slot == Err::<ClientConfig, Seq<char>>("proxy port must not be 0"@),
        plan_of(s) matches Err(PlanErrorView::BadHost(_)) ==> slot == Err::<
            ClientConfig,
            Seq<char>,
        >("invalid proxy host: "@ + s.host),
        plan_of(s) matches Err(PlanErrorView::NonAsciiHost) ==> slot == Err::<
            ClientConfig,
            Seq<char>,
        >("proxy host must be ASCII"@),
        plan_of(s) matches Err(PlanErrorView::BracketedHost) ==> slot == Err::<
            ClientConfig,
            Seq<char>,
        >("enter an IPv6 address without brackets"@),
        plan_of(s) matches Err(PlanErrorView::EmbeddedPort) ==> slot == Err::<
            ClientConfig,
            Seq<char>,
        >("enter the host without a port; use the port field"@),
{
}

/// A claim moves the counter on and leaves the client alone.
pub proof fn law_claim_leaves_the_client_alone(cell: CellView)
    requires
        cell.claimed < u64::MAX,
    ensures
        cell_claimed(cell).slot == cell.slot,
        cell_claimed(cell).applied == cell.applied,
        cell_claimed(cell).claimed == cell.claimed + 1,
{
}

/// An update takes the cell unless a later one has it: then nothing changes. A
/// counter never goes back.
pub proof fn law_update_takes_the_cell_unless_outranked(
    cell: CellView,
    generation: u64,
    slot: Slot,
)
    ensures
        ({
            let now = cell_installed(cell, generation, slot);
            &&& generation < cell.applied ==> now == cell
            &&& generation >= cell.applied ==> now.slot == slot && now.applied == generation
            &&& now.claimed >= cell.claimed
            &&& generation <= cell.claimed ==> now.claimed == cell.claimed
            &&& now.applied >= cell.applied
        }),
{
}

/// A replacement takes the cell at once, whatever it holds.
pub proof fn law_replacement_takes_the_cell(cell: CellView, slot: Slot)
    ensures
        cell_replaced(cell, slot).slot == slot,
        cell_replaced(cell, slot).claimed >= cell.claimed,
        cell_replaced(cell, slot).applied == cell_replaced(cell, slot).claimed,
{
}

/// The report on a build is a success exactly when there is a client, and else
/// the very block.
pub proof fn law_report_is_what_was_built(slot: Slot, r: Result<(), BlockReason>)
    requires
        reports(slot, r),
    ensures
        r is Ok <==> slot is Ok,
        slot matches Err(block) ==> r == Err::<(), BlockReason>(block),
{
}

/// What each answer leads to: a stored save to the sidecar, the sidecar to a
/// claim and the build, the build to the audio thread whatever came of it, and
/// the audio thread to the end. A failed save leads to the audio thread at once.
pub proof fn law_each_answer_leads_on(
    claim: u64,
    generation: u64,
    done: Result<(), SoneError>,
    applied: Result<Result<(), BlockReason>, String>,
)
    ensures
        next_stage(Stage::Persist, ProxyEvent::Persisted(done), claim) == if done is Ok {
            Stage::Sidecar
        } else {
            Stage::PushToAudio
        },
        next_stage(Stage::Sidecar, ProxyEvent::SidecarWritten, claim) == (Stage::Apply {
            generation: claim,
        }),
        next_stage(Stage::Apply { generation }, ProxyEvent::Applied(applied), claim)
            == Stage::PushToAudio,
        next_stage(Stage::PushToAudio, ProxyEvent::PushedToAudio, claim) == Stage::Over,
{
}

/// An event that answers nothing changes nothing: it moves no stage, claims no
/// place and settles no outcome.
pub proof fn law_stray_events_change_nothing(stage: Stage, event: ProxyEvent, claim: u64)
    ensures
        !(stage is Persist && event is Persisted) && !(stage is Sidecar && event is SidecarWritten)
            && !(stage is Apply && event is Applied) && !(stage is PushToAudio
            && event is PushedToAudio) ==> next_stage(stage, event, claim) == stage && !claims(
            stage,
            event,
        ) && !settles(stage, event),
{
}

/// A place is claimed exactly when the build begins, and the outcome is settled
/// exactly when the audio thread comes next.
pub proof fn law_claims_and_outcomes_come_at_their_place(
    stage: Stage,
    event: ProxyEvent,
    claim: u64,
)
    ensures
        claims(stage, event) <==> stage !is Apply && next_stage(stage, event, claim) is Apply,
        settles(stage, event) <==> stage !is PushToAudio && next_stage(stage, event, claim)
            is PushToAudio,
{
}

/// The caller is told what happened: the error of the save that failed, the
/// cause of the block, the words of the task that died, or success exactly when
/// the client was applied.
pub proof fn law_caller_is_told_what_happened(event: ProxyEvent, r: Result<(), SoneError>)
    requires
        told(event, r),
    ensures
        event matches ProxyEvent::Persisted(Err(e)) ==> r == Err::<(), SoneError>(e),
        event matches ProxyEvent::Applied(Ok(Ok(_))) ==> r is Ok,
        event matches ProxyEvent::Applied(Ok(Err(block))) ==> r == Err::<(), SoneError>(
            SoneError::ProxyBlocked { reason: block.cause },
        ),
        event matches ProxyEvent::Applied(Err(words)) ==> (r matches Err(SoneError::Io(text))
            && text@ == "proxy update task failed: "@ + words@),
{
}

/// The status says blocked with the cell's own cause, or with what is wrong with
/// the settings; off where no proxy is configured; and else which consumers this
/// host cannot serve: each of them once, and no other.
pub proof fn law_status_says_what_is_so(
    s: ProxySettingsView,
    env: HostCaps,
    block: Option<Seq<char>>,
    status: ProxyStatus,
)
    requires
        status_is(s, env, block, status),
    ensures
        block matches Some(cause) ==> (status matches ProxyStatus::Blocked { reason } && reason@
            == cause),
        block is None && plan_of(s) is Err ==> (status matches ProxyStatus::Blocked { reason }
            && reason@ == plan_error_text(plan_of(s)->Err_0)),
        block is None && !s.enabled ==> status is Off,
        block is None && s.enabled && plan_of(s) is Ok ==> status is Active,
        status matches ProxyStatus::Active { degraded: list } ==> {
            let p = plan_of(s)->Ok_0;
            &&& forall|c: Capability| #[trigger] list@.contains(c) <==> cannot_serve(p, env, c)
            &&& list@.no_duplicates()
        },
{
    if let ProxyStatus::Active { degraded: list } = status {
        let p = plan_of(s)->Ok_0;
        let refused = |c: Capability| degraded(p, env, c);
        let kept = capabilities().filter(refused);
        lemma_all_listed();
        lemma_kept(capabilities(), refused);
        assert forall|c: Capability| #[trigger] list@.contains(c) <==> cannot_serve(p, env, c) by {
            law_what_blocks_a_consumer(p, c, env);
            assert(capabilities().contains(c));
            assert(kept.contains(c) <==> capabilities().contains(c) && refused(c));
        }
    }
}

proof fn lemma_kept(s: Seq<Capability>, p: spec_fn(Capability) -> bool)
    ensures
        forall|c: Capability| #[trigger] s.filter(p).contains(c) <==> s.contains(c) && p(c),
        s.no_duplicates() ==> s.filter(p).no_duplicates(),
    decreases s.len(),
{
    reveal(Seq::filter);
    if s.len() > 0 {
        let front = s.drop_last();
        let kept = front.filter(p);
        lemma_kept(front, p);
        assert forall|c: Capability| #[trigger] s.filter(p).contains(c) <==> s.contains(c) && p(
            c,
        ) by {
            assert(s.contains(c) <==> front.contains(c) || c == s.last()) by {
                if s.contains(c) {
                    let i = choose|i: int| 0 <= i < s.len() && s[i] == c;
                    if i < s.len() - 1 {
                        assert(front[i] == c);
                    }
                }
                if front.contains(c) {
                    let i = choose|i: int| 0 <= i < front.len() && front[i] == c;
                    assert(s[i] == c);
                }
            }
            if p(s.last()) {
                assert(s.filter(p) == kept.push(s.last()));
                assert(kept.push(s.last()).contains(c) <==> kept.contains(c) || c == s.last()) by {
                    if kept.contains(c) {
                        let i = choose|i: int| 0 <= i < kept.len() && kept[i] == c;
                        assert(kept.push(s.last())[i] == c);
                    }
                    assert(kept.push(s.last())[kept.len() as int] == s.last());
                }
            }
        }
        if s.no_duplicates() {
            assert(front.no_duplicates());
            assert(!front.contains(s.last()));
            assert(!kept.contains(s.last()));
        }
    }
}

/// What a host cannot serve under a plan.
pub open spec fn cannot_serve(p: PlanView, env: HostCaps, c: Capability) -> bool {
    match c {
        Capability::Api => false,
        Capability::Webview => false,
        Capability::Lossy => plan_creds(p) is Some && (!env.has_curlhttpsrc || cannot_seek(
            env.gst_version,
        )),
        Capability::Dash => !env.has_dashdemux || plan_creds(p) is Some && !env.has_curlhttpsrc,
    }
}

proof fn lemma_all_listed()
    ensures
        forall|c: Capability| #[trigger] capabilities().contains(c),
        capabilities().no_duplicates(),
{
    let all = capabilities();
    assert forall|c: Capability| #[trigger] all.contains(c) by {
        assert(all[0] == Capability::Api);
        assert(all[1] == Capability::Lossy);
        assert(all[2] == Capability::Dash);
        assert(all[3] == Capability::Webview);
    }
}

/// A test of a proxy goes through the candidate itself: what it begins with is a
/// client for the settings under test, and it begins with none where there is no
/// proxy to test.
pub proof fn law_test_goes_through_the_candidate(
    s: ProxySettingsView,
    env: HostCaps,
    r: Result<ClientConfig, Seq<char>>,
)
    requires
        test_may_begin(s, env, r),
    ensures
        r matches Ok(config) ==> s.enabled && authenticates_as(config, s) && config.timeout_secs
            == Some(30u64),
        !s.enabled ==> r == Err::<ClientConfig, Seq<char>>(
            "No proxy configured \u{2014} enable one before testing"@,
        ),
        s.enabled ==> slot_for_settings(s, env, r),
{
    if let Ok(config) = r {
        law_client_goes_through_the_configured_proxy(s, env, config);
    }
}

/// An answer shows that the proxy works when it is a success, or one of the two
/// refusals that the endpoint gives of itself: not authorised, and not found.
pub proof fn law_what_shows_that_a_proxy_works(code: u16)
    ensures
        reached(code) <==> code / 100 == 2 || code == 401 || code == 404,
        status_text(code) == decimal(code as nat) + " "@ + status_reason(code),
{
}

/// What the user is told of a test: success in the same words for every answer
/// that shows the proxy works, the status for every other answer, and a failure
/// to send as a failure, never as an answer.
pub proof fn law_user_is_told_how_the_test_went(
    answer: Result<u16, String>,
    r: Result<String, String>,
)
    requires
        verdict(answer, r),
    ensures
        r is Ok <==> answer is Ok,
        answer matches Ok(code) ==> (code / 100 == 2 || code == 401 || code == 404 ==> (r matches
            Ok(text) && text@ == "Connection successful"@)),
        answer matches Ok(code) ==> (!(code / 100 == 2 || code == 401 || code == 404) ==> (r matches
            Ok(text) && text@ == "Tidal responded with status "@ + decimal(code as nat) + " "@
            + status_reason(code))),
        answer matches Err(words) ==> (r matches Err(text) && text@ == "Connection failed: "@
            + words@),
{
    if let Ok(code) = answer {
        let head = "Tidal responded with status "@;
        assert(head + (decimal(code as nat) + " "@ + status_reason(code)) =~= head + decimal(
            code as nat,
        ) + " "@ + status_reason(code));
    }
}

/// An update begins by asking that the very settings it was given be stored, and
/// with nothing to report.
pub proof fn law_update_begins_with_the_save(s: ProxySettings)
    ensures
        action_of(update_start(s)) == ProxyAction::Persist(SettingsEdit::Proxy(s)),
        update_start(s).settings == s,
        update_start(s).stage is Persist,
        update_start(s).outcome is Ok,
{
}

/// A test or a build that failed is told with what failed and then in its own
/// words.
pub proof fn law_failed_tasks_keep_their_words(words: Seq<char>)
    ensures
        test_task_failure_text(words) == "proxy test task failed: "@ + words,
        unbuilt_text(words) == "could not build HTTP client: "@ + words,
{
}

} // verus!
