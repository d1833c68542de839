//! The proxy commands: saving and applying settings, reporting what the proxy
//! is doing, and testing a proxy before it is saved.
use crate::app_state::{Settings, SettingsEdit, SoneError};
use crate::cell_laws::law_disabling_unblocks;
use crate::commands::{get_proxy_settings, proxy_settings_of};
use crate::proxy::{
    all_present, plan, plan_error_text, plan_of, route_of, BlockReason, Capability, HostCaps,
    PlanView, ProxyPlan, RouteView,
};
use crate::proxy_http::{
    build_client, cell_claimed, cell_installed, client_config, config_for, ordered, reports,
    slot_for_plan, slot_for_settings, slot_view, CellView, ClientConfig, ProxiedHttp, Slot,
};
use crate::settings::{ProxySettings, ProxySettingsView, ProxyType};
use crate::text::{decimal, joined};
use vstd::prelude::*;
use vstd::string::*;

verus! {

/// How a reconfiguration went: the task that ran it may itself have failed, in
/// its own words, and the client it built may be blocked.
pub type Applied = Result<Result<(), BlockReason>, String>;

/// What a reconfiguration tells the caller: a block is reported with its
/// cause, alongside settings that are already stored.
pub fn reconfigured(applied: Applied) -> (r: Result<(), SoneError>)
    ensures
        told(ProxyEvent::Applied(applied), r),
        match applied {
            Ok(Ok(_)) => r == Ok::<(), SoneError>(()),
            Ok(Err(block)) => r == Err::<(), SoneError>(
                SoneError::ProxyBlocked { reason: block.cause },
            ),
            Err(words) => r matches Err(SoneError::Io(text)) && text@
                == "proxy update task failed: "@ + words@,
        },
{
    match applied {
        Ok(Ok(_)) => Ok(()),
        Ok(Err(block)) => Err(SoneError::ProxyBlocked { reason: block.cause }),
        Err(words) => Err(SoneError::Io(joined("proxy update task failed: ", words.as_str()))),
    }
}

/// How far an update of the proxy settings has come.
pub enum Stage {
    /// The settings are being stored.
    Persist,
    /// They are stored, and the sidecar beside them is being written.
    Sidecar,
    /// The place in the order of updates is claimed, and the client is being
    /// built off the runtime worker.
    Apply { generation: u64 },
    /// The audio thread is being told, whatever came before.
    PushToAudio,
    Over,
}

/// What has happened since the last action.
pub enum ProxyEvent {
    Persisted(Result<(), SoneError>),
    SidecarWritten,
    Applied(Applied),
    PushedToAudio,
}

/// What is to be done next.
pub enum ProxyAction {
    /// Load the stored settings, or take the defaults, make the edit, and save.
    Persist(SettingsEdit),
    /// Mirror the non-secret fields next to the settings file.
    WriteSidecar(ProxySettings),
    /// Build the client for the settings and install it under the generation.
    Apply { generation: u64, settings: ProxySettings, caps: HostCaps },
    PushToAudio(ProxySettings),
    Nothing,
}

/// An update of the proxy settings under way: persist the settings, then
/// reconfigure the transports -- in that order, and the order is the whole
/// point. The proxy screen is the only editor of the settings file, so a
/// failure to reconfigure that aborted the save would strand the user; saving
/// first makes a bad proxy recoverable from the same screen that set it.
pub struct ProxyUpdate {
    settings: ProxySettings,
    stage: Stage,
    outcome: Result<(), SoneError>,
}

pub struct UpdateView {
    pub settings: ProxySettings,
    pub stage: Stage,
    pub outcome: Result<(), SoneError>,
}

impl View for ProxyUpdate {
    type V = UpdateView;

    closed spec fn view(&self) -> UpdateView {
        UpdateView { settings: self.settings, stage: self.stage, outcome: self.outcome }
    }
}

/// What the update asks for at its stage.
pub open spec fn action_of(u: UpdateView) -> ProxyAction {
    match u.stage {
        Stage::Persist => ProxyAction::Persist(SettingsEdit::Proxy(u.settings)),
        Stage::Sidecar => ProxyAction::WriteSidecar(u.settings),
        Stage::Apply { generation } => ProxyAction::Apply {
            generation,
            settings: u.settings,
            caps: all_present(),
        },
        Stage::PushToAudio => ProxyAction::PushToAudio(u.settings),
        Stage::Over => ProxyAction::Nothing,
    }
}

/// The stage that follows. `claim` is the claim that the cell would give. An
/// event that does not answer the stage leaves it.
pub open spec fn next_stage(stage: Stage, event: ProxyEvent, claim: u64) -> Stage {
    match (stage, event) {
        // A failure to save is the one reason to leave the transports alone:
        // nothing changed, so nothing should move.
        (Stage::Persist, ProxyEvent::Persisted(Err(_))) => Stage::PushToAudio,
        (Stage::Persist, ProxyEvent::Persisted(Ok(_))) => Stage::Sidecar,
        (Stage::Sidecar, ProxyEvent::SidecarWritten) => Stage::Apply { generation: claim },
        (Stage::Apply { .. }, ProxyEvent::Applied(_)) => Stage::PushToAudio,
        (Stage::PushToAudio, ProxyEvent::PushedToAudio) => Stage::Over,
        _ => stage,
    }
}

/// Whether the step claims a place in the cell's order of updates.
pub open spec fn claims(stage: Stage, event: ProxyEvent) -> bool {
    stage is Sidecar && event is SidecarWritten
}

/// Whether the step settles what the caller is told.
pub open spec fn settles(stage: Stage, event: ProxyEvent) -> bool {
    ||| stage is Persist && (event matches ProxyEvent::Persisted(Err(_)))
    ||| stage is Apply && event is Applied
}

/// What the caller is told of a failed save or of a reconfiguration.
pub open spec fn told(event: ProxyEvent, r: Result<(), SoneError>) -> bool {
    match event {
        ProxyEvent::Persisted(saved) => r == saved,
        ProxyEvent::Applied(Ok(Ok(_))) => r == Ok::<(), SoneError>(()),
        ProxyEvent::Applied(Ok(Err(block))) => r == Err::<(), SoneError>(
            SoneError::ProxyBlocked { reason: block.cause },
        ),
        ProxyEvent::Applied(Err(words)) => r matches Err(SoneError::Io(text)) && text@
            == "proxy update task failed: "@ + words@,
        _ => false,
    }
}

/// The step that an update takes at an event.
pub open spec fn stepped(u: UpdateView, event: ProxyEvent, claim: u64, v: UpdateView) -> bool {
    &&& v.settings == u.settings
    &&& v.stage == next_stage(u.stage, event, claim)
    &&& settles(u.stage, event) ==> told(event, v.outcome)
    &&& !settles(u.stage, event) ==> v.outcome == u.outcome
}

/// An update that has not begun.
pub open spec fn update_start(settings: ProxySettings) -> UpdateView {
    UpdateView { settings, stage: Stage::Persist, outcome: Ok(()) }
}

/// Begins an update.
pub fn set_proxy_settings(settings: ProxySettings) -> (r: ProxyUpdate)
    ensures
        r@ == update_start(settings),
        r@.settings == settings,
        r@.stage == Stage::Persist,
        r@.outcome == Ok::<(), SoneError>(()),
{
    ProxyUpdate { settings, stage: Stage::Persist, outcome: Ok(()) }
}

impl ProxyUpdate {
    /// What is to be done next.
    pub fn action(&self) -> (r: ProxyAction)
        ensures
            r == action_of(self@),
    {
        match &self.stage {
            Stage::Persist => ProxyAction::Persist(SettingsEdit::Proxy(self.settings.clone())),
            Stage::Sidecar => ProxyAction::WriteSidecar(self.settings.clone()),
            Stage::Apply { generation } => ProxyAction::Apply {
                generation: *generation,
                settings: self.settings.clone(),
                caps: HostCaps::assume_all_present(),
            },
            Stage::PushToAudio => ProxyAction::PushToAudio(self.settings.clone()),
            Stage::Over => ProxyAction::Nothing,
        }
    }

    /// Takes note of what happened. The claim on the cell is made here, right
    /// after the save, so that the cell's order is the order of the saves.
    pub fn advance(&mut self, event: ProxyEvent, http: &mut ProxiedHttp)
        ensures
            stepped(old(self)@, event, cell_claimed(old(http)@).claimed, final(self)@),
            final(http)@ == if claims(old(self)@.stage, event) {
                cell_claimed(old(http)@)
            } else {
                old(http)@
            },
    {
        match (&self.stage, event) {
            (Stage::Persist, ProxyEvent::Persisted(Err(e))) => {
                self.outcome = Err(e);
                self.stage = Stage::PushToAudio;
            },
            (Stage::Persist, ProxyEvent::Persisted(Ok(_))) => {
                self.stage = Stage::Sidecar;
            },
            (Stage::Sidecar, ProxyEvent::SidecarWritten) => {
                let generation: u64 = http.claim();
                self.stage = Stage::Apply { generation };
            },
            (Stage::Apply { .. }, ProxyEvent::Applied(applied)) => {
                self.outcome = reconfigured(applied);
                self.stage = Stage::PushToAudio;
            },
            (Stage::PushToAudio, ProxyEvent::PushedToAudio) => {
                self.stage = Stage::Over;
            },
            _ => {},
        }
    }

    /// What the caller is told once the update is over.
    pub fn into_result(self) -> (r: Result<(), SoneError>)
        ensures
            r == self@.outcome,
    {
        self.outcome
    }
}

/// The stage after a course of events, each with the claim that the cell would
/// give at the time.
pub open spec fn stage_after(events: Seq<(ProxyEvent, u64)>) -> Stage
    decreases events.len(),
{
    if events.len() == 0 {
        Stage::Persist
    } else {
        next_stage(stage_after(events.drop_last()), events.last().0, events.last().1)
    }
}

/// Whether event `i` of the course says that the settings were stored.
pub open spec fn saves_at(events: Seq<(ProxyEvent, u64)>, i: int) -> bool {
    &&& 0 <= i < events.len()
    &&& stage_after(events.take(i)) is Persist
    &&& events[i].0 matches ProxyEvent::Persisted(Ok(_))
}

/// The transports move only after the save: no claim on the cell is made, and
/// no client applied, before an event that says the settings were stored.
pub proof fn law_transports_move_only_after_the_save(events: Seq<(ProxyEvent, u64)>)
    requires
        stage_after(events) is Sidecar || stage_after(events) is Apply,
    ensures
        exists|i: int| saves_at(events, i),
    decreases events.len(),
{
    let before = events.drop_last();
    let last = events.len() - 1;
    assert(events.take(last) =~= before);
    if stage_after(before) is Persist {
        assert(saves_at(events, last));
    } else {
        law_transports_move_only_after_the_save(before);
        let i = choose|i: int| saves_at(before, i);
        assert(events.take(i) =~= before.take(i));
        assert(saves_at(events, i));
    }
}

/// After a failed save the cell is left alone for good: what follows is the
/// audio thread being told, and the end.
pub proof fn law_failed_save_moves_nothing(events: Seq<(ProxyEvent, u64)>, i: int)
    requires
        0 <= i < events.len(),
        stage_after(events.take(i)) is Persist,
        events[i].0 matches ProxyEvent::Persisted(Err(_)),
    ensures
        stage_after(events) is PushToAudio || stage_after(events) is Over,
    decreases events.len(),
{
    let before = events.drop_last();
    let last = events.len() - 1;
    assert(events.take(last) =~= before);
    if i < last {
        assert(before.take(i) =~= events.take(i));
        law_failed_save_moves_nothing(before, i);
    }
}

/// The audio thread is told on every way to the end.
pub proof fn law_audio_is_told_on_every_outcome(events: Seq<(ProxyEvent, u64)>)
    requires
        stage_after(events) is Over,
    ensures
        exists|i: int|
            0 <= i < events.len() && #[trigger] stage_after(events.take(i)) is PushToAudio
                && events[i].0 is PushedToAudio,
    decreases events.len(),
{
    let before = events.drop_last();
    let last = events.len() - 1;
    assert(events.take(last) =~= before);
    if stage_after(before) is Over {
        law_audio_is_told_on_every_outcome(before);
        let i = choose|i: int|
            0 <= i < before.len() && #[trigger] stage_after(before.take(i)) is PushToAudio
                && before[i].0 is PushedToAudio;
        assert(events.take(i) =~= before.take(i));
        assert(events[i].0 is PushedToAudio);
    } else {
        assert(stage_after(events.take(last)) is PushToAudio);
    }
}

/// Whether the update takes its step `i` from `us[i]` to the one after it.
pub open spec fn steps_at(us: Seq<UpdateView>, events: Seq<(ProxyEvent, u64)>, i: int) -> bool {
    stepped(us[i], events[i].0, events[i].1, us[i + 1])
}

/// Whether an update went through the states `us` at the events.
pub open spec fn course(us: Seq<UpdateView>, events: Seq<(ProxyEvent, u64)>) -> bool {
    &&& us.len() == events.len() + 1
    &&& us[0].stage is Persist
    &&& forall|i: int| 0 <= i < events.len() ==> #[trigger] steps_at(us, events, i)
}

/// Whether event `i` of the course settles what the caller is told, and it is
/// what the caller is told at the end.
pub open spec fn last_word_at(
    us: Seq<UpdateView>,
    events: Seq<(ProxyEvent, u64)>,
    i: int,
) -> bool {
    &&& 0 <= i < events.len()
    &&& settles(us[i].stage, events[i].0)
    &&& told(events[i].0, us.last().outcome)
}

/// Persisting first does not become swallowing: whichever way an update comes
/// to its end, the caller is told of the save that failed or of how the
/// reconfiguration went, and the settings are still those it began with.
pub proof fn law_caller_is_told_how_it_went(us: Seq<UpdateView>, events: Seq<(ProxyEvent, u64)>)
    requires
        course(us, events),
        us.last().stage is PushToAudio || us.last().stage is Over,
    ensures
        exists|i: int| last_word_at(us, events, i),
        us.last().settings == us[0].settings,
    decreases events.len(),
{
    lemma_settings_stay(us, events);
    if events.len() > 0 {
        let n = events.len() - 1;
        let before = us.drop_last();
        let earlier = events.drop_last();
        assert(steps_at(us, events, n));
        lemma_course_shortens(us, events);
        if settles(us[n].stage, events[n].0) {
            assert(last_word_at(us, events, n));
        } else {
            assert(before.last() == us[n]);
            law_caller_is_told_how_it_went(before, earlier);
            let i = choose|i: int| last_word_at(before, earlier, i);
            assert(last_word_at(us, events, i));
        }
    }
}

proof fn lemma_course_shortens(us: Seq<UpdateView>, events: Seq<(ProxyEvent, u64)>)
    requires
        course(us, events),
        events.len() > 0,
    ensures
        course(us.drop_last(), events.drop_last()),
{
    assert forall|i: int| 0 <= i < events.len() - 1 implies #[trigger] steps_at(
        us.drop_last(),
        events.drop_last(),
        i,
    ) by {
        assert(steps_at(us, events, i));
    }
}

proof fn lemma_settings_stay(us: Seq<UpdateView>, events: Seq<(ProxyEvent, u64)>)
    requires
        course(us, events),
    ensures
        us.last().settings == us[0].settings,
    decreases events.len(),
{
    if events.len() > 0 {
        lemma_course_shortens(us, events);
        lemma_settings_stay(us.drop_last(), events.drop_last());
        assert(steps_at(us, events, events.len() - 1));
    }
}

/// Turning the proxy off always recovers: once the save has succeeded, the
/// stored settings are those with the proxy off, the caller is told that all is
/// well, and the cell holds a client on the system's own configuration, whatever
/// it held before and whatever host and port are kept.
pub proof fn law_disabling_recovers_a_blocked_cell(
    u: UpdateView,
    cell: CellView,
    slot: Slot,
    applied: Result<(), BlockReason>,
    v: UpdateView,
)
    requires
        !u.settings.enabled,
        ordered(cell),
        u.stage == (Stage::Apply { generation: cell_claimed(cell).claimed }),
        slot_for_settings(u.settings@, all_present(), slot_view(slot)),
        reports(slot, applied),
        stepped(u, ProxyEvent::Applied(Ok(applied)), cell_claimed(cell).claimed, v),
    ensures
        action_of(UpdateView { stage: Stage::Persist, ..u }) == ProxyAction::Persist(
            SettingsEdit::Proxy(u.settings),
        ),
        v.outcome == Ok::<(), SoneError>(()),
        slot_view(cell_installed(cell_claimed(cell), cell_claimed(cell).claimed, slot).slot) == Ok::<
            ClientConfig,
            Seq<char>,
        >(config_for(RouteView::NoProxy)),
{
    law_disabling_unblocks(u.settings@, all_present(), slot_view(slot));
}

/// The order of the cell is the order of the saves. Of two updates that overlap
/// on one cell, of which the one with settings `a` claimed first, each has its
/// own generation, and once both builds are installed the cell holds what was
/// built for the settings `b`: whether the build for `a` finishes first, last,
/// or before `b` has claimed.
pub proof fn law_order_of_the_cell_is_the_order_of_the_saves(
    cell: CellView,
    a: ProxySettings,
    b: ProxySettings,
    first: Slot,
    second: Slot,
)
    requires
        ordered(cell),
        cell.claimed < u64::MAX - 1,
        slot_for_settings(a@, all_present(), slot_view(first)),
        slot_for_settings(b@, all_present(), slot_view(second)),
    ensures
        ({
            let once = cell_claimed(cell);
            let twice = cell_claimed(once);
            let early = cell_installed(once, once.claimed, first);
            let stage_a = next_stage(Stage::Sidecar, ProxyEvent::SidecarWritten, once.claimed);
            let stage_b = next_stage(Stage::Sidecar, ProxyEvent::SidecarWritten, twice.claimed);
            &&& stage_a == Stage::Apply { generation: once.claimed }
            &&& stage_b == Stage::Apply { generation: twice.claimed }
            &&& once.claimed < twice.claimed
            &&& cell_claimed(early).claimed == twice.claimed
            &&& cell_installed(
                cell_installed(twice, once.claimed, first),
                twice.claimed,
                second,
            ).slot == second
            &&& cell_installed(
                cell_installed(twice, twice.claimed, second),
                once.claimed,
                first,
            ).slot == second
            &&& cell_installed(cell_claimed(early), twice.claimed, second).slot == second
        }),
{
}

/// Whether the event answers the stage's action.
pub open spec fn answers(stage: Stage, event: ProxyEvent) -> bool {
    match stage {
        Stage::Persist => event is Persisted,
        Stage::Sidecar => event is SidecarWritten,
        Stage::Apply { .. } => event is Applied,
        Stage::PushToAudio => event is PushedToAudio,
        Stage::Over => false,
    }
}

/// How many actions are left at most.
pub open spec fn actions_left(stage: Stage) -> nat {
    match stage {
        Stage::Persist => 4,
        Stage::Sidecar => 3,
        Stage::Apply { .. } => 2,
        Stage::PushToAudio => 1,
        Stage::Over => 0,
    }
}

/// Answering each action in turn ends the update.
pub proof fn law_every_answer_brings_the_end_nearer(stage: Stage, event: ProxyEvent, claim: u64)
    requires
        answers(stage, event),
    ensures
        actions_left(next_stage(stage, event, claim)) < actions_left(stage),
{
}

/// What the proxy is doing, for the banner that has to be visible before
/// anyone is logged in.
#[derive(Debug, PartialEq, Eq)]
pub enum ProxyStatus {
    /// No proxy is configured.
    Off,
    /// The proxy serves the app, but for the capabilities listed.
    Active { degraded: Vec<Capability> },
    /// Every request is refused.
    Blocked { reason: String },
}

/// Whether the capability is refused under the plan on this host.
pub open spec fn degraded(p: PlanView, env: HostCaps, c: Capability) -> bool {
    route_of(p, c, env) is Err
}

/// The capabilities, in the order they are listed.
pub open spec fn capabilities() -> Seq<Capability> {
    seq![Capability::Api, Capability::Lossy, Capability::Dash, Capability::Webview]
}

/// The status: a cell that is blocked speaks for itself, since the state that
/// strands a user is a plan that is fine and a client that could not be built.
pub open spec fn status_is(
    s: ProxySettingsView,
    env: HostCaps,
    block: Option<Seq<char>>,
    status: ProxyStatus,
) -> bool {
    match (block, plan_of(s)) {
        (Some(cause), _) => status matches ProxyStatus::Blocked { reason } && reason@ == cause,
        (None, Err(e)) => status matches ProxyStatus::Blocked { reason } && reason@
            == plan_error_text(e),
        (None, Ok(PlanView::Direct)) => status is Off,
        (None, Ok(p)) => status matches ProxyStatus::Active { degraded: list } && list@
            == capabilities().filter(|c: Capability| degraded(p, env, c)),
    }
}

fn is_degraded(p: &ProxyPlan, env: &HostCaps, c: Capability) -> (r: bool)
    ensures
        r == degraded(p@, *env, c),
{
    p.route(c, env).is_err()
}

impl ProxyStatus {
    /// The status of stored settings beside the live cell's block, if it is
    /// blocked.
    pub fn observed(settings: &ProxySettings, env: &HostCaps, block: Option<&str>) -> (r: Self)
        ensures
            status_is(
                settings@,
                *env,
                match block {
                    Some(cause) => Some(cause@),
                    None => None,
                },
                r,
            ),
    {
        if let Some(cause) = block {
            return ProxyStatus::Blocked { reason: cause.to_owned() };
        }
        let p = match plan(settings, env) {
            Ok(p) => p,
            Err(e) => return ProxyStatus::Blocked { reason: e.to_string() },
        };
        if let ProxyPlan::Direct = p {
            return ProxyStatus::Off;
        }
        let ghost refused = |c: Capability| degraded(p@, *env, c);
        let all = [Capability::Api, Capability::Lossy, Capability::Dash, Capability::Webview];
        assert(all@ =~= capabilities());
        let mut list: Vec<Capability> = Vec::new();
        let mut i: usize = 0;
        assert(capabilities().take(0).filter(refused) =~= Seq::empty()) by {
            reveal(Seq::filter);
        }
        while i < 4
            invariant
                i <= 4,
                all@ == capabilities(),
                refused == (|c: Capability| degraded(p@, *env, c)),
                list@ == capabilities().take(i as int).filter(refused),
            decreases 4 - i,
        {
            let c = all[i];
            proof {
                let longer = capabilities().take(i + 1);
                assert(longer.drop_last() =~= capabilities().take(i as int));
                assert(longer.last() == c);
                reveal(Seq::filter);
            }
            if is_degraded(&p, env, c) {
                list.push(c);
            }
            i = i + 1;
        }
        assert(capabilities().take(4) =~= capabilities());
        ProxyStatus::Active { degraded: list }
    }
}

/// The standing report of what the proxy is doing. Reads the live cell rather
/// than only the stored settings.
pub fn get_proxy_status(loaded: &Option<Settings>, http: &ProxiedHttp) -> (r: ProxyStatus)
    ensures
        status_is(
            proxy_settings_of(*loaded),
            all_present(),
            match http@.slot {
                Ok(_) => None,
                Err(block) => Some(block.cause@),
            },
            r,
        ),
        status_is(
            match *loaded {
                Some(s) => s.proxy@,
                None => ProxySettingsView {
                    enabled: false,
                    proxy_type: ProxyType::Http,
                    host: Seq::empty(),
                    port: 0,
                    username: None,
                    password: None,
                },
            },
            all_present(),
            match http@.slot {
                Ok(_) => None,
                Err(block) => Some(block.cause@),
            },
            r,
        ),
{
    let settings = get_proxy_settings(loaded);
    let caps = HostCaps::assume_all_present();
    match http.client() {
        Ok(_) => ProxyStatus::observed(&settings, &caps, None),
        Err(block) => ProxyStatus::observed(&settings, &caps, Some(block.cause.as_str())),
    }
}

/// A blocked cell is reported as blocked, and so are settings that form no
/// plan; nothing else is.
pub proof fn law_blocked_is_reported_exactly(
    s: ProxySettingsView,
    env: HostCaps,
    block: Option<Seq<char>>,
    status: ProxyStatus,
)
    requires
        status_is(s, env, block, status),
    ensures
        status is Blocked <==> block is Some || plan_of(s) is Err,
        status is Off <==> block is None && !s.enabled,
{
}

/// On a host with everything present nothing is ever degraded.
pub proof fn law_nothing_is_degraded_where_all_is_present(
    s: ProxySettingsView,
    block: Option<Seq<char>>,
    status: ProxyStatus,
)
    requires
        status_is(s, all_present(), block, status),
    ensures
        status matches ProxyStatus::Active { degraded: list } ==> list@.len() == 0,
{
    if let ProxyStatus::Active { degraded: list } = status {
        let p = plan_of(s)->Ok_0;
        let refused = |c: Capability| degraded(p, all_present(), c);
        let kept = capabilities().filter(refused);
        if kept.len() > 0 {
            capabilities().lemma_filter_pred(refused, 0);
            assert(refused(kept[0]));
        }
    }
}

/// Whether `r` is what a test of the settings may begin with.
pub open spec fn test_may_begin(
    s: ProxySettingsView,
    env: HostCaps,
    r: Result<ClientConfig, Seq<char>>,
) -> bool {
    match plan_of(s) {
        Err(e) => r == Err::<ClientConfig, Seq<char>>(plan_error_text(e)),
        Ok(PlanView::Direct) => r == Err::<ClientConfig, Seq<char>>(
            "No proxy configured \u{2014} enable one before testing"@,
        ),
        Ok(p) => slot_for_plan(p, env, r),
    }
}

/// The client that a test of the settings must use, or the reason there is
/// none.
///
/// Three things this must never do, because the banner reads any success as a
/// working proxy: test the stored proxy instead of the candidate one, build a
/// client by any path other than the one the app itself uses, or hand back a
/// direct connection, which always "succeeds".
pub fn proxy_test_client(settings: &ProxySettings, caps: &HostCaps) -> (r: Result<
    reqwest::Client,
    String,
>)
    ensures
        test_may_begin(
            settings@,
            *caps,
            match r {
                Ok(c) => Ok(client_config(c)),
                Err(text) => Err(text@),
            },
        ),
{
    let p = match plan(settings, caps) {
        Ok(p) => p,
        Err(e) => return Err(e.to_string()),
    };
    if let ProxyPlan::Direct = p {
        return Err("No proxy configured \u{2014} enable one before testing".to_owned());
    }
    match build_client(&p, caps) {
        Ok(c) => Ok(c),
        Err(block) => Err(block.cause),
    }
}

/// The request that tests a proxy.
pub struct ProxyProbe {
    pub client: reqwest::Client,
    pub url: String,
    pub timeout_secs: u64,
}

/// Begins a test of the settings the user is editing -- not of the live cell,
/// which still holds the stored proxy.
pub fn test_proxy_connection(settings: &ProxySettings) -> (r: Result<ProxyProbe, String>)
    ensures
        test_may_begin(
            settings@,
            all_present(),
            match r {
                Ok(probe) => Ok(client_config(probe.client)),
                Err(text) => Err(text@),
            },
        ),
        r matches Ok(probe) ==> probe.url@ == "https://api.tidal.com/v1/ping"@
            && probe.timeout_secs == 10,
{
    let caps = HostCaps::assume_all_present();
    match proxy_test_client(settings, &caps) {
        Ok(client) => Ok(
            ProxyProbe {
                client,
                url: "https://api.tidal.com/v1/ping".to_owned(),
                timeout_secs: 10,
            },
        ),
        Err(text) => Err(text),
    }
}

/// The reason phrase that the `http` crate gives a status number.
pub uninterp spec fn status_reason(code: u16) -> Seq<char>;

/// An HTTP status as text: its number and its reason.
pub open spec fn status_text(code: u16) -> Seq<char> {
    decimal(code as nat) + " "@ + status_reason(code)
}

/// `<reqwest::StatusCode as Display>::fmt`, by way of `format!`, on the status
/// that `from_u16` makes of the number: the number, a space, and the reason.
/// The reasons themselves are left unsaid.
#[verifier::external_body]
fn status_to_string(code: u16) -> (r: String)
    requires
        100 <= code <= 999,
    ensures
        r@ == decimal(code as nat) + " "@ + status_reason(code),
{
    format!("{}", reqwest::StatusCode::from_u16(code).unwrap())
}

/// Whether the answer to the test shows that the proxy works: any success, and
/// the two refusals that the endpoint itself gives.
pub open spec fn reached(code: u16) -> bool {
    200 <= code < 300 || code == 404 || code == 401
}

/// Whether `r` is what the user is to be told of the answer to the test.
pub open spec fn verdict(answer: Result<u16, String>, r: Result<String, String>) -> bool {
    match (answer, r) {
        (Ok(code), Ok(text)) => text@ == if reached(code) {
            "Connection successful"@
        } else {
            "Tidal responded with status "@ + status_text(code)
        },
        (Err(words), Err(text)) => text@ == "Connection failed: "@ + words@,
        _ => false,
    }
}

/// What the user is told of the answer to the test: its HTTP status, or the
/// words of a failure to send.
pub fn proxy_test_verdict(answer: Result<u16, String>) -> (r: Result<String, String>)
    requires
        answer matches Ok(code) ==> 100 <= code <= 999,
    ensures
        verdict(answer, r),
        match answer {
            Ok(code) => r matches Ok(text) && text@ == if reached(code) {
                "Connection successful"@
            } else {
                "Tidal responded with status "@ + status_text(code)
            },
            Err(words) => r matches Err(text) && text@ == "Connection failed: "@ + words@,
        },
{
    match answer {
        Ok(code) => {
            if (200 <= code && code < 300) || code == 404 || code == 401 {
                Ok("Connection successful".to_owned())
            } else {
                Ok(joined("Tidal responded with status ", status_to_string(code).as_str()))
            }
        },
        Err(words) => Err(joined("Connection failed: ", words.as_str())),
    }
}

/// What the user is told of a test whose task failed.
pub open spec fn test_task_failure_text(words: Seq<char>) -> Seq<char> {
    "proxy test task failed: "@ + words
}

/// What the user is told when the task that builds the client fails.
pub fn proxy_test_task_failed(words: &str) -> (r: String)
    ensures
        r@ == test_task_failure_text(words@),
        r@ == "proxy test task failed: "@ + words@,
{
    joined("proxy test task failed: ", words)
}

/// A direct connection is never what a test goes through: a test begins only
/// with a client whose one way out is the candidate proxy.
pub proof fn law_test_never_goes_direct(
    s: ProxySettingsView,
    env: HostCaps,
    r: Result<ClientConfig, Seq<char>>,
)
    requires
        test_may_begin(s, env, r),
    ensures
        !s.enabled ==> r is Err,
        plan_of(s) is Err ==> r is Err,
        r matches Ok(config) ==> !config.system && config.proxies.len() == 1,
{
}

} // verus!
