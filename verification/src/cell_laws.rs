//! What holds of the client cell over any course of updates.
use crate::ipv6::{is_ipv4, is_ipv6};
use crate::laws::{plan_creds, plan_host, plan_port};
use crate::proxy::{
    is_scheme, plan_error_text, plan_of, route_of, scheme_of, uri_of, Capability, HostCaps, PlanView,
    RouteView,
};
use crate::proxy_http::{
    address_uri, cell_claimed, cell_installed, cell_replaced, config_for, name_uri, ordered,
    plain_name, slot_for_plan, slot_for_settings, slot_view, CellView, ClientConfig, ProxyTarget,
    Slot,
};
use crate::settings::ProxySettingsView;
use vstd::prelude::*;

verus! {

/// No operation on the cell breaks its order.
pub proof fn law_cell_stays_ordered(
    cell: CellView,
    generation: u64,
    slot: Slot,
)
    requires
        ordered(cell),
    ensures
        ordered(cell_claimed(cell)),
        ordered(cell_installed(cell, generation, slot)),
        ordered(cell_replaced(cell, slot)),
{
}

/// A fresh claim is above every claim before it, and its update lands.
pub proof fn law_fresh_claim_lands(cell: CellView, slot: Slot)
    requires
        ordered(cell),
        cell.claimed < u64::MAX,
    ensures
        cell_claimed(cell).claimed > cell.claimed,
        cell_installed(cell_claimed(cell), cell_claimed(cell).claimed, slot).slot == slot,
{
}

/// A replacement lands, and no update claimed before it lands after it.
pub proof fn law_replacement_outranks_earlier_claims(
    cell: CellView,
    slot: Slot,
    earlier: u64,
    late: Slot,
)
    requires
        cell.claimed < u64::MAX,
        earlier <= cell.claimed,
    ensures
        cell_replaced(cell, slot).slot == slot,
        cell_installed(cell_replaced(cell, slot), earlier, late) == cell_replaced(cell, slot),
{
}

/// The cell after updates finished in the given order, each with its claim and
/// what its build gave.
pub open spec fn after_updates(
    cell: CellView,
    updates: Seq<(u64, Slot)>,
) -> CellView
    decreases updates.len(),
{
    if updates.len() == 0 {
        cell
    } else {
        cell_installed(
            after_updates(cell, updates.drop_last()),
            updates.last().0,
            updates.last().1,
        )
    }
}

/// The highest claim wins the cell, whichever build finishes last.
pub proof fn law_highest_claim_wins(
    cell: CellView,
    updates: Seq<(u64, Slot)>,
    k: int,
)
    requires
        0 <= k < updates.len(),
        cell.applied <= updates[k].0,
        forall|j: int| 0 <= j < updates.len() && j != k ==> (#[trigger] updates[j]).0 < updates[k].0,
    ensures
        after_updates(cell, updates).slot == updates[k].1,
        after_updates(cell, updates).applied == updates[k].0,
    decreases updates.len(),
{
    let before = updates.drop_last();
    if k == updates.len() - 1 {
        lemma_applied_bounded(cell, before, updates[k].0);
    } else {
        assert(before[k] == updates[k]);
        assert forall|j: int| 0 <= j < before.len() && j != k implies (#[trigger] before[j]).0
            < before[k].0 by {
            assert(before[j] == updates[j]);
        }
        law_highest_claim_wins(cell, before, k);
        assert(updates[updates.len() - 1].0 < updates[k].0);
    }
}

proof fn lemma_applied_bounded(
    cell: CellView,
    updates: Seq<(u64, Slot)>,
    bound: u64,
)
    requires
        cell.applied <= bound,
        forall|j: int| 0 <= j < updates.len() ==> (#[trigger] updates[j]).0 <= bound,
    ensures
        after_updates(cell, updates).applied <= bound,
    decreases updates.len(),
{
    if updates.len() > 0 {
        let before = updates.drop_last();
        assert forall|j: int| 0 <= j < before.len() implies (#[trigger] before[j]).0 <= bound by {
            assert(before[j] == updates[j]);
        }
        lemma_applied_bounded(cell, before, bound);
        assert(updates[updates.len() - 1].0 <= bound);
    }
}

/// Two overlapping saves leave the cell with what the later one asked for,
/// whichever of their builds finishes last.
pub proof fn law_later_save_wins_either_way(
    cell: CellView,
    first: Slot,
    second: Slot,
)
    requires
        ordered(cell),
        cell.claimed < u64::MAX - 1,
    ensures
        ({
            let once = cell_claimed(cell);
            let twice = cell_claimed(once);
            let a = once.claimed;
            let b = twice.claimed;
            &&& cell_installed(cell_installed(twice, a, first), b, second).slot == second
            &&& cell_installed(cell_installed(twice, b, second), a, first).slot == second
        }),
{
}

/// A client built for a proxied plan sends everything through the plan's one
/// URI with the plan's credentials, and never falls back on the system's own
/// proxies.
pub proof fn law_proxied_client_has_one_way_out(
    p: PlanView,
    env: HostCaps,
    config: ClientConfig,
)
    requires
        p !is Direct,
        slot_for_plan(p, env, Ok(config)),
    ensures
        !config.system,
        exists|target: ProxyTarget|
            {
                &&& config.proxies == #[trigger] seq![target]
                &&& route_of(p, Capability::Api, env) == Ok::<RouteView, Seq<char>>(
                    RouteView::Via { uri: target.uri, creds: target.creds },
                )
            },
{
    let route = route_of(p, Capability::Api, env)->Ok_0;
    if let RouteView::Via { uri, creds } = route {
        let target = ProxyTarget { uri, creds };
        assert(config.proxies == seq![target]);
    }
}

/// Settings that form no plan leave the cell blocked, with the reason they
/// form none.
pub proof fn law_unplannable_settings_block(
    s: ProxySettingsView,
    env: HostCaps,
    cell: CellView,
    generation: u64,
    slot: Slot,
)
    requires
        plan_of(s) is Err,
        slot_for_settings(s, env, slot_view(slot)),
        cell.applied <= generation,
    ensures
        slot_view(cell_installed(cell, generation, slot).slot) == Err::<ClientConfig, Seq<char>>(
            plan_error_text(plan_of(s)->Err_0),
        ),
{
}

/// Switching the proxy off always gives a client, on the system's own
/// configuration, whatever host and port are kept beside the switch.
pub proof fn law_disabling_unblocks(
    s: ProxySettingsView,
    env: HostCaps,
    slot: Result<ClientConfig, Seq<char>>,
)
    requires
        !s.enabled,
        slot_for_settings(s, env, slot),
    ensures
        slot == Ok::<ClientConfig, Seq<char>>(config_for(RouteView::NoProxy)),
{
}

/// A proxy given as an IP address always yields a client: nothing is looked up
/// for it, and reqwest refuses none.
pub proof fn law_proxy_at_an_address_always_applies(
    p: PlanView,
    env: HostCaps,
    slot: Result<ClientConfig, Seq<char>>,
)
    requires
        p !is Direct,
        is_ipv4(plan_host(p)) || is_ipv6(plan_host(p)),
        slot_for_plan(p, env, slot),
    ensures
        slot is Ok,
{
    let scheme = scheme_of(p is Socks5, plan_creds(p) is Some, Capability::Api);
    let uri = uri_of(scheme, plan_host(p), plan_port(p));
    assert(is_scheme(scheme));
    assert(address_uri(uri));
}

/// An HTTP proxy with a plain name always yields a client, resolvable or not.
pub proof fn law_http_proxy_by_name_always_applies(
    p: PlanView,
    env: HostCaps,
    slot: Result<ClientConfig, Seq<char>>,
)
    requires
        p is Http,
        plain_name(plan_host(p)),
        slot_for_plan(p, env, slot),
    ensures
        slot is Ok,
{
    assert(name_uri(uri_of("http"@, plan_host(p), plan_port(p))));
}

/// Whether an HTTP proxy applies goes by its URI alone: two builds for the same
/// plan both give a client or both give none, whatever the resolver says.
pub proof fn law_http_proxy_never_rests_on_the_resolver(
    p: PlanView,
    env: HostCaps,
    a: Result<ClientConfig, Seq<char>>,
    b: Result<ClientConfig, Seq<char>>,
)
    requires
        p is Http,
        slot_for_plan(p, env, a),
        slot_for_plan(p, env, b),
    ensures
        a is Ok <==> b is Ok,
{
    let uri = uri_of("http"@, plan_host(p), plan_port(p));
    reveal_strlit("http");
    reveal_strlit("://");
    reveal_strlit("http://");
    assert(uri.take(7) =~= "http://"@);
}

} // verus!
