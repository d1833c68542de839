//! What plans and routes mean, in terms of the settings and of the host.
use crate::ipv6::{address_char, is_ipv6, lemma_ipv6_chars, lemma_ipv6_has_colon};
use crate::laws::{plan_creds, plan_host, plan_port};
use crate::proxy::{
    authority_of, creds_text, host_char, lone_colon, plain_host, plan_of, quoted, route_of, uri_of,
    valid_host, version_text, Capability, Creds, CredsView, HostCaps, PlanError, PlanErrorView,
    PlanView, ProxyPlan, Route, RouteView,
};
use crate::settings::{ProxySettings, ProxySettingsView, ProxyType};
use crate::text::{ascii, decimal, trimmed};
use vstd::prelude::*;

verus! {

/// The credentials of a formed plan are those of the settings. Without a user
/// name, or with one that is white space only, there are none; else the user is
/// the user name without the white space around it, and the password is the one
/// given, character for character, or empty where none is given.
pub proof fn law_credentials_are_those_of_the_settings(s: ProxySettingsView, p: PlanView)
    requires
        s.enabled,
        plan_of(s) == Ok::<PlanView, PlanErrorView>(p),
    ensures
        s.username is None ==> plan_creds(p) is None,
        s.username matches Some(name) ==> (plan_creds(p) is None <==> trimmed(name).len() == 0),
        plan_creds(p) matches Some(c) ==> {
            &&& s.username matches Some(name) && c.user == trimmed(name)
            &&& s.password matches Some(given) ==> c.pass == given
            &&& s.password is None ==> c.pass.len() == 0
        },
{
    assert(trimmed(Seq::<char>::empty()) =~= Seq::<char>::empty());
}

/// The password has no bearing on whether there is a plan, nor on anything in it
/// but the password.
pub proof fn law_password_bears_on_nothing_else(s: ProxySettingsView, t: ProxySettingsView)
    requires
        t.enabled == s.enabled,
        t.proxy_type == s.proxy_type,
        t.host == s.host,
        t.port == s.port,
        t.username == s.username,
    ensures
        match (plan_of(s), plan_of(t)) {
            (Ok(p), Ok(q)) => {
                &&& plan_host(p) == plan_host(q)
                &&& plan_port(p) == plan_port(q)
                &&& p is Direct <==> q is Direct
                &&& p is Socks5 <==> q is Socks5
                &&& match (plan_creds(p), plan_creds(q)) {
                    (Some(c), Some(d)) => c.user == d.user,
                    (None, None) => true,
                    _ => false,
                }
            },
            (Err(e), Err(f)) => e == f,
            _ => false,
        },
{
}

/// The kind, host and port of a formed plan are those of the settings, with the
/// white space around the host taken off.
pub proof fn law_kind_host_and_port_are_those_of_the_settings(s: ProxySettingsView, p: PlanView)
    requires
        s.enabled,
        plan_of(s) == Ok::<PlanView, PlanErrorView>(p),
    ensures
        p is Http <==> s.proxy_type == ProxyType::Http,
        p is Socks5 <==> s.proxy_type == ProxyType::Socks5,
        plan_host(p) == trimmed(s.host),
        plan_port(p) == s.port,
        s.port > 0,
{
}

/// Whether the character with this number may stand in a host name: a letter, a
/// digit, a dot, a hyphen or an underscore.
pub open spec fn name_code(u: int) -> bool {
    ||| 97 <= u <= 122
    ||| 65 <= u <= 90
    ||| 48 <= u <= 57
    ||| u == 46
    ||| u == 45
    ||| u == 95
}

/// Whether the character with this number may stand in an IPv6 literal: a hex
/// digit, a colon or a dot.
pub open spec fn literal_code(u: int) -> bool {
    ||| 48 <= u <= 57
    ||| 97 <= u <= 102
    ||| 65 <= u <= 70
    ||| u == 58
    ||| u == 46
}

/// A host without a colon is accepted exactly when it is made of letters,
/// digits, dots, hyphens and underscores, and there is at least one.
pub proof fn law_name_is_accepted_by_its_characters(s: ProxySettingsView)
    requires
        s.enabled,
        s.port > 0,
        !trimmed(s.host).contains(':'),
    ensures
        plan_of(s) is Ok <==> trimmed(s.host).len() > 0 && forall|i: int|
            0 <= i < trimmed(s.host).len() ==> name_code(#[trigger] trimmed(s.host)[i] as int),
{
    let h = trimmed(s.host);
    if is_ipv6(h) {
        lemma_ipv6_has_colon(h);
    }
    if plain_host(h) {
        assert forall|i: int| 0 <= i < h.len() implies name_code(#[trigger] h[i] as int) by {
            assert(host_char(h[i]));
        }
    }
    if h.len() > 0 && forall|i: int| 0 <= i < h.len() ==> name_code(#[trigger] h[i] as int) {
        assert forall|i: int| 0 <= i < h.len() implies host_char(#[trigger] h[i]) by {
            assert(name_code(h[i] as int));
        }
    }
}

/// A host with a colon is accepted exactly when it is an IPv6 literal, and then
/// it holds nothing but hex digits, colons and dots.
pub proof fn law_colon_is_accepted_in_a_literal_only(s: ProxySettingsView)
    requires
        s.enabled,
        s.port > 0,
        trimmed(s.host).contains(':'),
    ensures
        plan_of(s) is Ok <==> is_ipv6(trimmed(s.host)),
        plan_of(s) is Ok ==> forall|i: int|
            0 <= i < trimmed(s.host).len() ==> literal_code(#[trigger] trimmed(s.host)[i] as int),
{
    let h = trimmed(s.host);
    let k = choose|k: int| 0 <= k < h.len() && h[k] == ':';
    assert(!host_char(h[k]));
    if is_ipv6(h) {
        lemma_ipv6_chars(h);
        assert forall|i: int| 0 <= i < h.len() implies literal_code(#[trigger] h[i] as int) by {
            assert(address_char(h[i]));
        }
    }
}

/// Each error says what is wrong with the settings, and the first of these that
/// holds is the one reported: the port is 0; the host holds a character beyond
/// ASCII; it begins or ends in a bracket; it holds one colon; or it is no host
/// at all, in which case the field is reported as it was given.
pub proof fn law_each_error_says_what_is_wrong(s: ProxySettingsView, e: PlanErrorView)
    requires
        plan_of(s) == Err::<PlanView, PlanErrorView>(e),
    ensures
        s.enabled,
        e is PortZero <==> s.port == 0,
        s.port > 0 ==> ({
            let h = trimmed(s.host);
            let foreign = exists|i: int| 0 <= i < h.len() && #[trigger] h[i] as int > 0x7f;
            let bracketed = h.len() > 0 && (h[0] == '[' || h[h.len() - 1] == ']');
            let one_colon = exists|i: int| #[trigger]
                h[i] == ':' && 0 <= i < h.len() && !h.subrange(0, i).contains(':') && !h.subrange(
                    i + 1,
                    h.len() as int,
                ).contains(':');
            &&& e is NonAsciiHost <==> foreign
            &&& e is BracketedHost <==> !foreign && bracketed
            &&& e is EmbeddedPort <==> !foreign && !bracketed && one_colon
            &&& e is BadHost <==> !foreign && !bracketed && !one_colon
            &&& e matches PlanErrorView::BadHost(shown) ==> shown == s.host
        }),
{
    let h = trimmed(s.host);
    let foreign = exists|i: int| 0 <= i < h.len() && #[trigger] h[i] as int > 0x7f;
    if ascii(h) {
        assert(forall|i: int| 0 <= i < h.len() ==> #[trigger] h[i] <= '\u{7f}');
        assert(!foreign);
    } else {
        let i = choose|i: int| 0 <= i < h.len() && !(#[trigger] h[i] <= '\u{7f}');
        assert(h[i] as int > 0x7f);
    }
    assert forall|i: int| 0 <= i < h.len() && #[trigger] h[i] == ':' implies (lone_colon(h, i)
        <==> !h.subrange(0, i).contains(':') && !h.subrange(i + 1, h.len() as int).contains(
        ':',
    )) by {
        lemma_lone(h, i);
    }
    if exists|i: int| lone_colon(h, i) {
        let i = choose|i: int| lone_colon(h, i);
        assert(h[i] == ':');
    }
}

proof fn lemma_lone(h: Seq<char>, i: int)
    requires
        0 <= i < h.len(),
        h[i] == ':',
    ensures
        lone_colon(h, i) <==> !h.subrange(0, i).contains(':') && !h.subrange(
            i + 1,
            h.len() as int,
        ).contains(':'),
{
    let before = h.subrange(0, i);
    let after = h.subrange(i + 1, h.len() as int);
    if lone_colon(h, i) {
        assert(forall|j: int| 0 <= j < before.len() ==> before[j] == h[j]);
        assert(forall|j: int| 0 <= j < after.len() ==> after[j] == h[j + i + 1]);
    } else {
        let j = choose|j: int| 0 <= j < h.len() && j != i && #[trigger] h[j] == ':';
        if j < i {
            assert(before[j] == ':');
        } else {
            assert(after[j - i - 1] == ':');
        }
    }
}

/// Whether a GStreamer version is below 1.26.10, part by part.
pub open spec fn cannot_seek(v: (u32, u32, u32)) -> bool {
    ||| v.0 < 1
    ||| v.0 == 1 && v.1 < 26
    ||| v.0 == 1 && v.1 == 26 && v.2 < 10
}

/// Authenticated lossy audio on a host with the curl source is blocked exactly
/// where GStreamer is below 1.26.10, whichever kind the proxy is.
pub proof fn law_authenticated_lossy_needs_a_gstreamer_that_seeks(p: PlanView, env: HostCaps)
    requires
        p !is Direct,
        plan_creds(p) is Some,
        env.has_curlhttpsrc,
    ensures
        route_of(p, Capability::Lossy, env) is Err <==> cannot_seek(env.gst_version),
{
}

/// DASH audio through a proxy is blocked wherever the legacy demuxer is missing,
/// whichever kind the proxy is and whatever else the host has.
pub proof fn law_dash_needs_the_legacy_demuxer(p: PlanView, env: HostCaps)
    requires
        p !is Direct,
        !env.has_dashdemux,
    ensures
        route_of(p, Capability::Dash, env) is Err,
{
}

/// What blocks a proxied consumer, and nothing else does: no curl source for
/// authenticated audio, no legacy demuxer for DASH, and a GStreamer that cannot
/// seek for authenticated lossy audio.
pub proof fn law_what_blocks_a_consumer(p: PlanView, c: Capability, env: HostCaps)
    requires
        p !is Direct,
    ensures
        c is Api || c is Webview ==> route_of(p, c, env) is Ok,
        c is Lossy && plan_creds(p) is None ==> route_of(p, c, env) is Ok,
        c is Lossy && plan_creds(p) is Some ==> (route_of(p, c, env) is Ok <==> env.has_curlhttpsrc
            && !cannot_seek(env.gst_version)),
        c is Dash && plan_creds(p) is None ==> (route_of(p, c, env) is Ok <==> env.has_dashdemux),
        c is Dash && plan_creds(p) is Some ==> (route_of(p, c, env) is Ok <==> env.has_dashdemux
            && env.has_curlhttpsrc),
{
}

/// A host that has more never serves less: what is served stays served when a
/// plugin is added or GStreamer is replaced by one that seeks.
pub proof fn law_a_better_host_serves_no_less(
    p: PlanView,
    c: Capability,
    env: HostCaps,
    better: HostCaps,
)
    requires
        route_of(p, c, env) is Ok,
        env.has_dashdemux ==> better.has_dashdemux,
        env.has_curlhttpsrc ==> better.has_curlhttpsrc,
        !cannot_seek(env.gst_version) ==> !cannot_seek(better.gst_version),
    ensures
        route_of(p, c, better) == route_of(p, c, env),
{
}

/// The cause of a block names what is missing: the curl source before all, in
/// words of its own for each kind of proxy; then the demuxer; then the version,
/// with the one that was found.
pub proof fn law_cause_names_what_is_missing(
    p: PlanView,
    c: Capability,
    env: HostCaps,
    cause: Seq<char>,
)
    requires
        route_of(p, c, env) == Err::<RouteView, Seq<char>>(cause),
    ensures
        plan_creds(p) is Some && !env.has_curlhttpsrc && p is Socks5 ==> cause
            == "authenticated SOCKS5 audio requires the curl source plugin"@,
        plan_creds(p) is Some && !env.has_curlhttpsrc && p is Http ==> cause
            == "audio cannot be proxied with credentials: the curl source plugin is missing"@,
        (plan_creds(p) is None || env.has_curlhttpsrc) && c is Dash ==> cause
            == "high-resolution audio cannot be proxied: the legacy adaptive demuxer is missing"@,
        env.has_curlhttpsrc && c is Lossy ==> cause
            == "authenticated proxies need GStreamer 1.26.10 or newer for seeking (found "@
            + decimal(env.gst_version.0 as nat) + "."@ + decimal(env.gst_version.1 as nat) + "."@
            + decimal(env.gst_version.2 as nat) + ")"@,
{
    reveal_strlit("authenticated proxies need GStreamer ");
    reveal_strlit(" or newer for seeking (found ");
    reveal_strlit("authenticated proxies need GStreamer 1.26.10 or newer for seeking (found ");
    reveal_strlit(".");
    assert(decimal(1) =~= seq!['1']);
    assert(decimal(2) =~= seq!['2']);
    assert(decimal(26) =~= seq!['2', '6']);
    assert(decimal(10) =~= seq!['1', '0']);
    let fixed = version_text((1u32, 26u32, 10u32));
    assert(fixed =~= seq!['1', '.', '2', '6', '.', '1', '0']);
    assert("authenticated proxies need GStreamer "@ + fixed + " or newer for seeking (found "@
        =~= "authenticated proxies need GStreamer 1.26.10 or newer for seeking (found "@);
    let found = version_text(env.gst_version);
    let head = "authenticated proxies need GStreamer "@ + fixed + " or newer for seeking (found "@;
    assert(head + found + ")"@ =~= head + decimal(env.gst_version.0 as nat) + "."@ + decimal(
        env.gst_version.1 as nat,
    ) + "."@ + decimal(env.gst_version.2 as nat) + ")"@);
}

/// Host and port as they stand in a URI: in brackets where the host holds a
/// colon.
pub open spec fn endpoint(host: Seq<char>, port: u16) -> Seq<char> {
    if host.contains(':') {
        seq!['['] + host + seq![']', ':'] + decimal(port as nat)
    } else {
        host + seq![':'] + decimal(port as nat)
    }
}

/// The URI that a consumer is given spells out where it goes and who resolves
/// the name: an HTTP proxy is `http` for everyone; a SOCKS5 proxy is `socks5h`
/// for reqwest and for authenticated audio, and `socks5` for the webview and for
/// audio without credentials. Then come the planned host and port. The
/// credentials beside it are the planned ones.
pub proof fn law_uri_spells_out_the_endpoint(
    p: PlanView,
    c: Capability,
    env: HostCaps,
    uri: Seq<char>,
    creds: Option<CredsView>,
)
    requires
        valid_host(plan_host(p)),
        route_of(p, c, env) == Ok::<RouteView, Seq<char>>(RouteView::Via { uri, creds }),
    ensures
        p is Http ==> uri == "http://"@ + endpoint(plan_host(p), plan_port(p)),
        p is Socks5 && (c is Api || (c is Lossy || c is Dash) && plan_creds(p) is Some) ==> uri
            == "socks5h://"@ + endpoint(plan_host(p), plan_port(p)),
        p is Socks5 && (c is Webview || (c is Lossy || c is Dash) && plan_creds(p) is None) ==> uri
            == "socks5://"@ + endpoint(plan_host(p), plan_port(p)),
        creds == plan_creds(p),
{
    let host = plan_host(p);
    let port = plan_port(p);
    lemma_authority_is_the_endpoint(host, port);
    reveal_strlit("http");
    reveal_strlit("socks5");
    reveal_strlit("socks5h");
    reveal_strlit("://");
    reveal_strlit("http://");
    reveal_strlit("socks5://");
    reveal_strlit("socks5h://");
    let rest = endpoint(host, port);
    assert(uri_of("http"@, host, port) =~= "http://"@ + rest);
    assert(uri_of("socks5"@, host, port) =~= "socks5://"@ + rest);
    assert(uri_of("socks5h"@, host, port) =~= "socks5h://"@ + rest);
}

/// The authority of a valid host is its endpoint.
pub proof fn law_authority_is_the_endpoint(host: Seq<char>, port: u16)
    requires
        valid_host(host),
    ensures
        authority_of(host, port) == endpoint(host, port),
{
    lemma_authority_is_the_endpoint(host, port);
}

proof fn lemma_authority_is_the_endpoint(host: Seq<char>, port: u16)
    requires
        valid_host(host),
    ensures
        authority_of(host, port) == endpoint(host, port),
{
    if is_ipv6(host) {
        lemma_ipv6_has_colon(host);
    } else {
        assert forall|i: int| 0 <= i < host.len() implies #[trigger] host[i] != ':' by {
            assert(host_char(host[i]));
        }
    }
    reveal_strlit("[");
    reveal_strlit("]:");
    reveal_strlit(":");
    assert(authority_of(host, port) =~= endpoint(host, port));
}

/// Of any host at all, the authority ends in a colon and the port, and sets the
/// host in brackets exactly where it is an IPv6 literal.
pub proof fn law_authority_of_any_host(host: Seq<char>, port: u16)
    ensures
        is_ipv6(host) ==> authority_of(host, port) == seq!['['] + host + seq![']', ':'] + decimal(
            port as nat,
        ),
        !is_ipv6(host) ==> authority_of(host, port) == host + seq![':'] + decimal(port as nat),
{
    reveal_strlit("[");
    reveal_strlit("]:");
    reveal_strlit(":");
    assert("["@ + host + "]:"@ + decimal(port as nat) =~= seq!['['] + host + seq![']', ':']
        + decimal(port as nat));
    assert(host + ":"@ + decimal(port as nat) =~= host + seq![':'] + decimal(port as nat));
}

/// The model of the settings is the settings, field by field and character by
/// character.
pub proof fn law_settings_are_seen_as_they_are(s: ProxySettings)
    ensures
        s@.enabled == s.enabled,
        s@.proxy_type == s.proxy_type,
        s@.host == s.host@,
        s@.port == s.port,
        match s.username {
            Some(user) => s@.username == Some(user@),
            None => s@.username is None,
        },
        match s.password {
            Some(pass) => s@.password == Some(pass@),
            None => s@.password is None,
        },
{
}

/// The model of a plan is the plan: its kind, host, port and credentials.
pub proof fn law_plans_are_seen_as_they_are(p: ProxyPlan)
    ensures
        p is Direct <==> p@ is Direct,
        p matches ProxyPlan::Http { host, port, creds } ==> p@ is Http && plan_host(p@) == host@
            && plan_port(p@) == port && (creds is Some <==> plan_creds(p@) is Some) && (
        creds matches Some(c) ==> plan_creds(p@)->0.user == c.user@ && plan_creds(p@)->0.pass
            == c.pass@),
        p matches ProxyPlan::Socks5 { host, port, creds } ==> p@ is Socks5 && plan_host(p@) == host@
            && plan_port(p@) == port && (creds is Some <==> plan_creds(p@) is Some) && (
        creds matches Some(c) ==> plan_creds(p@)->0.user == c.user@ && plan_creds(p@)->0.pass
            == c.pass@),
{
}

/// The model of a route is the route: its URI and its credentials.
pub proof fn law_routes_are_seen_as_they_are(r: Route)
    ensures
        r is NoProxy <==> r@ is NoProxy,
        r matches Route::Via { uri, creds } ==> (r@ matches RouteView::Via {
            uri: seen,
            creds: known,
        } && seen == uri@ && (creds is Some <==> known is Some) && (creds matches Some(c)
            ==> known->0.user == c.user@ && known->0.pass == c.pass@)),
{
}

/// The model of an error is the error, with the host that it names.
pub proof fn law_errors_are_seen_as_they_are(e: PlanError)
    ensures
        e is PortZero <==> e@ is PortZero,
        e is BadHost <==> e@ is BadHost,
        e is NonAsciiHost <==> e@ is NonAsciiHost,
        e is BracketedHost <==> e@ is BracketedHost,
        e is EmbeddedPort <==> e@ is EmbeddedPort,
        e matches PlanError::BadHost(host) ==> e@ == PlanErrorView::BadHost(host@),
{
}

/// The printed form of credentials shows the user as `{:?}` shows a text, and
/// three stars in the place of the password.
pub proof fn law_printed_credentials_hide_the_password(c: Creds)
    ensures
        creds_text(c.user@) == "Creds { user: "@ + quoted(c.user@) + ", pass: \"***\" }"@,
{
}

} // verus!
