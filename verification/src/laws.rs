//! What holds of every plan and every route.
use crate::ipv6::{address_char, is_ipv6, lemma_ipv6_chars, lemma_ipv6_has_colon};
use crate::proxy::{
    all_present, audio, authority_of, host_char, host_fault, is_scheme, plan_of, route_of,
    scheme_of, settings_creds, uri_of, valid_host, Capability, CredsView, HostCaps, PlanErrorView,
    PlanView, RouteView,
};
use crate::settings::{ProxySettingsView, ProxyType};
use crate::text::{
    ascii, decimal, digit_char, ends_with, occurs, trimmed, trimmed_end, trimmed_start, white,
};
use vstd::prelude::*;

verus! {

/// Settings go direct exactly when the proxy is switched off: an enabled proxy
/// with unusable input is an error, never a direct connection.
pub proof fn law_direct_only_when_disabled(s: ProxySettingsView)
    ensures
        plan_of(s) == Ok::<PlanView, PlanErrorView>(PlanView::Direct) <==> !s.enabled,
{
}

/// A plan carries the settings' own host, trimmed, their port, and their
/// credentials; the host is one that can stand in a URI and the port is not 0.
pub proof fn law_plan_carries_the_settings(s: ProxySettingsView, p: PlanView)
    requires
        s.enabled,
        plan_of(s) == Ok::<PlanView, PlanErrorView>(p),
    ensures
        s.port != 0,
        valid_host(trimmed(s.host)),
        p == match s.proxy_type {
            ProxyType::Http => PlanView::Http {
                host: trimmed(s.host),
                port: s.port,
                creds: settings_creds(s),
            },
            ProxyType::Socks5 => PlanView::Socks5 {
                host: trimmed(s.host),
                port: s.port,
                creds: settings_creds(s),
            },
        },
{
}

/// Every enabled proxy whose port is not 0 and whose trimmed host is valid is
/// accepted, and no other.
pub proof fn law_plan_accepts_exactly_valid_hosts(s: ProxySettingsView)
    requires
        s.enabled,
    ensures
        plan_of(s) is Ok <==> s.port != 0 && valid_host(trimmed(s.host)),
{
}

/// White space around the host field changes nothing about a plan that is
/// formed: the trimmed host forms the same one.
pub proof fn law_white_space_around_the_host_is_ignored(s: ProxySettingsView)
    requires
        plan_of(s) is Ok,
    ensures
        plan_of(ProxySettingsView { host: trimmed(s.host), ..s }) == plan_of(s),
{
    lemma_trimmed_fixed(s.host);
}

/// An accepted host is its own normal form: validating it again accepts it and
/// changes nothing.
pub proof fn law_accepted_host_is_its_own_normal_form(raw: Seq<char>)
    requires
        host_fault(raw) is None,
    ensures
        host_fault(trimmed(raw)) is None,
        trimmed(trimmed(raw)) == trimmed(raw),
{
    lemma_trimmed_fixed(raw);
}

/// Whether `s` is white space throughout.
pub open spec fn all_white(s: Seq<char>) -> bool {
    forall|i: int| 0 <= i < s.len() ==> white(#[trigger] s[i])
}

/// White space put before or after a host field, or taken from there, changes
/// neither whether it is accepted nor which host results.
pub proof fn law_white_space_at_the_ends_is_ignored(
    before: Seq<char>,
    raw: Seq<char>,
    after: Seq<char>,
)
    requires
        all_white(before),
        all_white(after),
    ensures
        trimmed(before + raw + after) == trimmed(raw),
        host_fault(before + raw + after) is None <==> host_fault(raw) is None,
{
    let rest = raw + after;
    assert(before + raw + after =~= before + rest);
    lemma_start_skips(before, rest);
    lemma_start_of_sum(raw, after);
    lemma_start_skips(after, Seq::empty());
    assert(after + Seq::<char>::empty() =~= after);
    lemma_end_skips(trimmed_start(raw), after);
}

proof fn lemma_start_skips(before: Seq<char>, s: Seq<char>)
    requires
        all_white(before),
    ensures
        trimmed_start(before + s) == trimmed_start(s),
    decreases before.len(),
{
    if before.len() == 0 {
        assert(before + s =~= s);
    } else {
        assert((before + s)[0] == before[0]);
        assert((before + s).drop_first() =~= before.drop_first() + s);
        assert forall|i: int| 0 <= i < before.len() - 1 implies white(
            #[trigger] before.drop_first()[i],
        ) by {
            assert(white(before[i + 1]));
        }
        lemma_start_skips(before.drop_first(), s);
    }
}

proof fn lemma_end_skips(s: Seq<char>, after: Seq<char>)
    requires
        all_white(after),
    ensures
        trimmed_end(s + after) == trimmed_end(s),
    decreases after.len(),
{
    if after.len() == 0 {
        assert(s + after =~= s);
    } else {
        assert((s + after).last() == after.last());
        assert((s + after).drop_last() =~= s + after.drop_last());
        lemma_end_skips(s, after.drop_last());
    }
}

proof fn lemma_start_of_sum(s: Seq<char>, after: Seq<char>)
    ensures
        trimmed_start(s + after) == if trimmed_start(s).len() == 0 {
            trimmed_start(after)
        } else {
            trimmed_start(s) + after
        },
    decreases s.len(),
{
    if s.len() == 0 {
        assert(s + after =~= after);
    } else {
        assert((s + after)[0] == s[0]);
        if white(s[0]) {
            assert((s + after).drop_first() =~= s.drop_first() + after);
            lemma_start_of_sum(s.drop_first(), after);
        }
    }
}

proof fn lemma_trimmed_start_first(s: Seq<char>)
    ensures
        trimmed_start(s).len() > 0 ==> !white(trimmed_start(s)[0]),
    decreases s.len(),
{
    if s.len() > 0 && white(s[0]) {
        lemma_trimmed_start_first(s.drop_first());
    }
}

proof fn lemma_trimmed_end_ends(s: Seq<char>)
    ensures
        trimmed_end(s).len() > 0 ==> !white(trimmed_end(s).last()) && trimmed_end(s)[0] == s[0],
    decreases s.len(),
{
    if s.len() > 0 && white(s.last()) {
        lemma_trimmed_end_ends(s.drop_last());
    }
}

proof fn lemma_trimmed_fixed(s: Seq<char>)
    ensures
        trimmed(trimmed(s)) == trimmed(s),
{
    lemma_trimmed_start_first(s);
    lemma_trimmed_end_ends(trimmed_start(s));
}

/// The host of a plan.
pub open spec fn plan_host(p: PlanView) -> Seq<char> {
    match p {
        PlanView::Direct => Seq::empty(),
        PlanView::Http { host, .. } => host,
        PlanView::Socks5 { host, .. } => host,
    }
}

pub open spec fn plan_port(p: PlanView) -> u16 {
    match p {
        PlanView::Direct => 0,
        PlanView::Http { port, .. } => port,
        PlanView::Socks5 { port, .. } => port,
    }
}

pub open spec fn plan_creds(p: PlanView) -> Option<CredsView> {
    match p {
        PlanView::Direct => None,
        PlanView::Http { creds, .. } => creds,
        PlanView::Socks5 { creds, .. } => creds,
    }
}

/// Whether settings exist that form the plan.
pub open spec fn planned(p: PlanView) -> bool {
    exists|s: ProxySettingsView| plan_of(s) == Ok::<PlanView, PlanErrorView>(p)
}

/// A direct plan leaves every capability to the system's own configuration.
pub proof fn law_direct_routes_to_no_proxy(c: Capability, env: HostCaps)
    ensures
        route_of(PlanView::Direct, c, env) == Ok::<RouteView, Seq<char>>(RouteView::NoProxy),
{
}

/// A proxied plan never routes around the proxy, whatever the host lacks: a
/// capability goes through it or is blocked.
pub proof fn law_proxied_never_goes_direct(p: PlanView, c: Capability, env: HostCaps)
    requires
        p !is Direct,
    ensures
        route_of(p, c, env) != Ok::<RouteView, Seq<char>>(RouteView::NoProxy),
{
}

/// A host with everything present serves every capability of every plan.
pub proof fn law_all_present_blocks_nothing(p: PlanView, c: Capability)
    ensures
        route_of(p, c, all_present()) is Ok,
{
}

/// The host's GStreamer bears on audio alone.
pub proof fn law_only_audio_is_ever_blocked(p: PlanView, c: Capability, env: HostCaps)
    requires
        route_of(p, c, env) is Err,
    ensures
        audio(c),
{
}

/// Without credentials only a missing demuxer blocks, and only DASH.
pub proof fn law_unauthenticated_blocks_dash_alone(p: PlanView, c: Capability, env: HostCaps)
    requires
        plan_creds(p) is None,
        route_of(p, c, env) is Err,
    ensures
        c == Capability::Dash,
        !env.has_dashdemux,
{
}

/// Authenticated audio fails closed on a host without the curl source, and the
/// two kinds of proxy give different reasons.
pub proof fn law_authenticated_audio_needs_curl(p: PlanView, c: Capability, env: HostCaps)
    requires
        p !is Direct,
        plan_creds(p) is Some,
        audio(c),
        !env.has_curlhttpsrc,
    ensures
        route_of(p, c, env) == Err::<RouteView, Seq<char>>(
            if p is Socks5 {
                "authenticated SOCKS5 audio requires the curl source plugin"@
            } else {
                "audio cannot be proxied with credentials: the curl source plugin is missing"@
            },
        ),
{
}

/// Credentials reach a consumer beside the URI, exactly as planned.
pub proof fn law_credentials_travel_beside_the_uri(
    p: PlanView,
    c: Capability,
    env: HostCaps,
    uri: Seq<char>,
    creds: Option<CredsView>,
)
    requires
        route_of(p, c, env) == Ok::<RouteView, Seq<char>>(RouteView::Via { uri, creds }),
    ensures
        creds == plan_creds(p),
{
}

/// What the credentials are has no bearing on the URI: settings that differ in
/// nothing but which user name and which password give the same one.
pub proof fn law_uri_tells_nothing_of_the_credentials(
    s: ProxySettingsView,
    t: ProxySettingsView,
    c: Capability,
    env: HostCaps,
)
    requires
        t.enabled == s.enabled,
        t.proxy_type == s.proxy_type,
        t.host == s.host,
        t.port == s.port,
        settings_creds(s) is Some,
        settings_creds(t) is Some,
        plan_of(s) is Ok,
    ensures
        plan_of(t) is Ok,
        match (route_of(plan_of(s)->Ok_0, c, env), route_of(plan_of(t)->Ok_0, c, env)) {
            (Ok(RouteView::NoProxy), Ok(RouteView::NoProxy)) => true,
            (Ok(RouteView::Via { uri: a, .. }), Ok(RouteView::Via { uri: b, .. })) => a == b,
            (Err(a), Err(b)) => a == b,
            _ => false,
        },
{
}

proof fn lemma_scheme_chars(s: Seq<char>)
    requires
        is_scheme(s),
    ensures
        s.len() > 0,
        forall|i: int| 0 <= i < s.len() ==> host_char(#[trigger] s[i]),
{
    reveal_strlit("http");
    reveal_strlit("socks5");
    reveal_strlit("socks5h");
}

proof fn lemma_decimal_chars(n: nat)
    ensures
        decimal(n).len() > 0,
        forall|i: int| 0 <= i < decimal(n).len() ==> '0' <= #[trigger] decimal(n)[i] <= '9',
    decreases n,
{
    if n >= 10 {
        lemma_decimal_chars(n / 10);
    }
}

proof fn lemma_decimal_injective(m: nat, n: nat)
    requires
        decimal(m) == decimal(n),
    ensures
        m == n,
    decreases m,
{
    lemma_decimal_chars(m / 10);
    lemma_decimal_chars(n / 10);
    assert(decimal(m).last() == decimal(n).last());
    if m < 10 {
        assert(m % 10 == m);
    }
    if n < 10 {
        assert(n % 10 == n);
    }
    assert(decimal(m).last() == digit_char(m % 10));
    assert(decimal(n).last() == digit_char(n % 10));
    if m < 10 && n >= 10 {
        assert(decimal(m).len() == 1 && decimal(n).len() > 1);
    }
    if n < 10 && m >= 10 {
        assert(decimal(n).len() == 1 && decimal(m).len() > 1);
    }
    if m >= 10 && n >= 10 {
        assert(decimal(m).drop_last() =~= decimal(m / 10));
        assert(decimal(n).drop_last() =~= decimal(n / 10));
        lemma_decimal_injective(m / 10, n / 10);
    }
}

/// Text splits at its first `c` in one way only.
proof fn lemma_split_once(a: Seq<char>, x: Seq<char>, b: Seq<char>, y: Seq<char>, c: char)
    requires
        a + seq![c] + x == b + seq![c] + y,
        forall|i: int| 0 <= i < a.len() ==> #[trigger] a[i] != c,
        forall|i: int| 0 <= i < b.len() ==> #[trigger] b[i] != c,
    ensures
        a == b,
        x == y,
{
    let l = a + seq![c] + x;
    let r = b + seq![c] + y;
    assert(l[a.len() as int] == c && r[b.len() as int] == c);
    if a.len() < b.len() {
        assert(r[a.len() as int] == b[a.len() as int]);
    } else if b.len() < a.len() {
        assert(l[b.len() as int] == a[b.len() as int]);
    }
    let n = a.len() as int;
    assert(b.len() == n);
    assert(l.len() == n + 1 + x.len());
    assert(r.len() == n + 1 + y.len());
    assert(a =~= l.take(n));
    assert(b =~= r.take(n));
    assert(x =~= l.skip(n + 1));
    assert(y =~= r.skip(n + 1));
    assert(a =~= b);
    assert(x =~= y);
}

/// The characters of a URI, place by place.
pub open spec fn uri_shape(scheme: Seq<char>, host: Seq<char>, port: u16) -> Seq<char> {
    if is_ipv6(host) {
        scheme + seq![':', '/', '/', '['] + host + seq![']', ':'] + decimal(port as nat)
    } else {
        scheme + seq![':', '/', '/'] + host + seq![':'] + decimal(port as nat)
    }
}

proof fn lemma_uri_shape(scheme: Seq<char>, host: Seq<char>, port: u16)
    ensures
        uri_of(scheme, host, port) == uri_shape(scheme, host, port),
{
    reveal_strlit("://");
    reveal_strlit("[");
    reveal_strlit("]:");
    reveal_strlit(":");
    assert(uri_of(scheme, host, port) =~= uri_shape(scheme, host, port));
}

proof fn lemma_host_chars(host: Seq<char>)
    requires
        valid_host(host),
    ensures
        host.len() > 0,
        is_ipv6(host) ==> forall|i: int| 0 <= i < host.len() ==> address_char(#[trigger] host[i]),
        !is_ipv6(host) ==> forall|i: int| 0 <= i < host.len() ==> host_char(#[trigger] host[i]),
{
    if is_ipv6(host) {
        lemma_ipv6_chars(host);
        lemma_ipv6_has_colon(host);
    }
}

pub open spec fn uri_char(c: char) -> bool {
    host_char(c) || c == ':' || c == '/' || c == '[' || c == ']'
}

proof fn lemma_uri_chars(scheme: Seq<char>, host: Seq<char>, port: u16)
    requires
        is_scheme(scheme),
        valid_host(host),
    ensures
        forall|i: int|
            0 <= i < uri_of(scheme, host, port).len() ==> uri_char(
                #[trigger] uri_of(scheme, host, port)[i],
            ),
{
    lemma_uri_shape(scheme, host, port);
    lemma_scheme_chars(scheme);
    lemma_host_chars(host);
    lemma_decimal_chars(port as nat);
    let uri = uri_shape(scheme, host, port);
    let n = scheme.len() as int;
    let m = host.len() as int;
    let d = decimal(port as nat);
    assert forall|i: int| 0 <= i < uri.len() implies uri_char(#[trigger] uri[i]) by {
        if i < n {
            assert(uri[i] == scheme[i]);
        } else if is_ipv6(host) {
            if n + 4 <= i < n + 4 + m {
                assert(uri[i] == host[i - n - 4]);
                assert(address_char(host[i - n - 4]));
            } else if i >= n + m + 6 {
                assert(uri[i] == d[i - n - m - 6]);
            }
        } else {
            if n + 3 <= i < n + 3 + m {
                assert(uri[i] == host[i - n - 3]);
                assert(host_char(host[i - n - 3]));
            } else if i >= n + m + 4 {
                assert(uri[i] == d[i - n - m - 4]);
            }
        }
    }
}

/// Every URI is a scheme, the planned host and the planned port.
pub proof fn law_uri_is_scheme_host_port(p: PlanView, c: Capability, env: HostCaps, uri: Seq<char>)
    requires
        route_of(p, c, env) == Ok::<RouteView, Seq<char>>(
            RouteView::Via { uri, creds: plan_creds(p) },
        ),
    ensures
        p !is Direct,
        is_scheme(scheme_of(p is Socks5, plan_creds(p) is Some, c)),
        uri == uri_of(
            scheme_of(p is Socks5, plan_creds(p) is Some, c),
            plan_host(p),
            plan_port(p),
        ),
{
}

/// The URI of a planned route is ASCII and holds no `@`, no `?`, no `#`, no
/// `%` and no control character: nothing in it can be read as credentials, a
/// query, a fragment or an escape.
pub proof fn law_uri_holds_no_delimiter(p: PlanView, c: Capability, env: HostCaps, uri: Seq<char>)
    requires
        planned(p),
        route_of(p, c, env) == Ok::<RouteView, Seq<char>>(
            RouteView::Via { uri, creds: plan_creds(p) },
        ),
    ensures
        ascii(uri),
        !uri.contains('@'),
        !uri.contains('?'),
        !uri.contains('#'),
        !uri.contains('%'),
        forall|i: int| 0 <= i < uri.len() ==> #[trigger] uri[i] > ' ',
{
    law_uri_is_scheme_host_port(p, c, env, uri);
    lemma_uri_chars(
        scheme_of(p is Socks5, plan_creds(p) is Some, c),
        plan_host(p),
        plan_port(p),
    );
    assert(forall|i: int| 0 <= i < uri.len() ==> uri_char(#[trigger] uri[i]));
}

/// A credential that is not ASCII occurs in no URI.
pub proof fn law_non_ascii_credential_is_never_in_the_uri(
    p: PlanView,
    c: Capability,
    env: HostCaps,
    uri: Seq<char>,
    secret: Seq<char>,
)
    requires
        planned(p),
        route_of(p, c, env) == Ok::<RouteView, Seq<char>>(
            RouteView::Via { uri, creds: plan_creds(p) },
        ),
        !ascii(secret),
    ensures
        !occurs(secret, uri),
{
    law_uri_holds_no_delimiter(p, c, env, uri);
    if occurs(secret, uri) {
        let i = choose|i: int|
            0 <= i <= uri.len() - secret.len() && #[trigger] uri.subrange(i, i + secret.len())
                == secret;
        let k = choose|k: int| 0 <= k < secret.len() && !(#[trigger] secret[k] <= '\u{7f}');
        assert(uri.subrange(i, i + secret.len())[k] == uri[i + k]);
    }
}

/// Whether `c` stands at place `i` of `s` and nowhere else.
pub open spec fn only_at(c: char, s: Seq<char>, i: int) -> bool {
    &&& 0 <= i < s.len()
    &&& s[i] == c
    &&& forall|j: int| 0 <= j < s.len() && j != i ==> #[trigger] s[j] != c
}

/// Whether `c` stands in `s` exactly once.
pub open spec fn once(c: char, s: Seq<char>) -> bool {
    exists|i: int| only_at(c, s, i)
}

/// An authority holds each bracket exactly once if its host is an IPv6 literal
/// and not at all otherwise, and it ends in the given port.
pub proof fn law_authority_is_bracketed_once_and_ends_in_the_port(host: Seq<char>, port: u16)
    requires
        valid_host(host),
    ensures
        is_ipv6(host) ==> once('[', authority_of(host, port)) && once(']', authority_of(host, port)),
        !is_ipv6(host) ==> !authority_of(host, port).contains('[') && !authority_of(
            host,
            port,
        ).contains(']'),
        ends_with(authority_of(host, port), seq![':'] + decimal(port as nat)),
{
    let text = authority_of(host, port);
    let d = decimal(port as nat);
    let m = host.len() as int;
    lemma_authority_shape(host, port);
    lemma_host_chars(host);
    lemma_decimal_chars(port as nat);
    if is_ipv6(host) {
        assert forall|i: int| 0 <= i < text.len() implies (#[trigger] text[i] == '[' ==> i == 0) && (
        text[i] == ']' ==> i == m + 1) by {
            if 0 < i <= m {
                assert(text[i] == host[i - 1]);
                assert(address_char(host[i - 1]));
            } else if i >= m + 3 {
                assert(text[i] == d[i - m - 3]);
            }
        }
        assert(only_at('[', text, 0));
        assert(only_at(']', text, m + 1));
    } else {
        assert forall|i: int| 0 <= i < text.len() implies #[trigger] text[i] != '[' && text[i]
            != ']' by {
            if i < m {
                assert(host_char(host[i]));
            } else if i > m {
                assert(text[i] == d[i - m - 1]);
            }
        }
    }
    let tail = seq![':'] + d;
    assert(text.subrange(text.len() - tail.len(), text.len() as int) =~= tail);
}

/// A URI is bracketed once if its host is an IPv6 literal and not at all
/// otherwise, and it ends in the given port.
pub proof fn law_uri_is_bracketed_once_and_ends_in_the_port(
    p: PlanView,
    c: Capability,
    env: HostCaps,
    uri: Seq<char>,
)
    requires
        planned(p),
        route_of(p, c, env) == Ok::<RouteView, Seq<char>>(
            RouteView::Via { uri, creds: plan_creds(p) },
        ),
    ensures
        !occurs(seq!['[', '['], uri),
        !occurs(seq![']', ']'], uri),
        is_ipv6(plan_host(p)) ==> once('[', uri) && once(']', uri),
        !is_ipv6(plan_host(p)) ==> !uri.contains('[') && !uri.contains(']'),
        ends_with(uri, seq![':'] + decimal(plan_port(p) as nat)),
{
    let scheme = scheme_of(p is Socks5, plan_creds(p) is Some, c);
    let host = plan_host(p);
    let d = decimal(plan_port(p) as nat);
    law_uri_is_scheme_host_port(p, c, env, uri);
    lemma_uri_shape(scheme, host, plan_port(p));
    lemma_scheme_chars(scheme);
    lemma_host_chars(host);
    lemma_decimal_chars(plan_port(p) as nat);
    let n = scheme.len() as int;
    let m = host.len() as int;
    assert forall|i: int|
        0 <= i < uri.len() && (#[trigger] uri[i] == '[' || uri[i] == ']') implies is_ipv6(host) && (
    uri[i] == '[' ==> i == n + 3) && (uri[i] == ']' ==> i == n + m + 4) by {
        if i < n {
            assert(uri[i] == scheme[i]);
        } else if is_ipv6(host) {
            if n + 4 <= i < n + 4 + m {
                assert(uri[i] == host[i - n - 4]);
                assert(address_char(host[i - n - 4]));
            } else if i >= n + m + 6 {
                assert(uri[i] == d[i - n - m - 6]);
            }
        } else {
            if n + 3 <= i < n + 3 + m {
                assert(uri[i] == host[i - n - 3]);
                assert(host_char(host[i - n - 3]));
            } else if i >= n + m + 4 {
                assert(uri[i] == d[i - n - m - 4]);
            }
        }
    }
    if is_ipv6(host) {
        assert(only_at('[', uri, n + 3));
        assert(only_at(']', uri, n + m + 4));
    }
    lemma_no_double(uri, '[', n + 3);
    lemma_no_double(uri, ']', n + m + 4);
    let tail = seq![':'] + d;
    assert(uri.subrange(uri.len() - tail.len(), uri.len() as int) =~= tail);
}

/// A character with one place is not doubled.
proof fn lemma_no_double(s: Seq<char>, b: char, place: int)
    requires
        forall|i: int| 0 <= i < s.len() && #[trigger] s[i] == b ==> i == place,
    ensures
        !occurs(seq![b, b], s),
{
    assert forall|i: int| 0 <= i <= s.len() - 2 implies #[trigger] s.subrange(i, i + 2) != seq![
        b,
        b,
    ] by {
        if s.subrange(i, i + 2) == seq![b, b] {
            assert(s.subrange(i, i + 2)[0] == s[i]);
            assert(s.subrange(i, i + 2)[1] == s[i + 1]);
        }
    }
    assert(seq![b, b].len() == 2);
}

/// A URI says one thing: two routes with the same URI use the same scheme, the
/// same host and the same port.
pub proof fn law_uri_is_unambiguous(
    p: PlanView,
    q: PlanView,
    c: Capability,
    e: Capability,
    env: HostCaps,
    uri: Seq<char>,
)
    requires
        planned(p),
        planned(q),
        route_of(p, c, env) == Ok::<RouteView, Seq<char>>(
            RouteView::Via { uri, creds: plan_creds(p) },
        ),
        route_of(q, e, env) == Ok::<RouteView, Seq<char>>(
            RouteView::Via { uri, creds: plan_creds(q) },
        ),
    ensures
        scheme_of(p is Socks5, plan_creds(p) is Some, c) == scheme_of(
            q is Socks5,
            plan_creds(q) is Some,
            e,
        ),
        plan_host(p) == plan_host(q),
        plan_port(p) == plan_port(q),
        p is Socks5 <==> q is Socks5,
{
    law_uri_is_scheme_host_port(p, c, env, uri);
    law_uri_is_scheme_host_port(q, e, env, uri);
    lemma_uri_injective(
        scheme_of(p is Socks5, plan_creds(p) is Some, c),
        plan_host(p),
        plan_port(p),
        scheme_of(q is Socks5, plan_creds(q) is Some, e),
        plan_host(q),
        plan_port(q),
    );
    reveal_strlit("http");
    reveal_strlit("socks5");
    reveal_strlit("socks5h");
}

proof fn lemma_uri_injective(
    s1: Seq<char>,
    h1: Seq<char>,
    p1: u16,
    s2: Seq<char>,
    h2: Seq<char>,
    p2: u16,
)
    requires
        is_scheme(s1),
        is_scheme(s2),
        valid_host(h1),
        valid_host(h2),
        uri_of(s1, h1, p1) == uri_of(s2, h2, p2),
    ensures
        s1 == s2,
        h1 == h2,
        p1 == p2,
{
    let slashes = seq!['/', '/'];
    let a1 = authority_of(h1, p1);
    let a2 = authority_of(h2, p2);
    lemma_uri_at_colon(s1, h1, p1);
    lemma_uri_at_colon(s2, h2, p2);
    lemma_scheme_chars(s1);
    lemma_scheme_chars(s2);
    lemma_split_once(s1, slashes + a1, s2, slashes + a2, ':');
    assert((slashes + a1).skip(2) =~= a1);
    assert((slashes + a2).skip(2) =~= a2);
    law_authority_is_unambiguous(h1, p1, h2, p2);
}

proof fn lemma_uri_at_colon(scheme: Seq<char>, host: Seq<char>, port: u16)
    ensures
        uri_of(scheme, host, port) == scheme + seq![':'] + (seq!['/', '/'] + authority_of(
            host,
            port,
        )),
{
    reveal_strlit("://");
    assert(uri_of(scheme, host, port) =~= scheme + seq![':'] + (seq!['/', '/'] + authority_of(
        host,
        port,
    )));
}

/// The characters of an authority, place by place.
spec fn authority_shape(host: Seq<char>, port: u16) -> Seq<char> {
    if is_ipv6(host) {
        seq!['['] + host + seq![']', ':'] + decimal(port as nat)
    } else {
        host + seq![':'] + decimal(port as nat)
    }
}

proof fn lemma_authority_shape(host: Seq<char>, port: u16)
    ensures
        authority_of(host, port) == authority_shape(host, port),
{
    reveal_strlit("[");
    reveal_strlit("]:");
    reveal_strlit(":");
    assert(authority_of(host, port) =~= authority_shape(host, port));
}

/// An authority says one thing: two hosts and ports that are written the same
/// are the same.
pub proof fn law_authority_is_unambiguous(h1: Seq<char>, p1: u16, h2: Seq<char>, p2: u16)
    requires
        valid_host(h1),
        valid_host(h2),
        authority_of(h1, p1) == authority_of(h2, p2),
    ensures
        h1 == h2,
        p1 == p2,
{
    lemma_authority_shape(h1, p1);
    lemma_authority_shape(h2, p2);
    lemma_bracket_shows(h1, p1);
    lemma_bracket_shows(h2, p2);
    if is_ipv6(h1) {
        lemma_bracketed_injective(h1, p1, h2, p2);
    } else {
        lemma_plain_injective(h1, p1, h2, p2);
    }
}

/// Whether the host is bracketed shows in the first character.
proof fn lemma_bracket_shows(host: Seq<char>, port: u16)
    requires
        valid_host(host),
    ensures
        authority_shape(host, port)[0] == '[' <==> is_ipv6(host),
{
    lemma_host_chars(host);
    if !is_ipv6(host) {
        assert(authority_shape(host, port)[0] == host[0]);
        assert(host_char(host[0]));
    }
}

proof fn lemma_bracketed_injective(h1: Seq<char>, p1: u16, h2: Seq<char>, p2: u16)
    requires
        is_ipv6(h1),
        is_ipv6(h2),
        authority_shape(h1, p1) == authority_shape(h2, p2),
    ensures
        h1 == h2,
        p1 == p2,
{
    lemma_ipv6_chars(h1);
    lemma_ipv6_chars(h2);
    let open = seq!['['];
    let y1 = seq![':'] + decimal(p1 as nat);
    let y2 = seq![':'] + decimal(p2 as nat);
    assert(authority_shape(h1, p1) =~= (open + h1) + seq![']'] + y1);
    assert(authority_shape(h2, p2) =~= (open + h2) + seq![']'] + y2);
    assert forall|i: int| 0 <= i < (open + h1).len() implies #[trigger] (open + h1)[i] != ']' by {
        if i >= 1 {
            assert(address_char(h1[i - 1]));
        }
    }
    assert forall|i: int| 0 <= i < (open + h2).len() implies #[trigger] (open + h2)[i] != ']' by {
        if i >= 1 {
            assert(address_char(h2[i - 1]));
        }
    }
    lemma_split_once(open + h1, y1, open + h2, y2, ']');
    assert((open + h1).skip(1) =~= h1);
    assert((open + h2).skip(1) =~= h2);
    assert(y1.skip(1) =~= decimal(p1 as nat));
    assert(y2.skip(1) =~= decimal(p2 as nat));
    lemma_decimal_injective(p1 as nat, p2 as nat);
}

proof fn lemma_plain_injective(h1: Seq<char>, p1: u16, h2: Seq<char>, p2: u16)
    requires
        valid_host(h1) && !is_ipv6(h1),
        valid_host(h2) && !is_ipv6(h2),
        authority_shape(h1, p1) == authority_shape(h2, p2),
    ensures
        h1 == h2,
        p1 == p2,
{
    assert forall|i: int| 0 <= i < h1.len() implies #[trigger] h1[i] != ':' by {
        assert(host_char(h1[i]));
    }
    assert forall|i: int| 0 <= i < h2.len() implies #[trigger] h2[i] != ':' by {
        assert(host_char(h2[i]));
    }
    lemma_split_once(h1, decimal(p1 as nat), h2, decimal(p2 as nat), ':');
    lemma_decimal_injective(p1 as nat, p2 as nat);
}

} // verus!
