//! The shared client: built for plans, held in a cell, replaced and ordered.
use sone_proxy::proxy::{plan, BlockReason, Capability, Creds, HostCaps, ProxyPlan, Route};
use sone_proxy::proxy_http::{
    attach_proxy, build_client, built_client, client_for_settings, ProxiedHttp,
};
use sone_proxy::settings::{ProxySettings, ProxyType};
use std::sync::{Arc, RwLock};

fn enabled(host: &str, port: u16) -> ProxySettings {
    ProxySettings {
        enabled: true,
        proxy_type: ProxyType::Http,
        host: host.to_string(),
        port,
        username: None,
        password: None,
    }
}

/// `Capability::Api` spells SOCKS5 as `socks5h`, and that is the scheme
/// reqwest resolves eagerly. See `unresolvable_proxy_host_*` below.
fn enabled_socks(host: &str, port: u16) -> ProxySettings {
    ProxySettings {
        proxy_type: ProxyType::Socks5,
        ..enabled(host, port)
    }
}

fn off() -> ProxySettings {
    ProxySettings {
        enabled: false,
        ..enabled("127.0.0.1", 3128)
    }
}

#[test]
fn direct_plan_yields_a_usable_client() {
    let caps = HostCaps::assume_all_present();
    let h = ProxiedHttp::from_plan(&ProxyPlan::Direct, &caps);
    assert!(h.client().is_ok());
}

#[test]
fn valid_proxy_plan_yields_a_usable_client() {
    let caps = HostCaps::assume_all_present();
    let p = plan(&enabled("127.0.0.1", 3128), &caps).unwrap();
    assert!(ProxiedHttp::from_plan(&p, &caps).client().is_ok());
}

#[test]
fn credentials_travel_beside_the_uri_not_inside_it() {
    let caps = HostCaps::assume_all_present();
    let mut s = enabled("127.0.0.1", 3128);
    s.username = Some("bob".into());
    s.password = Some("hunter2".into());
    let p = plan(&s, &caps).unwrap();

    // This is the exact string `build_client` hands to `reqwest::Proxy::all`.
    // Asserting the whole URI, not just the absence of a password, is what
    // makes this fail if credentials ever get folded into it.
    let route = p.route(Capability::Api, &caps).unwrap();
    let Route::Via { uri, creds } = route else {
        panic!("an enabled proxy must not route as NoProxy");
    };
    assert_eq!(uri, "http://127.0.0.1:3128");
    assert!(creds.is_some(), "credentials must arrive beside the uri");

    // Only `Proxy::basic_auth` reunites them with that endpoint.
    assert!(build_client(&p, &caps).is_ok());
}

#[test]
fn unresolvable_proxy_host_blocks_with_a_cause_instead_of_a_direct_client() {
    // reqwest resolves a socks5/socks5h proxy host when the client is
    // built, so this failure is invisible to plan() and must surface as a
    // BlockReason, never a proxy-less client. `.invalid` is reserved by
    // RFC 6761 and can never resolve, so the outcome does not depend on
    // which resolver (or none) the machine has.
    let caps = HostCaps::assume_all_present();
    let p = plan(&enabled_socks("no-such-host.invalid", 3128), &caps).unwrap();
    let err = ProxiedHttp::from_plan(&p, &caps).client().unwrap_err();
    assert!(!err.cause.is_empty());
    assert!(err.cause.contains("socks5h://no-such-host.invalid:3128"));
    // Name the failure, not just its existence: without reqwest's `socks`
    // feature `Proxy::all` still errors here, with "unknown proxy scheme",
    // and this test would stay green while real SOCKS5 support was gone.
    assert!(
        err.cause.contains("failed to lookup address"),
        "expected an eager resolution failure, got: {}",
        err.cause
    );
}

#[test]
fn an_unresolvable_http_proxy_still_yields_a_fully_proxied_client() {
    // Asymmetry worth pinning: reqwest defers the name lookup for an
    // `http://` proxy, so the build succeeds. That is still fail-closed —
    // the client intercepts every request, so it fails at the proxy rather
    // than reaching the network directly.
    let caps = HostCaps::assume_all_present();
    let p = plan(&enabled("no-such-host.invalid", 3128), &caps).unwrap();
    let c = ProxiedHttp::from_plan(&p, &caps).client().unwrap();
    assert!(format!("{c:?}").contains("All(http://no-such-host.invalid:3128)"));
}

#[test]
fn replace_swaps_the_cell_without_reconstructing_consumers() {
    let caps = HostCaps::assume_all_present();
    let h = Arc::new(RwLock::new(ProxiedHttp::from_plan(&ProxyPlan::Direct, &caps)));
    let clone = h.clone();
    let p = plan(&enabled_socks("no-such-host.invalid", 3128), &caps).unwrap();
    h.write().unwrap().replace(&p, &caps);
    // The clone observes the new state: there is one cell, not two clients.
    assert!(clone.read().unwrap().client().is_err());
}

#[test]
fn a_client_carries_the_timeout_and_the_proxy() {
    let caps = HostCaps::assume_all_present();
    let mut s = enabled("127.0.0.1", 3128);
    s.username = Some("bob".into());
    s.password = Some("hunter2".into());
    let with = build_client(&plan(&s, &caps).unwrap(), &caps).unwrap();
    let text = format!("{with:?}");
    assert!(text.contains("All(http://127.0.0.1:3128)"), "{text}");
    assert!(text.contains("timeout: 30s"), "{text}");

    let without = build_client(&plan(&enabled("127.0.0.1", 3128), &caps).unwrap(), &caps).unwrap();
    let direct = build_client(&ProxyPlan::Direct, &caps).unwrap();
    assert!(format!("{without:?}").contains("All(http://127.0.0.1:3128)"));
    assert!(!format!("{direct:?}").contains("127.0.0.1"));
    assert!(format!("{direct:?}").contains("timeout: 30s"));
}

#[test]
fn an_ipv6_proxy_is_bracketed_in_the_client() {
    let caps = HostCaps::assume_all_present();
    let p = plan(&enabled("::1", 3128), &caps).unwrap();
    let c = build_client(&p, &caps).unwrap();
    assert!(format!("{c:?}").contains("All(http://[::1]:3128)"), "{c:?}");
}

#[test]
fn a_refused_proxy_names_the_uri_and_the_cause() {
    let made = reqwest::Proxy::all("ftp://nowhere");
    let words = format!("{}", made.as_ref().unwrap_err());
    let block = attach_proxy(reqwest::Client::builder(), "ftp://nowhere", None, made).unwrap_err();
    assert_eq!(block.cause, format!("proxy unusable (ftp://nowhere): {words}"));
    assert!(words.contains("unknown proxy scheme"), "{words}");
}

#[test]
fn an_accepted_proxy_goes_into_the_builder_with_its_credentials() {
    let creds = Creds {
        user: "bob".into(),
        pass: "hunter2".into(),
    };
    let made = reqwest::Proxy::all("http://127.0.0.1:1");
    let builder = attach_proxy(
        reqwest::Client::builder(),
        "http://127.0.0.1:1",
        Some(creds),
        made,
    )
    .unwrap();
    let c = built_client(builder.build()).unwrap();
    assert!(format!("{c:?}").contains("All(http://127.0.0.1:1)"));
}

#[test]
fn a_failed_build_names_the_cause() {
    let broken = reqwest::Client::builder().user_agent("bad\nagent").build();
    let words = format!("{}", broken.as_ref().unwrap_err());
    let block = built_client(broken).unwrap_err();
    assert_eq!(block.cause, format!("could not build HTTP client: {words}"));
}

#[test]
fn settings_that_form_no_plan_block_with_their_reason() {
    let caps = HostCaps::assume_all_present();
    let err = client_for_settings(&enabled("127.0.0.1", 0), &caps).unwrap_err();
    assert_eq!(err, BlockReason::new("proxy port must not be 0".to_string()));
    let err = client_for_settings(&enabled("ho st", 1), &caps).unwrap_err();
    assert_eq!(err.to_string(), "invalid proxy host: ho st");
    assert!(client_for_settings(&off(), &caps).is_ok());
}

#[test]
fn the_highest_claim_wins_whichever_build_finishes_last() {
    let caps = HostCaps::assume_all_present();
    let mut h = ProxiedHttp::from_plan(&ProxyPlan::Direct, &caps);
    let first = h.claim();
    let second = h.claim();
    assert_eq!((first, second), (1, 2));
    h.apply_at(second, &enabled("127.0.0.1", 3128), &caps).unwrap();
    // The earlier save finishes late: it must not take the proxy out again.
    h.apply_at(first, &off(), &caps).unwrap();
    let c = h.client().unwrap();
    assert!(format!("{c:?}").contains("All(http://127.0.0.1:3128)"), "{c:?}");
}

#[test]
fn updates_in_order_each_land() {
    let caps = HostCaps::assume_all_present();
    let mut h = ProxiedHttp::from_plan(&ProxyPlan::Direct, &caps);
    let first = h.claim();
    let second = h.claim();
    h.apply_at(first, &enabled("127.0.0.1", 3128), &caps).unwrap();
    assert!(format!("{:?}", h.client().unwrap()).contains("All(http://127.0.0.1:3128)"));
    h.apply_at(second, &off(), &caps).unwrap();
    assert!(!format!("{:?}", h.client().unwrap()).contains("127.0.0.1"));
}

#[test]
fn a_replacement_outranks_the_claims_before_it() {
    let caps = HostCaps::assume_all_present();
    let mut h = ProxiedHttp::from_plan(&ProxyPlan::Direct, &caps);
    let early = h.claim();
    h.put(Err(BlockReason::new("stopped".to_string())));
    h.apply_at(early, &off(), &caps).unwrap();
    assert_eq!(h.client().unwrap_err().cause, "stopped");
    assert_eq!(h.claim(), 3);
}

#[test]
fn a_late_block_is_reported_and_changes_nothing() {
    let caps = HostCaps::assume_all_present();
    let mut h = ProxiedHttp::from_plan(&ProxyPlan::Direct, &caps);
    let early = h.claim();
    let late = h.claim();
    h.apply_at(late, &off(), &caps).unwrap();
    let said = h.apply_at(early, &enabled("", 1), &caps).unwrap_err();
    assert_eq!(said.cause, "invalid proxy host: ");
    assert!(h.client().is_ok());
}

#[test]
fn a_client_handed_out_is_the_client_held() {
    let caps = HostCaps::assume_all_present();
    let p = plan(&enabled("127.0.0.1", 3128), &caps).unwrap();
    let h = ProxiedHttp::from_plan(&p, &caps);
    assert_eq!(format!("{:?}", h.client()), format!("{:?}", h.client()));
}

#[test]
fn a_proxy_at_an_address_always_applies() {
    let caps = HostCaps::assume_all_present();
    for host in ["127.0.0.1", "0.0.0.0", "255.255.255.255", "::", "::1", "1::", "2001:DB8::0a"] {
        for port in [1, 80, 1080, 65535] {
            for s in [enabled(host, port), enabled_socks(host, port)] {
                let c = client_for_settings(&s, &caps);
                assert!(c.is_ok(), "{s:?}: {c:?}");
            }
        }
    }
    for host in ["1:2:3:4:5:6:7::", "::2:3:4:5:6:7:8", "1:2:3:4:5:6:1.2.3.4", "1:2:3:4:5::1.2.3.4"] {
        for s in [enabled(host, 3128), enabled_socks(host, 3128)] {
            assert!(client_for_settings(&s, &caps).is_ok(), "{s:?}");
        }
    }
    let c = client_for_settings(&enabled_socks("127.0.0.1", 1080), &caps).unwrap();
    assert!(format!("{c:?}").contains("socks5h://127.0.0.1:1080"), "{c:?}");
}

#[test]
fn an_http_proxy_that_reqwest_refuses_is_a_block_with_its_uri() {
    // A valid host field that is no host of a URL: it ends in a number, and is
    // no IPv4 address.
    let caps = HostCaps::assume_all_present();
    let p = plan(&enabled("999.999.999.999", 3128), &caps).unwrap();
    for _ in 0..2 {
        let err = build_client(&p, &caps).unwrap_err();
        let words = format!("{}", reqwest::Proxy::all("http://999.999.999.999:3128").unwrap_err());
        assert_eq!(
            err.cause,
            format!("proxy unusable (http://999.999.999.999:3128): {words}")
        );
    }
}

#[test]
fn an_http_proxy_with_a_plain_name_always_applies() {
    let caps = HostCaps::assume_all_present();
    let longest = "a".repeat(253);
    for host in [
        "localhost",
        "proxy.example",
        "proxy.example.",
        "no-such-host.invalid",
        "p1.x2-3.lan",
        "a",
        "x0",
        "xn",
        longest.as_str(),
    ] {
        for port in [1, 80, 65535] {
            let c = client_for_settings(&enabled(host, port), &caps);
            assert!(c.is_ok(), "{host}:{port}: {c:?}");
        }
    }
}
