//! Plans and routes, on the settings a user may enter.
use sone_proxy::proxy::{plan, Capability, Creds, HostCaps, PlanError, ProxyPlan, Route};
use sone_proxy::settings::{ProxySettings, ProxyType};

fn settings(host: &str, port: u16) -> ProxySettings {
    ProxySettings {
        enabled: true,
        proxy_type: ProxyType::Http,
        host: host.to_string(),
        port,
        username: None,
        password: None,
    }
}

#[test]
fn disabled_is_direct() {
    let mut s = settings("127.0.0.1", 8080);
    s.enabled = false;
    assert!(matches!(
        plan(&s, &HostCaps::assume_all_present()),
        Ok(ProxyPlan::Direct)
    ));
}

#[test]
fn port_zero_is_an_error_not_direct() {
    // Resolving this to Direct would be fail-open.
    assert!(matches!(
        plan(&settings("127.0.0.1", 0), &HostCaps::assume_all_present()),
        Err(PlanError::PortZero)
    ));
}

#[test]
fn plain_host_is_accepted() {
    let p = plan(&settings("proxy.example", 3128), &HostCaps::assume_all_present()).unwrap();
    assert!(matches!(p, ProxyPlan::Http { ref host, port: 3128, .. } if host == "proxy.example"));
}

#[test]
fn host_is_trimmed() {
    let p = plan(&settings("  proxy.example  ", 3128), &HostCaps::assume_all_present()).unwrap();
    assert!(matches!(p, ProxyPlan::Http { ref host, .. } if host == "proxy.example"));
}

#[test]
fn bare_ipv6_is_accepted_and_stored_unbracketed() {
    let p = plan(&settings("2001:db8::1", 8080), &HostCaps::assume_all_present()).unwrap();
    assert!(matches!(p, ProxyPlan::Http { ref host, .. } if host == "2001:db8::1"));
}

#[test]
fn already_bracketed_ipv6_is_rejected() {
    // Double-bracketing core-dumps souphttpsrc, so it must never reach an element.
    assert!(matches!(
        plan(&settings("[::1]", 8080), &HostCaps::assume_all_present()),
        Err(PlanError::BracketedHost)
    ));
}

#[test]
fn host_with_embedded_port_is_rejected() {
    assert!(matches!(
        plan(&settings("1.2.3.4:9999", 8080), &HostCaps::assume_all_present()),
        Err(PlanError::EmbeddedPort)
    ));
}

#[test]
fn ipv6_scope_id_is_rejected() {
    assert!(matches!(
        plan(&settings("fe80::1%eth0", 8080), &HostCaps::assume_all_present()),
        Err(PlanError::BadHost(_))
    ));
}

#[test]
fn non_ascii_host_is_rejected() {
    assert!(matches!(
        plan(&settings("пример.рф", 8080), &HostCaps::assume_all_present()),
        Err(PlanError::NonAsciiHost)
    ));
}

#[test]
fn url_ish_and_delimiter_hosts_are_rejected() {
    for bad in ["http://proxy.example", "user@proxy", "pro?xy", "pro#xy", "", "   "] {
        assert!(
            plan(&settings(bad, 8080), &HostCaps::assume_all_present()).is_err(),
            "expected {bad:?} to be rejected"
        );
    }
}

#[test]
fn credentials_are_captured_with_empty_password_preserved() {
    let mut s = settings("proxy.example", 3128);
    s.username = Some("bob".into());
    s.password = Some(String::new());
    let p = plan(&s, &HostCaps::assume_all_present()).unwrap();
    match p {
        ProxyPlan::Http { creds: Some(c), .. } => {
            assert_eq!(c.user, "bob");
            assert_eq!(c.pass, "");
        }
        _ => panic!("expected creds"),
    }
}

#[test]
fn username_without_password_still_yields_creds() {
    // souphttpsrc needs BOTH properties set; an absent password becomes empty,
    // never a missing credential pair.
    let mut s = settings("proxy.example", 3128);
    s.username = Some("bob".into());
    s.password = None;
    assert!(matches!(
        plan(&s, &HostCaps::assume_all_present()),
        Ok(ProxyPlan::Http { creds: Some(_), .. })
    ));
}

#[test]
fn password_without_username_is_no_credentials() {
    let mut s = settings("proxy.example", 3128);
    s.username = None;
    s.password = Some("hunter2".into());
    assert!(matches!(
        plan(&s, &HostCaps::assume_all_present()),
        Ok(ProxyPlan::Http { creds: None, .. })
    ));
}

#[test]
fn socks5_type_is_preserved() {
    let mut s = settings("proxy.example", 1080);
    s.proxy_type = ProxyType::Socks5;
    s.username = Some("bob".into());
    s.password = Some("hunter2".into());
    let p = plan(&s, &HostCaps::assume_all_present()).unwrap();
    match p {
        ProxyPlan::Socks5 { host, port, creds } => {
            assert_eq!(host, "proxy.example");
            assert_eq!(port, 1080);
            let c = creds.expect("expected creds to survive on the Socks5 arm");
            assert_eq!(c.user, "bob");
            assert_eq!(c.pass, "hunter2");
        }
        _ => panic!("expected Socks5"),
    }
}

#[test]
fn nul_byte_host_is_rejected() {
    // ToGlibPtr for str only checks interior NULs under debug_assertions;
    // in release the host is silently truncated at the NUL, so the
    // element ends up contacting a different host than was validated.
    assert!(matches!(
        plan(
            &settings("evil.com\0.good.proxy", 8080),
            &HostCaps::assume_all_present()
        ),
        Err(PlanError::BadHost(_))
    ));
}

#[test]
fn control_character_host_is_rejected() {
    for bad in ["pro\x07xy", "a\x1bb.com", "a\x7fb.com"] {
        assert!(
            matches!(
                plan(&settings(bad, 8080), &HostCaps::assume_all_present()),
                Err(PlanError::BadHost(_))
            ),
            "expected {bad:?} to be rejected"
        );
    }
}

#[test]
fn percent_encoded_host_is_rejected() {
    // Unfiltered `%` lets a downstream percent-decoder reach a different
    // host than the one validated here.
    for bad in ["good.proxy%00.evil.com", "pro%40evil.com", "evil%2ecom"] {
        assert!(
            matches!(
                plan(&settings(bad, 8080), &HostCaps::assume_all_present()),
                Err(PlanError::BadHost(_))
            ),
            "expected {bad:?} to be rejected"
        );
    }
}

#[test]
fn delimiter_hosts_are_rejected() {
    for bad in [
        "a,b.com", "a;b.com", "a|b.com", "a<b>.com", "a\"b.com", "a`b.com", "a*b.com",
        "a{b}.com", "a[b", "a]b.com",
    ] {
        assert!(
            plan(&settings(bad, 8080), &HostCaps::assume_all_present()).is_err(),
            "expected {bad:?} to be rejected"
        );
    }
}

#[test]
fn creds_debug_redacts_password() {
    let c = Creds {
        user: "bob".into(),
        pass: "hunter2".into(),
    };
    let debug = c.debug_text();
    assert!(debug.contains("bob"));
    assert!(!debug.contains("hunter2"));
}

fn http_plan(port: u16) -> ProxyPlan {
    plan(&settings("proxy.example", port), &HostCaps::assume_all_present()).unwrap()
}

fn socks_plan(with_creds: bool) -> ProxyPlan {
    let mut s = settings("proxy.example", 1080);
    s.proxy_type = ProxyType::Socks5;
    if with_creds {
        s.username = Some("bob".into());
        s.password = Some("hunter2".into());
    }
    plan(&s, &HostCaps::assume_all_present()).unwrap()
}

fn authed_plan(port: u16) -> ProxyPlan {
    let mut s = settings("proxy.example", port);
    s.username = Some("bob".into());
    s.password = Some("hunter2".into());
    plan(&s, &HostCaps::assume_all_present()).unwrap()
}

fn uri_of(r: &Route) -> &str {
    match r {
        Route::Via { uri, .. } => uri,
        Route::NoProxy => panic!("expected a proxied route"),
    }
}

#[test]
fn direct_routes_to_noproxy_for_every_capability() {
    let caps = HostCaps::assume_all_present();
    for c in [Capability::Api, Capability::Lossy, Capability::Dash, Capability::Webview] {
        assert!(matches!(
            ProxyPlan::Direct.route(c, &caps),
            Ok(Route::NoProxy)
        ));
    }
}

#[test]
fn port_80_is_preserved_for_every_capability() {
    // Round-tripping through url::Url would drop a default port, and libcurl
    // would then silently dial 1080.
    let caps = HostCaps::assume_all_present();
    let p = http_plan(80);
    for c in [Capability::Api, Capability::Lossy, Capability::Dash, Capability::Webview] {
        let r = p.route(c, &caps).unwrap();
        assert_eq!(uri_of(&r), "http://proxy.example:80", "capability {c:?}");
    }
}

#[test]
fn every_port_round_trips_exactly() {
    let caps = HostCaps::assume_all_present();
    for port in [1u16, 80, 443, 1080, 8080, 65535] {
        let r = http_plan(port).route(Capability::Api, &caps).unwrap();
        assert_eq!(uri_of(&r), format!("http://proxy.example:{port}"));
    }
}

#[test]
fn ipv6_is_bracketed_exactly_once_in_the_uri() {
    let caps = HostCaps::assume_all_present();
    let p = plan(&settings("2001:db8::1", 8080), &caps).unwrap();
    let r = p.route(Capability::Lossy, &caps).unwrap();
    assert_eq!(uri_of(&r), "http://[2001:db8::1]:8080");
}

#[test]
fn socks5_spellings_without_credentials_cover_every_capability() {
    // The spelling keys on the resolving library, never on the capability
    // alone. Unauthenticated audio goes through the soup source (gio), and
    // gio implements socks5 only — its socks5 already sends the hostname.
    // reqwest resolves locally unless told socks5h.
    let caps = HostCaps::assume_all_present();
    let p = socks_plan(false);
    for (c, want) in [
        (Capability::Api, "socks5h://proxy.example:1080"),
        (Capability::Webview, "socks5://proxy.example:1080"),
        (Capability::Lossy, "socks5://proxy.example:1080"),
        (Capability::Dash, "socks5://proxy.example:1080"),
    ] {
        assert_eq!(uri_of(&p.route(c, &caps).unwrap()), want, "capability {c:?}");
    }
}

#[test]
fn socks5_spellings_with_credentials_cover_every_capability() {
    // Credentials flip both audio capabilities onto the curl source, which
    // is libcurl and so resolves locally unless told socks5h. Webview still
    // goes through gio and must stay socks5, or it reaches NO GProxy IMPL.
    let caps = HostCaps::assume_all_present();
    let p = socks_plan(true);
    for (c, want) in [
        (Capability::Api, "socks5h://proxy.example:1080"),
        (Capability::Webview, "socks5://proxy.example:1080"),
        (Capability::Lossy, "socks5h://proxy.example:1080"),
        (Capability::Dash, "socks5h://proxy.example:1080"),
    ] {
        assert_eq!(uri_of(&p.route(c, &caps).unwrap()), want, "capability {c:?}");
    }
}

#[test]
fn http_plans_are_http_for_every_capability_regardless_of_credentials() {
    let caps = HostCaps::assume_all_present();
    for p in [http_plan(3128), authed_plan(3128)] {
        for c in [
            Capability::Api,
            Capability::Webview,
            Capability::Lossy,
            Capability::Dash,
        ] {
            assert_eq!(
                uri_of(&p.route(c, &caps).unwrap()),
                "http://proxy.example:3128",
                "capability {c:?}"
            );
        }
    }
}

#[test]
fn no_route_uri_ever_contains_credentials() {
    let caps = HostCaps::assume_all_present();
    let p = authed_plan(3128);
    for c in [Capability::Api, Capability::Lossy, Capability::Dash, Capability::Webview] {
        let r = p.route(c, &caps).unwrap();
        let uri = uri_of(&r);
        assert!(!uri.contains('@'), "{uri}");
        assert!(!uri.contains("bob"), "{uri}");
        assert!(!uri.contains("hunter2"), "{uri}");
        assert!(matches!(r, Route::Via { creds: Some(_), .. }));
    }
}

fn block_cause(p: &ProxyPlan, c: Capability, env: &HostCaps) -> String {
    match p.route(c, env) {
        Err(b) => b.cause,
        Ok(_) => panic!("expected {c:?} to be blocked"),
    }
}

#[test]
fn socks5_with_credentials_needs_curlhttpsrc_for_audio() {
    let mut caps = HostCaps::assume_all_present();
    caps.has_curlhttpsrc = false;
    let p = socks_plan(true);
    for c in [Capability::Lossy, Capability::Dash] {
        let cause = block_cause(&p, c, &caps);
        assert!(cause.contains("SOCKS5"), "capability {c:?}: {cause}");
    }
    // The API transport is unaffected by a missing GStreamer plugin.
    assert!(p.route(Capability::Api, &caps).is_ok());
}

#[test]
fn authenticated_socks5_audio_fails_closed_even_if_the_earlier_guard_is_bypassed() {
    // Going on here would yield a socks5h URI for a gio-backed source instead
    // of a block — a wrong scheme, which is a DNS leak rather than a clean
    // failure.
    let mut caps = HostCaps::assume_all_present();
    caps.has_curlhttpsrc = false;
    let p = socks_plan(true);
    for c in [Capability::Lossy, Capability::Dash] {
        assert_eq!(
            block_cause(&p, c, &caps),
            "authenticated SOCKS5 audio requires the curl source plugin",
            "capability {c:?} must fail closed"
        );
    }
}

#[test]
fn http_with_credentials_needs_curlhttpsrc_for_audio() {
    // Mirror of the SOCKS5 case: both branches must stay reachable and must
    // not share a message, or the SOCKS5 wording silently stops firing.
    let mut caps = HostCaps::assume_all_present();
    caps.has_curlhttpsrc = false;
    let p = authed_plan(3128);
    for c in [Capability::Lossy, Capability::Dash] {
        let cause = block_cause(&p, c, &caps);
        assert!(!cause.contains("SOCKS5"), "capability {c:?}: {cause}");
        assert!(cause.contains("curl source plugin"), "capability {c:?}: {cause}");
    }
    assert!(p.route(Capability::Api, &caps).is_ok());
}

#[test]
fn socks5_without_credentials_works_without_curlhttpsrc() {
    let mut caps = HostCaps::assume_all_present();
    caps.has_curlhttpsrc = false;
    assert!(socks_plan(false).route(Capability::Lossy, &caps).is_ok());
}

#[test]
fn missing_legacy_demuxer_blocks_dash_but_not_lossy() {
    let mut caps = HostCaps::assume_all_present();
    caps.has_dashdemux = false;
    let p = http_plan(3128);
    let cause = block_cause(&p, Capability::Dash, &caps);
    assert!(cause.contains("adaptive demuxer"), "{cause}");
    assert!(p.route(Capability::Lossy, &caps).is_ok());
    assert!(p.route(Capability::Api, &caps).is_ok());
}

// Load-bearing jointly with `curl_seek_version_boundary_is_exact`: the
// substring assertion below is also satisfied by a constant of (1, 26, 101),
// which only the boundary test rejects. Deleting either weakens the pair.
#[test]
fn old_gstreamer_blocks_lossy_only_when_credentials_are_present() {
    // curlhttpsrc progressive seek is broken below 1.26.10 and it is the only
    // element that can authenticate over a CONNECT tunnel.
    let mut caps = HostCaps::assume_all_present();
    caps.gst_version = (1, 24, 2);

    let with_creds = authed_plan(3128);
    let cause = block_cause(&with_creds, Capability::Lossy, &caps);
    assert!(cause.contains("1.26.10"), "{cause}");
    assert!(cause.contains("1.24.2"), "{cause}");
    assert!(with_creds.route(Capability::Dash, &caps).is_ok());

    let without = http_plan(3128);
    assert!(without.route(Capability::Lossy, &caps).is_ok());
}

// The other half of that pair: this is what catches a (1, 26, 101) constant
// that the substring assertions above would happily accept.
#[test]
fn curl_seek_version_boundary_is_exact() {
    // A far-away version alone would not tell (1,26,0) from the real boundary.
    // Pin both sides of it.
    let p = authed_plan(3128);

    let mut just_below = HostCaps::assume_all_present();
    just_below.gst_version = (1, 26, 9);
    let cause = block_cause(&p, Capability::Lossy, &just_below);
    assert!(cause.contains("1.26.9"), "{cause}");

    let mut exactly_fixed = HostCaps::assume_all_present();
    exactly_fixed.gst_version = (1, 26, 10);
    assert!(p.route(Capability::Lossy, &exactly_fixed).is_ok());
}
