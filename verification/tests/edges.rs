//! Edges: host fields, IPv6 literals, white space, files, artwork, start-up.
use sone_proxy::app_state::SoneError;
use sone_proxy::files::{
    get_enable_logging, log_folder_created, log_folder_launched, logging_toggle_path,
    open_log_folder, set_enable_logging, toggle_dir_failed, toggle_write_failed,
};
use sone_proxy::image::{get_image_bytes, image_cached, image_fetched, CacheResult, ImageStep};
use sone_proxy::ipv6::parses_as_ipv6;
use sone_proxy::proxy::{
    authority, plan, validate_host, BlockReason, Capability, Creds, HostCaps, PlanError, ProxyPlan,
    Route,
};
use sone_proxy::proxy_http::ProxiedHttp;
use sone_proxy::settings::{ProxySettings, ProxyType};
use sone_proxy::startup::{disable_dmabuf_renderer, gst_plugin_path, nvidia_loaded, plugin_dirs};
use sone_proxy::text::{append_decimal, is_white, same_text, trim};

fn settings(host: &str, port: u16) -> ProxySettings {
    ProxySettings {
        enabled: true,
        proxy_type: ProxyType::Http,
        host: host.to_string(),
        port,
        username: None,
        password: None,
    }
}

fn host_error(host: &str) -> Option<PlanError> {
    plan(&settings(host, 8080), &HostCaps::assume_all_present()).err()
}

#[test]
fn every_fault_of_a_host_has_its_own_error_and_text() {
    for (host, error, text) in [
        (" ho st ", PlanError::BadHost(" ho st ".to_string()), "invalid proxy host:  ho st "),
        ("", PlanError::BadHost(String::new()), "invalid proxy host: "),
        ("\t \n", PlanError::BadHost("\t \n".to_string()), "invalid proxy host: \t \n"),
        ("é", PlanError::NonAsciiHost, "proxy host must be ASCII"),
        ("[é", PlanError::NonAsciiHost, "proxy host must be ASCII"),
        ("a]", PlanError::BracketedHost, "enter an IPv6 address without brackets"),
        ("[", PlanError::BracketedHost, "enter an IPv6 address without brackets"),
        ("[a:1", PlanError::BracketedHost, "enter an IPv6 address without brackets"),
        (":", PlanError::EmbeddedPort, "enter the host without a port; use the port field"),
        ("a b:1", PlanError::EmbeddedPort, "enter the host without a port; use the port field"),
        ("a:b:c", PlanError::BadHost("a:b:c".to_string()), "invalid proxy host: a:b:c"),
        (":::", PlanError::BadHost(":::".to_string()), "invalid proxy host: :::"),
    ] {
        let got = host_error(host).expect("must be refused");
        assert_eq!(got, error, "{host:?}");
        assert_eq!(got.to_string(), text, "{host:?}");
        assert_eq!(got.clone(), error);
    }
    let zero = plan(&settings("[é", 0), &HostCaps::assume_all_present()).err();
    assert_eq!(zero, Some(PlanError::PortZero));
    assert_eq!(zero.unwrap().to_string(), "proxy port must not be 0");
}

#[test]
fn plain_hosts_of_every_kind_are_accepted() {
    for host in ["a", "A-b_c.9", "127.0.0.1", "-", "...", "_", "localhost", "::", "::1"] {
        assert_eq!(host_error(host), None, "{host:?}");
    }
}

#[test]
fn an_enabled_proxy_is_never_direct() {
    for host in ["", "a", "[::1]", "::1", "a:1", "é", "x y"] {
        for port in [0, 1, 65535] {
            assert!(!matches!(
                plan(&settings(host, port), &HostCaps::assume_all_present()),
                Ok(ProxyPlan::Direct)
            ));
        }
    }
}

#[test]
fn white_space_around_a_host_changes_nothing() {
    let caps = HostCaps::assume_all_present();
    let plain = plan(&settings("proxy.example", 1), &caps).unwrap();
    for host in [" proxy.example", "proxy.example\u{3000}", "\u{a0}\tproxy.example\u{2028}\r\n"] {
        assert!(plan(&settings(host, 1), &caps).unwrap() == plain, "{host:?}");
    }
    // A zero-width space is no white space.
    assert_eq!(host_error("proxy.example\u{200b}"), Some(PlanError::NonAsciiHost));
}

#[test]
fn user_names_are_trimmed_and_passwords_are_not() {
    let caps = HostCaps::assume_all_present();
    let mut s = settings("h", 1);
    s.username = Some(" bob\t".to_string());
    s.password = Some(" pw ".to_string());
    let want = Creds {
        user: "bob".to_string(),
        pass: " pw ".to_string(),
    };
    match plan(&s, &caps).unwrap() {
        ProxyPlan::Http { creds, .. } => assert!(creds == Some(want.clone())),
        _ => panic!("an HTTP proxy was asked for"),
    }
    s.username = Some(" \u{3000} ".to_string());
    assert!(matches!(plan(&s, &caps), Ok(ProxyPlan::Http { creds: None, .. })));
    assert_eq!(want.debug_text(), "Creds { user: \"bob\", pass: \"***\" }");
    let odd = Creds {
        user: "a\"\n".to_string(),
        pass: String::new(),
    };
    assert_eq!(odd.debug_text(), "Creds { user: \"a\\\"\\n\", pass: \"***\" }");
}

#[test]
fn which_credentials_they_are_never_shows_in_the_uri() {
    let caps = HostCaps::assume_all_present();
    let mut uris = Vec::new();
    for (user, pass) in [("bob", "hunter2"), ("proxy.example", "8080"), ("пользователь", "@:/")] {
        let mut s = settings("proxy.example", 8080);
        s.username = Some(user.to_string());
        s.password = Some(pass.to_string());
        match plan(&s, &caps).unwrap().route(Capability::Dash, &caps).unwrap() {
            Route::Via { uri, creds } => {
                assert!(creds.unwrap().user == user);
                assert!(uri.is_ascii() && !uri.contains('@'));
                uris.push(uri);
            }
            Route::NoProxy => panic!("an enabled proxy must not route as NoProxy"),
        }
    }
    assert_eq!(uris, ["http://proxy.example:8080"; 3]);
}

#[test]
fn blocks_name_what_is_missing() {
    let mut s = settings("h", 1);
    s.username = Some("bob".to_string());
    let mut host = HostCaps::assume_all_present();
    assert_eq!(host.gst_version, (1, 26, 10));
    let p = plan(&s, &host).unwrap();
    host.gst_version = (1, 24, 2);
    assert_eq!(
        p.route(Capability::Lossy, &host).err().unwrap().to_string(),
        "authenticated proxies need GStreamer 1.26.10 or newer for seeking (found 1.24.2)"
    );
    host.gst_version = (2, 0, 0);
    assert!(p.route(Capability::Lossy, &host).is_ok());
    host.gst_version = (0, 4294967295, 0);
    assert_eq!(
        p.route(Capability::Lossy, &host).err().unwrap().cause,
        "authenticated proxies need GStreamer 1.26.10 or newer for seeking (found 0.4294967295.0)"
    );
    host.has_dashdemux = false;
    assert_eq!(
        p.route(Capability::Dash, &host).err().unwrap().cause,
        "high-resolution audio cannot be proxied: the legacy adaptive demuxer is missing"
    );
    // A missing curl source comes before a missing demuxer.
    host.has_curlhttpsrc = false;
    assert_eq!(
        p.route(Capability::Dash, &host).err().unwrap().cause,
        "audio cannot be proxied with credentials: the curl source plugin is missing"
    );
    assert!(p.route(Capability::Webview, &host).is_ok());
    assert!(ProxyPlan::Direct.route(Capability::Dash, &host).is_ok());
}

#[test]
fn plans_and_routes_clone_to_equals() {
    let caps = HostCaps::assume_all_present();
    let mut s = settings("h", 1);
    s.username = Some("bob".to_string());
    for kind in [ProxyType::Http, ProxyType::Socks5] {
        s.proxy_type = kind;
        let p = plan(&s, &caps).unwrap();
        assert!(p.clone() == p);
        let r = p.route(Capability::Api, &caps).unwrap();
        assert!(r.clone() == r);
    }
    assert!(ProxyPlan::Direct.clone() == ProxyPlan::Direct);
    assert!(Route::NoProxy.clone() == Route::NoProxy);
}

#[test]
fn ipv6_literals_are_told_from_the_rest() {
    for good in [
        "::",
        "::1",
        "1::",
        "1:2:3:4:5:6:7:8",
        "1:2:3:4:5:6:7::",
        "::2:3:4:5:6:7:8",
        "1::8",
        "0000:00a0:FfFf::dead:beef",
        "2001:db8::1",
        "::1.2.3.4",
        "::ffff:192.168.0.1",
        "1:2:3:4:5:6:1.2.3.4",
        "1::1.2.3.4",
        "1:2:3:4:5::1.2.3.4",
        "::255.255.255.255",
        "::0.0.0.0",
    ] {
        assert!(parses_as_ipv6(good), "{good}");
        assert_eq!(host_error(good), None, "{good}");
    }
    for bad in [
        "",
        ":",
        ":::",
        "1",
        "1.2.3.4",
        "1:2:3:4:5:6:7",
        "1:2:3:4:5:6:7:8:9",
        "1:2:3:4:5:6:7:8::",
        "::1:2:3:4:5:6:7:8",
        "1:2:3:4::5:6:7:8",
        "1::2::3",
        "12345::",
        "::g",
        "1:",
        ":1",
        "1:2:",
        "::1%eth0",
        "[::1]",
        "::1.2.3",
        "::1.2.3.256",
        "::1.2.3.04",
        "::01.2.3.4",
        "::1.2.3.4.5",
        "1.2.3.4::",
        "::1.2.3.4:5",
        "1:2:3:4:5:6:7:1.2.3.4",
        "1:2:3:4:5:6::1.2.3.4",
        " ::1",
        "::1 ",
        "::+1",
        "::-1",
        "::1.2.3.+4",
    ] {
        assert!(!parses_as_ipv6(bad), "{bad}");
    }
}

#[test]
fn trimming_takes_unicode_white_space_off_either_end() {
    for s in [
        "",
        " ",
        "a",
        " a b ",
        "\u{85}\u{1680}a\u{2000}\u{200a}",
        "\u{202f}\u{205f}x\u{2029}",
        "\u{200b}a\u{feff}",
        "\u{1c}a\u{b}",
        "é ",
    ] {
        assert_eq!(trim(s), s.trim(), "{s:?}");
    }
    for code in 0..0x3100u32 {
        if let Some(c) = char::from_u32(code) {
            assert_eq!(is_white(c), c.is_whitespace(), "{code:x}");
        }
    }
    assert!(same_text("é", "é") && !same_text("e", "é") && !same_text("a", "aa"));
}

#[test]
fn numbers_are_written_in_decimal() {
    for n in [0u32, 7, 10, 99, 100, 65535, 1234567890, u32::MAX] {
        let mut out = "n=".to_string();
        append_decimal(&mut out, n);
        assert_eq!(out, format!("n={n}"));
    }
}

fn path(s: &str) -> Vec<u8> {
    s.as_bytes().to_vec()
}

#[test]
fn the_log_folder_is_made_and_shown() {
    assert_eq!(
        open_log_folder(Some(path("/home/a/.config"))),
        Ok(path("/home/a/.config/sone/logs"))
    );
    assert_eq!(open_log_folder(Some(path("/"))), Ok(path("/sone/logs")));
    assert_eq!(open_log_folder(Some(path(""))), Ok(path("sone/logs")));
    assert_eq!(
        open_log_folder(None),
        Err("could not resolve config directory".to_string())
    );
    match log_folder_created(path("/x"), Ok(())) {
        Ok(launch) => {
            assert_eq!(launch.program, "xdg-open");
            assert_eq!(launch.argument, path("/x"));
        }
        Err(e) => panic!("a folder that was made is shown: {e}"),
    }
    assert_eq!(
        log_folder_created(path("/x"), Err("denied".to_string())).err(),
        Some("denied".to_string())
    );
    assert_eq!(log_folder_launched(Ok(())), Ok(()));
    assert_eq!(
        log_folder_launched(Err("no such program".to_string())),
        Err("failed to launch file manager: no such program".to_string())
    );
}

#[test]
fn the_logging_switch_is_on_unless_it_says_false() {
    for (text, on) in [
        (None, true),
        (Some("true"), true),
        (Some("false"), false),
        (Some(" false\n"), false),
        (Some("False"), true),
        (Some(""), true),
        (Some("falsehood"), true),
        (Some("\u{a0}false\u{2029}"), false),
    ] {
        assert_eq!(get_enable_logging(text), on, "{text:?}");
    }
}

#[test]
fn the_logging_switch_reads_back_as_written() {
    for enabled in [true, false] {
        match set_enable_logging(Some(path("/c")), enabled) {
            Ok(write) => {
                assert_eq!(write.dir, path("/c/sone"));
                assert_eq!(write.path, path("/c/sone/logging.toggle"));
                assert_eq!(write.text, format!("{enabled}"));
                assert_eq!(get_enable_logging(Some(write.text.as_str())), enabled);
            }
            Err(e) => panic!("a config directory is enough: {e:?}"),
        }
    }
    assert_eq!(
        set_enable_logging(None, true).err(),
        Some(SoneError::Io("Could not resolve config dir".to_string()))
    );
    assert_eq!(logging_toggle_path(Some(path("/c"))), Some(path("/c/sone/logging.toggle")));
    assert_eq!(logging_toggle_path(None), None);
    assert_eq!(
        toggle_dir_failed("denied"),
        SoneError::Io("Failed to create config dir: denied".to_string())
    );
    assert_eq!(
        toggle_write_failed("full"),
        SoneError::Io("Failed to write logging toggle: full".to_string())
    );
}

#[test]
fn artwork_comes_from_the_cache_or_through_the_cell() {
    let caps = HostCaps::assume_all_present();
    let p = plan(&settings("127.0.0.1", 3128), &caps).unwrap();
    let mut http = ProxiedHttp::from_plan(&p, &caps);
    match get_image_bytes(CacheResult::Miss, &http) {
        Ok(ImageStep::Fetch(c)) => {
            assert!(format!("{c:?}").contains("All(http://127.0.0.1:3128)"))
        }
        _ => panic!("a miss is fetched"),
    }
    http.put(Err(BlockReason::new("blocked".to_string())));
    // A hit needs no client.
    for cached in [CacheResult::Fresh(vec![1, 2]), CacheResult::Stale(vec![1, 2])] {
        match get_image_bytes(cached, &http) {
            Ok(ImageStep::Respond(bytes)) => assert_eq!(bytes, [1, 2]),
            _ => panic!("a hit is the answer"),
        }
    }
    assert_eq!(
        get_image_bytes(CacheResult::Miss, &http).err(),
        Some(SoneError::ProxyBlocked {
            reason: "blocked".to_string()
        })
    );
    let entry = match image_fetched("u".to_string(), Ok(vec![7])) {
        Ok(entry) => entry,
        Err(e) => panic!("a fetched image is cached: {e:?}"),
    };
    assert_eq!((entry.url.as_str(), entry.tag.as_str()), ("u", "image"));
    assert_eq!(entry.bytes, [7]);
    // A cache that cannot be written takes nothing from the answer.
    assert_eq!(image_cached(entry, Err(SoneError::Io("full".to_string()))), [7]);
    assert_eq!(
        image_fetched("u".to_string(), Err(SoneError::Network("down".to_string()))).err(),
        Some(SoneError::Network("down".to_string()))
    );
}

#[test]
fn an_nvidia_module_is_told_by_the_first_word_of_a_line() {
    for (modules, loaded) in [
        ("", false),
        ("nvidia 1 2 - Live 0x0\n", true),
        ("ext4 1\nnvidia_drm 2\n", true),
        ("ext4 1\n  \tnvidia\n", true),
        ("ext4 1\r\nnvidia\r\n", true),
        ("nvidia", true),
        ("nvidia_", true),
        ("nvidiafb 1\n", false),
        ("i2c_nvidia_gpu 1\n", false),
        ("drm 3 nvidia_drm,nvidia - Live\n", false),
        ("nvidi", false),
        ("\n\n\nnvidia_uvm 0", true),
        ("nouveau 1 0\n", false),
    ] {
        assert_eq!(nvidia_loaded(modules), loaded, "{modules:?}");
        assert_eq!(disable_dmabuf_renderer(false, Some(modules)), loaded);
        assert!(!disable_dmabuf_renderer(true, Some(modules)));
    }
    assert!(!disable_dmabuf_renderer(false, None));
}

#[test]
fn the_plugin_path_is_the_users_or_the_first_that_exists() {
    let dirs = plugin_dirs();
    assert_eq!(
        dirs,
        [
            "/usr/lib/x86_64-linux-gnu/gstreamer-1.0",
            "/usr/lib64/gstreamer-1.0",
            "/usr/lib/gstreamer-1.0",
        ]
    );
    let versioned = Some("/v".to_string());
    assert_eq!(gst_plugin_path(true, versioned.clone(), [true; 3]), None);
    assert_eq!(gst_plugin_path(false, versioned.clone(), [true; 3]), versioned);
    for (there, want) in [
        ([true, true, true], Some(0)),
        ([false, true, true], Some(1)),
        ([false, false, true], Some(2)),
        ([false, false, false], None),
    ] {
        assert_eq!(
            gst_plugin_path(false, None, there),
            want.map(|i: usize| dirs[i].clone())
        );
    }
}

#[test]
fn an_accepted_host_is_accepted_as_it_stands() {
    for raw in ["proxy.example", " proxy.example\t", "\u{3000}::1\n", "127.0.0.1", "  _ "] {
        let host = validate_host(raw).unwrap();
        assert_eq!(validate_host(&host), Ok(host.clone()));
        assert_eq!(validate_host(&format!("\u{a0} {raw}\r\n")), Ok(host));
    }
}

#[test]
fn an_authority_says_one_thing() {
    assert_eq!(authority("proxy.example", 0), "proxy.example:0");
    assert_eq!(authority("1.2.3.4", 80), "1.2.3.4:80");
    assert_eq!(authority("2001:db8::1", 65535), "[2001:db8::1]:65535");
    let mut seen = Vec::new();
    for host in ["a", "a.1", "::1", "::1:1", "::", "::11"] {
        for port in [0, 1, 11, 111] {
            let text = authority(host, port);
            assert!(text.ends_with(&format!(":{port}")));
            let brackets = if parses_as_ipv6(host) { 1 } else { 0 };
            assert_eq!(text.matches('[').count(), brackets);
            assert_eq!(text.matches(']').count(), brackets);
            assert!(!seen.contains(&text));
            seen.push(text);
        }
    }
}

#[test]
fn a_host_of_very_many_groups_is_refused_like_any_other() {
    for part in ["1:", "1::", ":", "1.2.3.4:"] {
        let host = part.repeat(400_000) + "1";
        assert!(!parses_as_ipv6(&host));
        assert_eq!(validate_host(&host), Err(PlanError::BadHost(host.clone())));
        assert_eq!(host_error(&host), Some(PlanError::BadHost(host.clone())));
        assert_eq!(authority(&host, 1), format!("{host}:1"));
    }
}
