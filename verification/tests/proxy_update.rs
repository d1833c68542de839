//! Saving proxy settings, applying them, and testing them first.
use sone_proxy::app_state::{Settings, SettingsEdit, SoneError};
use sone_proxy::proxy::{plan, BlockReason, Capability, HostCaps, PlanError, ProxyPlan};
use sone_proxy::proxy_commands::{
    get_proxy_status, proxy_test_client, proxy_test_task_failed, proxy_test_verdict, reconfigured,
    set_proxy_settings, test_proxy_connection, ProxyAction, ProxyEvent, ProxyStatus,
};
use sone_proxy::proxy_http::ProxiedHttp;
use sone_proxy::settings::{ProxySettings, ProxyType};

fn caps() -> HostCaps {
    HostCaps::assume_all_present()
}

fn enabled(proxy_type: ProxyType, host: &str, port: u16) -> ProxySettings {
    ProxySettings {
        enabled: true,
        proxy_type,
        host: host.to_string(),
        port,
        username: None,
        password: None,
    }
}

fn direct_cell() -> ProxiedHttp {
    ProxiedHttp::from_plan(&ProxyPlan::Direct, &caps())
}

/// What an update left behind.
#[derive(Default)]
struct Trace {
    on_disk: Option<ProxySettings>,
    sidecar: Option<ProxySettings>,
    audio: Option<ProxySettings>,
    /// Whether the cell had a client when the save ran.
    usable_at_save: bool,
    actions: Vec<&'static str>,
}

/// Performs every action of an update, with `save` in place of the disk.
fn run(
    settings: &ProxySettings,
    save: Result<(), SoneError>,
    http: &mut ProxiedHttp,
    trace: &mut Trace,
) -> Result<(), SoneError> {
    let mut save = Some(save);
    let mut update = set_proxy_settings(settings.clone());
    loop {
        let event = match update.action() {
            ProxyAction::Persist(SettingsEdit::Proxy(p)) => {
                trace.actions.push("persist");
                trace.usable_at_save = http.client().is_ok();
                let saved = save.take().unwrap();
                if saved.is_ok() {
                    trace.on_disk = Some(p);
                }
                ProxyEvent::Persisted(saved)
            }
            ProxyAction::Persist(other) => panic!("an update saves the proxy, not {other:?}"),
            ProxyAction::WriteSidecar(p) => {
                trace.actions.push("sidecar");
                trace.sidecar = Some(p);
                ProxyEvent::SidecarWritten
            }
            ProxyAction::Apply {
                generation,
                settings,
                caps,
            } => {
                trace.actions.push("apply");
                ProxyEvent::Applied(Ok(http.apply_at(generation, &settings, &caps)))
            }
            ProxyAction::PushToAudio(p) => {
                trace.actions.push("audio");
                trace.audio = Some(p);
                ProxyEvent::PushedToAudio
            }
            ProxyAction::Nothing => return update.into_result(),
        };
        update.advance(event, http);
    }
}

/// A proxy whose client cannot be built must still reach disk. It is what the
/// next start reads back, the file is encrypted so nothing else can edit it,
/// and every request the app makes — including the ones behind the settings
/// screen — is blocked until it changes.
#[test]
fn a_proxy_that_cannot_be_applied_is_still_saved() {
    // Plans fine and fails at build: reqwest resolves a SOCKS5 proxy host
    // eagerly, so this is the failure `plan()` cannot see coming. No
    // network is touched — `.invalid` can never resolve (RFC 6761).
    let bad = enabled(ProxyType::Socks5, "no-such-host.invalid", 3128);
    assert!(plan(&bad, &caps()).is_ok());

    let mut http = direct_cell();
    let mut trace = Trace::default();
    let err = run(&bad, Ok(()), &mut http, &mut trace)
        .expect_err("an unusable proxy must not report success");

    assert!(
        matches!(&err, SoneError::ProxyBlocked { reason } if reason.contains("no-such-host.invalid")),
        "the failure must name its cause, got: {err:?}"
    );
    assert!(
        trace.on_disk.as_ref() == Some(&bad),
        "the settings the user submitted must survive the transport failure"
    );
    // Saving first must not have loosened containment.
    assert!(
        http.client().is_err(),
        "a proxy that could not be built must leave egress blocked"
    );
}

/// Same property one step earlier: settings that form no plan at all.
#[test]
fn a_proxy_that_forms_no_plan_is_still_saved() {
    for bad in [
        enabled(ProxyType::Http, "127.0.0.1", 0),
        enabled(ProxyType::Http, "ho st", 3128),
        enabled(ProxyType::Http, "пример.рф", 3128),
    ] {
        let mut http = direct_cell();
        let mut trace = Trace::default();
        let err = run(&bad, Ok(()), &mut http, &mut trace)
            .expect_err("unplannable settings must not report success");

        assert!(
            matches!(&err, SoneError::ProxyBlocked { reason } if !reason.is_empty()),
            "{bad:?} must be refused with a reason, got: {err:?}"
        );
        assert!(
            trace.on_disk.as_ref() == Some(&bad),
            "{bad:?} must still be saved"
        );
        assert!(http.client().is_err(), "{bad:?} must leave egress blocked");
    }
}

/// Pins the order itself, not merely that both things happened: at save time
/// the cell must still hold the *previous* client.
#[test]
fn the_save_lands_before_the_transports_move() {
    let mut http = direct_cell();
    let mut trace = Trace::default();
    let bad = enabled(ProxyType::Socks5, "no-such-host.invalid", 3128);

    let err = run(&bad, Ok(()), &mut http, &mut trace)
        .expect_err("the reconfiguration still has to fail for this to mean anything");

    assert!(matches!(err, SoneError::ProxyBlocked { .. }));
    assert!(
        trace.usable_at_save,
        "the transports were already reconfigured when the save ran — the \
         save must come first, or a failure to apply strands the user"
    );
    assert!(http.client().is_err(), "and the reconfiguration did happen");
    assert_eq!(trace.actions, ["persist", "sidecar", "apply", "audio"]);
}

/// The one case where the transports must NOT move: nothing was saved, so the
/// cell must keep matching what a restart would read.
#[test]
fn a_save_that_fails_leaves_the_transports_alone() {
    let mut http = direct_cell();
    let mut trace = Trace::default();
    let good = enabled(ProxyType::Http, "127.0.0.1", 3128);

    let err = run(
        &good,
        Err(SoneError::Io("disk full".into())),
        &mut http,
        &mut trace,
    )
    .expect_err("a failed save must be reported");

    assert!(matches!(err, SoneError::Io(_)), "got: {err:?}");
    let c = http
        .client()
        .expect("the previous, working client must survive");
    assert!(
        !format!("{c:?}").contains("127.0.0.1:3128"),
        "settings that never reached disk must not reach the transports: {c:?}"
    );
    assert_eq!(err, SoneError::Io("disk full".into()));
    assert_eq!(trace.actions, ["persist", "audio"]);
    assert!(trace.sidecar.is_none());
    assert_eq!(trace.audio, Some(good));
}

#[test]
fn a_usable_proxy_is_saved_and_reported_as_applied() {
    let mut http = direct_cell();
    let mut trace = Trace::default();
    let good = enabled(ProxyType::Http, "127.0.0.1", 3128);

    run(&good, Ok(()), &mut http, &mut trace).expect("a usable proxy must apply cleanly");

    assert!(trace.on_disk.as_ref() == Some(&good));
    let c = http.client().expect("a usable proxy must yield a client");
    assert!(
        format!("{c:?}").contains("All(http://127.0.0.1:3128)"),
        "the cell must carry the proxy that was just saved: {c:?}"
    );
    assert_eq!(trace.sidecar.as_ref(), Some(&good));
    assert_eq!(trace.audio.as_ref(), Some(&good));
}

/// The recovery the pre-login banner's button performs, end to end.
///
/// Reachable state: a proxy that persists and cannot build, a logged-out user,
/// and no settings screen — every request is refused, login included. The
/// button sends the same settings with `enabled: false`, and that must both
/// reach disk and unblock the cell while the cell is blocked. It does because
/// the persist runs first and the reconfigure never reads the cell it is
/// replacing.
#[test]
fn disabling_a_blocked_proxy_saves_and_unblocks_the_cell() {
    let mut http = direct_cell();
    let mut trace = Trace::default();

    let bad = enabled(ProxyType::Socks5, "no-such-host.invalid", 3128);
    run(&bad, Ok(()), &mut http, &mut trace).expect_err("this proxy cannot be applied");
    assert!(
        http.client().is_err(),
        "the cell must be blocked for this test to mean anything"
    );

    let mut off = bad.clone();
    off.enabled = false;
    run(&off, Ok(()), &mut http, &mut trace)
        .expect("turning the proxy off must succeed from a blocked cell");

    assert!(
        !trace.on_disk.unwrap().enabled,
        "the next start must read the proxy back as off"
    );
    http.client()
        .expect("disabling the proxy must restore a usable client");
}

/// The refusal that a test of the settings begins with.
fn refused(settings: &ProxySettings) -> Option<String> {
    test_proxy_connection(settings).err()
}

/// The banner paints any `Ok` green, so "cannot report success" means the
/// command must not return `Ok` at all for settings that would go direct.
#[test]
fn a_blocked_plan_can_never_report_a_successful_connection() {
    // SOCKS5 resolves the proxy host at build time, so this blocks before a
    // single byte leaves the process — no network is touched by this test.
    let blocked = enabled(ProxyType::Socks5, "no-such-host.invalid", 3128);
    let err = refused(&blocked).expect("an unresolvable proxy must not report success");
    assert!(
        err.contains("no-such-host.invalid"),
        "the block must name its cause, got: {err}"
    );
}

#[test]
fn settings_that_do_not_form_a_plan_are_refused_not_tested_directly() {
    for (bad, expected) in [
        (
            enabled(ProxyType::Http, "127.0.0.1", 0),
            "proxy port must not be 0",
        ),
        (
            enabled(ProxyType::Http, "proxy.local:3128", 3128),
            "enter the host without a port; use the port field",
        ),
        (
            enabled(ProxyType::Http, "ho st", 3128),
            "invalid proxy host: ho st",
        ),
        (
            enabled(ProxyType::Http, "[::1]", 3128),
            "enter an IPv6 address without brackets",
        ),
        (enabled(ProxyType::Http, "", 3128), "invalid proxy host: "),
        (
            enabled(ProxyType::Http, "пример.рф", 3128),
            "proxy host must be ASCII",
        ),
    ] {
        let err = refused(&bad).expect("unplannable settings must never reach the network");
        assert_eq!(err, expected, "{bad:?} must be refused with its own reason");
        assert!(
            proxy_test_client(&bad, &caps()).is_err(),
            "unplannable settings {bad:?} must yield no client"
        );
    }
}

#[test]
fn a_disabled_proxy_is_refused_rather_than_tested_as_a_direct_connection() {
    // `plan()` maps a disabled proxy to `Direct`, whose client works fine.
    // Sending through it would always succeed and paint the banner green
    // for a connection that is not proxied at all.
    let mut off = enabled(ProxyType::Http, "127.0.0.1", 3128);
    off.enabled = false;
    assert!(matches!(plan(&off, &caps()), Ok(ProxyPlan::Direct)));
    let err =
        refused(&off).expect("a direct connection must never be reported as a working proxy");
    assert!(err.contains("No proxy configured"), "got: {err}");
    assert_eq!(err, "No proxy configured — enable one before testing");
}

#[test]
fn a_usable_proxy_still_yields_a_client_to_test_with() {
    // Built only — never sent, so no network.
    let good = enabled(ProxyType::Http, "127.0.0.1", 3128);
    let c = proxy_test_client(&good, &caps()).expect("a valid proxy must be testable");
    assert!(
        format!("{c:?}").contains("All(http://127.0.0.1:3128)"),
        "the test must go through the proxy it is testing: {c:?}"
    );
}

#[test]
fn malformed_proxy_hosts_abort_the_element_and_so_must_be_rejected_upstream() {
    for (host, expected) in [
        ("[::1]", PlanError::BracketedHost),
        ("1.2.3.4:9999", PlanError::EmbeddedPort),
        ("[[::1]]", PlanError::BracketedHost),
    ] {
        let plan = plan(&enabled(ProxyType::Http, host, 8080), &caps());
        assert_eq!(
            plan.err().as_ref(),
            Some(&expected),
            "proxy::plan must reject {host:?} before it can reach an element",
        );
    }
}

#[test]
fn a_test_asks_the_ping_endpoint_for_ten_seconds() {
    let probe = match test_proxy_connection(&enabled(ProxyType::Http, "127.0.0.1", 3128)) {
        Ok(probe) => probe,
        Err(e) => panic!("a valid proxy must be testable: {e}"),
    };
    assert_eq!(probe.url, "https://api.tidal.com/v1/ping");
    assert_eq!(probe.timeout_secs, 10);
    assert!(format!("{:?}", probe.client).contains("All(http://127.0.0.1:3128)"));
}

#[test]
fn an_answer_from_the_endpoint_shows_that_the_proxy_works() {
    for code in [200, 204, 299, 401, 404] {
        assert_eq!(
            proxy_test_verdict(Ok(code)),
            Ok("Connection successful".to_string()),
            "status {code}"
        );
    }
    for (code, text) in [
        (199, "Tidal responded with status 199 <unknown status code>"),
        (300, "Tidal responded with status 300 Multiple Choices"),
        (400, "Tidal responded with status 400 Bad Request"),
        (403, "Tidal responded with status 403 Forbidden"),
        (407, "Tidal responded with status 407 Proxy Authentication Required"),
        (503, "Tidal responded with status 503 Service Unavailable"),
        (100, "Tidal responded with status 100 Continue"),
        (999, "Tidal responded with status 999 <unknown status code>"),
    ] {
        assert_eq!(proxy_test_verdict(Ok(code)), Ok(text.to_string()));
    }
    assert_eq!(
        proxy_test_verdict(Err("timed out".to_string())),
        Err("Connection failed: timed out".to_string())
    );
    assert_eq!(
        proxy_test_task_failed("panicked"),
        "proxy test task failed: panicked"
    );
}

#[test]
fn a_reconfiguration_is_reported_as_it_went() {
    assert_eq!(reconfigured(Ok(Ok(()))), Ok(()));
    assert_eq!(
        reconfigured(Ok(Err(BlockReason::new("why".to_string())))),
        Err(SoneError::ProxyBlocked {
            reason: "why".to_string()
        })
    );
    assert_eq!(
        reconfigured(Err("panicked".to_string())),
        Err(SoneError::Io("proxy update task failed: panicked".to_string()))
    );
}

/// The audio thread hears of the settings even where the build task died.
#[test]
fn a_failed_task_is_reported_and_the_audio_thread_is_still_told() {
    let good = enabled(ProxyType::Http, "127.0.0.1", 3128);
    let mut http = direct_cell();
    let mut update = set_proxy_settings(good.clone());
    update.advance(ProxyEvent::Persisted(Ok(())), &mut http);
    update.advance(ProxyEvent::SidecarWritten, &mut http);
    update.advance(ProxyEvent::Applied(Err("died".to_string())), &mut http);
    match update.action() {
        ProxyAction::PushToAudio(p) => assert_eq!(p, good),
        _ => panic!("the audio thread must be told"),
    }
    update.advance(ProxyEvent::PushedToAudio, &mut http);
    assert!(matches!(update.action(), ProxyAction::Nothing));
    assert_eq!(
        update.into_result(),
        Err(SoneError::Io("proxy update task failed: died".to_string()))
    );
}

#[test]
fn an_event_out_of_turn_changes_nothing() {
    let mut http = direct_cell();
    let mut update = set_proxy_settings(enabled(ProxyType::Http, "127.0.0.1", 3128));
    update.advance(ProxyEvent::SidecarWritten, &mut http);
    update.advance(ProxyEvent::PushedToAudio, &mut http);
    assert!(matches!(update.action(), ProxyAction::Persist(_)));
    // No claim was made on the way.
    assert_eq!(http.claim(), 1);
}

#[test]
fn overlapping_saves_leave_the_later_one_in_the_cell() {
    let mut http = direct_cell();
    let first = enabled(ProxyType::Http, "127.0.0.1", 1111);
    let second = enabled(ProxyType::Http, "127.0.0.1", 2222);
    let mut a = set_proxy_settings(first.clone());
    let mut b = set_proxy_settings(second.clone());
    a.advance(ProxyEvent::Persisted(Ok(())), &mut http);
    a.advance(ProxyEvent::SidecarWritten, &mut http);
    b.advance(ProxyEvent::Persisted(Ok(())), &mut http);
    b.advance(ProxyEvent::SidecarWritten, &mut http);
    // The build of the later save finishes first.
    for update in [&b, &a] {
        match update.action() {
            ProxyAction::Apply {
                generation,
                settings,
                caps,
            } => http.apply_at(generation, &settings, &caps).unwrap(),
            _ => panic!("both updates are at their build"),
        }
    }
    let c = http.client().unwrap();
    assert!(format!("{c:?}").contains("All(http://127.0.0.1:2222)"), "{c:?}");
}

fn stored(proxy: ProxySettings) -> Option<Settings> {
    Some(Settings {
        decorations: true,
        minimize_to_tray: false,
        volume_normalization: false,
        exclusive_mode: false,
        exclusive_device: None,
        bit_perfect: false,
        gapless: true,
        max_quality: "HIGH".to_string(),
        discord_rpc: false,
        discord_status_text: String::new(),
        report_plays: true,
        proxy,
    })
}

#[test]
fn the_status_reads_the_cell_before_the_settings() {
    let good = enabled(ProxyType::Http, "127.0.0.1", 3128);
    let mut http = direct_cell();
    assert_eq!(get_proxy_status(&None, &http), ProxyStatus::Off);
    assert_eq!(
        get_proxy_status(&stored(good.clone()), &http),
        ProxyStatus::Active { degraded: vec![] }
    );
    assert_eq!(
        get_proxy_status(&stored(enabled(ProxyType::Http, "", 1)), &http),
        ProxyStatus::Blocked {
            reason: "invalid proxy host: ".to_string()
        }
    );
    http.put(Err(BlockReason::new("no client".to_string())));
    for loaded in [None, stored(good)] {
        assert_eq!(
            get_proxy_status(&loaded, &http),
            ProxyStatus::Blocked {
                reason: "no client".to_string()
            }
        );
    }
}

#[test]
fn a_status_lists_what_the_host_cannot_serve() {
    let mut s = enabled(ProxyType::Socks5, "127.0.0.1", 1080);
    s.username = Some("bob".to_string());
    let mut host = caps();
    host.has_curlhttpsrc = false;
    assert_eq!(
        ProxyStatus::observed(&s, &host, None),
        ProxyStatus::Active {
            degraded: vec![Capability::Lossy, Capability::Dash]
        }
    );
    host = caps();
    host.has_dashdemux = false;
    assert_eq!(
        ProxyStatus::observed(&s, &host, None),
        ProxyStatus::Active {
            degraded: vec![Capability::Dash]
        }
    );
}
