//! Single source of truth for whether and how SONE proxies a request.
//!
//! Nothing outside this module constructs a proxy URI. `Direct` means the
//! system's own configuration applies; a `PlanError` blocks every capability.
use crate::ipv6::{is_ipv6, parses_as_ipv6};
use crate::settings::{text_or_empty, ProxySettings, ProxySettingsView, ProxyType};
use crate::text::{append_decimal, ascii, chars_of, decimal, joined, lemma_ascii, trim, trimmed};
use vstd::prelude::*;
use vstd::string::*;

verus! {

#[derive(PartialEq, Eq)]
pub struct Creds {
    pub user: String,
    pub pass: String,
}

#[verifier::ext_equal]
pub struct CredsView {
    pub user: Seq<char>,
    pub pass: Seq<char>,
}

impl View for Creds {
    type V = CredsView;

    open spec fn view(&self) -> CredsView {
        CredsView { user: self.user@, pass: self.pass@ }
    }
}

impl Clone for Creds {
    fn clone(&self) -> (r: Self)
        ensures
            r == *self,
    {
        Creds { user: self.user.clone(), pass: self.pass.clone() }
    }
}

/// The text that `{:?}` prints for a string: quoted and escaped by the rules of
/// `<str as Debug>`, which go by Unicode tables.
pub uninterp spec fn quoted(s: Seq<char>) -> Seq<char>;

/// `<str as core::fmt::Debug>::fmt`, by way of `format!`. The contract says
/// only that the text is a function of the characters of `s`; how a character
/// is escaped is left unsaid.
#[verifier::external_body]
fn quote(s: &str) -> (r: String)
    ensures
        r@ == quoted(s@),
{
    format!("{:?}", s)
}

/// The printed form of credentials: the user, and three stars for a password.
pub open spec fn creds_text(user: Seq<char>) -> Seq<char> {
    "Creds { user: "@ + quoted(user) + ", pass: \"***\" }"@
}

impl Creds {
    /// What a log may print of credentials: never the password.
    pub fn debug_text(&self) -> (r: String)
        ensures
            r@ == creds_text(self.user@),
    {
        let mut r = joined("Creds { user: ", quote(self.user.as_str()).as_str());
        r.append(", pass: \"***\" }");
        r
    }
}

pub open spec fn opt_creds(o: Option<Creds>) -> Option<CredsView> {
    match o {
        Some(c) => Some(c@),
        None => None,
    }
}

/// Host facts that cannot be read without `gst::init()`, injected so `plan()`
/// stays pure and unit-testable.
#[derive(Clone, Copy, Debug, PartialEq, Eq)]
pub struct HostCaps {
    pub has_dashdemux: bool,
    pub has_curlhttpsrc: bool,
    pub gst_version: (u32, u32, u32),
}

/// Minimum GStreamer with a working `curlhttpsrc` progressive seek.
pub const CURL_SEEK_FIXED: (u32, u32, u32) = (1, 26, 10);

/// Versions in lexicographic order.
pub open spec fn older(a: (u32, u32, u32), b: (u32, u32, u32)) -> bool {
    ||| a.0 < b.0
    ||| a.0 == b.0 && a.1 < b.1
    ||| a.0 == b.0 && a.1 == b.1 && a.2 < b.2
}

pub open spec fn all_present() -> HostCaps {
    HostCaps { has_dashdemux: true, has_curlhttpsrc: true, gst_version: CURL_SEEK_FIXED }
}

impl HostCaps {
    /// A host that can serve every plan.
    pub fn assume_all_present() -> (r: Self)
        ensures
            r == all_present(),
            r.gst_version == (1u32, 26u32, 10u32),
    {
        HostCaps { has_dashdemux: true, has_curlhttpsrc: true, gst_version: CURL_SEEK_FIXED }
    }
}

#[derive(PartialEq, Eq)]
pub enum ProxyPlan {
    Direct,
    Http { host: String, port: u16, creds: Option<Creds> },
    Socks5 { host: String, port: u16, creds: Option<Creds> },
}

#[verifier::ext_equal]
pub enum PlanView {
    Direct,
    Http { host: Seq<char>, port: u16, creds: Option<CredsView> },
    Socks5 { host: Seq<char>, port: u16, creds: Option<CredsView> },
}

impl View for ProxyPlan {
    type V = PlanView;

    open spec fn view(&self) -> PlanView {
        match *self {
            ProxyPlan::Direct => PlanView::Direct,
            ProxyPlan::Http { host, port, creds } => PlanView::Http {
                host: host@,
                port,
                creds: opt_creds(creds),
            },
            ProxyPlan::Socks5 { host, port, creds } => PlanView::Socks5 {
                host: host@,
                port,
                creds: opt_creds(creds),
            },
        }
    }
}

#[derive(Debug, PartialEq, Eq)]
pub enum PlanError {
    PortZero,
    BadHost(String),
    NonAsciiHost,
    BracketedHost,
    EmbeddedPort,
}

#[verifier::ext_equal]
pub enum PlanErrorView {
    PortZero,
    BadHost(Seq<char>),
    NonAsciiHost,
    BracketedHost,
    EmbeddedPort,
}

impl View for PlanError {
    type V = PlanErrorView;

    open spec fn view(&self) -> PlanErrorView {
        match *self {
            PlanError::PortZero => PlanErrorView::PortZero,
            PlanError::BadHost(h) => PlanErrorView::BadHost(h@),
            PlanError::NonAsciiHost => PlanErrorView::NonAsciiHost,
            PlanError::BracketedHost => PlanErrorView::BracketedHost,
            PlanError::EmbeddedPort => PlanErrorView::EmbeddedPort,
        }
    }
}

impl Clone for PlanError {
    fn clone(&self) -> (r: Self)
        ensures
            r == *self,
    {
        match self {
            PlanError::PortZero => PlanError::PortZero,
            PlanError::BadHost(h) => PlanError::BadHost(h.clone()),
            PlanError::NonAsciiHost => PlanError::NonAsciiHost,
            PlanError::BracketedHost => PlanError::BracketedHost,
            PlanError::EmbeddedPort => PlanError::EmbeddedPort,
        }
    }
}

/// What the user reads when their settings form no plan.
pub open spec fn plan_error_text(e: PlanErrorView) -> Seq<char> {
    match e {
        PlanErrorView::PortZero => "proxy port must not be 0"@,
        PlanErrorView::BadHost(h) => "invalid proxy host: "@ + h,
        PlanErrorView::NonAsciiHost => "proxy host must be ASCII"@,
        PlanErrorView::BracketedHost => "enter an IPv6 address without brackets"@,
        PlanErrorView::EmbeddedPort => "enter the host without a port; use the port field"@,
    }
}

impl PlanError {
    pub fn to_string(&self) -> (r: String)
        ensures
            r@ == plan_error_text(self@),
    {
        match self {
            PlanError::PortZero => "proxy port must not be 0".to_owned(),
            PlanError::BadHost(h) => joined("invalid proxy host: ", h.as_str()),
            PlanError::NonAsciiHost => "proxy host must be ASCII".to_owned(),
            PlanError::BracketedHost => "enter an IPv6 address without brackets".to_owned(),
            PlanError::EmbeddedPort => "enter the host without a port; use the port field".to_owned(),
        }
    }
}

/// A character that is plainly part of a host name.
pub open spec fn host_char(c: char) -> bool {
    ||| 'a' <= c <= 'z'
    ||| 'A' <= c <= 'Z'
    ||| '0' <= c <= '9'
    ||| c == '.'
    ||| c == '-'
    ||| c == '_'
}

pub open spec fn plain_host(s: Seq<char>) -> bool {
    s.len() > 0 && forall|i: int| 0 <= i < s.len() ==> host_char(#[trigger] s[i])
}

/// Whether `s[i]` is the one colon of `s`.
pub open spec fn lone_colon(s: Seq<char>, i: int) -> bool {
    &&& 0 <= i < s.len()
    &&& s[i] == ':'
    &&& forall|j: int| 0 <= j < s.len() && j != i ==> #[trigger] s[j] != ':'
}

/// A host that can stand in a URI: a name, an IPv4 address, or a bare IPv6
/// literal.
pub open spec fn valid_host(s: Seq<char>) -> bool {
    plain_host(s) || is_ipv6(s)
}

/// Why the host field `raw` cannot be used, or `None` if it can.
pub open spec fn host_fault(raw: Seq<char>) -> Option<PlanErrorView> {
    let host = trimmed(raw);
    if valid_host(host) {
        None
    } else if host.len() > 0 && !ascii(host) {
        Some(PlanErrorView::NonAsciiHost)
    } else if host.len() > 0 && (host[0] == '[' || host.last() == ']') {
        Some(PlanErrorView::BracketedHost)
    } else if exists|i: int| lone_colon(host, i) {
        Some(PlanErrorView::EmbeddedPort)
    } else {
        Some(PlanErrorView::BadHost(raw))
    }
}

/// The credentials in the settings: none without a user name, and an absent
/// password is an empty one.
pub open spec fn settings_creds(s: ProxySettingsView) -> Option<CredsView> {
    let user = trimmed(text_or_empty(s.username));
    if user.len() == 0 {
        None
    } else {
        Some(CredsView { user, pass: text_or_empty(s.password) })
    }
}

/// The plan that settings form, or why they form none.
pub open spec fn plan_of(s: ProxySettingsView) -> Result<PlanView, PlanErrorView> {
    if !s.enabled {
        Ok(PlanView::Direct)
    } else if s.port == 0 {
        Err(PlanErrorView::PortZero)
    } else if host_fault(s.host) is Some {
        Err(host_fault(s.host)->0)
    } else {
        let host = trimmed(s.host);
        match s.proxy_type {
            ProxyType::Http => Ok(PlanView::Http { host, port: s.port, creds: settings_creds(s) }),
            ProxyType::Socks5 => Ok(
                PlanView::Socks5 { host, port: s.port, creds: settings_creds(s) },
            ),
        }
    }
}

proof fn lemma_valid_host_shape(s: Seq<char>)
    requires
        valid_host(s),
    ensures
        s.len() > 0,
        ascii(s),
        s[0] != '[' && s.last() != ']',
{
    if is_ipv6(s) {
        crate::ipv6::lemma_ipv6_has_colon(s);
        crate::ipv6::lemma_ipv6_chars(s);
        assert(forall|k: int| 0 <= k < s.len() ==> crate::ipv6::address_char(#[trigger] s[k]));
    }
}

/// Reject anything that could change the meaning of a URI we build by
/// concatenation, or that would reach a parser known to abort on it.
pub fn validate_host(raw: &str) -> (r: Result<String, PlanError>)
    ensures
        match r {
            Ok(host) => host_fault(raw@) is None && host@ == trimmed(raw@),
            Err(e) => host_fault(raw@) == Some(e@),
        },
{
    let host = trim(raw);
    proof {
        if valid_host(host@) {
            lemma_valid_host_shape(host@);
        }
    }
    if host.is_empty() {
        return Err(PlanError::BadHost(raw.to_owned()));
    }
    proof {
        lemma_ascii(host@);
    }
    if !host.is_ascii() {
        return Err(PlanError::NonAsciiHost);
    }
    let chars = chars_of(host);
    let len: usize = chars.len();
    if chars[0] == '[' || chars[len - 1] == ']' {
        return Err(PlanError::BracketedHost);
    }
    let mut colons: usize = 0;
    let ghost mut at: int = -1;
    let mut plain: bool = true;
    let mut i: usize = 0;
    while i < len
        invariant
            len == chars@.len(),
            chars@ == host@,
            i <= len,
            colons <= i,
            colons == 0 <==> forall|k: int| 0 <= k < i ==> #[trigger] chars@[k] != ':',
            colons == 1 ==> 0 <= at < i && chars@[at] == ':' && forall|k: int|
                0 <= k < i && k != at ==> #[trigger] chars@[k] != ':',
            colons == 1 <==> exists|x: int|
                0 <= x < i && chars@[x] == ':' && forall|k: int|
                    0 <= k < i && k != x ==> #[trigger] chars@[k] != ':',
            plain <==> forall|k: int| 0 <= k < i ==> host_char(#[trigger] chars@[k]),
        decreases len - i,
    {
        let c = chars[i];
        if c == ':' {
            colons = colons + 1;
            proof {
                at = i as int;
            }
        }
        if !is_host_char(c) {
            plain = false;
        }
        i = i + 1;
    }
    // A bare IPv6 literal is the only legitimate reason for a colon here.
    if colons > 0 {
        if parses_as_ipv6(host) {
            return Ok(host.to_owned());
        }
        // Scope ids (`fe80::1%eth0`) land here too: they are no part of a
        // literal, and a scoped address is meaningless for a proxy endpoint.
        if colons == 1 {
            assert(lone_colon(host@, at));
            return Err(PlanError::EmbeddedPort);
        }
        assert(forall|x: int| !lone_colon(host@, x));
        return Err(PlanError::BadHost(raw.to_owned()));
    }
    proof {
        if is_ipv6(host@) {
            crate::ipv6::lemma_ipv6_has_colon(host@);
        }
    }
    // Allowlist, not denylist: this string is later concatenated verbatim into
    // a URI with no URL parsing in between, so anything that isn't plainly a
    // hostname character is rejected outright.
    if !plain {
        return Err(PlanError::BadHost(raw.to_owned()));
    }
    Ok(host.to_owned())
}

fn is_host_char(c: char) -> (r: bool)
    ensures
        r == host_char(c),
{
    ('a' <= c && c <= 'z') || ('A' <= c && c <= 'Z') || ('0' <= c && c <= '9') || c == '.' || c
        == '-' || c == '_'
}

fn creds_of(s: &ProxySettings) -> (r: Option<Creds>)
    ensures
        opt_creds(r) == settings_creds(s@),
{
    let user = match &s.username {
        Some(u) => trim(u.as_str()).to_owned(),
        None => {
            assert(trimmed(Seq::empty()) =~= Seq::empty());
            String::new()
        },
    };
    if user.as_str().is_empty() {
        return None;
    }
    // souphttpsrc only authenticates when BOTH properties are set, so an
    // absent password becomes empty rather than no credentials at all.
    let pass = match &s.password {
        Some(p) => p.clone(),
        None => String::new(),
    };
    Some(Creds { user, pass })
}

/// The plan that settings form. The host's own abilities bear on routes, not
/// on plans.
pub fn plan(s: &ProxySettings, _env: &HostCaps) -> (r: Result<ProxyPlan, PlanError>)
    ensures
        match r {
            Ok(p) => plan_of(s@) == Ok::<PlanView, PlanErrorView>(p@),
            Err(e) => plan_of(s@) == Err::<PlanView, PlanErrorView>(e@),
        },
{
    if !s.enabled {
        return Ok(ProxyPlan::Direct);
    }
    if s.port == 0 {
        return Err(PlanError::PortZero);
    }
    let host = match validate_host(s.host.as_str()) {
        Ok(host) => host,
        Err(e) => return Err(e),
    };
    let creds = creds_of(s);
    Ok(
        match s.proxy_type {
            ProxyType::Http => ProxyPlan::Http { host, port: s.port, creds },
            ProxyType::Socks5 => ProxyPlan::Socks5 { host, port: s.port, creds },
        },
    )
}

fn clone_creds(o: &Option<Creds>) -> (r: Option<Creds>)
    ensures
        r == *o,
{
    match o {
        Some(c) => Some(c.clone()),
        None => None,
    }
}

impl Clone for ProxyPlan {
    fn clone(&self) -> (r: Self)
        ensures
            r == *self,
    {
        match self {
            ProxyPlan::Direct => ProxyPlan::Direct,
            ProxyPlan::Http { host, port, creds } => ProxyPlan::Http {
                host: host.clone(),
                port: *port,
                creds: clone_creds(creds),
            },
            ProxyPlan::Socks5 { host, port, creds } => ProxyPlan::Socks5 {
                host: host.clone(),
                port: *port,
                creds: clone_creds(creds),
            },
        }
    }
}

/// Which consumer is asking. The spelling of a SOCKS5 URI and the element
/// requirements differ per consumer, so this is not cosmetic.
#[derive(Clone, Copy, Debug, PartialEq, Eq, Structural)]
pub enum Capability {
    /// reqwest: API, auth, scrobbling, play reports, artwork, update check.
    Api,
    /// GStreamer progressive HTTP (lossy) -- may use souphttpsrc.
    Lossy,
    /// GStreamer DASH segments (lossless/hi-res).
    Dash,
    /// The shared WebKit network session.
    Webview,
}

#[derive(PartialEq, Eq)]
pub enum Route {
    /// Proceed with the system's own configuration.
    NoProxy,
    Via { uri: String, creds: Option<Creds> },
}

#[verifier::ext_equal]
pub enum RouteView {
    NoProxy,
    Via { uri: Seq<char>, creds: Option<CredsView> },
}

impl View for Route {
    type V = RouteView;

    open spec fn view(&self) -> RouteView {
        match *self {
            Route::NoProxy => RouteView::NoProxy,
            Route::Via { uri, creds } => RouteView::Via { uri: uri@, creds: opt_creds(creds) },
        }
    }
}

impl Clone for Route {
    fn clone(&self) -> (r: Self)
        ensures
            r == *self,
    {
        match self {
            Route::NoProxy => Route::NoProxy,
            Route::Via { uri, creds } => Route::Via {
                uri: uri.clone(),
                creds: clone_creds(creds),
            },
        }
    }
}

/// Why a capability cannot be served. Carries a cause because failures are
/// discovered in places `plan()` cannot see, such as resolving the proxy host.
#[derive(Debug, PartialEq, Eq)]
pub struct BlockReason {
    pub cause: String,
}

impl Clone for BlockReason {
    fn clone(&self) -> (r: Self)
        ensures
            r == *self,
    {
        BlockReason { cause: self.cause.clone() }
    }
}

impl BlockReason {
    pub fn new(cause: String) -> (r: Self)
        ensures
            r.cause == cause,
    {
        BlockReason { cause }
    }

    pub fn to_string(&self) -> (r: String)
        ensures
            r@ == self.cause@,
    {
        self.cause.clone()
    }
}

/// Audio goes through GStreamer.
pub open spec fn audio(c: Capability) -> bool {
    c == Capability::Lossy || c == Capability::Dash
}

/// A version with dots.
pub open spec fn version_text(v: (u32, u32, u32)) -> Seq<char> {
    decimal(v.0 as nat) + "."@ + decimal(v.1 as nat) + "."@ + decimal(v.2 as nat)
}

/// What stands in the way of serving `c` through a proxy on this host.
pub open spec fn obstacle(socks: bool, authed: bool, c: Capability, env: HostCaps) -> Option<
    Seq<char>,
> {
    if audio(c) && authed && !env.has_curlhttpsrc {
        // souphttpsrc cannot authenticate over a CONNECT tunnel, so credentials
        // force curlhttpsrc; and it cannot do authenticated SOCKS5 at all.
        Some(
            if socks {
                "authenticated SOCKS5 audio requires the curl source plugin"@
            } else {
                "audio cannot be proxied with credentials: the curl source plugin is missing"@
            },
        )
    } else if c == Capability::Dash && !env.has_dashdemux {
        Some("high-resolution audio cannot be proxied: the legacy adaptive demuxer is missing"@)
    } else if c == Capability::Lossy && authed && older(env.gst_version, CURL_SEEK_FIXED) {
        Some(
            "authenticated proxies need GStreamer "@ + version_text(CURL_SEEK_FIXED)
                + " or newer for seeking (found "@ + version_text(env.gst_version) + ")"@,
        )
    } else {
        None
    }
}

/// How the scheme is spelled. It keys on which library resolves the name: gio
/// has a socks5 impl and none for socks5h, while libcurl and reqwest resolve
/// locally unless told socks5h.
pub open spec fn scheme_of(socks: bool, authed: bool, c: Capability) -> Seq<char> {
    if !socks {
        "http"@
    } else if c == Capability::Api || (audio(c) && authed) {
        "socks5h"@
    } else {
        "socks5"@
    }
}

/// The scheme names there are.
pub open spec fn is_scheme(s: Seq<char>) -> bool {
    s == "http"@ || s == "socks5"@ || s == "socks5h"@
}

/// Host and port as a URI's authority, with an IPv6 literal in brackets.
pub open spec fn authority_of(host: Seq<char>, port: u16) -> Seq<char> {
    if is_ipv6(host) {
        "["@ + host + "]:"@ + decimal(port as nat)
    } else {
        host + ":"@ + decimal(port as nat)
    }
}

pub open spec fn uri_of(scheme: Seq<char>, host: Seq<char>, port: u16) -> Seq<char> {
    scheme + "://"@ + authority_of(host, port)
}

pub open spec fn through(
    socks: bool,
    host: Seq<char>,
    port: u16,
    creds: Option<CredsView>,
    c: Capability,
    env: HostCaps,
) -> Result<RouteView, Seq<char>> {
    match obstacle(socks, creds is Some, c, env) {
        Some(cause) => Err(cause),
        None => Ok(
            RouteView::Via { uri: uri_of(scheme_of(socks, creds is Some, c), host, port), creds },
        ),
    }
}

/// The route of a capability under a plan, or why it is blocked.
pub open spec fn route_of(p: PlanView, c: Capability, env: HostCaps) -> Result<
    RouteView,
    Seq<char>,
> {
    match p {
        PlanView::Direct => Ok(RouteView::NoProxy),
        PlanView::Http { host, port, creds } => through(false, host, port, creds, c, env),
        PlanView::Socks5 { host, port, creds } => through(true, host, port, creds, c, env),
    }
}

/// Host and port as a URI's authority, with an IPv6 literal in brackets.
pub fn authority(host: &str, port: u16) -> (r: String)
    ensures
        r@ == authority_of(host@, port),
{
    let mut r = String::new();
    if parses_as_ipv6(host) {
        r.append("[");
        r.append(host);
        r.append("]:");
    } else {
        r.append(host);
        r.append(":");
    }
    append_decimal(&mut r, port as u32);
    assert(r@ =~= authority_of(host@, port));
    r
}

fn append_version(out: &mut String, v: (u32, u32, u32))
    ensures
        final(out)@ == old(out)@ + version_text(v),
{
    append_decimal(out, v.0);
    out.append(".");
    append_decimal(out, v.1);
    out.append(".");
    append_decimal(out, v.2);
    assert(out@ =~= old(out)@ + version_text(v));
}

fn is_older(a: (u32, u32, u32), b: (u32, u32, u32)) -> (r: bool)
    ensures
        r == older(a, b),
{
    a.0 < b.0 || (a.0 == b.0 && a.1 < b.1) || (a.0 == b.0 && a.1 == b.1 && a.2 < b.2)
}

impl ProxyPlan {
    /// How the capability reaches the network, or why it must not.
    pub fn route(&self, c: Capability, env: &HostCaps) -> (r: Result<Route, BlockReason>)
        ensures
            match r {
                Ok(route) => route_of(self@, c, *env) == Ok::<RouteView, Seq<char>>(route@),
                Err(b) => route_of(self@, c, *env) == Err::<RouteView, Seq<char>>(b.cause@),
            },
    {
        let (host, port, creds, socks) = match self {
            ProxyPlan::Direct => return Ok(Route::NoProxy),
            ProxyPlan::Http { host, port, creds } => (host, *port, creds, false),
            ProxyPlan::Socks5 { host, port, creds } => (host, *port, creds, true),
        };
        let authed = creds.is_some();
        let on_gstreamer = c == Capability::Lossy || c == Capability::Dash;

        if on_gstreamer && authed && !env.has_curlhttpsrc {
            let cause = if socks {
                "authenticated SOCKS5 audio requires the curl source plugin"
            } else {
                "audio cannot be proxied with credentials: the curl source plugin is missing"
            };
            return Err(BlockReason::new(cause.to_owned()));
        }
        if c == Capability::Dash && !env.has_dashdemux {
            return Err(
                BlockReason::new(
                    "high-resolution audio cannot be proxied: the legacy adaptive demuxer is missing".to_owned(),
                ),
            );
        }
        if c == Capability::Lossy && authed && is_older(env.gst_version, CURL_SEEK_FIXED) {
            let mut cause = "authenticated proxies need GStreamer ".to_owned();
            append_version(&mut cause, CURL_SEEK_FIXED);
            cause.append(" or newer for seeking (found ");
            append_version(&mut cause, env.gst_version);
            cause.append(")");
            return Err(BlockReason::new(cause));
        }
        let scheme = if !socks {
            "http"
        } else if c == Capability::Api || (on_gstreamer && authed) {
            // reqwest and the curl source: socks5h is what defers resolution to
            // the proxy. The curl source is there, or the route was blocked above.
            "socks5h"
        } else {
            // WebKit and the soup source resolve via gio, which implements
            // socks5 only -- and gio's socks5 already sends the hostname.
            "socks5"
        };
        let mut uri = joined(scheme, "://");
        let authority = authority(host.as_str(), port);
        uri.append(authority.as_str());
        assert(uri@ =~= uri_of(scheme_of(socks, authed, c), host@, port));
        Ok(Route::Via { uri, creds: clone_creds(creds) })
    }
}

} // verus!
