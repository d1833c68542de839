//! The one HTTP client SONE's reqwest consumers share.
//!
//! Holding a `Result` rather than a `Client` is deliberate: there is no way to
//! obtain a client when the plan is blocked, so no consumer can fall back to a
//! direct one. reqwest auto-detects the system proxy, so a client "without a
//! proxy" would egress.
use crate::ipv6::{is_ipv4, is_ipv6};
use crate::proxy::{
    is_scheme, plan, plan_error_text, plan_of, route_of, uri_of, BlockReason, Capability, Creds,
    CredsView, HostCaps, PlanView, ProxyPlan, Route, RouteView,
};
use crate::settings::{ProxySettings, ProxySettingsView};
use crate::text::joined;
use vstd::prelude::*;
use vstd::string::*;

verus! {

#[verifier::external_type_specification]
#[verifier::external_body]
pub struct ExClient(reqwest::Client);

#[verifier::external_type_specification]
#[verifier::external_body]
pub struct ExClientBuilder(reqwest::ClientBuilder);

#[verifier::external_type_specification]
#[verifier::external_body]
pub struct ExProxy(reqwest::Proxy);

#[verifier::external_type_specification]
#[verifier::external_body]
pub struct ExReqwestError(reqwest::Error);

/// A proxy that takes all traffic: the URI it was made of, and the credentials
/// it was given beside the URI.
#[verifier::ext_equal]
pub struct ProxyTarget {
    pub uri: Seq<char>,
    pub creds: Option<CredsView>,
}

/// What a client was told: its proxies in the order they are tried, whether
/// the system's own proxies come after them, its timeout, and whether that is
/// all it was told.
#[verifier::ext_equal]
pub struct ClientConfig {
    pub proxies: Seq<ProxyTarget>,
    pub system: bool,
    pub timeout_secs: Option<u64>,
    pub plain: bool,
}

/// What a `reqwest::Proxy` was made of, and the credentials last given beside
/// it.
pub uninterp spec fn proxy_target(p: reqwest::Proxy) -> ProxyTarget;

/// What a `reqwest::ClientBuilder` holds so far.
pub uninterp spec fn builder_config(b: reqwest::ClientBuilder) -> ClientConfig;

/// What a `reqwest::Client` was built with.
pub uninterp spec fn client_config(c: reqwest::Client) -> ClientConfig;

/// Whether a `reqwest::Error` may read as `words` when it is shown. The words
/// of an error from the operating system go by the locale, so an error may
/// read in more ways than one.
pub uninterp spec fn error_reads(e: reqwest::Error, words: Seq<char>) -> bool;

/// Whether `e` is an error with which `reqwest::Proxy::all` refuses `uri`.
pub uninterp spec fn proxy_refusal(uri: Seq<char>, e: reqwest::Error) -> bool;

/// Whether `reqwest::Proxy::all` takes `uri`, where that begins with `http://`.
pub uninterp spec fn http_proxy_accepted(uri: Seq<char>) -> bool;

/// Whether `uri` is for an HTTP proxy.
pub open spec fn http_uri(uri: Seq<char>) -> bool {
    uri.len() >= 7 && uri.take(7) == "http://"@
}

/// Whether `uri` is what a route makes of an IP address and a port.
pub open spec fn address_uri(uri: Seq<char>) -> bool {
    exists|scheme: Seq<char>, host: Seq<char>, port: u16|
        is_scheme(scheme) && (is_ipv4(host) || is_ipv6(host)) && uri == #[trigger] uri_of(
            scheme,
            host,
            port,
        )
}

/// The longest host name that the domain name system knows.
pub const NAME_MAX: usize = 253;

/// A host name in its plain form: labels of small letters, digits and hyphens,
/// each label beginning with a letter and no hyphen ending one or doubled.
pub open spec fn plain_name(host: Seq<char>) -> bool {
    &&& 0 < host.len() <= NAME_MAX
    &&& forall|i: int|
        0 <= i < host.len() ==> small_or_digit(#[trigger] host[i]) || host[i] == '.' || host[i]
            == '-'
    &&& forall|i: int|
        0 <= i < host.len() && (i == 0 || host[i - 1] == '.') ==> 'a' <= #[trigger] host[i] <= 'z'
    &&& forall|i: int|
        0 <= i < host.len() && #[trigger] host[i] == '-' ==> i + 1 < host.len() && small_or_digit(
            host[i + 1],
        )
}

pub open spec fn small_or_digit(c: char) -> bool {
    'a' <= c <= 'z' || '0' <= c <= '9'
}

/// Whether `uri` is what a route makes of an HTTP proxy with a plain name.
pub open spec fn name_uri(uri: Seq<char>) -> bool {
    exists|host: Seq<char>, port: u16|
        plain_name(host) && uri == #[trigger] uri_of("http"@, host, port)
}

/// `reqwest::Client::builder`: no proxies, the system's own left on, no
/// timeout, and nothing else set.
#[verifier::external_body]
fn client_builder() -> (b: reqwest::ClientBuilder)
    ensures
        builder_config(b) == (ClientConfig {
            proxies: Seq::empty(),
            system: true,
            timeout_secs: None,
            plain: true,
        }),
{
    reqwest::Client::builder()
}

/// `reqwest::ClientBuilder::timeout`: sets the timeout and nothing else.
#[verifier::external_body]
fn with_timeout(b: reqwest::ClientBuilder, secs: u64) -> (r: reqwest::ClientBuilder)
    ensures
        builder_config(r) == (ClientConfig { timeout_secs: Some(secs), ..builder_config(b) }),
{
    b.timeout(std::time::Duration::from_secs(secs))
}

/// `reqwest::Proxy::all`: a proxy for all traffic, made of `uri` and given
/// nothing beside it, or a refusal of `uri`. The answer for an HTTP URI goes by
/// the URI alone; which names other than plain ones it takes is left unsaid. An
/// IP address with a port is always taken, and so is an HTTP proxy with a plain
/// name, which needs no lookup here. For a SOCKS5 URI with a host name the host
/// is looked up, so whether that succeeds is the resolver's to say and is left
/// unsaid.
#[verifier::external_body]
fn proxy_for_all(uri: &str) -> (r: Result<reqwest::Proxy, reqwest::Error>)
    ensures
        match r {
            Ok(p) => proxy_target(p) == (ProxyTarget { uri: uri@, creds: None }),
            Err(e) => proxy_refusal(uri@, e),
        },
        http_uri(uri@) ==> (r is Ok <==> http_proxy_accepted(uri@)),
        address_uri(uri@) ==> r is Ok,
        name_uri(uri@) ==> r is Ok,
{
    reqwest::Proxy::all(uri)
}

/// `reqwest::Proxy::basic_auth`: sets the credentials, whatever they were, and
/// nothing else. It panics on the system's own proxy only, a value that reqwest
/// keeps to itself.
#[verifier::external_body]
fn with_basic_auth(p: reqwest::Proxy, user: &str, pass: &str) -> (r: reqwest::Proxy)
    ensures
        proxy_target(r) == (ProxyTarget {
            creds: Some(CredsView { user: user@, pass: pass@ }),
            ..proxy_target(p)
        }),
{
    p.basic_auth(user, pass)
}

/// `reqwest::ClientBuilder::proxy`: adds the proxy after those already there
/// and leaves the system's own out.
#[verifier::external_body]
fn with_proxy(b: reqwest::ClientBuilder, p: reqwest::Proxy) -> (r: reqwest::ClientBuilder)
    ensures
        builder_config(r) == (ClientConfig {
            proxies: builder_config(b).proxies.push(proxy_target(p)),
            system: false,
            ..builder_config(b)
        }),
{
    b.proxy(p)
}

/// `reqwest::ClientBuilder::build`: a client with what the builder held. With
/// rustls and its built-in roots, the one TLS backend that this crate enables,
/// and reqwest's default resolver, nothing can fail for a builder that was told
/// of proxies and a timeout only. Whether it succeeds for others is left unsaid.
#[verifier::external_body]
fn build(b: reqwest::ClientBuilder) -> (r: Result<reqwest::Client, reqwest::Error>)
    ensures
        r matches Ok(c) ==> client_config(c) == builder_config(b),
        builder_config(b).plain ==> r is Ok,
{
    b.build()
}

/// `<reqwest::Client as Clone>::clone`: another handle on the same client.
#[verifier::external_body]
fn clone_client(c: &reqwest::Client) -> (r: reqwest::Client)
    ensures
        r == *c,
{
    c.clone()
}

/// `<reqwest::Error as Display>::fmt`, by way of `format!`: a text that the
/// error may read as. Two calls may differ.
#[verifier::external_body]
fn error_to_string(e: &reqwest::Error) -> (r: String)
    ensures
        error_reads(*e, r@),
{
    format!("{}", e)
}

/// How long a request may take.
pub const TIMEOUT_SECS: u64 = 30;

/// What a client must be told to follow a route.
pub open spec fn config_for(route: RouteView) -> ClientConfig {
    match route {
        // Direct means the system's own configuration applies: reqwest's
        // auto-detection is left alone.
        RouteView::NoProxy => ClientConfig {
            proxies: Seq::empty(),
            system: true,
            timeout_secs: Some(TIMEOUT_SECS),
            plain: true,
        },
        RouteView::Via { uri, creds } => ClientConfig {
            proxies: seq![ProxyTarget { uri, creds }],
            system: false,
            timeout_secs: Some(TIMEOUT_SECS),
            plain: true,
        },
    }
}

/// The cause of a block at a proxy that reqwest refuses.
pub open spec fn unusable_text(uri: Seq<char>, detail: Seq<char>) -> Seq<char> {
    "proxy unusable ("@ + uri + "): "@ + detail
}

/// The cause of a block at a client that reqwest cannot build.
pub open spec fn unbuilt_text(detail: Seq<char>) -> Seq<char> {
    "could not build HTTP client: "@ + detail
}

/// Puts the proxy that reqwest made of `uri`, if it made one, into the builder.
pub fn attach_proxy(
    builder: reqwest::ClientBuilder,
    uri: &str,
    creds: Option<Creds>,
    made: Result<reqwest::Proxy, reqwest::Error>,
) -> (r: Result<reqwest::ClientBuilder, BlockReason>)
    ensures
        match (made, r) {
            (Ok(p), Ok(b)) => builder_config(b) == (ClientConfig {
                proxies: builder_config(builder).proxies.push(
                    match creds {
                        Some(c) => ProxyTarget { creds: Some(c@), ..proxy_target(p) },
                        None => proxy_target(p),
                    },
                ),
                system: false,
                ..builder_config(builder)
            }),
            (Err(e), Err(block)) => exists|words: Seq<char>| #[trigger]
                error_reads(e, words) && block.cause@ == unusable_text(uri@, words),
            _ => false,
        },
{
    match made {
        Ok(p) => {
            // Credentials never travel in the URI: `Route::Via` keeps them
            // apart and `basic_auth` is the only thing that reunites them.
            let p = match creds {
                Some(c) => with_basic_auth(p, c.user.as_str(), c.pass.as_str()),
                None => p,
            };
            Ok(with_proxy(builder, p))
        },
        Err(e) => {
            let mut cause = joined("proxy unusable (", uri);
            cause.append("): ");
            cause.append(error_to_string(&e).as_str());
            Err(BlockReason::new(cause))
        },
    }
}

/// What a build gave: the client, or a block that says why there is none.
pub fn built_client(built: Result<reqwest::Client, reqwest::Error>) -> (r: Result<
    reqwest::Client,
    BlockReason,
>)
    ensures
        match (built, r) {
            (Ok(c), Ok(d)) => c == d,
            (Err(e), Err(block)) => exists|words: Seq<char>| #[trigger]
                error_reads(e, words) && block.cause@ == unbuilt_text(words),
            _ => false,
        },
{
    match built {
        Ok(c) => Ok(c),
        Err(e) => Err(
            BlockReason::new(
                joined("could not build HTTP client: ", error_to_string(&e).as_str()),
            ),
        ),
    }
}

/// Whether reqwest's refusal of `uri` may give a block this cause.
pub open spec fn unusable(uri: Seq<char>, cause: Seq<char>) -> bool {
    exists|e: reqwest::Error, words: Seq<char>|
        #![trigger proxy_refusal(uri, e), error_reads(e, words)]
        proxy_refusal(uri, e) && error_reads(e, words) && cause == unusable_text(uri, words)
}

/// What a cell hands out: a client, or a block that says why there is none.
pub type Slot = Result<reqwest::Client, BlockReason>;

/// What there is to say of a slot: what its client was built with, or the cause
/// of its block.
pub open spec fn slot_view(slot: Slot) -> Result<ClientConfig, Seq<char>> {
    match slot {
        Ok(c) => Ok(client_config(c)),
        Err(block) => Err(block.cause@),
    }
}

/// Whether `slot` is what building a client for the route may give: a client
/// that follows the route or, where reqwest refuses the proxy, a block that
/// says so. What reqwest does with an HTTP proxy goes by the URI alone, and it
/// never refuses an IP address or an HTTP proxy with a plain name.
pub open spec fn slot_for_route(route: RouteView, slot: Result<ClientConfig, Seq<char>>) -> bool {
    match (route, slot) {
        (RouteView::NoProxy, Ok(config)) => config == config_for(route),
        (RouteView::NoProxy, Err(_)) => false,
        (RouteView::Via { uri, .. }, Ok(config)) => config == config_for(route) && (http_uri(uri)
            ==> http_proxy_accepted(uri)),
        (RouteView::Via { uri, .. }, Err(cause)) => {
            &&& unusable(uri, cause)
            &&& http_uri(uri) ==> !http_proxy_accepted(uri)
            &&& !address_uri(uri)
            &&& !name_uri(uri)
        },
    }
}

/// Whether `slot` is what building a client for the plan may give. A plan that
/// is itself blocked gives its own cause.
pub open spec fn slot_for_plan(
    p: PlanView,
    env: HostCaps,
    slot: Result<ClientConfig, Seq<char>>,
) -> bool {
    match route_of(p, Capability::Api, env) {
        Ok(route) => slot_for_route(route, slot),
        Err(blocked) => slot == Err::<ClientConfig, Seq<char>>(blocked),
    }
}

/// A client that goes where the plan says, or the reason there is none.
pub fn build_client(p: &ProxyPlan, env: &HostCaps) -> (r: Result<reqwest::Client, BlockReason>)
    ensures
        slot_for_plan(p@, *env, slot_view(r)),
{
    let builder = with_timeout(client_builder(), TIMEOUT_SECS);
    let builder = match p.route(Capability::Api, env) {
        Err(block) => return Err(block),
        Ok(Route::NoProxy) => builder,
        Ok(Route::Via { uri, creds }) => match attach_proxy(
            builder,
            uri.as_str(),
            creds,
            proxy_for_all(uri.as_str()),
        ) {
            Ok(b) => b,
            Err(block) => return Err(block),
        },
    };
    built_client(build(builder))
}

/// The cell that every reqwest consumer reads through, and the order of the
/// updates to it: an update claims its place before its client is built, and
/// the highest claim wins the cell, whichever build finishes last.
pub struct ProxiedHttp {
    slot: Result<reqwest::Client, BlockReason>,
    claimed: u64,
    applied: u64,
}

impl ProxiedHttp {
    #[verifier::type_invariant]
    spec fn filled_under_a_claim(self) -> bool {
        self.applied <= self.claimed
    }
}

pub struct CellView {
    pub slot: Slot,
    /// The highest claim made.
    pub claimed: u64,
    /// The claim that the slot was filled under.
    pub applied: u64,
}

impl View for ProxiedHttp {
    type V = CellView;

    closed spec fn view(&self) -> CellView {
        CellView { slot: self.slot, claimed: self.claimed, applied: self.applied }
    }
}

/// The slot was filled under a claim that was made: the invariant of the cell,
/// seen from outside.
pub open spec fn ordered(cell: CellView) -> bool {
    cell.applied <= cell.claimed
}

/// The claim after `n`. At the end of the numbers the last one is shared.
pub open spec fn next_claim(n: u64) -> u64 {
    if n < u64::MAX {
        (n + 1) as u64
    } else {
        n
    }
}

pub open spec fn cell_claimed(cell: CellView) -> CellView {
    CellView { claimed: next_claim(cell.claimed), ..cell }
}

/// The cell after an update under `generation` finished with `slot`: left
/// alone if a higher claim has filled it already.
pub open spec fn cell_installed(cell: CellView, generation: u64, slot: Slot) -> CellView {
    if generation < cell.applied {
        cell
    } else {
        CellView {
            slot,
            claimed: if cell.claimed < generation {
                generation
            } else {
                cell.claimed
            },
            applied: generation,
        }
    }
}

/// The cell after a replacement, which is the newest claim there is.
pub open spec fn cell_replaced(cell: CellView, slot: Slot) -> CellView {
    CellView { slot, claimed: next_claim(cell.claimed), applied: next_claim(cell.claimed) }
}

/// Whether `slot` is what the settings may give: settings that form no plan
/// block, with the reason they form none.
pub open spec fn slot_for_settings(
    s: ProxySettingsView,
    env: HostCaps,
    slot: Result<ClientConfig, Seq<char>>,
) -> bool {
    match plan_of(s) {
        Ok(p) => slot_for_plan(p, env, slot),
        Err(e) => slot == Err::<ClientConfig, Seq<char>>(plan_error_text(e)),
    }
}

/// Whether `r` reports what was built: nothing to say of a client, and the
/// block where there is one.
pub open spec fn reports(slot: Slot, r: Result<(), BlockReason>) -> bool {
    match (slot, r) {
        (Ok(_), Ok(_)) => true,
        (Err(block), Err(reported)) => reported == block,
        _ => false,
    }
}

/// The client that settings call for. The single place that decides what
/// unplannable settings mean: a block, never a direct connection.
pub fn client_for_settings(s: &ProxySettings, env: &HostCaps) -> (r: Result<
    reqwest::Client,
    BlockReason,
>)
    ensures
        slot_for_settings(s@, *env, slot_view(r)),
{
    match plan(s, env) {
        Ok(p) => build_client(&p, env),
        Err(e) => Err(BlockReason::new(e.to_string())),
    }
}

impl ProxiedHttp {
    pub fn from_plan(p: &ProxyPlan, env: &HostCaps) -> (r: Self)
        ensures
            slot_for_plan(p@, *env, slot_view(r@.slot)),
            r@.claimed == 0,
            r@.applied == 0,
            ordered(r@),
    {
        ProxiedHttp { slot: build_client(p, env), claimed: 0, applied: 0 }
    }

    /// Blocked plans return `Err`; there is no proxy-less fallback.
    pub fn client(&self) -> (r: Result<reqwest::Client, BlockReason>)
        ensures
            r == self@.slot,
            ordered(self@),
    {
        proof {
            use_type_invariant(self);
        }
        match &self.slot {
            Ok(c) => Ok(clone_client(c)),
            Err(block) => Err(block.clone()),
        }
    }

    /// Fills the cell with `next`, ahead of every claim made so far.
    pub fn put(&mut self, next: Result<reqwest::Client, BlockReason>)
        ensures
            final(self)@ == cell_replaced(old(self)@, next),
            ordered(final(self)@),
    {
        let generation: u64 = self.claim();
        self.slot = next;
        self.applied = generation;
    }

    pub fn replace(&mut self, p: &ProxyPlan, env: &HostCaps)
        ensures
            final(self)@ == cell_replaced(old(self)@, final(self)@.slot),
            ordered(final(self)@),
            slot_for_plan(p@, *env, slot_view(final(self)@.slot)),
    {
        let next = build_client(p, env);
        self.put(next);
    }

    /// Takes the next place in the order of updates.
    pub fn claim(&mut self) -> (r: u64)
        ensures
            final(self)@ == cell_claimed(old(self)@),
            r == final(self)@.claimed,
            ordered(final(self)@),
    {
        proof {
            use_type_invariant(&*self);
        }
        if self.claimed < u64::MAX {
            self.claimed = self.claimed + 1;
        }
        self.claimed
    }

    /// Finishes the update claimed as `generation` with what its build gave,
    /// and says whether that is usable.
    pub fn install_at(&mut self, generation: u64, next: Result<reqwest::Client, BlockReason>) -> (r:
        Result<(), BlockReason>)
        ensures
            final(self)@ == cell_installed(old(self)@, generation, next),
            ordered(final(self)@),
            reports(next, r),
    {
        proof {
            use_type_invariant(&*self);
        }
        let verdict = match &next {
            Ok(_) => Ok(()),
            Err(block) => Err(block.clone()),
        };
        if generation >= self.applied {
            self.slot = next;
            if self.claimed < generation {
                self.claimed = generation;
            }
            self.applied = generation;
        }
        verdict
    }

    /// Builds the client that the settings call for and installs it under
    /// `generation`.
    pub fn apply_at(&mut self, generation: u64, s: &ProxySettings, env: &HostCaps) -> (r: Result<
        (),
        BlockReason,
    >)
        ensures
            exists|slot: Slot|
                {
                    &&& slot_for_settings(s@, *env, slot_view(slot))
                    &&& final(self)@ == #[trigger] cell_installed(old(self)@, generation, slot)
                    &&& reports(slot, r)
                },
            ordered(final(self)@),
    {
        let next = client_for_settings(s, env);
        self.install_at(generation, next)
    }
}

} // verus!
