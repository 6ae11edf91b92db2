use vstd::prelude::*;

verus! {

use crate::rule::opt_str_view;
use crate::table::{Table, tbl_wf, spec_insert, spec_merge, spec_get, key_in, lemma_merge_get};

// ---------------------------------------------------------------------------
// Views of the document objects
// ---------------------------------------------------------------------------

/// The view of an optional priority field.
pub open spec fn opt_i32_view(o: Option<i32>) -> Option<int> {
    match o {
        Some(p) => Some(p as int),
        None => None,
    }
}

// ---------------------------------------------------------------------------
// HTTP-side document objects
// ---------------------------------------------------------------------------

/// TLS termination metadata on an HTTP router: which certificate resolver to
/// reference, if any.
pub struct HttpTls {
    pub cert_resolver: Option<String>,
}

#[verifier::ext_equal]
pub ghost struct HttpTlsV {
    pub cert_resolver: Option<Seq<char>>,
}

impl View for HttpTls {
    type V = HttpTlsV;

    open spec fn view(&self) -> HttpTlsV {
        HttpTlsV { cert_resolver: opt_str_view(self.cert_resolver) }
    }
}

/// An HTTP router: a matching rule pointed at a service, with optional
/// priority, middlewares and TLS metadata.
pub struct HttpRouter {
    pub rule: String,
    pub service: String,
    pub priority: Option<i32>,
    pub middlewares: Vec<String>,
    pub tls: Option<HttpTls>,
}

#[verifier::ext_equal]
pub ghost struct HttpRouterV {
    pub rule: Seq<char>,
    pub service: Seq<char>,
    pub priority: Option<int>,
    pub middlewares: Seq<Seq<char>>,
    pub tls: Option<HttpTlsV>,
}

impl View for HttpRouter {
    type V = HttpRouterV;

    open spec fn view(&self) -> HttpRouterV {
        HttpRouterV {
            rule: self.rule@,
            service: self.service@,
            priority: opt_i32_view(self.priority),
            middlewares: self.middlewares.deep_view(),
            tls: match self.tls {
                Some(t) => Some(t@),
                None => None,
            },
        }
    }
}

/// One upstream target URL of an HTTP service.
pub struct HttpServer {
    pub url: String,
}

#[verifier::ext_equal]
pub ghost struct HttpServerV {
    pub url: Seq<char>,
}

impl View for HttpServer {
    type V = HttpServerV;

    open spec fn view(&self) -> HttpServerV {
        HttpServerV { url: self.url@ }
    }
}

/// The load balancer of an HTTP service: its list of upstream servers.
pub struct HttpLoadBalancer {
    pub servers: Vec<HttpServer>,
}

#[verifier::ext_equal]
pub ghost struct HttpLoadBalancerV {
    pub servers: Seq<HttpServerV>,
}

impl View for HttpLoadBalancer {
    type V = HttpLoadBalancerV;

    open spec fn view(&self) -> HttpLoadBalancerV {
        HttpLoadBalancerV { servers: self.servers@.map_values(|s: HttpServer| s@) }
    }
}

/// An HTTP service: a load balancer over upstream targets.
pub struct HttpService {
    pub load_balancer: HttpLoadBalancer,
}

#[verifier::ext_equal]
pub ghost struct HttpServiceV {
    pub load_balancer: HttpLoadBalancerV,
}

impl View for HttpService {
    type V = HttpServiceV;

    open spec fn view(&self) -> HttpServiceV {
        HttpServiceV { load_balancer: self.load_balancer@ }
    }
}

/// The scheme a redirect middleware rewrites requests to.
#[derive(PartialEq, Eq, Structural, Clone, Copy, Debug)]
pub enum HttpScheme {
    Http,
    Https,
}

/// A scheme-redirect directive.
#[derive(PartialEq, Eq, Structural, Clone, Copy, Debug)]
pub struct HttpRedirectScheme {
    pub scheme: HttpScheme,
}

/// An HTTP middleware; the only behavior used here is scheme redirection.
#[derive(PartialEq, Eq, Structural, Clone, Copy, Debug)]
pub struct HttpMiddleware {
    pub redirect_scheme: Option<HttpRedirectScheme>,
}

impl View for HttpMiddleware {
    type V = HttpMiddleware;

    open spec fn view(&self) -> HttpMiddleware {
        *self
    }
}

/// The middleware that redirects plain-HTTP requests to HTTPS.
pub open spec fn https_redirect_middleware() -> HttpMiddleware {
    HttpMiddleware { redirect_scheme: Some(HttpRedirectScheme { scheme: HttpScheme::Https }) }
}

// ---------------------------------------------------------------------------
// TCP-side document objects
// ---------------------------------------------------------------------------

/// TLS handling of a TCP router: whether the TLS stream is passed through
/// without termination.
#[derive(PartialEq, Eq, Structural, Clone, Copy, Debug)]
pub struct TcpTls {
    pub passthrough: bool,
}

/// A TCP router: an SNI matching rule pointed at a TCP service.
pub struct TcpRouter {
    pub rule: String,
    pub service: String,
    pub priority: Option<i32>,
    pub tls: Option<TcpTls>,
}

#[verifier::ext_equal]
pub ghost struct TcpRouterV {
    pub rule: Seq<char>,
    pub service: Seq<char>,
    pub priority: Option<int>,
    pub tls: Option<TcpTls>,
}

impl View for TcpRouter {
    type V = TcpRouterV;

    open spec fn view(&self) -> TcpRouterV {
        TcpRouterV {
            rule: self.rule@,
            service: self.service@,
            priority: opt_i32_view(self.priority),
            tls: self.tls,
        }
    }
}

/// One upstream `host:port` target of a TCP service.
pub struct TcpServer {
    pub address: String,
}

#[verifier::ext_equal]
pub ghost struct TcpServerV {
    pub address: Seq<char>,
}

impl View for TcpServer {
    type V = TcpServerV;

    open spec fn view(&self) -> TcpServerV {
        TcpServerV { address: self.address@ }
    }
}

/// The load balancer of a TCP service: its list of upstream addresses.
pub struct TcpLoadBalancer {
    pub servers: Vec<TcpServer>,
}

#[verifier::ext_equal]
pub ghost struct TcpLoadBalancerV {
    pub servers: Seq<TcpServerV>,
}

impl View for TcpLoadBalancer {
    type V = TcpLoadBalancerV;

    open spec fn view(&self) -> TcpLoadBalancerV {
        TcpLoadBalancerV { servers: self.servers@.map_values(|s: TcpServer| s@) }
    }
}

/// A TCP service: a load balancer over upstream addresses.
pub struct TcpService {
    pub load_balancer: TcpLoadBalancer,
}

#[verifier::ext_equal]
pub ghost struct TcpServiceV {
    pub load_balancer: TcpLoadBalancerV,
}

impl View for TcpService {
    type V = TcpServiceV;

    open spec fn view(&self) -> TcpServiceV {
        TcpServiceV { load_balancer: self.load_balancer@ }
    }
}

// ---------------------------------------------------------------------------
// The two document sections and the document
// ---------------------------------------------------------------------------

/// The HTTP section: routers, services and middlewares, each keyed by name.
pub struct HttpConfig {
    pub routers: Table<HttpRouter>,
    pub services: Table<HttpService>,
    pub middlewares: Table<HttpMiddleware>,
}

#[verifier::ext_equal]
pub ghost struct HttpConfigV {
    pub routers: Seq<(Seq<char>, HttpRouterV)>,
    pub services: Seq<(Seq<char>, HttpServiceV)>,
    pub middlewares: Seq<(Seq<char>, HttpMiddleware)>,
}

impl View for HttpConfig {
    type V = HttpConfigV;

    open spec fn view(&self) -> HttpConfigV {
        HttpConfigV {
            routers: self.routers@,
            services: self.services@,
            middlewares: self.middlewares@,
        }
    }
}

/// An empty HTTP section.
pub open spec fn http_config_empty() -> HttpConfigV {
    HttpConfigV {
        routers: Seq::empty(),
        services: Seq::empty(),
        middlewares: Seq::empty(),
    }
}

/// All three mappings of the section are strictly sorted by name.
pub open spec fn http_config_wf(c: HttpConfigV) -> bool {
    tbl_wf(c.routers) && tbl_wf(c.services) && tbl_wf(c.middlewares)
}

/// Name-wise merge of two HTTP sections; on a shared name the entry of `b`
/// wins.
pub open spec fn spec_http_merge(a: HttpConfigV, b: HttpConfigV) -> HttpConfigV {
    HttpConfigV {
        routers: spec_merge(a.routers, b.routers),
        services: spec_merge(a.services, b.services),
        middlewares: spec_merge(a.middlewares, b.middlewares),
    }
}

/// Merge stability at the section level: a name present in `b` maps to the
/// entry of `b`, any other name to its entry in `a`; in particular the merge
/// holds the union of both sides' names and drops nothing, and on a shared
/// name the later fragment's entry wins.
pub proof fn lemma_http_merge_stable(a: HttpConfigV, b: HttpConfigV, x: Seq<char>)
    requires
        http_config_wf(b),
    ensures
        spec_get(spec_http_merge(a, b).routers, x) == if key_in(b.routers, x) {
            spec_get(b.routers, x)
        } else {
            spec_get(a.routers, x)
        },
        spec_get(spec_http_merge(a, b).services, x) == if key_in(b.services, x) {
            spec_get(b.services, x)
        } else {
            spec_get(a.services, x)
        },
        spec_get(spec_http_merge(a, b).middlewares, x) == if key_in(b.middlewares, x) {
            spec_get(b.middlewares, x)
        } else {
            spec_get(a.middlewares, x)
        },
{
    lemma_merge_get(a.routers, b.routers, x);
    lemma_merge_get(a.services, b.services, x);
    lemma_merge_get(a.middlewares, b.middlewares, x);
}

/// The HTTP section after the default `https-redirect` middleware was added.
pub open spec fn spec_with_default_middlewares(c: HttpConfigV) -> HttpConfigV {
    HttpConfigV {
        routers: c.routers,
        services: c.services,
        middlewares: spec_insert(c.middlewares, "https-redirect"@, https_redirect_middleware()),
    }
}

impl HttpConfig {
    /// All three mappings are strictly sorted by name.
    pub open spec fn wf(&self) -> bool {
        http_config_wf(self@)
    }

    /// An empty HTTP section.
    pub fn new() -> (c: Self)
        ensures
            c@ == http_config_empty(),
            c.wf(),
    {
        let c = HttpConfig {
            routers: Table::new(),
            services: Table::new(),
            middlewares: Table::new(),
        };
        c
    }

    /// Fold the mappings of `other` into this section; on a shared name the
    /// entry of `other` wins.
    pub fn merge(&mut self, other: HttpConfig)
        requires
            old(self).wf(),
            other.wf(),
        ensures
            final(self).wf(),
            final(self)@ == spec_http_merge(old(self)@, other@),
    {
        self.routers.merge(other.routers);
        self.services.merge(other.services);
        self.middlewares.merge(other.middlewares);
    }

    /// Add the default `https-redirect` middleware definition.
    pub fn add_default_middlewares(&mut self)
        requires
            old(self).wf(),
        ensures
            final(self).wf(),
            final(self)@ == spec_with_default_middlewares(old(self)@),
    {
        self.middlewares.insert(
            String::from_str("https-redirect"),
            HttpMiddleware {
                redirect_scheme: Some(HttpRedirectScheme { scheme: HttpScheme::Https }),
            },
        );
    }

    /// Whether the section holds no router, service or middleware.
    pub fn is_empty(&self) -> (r: bool)
        ensures
            r == (self@.routers.len() == 0 && self@.services.len() == 0 && self@.middlewares.len()
                == 0),
    {
        self.routers.is_empty() && self.services.is_empty() && self.middlewares.is_empty()
    }
}

/// The TCP section: routers and services, each keyed by name.
pub struct TcpConfig {
    pub routers: Table<TcpRouter>,
    pub services: Table<TcpService>,
}

#[verifier::ext_equal]
pub ghost struct TcpConfigV {
    pub routers: Seq<(Seq<char>, TcpRouterV)>,
    pub services: Seq<(Seq<char>, TcpServiceV)>,
}

impl View for TcpConfig {
    type V = TcpConfigV;

    open spec fn view(&self) -> TcpConfigV {
        TcpConfigV { routers: self.routers@, services: self.services@ }
    }
}

/// An empty TCP section.
pub open spec fn tcp_config_empty() -> TcpConfigV {
    TcpConfigV { routers: Seq::empty(), services: Seq::empty() }
}

/// Both mappings of the section are strictly sorted by name.
pub open spec fn tcp_config_wf(c: TcpConfigV) -> bool {
    tbl_wf(c.routers) && tbl_wf(c.services)
}

impl TcpConfig {
    /// Both mappings are strictly sorted by name.
    pub open spec fn wf(&self) -> bool {
        tcp_config_wf(self@)
    }

    /// An empty TCP section.
    pub fn new() -> (c: Self)
        ensures
            c@ == tcp_config_empty(),
            c.wf(),
    {
        TcpConfig { routers: Table::new(), services: Table::new() }
    }

    /// Whether the section holds no router or service.
    pub fn is_empty(&self) -> (r: bool)
        ensures
            r == (self@.routers.len() == 0 && self@.services.len() == 0),
    {
        self.routers.is_empty() && self.services.is_empty()
    }
}

/// The whole proxy configuration document: an HTTP and a TCP section.
pub struct TraefikConfig {
    pub http: HttpConfig,
    pub tcp: TcpConfig,
}

#[verifier::ext_equal]
pub ghost struct TraefikConfigV {
    pub http: HttpConfigV,
    pub tcp: TcpConfigV,
}

impl View for TraefikConfig {
    type V = TraefikConfigV;

    open spec fn view(&self) -> TraefikConfigV {
        TraefikConfigV { http: self.http@, tcp: self.tcp@ }
    }
}

/// An empty document.
pub open spec fn traefik_config_empty() -> TraefikConfigV {
    TraefikConfigV { http: http_config_empty(), tcp: tcp_config_empty() }
}

/// Every mapping of the document is strictly sorted by name.
pub open spec fn traefik_config_wf(c: TraefikConfigV) -> bool {
    http_config_wf(c.http) && tcp_config_wf(c.tcp)
}

impl TraefikConfig {
    /// Every mapping of the document is strictly sorted by name.
    pub open spec fn wf(&self) -> bool {
        traefik_config_wf(self@)
    }

    /// An empty document.
    pub fn new() -> (c: Self)
        ensures
            c@ == traefik_config_empty(),
            c.wf(),
    {
        TraefikConfig { http: HttpConfig::new(), tcp: TcpConfig::new() }
    }
}

} // verus!
