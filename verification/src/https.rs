use vstd::prelude::*;

verus! {

use crate::config::Config;
use crate::rule::{spec_rule, build_rule, spec_host_rule, host_rule, spec_acme_rule, acme_rule,
    spec_route_name, route_name, with_suffix, opt_str_view, normalize_prefix};
use crate::table::spec_insert;
use crate::text::trimmed;
use crate::traefik::{HttpConfig, HttpConfigV, HttpRouter, HttpRouterV, HttpService, HttpServiceV,
    HttpLoadBalancer, HttpLoadBalancerV, HttpServer, HttpServerV, HttpTls, HttpTlsV,
    http_config_empty, opt_i32_view};
use vstd::string::StrSliceExecFns;
use vstd::string::StringExecFns;

// ---------------------------------------------------------------------------
// The HTTPS route record
// ---------------------------------------------------------------------------

/// A persisted HTTPS route: like a plain-HTTP route, optionally emitting an
/// HTTP-to-HTTPS redirect and an unencrypted ACME HTTP-01 challenge path.
pub struct HttpsRoute {
    pub id: i32,
    pub enabled: bool,
    pub name: String,
    pub priority: Option<i32>,
    pub target: String,
    pub host_regex: bool,
    pub host: String,
    pub prefix: Option<String>,
    pub https_redirect: bool,
    pub allow_http_acme: bool,
}

#[verifier::ext_equal]
pub ghost struct HttpsRouteV {
    pub id: int,
    pub enabled: bool,
    pub name: Seq<char>,
    pub priority: Option<int>,
    pub target: Seq<char>,
    pub host_regex: bool,
    pub host: Seq<char>,
    pub prefix: Option<Seq<char>>,
    pub https_redirect: bool,
    pub allow_http_acme: bool,
}

impl View for HttpsRoute {
    type V = HttpsRouteV;

    open spec fn view(&self) -> HttpsRouteV {
        HttpsRouteV {
            id: self.id as int,
            enabled: self.enabled,
            name: self.name@,
            priority: opt_i32_view(self.priority),
            target: self.target@,
            host_regex: self.host_regex,
            host: self.host@,
            prefix: opt_str_view(self.prefix),
            https_redirect: self.https_redirect,
            allow_http_acme: self.allow_http_acme,
        }
    }
}

impl HttpsRoute {
    /// Normalize the record before use: an all-whitespace prefix counts as
    /// absent.
    pub fn cleanup(&mut self)
        ensures
            final(self)@ == (HttpsRouteV {
                prefix: normalize_prefix(old(self)@.prefix),
                ..old(self)@
            }),
    {
        let blank = match &self.prefix {
            Some(p) => {
                let t = trimmed(p.as_str());
                t.as_str().unicode_len() == 0
            },
            None => false,
        };
        if blank {
            self.prefix = None;
        }
    }
}

// ---------------------------------------------------------------------------
// The HTTPS translator
// ---------------------------------------------------------------------------

/// The resolver reference derived from the configured name: an empty name
/// means none.
pub open spec fn spec_resolver(name: Seq<char>) -> Option<Seq<char>> {
    if name.len() == 0 {
        None
    } else {
        Some(name)
    }
}

/// The configuration-object name of an HTTPS route.
pub open spec fn spec_https_name(r: HttpsRouteV) -> Seq<char> {
    spec_route_name("https"@, r.id, r.name)
}

/// The full matching rule of an HTTPS route: host rule plus normalized
/// prefix.
pub open spec fn spec_https_full_rule(r: HttpsRouteV) -> Seq<char> {
    spec_rule(r.host, r.host_regex, r.prefix, false)
}

/// The redirect router emitted when `https_redirect` is set: the same rule
/// plain HTTP traffic would match, pointed at the no-op internal service,
/// carrying the `https-redirect` middleware.
pub open spec fn spec_https_redirect_router(r: HttpsRouteV) -> HttpRouterV {
    HttpRouterV {
        rule: spec_https_full_rule(r),
        service: "noop@internal"@,
        priority: r.priority,
        middlewares: seq!["https-redirect"@],
        tls: None,
    }
}

/// The unencrypted ACME challenge router emitted when `allow_http_acme` is
/// set: the host rule restricted to the well-known challenge path, pointed at
/// the route's own service, at the route's own priority.
pub open spec fn spec_https_acme_router(r: HttpsRouteV) -> HttpRouterV {
    HttpRouterV {
        rule: spec_acme_rule(spec_host_rule(r.host, r.host_regex, false)),
        service: spec_https_name(r),
        priority: r.priority,
        middlewares: Seq::empty(),
        tls: None,
    }
}

/// The primary router of an HTTPS route, carrying TLS termination metadata
/// that references the configured resolver, if any.
pub open spec fn spec_https_router(r: HttpsRouteV, resolver: Option<Seq<char>>) -> HttpRouterV {
    HttpRouterV {
        rule: spec_https_full_rule(r),
        service: spec_https_name(r),
        priority: r.priority,
        middlewares: Seq::empty(),
        tls: Some(HttpTlsV { cert_resolver: resolver }),
    }
}

/// The service emitted for an HTTPS route: one server, the route's target
/// URL.
pub open spec fn spec_https_service(r: HttpsRouteV) -> HttpServiceV {
    HttpServiceV {
        load_balancer: HttpLoadBalancerV { servers: seq![HttpServerV { url: r.target }] },
    }
}

/// What one HTTPS route adds to the HTTP section: nothing when disabled;
/// otherwise its optional redirect router, optional ACME router, primary
/// router and service, inserted in that order.
pub open spec fn spec_https_step(
    c: HttpConfigV,
    r: HttpsRouteV,
    resolver: Option<Seq<char>>,
) -> HttpConfigV {
    if r.enabled {
        let n = spec_https_name(r);
        let routers0 = if r.https_redirect {
            spec_insert(c.routers, n + "-redirect"@, spec_https_redirect_router(r))
        } else {
            c.routers
        };
        let routers1 = if r.allow_http_acme {
            spec_insert(routers0, n + "-acme"@, spec_https_acme_router(r))
        } else {
            routers0
        };
        HttpConfigV {
            routers: spec_insert(routers1, n, spec_https_router(r, resolver)),
            services: spec_insert(c.services, n, spec_https_service(r)),
            middlewares: c.middlewares,
        }
    } else {
        c
    }
}

/// The views of a route list.
pub open spec fn https_views(rs: Seq<HttpsRoute>) -> Seq<HttpsRouteV> {
    rs.map_values(|r: HttpsRoute| r@)
}

/// The HTTP section compiled from an HTTPS route list, in list order.
pub open spec fn spec_https_translate(rs: Seq<HttpsRouteV>, resolver: Option<Seq<char>>) -> HttpConfigV
    decreases rs.len(),
{
    if rs.len() == 0 {
        http_config_empty()
    } else {
        spec_https_step(spec_https_translate(rs.drop_last(), resolver), rs.last(), resolver)
    }
}

/// The subsequence of enabled records, in order.
pub open spec fn https_enabled_only(rs: Seq<HttpsRouteV>) -> Seq<HttpsRouteV>
    decreases rs.len(),
{
    if rs.len() == 0 {
        Seq::empty()
    } else if rs.last().enabled {
        https_enabled_only(rs.drop_last()).push(rs.last())
    } else {
        https_enabled_only(rs.drop_last())
    }
}

/// Disabled records are excluded entirely: the compiled HTTP section of an
/// HTTPS route list equals that of its enabled records alone.
pub proof fn lemma_https_disabled_excluded(rs: Seq<HttpsRouteV>, resolver: Option<Seq<char>>)
    ensures
        spec_https_translate(rs, resolver) == spec_https_translate(
            https_enabled_only(rs),
            resolver,
        ),
    decreases rs.len(),
{
    if rs.len() == 0 {
    } else {
        lemma_https_disabled_excluded(rs.drop_last(), resolver);
        if rs.last().enabled {
            let e = https_enabled_only(rs.drop_last()).push(rs.last());
            assert(e.drop_last() =~= https_enabled_only(rs.drop_last()));
            assert(e.last() == rs.last());
        }
    }
}

fn clone_resolver(r: &Option<String>) -> (c: Option<String>)
    ensures
        opt_str_view(c) == opt_str_view(*r),
{
    match r {
        Some(s) => Some(s.clone()),
        None => None,
    }
}

impl HttpsRoute {
    /// The HTTPS translator: for every enabled route, an optional redirect
    /// router, an optional unencrypted ACME challenge router, the primary
    /// router carrying the resolver reference, and the route's service.
    pub fn generate_traefik_config(routes: &Vec<HttpsRoute>, config: &Config) -> (c: HttpConfig)
        ensures
            c.wf(),
            c@ == spec_https_translate(https_views(routes@), spec_resolver(config@)),
    {
        let mut out = HttpConfig::new();
        let acme_provider: Option<String> = if config.acme_provider_name.as_str().is_empty() {
            None
        } else {
            Some(config.acme_provider_name.clone())
        };
        let ghost resolver = spec_resolver(config@);
        proof {
            assert(opt_str_view(acme_provider) == resolver);
            assert(https_views(routes@).take(0) =~= Seq::<HttpsRouteV>::empty());
        }
        let mut i: usize = 0;
        while i < routes.len()
            invariant
                i <= routes@.len(),
                out.wf(),
                opt_str_view(acme_provider) == resolver,
                resolver == spec_resolver(config@),
                out@ == spec_https_translate(https_views(routes@).take(i as int), resolver),
            decreases routes@.len() - i,
        {
            let ghost prev = out@;
            let r = &routes[i];
            if r.enabled {
                let rn = route_name("https", r.id, r.name.as_str());
                let base = host_rule(r.host.as_str(), r.host_regex, false);
                let full = build_rule(r.host.as_str(), r.host_regex, &r.prefix, false);
                if r.https_redirect {
                    let rrn = with_suffix(rn.as_str(), "-redirect");
                    let mut mw: Vec<String> = Vec::new();
                    mw.push(String::from_str("https-redirect"));
                    let router = HttpRouter {
                        rule: full.clone(),
                        service: String::from_str("noop@internal"),
                        priority: r.priority,
                        middlewares: mw,
                        tls: None,
                    };
                    proof {
                        assert(router@ =~= spec_https_redirect_router(r@));
                    }
                    out.routers.insert(rrn, router);
                }
                if r.allow_http_acme {
                    let arn = with_suffix(rn.as_str(), "-acme");
                    let router = HttpRouter {
                        rule: acme_rule(base.as_str()),
                        service: rn.clone(),
                        priority: r.priority,
                        middlewares: Vec::new(),
                        tls: None,
                    };
                    proof {
                        assert(router@ =~= spec_https_acme_router(r@));
                    }
                    out.routers.insert(arn, router);
                }
                let primary = HttpRouter {
                    rule: full,
                    service: rn.clone(),
                    priority: r.priority,
                    middlewares: Vec::new(),
                    tls: Some(HttpTls { cert_resolver: clone_resolver(&acme_provider) }),
                };
                proof {
                    assert(primary@ =~= spec_https_router(r@, resolver));
                }
                out.routers.insert(rn.clone(), primary);
                let mut servers: Vec<HttpServer> = Vec::new();
                servers.push(HttpServer { url: r.target.clone() });
                let service = HttpService { load_balancer: HttpLoadBalancer { servers } };
                proof {
                    assert(service@ =~= spec_https_service(r@));
                }
                out.services.insert(rn, service);
            }
            proof {
                let vs = https_views(routes@);
                assert(vs.take(i as int + 1).drop_last() =~= vs.take(i as int));
                assert(vs.take(i as int + 1).last() == vs[i as int]);
                assert(vs[i as int] == routes@[i as int]@);
                assert(out@ =~= spec_https_step(prev, routes@[i as int]@, resolver));
            }
            i = i + 1;
        }
        proof {
            assert(https_views(routes@).take(routes@.len() as int) =~= https_views(routes@));
        }
        out
    }
}

} // verus!
