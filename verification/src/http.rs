use vstd::prelude::*;

verus! {

use crate::rule::{spec_rule, build_rule, spec_route_name, route_name, opt_str_view,
    normalize_prefix};
use crate::table::spec_insert;
use crate::text::trimmed;
use crate::traefik::{HttpConfig, HttpConfigV, HttpRouter, HttpRouterV, HttpService, HttpServiceV,
    HttpLoadBalancer, HttpLoadBalancerV, HttpServer, HttpServerV, http_config_empty, opt_i32_view};
use vstd::string::StrSliceExecFns;

// ---------------------------------------------------------------------------
// The plain-HTTP route record
// ---------------------------------------------------------------------------

/// A persisted plain-HTTP route: requests matching the host list (or host
/// regex) and optional path prefix are forwarded to `target`.
pub struct HttpRoute {
    pub id: i32,
    pub enabled: bool,
    pub name: String,
    pub priority: Option<i32>,
    pub target: String,
    pub host_regex: bool,
    pub host: String,
    pub prefix: Option<String>,
}

#[verifier::ext_equal]
pub ghost struct HttpRouteV {
    pub id: int,
    pub enabled: bool,
    pub name: Seq<char>,
    pub priority: Option<int>,
    pub target: Seq<char>,
    pub host_regex: bool,
    pub host: Seq<char>,
    pub prefix: Option<Seq<char>>,
}

impl View for HttpRoute {
    type V = HttpRouteV;

    open spec fn view(&self) -> HttpRouteV {
        HttpRouteV {
            id: self.id as int,
            enabled: self.enabled,
            name: self.name@,
            priority: opt_i32_view(self.priority),
            target: self.target@,
            host_regex: self.host_regex,
            host: self.host@,
            prefix: opt_str_view(self.prefix),
        }
    }
}

impl HttpRoute {
    /// Normalize the record before use: an all-whitespace prefix counts as
    /// absent.
    pub fn cleanup(&mut self)
        ensures
            final(self)@ == (HttpRouteV {
                prefix: normalize_prefix(old(self)@.prefix),
                ..old(self)@
            }),
    {
        let blank = match &self.prefix {
            Some(p) => {
                let t = trimmed(p.as_str());
                t.as_str().unicode_len() == 0
            },
            None => false,
        };
        if blank {
            self.prefix = None;
        }
    }
}

// ---------------------------------------------------------------------------
// The HTTP translator
// ---------------------------------------------------------------------------

/// The configuration-object name of a plain-HTTP route.
pub open spec fn spec_http_name(r: HttpRouteV) -> Seq<char> {
    spec_route_name("http"@, r.id, r.name)
}

/// The router emitted for a plain-HTTP route.
pub open spec fn spec_http_router(r: HttpRouteV) -> HttpRouterV {
    HttpRouterV {
        rule: spec_rule(r.host, r.host_regex, r.prefix, false),
        service: spec_http_name(r),
        priority: r.priority,
        middlewares: Seq::empty(),
        tls: None,
    }
}

/// The service emitted for a plain-HTTP route: one server, the route's target
/// URL.
pub open spec fn spec_http_service(r: HttpRouteV) -> HttpServiceV {
    HttpServiceV {
        load_balancer: HttpLoadBalancerV { servers: seq![HttpServerV { url: r.target }] },
    }
}

/// What one route adds to the HTTP section: nothing when disabled, its router
/// and service when enabled.
pub open spec fn spec_http_step(c: HttpConfigV, r: HttpRouteV) -> HttpConfigV {
    if r.enabled {
        HttpConfigV {
            routers: spec_insert(c.routers, spec_http_name(r), spec_http_router(r)),
            services: spec_insert(c.services, spec_http_name(r), spec_http_service(r)),
            middlewares: c.middlewares,
        }
    } else {
        c
    }
}

/// The views of a route list.
pub open spec fn http_views(rs: Seq<HttpRoute>) -> Seq<HttpRouteV> {
    rs.map_values(|r: HttpRoute| r@)
}

/// The HTTP section compiled from a route list, in list order.
pub open spec fn spec_http_translate(rs: Seq<HttpRouteV>) -> HttpConfigV
    decreases rs.len(),
{
    if rs.len() == 0 {
        http_config_empty()
    } else {
        spec_http_step(spec_http_translate(rs.drop_last()), rs.last())
    }
}

/// The subsequence of enabled records, in order.
pub open spec fn http_enabled_only(rs: Seq<HttpRouteV>) -> Seq<HttpRouteV>
    decreases rs.len(),
{
    if rs.len() == 0 {
        Seq::empty()
    } else if rs.last().enabled {
        http_enabled_only(rs.drop_last()).push(rs.last())
    } else {
        http_enabled_only(rs.drop_last())
    }
}

/// Disabled records are excluded entirely: the compiled HTTP section of a
/// route list equals that of its enabled records alone.
pub proof fn lemma_http_disabled_excluded(rs: Seq<HttpRouteV>)
    ensures
        spec_http_translate(rs) == spec_http_translate(http_enabled_only(rs)),
    decreases rs.len(),
{
    if rs.len() == 0 {
    } else {
        lemma_http_disabled_excluded(rs.drop_last());
        if rs.last().enabled {
            let e = http_enabled_only(rs.drop_last()).push(rs.last());
            assert(e.drop_last() =~= http_enabled_only(rs.drop_last()));
            assert(e.last() == rs.last());
        }
    }
}

impl HttpRoute {
    /// The HTTP translator: for every enabled route, one router under the
    /// allocated name holding the route's matching rule, and one service whose
    /// single server is the route's target URL.
    pub fn generate_traefik_config(routes: &Vec<HttpRoute>) -> (c: HttpConfig)
        ensures
            c.wf(),
            c@ == spec_http_translate(http_views(routes@)),
    {
        let mut config = HttpConfig::new();
        proof {
            assert(http_views(routes@).take(0) =~= Seq::<HttpRouteV>::empty());
        }
        let mut i: usize = 0;
        while i < routes.len()
            invariant
                i <= routes@.len(),
                config.wf(),
                config@ == spec_http_translate(http_views(routes@).take(i as int)),
            decreases routes@.len() - i,
        {
            let ghost prev = config@;
            let r = &routes[i];
            if r.enabled {
                let rn = route_name("http", r.id, r.name.as_str());
                let rule = build_rule(r.host.as_str(), r.host_regex, &r.prefix, false);
                let router = HttpRouter {
                    rule,
                    service: rn.clone(),
                    priority: r.priority,
                    middlewares: Vec::new(),
                    tls: None,
                };
                proof {
                    assert(router@ =~= spec_http_router(r@));
                }
                config.routers.insert(rn.clone(), router);
                let mut servers: Vec<HttpServer> = Vec::new();
                servers.push(HttpServer { url: r.target.clone() });
                let service = HttpService { load_balancer: HttpLoadBalancer { servers } };
                proof {
                    assert(service@ =~= spec_http_service(r@));
                }
                config.services.insert(rn, service);
            }
            proof {
                let vs = http_views(routes@);
                assert(vs.take(i as int + 1).drop_last() =~= vs.take(i as int));
                assert(vs.take(i as int + 1).last() == vs[i as int]);
                assert(vs[i as int] == routes@[i as int]@);
                assert(config@ =~= spec_http_step(prev, routes@[i as int]@));
            }
            i = i + 1;
        }
        proof {
            assert(http_views(routes@).take(routes@.len() as int) =~= http_views(routes@));
        }
        config
    }
}

} // verus!
