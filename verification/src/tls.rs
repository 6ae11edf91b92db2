use vstd::prelude::*;

verus! {

use crate::rule::{spec_host_rule, host_rule, spec_acme_rule, acme_rule, spec_route_name,
    route_name, with_suffix, spec_default_port, default_port, spec_acme_target, acme_target};
use crate::table::spec_insert;
use crate::traefik::{TraefikConfig, TraefikConfigV, HttpConfigV, HttpRouter, HttpRouterV,
    HttpService, HttpServiceV, HttpLoadBalancer, HttpLoadBalancerV, HttpServer, HttpServerV,
    TcpConfigV, TcpRouter, TcpRouterV, TcpService, TcpServiceV, TcpLoadBalancer, TcpLoadBalancerV,
    TcpServer, TcpServerV, TcpTls, traefik_config_empty, opt_i32_view};
use vstd::string::StringExecFns;

// ---------------------------------------------------------------------------
// The TLS-passthrough route record
// ---------------------------------------------------------------------------

/// A persisted raw TLS-passthrough route: TLS connections whose handshake
/// matches the SNI rule are forwarded, unterminated, to `target`.
pub struct TlsRoute {
    pub id: i32,
    pub enabled: bool,
    pub name: String,
    pub priority: Option<i32>,
    pub target: String,
    pub host_regex: bool,
    pub host: String,
    pub acme_http_passthrough: Option<i32>,
    pub https_redirect: bool,
}

#[verifier::ext_equal]
pub ghost struct TlsRouteV {
    pub id: int,
    pub enabled: bool,
    pub name: Seq<char>,
    pub priority: Option<int>,
    pub target: Seq<char>,
    pub host_regex: bool,
    pub host: Seq<char>,
    pub acme_http_passthrough: Option<int>,
    pub https_redirect: bool,
}

impl View for TlsRoute {
    type V = TlsRouteV;

    open spec fn view(&self) -> TlsRouteV {
        TlsRouteV {
            id: self.id as int,
            enabled: self.enabled,
            name: self.name@,
            priority: opt_i32_view(self.priority),
            target: self.target@,
            host_regex: self.host_regex,
            host: self.host@,
            acme_http_passthrough: opt_i32_view(self.acme_http_passthrough),
            https_redirect: self.https_redirect,
        }
    }
}

// ---------------------------------------------------------------------------
// The TLS-passthrough translator
// ---------------------------------------------------------------------------

/// The configuration-object name of a TLS-passthrough route.
pub open spec fn spec_tls_name(r: TlsRouteV) -> Seq<char> {
    spec_route_name("tls"@, r.id, r.name)
}

/// The route's priority raised by one, for the ACME router, so that it is
/// tried before a same-priority HTTPS-redirect rule.
pub open spec fn spec_bump(p: Option<int>) -> Option<int> {
    match p {
        Some(v) => Some(v + 1),
        None => None,
    }
}

/// The ACME priority bump must not overflow the priority field.
pub open spec fn tls_priority_ok(r: TlsRouteV) -> bool {
    match (r.priority, r.acme_http_passthrough) {
        (Some(p), Some(_)) => r.enabled ==> p < i32::MAX,
        _ => true,
    }
}

/// The TCP router emitted for a TLS-passthrough route: SNI rule, passthrough
/// TLS, the route's priority.
pub open spec fn spec_tls_tcp_router(r: TlsRouteV) -> TcpRouterV {
    TcpRouterV {
        rule: spec_host_rule(r.host, r.host_regex, true),
        service: spec_tls_name(r),
        priority: r.priority,
        tls: Some(TcpTls { passthrough: true }),
    }
}

/// The TCP service emitted for a TLS-passthrough route: one server, the
/// target address with `:443` appended when it names no port.
pub open spec fn spec_tls_tcp_service(r: TlsRouteV) -> TcpServiceV {
    TcpServiceV {
        load_balancer: TcpLoadBalancerV {
            servers: seq![TcpServerV { address: spec_default_port(r.target) }],
        },
    }
}

/// The unencrypted ACME challenge router emitted when `acme_http_passthrough`
/// is set, at priority one above the route's own.
pub open spec fn spec_tls_acme_router(r: TlsRouteV) -> HttpRouterV {
    HttpRouterV {
        rule: spec_acme_rule(spec_host_rule(r.host, r.host_regex, false)),
        service: spec_tls_name(r) + "-acme"@,
        priority: spec_bump(r.priority),
        middlewares: Seq::empty(),
        tls: None,
    }
}

/// The ACME challenge service: one server, the target with everything from
/// its last colon on replaced by the passthrough port, behind `http://`.
pub open spec fn spec_tls_acme_service(r: TlsRouteV, port: int) -> HttpServiceV {
    HttpServiceV {
        load_balancer: HttpLoadBalancerV {
            servers: seq![HttpServerV { url: "http://"@ + spec_acme_target(r.target, port) }],
        },
    }
}

/// The HTTP redirect router emitted when `https_redirect` is set: the plain
/// host rule, pointed at the no-op internal service, carrying the
/// `https-redirect` middleware.
pub open spec fn spec_tls_redirect_router(r: TlsRouteV) -> HttpRouterV {
    HttpRouterV {
        rule: spec_host_rule(r.host, r.host_regex, false),
        service: "noop@internal"@,
        priority: r.priority,
        middlewares: seq!["https-redirect"@],
        tls: None,
    }
}

/// What one TLS-passthrough route adds to the document: nothing when
/// disabled; otherwise its TCP router and service, the optional ACME router
/// and service, and the optional redirect router.
pub open spec fn spec_tls_step(c: TraefikConfigV, r: TlsRouteV) -> TraefikConfigV {
    if r.enabled {
        let n = spec_tls_name(r);
        let tcp = TcpConfigV {
            routers: spec_insert(c.tcp.routers, n, spec_tls_tcp_router(r)),
            services: spec_insert(c.tcp.services, n, spec_tls_tcp_service(r)),
        };
        let routers0 = match r.acme_http_passthrough {
            Some(_) => spec_insert(c.http.routers, n + "-acme"@, spec_tls_acme_router(r)),
            None => c.http.routers,
        };
        let services0 = match r.acme_http_passthrough {
            Some(port) => spec_insert(c.http.services, n + "-acme"@, spec_tls_acme_service(r, port)),
            None => c.http.services,
        };
        let routers1 = if r.https_redirect {
            spec_insert(routers0, n + "-redirect"@, spec_tls_redirect_router(r))
        } else {
            routers0
        };
        TraefikConfigV {
            http: HttpConfigV {
                routers: routers1,
                services: services0,
                middlewares: c.http.middlewares,
            },
            tcp,
        }
    } else {
        c
    }
}

/// The views of a route list.
pub open spec fn tls_views(rs: Seq<TlsRoute>) -> Seq<TlsRouteV> {
    rs.map_values(|r: TlsRoute| r@)
}

/// The document compiled from a TLS-passthrough route list, in list order.
pub open spec fn spec_tls_translate(rs: Seq<TlsRouteV>) -> TraefikConfigV
    decreases rs.len(),
{
    if rs.len() == 0 {
        traefik_config_empty()
    } else {
        spec_tls_step(spec_tls_translate(rs.drop_last()), rs.last())
    }
}

/// The subsequence of enabled records, in order.
pub open spec fn tls_enabled_only(rs: Seq<TlsRouteV>) -> Seq<TlsRouteV>
    decreases rs.len(),
{
    if rs.len() == 0 {
        Seq::empty()
    } else if rs.last().enabled {
        tls_enabled_only(rs.drop_last()).push(rs.last())
    } else {
        tls_enabled_only(rs.drop_last())
    }
}

/// Disabled records are excluded entirely: the compiled document of a
/// TLS-passthrough route list equals that of its enabled records alone.
pub proof fn lemma_tls_disabled_excluded(rs: Seq<TlsRouteV>)
    ensures
        spec_tls_translate(rs) == spec_tls_translate(tls_enabled_only(rs)),
    decreases rs.len(),
{
    if rs.len() == 0 {
    } else {
        lemma_tls_disabled_excluded(rs.drop_last());
        if rs.last().enabled {
            let e = tls_enabled_only(rs.drop_last()).push(rs.last());
            assert(e.drop_last() =~= tls_enabled_only(rs.drop_last()));
            assert(e.last() == rs.last());
        }
    }
}

impl TlsRoute {
    /// The TLS-passthrough translator: for every enabled route, a passthrough
    /// TCP router and its service; when ACME passthrough is configured, an
    /// unencrypted challenge router at priority one above the route's own,
    /// pointing at the rewritten target port; and when `https_redirect` is
    /// set, an HTTP redirect router on the plain host rule.
    pub fn generate_traefik_config(routes: &Vec<TlsRoute>) -> (c: TraefikConfig)
        requires
            forall|i: int| 0 <= i < routes@.len() ==> tls_priority_ok(#[trigger] routes@[i]@),
        ensures
            c.wf(),
            c@ == spec_tls_translate(tls_views(routes@)),
    {
        let mut out = TraefikConfig::new();
        proof {
            assert(tls_views(routes@).take(0) =~= Seq::<TlsRouteV>::empty());
        }
        let mut i: usize = 0;
        while i < routes.len()
            invariant
                i <= routes@.len(),
                out.wf(),
                forall|k: int| 0 <= k < routes@.len() ==> tls_priority_ok(#[trigger] routes@[k]@),
                out@ == spec_tls_translate(tls_views(routes@).take(i as int)),
            decreases routes@.len() - i,
        {
            let ghost prev = out@;
            let r = &routes[i];
            if r.enabled {
                let rn = route_name("tls", r.id, r.name.as_str());
                let sni_rule = host_rule(r.host.as_str(), r.host_regex, true);
                let tcp_router = TcpRouter {
                    rule: sni_rule,
                    service: rn.clone(),
                    priority: r.priority,
                    tls: Some(TcpTls { passthrough: true }),
                };
                proof {
                    assert(tcp_router@ =~= spec_tls_tcp_router(r@));
                }
                out.tcp.routers.insert(rn.clone(), tcp_router);
                let mut tcp_servers: Vec<TcpServer> = Vec::new();
                tcp_servers.push(TcpServer { address: default_port(r.target.as_str()) });
                let tcp_service = TcpService {
                    load_balancer: TcpLoadBalancer { servers: tcp_servers },
                };
                proof {
                    assert(tcp_service@ =~= spec_tls_tcp_service(r@));
                }
                out.tcp.services.insert(rn.clone(), tcp_service);
                if let Some(acme_port) = r.acme_http_passthrough {
                    let arn = with_suffix(rn.as_str(), "-acme");
                    let http_host = host_rule(r.host.as_str(), r.host_regex, false);
                    proof {
                        assert(tls_priority_ok(routes@[i as int]@));
                    }
                    let bumped: Option<i32> = match r.priority {
                        Some(p) => Some(p + 1),
                        None => None,
                    };
                    let acme_router = HttpRouter {
                        rule: acme_rule(http_host.as_str()),
                        service: arn.clone(),
                        priority: bumped,
                        middlewares: Vec::new(),
                        tls: None,
                    };
                    proof {
                        assert(acme_router@ =~= spec_tls_acme_router(r@));
                    }
                    out.http.routers.insert(arn.clone(), acme_router);
                    let rewritten = acme_target(r.target.as_str(), acme_port);
                    let mut url = String::from_str("http://");
                    url.append(rewritten.as_str());
                    let mut acme_servers: Vec<HttpServer> = Vec::new();
                    acme_servers.push(HttpServer { url });
                    let acme_service = HttpService {
                        load_balancer: HttpLoadBalancer { servers: acme_servers },
                    };
                    proof {
                        assert(acme_service@ =~= spec_tls_acme_service(r@, acme_port as int));
                    }
                    out.http.services.insert(arn, acme_service);
                }
                if r.https_redirect {
                    let rrn = with_suffix(rn.as_str(), "-redirect");
                    let http_host = host_rule(r.host.as_str(), r.host_regex, false);
                    let mut mw: Vec<String> = Vec::new();
                    mw.push(String::from_str("https-redirect"));
                    let redirect_router = HttpRouter {
                        rule: http_host,
                        service: String::from_str("noop@internal"),
                        priority: r.priority,
                        middlewares: mw,
                        tls: None,
                    };
                    proof {
                        assert(redirect_router@ =~= spec_tls_redirect_router(r@));
                    }
                    out.http.routers.insert(rrn, redirect_router);
                }
            }
            proof {
                let vs = tls_views(routes@);
                assert(vs.take(i as int + 1).drop_last() =~= vs.take(i as int));
                assert(vs.take(i as int + 1).last() == vs[i as int]);
                assert(vs[i as int] == routes@[i as int]@);
                assert(out@ =~= spec_tls_step(prev, routes@[i as int]@));
            }
            i = i + 1;
        }
        proof {
            assert(tls_views(routes@).take(routes@.len() as int) =~= tls_views(routes@));
        }
        out
    }
}

} // verus!
