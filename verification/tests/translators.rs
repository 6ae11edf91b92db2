use traefik_gui::http::HttpRoute;
use traefik_gui::https::HttpsRoute;
use traefik_gui::config::Config;
use traefik_gui::tls::TlsRoute;

fn http_route(id: i32, name: &str, host: &str, prefix: Option<&str>) -> HttpRoute {
    HttpRoute {
        id,
        enabled: true,
        name: name.to_string(),
        priority: None,
        target: format!("http://upstream-{}", id),
        host_regex: false,
        host: host.to_string(),
        prefix: prefix.map(|p| p.to_string()),
    }
}

fn https_route(id: i32, name: &str, host: &str) -> HttpsRoute {
    HttpsRoute {
        id,
        enabled: true,
        name: name.to_string(),
        priority: None,
        target: format!("http://upstream-{}", id),
        host_regex: false,
        host: host.to_string(),
        prefix: None,
        https_redirect: false,
        allow_http_acme: false,
    }
}

fn tls_route(id: i32, name: &str, host: &str, target: &str) -> TlsRoute {
    TlsRoute {
        id,
        enabled: true,
        name: name.to_string(),
        priority: None,
        target: target.to_string(),
        host_regex: false,
        host: host.to_string(),
        acme_http_passthrough: None,
        https_redirect: false,
    }
}

#[test]
fn http_host_list_example() {
    let route = HttpRoute {
        id: 3,
        enabled: true,
        name: "api".to_string(),
        priority: None,
        target: "http://10.0.0.1:8080".to_string(),
        host_regex: false,
        host: "example.com, www.example.com".to_string(),
        prefix: Some("/v1".to_string()),
    };
    let cfg = HttpRoute::generate_traefik_config(&vec![route]);
    let router = cfg.routers.get("gui-http-3-api").expect("router missing");
    assert_eq!(
        router.rule,
        "(( Host(`example.com`) && Host(`www.example.com`) ) && PathPrefix(`/v1`))"
    );
    assert_eq!(router.service, "gui-http-3-api");
    assert_eq!(router.priority, None);
    assert!(router.middlewares.is_empty());
    assert!(router.tls.is_none());
    let service = cfg.services.get("gui-http-3-api").expect("service missing");
    assert_eq!(service.load_balancer.servers.len(), 1);
    assert_eq!(service.load_balancer.servers[0].url, "http://10.0.0.1:8080");
}

#[test]
fn http_disabled_routes_are_excluded() {
    let mut off = http_route(4, "off", "a.example", None);
    off.enabled = false;
    let on = http_route(5, "on", "b.example", None);
    let cfg = HttpRoute::generate_traefik_config(&vec![off, on]);
    assert_eq!(cfg.routers.len(), 1);
    assert_eq!(cfg.services.len(), 1);
    assert!(cfg.routers.get("gui-http-4-off").is_none());
    assert!(cfg.routers.get("gui-http-5-on").is_some());
}

#[test]
fn http_blank_prefix_matches_absent_prefix() {
    let blank = http_route(1, "r", "h.example", Some("   "));
    let absent = http_route(1, "r", "h.example", None);
    let cfg_blank = HttpRoute::generate_traefik_config(&vec![blank]);
    let cfg_absent = HttpRoute::generate_traefik_config(&vec![absent]);
    let r1 = cfg_blank.routers.get("gui-http-1-r").unwrap();
    let r2 = cfg_absent.routers.get("gui-http-1-r").unwrap();
    assert_eq!(r1.rule, r2.rule);
    assert_eq!(r1.rule, "( Host(`h.example`) )");
}

#[test]
fn http_cleanup_normalizes_blank_prefix() {
    let mut route = http_route(1, "r", "h.example", Some(" \t "));
    route.cleanup();
    assert!(route.prefix.is_none());
    let mut kept = http_route(2, "r", "h.example", Some("/api"));
    kept.cleanup();
    assert_eq!(kept.prefix.as_deref(), Some("/api"));
}

#[test]
fn https_cleanup_normalizes_blank_prefix() {
    let mut route = https_route(1, "r", "h.example");
    route.prefix = Some("  ".to_string());
    route.cleanup();
    assert!(route.prefix.is_none());
}

#[test]
fn https_primary_router_references_resolver() {
    let cfg = Config { acme_provider_name: "letsencrypt".to_string() };
    let out = HttpsRoute::generate_traefik_config(&vec![https_route(9, "shop", "shop.example")], &cfg);
    let router = out.routers.get("gui-https-9-shop").expect("router missing");
    assert_eq!(router.rule, "( Host(`shop.example`) )");
    let tls = router.tls.as_ref().expect("tls block missing");
    assert_eq!(tls.cert_resolver.as_deref(), Some("letsencrypt"));
}

#[test]
fn https_empty_resolver_name_omits_reference() {
    let cfg = Config { acme_provider_name: String::new() };
    let out = HttpsRoute::generate_traefik_config(&vec![https_route(9, "shop", "shop.example")], &cfg);
    let router = out.routers.get("gui-https-9-shop").unwrap();
    let tls = router.tls.as_ref().expect("tls block missing");
    assert!(tls.cert_resolver.is_none());
}

#[test]
fn https_redirect_router_uses_plain_rule_and_middleware() {
    let cfg = Config { acme_provider_name: String::new() };
    let mut route = https_route(2, "site", "site.example");
    route.https_redirect = true;
    route.priority = Some(4);
    route.prefix = Some("/app".to_string());
    let out = HttpsRoute::generate_traefik_config(&vec![route], &cfg);
    let redirect = out.routers.get("gui-https-2-site-redirect").expect("redirect router missing");
    assert_eq!(redirect.rule, "(( Host(`site.example`) ) && PathPrefix(`/app`))");
    assert_eq!(redirect.service, "noop@internal");
    assert_eq!(redirect.priority, Some(4));
    assert_eq!(redirect.middlewares, vec!["https-redirect".to_string()]);
    assert!(redirect.tls.is_none());
}

#[test]
fn https_acme_router_keeps_priority_and_base_rule() {
    let cfg = Config { acme_provider_name: String::new() };
    let mut route = https_route(2, "site", "site.example");
    route.allow_http_acme = true;
    route.priority = Some(4);
    route.prefix = Some("/app".to_string());
    let out = HttpsRoute::generate_traefik_config(&vec![route], &cfg);
    let acme = out.routers.get("gui-https-2-site-acme").expect("acme router missing");
    assert_eq!(
        acme.rule,
        "(( Host(`site.example`) ) && PathPrefix(`/.well-known/acme-challenge/`))"
    );
    assert_eq!(acme.service, "gui-https-2-site");
    // unlike the TLS-passthrough case, no priority bump
    assert_eq!(acme.priority, Some(4));
    assert!(acme.middlewares.is_empty());
}

#[test]
fn https_disabled_routes_are_excluded() {
    let cfg = Config { acme_provider_name: String::new() };
    let mut route = https_route(2, "site", "site.example");
    route.enabled = false;
    route.https_redirect = true;
    route.allow_http_acme = true;
    let out = HttpsRoute::generate_traefik_config(&vec![route], &cfg);
    assert_eq!(out.routers.len(), 0);
    assert_eq!(out.services.len(), 0);
    assert_eq!(out.middlewares.len(), 0);
}

#[test]
fn tls_default_port_appended() {
    let out = TlsRoute::generate_traefik_config(&vec![tls_route(6, "db", "db.example", "10.0.0.9")]);
    let service = out.tcp.services.get("gui-tls-6-db").expect("tcp service missing");
    assert_eq!(service.load_balancer.servers.len(), 1);
    assert_eq!(service.load_balancer.servers[0].address, "10.0.0.9:443");
    let router = out.tcp.routers.get("gui-tls-6-db").expect("tcp router missing");
    assert_eq!(router.rule, "( HostSNI(`db.example`) )");
    assert_eq!(router.service, "gui-tls-6-db");
    let tls = router.tls.as_ref().expect("tcp tls block missing");
    assert!(tls.passthrough);
}

#[test]
fn tls_explicit_port_kept() {
    let out = TlsRoute::generate_traefik_config(&vec![tls_route(6, "db", "db.example", "10.0.0.5:6443")]);
    let service = out.tcp.services.get("gui-tls-6-db").unwrap();
    assert_eq!(service.load_balancer.servers[0].address, "10.0.0.5:6443");
}

#[test]
fn tls_acme_port_rewrite() {
    let mut route = tls_route(1, "web", "web.example", "10.0.0.5:8443");
    route.acme_http_passthrough = Some(80);
    let out = TlsRoute::generate_traefik_config(&vec![route]);
    let service = out.http.services.get("gui-tls-1-web-acme").expect("acme service missing");
    assert_eq!(service.load_balancer.servers[0].url, "http://10.0.0.5:80");
    let router = out.http.routers.get("gui-tls-1-web-acme").expect("acme router missing");
    assert_eq!(
        router.rule,
        "(( Host(`web.example`) ) && PathPrefix(`/.well-known/acme-challenge/`))"
    );
    assert_eq!(router.service, "gui-tls-1-web-acme");
}

#[test]
fn tls_acme_priority_bump() {
    let mut route = tls_route(1, "web", "web.example", "10.0.0.5:8443");
    route.priority = Some(10);
    route.acme_http_passthrough = Some(80);
    let out = TlsRoute::generate_traefik_config(&vec![route]);
    let acme = out.http.routers.get("gui-tls-1-web-acme").unwrap();
    assert_eq!(acme.priority, Some(11));
    let main = out.tcp.routers.get("gui-tls-1-web").unwrap();
    assert_eq!(main.priority, Some(10));
}

#[test]
fn tls_redirect_router() {
    let mut route = tls_route(3, "mail", "mail.example", "10.0.0.7");
    route.https_redirect = true;
    route.priority = Some(2);
    let out = TlsRoute::generate_traefik_config(&vec![route]);
    let redirect = out.http.routers.get("gui-tls-3-mail-redirect").expect("redirect router missing");
    assert_eq!(redirect.rule, "( Host(`mail.example`) )");
    assert_eq!(redirect.service, "noop@internal");
    assert_eq!(redirect.priority, Some(2));
    assert_eq!(redirect.middlewares, vec!["https-redirect".to_string()]);
}

#[test]
fn tls_disabled_routes_are_excluded() {
    let mut route = tls_route(3, "mail", "mail.example", "10.0.0.7");
    route.enabled = false;
    route.acme_http_passthrough = Some(80);
    route.https_redirect = true;
    let out = TlsRoute::generate_traefik_config(&vec![route]);
    assert!(out.tcp.is_empty());
    assert!(out.http.is_empty());
}

#[test]
fn translators_emit_names_in_sorted_order() {
    let routes = vec![
        http_route(10, "zeta", "z.example", None),
        http_route(2, "alpha", "a.example", None),
        http_route(1, "beta", "b.example", None),
    ];
    let cfg = HttpRoute::generate_traefik_config(&routes);
    assert_eq!(cfg.routers.len(), 3);
    let mut names: Vec<String> = Vec::new();
    for i in 0..cfg.routers.len() {
        names.push(cfg.routers.key_at(i).clone());
    }
    let mut sorted = names.clone();
    sorted.sort();
    assert_eq!(names, sorted);
    assert_eq!(names, vec![
        "gui-http-1-beta".to_string(),
        "gui-http-10-zeta".to_string(),
        "gui-http-2-alpha".to_string(),
    ]);
}
