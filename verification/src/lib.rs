//! A verified route-to-proxy-configuration compiler: plain-HTTP, HTTPS and
//! raw TLS-passthrough route records are translated into one declarative
//! reverse-proxy configuration document (routers, services and middlewares,
//! split into an HTTP and a TCP section). Every mapping of the document is
//! kept sorted by generated object name, so compiling a snapshot is
//! deterministic; disabled records contribute nothing; and merging the
//! per-kind fragments keeps every entry, later fragments winning on a shared
//! name. Reading the records and writing the document out are left to the
//! surrounding application.

use vstd::prelude::*;

pub mod config;
pub mod http;
pub mod https;
pub mod rule;
pub mod table;
pub mod text;
pub mod tls;
pub mod traefik;

verus! {

use crate::config::Config;
use crate::http::{HttpRoute, HttpRouteV, http_views, spec_http_translate, http_enabled_only,
    lemma_http_disabled_excluded};
use crate::https::{HttpsRoute, HttpsRouteV, https_views, spec_https_translate, spec_resolver,
    https_enabled_only, lemma_https_disabled_excluded};
use crate::tls::{TlsRoute, TlsRouteV, tls_views, spec_tls_translate, tls_priority_ok,
    tls_enabled_only, lemma_tls_disabled_excluded};
use crate::traefik::{TraefikConfig, TraefikConfigV, spec_http_merge, spec_with_default_middlewares};

// ---------------------------------------------------------------------------
// The assembler: one document from the three route snapshots
// ---------------------------------------------------------------------------

/// The whole document compiled from a snapshot of the three route lists and
/// the configured resolver name: the three translators' fragments merged, the
/// default `https-redirect` middleware added.
pub open spec fn spec_compile(
    h: Seq<HttpRouteV>,
    s: Seq<HttpsRouteV>,
    t: Seq<TlsRouteV>,
    acme_name: Seq<char>,
) -> TraefikConfigV {
    let base = spec_tls_translate(t);
    let merged = spec_http_merge(
        spec_http_merge(base.http, spec_http_translate(h)),
        spec_https_translate(s, spec_resolver(acme_name)),
    );
    TraefikConfigV { http: spec_with_default_middlewares(merged), tcp: base.tcp }
}

/// The assembler: runs the three translators on the given snapshot, merges
/// their HTTP fragments in a fixed order (TLS-passthrough, then HTTP, then
/// HTTPS, later fragments winning on a shared name), and adds the default
/// `https-redirect` middleware.
pub fn generate_traefik_config(
    http_routes: &Vec<HttpRoute>,
    https_routes: &Vec<HttpsRoute>,
    tls_routes: &Vec<TlsRoute>,
    config: &Config,
) -> (out: TraefikConfig)
    requires
        forall|i: int| 0 <= i < tls_routes@.len() ==> tls_priority_ok(#[trigger] tls_routes@[i]@),
    ensures
        out.wf(),
        out@ == spec_compile(
            http_views(http_routes@),
            https_views(https_routes@),
            tls_views(tls_routes@),
            config@,
        ),
{
    let mut out = TlsRoute::generate_traefik_config(tls_routes);
    let http = HttpRoute::generate_traefik_config(http_routes);
    let https = HttpsRoute::generate_traefik_config(https_routes, config);
    out.http.merge(http);
    out.http.merge(https);
    out.http.add_default_middlewares();
    proof {
        assert(out@ =~= spec_compile(
            http_views(http_routes@),
            https_views(https_routes@),
            tls_views(tls_routes@),
            config@,
        ));
    }
    out
}

// ---------------------------------------------------------------------------
// Laws of the compiler
// ---------------------------------------------------------------------------

/// Determinism: two compilations of the same snapshot yield the same
/// document, so the emitted output carries no incidental variation.
pub proof fn lemma_compile_deterministic(
    h: Seq<HttpRouteV>,
    s: Seq<HttpsRouteV>,
    t: Seq<TlsRouteV>,
    acme_name: Seq<char>,
    c1: TraefikConfigV,
    c2: TraefikConfigV,
)
    requires
        c1 == spec_compile(h, s, t, acme_name),
        c2 == spec_compile(h, s, t, acme_name),
    ensures
        c1 == c2,
{
}

/// Idempotence: the document is a function of the snapshot alone, so
/// compiling again after a write-out, with the repository unchanged, yields
/// the document that was already written.
pub proof fn lemma_recompile_unchanged(
    h: Seq<HttpRouteV>,
    s: Seq<HttpsRouteV>,
    t: Seq<TlsRouteV>,
    acme_name: Seq<char>,
    written: TraefikConfigV,
)
    requires
        written == spec_compile(h, s, t, acme_name),
    ensures
        spec_compile(h, s, t, acme_name) == written,
{
}

/// Disabled records are excluded entirely: the document compiled from the
/// full snapshot equals the document compiled from the enabled records alone.
pub proof fn lemma_compile_disabled_excluded(
    h: Seq<HttpRouteV>,
    s: Seq<HttpsRouteV>,
    t: Seq<TlsRouteV>,
    acme_name: Seq<char>,
)
    ensures
        spec_compile(h, s, t, acme_name) == spec_compile(
            http_enabled_only(h),
            https_enabled_only(s),
            tls_enabled_only(t),
            acme_name,
        ),
{
    lemma_http_disabled_excluded(h);
    lemma_https_disabled_excluded(s, spec_resolver(acme_name));
    lemma_tls_disabled_excluded(t);
}

} // verus!
