use vstd::prelude::*;

verus! {

use vstd::string::StrSliceExecFns;
use vstd::string::StringExecFns;
use crate::text::{spec_trim, trimmed, dec_int, i32_dec, last_colon, lemma_last_colon, rfind_colon};

// ---------------------------------------------------------------------------
// Splitting a host list on commas
// ---------------------------------------------------------------------------

/// The index of the first `','` in the sequence, or the length when there is
/// none.
pub open spec fn find_comma(s: Seq<char>) -> int
    decreases s.len(),
{
    if s.len() == 0 {
        0
    } else if s[0] == ',' {
        0
    } else {
        1 + find_comma(s.skip(1))
    }
}

/// Characterization of `find_comma`.
pub proof fn lemma_find_comma(s: Seq<char>)
    ensures
        0 <= find_comma(s) <= s.len(),
        find_comma(s) < s.len() ==> s[find_comma(s)] == ',',
        forall|j: int| 0 <= j < find_comma(s) ==> s[j] != ',',
    decreases s.len(),
{
    if s.len() == 0 {
    } else if s[0] == ',' {
    } else {
        lemma_find_comma(s.skip(1));
        let f = find_comma(s);
        assert forall|j: int| 0 <= j < f implies s[j] != ',' by {
            if j > 0 {
                assert(s.skip(1)[j - 1] == s[j]);
            }
        }
        if f < s.len() {
            assert(s.skip(1)[f - 1] == s[f]);
        }
    }
}

fn not_comma_at(s: &str, i: usize, n: usize) -> (r: bool)
    requires
        n == s@.len(),
    ensures
        r == (i < s@.len() && s@[i as int] != ','),
{
    if i < n {
        s.get_char(i) != ','
    } else {
        false
    }
}

/// The index of the first `','` in `s`, or the length of `s` when there is
/// none.
fn first_comma(s: &str) -> (r: usize)
    ensures
        r == find_comma(s@),
        r <= s@.len(),
{
    let n = s.unicode_len();
    let mut i: usize = 0;
    while not_comma_at(s, i, n)
        invariant
            i <= n,
            n == s@.len(),
            forall|j: int| 0 <= j < i ==> s@[j] != ',',
        decreases n - i,
    {
        i = i + 1;
    }
    proof {
        lemma_find_comma(s@);
        if find_comma(s@) < i {
            assert(s@[find_comma(s@)] != ',');
        }
        if find_comma(s@) > i {
            assert(s@[i as int] != ',');
        }
    }
    i
}

// ---------------------------------------------------------------------------
// Matching-rule expressions
// ---------------------------------------------------------------------------

/// One exact-host match, in HTTP (`Host`) or TCP/SNI (`HostSNI`) syntax.
pub open spec fn host_atom(h: Seq<char>, tcp: bool) -> Seq<char> {
    if tcp {
        "HostSNI(`"@ + h + "`)"@
    } else {
        "Host(`"@ + h + "`)"@
    }
}

/// The comma-separated host list turned into exact-host matches, each element
/// trimmed, joined with logical AND.
pub open spec fn spec_hosts_and(s: Seq<char>, tcp: bool) -> Seq<char>
    decreases s.len(),
    via spec_hosts_and_dec
{
    if find_comma(s) >= s.len() {
        host_atom(spec_trim(s), tcp)
    } else {
        host_atom(spec_trim(s.take(find_comma(s))), tcp) + " && "@ + spec_hosts_and(
            s.skip(find_comma(s) + 1),
            tcp,
        )
    }
}

#[via_fn]
proof fn spec_hosts_and_dec(s: Seq<char>, tcp: bool) {
    lemma_find_comma(s);
}

/// The base matching rule of a route: a single regex-host match of the trimmed
/// host field, or the grouped AND of one exact match per listed host.
pub open spec fn spec_host_rule(host: Seq<char>, regex: bool, tcp: bool) -> Seq<char> {
    if regex {
        if tcp {
            "HostSNIRegexp(`"@ + spec_trim(host) + "`)"@
        } else {
            "HostRegexp(`"@ + spec_trim(host) + "`)"@
        }
    } else {
        "( "@ + spec_hosts_and(host, tcp) + " )"@
    }
}

/// The base rule, wrapped together with a path-prefix match when a prefix is
/// present.
pub open spec fn spec_prefixed_rule(base: Seq<char>, prefix: Option<Seq<char>>) -> Seq<char> {
    match prefix {
        Some(p) => "("@ + base + " && PathPrefix(`"@ + p + "`))"@,
        None => base,
    }
}

/// An all-whitespace prefix counts as absent.
pub open spec fn normalize_prefix(p: Option<Seq<char>>) -> Option<Seq<char>> {
    match p {
        Some(s) => if spec_trim(s).len() == 0 {
            None
        } else {
            Some(s)
        },
        None => None,
    }
}

/// The view of an optional prefix field.
pub open spec fn opt_str_view(p: Option<String>) -> Option<Seq<char>> {
    match p {
        Some(s) => Some(s@),
        None => None,
    }
}

/// The full matching rule of a route: base rule plus normalized prefix.
pub open spec fn spec_rule(host: Seq<char>, regex: bool, prefix: Option<Seq<char>>, tcp: bool) -> Seq<
    char,
> {
    spec_prefixed_rule(spec_host_rule(host, regex, tcp), normalize_prefix(prefix))
}

fn host_atom_exec(h: &str, tcp: bool) -> (r: String)
    ensures
        r@ == host_atom(h@, tcp),
{
    let mut s = String::from_str(
        if tcp {
            "HostSNI(`"
        } else {
            "Host(`"
        },
    );
    s.append(h);
    s.append("`)");
    s
}

fn hosts_and(s: &str, tcp: bool) -> (r: String)
    ensures
        r@ == spec_hosts_and(s@, tcp),
    decreases s@.len(),
{
    let n = s.unicode_len();
    let i = first_comma(s);
    if i >= n {
        let t = trimmed(s);
        host_atom_exec(t.as_str(), tcp)
    } else {
        let head = s.substring_char(0, i);
        let t = trimmed(head);
        let mut r = host_atom_exec(t.as_str(), tcp);
        r.append(" && ");
        let rest = s.substring_char(i + 1, n);
        let tail = hosts_and(rest, tcp);
        r.append(tail.as_str());
        proof {
            assert(s@.take(find_comma(s@)) =~= head@);
            assert(s@.skip(find_comma(s@) + 1) =~= rest@);
        }
        r
    }
}

/// The base matching rule of a route, in HTTP or TCP/SNI syntax.
pub fn host_rule(host: &str, regex: bool, tcp: bool) -> (r: String)
    ensures
        r@ == spec_host_rule(host@, regex, tcp),
{
    if regex {
        let t = trimmed(host);
        let mut s = String::from_str(
            if tcp {
                "HostSNIRegexp(`"
            } else {
                "HostRegexp(`"
            },
        );
        s.append(t.as_str());
        s.append("`)");
        s
    } else {
        let mut s = String::from_str("( ");
        let h = hosts_and(host, tcp);
        s.append(h.as_str());
        s.append(" )");
        s
    }
}

/// The full matching rule of a route; a blank prefix counts as absent.
pub fn build_rule(host: &str, regex: bool, prefix: &Option<String>, tcp: bool) -> (r: String)
    ensures
        r@ == spec_rule(host@, regex, opt_str_view(*prefix), tcp),
{
    let base = host_rule(host, regex, tcp);
    match prefix {
        Some(p) => {
            let t = trimmed(p.as_str());
            if t.as_str().unicode_len() == 0 {
                base
            } else {
                let mut s = String::from_str("(");
                s.append(base.as_str());
                s.append(" && PathPrefix(`");
                s.append(p.as_str());
                s.append("`))");
                s
            }
        },
        None => base,
    }
}

/// An all-whitespace prefix is treated identically to an absent one in rule
/// construction.
pub proof fn lemma_blank_prefix(host: Seq<char>, regex: bool, p: Seq<char>, tcp: bool)
    requires
        spec_trim(p).len() == 0,
    ensures
        spec_rule(host, regex, Some(p), tcp) == spec_rule(host, regex, None, tcp),
{
}

/// The well-known ACME HTTP-01 challenge rule over a base host rule.
pub open spec fn spec_acme_rule(base: Seq<char>) -> Seq<char> {
    "("@ + base + " && PathPrefix(`/.well-known/acme-challenge/`))"@
}

/// Wraps a base host rule together with the well-known ACME challenge path.
pub fn acme_rule(base: &str) -> (r: String)
    ensures
        r@ == spec_acme_rule(base@),
{
    let mut s = String::from_str("(");
    s.append(base);
    s.append(" && PathPrefix(`/.well-known/acme-challenge/`))");
    s
}

// ---------------------------------------------------------------------------
// Name allocation
// ---------------------------------------------------------------------------

/// The stable configuration-object name derived from a route kind, identifier
/// and display name.
pub open spec fn spec_route_name(kind: Seq<char>, id: int, name: Seq<char>) -> Seq<char> {
    "gui-"@ + kind + "-"@ + dec_int(id) + "-"@ + name
}

/// Allocates the configuration-object name `gui-<kind>-<id>-<name>`.
pub fn route_name(kind: &str, id: i32, name: &str) -> (r: String)
    ensures
        r@ == spec_route_name(kind@, id as int, name@),
{
    let mut s = String::from_str("gui-");
    s.append(kind);
    s.append("-");
    let d = i32_dec(id);
    s.append(d.as_str());
    s.append("-");
    s.append(name);
    s
}

/// `base` with `suffix` appended, for derived object names.
pub fn with_suffix(base: &str, suffix: &str) -> (r: String)
    ensures
        r@ == base@ + suffix@,
{
    let mut s = String::from_str(base);
    s.append(suffix);
    s
}

// ---------------------------------------------------------------------------
// Upstream addresses
// ---------------------------------------------------------------------------

/// The upstream address with `:443` appended when it names no port at all.
pub open spec fn spec_default_port(t: Seq<char>) -> Seq<char> {
    if last_colon(t) == -1 {
        t + ":443"@
    } else {
        t
    }
}

/// Appends `:443` to an upstream address that holds no colon.
pub fn default_port(t: &str) -> (r: String)
    ensures
        r@ == spec_default_port(t@),
{
    match rfind_colon(t) {
        Some(_) => String::from_str(t),
        None => {
            let mut s = String::from_str(t);
            s.append(":443");
            s
        },
    }
}

/// The upstream address with everything from its last colon on replaced by
/// `:port`; when it holds no colon, `:port` is appended.
pub open spec fn spec_acme_target(t: Seq<char>, port: int) -> Seq<char> {
    if last_colon(t) == -1 {
        t + ":"@ + dec_int(port)
    } else {
        t.take(last_colon(t)) + ":"@ + dec_int(port)
    }
}

/// Rewrites the port of an upstream address for ACME challenge traffic.
pub fn acme_target(t: &str, port: i32) -> (r: String)
    ensures
        r@ == spec_acme_target(t@, port as int),
{
    let mut s = match rfind_colon(t) {
        Some(i) => {
            proof {
                lemma_last_colon(t@);
            }
            let h = t.substring_char(0, i);
            proof {
                assert(t@.take(last_colon(t@)) =~= t@.subrange(0, last_colon(t@)));
            }
            String::from_str(h)
        },
        None => String::from_str(t),
    };
    s.append(":");
    let d = i32_dec(port);
    s.append(d.as_str());
    s
}

} // verus!
