//! Building the redirect target: the host with any port suffix stripped,
//! the configured TLS port when one is, and the request path and query
//! carried over verbatim under the `https` scheme.

use vstd::prelude::*;
use vstd::string::{StrSliceExecFns, StringExecFns};

use crate::decimal::{append_decimal, decimal_digits};

verus! {

/// Index of the first `':'` in `h`; `h.len()` when none is.
pub open spec fn first_colon(h: Seq<char>) -> int
    decreases h.len(),
{
    if h.len() == 0 {
        0
    } else if h[0] == ':' {
        0
    } else {
        1 + first_colon(h.drop_first())
    }
}

/// The host with any `:port` suffix stripped: its prefix up to the first
/// `':'`, or all of it when it holds none.
pub open spec fn hostname_of(h: Seq<char>) -> Seq<char> {
    h.subrange(0, first_colon(h))
}

/// `first_colon` finds the least index holding `':'`.
proof fn lemma_first_colon_at(h: Seq<char>, i: int)
    requires
        0 <= i < h.len(),
        h[i] == ':',
        forall|j: int| 0 <= j < i ==> h[j] != ':',
    ensures
        first_colon(h) == i,
    decreases i,
{
    if i > 0 {
        let rest = h.drop_first();
        assert(rest[i - 1] == ':');
        assert(forall|j: int| 0 <= j < i - 1 ==> rest[j] != ':');
        lemma_first_colon_at(rest, i - 1);
    }
}

/// Without a `':'`, `first_colon` is the length.
proof fn lemma_first_colon_none(h: Seq<char>)
    requires
        forall|j: int| 0 <= j < h.len() ==> h[j] != ':',
    ensures
        first_colon(h) == h.len(),
    decreases h.len(),
{
    if h.len() > 0 {
        let rest = h.drop_first();
        assert(forall|j: int| 0 <= j < rest.len() ==> rest[j] != ':');
        lemma_first_colon_none(rest);
    }
}

/// `first_colon` stays in range and everything before it is no `':'`.
proof fn lemma_first_colon_bounds(h: Seq<char>)
    ensures
        0 <= first_colon(h) <= h.len(),
        forall|j: int| 0 <= j < first_colon(h) ==> h[j] != ':',
    decreases h.len(),
{
    if h.len() > 0 && h[0] != ':' {
        let rest = h.drop_first();
        lemma_first_colon_bounds(rest);
        assert(forall|j: int| 1 <= j < first_colon(h) ==> h[j] == rest[j - 1]);
    }
}

/// Law: the hostname a redirect target names holds no `':'` — any port
/// suffix the request host carried is stripped, so only the configured
/// port can appear in the target's authority.
pub proof fn lemma_hostname_strips_port(h: Seq<char>)
    ensures
        hostname_of(h).len() <= h.len(),
        forall|j: int| 0 <= j < hostname_of(h).len() ==> hostname_of(h)[j] != ':',
{
    lemma_first_colon_bounds(h);
}

/// Strips any `:port` suffix from a host: returns the prefix up to the
/// first `':'`, or the whole host when it holds none.
pub fn strip_port<'a>(host: &'a str) -> (hostname: &'a str)
    ensures
        hostname@ == hostname_of(host@),
{
    let len = host.unicode_len();
    let mut i: usize = 0;
    while i < len
        invariant
            len == host@.len(),
            0 <= i <= len,
            forall|j: int| 0 <= j < i ==> host@[j] != ':',
        decreases len - i,
    {
        if host.get_char(i) == ':' {
            proof {
                lemma_first_colon_at(host@, i as int);
            }
            return host.substring_char(0, i);
        }
        i += 1;
    }
    proof {
        lemma_first_colon_none(host@);
        assert(host@.subrange(0, host@.len() as int) =~= host@);
    }
    host
}

/// The port clause of the redirect target: `:<port>` when a TLS port is
/// configured, empty otherwise.
pub open spec fn port_part(port: Option<u16>) -> Seq<char> {
    match port {
        Some(p) => ":"@ + decimal_digits(p as nat),
        _ => Seq::<char>::empty(),
    }
}

/// The authority of the redirect target: the hostname, then the
/// configured port when one is.
pub open spec fn authority(hostname: Seq<char>, port: Option<u16>) -> Seq<char> {
    hostname + port_part(port)
}

/// The query clause of the redirect target: `?<query>` when the request
/// carries a query string, empty otherwise.
pub open spec fn query_part(query: Option<Seq<char>>) -> Seq<char> {
    match query {
        Some(q) => "?"@ + q,
        _ => Seq::<char>::empty(),
    }
}

/// The full redirect target:
/// `https://<hostname>[:<port>]<path>[?<query>]`.
pub open spec fn redirect_uri(
    hostname: Seq<char>,
    port: Option<u16>,
    path: Seq<char>,
    query: Option<Seq<char>>,
) -> Seq<char> {
    "https://"@ + authority(hostname, port) + path + query_part(query)
}

/// The character content of an optional string.
pub open spec fn query_view(query: Option<String>) -> Option<Seq<char>> {
    match query {
        Some(q) => Some(q@),
        _ => None,
    }
}

/// Builds the redirect target for a request.
pub fn build_redirect_uri(
    hostname: &str,
    port: Option<u16>,
    path: &str,
    query: &Option<String>,
) -> (uri: String)
    ensures
        uri@ == redirect_uri(hostname@, port, path@, query_view(*query)),
{
    let mut s = String::from_str("https://");
    s.append(hostname);
    match port {
        Some(p) => {
            s.append(":");
            append_decimal(p as u64, &mut s);
        },
        _ => {},
    }
    s.append(path);
    match query {
        Some(q) => {
            s.append("?");
            s.append(q.as_str());
        },
        _ => {},
    }
    proof {
        assert(s@ =~= redirect_uri(hostname@, port, path@, query_view(*query)));
    }
    s
}

/// Law: the redirect target always begins with the scheme `https://`,
/// followed by the authority (the hostname, then the configured port when
/// one is, and no port clause otherwise), then the path verbatim, then
/// the query clause verbatim.
pub proof fn lemma_redirect_target_parts(
    hostname: Seq<char>,
    port: Option<u16>,
    path: Seq<char>,
    query: Option<Seq<char>>,
)
    ensures
        ({
            let t = redirect_uri(hostname, port, path, query);
            let scheme = "https://"@;
            let a = authority(hostname, port);
            let q = query_part(query);
            &&& t.len() == scheme.len() + a.len() + path.len() + q.len()
            &&& t.subrange(0, scheme.len() as int) == scheme
            &&& t.subrange(scheme.len() as int, (scheme.len() + a.len()) as int) == a
            &&& t.subrange(
                (scheme.len() + a.len()) as int,
                (scheme.len() + a.len() + path.len()) as int,
            ) == path
            &&& t.subrange((scheme.len() + a.len() + path.len()) as int, t.len() as int) == q
            &&& (port is None ==> a == hostname)
            &&& (port matches Some(p) ==> a == hostname + ":"@ + decimal_digits(p as nat))
        }),
{
    let t = redirect_uri(hostname, port, path, query);
    let scheme = "https://"@;
    let a = authority(hostname, port);
    let q = query_part(query);
    assert(t.subrange(0, scheme.len() as int) =~= scheme);
    assert(t.subrange(scheme.len() as int, (scheme.len() + a.len()) as int) =~= a);
    assert(t.subrange(
        (scheme.len() + a.len()) as int,
        (scheme.len() + a.len() + path.len()) as int,
    ) =~= path);
    assert(t.subrange((scheme.len() + a.len() + path.len()) as int, t.len() as int) =~= q);
    match port {
        Some(p) => {
            assert(a =~= hostname + ":"@ + decimal_digits(p as nat));
        },
        _ => {},
    }
}

} // verus!
