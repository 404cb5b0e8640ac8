//! The request-interception stage: decides per request whether to answer
//! with a temporary redirect to the HTTPS endpoint or to let the wrapped
//! service answer, and decorates every outgoing response with the
//! configured Strict-Transport-Security header.
//!
//! The server glue owns the connection and the handle to the wrapped
//! service: it gathers a [`RequestInfo`], lets [`SchemeRedirectMiddleware::call`]
//! decide, and on [`Decision::Forward`] invokes the wrapped service and
//! passes its response through [`SchemeRedirectMiddleware::finish`].

use vstd::prelude::*;
use vstd::string::StringExecFns;

use crate::address::{classify, spec_classify, AddressFamily, PeerAddr, Scheme};
use crate::data::{hsts_value, sts_name, Protocols, StrictTransportSecurity};
use crate::response::{with_header, Response};
use crate::uri::{build_redirect_uri, hostname_of, query_view, redirect_uri, strip_port};

verus! {

/// The redirect decision table: an https request never redirects; a
/// plaintext request redirects when the policy covers the classified
/// family, and an Unknown family never redirects under any policy.
pub open spec fn spec_should_redirect(
    policy: Protocols,
    family: AddressFamily,
    scheme: Scheme,
) -> bool {
    scheme != Scheme::Https && match policy {
        Protocols::IPv4 => family == AddressFamily::IPv4,
        Protocols::IPv6 => family == AddressFamily::IPv6,
        Protocols::Both => family != AddressFamily::Unknown,
        Protocols::Disabled => false,
    }
}

/// Evaluates the redirect decision table.
pub fn should_redirect(policy: Protocols, family: AddressFamily, scheme: Scheme) -> (r: bool)
    ensures
        r == spec_should_redirect(policy, family, scheme),
{
    if scheme == Scheme::Https {
        return false;
    }
    match policy {
        Protocols::IPv4 => family == AddressFamily::IPv4,
        Protocols::IPv6 => family == AddressFamily::IPv6,
        Protocols::Both => family != AddressFamily::Unknown,
        Protocols::Disabled => false,
    }
}

/// Law: a disabled policy redirects no request, whatever the family and
/// the scheme.
pub proof fn lemma_disabled_never_redirects(family: AddressFamily, scheme: Scheme)
    ensures
        !spec_should_redirect(Protocols::Disabled, family, scheme),
{
}

/// Law: a request that already arrived over https never redirects,
/// whatever the policy and the family.
pub proof fn lemma_https_never_redirects(policy: Protocols, family: AddressFamily)
    ensures
        !spec_should_redirect(policy, family, Scheme::Https),
{
}

/// Law: with both families covered, a plaintext request redirects exactly
/// when the family is known, and an https request never redirects.
pub proof fn lemma_both_covers_known_families(family: AddressFamily)
    ensures
        spec_should_redirect(Protocols::Both, family, Scheme::Http) == (family
            != AddressFamily::Unknown),
        !spec_should_redirect(Protocols::Both, family, Scheme::Https),
{
}

/// The headers after HSTS decoration: unchanged when no policy is
/// configured, else with the rendered header inserted last-writer-wins.
pub open spec fn applied_hsts(
    hsts: Option<StrictTransportSecurity>,
    hs: Seq<(Seq<char>, Seq<char>)>,
) -> Seq<(Seq<char>, Seq<char>)> {
    match hsts {
        Some(p) => with_header(hs, sts_name(), hsts_value(p)),
        _ => hs,
    }
}

/// Applies an HSTS config, when one is, to a response.
pub fn apply_hsts(res: &mut Response, hsts: Option<StrictTransportSecurity>)
    requires
        old(res).wf(),
    ensures
        final(res).wf(),
        final(res).status == old(res).status,
        final(res).headers_abs() == applied_hsts(hsts, old(res).headers_abs()),
{
    match hsts {
        Some(h) => h.insert_into(res),
        _ => {},
    }
}

/// What the connection layer reports about one request.
pub struct RequestInfo {
    /// The peer socket address, when one is known.
    pub peer: Option<PeerAddr>,
    /// The scheme the server layer resolved, trusted verbatim.
    pub scheme: Scheme,
    /// The request authority, possibly carrying a `:port` suffix; absent
    /// when no host can be determined.
    pub host: Option<String>,
    /// The request path, verbatim.
    pub path: String,
    /// The query string, verbatim, when the request carries one.
    pub query: Option<String>,
}

/// The outcome of intercepting one request.
pub enum Decision {
    /// Answer with this redirect response; the wrapped service is not
    /// invoked.
    Redirect(Response),
    /// Invoke the wrapped service; its response goes through `finish`.
    Forward,
}

/// Middleware factory configuration: fixed at server startup, shared
/// read-only across all requests.
#[derive(Clone, Copy)]
pub struct SchemeRedirect {
    /// Which address families redirect.
    pub protocols: Protocols,
    /// The HSTS policy; absent means no header is ever emitted.
    pub hsts: Option<StrictTransportSecurity>,
    /// TLS port named by redirect targets; absent means none is named.
    pub port: Option<u16>,
}

impl SchemeRedirect {
    pub fn new(
        protocols: Protocols,
        hsts: Option<StrictTransportSecurity>,
        port: Option<u16>,
    ) -> (r: Self)
        ensures
            r.protocols == protocols,
            r.hsts == hsts,
            r.port == port,
    {
        Self { protocols, hsts, port }
    }

    /// Sets the TLS port redirect targets name.
    pub fn to_port(self, port: u16) -> (r: Self)
        ensures
            r.protocols == self.protocols,
            r.hsts == self.hsts,
            r.port == Some(port),
    {
        let mut s = self;
        s.port = Some(port);
        s
    }

    /// Middleware construction: copies the configuration into the
    /// per-request stage. The handle to the wrapped service stays with
    /// the server glue.
    pub fn new_transform(&self) -> (m: SchemeRedirectMiddleware)
        ensures
            m.protocols == self.protocols,
            m.hsts == self.hsts,
            m.port == self.port,
    {
        SchemeRedirectMiddleware { protocols: self.protocols, hsts: self.hsts, port: self.port }
    }
}

impl Default for SchemeRedirect {
    /// Redirection disabled, no HSTS policy, no explicit port.
    fn default() -> (r: Self)
        ensures
            r.protocols == Protocols::Disabled,
            r.hsts is None,
            r.port is None,
    {
        Self { protocols: Protocols::Disabled, hsts: None, port: None }
    }
}

/// The per-request stage: holds the immutable configuration; the handle
/// to the wrapped service stays with the server glue.
#[derive(Clone, Copy)]
pub struct SchemeRedirectMiddleware {
    /// Which address families redirect.
    pub protocols: Protocols,
    /// The HSTS policy; absent means no header is ever emitted.
    pub hsts: Option<StrictTransportSecurity>,
    /// TLS port named by redirect targets; absent means none is named.
    pub port: Option<u16>,
}

/// The lowercase name of the `Location` header a redirect response
/// carries.
pub open spec fn location_name() -> Seq<char> {
    "location"@
}

impl SchemeRedirectMiddleware {
    /// Whether `req` is answered with a redirect: the decision table says
    /// so for the classified peer family and the reported scheme, and the
    /// request has a determinable host to name in the target.
    pub open spec fn spec_redirects(&self, req: RequestInfo) -> bool {
        &&& spec_should_redirect(self.protocols, spec_classify(req.peer), req.scheme)
        &&& req.host is Some
    }

    /// The target a redirect of `req` names: scheme https, the request
    /// host with its port stripped, the configured port when one is, and
    /// the path and query verbatim.
    pub open spec fn spec_location(&self, req: RequestInfo) -> Seq<char> {
        match req.host {
            Some(h) => redirect_uri(hostname_of(h@), self.port, req.path@, query_view(req.query)),
            _ => Seq::<char>::empty(),
        }
    }

    /// Intercepts one request: either the redirect response (status 307,
    /// a `location` header naming the target, HSTS applied when
    /// configured), or the decision to forward to the wrapped service.
    pub fn call(&self, req: &RequestInfo) -> (d: Decision)
        ensures
            self.spec_redirects(*req) ==> (d matches Decision::Redirect(r) && r.wf() && r.status
                == 307 && r.headers_abs() == applied_hsts(
                self.hsts,
                seq![(location_name(), self.spec_location(*req))],
            )),
            !self.spec_redirects(*req) ==> d is Forward,
    {
        let to_redirect = match self.protocols {
            Protocols::Disabled => false,
            _ => {
                let family = classify(&req.peer);
                should_redirect(self.protocols, family, req.scheme)
            },
        };
        if to_redirect {
            match &req.host {
                Some(host) => {
                    let hostname = strip_port(host.as_str());
                    let uri = build_redirect_uri(hostname, self.port, req.path.as_str(), &req.query);
                    let mut res = Response::new(307);
                    res.set_header(String::from_str("location"), uri);
                    proof {
                        assert(res.headers_abs() =~= seq![
                            (location_name(), self.spec_location(*req)),
                        ]);
                    }
                    apply_hsts(&mut res, self.hsts);
                    Decision::Redirect(res)
                },
                _ => Decision::Forward,
            }
        } else {
            Decision::Forward
        }
    }

    /// Forward path: the response the wrapped service produced receives
    /// the HSTS header, when one is configured, as the last step before
    /// it leaves this stage.
    pub fn finish(&self, res: &mut Response)
        requires
            old(res).wf(),
        ensures
            final(res).wf(),
            final(res).status == old(res).status,
            final(res).headers_abs() == applied_hsts(self.hsts, old(res).headers_abs()),
    {
        apply_hsts(res, self.hsts);
    }
}

} // verus!
