//! Configuration data for the redirect stage: which address families
//! redirect, the optional TLS port, and the Strict-Transport-Security
//! policy with its rendered header value.

use vstd::prelude::*;
use vstd::string::StringExecFns;

use crate::decimal::{append_decimal, decimal_digits};
use crate::response::{with_header, Response};

verus! {

/// The lowercase name of the Strict-Transport-Security header.
pub open spec fn sts_name() -> Seq<char> {
    "strict-transport-security"@
}

/// Which client address families trigger a redirect to the TLS port.
#[derive(Clone, Copy, PartialEq, Eq, Structural, Debug)]
pub enum Protocols {
    IPv4,
    IPv6,
    Both,
    Disabled,
}

impl Default for Protocols {
    /// Redirection is disabled unless explicitly configured.
    fn default() -> (r: Self)
        ensures
            r == Protocols::Disabled,
    {
        Protocols::Disabled
    }
}

/// Https redirection configuration.
#[derive(Clone, Copy)]
pub struct Redirect {
    /// TLS port named by the redirect target; absent means the target
    /// carries no explicit port.
    pub port: Option<u16>,
    /// Redirect to the TLS port for IPv4, IPv6 or both protocols.
    pub protocols: Protocols,
}

/// HSTS header configuration.
#[derive(Clone, Copy)]
pub struct StrictTransportSecurity {
    /// Custom duration in seconds (300 when not configured).
    pub duration: u64,
    /// Include subdomains (false when not configured).
    pub include_subdomains: bool,
    /// Add the preload directive (false when not configured).
    pub preload: bool,
}

/// The duration a policy carries when none is configured.
pub fn default_duration() -> (r: u64)
    ensures
        r == 300,
{
    300
}

impl Default for StrictTransportSecurity {
    fn default() -> (r: Self)
        ensures
            r.duration == 300,
            !r.include_subdomains,
            !r.preload,
    {
        Self { duration: 300, include_subdomains: false, preload: false }
    }
}

/// The exact header value a policy renders to:
/// `max-age=<seconds>[; includeSubDomains][; preload]`.
pub open spec fn hsts_value(h: StrictTransportSecurity) -> Seq<char> {
    "max-age="@ + decimal_digits(h.duration as nat) + (if h.include_subdomains {
        "; includeSubDomains"@
    } else {
        Seq::<char>::empty()
    }) + (if h.preload {
        "; preload"@
    } else {
        Seq::<char>::empty()
    })
}

impl StrictTransportSecurity {
    /// Renders the header value for this policy.
    pub fn header_value(&self) -> (r: String)
        ensures
            r@ == hsts_value(*self),
    {
        let mut s = String::from_str("max-age=");
        append_decimal(self.duration, &mut s);
        if self.include_subdomains {
            s.append("; includeSubDomains");
        }
        if self.preload {
            s.append("; preload");
        }
        proof {
            let base = "max-age="@ + decimal_digits(self.duration as nat);
            let sub = if self.include_subdomains {
                "; includeSubDomains"@
            } else {
                Seq::<char>::empty()
            };
            let pre = if self.preload {
                "; preload"@
            } else {
                Seq::<char>::empty()
            };
            assert(s@ =~= (base + sub) + pre);
            assert((base + sub) + pre =~= hsts_value(*self));
        }
        s
    }

    /// Inserts the rendered `Strict-Transport-Security` header into
    /// `res`, overwriting any prior value under that name.
    pub fn insert_into(&self, res: &mut Response)
        requires
            old(res).wf(),
        ensures
            final(res).wf(),
            final(res).status == old(res).status,
            final(res).headers_abs() == with_header(
                old(res).headers_abs(),
                sts_name(),
                hsts_value(*self),
            ),
    {
        res.set_header(String::from_str("strict-transport-security"), self.header_value());
    }
}

} // verus!
