//! What a request is aimed at: scheme, host, port, and resolved addresses.

use vstd::prelude::*;

verus! {

/// A URL scheme this transport can serve.
#[derive(Clone, Copy, Debug, PartialEq, Eq, Hash, Structural)]
pub enum Scheme {
    Http,
    Https,
}

/// An IP address as a plain number: 32 bits for IPv4, 128 for IPv6.
#[derive(Clone, Copy, Debug, PartialEq, Eq, Hash, Structural)]
pub enum Ip {
    V4(u32),
    V6(u128),
}

/// A resolved `(ip, port)` pair: the unit of pooling and of failover.
///
/// Two requests that resolve to the same `RemoteAddress` share one pool;
/// requests to different addresses, even for one hostname, get independent
/// pools.
#[derive(Clone, Copy, Debug, PartialEq, Eq, Hash, Structural)]
pub struct RemoteAddress {
    pub ip: Ip,
    pub port: u16,
}

/// The parts of a request URL that the transport's decisions read.
#[derive(Clone, Debug)]
pub struct UrlParts {
    /// The scheme, lower-case, as written in the URL.
    pub scheme: String,
    /// The host, if the URL has one.
    pub host: Option<String>,
    /// The port, if the URL names one explicitly.
    pub port: Option<u16>,
}

/// A validated request target: supported scheme, present host, and the
/// effective port (explicit or the scheme's default).
#[derive(Clone, Debug)]
pub struct Target {
    pub scheme: Scheme,
    pub host: String,
    pub port: u16,
}

/// Which supported scheme, if any, a scheme string names.
pub open spec fn scheme_of(s: Seq<char>) -> Option<Scheme> {
    if s == "http"@ {
        Some(Scheme::Http)
    } else if s == "https"@ {
        Some(Scheme::Https)
    } else {
        None
    }
}

/// The default port of a scheme: 80 for "http", 443 for "https".
pub open spec fn spec_default_port(scheme: Scheme) -> u16 {
    match scheme {
        Scheme::Http => 80,
        Scheme::Https => 443,
    }
}

/// Parse a scheme string into a supported scheme, or `None` for any other
/// scheme.
pub fn parse_scheme(s: &str) -> (r: Option<Scheme>)
    ensures
        r == scheme_of(s@),
{
    proof {
        reveal_strlit("http");
        reveal_strlit("https");
    }
    let n = s.unicode_len();
    if n == 4 {
        if s.get_char(0) == 'h' && s.get_char(1) == 't' && s.get_char(2) == 't' && s.get_char(3)
            == 'p' {
            proof {
                assert(s@ =~= "http"@);
            }
            Some(Scheme::Http)
        } else {
            assert(s@ != "http"@ && s@ != "https"@);
            None
        }
    } else if n == 5 {
        if s.get_char(0) == 'h' && s.get_char(1) == 't' && s.get_char(2) == 't' && s.get_char(3)
            == 'p' && s.get_char(4) == 's' {
            proof {
                assert(s@ =~= "https"@);
            }
            Some(Scheme::Https)
        } else {
            assert(s@ != "http"@ && s@ != "https"@);
            None
        }
    } else {
        assert(s@ != "http"@ && s@ != "https"@);
        None
    }
}

/// The default port of a scheme: 80 for "http", 443 for "https".
pub fn default_port(scheme: Scheme) -> (p: u16)
    ensures
        p == spec_default_port(scheme),
{
    match scheme {
        Scheme::Http => 80,
        Scheme::Https => 443,
    }
}

impl Target {
    /// The effective port of a target: the URL's explicit port where one was
    /// named, the scheme's default otherwise.
    pub open spec fn effective_port(scheme: Scheme, explicit: Option<u16>) -> u16 {
        match explicit {
            Some(p) => p,
            None => spec_default_port(scheme),
        }
    }
}

} // verus!
