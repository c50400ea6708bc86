use url::Url;
use vstd::prelude::*;

verus! {

/// The url crate's parsed endpoint, carried through opaquely.
#[verifier::external_type_specification]
#[verifier::external_body]
pub struct ExUrl(Url);

/// The host of a parsed endpoint, if it has one.
pub uninterp spec fn url_host(u: Url) -> Option<Seq<char>>;

/// The explicit port of a parsed endpoint, or else the default port of its
/// scheme, if either exists.
pub uninterp spec fn url_port(u: Url) -> Option<u16>;

/// The view of an optional string slice.
pub open spec fn opt_str_view(s: Option<&str>) -> Option<Seq<char>> {
    match s {
        Some(t) => Some(t@),
        None => None,
    }
}

/// Relies on url's `Url::host_str`: the host of the endpoint, if it has one,
/// a function of the parsed value alone.
pub assume_specification<'a>[ Url::host_str ](u: &'a Url) -> (r: Option<&'a str>)
    ensures
        opt_str_view(r) == url_host(*u),
;

/// Relies on url's `Url::port_or_known_default`: the explicit port, or else
/// the default port of the scheme, if either exists, a function of the
/// parsed value alone.
pub assume_specification[ Url::port_or_known_default ](u: &Url) -> (r: Option<u16>)
    ensures
        r == url_port(*u),
;

/// Why no socket address could be derived from an endpoint.
#[derive(Clone, Copy, Debug, PartialEq, Eq, Structural)]
pub enum AddressError {
    /// The endpoint names no host.
    NoHost,
    /// The endpoint gives no port and its scheme has no known default.
    NoPort,
}

pub open spec fn decimal_digits() -> Seq<char> {
    seq!['0', '1', '2', '3', '4', '5', '6', '7', '8', '9']
}

/// The decimal notation of `n`, without leading zeros.
pub open spec fn decimal(n: nat) -> Seq<char>
    decreases n,
{
    if n < 10 {
        seq![decimal_digits()[n as int]]
    } else {
        decimal(n / 10) + seq![decimal_digits()[(n % 10) as int]]
    }
}

/// `host:port`, the port in decimal.
pub open spec fn host_port(host: Seq<char>, port: u16) -> Seq<char> {
    host + seq![':'] + decimal(port as nat)
}

/// The address derived from an optional host and an optional port; the host
/// is looked at first.
pub open spec fn address_of(host: Option<Seq<char>>, port: Option<u16>) -> Result<Seq<char>, AddressError> {
    match host {
        None => Err(AddressError::NoHost),
        Some(h) => match port {
            None => Err(AddressError::NoPort),
            Some(p) => Ok(host_port(h, p)),
        },
    }
}

/// The view of an address result.
pub open spec fn address_view(r: Result<String, AddressError>) -> Result<Seq<char>, AddressError> {
    match r {
        Ok(s) => Ok(s@),
        Err(e) => Err(e),
    }
}

fn digit_str(d: u16) -> (r: &'static str)
    requires
        d < 10,
    ensures
        r@ == seq![decimal_digits()[d as int]],
{
    if d == 0 {
        proof { reveal_strlit("0"); }
        "0"
    } else if d == 1 {
        proof { reveal_strlit("1"); }
        "1"
    } else if d == 2 {
        proof { reveal_strlit("2"); }
        "2"
    } else if d == 3 {
        proof { reveal_strlit("3"); }
        "3"
    } else if d == 4 {
        proof { reveal_strlit("4"); }
        "4"
    } else if d == 5 {
        proof { reveal_strlit("5"); }
        "5"
    } else if d == 6 {
        proof { reveal_strlit("6"); }
        "6"
    } else if d == 7 {
        proof { reveal_strlit("7"); }
        "7"
    } else if d == 8 {
        proof { reveal_strlit("8"); }
        "8"
    } else {
        proof { reveal_strlit("9"); }
        "9"
    }
}

/// Appends the decimal notation of `n` to `out`.
fn push_decimal(out: &mut String, n: u16)
    ensures
        final(out)@ == old(out)@ + decimal(n as nat),
    decreases n,
{
    if n >= 10 {
        push_decimal(out, n / 10);
        out.append(digit_str(n % 10));
        assert(out@ == old(out)@ + decimal(n as nat));
    } else {
        out.append(digit_str(n));
    }
}

/// Joins a host and a port into `host:port`.
pub fn join_host_port(host: &str, port: u16) -> (r: String)
    ensures
        r@ == host_port(host@, port),
{
    let mut out = String::from_str(host);
    proof { reveal_strlit(":"); }
    out.append(":");
    push_decimal(&mut out, port);
    out
}

/// The socket address for an optional host and an optional port.
pub fn resolve_address(host: Option<&str>, port: Option<u16>) -> (r: Result<String, AddressError>)
    ensures
        address_view(r) == address_of(opt_str_view(host), port),
{
    match host {
        None => Err(AddressError::NoHost),
        Some(h) => match port {
            None => Err(AddressError::NoPort),
            Some(p) => Ok(join_host_port(h, p)),
        },
    }
}

/// The socket address of an endpoint: its host and its port, or the default
/// port of its scheme.
pub fn target_address(url: &Url) -> (r: Result<String, AddressError>)
    ensures
        address_view(r) == address_of(url_host(*url), url_port(*url)),
{
    let host = url.host_str();
    let port = url.port_or_known_default();
    resolve_address(host, port)
}

impl AddressError {
    /// A short description of the error.
    pub fn describe(&self) -> (r: String)
        ensures
            *self == AddressError::NoHost ==> r@ == "can't parse host"@,
            *self == AddressError::NoPort ==> r@ == "can't guess port"@,
    {
        match self {
            AddressError::NoHost => String::from_str("can't parse host"),
            AddressError::NoPort => String::from_str("can't guess port"),
        }
    }
}

} // verus!
