//! A domain name with a suffix known to the Public Suffix List, and the host names that checkers
//! report.
use vstd::prelude::*;

verus! {

/// Whether `addr::parse_domain_name` accepts `s` as a domain name.
pub uninterp spec fn parses_as_domain_name(s: Seq<char>) -> bool;

/// Whether the suffix of the domain name `s`, as parsed by `addr`, is in the Public Suffix List.
pub uninterp spec fn has_known_public_suffix(s: Seq<char>) -> bool;

/// Whether `s` is a valid domain name: it parses, and its suffix is known.
pub open spec fn is_valid_domain(s: Seq<char>) -> bool {
    parses_as_domain_name(s) && has_known_public_suffix(s)
}

/// Relies on `addr::parse_domain_name` and `Name::has_known_suffix`: `None` where the name does
/// not parse, else whether its suffix is in the Public Suffix List.
#[verifier::external_body]
fn parse_domain_suffix(s: &str) -> (r: Option<bool>)
    ensures
        r is Some <==> parses_as_domain_name(s@),
        r is Some ==> r->Some_0 == has_known_public_suffix(s@),
{
    addr::parse_domain_name(s).ok().map(|name| name.has_known_suffix())
}

/// Why a string or a host is not a [`Domain`].
#[derive(Debug, Clone, Copy, PartialEq, Eq)]
pub enum DomainError {
    /// The string is not a syntactically valid domain name.
    Syntax,
    /// The name is valid, but its suffix is not in the Public Suffix List.
    UnknownSuffix,
    /// The host is an IPv4 address rather than a domain.
    Ipv4,
    /// The host is an IPv6 address rather than a domain.
    Ipv6,
}

/// A host as a checker reports it: a domain name or an IP address.
#[derive(Debug, Clone, PartialEq, Eq)]
pub enum Host {
    Domain(String),
    Ipv4([u8; 4]),
    Ipv6([u16; 8]),
}

/// A domain name with a suffix known to the Public Suffix List.
#[derive(Debug)]
pub struct Domain {
    domain: String,
}

impl View for Domain {
    type V = Seq<char>;

    closed spec fn view(&self) -> Seq<char> {
        self.domain@
    }
}

impl Domain {
    /// Whether this value holds a valid domain name; every `Domain` built by this module does.
    pub open spec fn wf(&self) -> bool {
        is_valid_domain(self@)
    }

    /// Construct from an arbitrary string.
    pub fn from_str(domain: &str) -> (r: Result<Domain, DomainError>)
        ensures
            match r {
                Ok(d) => d@ == domain@ && d.wf(),
                Err(DomainError::Syntax) => !parses_as_domain_name(domain@),
                Err(DomainError::UnknownSuffix) => parses_as_domain_name(domain@)
                    && !has_known_public_suffix(domain@),
                Err(_) => false,
            },
    {
        match parse_domain_suffix(domain) {
            None => Err(DomainError::Syntax),
            Some(false) => Err(DomainError::UnknownSuffix),
            Some(true) => Ok(Domain { domain: domain.to_owned() }),
        }
    }

    /// Construct from a [`Host`], which must be a domain name.
    pub fn from_host(host: &Host) -> (r: Result<Domain, DomainError>)
        ensures
            match host {
                Host::Domain(s) => match r {
                    Ok(d) => d@ == s@ && d.wf(),
                    Err(DomainError::Syntax) => !parses_as_domain_name(s@),
                    Err(DomainError::UnknownSuffix) => parses_as_domain_name(s@)
                        && !has_known_public_suffix(s@),
                    Err(_) => false,
                },
                Host::Ipv4(_) => r == Err::<Domain, DomainError>(DomainError::Ipv4),
                Host::Ipv6(_) => r == Err::<Domain, DomainError>(DomainError::Ipv6),
            },
    {
        match host {
            Host::Domain(s) => Domain::from_str(s.as_str()),
            Host::Ipv4(_) => Err(DomainError::Ipv4),
            Host::Ipv6(_) => Err(DomainError::Ipv6),
        }
    }

    /// The domain name as a string slice.
    pub fn as_str(&self) -> (r: &str)
        ensures
            r@ == self@,
    {
        self.domain.as_str()
    }

    /// The domain name as an owned string.
    pub fn to_string(&self) -> (r: String)
        ensures
            r@ == self@,
    {
        self.domain.clone()
    }

    /// Whether two domains are the same name.
    pub fn same_as(&self, other: &Domain) -> (r: bool)
        ensures
            r == (self@ == other@),
    {
        self.domain == other.domain
    }
}

impl Clone for Domain {
    fn clone(&self) -> (r: Domain)
        ensures
            r@ == self@,
    {
        Domain { domain: self.domain.clone() }
    }
}

impl PartialEq for Domain {
    fn eq(&self, other: &Domain) -> (r: bool)
        ensures
            r == (self@ == other@),
    {
        self.domain == other.domain
    }
}

impl vstd::std_specs::cmp::PartialEqSpecImpl for Domain {
    open spec fn obeys_eq_spec() -> bool {
        true
    }

    open spec fn eq_spec(&self, other: &Domain) -> bool {
        self@ == other@
    }
}

impl Eq for Domain {
}

} // verus!
