use vstd::prelude::*;

use crate::socks::Ipv4Addr;

verus! {

/// Errors from validating a configuration.
#[derive(Clone, Copy, Debug, PartialEq, Eq, Structural)]
pub enum Error {
    /// A proxy type other than "socks4" or "socks5".
    UnexpectedProxyType,
    /// A stage with no candidate proxies.
    EmptyChain,
    /// A specification with no stages.
    NoChains,
}

/// One upstream SOCKS proxy: protocol variant plus address.
#[derive(Clone, Copy, Debug, PartialEq, Eq, Structural)]
pub enum Proxy {
    Socks4(Ipv4Addr, u16),
    Socks5(Ipv4Addr, u16),
}

/// The address of a proxy, whichever variant it speaks.
pub open spec fn spec_proxy_addr(p: Proxy) -> (Ipv4Addr, u16) {
    match p {
        Proxy::Socks4(ip, port) => (ip, port),
        Proxy::Socks5(ip, port) => (ip, port),
    }
}

impl Proxy {
    /// Builds a proxy from its configuration triple; the type string
    /// must be "socks4" or "socks5".
    pub fn from_parts(kind: &str, ip: Ipv4Addr, port: u16) -> (r: Result<Proxy, Error>)
        ensures
            kind@ == "socks4"@ ==> r == Ok::<Proxy, Error>(Proxy::Socks4(ip, port)),
            kind@ == "socks5"@ ==> r == Ok::<Proxy, Error>(Proxy::Socks5(ip, port)),
            kind@ != "socks4"@ && kind@ != "socks5"@ ==> r == Err::<Proxy, Error>(
                Error::UnexpectedProxyType,
            ),
    {
        proof {
            reveal_strlit("socks4");
            reveal_strlit("socks5");
        }
        if kind.unicode_len() == 6 {
            let head_matches = kind.get_char(0) == 's' && kind.get_char(1) == 'o' && kind.get_char(
                2,
            ) == 'c' && kind.get_char(3) == 'k' && kind.get_char(4) == 's';
            if head_matches && kind.get_char(5) == '4' {
                proof {
                    assert(kind@ =~= "socks4"@);
                }
                return Ok(Proxy::Socks4(ip, port));
            }
            if head_matches && kind.get_char(5) == '5' {
                proof {
                    assert(kind@ =~= "socks5"@);
                }
                return Ok(Proxy::Socks5(ip, port));
            }
        }
        Err(Error::UnexpectedProxyType)
    }

    /// The address this proxy listens on.
    pub fn addr(&self) -> (r: (Ipv4Addr, u16))
        ensures
            r == spec_proxy_addr(*self),
    {
        match *self {
            Proxy::Socks4(ip, port) => (ip, port),
            Proxy::Socks5(ip, port) => (ip, port),
        }
    }
}

/// One stage of the chain specification: a nonempty ordered list of
/// interchangeable candidate proxies, one of which is drawn per
/// session.
pub struct Chain {
    entries: Vec<Proxy>,
}

impl View for Chain {
    type V = Seq<Proxy>;

    closed spec fn view(&self) -> Seq<Proxy> {
        self.entries@
    }
}

impl Chain {
    /// Every stage holds at least one candidate.
    #[verifier::type_invariant]
    pub open spec fn wf(self) -> bool {
        self@.len() >= 1
    }

    /// Builds one stage from its candidate list, which must be
    /// nonempty.
    pub fn new(entries: Vec<Proxy>) -> (r: Result<Chain, Error>)
        ensures
            entries@.len() == 0 ==> r == Err::<Chain, Error>(Error::EmptyChain),
            entries@.len() > 0 ==> (r matches Ok(c) && c@ == entries@),
    {
        if entries.len() == 0 {
            return Err(Error::EmptyChain);
        }
        Ok(Chain { entries })
    }

    /// The candidate proxies of this stage.
    pub fn entries(&self) -> (r: &Vec<Proxy>)
        ensures
            r@ == self@,
    {
        &self.entries
    }
}

/// The chain specification: a nonempty ordered list of stages, shared
/// read-only across sessions.
pub struct Chains {
    list: Vec<Chain>,
}

impl View for Chains {
    type V = Seq<Seq<Proxy>>;

    closed spec fn view(&self) -> Seq<Seq<Proxy>> {
        self.list@.map_values(|c: Chain| c@)
    }
}

impl Chains {
    /// A specification holds at least one stage.
    #[verifier::type_invariant]
    pub open spec fn wf(self) -> bool {
        self@.len() >= 1
    }

    /// Builds the specification from its stages, which must be
    /// nonempty.
    pub fn new(list: Vec<Chain>) -> (r: Result<Chains, Error>)
        ensures
            list@.len() == 0 ==> r == Err::<Chains, Error>(Error::NoChains),
            list@.len() > 0 ==> (r matches Ok(c) && c@ == list@.map_values(|ch: Chain| ch@)),
    {
        if list.len() == 0 {
            return Err(Error::NoChains);
        }
        Ok(Chains { list })
    }

    /// The stages of the specification, in order.
    pub fn stages(&self) -> (r: &Vec<Chain>)
        ensures
            r@.map_values(|c: Chain| c@) == self@,
    {
        &self.list
    }
}

/// The listen endpoint taken from configuration.
pub struct Server {
    pub host: String,
    pub port: u16,
}

impl Server {
    pub fn new(host: String, port: u16) -> (r: Server)
        ensures
            r.host@ == host@,
            r.port == port,
    {
        Server { host, port }
    }

    pub fn host(&self) -> (r: &str)
        ensures
            r@ == self.host@,
    {
        self.host.as_str()
    }

    pub fn port(&self) -> (r: u16)
        ensures
            r == self.port,
    {
        self.port
    }
}

/// A validated configuration: the listen endpoint and the chain
/// specification.
pub struct Config {
    pub server: Server,
    pub chains: Chains,
}

impl Config {
    pub fn new(server: Server, chains: Chains) -> (r: Config)
        ensures
            r.server.host@ == server.host@,
            r.server.port == server.port,
            r.chains@ == chains@,
    {
        Config { server, chains }
    }

    pub fn server(&self) -> (r: &Server)
        ensures
            r.host@ == self.server.host@,
            r.port == self.server.port,
    {
        &self.server
    }

    pub fn chains(&self) -> (r: &Chains)
        ensures
            r@ == self.chains@,
    {
        &self.chains
    }
}

} // verus!
