use vstd::prelude::*;

use crate::socks::{
    ip_bytes, port_bytes, port_of, parsed_as, Error as SocksError, Ipv4Addr, Parsed, SessionError,
};
use crate::socks4::{Socks4Command, Socks4Reply};

verus! {

/// Errors specific to the SOCKS5 codec.
#[derive(Clone, Copy, Debug, PartialEq, Eq, Structural)]
pub enum Error {
    /// An upstream hop did not select the "no authentication" method.
    AuthRejected,
    /// A hop's reply carried a REP other than 0; the payload is that REP.
    RequestFailed(u8),
    /// The client did not offer the "no authentication" method.
    UnsupportedAuthMethod,
}

/// The CMD byte of a SOCKS5 request.
#[derive(Clone, Copy, Debug, PartialEq, Eq, Structural)]
pub enum Socks5CommandType {
    Connect,
    Bind,
}

impl Socks5CommandType {
    /// Decodes the CMD byte of a SOCKS5 request: 1 is CONNECT, 2 is
    /// BIND, anything else is a protocol error.
    pub fn try_from(value: u8) -> (r: Result<Socks5CommandType, SocksError>)
        ensures
            value == 1 ==> r == Ok::<Socks5CommandType, SocksError>(Socks5CommandType::Connect),
            value == 2 ==> r == Ok::<Socks5CommandType, SocksError>(Socks5CommandType::Bind),
            value != 1 && value != 2 ==> r == Err::<Socks5CommandType, SocksError>(
                SocksError::ProtocolError,
            ),
    {
        match value {
            1 => Ok(Socks5CommandType::Connect),
            2 => Ok(Socks5CommandType::Bind),
            _ => Err(SocksError::ProtocolError),
        }
    }
}

/// A SOCKS5 command: kind plus target address (IPv4 only).
#[derive(Clone, Copy, Debug, PartialEq, Eq, Structural)]
pub enum Socks5Command {
    Connect(Ipv4Addr, u16),
    Bind(Ipv4Addr, u16),
}

/// The bound address a SOCKS5 hop reports in a successful reply.
#[derive(Clone, Copy, Debug, PartialEq, Eq, Structural)]
pub struct Socks5Reply {
    pub ip: Ipv4Addr,
    pub port: u16,
}

/// The CMD wire byte of a command.
pub open spec fn spec_socks5_cd(c: Socks5Command) -> u8 {
    match c {
        Socks5Command::Connect(_, _) => 1,
        Socks5Command::Bind(_, _) => 2,
    }
}

/// The target address of a command.
pub open spec fn spec_socks5_addr(c: Socks5Command) -> (Ipv4Addr, u16) {
    match c {
        Socks5Command::Connect(ip, port) => (ip, port),
        Socks5Command::Bind(ip, port) => (ip, port),
    }
}

/// The method negotiation this system sends to a SOCKS5 hop:
/// `VER=5, NMETHODS=1, METHODS=[0]` ("no authentication" only).
pub open spec fn spec_socks5_auth_bytes() -> Seq<u8> {
    seq![5u8, 1u8, 0u8]
}

/// The method-negotiation reply sent to a SOCKS5 client:
/// `VER=5, METHOD=0`.
pub open spec fn spec_socks5_auth_reply_bytes() -> Seq<u8> {
    seq![5u8, 0u8]
}

/// The SOCKS5 request frame for `c`:
/// `VER=5, CMD, RSV=0, ATYP=1, DSTADDR, DSTPORT`.
pub open spec fn spec_socks5_command_bytes(c: Socks5Command) -> Seq<u8> {
    seq![5u8, spec_socks5_cd(c), 0u8, 1u8] + ip_bytes(spec_socks5_addr(c).0) + port_bytes(
        spec_socks5_addr(c).1,
    )
}

/// The SOCKS5 success reply frame:
/// `VER=5, REP=0, RSV=0, ATYP=1, BNDADDR, BNDPORT`.
pub open spec fn spec_socks5_reply_bytes(r: Socks5Reply) -> Seq<u8> {
    seq![5u8, 0u8, 0u8, 1u8] + ip_bytes(r.ip) + port_bytes(r.port)
}

/// The result of parsing a client's method negotiation, beginning at
/// the NMETHODS byte (the version byte was consumed by the detector):
/// accepted exactly when some offered method is 0.
pub open spec fn spec_read_socks5_auth_request(s: Seq<u8>) -> Parsed<()> {
    if s.len() < 1 {
        Parsed::Incomplete
    } else if s.len() < 1 + s[0] {
        Parsed::Incomplete
    } else if exists|j: int| 1 <= j < 1 + s[0] && s[j] == 0 {
        Parsed::Done((), 1 + s[0])
    } else {
        Parsed::Fail(SessionError::Socks5(Error::UnsupportedAuthMethod))
    }
}

/// The result of parsing a hop's method-negotiation reply: the version
/// must be 5 and the selected method 0.
pub open spec fn spec_read_socks5_auth_reply(s: Seq<u8>) -> Parsed<()> {
    if s.len() < 1 {
        Parsed::Incomplete
    } else if s[0] != 5 {
        Parsed::Fail(SessionError::Socks(SocksError::ProtocolError))
    } else if s.len() < 2 {
        Parsed::Incomplete
    } else if s[1] != 0 {
        Parsed::Fail(SessionError::Socks5(Error::AuthRejected))
    } else {
        Parsed::Done((), 2)
    }
}

/// The command carried by CMD byte `cd` (which must be 1 or 2).
pub open spec fn spec_socks5_make(cd: u8, ip: Ipv4Addr, port: u16) -> Socks5Command {
    if cd == 1 {
        Socks5Command::Connect(ip, port)
    } else {
        Socks5Command::Bind(ip, port)
    }
}

/// The result of parsing a full SOCKS5 request frame, version byte
/// included: VER must be 5, CMD 1 or 2, RSV 0 and ATYP 1 (IPv4).
pub open spec fn spec_read_socks5_command(s: Seq<u8>) -> Parsed<Socks5Command> {
    if s.len() < 1 {
        Parsed::Incomplete
    } else if s[0] != 5 {
        Parsed::Fail(SessionError::Socks(SocksError::ProtocolError))
    } else if s.len() < 2 {
        Parsed::Incomplete
    } else if s[1] != 1 && s[1] != 2 {
        Parsed::Fail(SessionError::Socks(SocksError::ProtocolError))
    } else if s.len() < 3 {
        Parsed::Incomplete
    } else if s[2] != 0 {
        Parsed::Fail(SessionError::Socks(SocksError::ProtocolError))
    } else if s.len() < 4 {
        Parsed::Incomplete
    } else if s[3] != 1 {
        Parsed::Fail(SessionError::Socks(SocksError::UnsupportedCommand))
    } else if s.len() < 10 {
        Parsed::Incomplete
    } else {
        Parsed::Done(
            spec_socks5_make(
                s[1],
                Ipv4Addr { a: s[4], b: s[5], c: s[6], d: s[7] },
                port_of(s[8], s[9]),
            ),
            10,
        )
    }
}

/// The result of parsing a SOCKS5 reply frame: VER must be 5, any REP
/// other than 0 is the failure code reported upward, RSV must be 0 and
/// ATYP must be 1 (IPv4).
pub open spec fn spec_read_socks5_reply(s: Seq<u8>) -> Parsed<Socks5Reply> {
    if s.len() < 1 {
        Parsed::Incomplete
    } else if s[0] != 5 {
        Parsed::Fail(SessionError::Socks(SocksError::ProtocolError))
    } else if s.len() < 2 {
        Parsed::Incomplete
    } else if s[1] != 0 {
        Parsed::Fail(SessionError::Socks5(Error::RequestFailed(s[1])))
    } else if s.len() < 3 {
        Parsed::Incomplete
    } else if s[2] != 0 {
        Parsed::Fail(SessionError::Socks(SocksError::ProtocolError))
    } else if s.len() < 4 {
        Parsed::Incomplete
    } else if s[3] != 1 {
        Parsed::Fail(SessionError::Socks(SocksError::UnsupportedCommand))
    } else if s.len() < 10 {
        Parsed::Incomplete
    } else {
        Parsed::Done(
            Socks5Reply {
                ip: Ipv4Addr { a: s[4], b: s[5], c: s[6], d: s[7] },
                port: port_of(s[8], s[9]),
            },
            10,
        )
    }
}

/// Parses a client's method negotiation from `buf` beginning at `start`
/// (the byte after the version byte).  Succeeds exactly when one of the
/// offered methods is 0 ("no authentication").
pub fn read_socks5_auth_request(buf: &[u8], start: usize) -> (r: Result<
    Option<((), usize)>,
    SessionError,
>)
    requires
        start <= buf.len(),
    ensures
        parsed_as(r, spec_read_socks5_auth_request(buf@.skip(start as int))),
        r matches Ok(Some((v, n))) ==> n <= buf.len() - start,
{
    let ghost s = buf@.skip(start as int);
    let n = buf.len();
    if n - start < 1 {
        return Ok(None);
    }
    let num_methods = buf[start] as usize;
    assert(num_methods == s[0]);
    if n - start < 1 + num_methods {
        return Ok(None);
    }
    let mut i: usize = 0;
    while i < num_methods
        invariant
            i <= num_methods,
            start + 1 + num_methods <= n == buf.len(),
            s == buf@.skip(start as int),
            num_methods == s[0],
            forall|j: int| 1 <= j < 1 + i ==> s[j] != 0,
        decreases num_methods - i,
    {
        if buf[start + 1 + i] == 0 {
            assert(s[1 + i] == 0);
            return Ok(Some(((), 1 + num_methods)));
        }
        assert(s[1 + i] != 0);
        i += 1;
    }
    Err(SessionError::Socks5(Error::UnsupportedAuthMethod))
}

/// Appends the method-negotiation reply sent to a SOCKS5 client.
pub fn write_socks5_auth_reply(buf: &mut Vec<u8>)
    ensures
        final(buf)@ == old(buf)@ + spec_socks5_auth_reply_bytes(),
{
    buf.push(5);
    buf.push(0);
    proof {
        assert(buf@ =~= old(buf)@ + spec_socks5_auth_reply_bytes());
    }
}

/// Appends the method negotiation this system sends to a SOCKS5 hop.
pub fn write_socks5_auth(buf: &mut Vec<u8>)
    ensures
        final(buf)@ == old(buf)@ + spec_socks5_auth_bytes(),
{
    buf.push(5);
    buf.push(1);
    buf.push(0);
    proof {
        assert(buf@ =~= old(buf)@ + spec_socks5_auth_bytes());
    }
}

/// Parses a hop's method-negotiation reply from `buf` at `start`.
pub fn read_socks5_auth_reply(buf: &[u8], start: usize) -> (r: Result<
    Option<((), usize)>,
    SessionError,
>)
    requires
        start <= buf.len(),
    ensures
        parsed_as(r, spec_read_socks5_auth_reply(buf@.skip(start as int))),
        r matches Ok(Some((v, n))) ==> n <= buf.len() - start,
{
    let ghost s = buf@.skip(start as int);
    let n = buf.len();
    if n - start < 1 {
        return Ok(None);
    }
    if buf[start] != 5 {
        return Err(SessionError::Socks(SocksError::ProtocolError));
    }
    if n - start < 2 {
        return Ok(None);
    }
    let reply = buf[start + 1];
    assert(reply == s[1]);
    if reply != 0 {
        return Err(SessionError::Socks5(Error::AuthRejected));
    }
    Ok(Some(((), 2)))
}

impl Socks5Command {
    /// Appends the SOCKS5 request frame for this command to `buf`.
    pub fn write(&self, buf: &mut Vec<u8>)
        ensures
            final(buf)@ == old(buf)@ + spec_socks5_command_bytes(*self),
    {
        buf.push(5);
        let (ip, port) = match *self {
            Socks5Command::Connect(ip, port) => {
                buf.push(1);
                (ip, port)
            },
            Socks5Command::Bind(ip, port) => {
                buf.push(2);
                (ip, port)
            },
        };
        buf.push(0);
        buf.push(1);
        crate::socks::push_ip(buf, ip);
        crate::socks::push_port(buf, port);
        proof {
            assert(buf@ =~= old(buf)@ + spec_socks5_command_bytes(*self));
        }
    }

    /// Parses a full SOCKS5 request frame (version byte included) from
    /// `buf` beginning at `start`.
    pub fn read(buf: &[u8], start: usize) -> (r: Result<
        Option<(Socks5Command, usize)>,
        SessionError,
    >)
        requires
            start <= buf.len(),
        ensures
            parsed_as(r, spec_read_socks5_command(buf@.skip(start as int))),
            r matches Ok(Some((c, n))) ==> n <= buf.len() - start,
    {
        let ghost s = buf@.skip(start as int);
        let n = buf.len();
        if n - start < 1 {
            return Ok(None);
        }
        if buf[start] != 5 {
            return Err(SessionError::Socks(SocksError::ProtocolError));
        }
        if n - start < 2 {
            return Ok(None);
        }
        let cd = buf[start + 1];
        assert(cd == s[1]);
        if cd != 1 && cd != 2 {
            return Err(SessionError::Socks(SocksError::ProtocolError));
        }
        if n - start < 3 {
            return Ok(None);
        }
        if buf[start + 2] != 0 {
            assert(s[2] != 0);
            return Err(SessionError::Socks(SocksError::ProtocolError));
        }
        assert(s[2] == 0);
        if n - start < 4 {
            return Ok(None);
        }
        if buf[start + 3] != 1 {
            assert(s[3] != 1);
            return Err(SessionError::Socks(SocksError::UnsupportedCommand));
        }
        assert(s[3] == 1);
        if n - start < 10 {
            return Ok(None);
        }
        let ip = Ipv4Addr::new(buf[start + 4], buf[start + 5], buf[start + 6], buf[start + 7]);
        let port = crate::socks::port_from(buf[start + 8], buf[start + 9]);
        assert(ip == (Ipv4Addr { a: s[4], b: s[5], c: s[6], d: s[7] }));
        assert(port == port_of(s[8], s[9]));
        let cmd = if cd == 1 {
            Socks5Command::Connect(ip, port)
        } else {
            Socks5Command::Bind(ip, port)
        };
        Ok(Some((cmd, 10)))
    }

    /// Translates a SOCKS4 command, preserving kind and address.
    pub fn from(value: &Socks4Command) -> (r: Socks5Command)
        ensures
            r == spec_socks5_of_socks4(*value),
    {
        match *value {
            Socks4Command::Connect(ip, port) => Socks5Command::Connect(ip, port),
            Socks4Command::Bind(ip, port) => Socks5Command::Bind(ip, port),
        }
    }
}

/// The SOCKS5 command equivalent to a SOCKS4 command: same kind, same
/// address.
pub open spec fn spec_socks5_of_socks4(c: Socks4Command) -> Socks5Command {
    match c {
        Socks4Command::Connect(ip, port) => Socks5Command::Connect(ip, port),
        Socks4Command::Bind(ip, port) => Socks5Command::Bind(ip, port),
    }
}

impl Socks5Reply {
    pub fn new(ip: Ipv4Addr, port: u16) -> (r: Socks5Reply)
        ensures
            r == (Socks5Reply { ip, port }),
    {
        Socks5Reply { ip, port }
    }

    pub fn ip(&self) -> (r: Ipv4Addr)
        ensures
            r == self.ip,
    {
        self.ip
    }

    pub fn port(&self) -> (r: u16)
        ensures
            r == self.port,
    {
        self.port
    }

    /// Parses a SOCKS5 reply frame from `buf` beginning at `start`.
    pub fn read(buf: &[u8], start: usize) -> (r: Result<
        Option<(Socks5Reply, usize)>,
        SessionError,
    >)
        requires
            start <= buf.len(),
        ensures
            parsed_as(r, spec_read_socks5_reply(buf@.skip(start as int))),
            r matches Ok(Some((c, n))) ==> n <= buf.len() - start,
    {
        let ghost s = buf@.skip(start as int);
        let n = buf.len();
        if n - start < 1 {
            return Ok(None);
        }
        if buf[start] != 5 {
            return Err(SessionError::Socks(SocksError::ProtocolError));
        }
        if n - start < 2 {
            return Ok(None);
        }
        let rep = buf[start + 1];
        assert(rep == s[1]);
        if rep != 0 {
            return Err(SessionError::Socks5(Error::RequestFailed(rep)));
        }
        if n - start < 3 {
            return Ok(None);
        }
        if buf[start + 2] != 0 {
            assert(s[2] != 0);
            return Err(SessionError::Socks(SocksError::ProtocolError));
        }
        assert(s[2] == 0);
        if n - start < 4 {
            return Ok(None);
        }
        if buf[start + 3] != 1 {
            assert(s[3] != 1);
            return Err(SessionError::Socks(SocksError::UnsupportedCommand));
        }
        assert(s[3] == 1);
        if n - start < 10 {
            return Ok(None);
        }
        let ip = Ipv4Addr::new(buf[start + 4], buf[start + 5], buf[start + 6], buf[start + 7]);
        let port = crate::socks::port_from(buf[start + 8], buf[start + 9]);
        assert(ip == (Ipv4Addr { a: s[4], b: s[5], c: s[6], d: s[7] }));
        assert(port == port_of(s[8], s[9]));
        Ok(Some((Socks5Reply { ip, port }, 10)))
    }

    /// Appends the SOCKS5 success reply frame for this bound address.
    /// The client-facing success path always carries REP=0.
    pub fn write(&self, buf: &mut Vec<u8>)
        ensures
            final(buf)@ == old(buf)@ + spec_socks5_reply_bytes(*self),
    {
        buf.push(5);
        buf.push(0);
        buf.push(0);
        buf.push(1);
        crate::socks::push_ip(buf, self.ip);
        crate::socks::push_port(buf, self.port);
        proof {
            assert(buf@ =~= old(buf)@ + spec_socks5_reply_bytes(*self));
        }
    }

    /// Carries a SOCKS4 hop's bound address over to the SOCKS5 variant.
    pub fn from(value: &Socks4Reply) -> (r: Socks5Reply)
        ensures
            r == (Socks5Reply { ip: value.ip, port: value.port }),
    {
        Socks5Reply { ip: value.ip, port: value.port }
    }
}

/// Law (frame round-trip): a SOCKS5 command parses back to itself.
pub proof fn lemma_socks5_command_round_trip(c: Socks5Command)
    ensures
        spec_read_socks5_command(spec_socks5_command_bytes(c)) == Parsed::<Socks5Command>::Done(
            c,
            10,
        ),
{
    let s = spec_socks5_command_bytes(c);
    let (ip, port) = spec_socks5_addr(c);
    crate::socks::lemma_port_round_trip(port);
    assert(s.len() == 10);
    assert(s[0] == 5 && s[1] == spec_socks5_cd(c) && s[2] == 0 && s[3] == 1);
    assert(s[4] == ip.a && s[5] == ip.b && s[6] == ip.c && s[7] == ip.d);
    assert(s[8] == port_bytes(port)[0]);
    assert(s[9] == port_bytes(port)[1]);
    assert(spec_socks5_make(s[1], Ipv4Addr { a: s[4], b: s[5], c: s[6], d: s[7] }, port_of(
        s[8],
        s[9],
    )) == c);
}

/// A SOCKS5 reply at the head of a longer stream parses the same: the
/// parser looks only at the frame's own ten bytes.
pub proof fn lemma_socks5_reply_parse_prefix(r: Socks5Reply, rest: Seq<u8>)
    ensures
        spec_read_socks5_reply(spec_socks5_reply_bytes(r) + rest) == Parsed::<Socks5Reply>::Done(
            r,
            10,
        ),
{
    let s = spec_socks5_reply_bytes(r) + rest;
    crate::socks::lemma_port_round_trip(r.port);
    assert(s[0] == 5 && s[1] == 0 && s[2] == 0 && s[3] == 1);
    assert(s[4] == r.ip.a && s[5] == r.ip.b && s[6] == r.ip.c && s[7] == r.ip.d);
    assert(s[8] == port_bytes(r.port)[0]);
    assert(s[9] == port_bytes(r.port)[1]);
}

/// A method-negotiation reply at the head of a longer stream parses
/// the same.
pub proof fn lemma_socks5_auth_reply_parse_prefix(rest: Seq<u8>)
    ensures
        spec_read_socks5_auth_reply(spec_socks5_auth_reply_bytes() + rest) == Parsed::<()>::Done(
            (),
            2,
        ),
{
    let s = spec_socks5_auth_reply_bytes() + rest;
    assert(s[0] == 5 && s[1] == 0);
}

/// Law (frame round-trip): a SOCKS5 reply parses back to itself.
pub proof fn lemma_socks5_reply_round_trip(r: Socks5Reply)
    ensures
        spec_read_socks5_reply(spec_socks5_reply_bytes(r)) == Parsed::<Socks5Reply>::Done(r, 10),
{
    lemma_socks5_reply_parse_prefix(r, Seq::empty());
    assert(spec_socks5_reply_bytes(r) + Seq::<u8>::empty() =~= spec_socks5_reply_bytes(r));
}

/// Law (method negotiation round-trip): the negotiation this system
/// sends to a SOCKS5 hop offers exactly "no authentication", so a
/// conforming server accepts it.
pub proof fn lemma_socks5_auth_round_trip()
    ensures
        spec_read_socks5_auth_request(spec_socks5_auth_bytes().skip(1)) == Parsed::<()>::Done(
            (),
            2,
        ),
        spec_read_socks5_auth_reply(spec_socks5_auth_reply_bytes()) == Parsed::<()>::Done((), 2),
{
    let t = spec_socks5_auth_bytes().skip(1);
    assert(t.len() == 2);
    assert(t[0] == 1 && t[1] == 0);
    assert(1 <= 1 < 1 + t[0] && t[1] == 0);
}

} // verus!
