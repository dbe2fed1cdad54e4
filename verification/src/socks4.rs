use vstd::prelude::*;

use crate::socks::{
    ip_bytes, port_bytes, port_of, parsed_as, Error as SocksError, Ipv4Addr, Parsed, SessionError,
};

verus! {

/// Errors specific to the SOCKS4 codec.
#[derive(Clone, Copy, Debug, PartialEq, Eq, Structural)]
pub enum Error {
    /// A hop's reply carried a CD other than 90; the payload is that CD.
    RequestFailed(u8),
}

/// The CD byte of a SOCKS4 request.
#[derive(Clone, Copy, Debug, PartialEq, Eq, Structural)]
pub enum Socks4CommandType {
    Connect,
    Bind,
}

impl Socks4CommandType {
    /// Decodes the CD byte of a SOCKS4 request: 1 is CONNECT, 2 is BIND,
    /// anything else is a protocol error.
    pub fn try_from(value: u8) -> (r: Result<Socks4CommandType, SocksError>)
        ensures
            value == 1 ==> r == Ok::<Socks4CommandType, SocksError>(Socks4CommandType::Connect),
            value == 2 ==> r == Ok::<Socks4CommandType, SocksError>(Socks4CommandType::Bind),
            value != 1 && value != 2 ==> r == Err::<Socks4CommandType, SocksError>(
                SocksError::ProtocolError,
            ),
    {
        match value {
            1 => Ok(Socks4CommandType::Connect),
            2 => Ok(Socks4CommandType::Bind),
            _ => Err(SocksError::ProtocolError),
        }
    }
}

/// A SOCKS4 command: kind plus target address.
#[derive(Clone, Copy, Debug, PartialEq, Eq, Structural)]
pub enum Socks4Command {
    Connect(Ipv4Addr, u16),
    Bind(Ipv4Addr, u16),
}

/// The bound address a SOCKS4 hop reports in a successful reply.
#[derive(Clone, Copy, Debug, PartialEq, Eq, Structural)]
pub struct Socks4Reply {
    pub ip: Ipv4Addr,
    pub port: u16,
}

/// The CD wire byte of a command.
pub open spec fn spec_socks4_cd(c: Socks4Command) -> u8 {
    match c {
        Socks4Command::Connect(_, _) => 1,
        Socks4Command::Bind(_, _) => 2,
    }
}

/// The target address of a command.
pub open spec fn spec_socks4_addr(c: Socks4Command) -> (Ipv4Addr, u16) {
    match c {
        Socks4Command::Connect(ip, port) => (ip, port),
        Socks4Command::Bind(ip, port) => (ip, port),
    }
}

/// The SOCKS4 request frame for `c`, with the given USERID bytes:
/// `VN=4, CD, DSTPORT, DSTIP, USERID..., 0`.
pub open spec fn spec_socks4_command_bytes_with_userid(c: Socks4Command, userid: Seq<u8>) -> Seq<
    u8,
> {
    seq![4u8, spec_socks4_cd(c)] + port_bytes(spec_socks4_addr(c).1) + ip_bytes(
        spec_socks4_addr(c).0,
    ) + userid + seq![0u8]
}

/// The SOCKS4 request frame the writer emits: an empty USERID.
pub open spec fn spec_socks4_command_bytes(c: Socks4Command) -> Seq<u8> {
    spec_socks4_command_bytes_with_userid(c, Seq::empty())
}

/// The index of the first zero byte of `s` at or after `i`, if any.
pub open spec fn spec_userid_end(s: Seq<u8>, i: int) -> Option<int>
    decreases s.len() - i,
{
    if i < 0 || i >= s.len() {
        None
    } else if s[i] == 0 {
        Some(i)
    } else {
        spec_userid_end(s, i + 1)
    }
}

/// The command carried by CD byte `cd` (which must be 1 or 2).
pub open spec fn spec_socks4_make(cd: u8, ip: Ipv4Addr, port: u16) -> Socks4Command {
    if cd == 1 {
        Socks4Command::Connect(ip, port)
    } else {
        Socks4Command::Bind(ip, port)
    }
}

/// The result of parsing a SOCKS4 request that starts at the CD byte
/// (the version byte was consumed by the detector): CD, port, IP, then
/// USERID bytes up to a zero terminator, which are discarded.
pub open spec fn spec_read_socks4_command(s: Seq<u8>) -> Parsed<Socks4Command> {
    if s.len() < 1 {
        Parsed::Incomplete
    } else if s[0] != 1 && s[0] != 2 {
        Parsed::Fail(SessionError::Socks(SocksError::ProtocolError))
    } else if s.len() < 7 {
        Parsed::Incomplete
    } else {
        match spec_userid_end(s, 7) {
            None => Parsed::Incomplete,
            Some(z) => Parsed::Done(
                spec_socks4_make(
                    s[0],
                    Ipv4Addr { a: s[3], b: s[4], c: s[5], d: s[6] },
                    port_of(s[1], s[2]),
                ),
                z + 1,
            ),
        }
    }
}

/// The SOCKS4 reply frame: `VN=0, CD=90, DSTPORT, DSTIP`.
pub open spec fn spec_socks4_reply_bytes(r: Socks4Reply) -> Seq<u8> {
    seq![0u8, 90u8] + port_bytes(r.port) + ip_bytes(r.ip)
}

/// The result of parsing a SOCKS4 reply: the version byte must be 0 and
/// the CD byte 90; any other CD is the failure code reported upward.
pub open spec fn spec_read_socks4_reply(s: Seq<u8>) -> Parsed<Socks4Reply> {
    if s.len() < 1 {
        Parsed::Incomplete
    } else if s[0] != 0 {
        Parsed::Fail(SessionError::Socks(SocksError::ProtocolError))
    } else if s.len() < 2 {
        Parsed::Incomplete
    } else if s[1] != 90 {
        Parsed::Fail(SessionError::Socks4(Error::RequestFailed(s[1])))
    } else if s.len() < 8 {
        Parsed::Incomplete
    } else {
        Parsed::Done(
            Socks4Reply {
                ip: Ipv4Addr { a: s[4], b: s[5], c: s[6], d: s[7] },
                port: port_of(s[2], s[3]),
            },
            8,
        )
    }
}

impl Socks4Command {
    /// Appends the SOCKS4 request frame for this command, with an empty
    /// USERID, to `buf`.
    pub fn write(&self, buf: &mut Vec<u8>)
        ensures
            final(buf)@ == old(buf)@ + spec_socks4_command_bytes(*self),
    {
        buf.push(4);
        let (ip, port) = match *self {
            Socks4Command::Connect(ip, port) => {
                buf.push(1);
                (ip, port)
            },
            Socks4Command::Bind(ip, port) => {
                buf.push(2);
                (ip, port)
            },
        };
        crate::socks::push_port(buf, port);
        crate::socks::push_ip(buf, ip);
        buf.push(0);
        proof {
            assert(buf@ =~= old(buf)@ + spec_socks4_command_bytes(*self));
        }
    }

    /// Parses a SOCKS4 request from `buf` beginning at `start` (the byte
    /// after the version byte).  Returns the command and the number of
    /// bytes consumed, `Ok(None)` when the frame is not yet complete, or
    /// the frame's error.
    pub fn read(buf: &[u8], start: usize) -> (r: Result<
        Option<(Socks4Command, usize)>,
        SessionError,
    >)
        requires
            start <= buf.len(),
        ensures
            parsed_as(r, spec_read_socks4_command(buf@.skip(start as int))),
            r matches Ok(Some((c, n))) ==> n <= buf.len() - start,
    {
        let ghost s = buf@.skip(start as int);
        let n = buf.len();
        if n - start < 1 {
            return Ok(None);
        }
        let cd = buf[start];
        assert(cd == s[0]);
        if cd != 1 && cd != 2 {
            return Err(SessionError::Socks(SocksError::ProtocolError));
        }
        if n - start < 7 {
            return Ok(None);
        }
        let port = crate::socks::port_from(buf[start + 1], buf[start + 2]);
        let ip = Ipv4Addr::new(buf[start + 3], buf[start + 4], buf[start + 5], buf[start + 6]);
        assert(port == port_of(s[1], s[2]));
        assert(ip == (Ipv4Addr { a: s[3], b: s[4], c: s[5], d: s[6] }));
        let mut i = start + 7;
        while i < n
            invariant
                start + 7 <= i <= n == buf.len(),
                s == buf@.skip(start as int),
                cd == s[0],
                cd == 1 || cd == 2,
                ip == (Ipv4Addr { a: s[3], b: s[4], c: s[5], d: s[6] }),
                port == port_of(s[1], s[2]),
                spec_userid_end(s, 7) == spec_userid_end(s, i - start),
            decreases n - i,
        {
            if buf[i] == 0 {
                assert(s[i - start] == 0);
                assert(spec_userid_end(s, i - start) == Some(i - start));
                let cmd = if cd == 1 {
                    Socks4Command::Connect(ip, port)
                } else {
                    Socks4Command::Bind(ip, port)
                };
                return Ok(Some((cmd, i - start + 1)));
            }
            assert(s[i - start] != 0);
            i += 1;
        }
        assert(spec_userid_end(s, i - start) is None);
        Ok(None)
    }
}

/// The SOCKS4 command equivalent to a SOCKS5 command: same kind, same
/// address.
pub open spec fn spec_socks4_of_socks5(c: crate::socks5::Socks5Command) -> Socks4Command {
    match c {
        crate::socks5::Socks5Command::Connect(ip, port) => Socks4Command::Connect(ip, port),
        crate::socks5::Socks5Command::Bind(ip, port) => Socks4Command::Bind(ip, port),
    }
}

impl Socks4Command {
    /// Translates a SOCKS5 command, preserving kind and address.
    pub fn from(value: &crate::socks5::Socks5Command) -> (r: Socks4Command)
        ensures
            r == spec_socks4_of_socks5(*value),
    {
        match *value {
            crate::socks5::Socks5Command::Connect(ip, port) => Socks4Command::Connect(ip, port),
            crate::socks5::Socks5Command::Bind(ip, port) => Socks4Command::Bind(ip, port),
        }
    }
}

impl Socks4Reply {
    pub fn new(ip: Ipv4Addr, port: u16) -> (r: Socks4Reply)
        ensures
            r == (Socks4Reply { ip, port }),
    {
        Socks4Reply { ip, port }
    }

    pub fn ip(&self) -> (r: Ipv4Addr)
        ensures
            r == self.ip,
    {
        self.ip
    }

    pub fn port(&self) -> (r: u16)
        ensures
            r == self.port,
    {
        self.port
    }

    /// Parses a SOCKS4 reply from `buf` beginning at `start`.
    pub fn read(buf: &[u8], start: usize) -> (r: Result<
        Option<(Socks4Reply, usize)>,
        SessionError,
    >)
        requires
            start <= buf.len(),
        ensures
            parsed_as(r, spec_read_socks4_reply(buf@.skip(start as int))),
            r matches Ok(Some((c, n))) ==> n <= buf.len() - start,
    {
        let ghost s = buf@.skip(start as int);
        let n = buf.len();
        if n - start < 1 {
            return Ok(None);
        }
        if buf[start] != 0 {
            return Err(SessionError::Socks(SocksError::ProtocolError));
        }
        if n - start < 2 {
            return Ok(None);
        }
        let result = buf[start + 1];
        assert(result == s[1]);
        if result != 90 {
            return Err(SessionError::Socks4(Error::RequestFailed(result)));
        }
        if n - start < 8 {
            return Ok(None);
        }
        let port = crate::socks::port_from(buf[start + 2], buf[start + 3]);
        let ip = Ipv4Addr::new(buf[start + 4], buf[start + 5], buf[start + 6], buf[start + 7]);
        assert(port == port_of(s[2], s[3]));
        assert(ip == (Ipv4Addr { a: s[4], b: s[5], c: s[6], d: s[7] }));
        Ok(Some((Socks4Reply { ip, port }, 8)))
    }

    /// Appends the SOCKS4 success reply frame for this bound address.
    pub fn write(&self, buf: &mut Vec<u8>)
        ensures
            final(buf)@ == old(buf)@ + spec_socks4_reply_bytes(*self),
    {
        buf.push(0);
        buf.push(90);
        crate::socks::push_port(buf, self.port);
        crate::socks::push_ip(buf, self.ip);
        proof {
            assert(buf@ =~= old(buf)@ + spec_socks4_reply_bytes(*self));
        }
    }

    /// Carries a SOCKS5 hop's bound address over to the SOCKS4 variant.
    pub fn from(value: &crate::socks5::Socks5Reply) -> (r: Socks4Reply)
        ensures
            r == (Socks4Reply { ip: value.ip, port: value.port }),
    {
        Socks4Reply { ip: value.ip, port: value.port }
    }
}

/// Searching for a zero byte finds the first one: if every byte of `t`
/// in `[i, k)` is nonzero and `t[k]` is zero, the USERID ends at `k`.
pub proof fn lemma_userid_end_found(t: Seq<u8>, i: int, k: int)
    requires
        0 <= i <= k < t.len(),
        t[k] == 0,
        forall|j: int| i <= j < k ==> t[j] != 0,
    ensures
        spec_userid_end(t, i) == Some(k),
    decreases k - i,
{
    if i < k {
        lemma_userid_end_found(t, i + 1, k);
    }
}

/// Law (frame round-trip, USERID tolerance): a SOCKS4 request parses
/// back to the command it encodes, whatever USERID bytes (none of them
/// zero) stand between the address and the terminator.  The parser
/// starts after the version byte, which the detector consumed.
pub proof fn lemma_socks4_command_round_trip_userid(c: Socks4Command, userid: Seq<u8>)
    requires
        forall|j: int| 0 <= j < userid.len() ==> userid[j] != 0,
    ensures
        spec_read_socks4_command(spec_socks4_command_bytes_with_userid(c, userid).skip(1))
            == Parsed::<Socks4Command>::Done(c, 8 + userid.len() as int),
{
    let s = spec_socks4_command_bytes_with_userid(c, userid);
    let t = s.skip(1);
    let k = userid.len() as int;
    let (ip, port) = spec_socks4_addr(c);
    crate::socks::lemma_port_round_trip(port);
    assert(t.len() == 7 + k + 1);
    assert(t[0] == spec_socks4_cd(c));
    assert(t[1] == port_bytes(port)[0]);
    assert(t[2] == port_bytes(port)[1]);
    assert(t[3] == ip.a && t[4] == ip.b && t[5] == ip.c && t[6] == ip.d);
    assert(forall|j: int| 7 <= j < 7 + k ==> t[j] == userid[j - 7]);
    assert(t[7 + k] == 0);
    lemma_userid_end_found(t, 7, 7 + k);
    assert(spec_socks4_make(t[0], Ipv4Addr { a: t[3], b: t[4], c: t[5], d: t[6] }, port_of(
        t[1],
        t[2],
    )) == c);
}

/// Law (frame round-trip): a SOCKS4 command with an empty USERID
/// parses back to itself.
pub proof fn lemma_socks4_command_round_trip(c: Socks4Command)
    ensures
        spec_read_socks4_command(spec_socks4_command_bytes(c).skip(1))
            == Parsed::<Socks4Command>::Done(c, 8),
{
    lemma_socks4_command_round_trip_userid(c, Seq::empty());
}

/// A SOCKS4 reply at the head of a longer stream parses the same: the
/// parser looks only at the frame's own eight bytes.
pub proof fn lemma_socks4_reply_parse_prefix(r: Socks4Reply, rest: Seq<u8>)
    ensures
        spec_read_socks4_reply(spec_socks4_reply_bytes(r) + rest) == Parsed::<Socks4Reply>::Done(
            r,
            8,
        ),
{
    let s = spec_socks4_reply_bytes(r) + rest;
    crate::socks::lemma_port_round_trip(r.port);
    assert(s[0] == 0 && s[1] == 90);
    assert(s[2] == port_bytes(r.port)[0]);
    assert(s[3] == port_bytes(r.port)[1]);
    assert(s[4] == r.ip.a && s[5] == r.ip.b && s[6] == r.ip.c && s[7] == r.ip.d);
}

/// Law (frame round-trip): a SOCKS4 reply parses back to itself.
pub proof fn lemma_socks4_reply_round_trip(r: Socks4Reply)
    ensures
        spec_read_socks4_reply(spec_socks4_reply_bytes(r)) == Parsed::<Socks4Reply>::Done(r, 8),
{
    lemma_socks4_reply_parse_prefix(r, Seq::empty());
    assert(spec_socks4_reply_bytes(r) + Seq::<u8>::empty() =~= spec_socks4_reply_bytes(r));
}

} // verus!
