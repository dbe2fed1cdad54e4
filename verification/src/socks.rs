use vstd::prelude::*;

verus! {

/// Errors shared by the SOCKS4 and SOCKS5 codecs.
#[derive(Clone, Copy, Debug, PartialEq, Eq, Structural)]
pub enum Error {
    /// The first byte of a client connection is neither 4 nor 5.
    UnsupportedVersion,
    /// A frame field violates the variant's invariants (wrong version,
    /// nonzero reserved byte, bad command code).
    ProtocolError,
    /// A well-formed but unimplemented feature, such as a SOCKS5
    /// address type other than IPv4.
    UnsupportedCommand,
}

/// Any error a session can hit while parsing frames or establishing the
/// chain; the per-variant error enums appear as payloads.
#[derive(Clone, Copy, Debug, PartialEq, Eq, Structural)]
pub enum SessionError {
    Socks(Error),
    Socks4(crate::socks4::Error),
    Socks5(crate::socks5::Error),
}

/// The two protocol variants a client or an upstream hop may speak.
#[derive(Clone, Copy, Debug, PartialEq, Eq, Structural)]
pub enum SocksVersion {
    Socks4,
    Socks5,
}

/// Classifies the already-consumed first byte of a client connection.
/// The byte is not put back: the per-variant request parsers begin at
/// the byte immediately after it.
pub fn read_version(b: u8) -> (r: Result<SocksVersion, Error>)
    ensures
        b == 4 ==> r == Ok::<SocksVersion, Error>(SocksVersion::Socks4),
        b == 5 ==> r == Ok::<SocksVersion, Error>(SocksVersion::Socks5),
        b != 4 && b != 5 ==> r == Err::<SocksVersion, Error>(Error::UnsupportedVersion),
{
    match b {
        4 => Ok(SocksVersion::Socks4),
        5 => Ok(SocksVersion::Socks5),
        _ => Err(Error::UnsupportedVersion),
    }
}

/// An IPv4 address, held as its four octets in network order.
#[derive(Clone, Copy, Debug, PartialEq, Eq, Structural, Hash)]
pub struct Ipv4Addr {
    pub a: u8,
    pub b: u8,
    pub c: u8,
    pub d: u8,
}

impl Ipv4Addr {
    pub fn new(a: u8, b: u8, c: u8, d: u8) -> (r: Ipv4Addr)
        ensures
            r == (Ipv4Addr { a, b, c, d }),
    {
        Ipv4Addr { a, b, c, d }
    }
}

/// The four bytes of an IPv4 address as they appear on the wire.
pub open spec fn ip_bytes(ip: Ipv4Addr) -> Seq<u8> {
    seq![ip.a, ip.b, ip.c, ip.d]
}

/// The two bytes of a port as they appear on the wire (big-endian).
pub open spec fn port_bytes(p: u16) -> Seq<u8> {
    seq![(p / 256) as u8, (p % 256) as u8]
}

/// The port value carried by two big-endian wire bytes.
pub open spec fn port_of(hi: u8, lo: u8) -> u16 {
    ((hi as int) * 256 + (lo as int)) as u16
}

/// The outcome of parsing one frame from a byte sequence: more bytes
/// are needed, the frame is invalid, or a value was parsed and `used`
/// bytes were consumed.
pub enum Parsed<T> {
    Incomplete,
    Fail(SessionError),
    Done(T, int),
}

/// Relates an executable parse result to a spec-level `Parsed` outcome:
/// `Ok(None)` means more bytes are needed, `Ok(Some((v, n)))` means `v`
/// was parsed from the first `n` bytes, `Err(e)` means the frame is bad.
pub open spec fn parsed_as<T>(r: Result<Option<(T, usize)>, SessionError>, p: Parsed<T>) -> bool {
    match r {
        Ok(None) => p == Parsed::<T>::Incomplete,
        Ok(Some((v, n))) => p == Parsed::Done(v, n as int),
        Err(e) => p == Parsed::<T>::Fail(e),
    }
}

/// Appends the two big-endian wire bytes of `p`.
pub fn push_port(buf: &mut Vec<u8>, p: u16)
    ensures
        final(buf)@ == old(buf)@ + port_bytes(p),
{
    buf.push((p / 256) as u8);
    buf.push((p % 256) as u8);
    proof {
        assert(buf@ =~= old(buf)@ + port_bytes(p));
    }
}

/// Appends the four wire bytes of `ip`.
pub fn push_ip(buf: &mut Vec<u8>, ip: Ipv4Addr)
    ensures
        final(buf)@ == old(buf)@ + ip_bytes(ip),
{
    buf.push(ip.a);
    buf.push(ip.b);
    buf.push(ip.c);
    buf.push(ip.d);
    proof {
        assert(buf@ =~= old(buf)@ + ip_bytes(ip));
    }
}

/// Reads the port carried by two big-endian wire bytes.
pub fn port_from(hi: u8, lo: u8) -> (p: u16)
    ensures
        p == port_of(hi, lo),
{
    (hi as u16) * 256 + (lo as u16)
}

/// The two wire bytes of a port recombine to the port: ports survive a
/// round trip through any of the frame encoders and parsers.
pub proof fn lemma_port_round_trip(p: u16)
    ensures
        port_of(port_bytes(p)[0], port_bytes(p)[1]) == p,
{
}

} // verus!
