use socks_chain::socks::{read_version, Error as SocksError, Ipv4Addr, SessionError, SocksVersion};
use socks_chain::socks4::{Error as Socks4Error, Socks4Command, Socks4CommandType, Socks4Reply};
use socks_chain::socks5::{
    read_socks5_auth_reply, read_socks5_auth_request, write_socks5_auth, write_socks5_auth_reply,
    Error as Socks5Error, Socks5Command, Socks5CommandType, Socks5Reply,
};

fn ip(a: u8, b: u8, c: u8, d: u8) -> Ipv4Addr {
    Ipv4Addr::new(a, b, c, d)
}

#[test]
fn version_dispatch() {
    assert_eq!(read_version(4), Ok(SocksVersion::Socks4));
    assert_eq!(read_version(5), Ok(SocksVersion::Socks5));
    for b in [0u8, 1, 3, 6, 7, 255] {
        assert_eq!(read_version(b), Err(SocksError::UnsupportedVersion));
    }
}

#[test]
fn command_type_bytes() {
    assert_eq!(Socks4CommandType::try_from(1), Ok(Socks4CommandType::Connect));
    assert_eq!(Socks4CommandType::try_from(2), Ok(Socks4CommandType::Bind));
    assert_eq!(Socks4CommandType::try_from(3), Err(SocksError::ProtocolError));
    assert_eq!(Socks5CommandType::try_from(1), Ok(Socks5CommandType::Connect));
    assert_eq!(Socks5CommandType::try_from(2), Ok(Socks5CommandType::Bind));
    assert_eq!(Socks5CommandType::try_from(0), Err(SocksError::ProtocolError));
}

#[test]
fn socks4_command_round_trip() {
    for cmd in [
        Socks4Command::Connect(ip(192, 168, 0, 1), 443),
        Socks4Command::Bind(ip(10, 0, 0, 7), 65535),
        Socks4Command::Connect(ip(0, 0, 0, 0), 0),
    ] {
        let mut buf = Vec::new();
        cmd.write(&mut buf);
        assert_eq!(buf.len(), 9);
        assert_eq!(buf[0], 4);
        // The detector consumes the version byte, so decoding starts at 1.
        let parsed = Socks4Command::read(&buf, 1).unwrap().unwrap();
        assert_eq!(parsed, (cmd, 8));
    }
}

#[test]
fn socks4_command_wire_bytes() {
    let mut buf = Vec::new();
    Socks4Command::Connect(ip(192, 168, 0, 1), 443).write(&mut buf);
    assert_eq!(buf, vec![4, 1, 0x01, 0xbb, 192, 168, 0, 1, 0]);
}

#[test]
fn socks4_userid_tolerance() {
    // The same frame parses to the same command with USERIDs of
    // length 0, 1, 16 and 255.
    let cmd = Socks4Command::Connect(ip(1, 2, 3, 4), 8080);
    for k in [0usize, 1, 16, 255] {
        let mut buf = Vec::new();
        cmd.write(&mut buf);
        buf.pop();
        buf.extend(std::iter::repeat(b'u').take(k));
        buf.push(0);
        let parsed = Socks4Command::read(&buf, 1).unwrap().unwrap();
        assert_eq!(parsed, (cmd, 8 + k));
    }
}

#[test]
fn socks4_command_errors_and_incomplete() {
    // CD must be 1 or 2.
    assert_eq!(
        Socks4Command::read(&[3, 0, 80, 1, 2, 3, 4, 0], 0),
        Err(SessionError::Socks(SocksError::ProtocolError))
    );
    // Too short, or no USERID terminator yet: more bytes are needed.
    assert_eq!(Socks4Command::read(&[], 0), Ok(None));
    assert_eq!(Socks4Command::read(&[1, 0, 80], 0), Ok(None));
    assert_eq!(Socks4Command::read(&[1, 0, 80, 1, 2, 3, 4, 9, 9], 0), Ok(None));
}

#[test]
fn socks4_reply_round_trip() {
    let reply = Socks4Reply::new(ip(10, 0, 0, 1), 1234);
    let mut buf = Vec::new();
    reply.write(&mut buf);
    assert_eq!(buf, vec![0, 90, 0x04, 0xd2, 10, 0, 0, 1]);
    let (parsed, used) = Socks4Reply::read(&buf, 0).unwrap().unwrap();
    assert_eq!(used, 8);
    assert_eq!(parsed.ip(), reply.ip());
    assert_eq!(parsed.port(), reply.port());
}

#[test]
fn socks4_reply_errors() {
    // Nonzero VN byte.
    assert_eq!(
        Socks4Reply::read(&[1, 90, 0, 80, 1, 2, 3, 4], 0),
        Err(SessionError::Socks(SocksError::ProtocolError))
    );
    // CD other than 90 reports that code.
    assert_eq!(
        Socks4Reply::read(&[0, 91, 0, 80, 1, 2, 3, 4], 0),
        Err(SessionError::Socks4(Socks4Error::RequestFailed(91)))
    );
    assert_eq!(Socks4Reply::read(&[0, 90, 0], 0), Ok(None));
}

#[test]
fn socks5_auth_request_accepts_no_auth() {
    // NMETHODS=1, METHODS=[0].
    assert_eq!(read_socks5_auth_request(&[1, 0], 0), Ok(Some(((), 2))));
    // No-auth offered among others.
    assert_eq!(read_socks5_auth_request(&[3, 2, 0, 1], 0), Ok(Some(((), 4))));
    // Incomplete method list.
    assert_eq!(read_socks5_auth_request(&[2, 2], 0), Ok(None));
    // S4: negotiation `05 01 02` fails before planning.
    assert_eq!(
        read_socks5_auth_request(&[1, 2], 0),
        Err(SessionError::Socks5(Socks5Error::UnsupportedAuthMethod))
    );
    // Zero methods offered cannot include no-auth.
    assert_eq!(
        read_socks5_auth_request(&[0], 0),
        Err(SessionError::Socks5(Socks5Error::UnsupportedAuthMethod))
    );
}

#[test]
fn socks5_auth_frames() {
    let mut buf = Vec::new();
    write_socks5_auth(&mut buf);
    assert_eq!(buf, vec![5, 1, 0]);
    let mut buf = Vec::new();
    write_socks5_auth_reply(&mut buf);
    assert_eq!(buf, vec![5, 0]);
    assert_eq!(read_socks5_auth_reply(&[5, 0], 0), Ok(Some(((), 2))));
    assert_eq!(
        read_socks5_auth_reply(&[4, 0], 0),
        Err(SessionError::Socks(SocksError::ProtocolError))
    );
    assert_eq!(
        read_socks5_auth_reply(&[5, 0xff], 0),
        Err(SessionError::Socks5(Socks5Error::AuthRejected))
    );
    assert_eq!(read_socks5_auth_reply(&[5], 0), Ok(None));
}

#[test]
fn socks5_command_round_trip() {
    for cmd in [
        Socks5Command::Connect(ip(192, 168, 0, 1), 443),
        Socks5Command::Bind(ip(255, 255, 255, 255), 1),
    ] {
        let mut buf = Vec::new();
        cmd.write(&mut buf);
        assert_eq!(buf.len(), 10);
        let parsed = Socks5Command::read(&buf, 0).unwrap().unwrap();
        assert_eq!(parsed, (cmd, 10));
    }
}

#[test]
fn socks5_command_wire_bytes() {
    let mut buf = Vec::new();
    Socks5Command::Connect(ip(192, 168, 0, 1), 443).write(&mut buf);
    assert_eq!(buf, vec![5, 1, 0, 1, 192, 168, 0, 1, 0x01, 0xbb]);
}

#[test]
fn socks5_command_errors() {
    // Wrong version.
    assert_eq!(
        Socks5Command::read(&[4, 1, 0, 1, 1, 2, 3, 4, 0, 80], 0),
        Err(SessionError::Socks(SocksError::ProtocolError))
    );
    // Bad command code.
    assert_eq!(
        Socks5Command::read(&[5, 3, 0, 1, 1, 2, 3, 4, 0, 80], 0),
        Err(SessionError::Socks(SocksError::ProtocolError))
    );
    // Nonzero reserved byte.
    assert_eq!(
        Socks5Command::read(&[5, 1, 7, 1, 1, 2, 3, 4, 0, 80], 0),
        Err(SessionError::Socks(SocksError::ProtocolError))
    );
    // Address type other than IPv4.
    assert_eq!(
        Socks5Command::read(&[5, 1, 0, 3, 1, 2, 3, 4, 0, 80], 0),
        Err(SessionError::Socks(SocksError::UnsupportedCommand))
    );
    assert_eq!(Socks5Command::read(&[5, 1, 0, 1, 1], 0), Ok(None));
}

#[test]
fn socks5_reply_round_trip() {
    let reply = Socks5Reply::new(ip(10, 0, 0, 1), 1234);
    let mut buf = Vec::new();
    reply.write(&mut buf);
    assert_eq!(buf, vec![5, 0, 0, 1, 10, 0, 0, 1, 0x04, 0xd2]);
    let (parsed, used) = Socks5Reply::read(&buf, 0).unwrap().unwrap();
    assert_eq!(used, 10);
    assert_eq!(parsed.ip(), reply.ip());
    assert_eq!(parsed.port(), reply.port());
}

#[test]
fn socks5_reply_errors() {
    // S5: REP=5 reports RequestFailed(5).
    assert_eq!(
        Socks5Reply::read(&[5, 5, 0, 1, 0, 0, 0, 0, 0, 0], 0),
        Err(SessionError::Socks5(Socks5Error::RequestFailed(5)))
    );
    assert_eq!(
        Socks5Reply::read(&[5, 0, 1, 1, 0, 0, 0, 0, 0, 0], 0),
        Err(SessionError::Socks(SocksError::ProtocolError))
    );
    assert_eq!(
        Socks5Reply::read(&[5, 0, 0, 4, 0, 0, 0, 0, 0, 0], 0),
        Err(SessionError::Socks(SocksError::UnsupportedCommand))
    );
    assert_eq!(Socks5Reply::read(&[5, 0, 0, 1], 0), Ok(None));
}

#[test]
fn cross_variant_translation() {
    let c4 = Socks4Command::Bind(ip(9, 8, 7, 6), 22);
    assert_eq!(Socks5Command::from(&c4), Socks5Command::Bind(ip(9, 8, 7, 6), 22));
    let c5 = Socks5Command::Connect(ip(9, 8, 7, 6), 23);
    assert_eq!(Socks4Command::from(&c5), Socks4Command::Connect(ip(9, 8, 7, 6), 23));
    let r5 = Socks5Reply::new(ip(1, 1, 1, 1), 53);
    let r4 = Socks4Reply::from(&r5);
    assert_eq!((r4.ip(), r4.port()), (ip(1, 1, 1, 1), 53));
    let back = Socks5Reply::from(&r4);
    assert_eq!((back.ip(), back.port()), (ip(1, 1, 1, 1), 53));
}
