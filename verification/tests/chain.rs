use socks_chain::config::{Chain, Chains, Config, Error as ConfigError, Proxy, Server};
use socks_chain::session::{
    build_outbound_socks4, build_outbound_socks5, make_chain, read_chain_common, relay_chunk,
    write_chain_common,
};
use socks_chain::socks::{read_version, Error as SocksError, Ipv4Addr, SessionError, SocksVersion};
use socks_chain::socks4::{Socks4Command, Socks4Reply};
use socks_chain::socks5::{
    read_socks5_auth_request, write_socks5_auth_reply, Error as Socks5Error, Socks5Command,
    Socks5Reply,
};

fn ip(a: u8, b: u8, c: u8, d: u8) -> Ipv4Addr {
    Ipv4Addr::new(a, b, c, d)
}

fn spec_of(stages: Vec<Vec<Proxy>>) -> Chains {
    let mut list = Vec::new();
    for stage in stages {
        list.push(Chain::new(stage).unwrap());
    }
    Chains::new(list).unwrap()
}

#[test]
fn config_validation() {
    assert_eq!(
        Proxy::from_parts("socks4", ip(1, 2, 3, 4), 1080),
        Ok(Proxy::Socks4(ip(1, 2, 3, 4), 1080))
    );
    assert_eq!(
        Proxy::from_parts("socks5", ip(1, 2, 3, 4), 1080),
        Ok(Proxy::Socks5(ip(1, 2, 3, 4), 1080))
    );
    assert_eq!(
        Proxy::from_parts("socks6", ip(1, 2, 3, 4), 1080),
        Err(ConfigError::UnexpectedProxyType)
    );
    assert_eq!(
        Proxy::from_parts("http", ip(1, 2, 3, 4), 1080),
        Err(ConfigError::UnexpectedProxyType)
    );
    assert!(matches!(Chain::new(vec![]), Err(ConfigError::EmptyChain)));
    assert!(matches!(Chains::new(vec![]), Err(ConfigError::NoChains)));
    let chain = Chain::new(vec![Proxy::Socks4(ip(1, 2, 3, 4), 9)]).unwrap();
    assert_eq!(chain.entries().len(), 1);
    let config = Config::new(
        Server::new(String::from("127.0.0.1"), 1080),
        Chains::new(vec![Chain::new(vec![Proxy::Socks5(ip(1, 2, 3, 4), 9)]).unwrap()]).unwrap(),
    );
    assert_eq!(config.server().host(), "127.0.0.1");
    assert_eq!(config.server().port(), 1080);
    assert_eq!(config.chains().stages().len(), 1);
}

#[test]
fn planner_draws_one_hop_per_stage() {
    let a = Proxy::Socks4(ip(1, 1, 1, 1), 1001);
    let b = Proxy::Socks5(ip(2, 2, 2, 2), 1002);
    let c = Proxy::Socks4(ip(3, 3, 3, 3), 1003);
    let d = Proxy::Socks5(ip(4, 4, 4, 4), 1004);
    let chains = spec_of(vec![vec![a, b], vec![c], vec![d]]);
    for _ in 0..32 {
        let chain = make_chain(&chains);
        assert_eq!(chain.len(), 3);
        assert!(chain[0] == a || chain[0] == b);
        assert_eq!(chain[1], c);
        assert_eq!(chain[2], d);
    }
}

#[test]
fn single_hop_emits_no_adjacency_requests() {
    let chain = vec![Proxy::Socks5(ip(127, 0, 0, 1), 1080)];
    let mut buf = Vec::new();
    write_chain_common(&mut buf, &chain);
    assert!(buf.is_empty());
}

#[test]
fn adjacency_requests_in_order() {
    // SOCKS4 hop then SOCKS5 hop then SOCKS4 hop: the first hop gets a
    // SOCKS4 CONNECT aimed at the second, the second a SOCKS5
    // negotiation and CONNECT aimed at the third.
    let h1 = Proxy::Socks4(ip(1, 1, 1, 1), 256);
    let h2 = Proxy::Socks5(ip(2, 2, 2, 2), 512);
    let h3 = Proxy::Socks4(ip(3, 3, 3, 3), 768);
    let mut buf = Vec::new();
    write_chain_common(&mut buf, &vec![h1, h2, h3]);
    let mut expected = vec![4, 1, 2, 0, 2, 2, 2, 2, 0];
    expected.extend_from_slice(&[5, 1, 0]);
    expected.extend_from_slice(&[5, 1, 0, 1, 3, 3, 3, 3, 3, 0]);
    assert_eq!(buf, expected);
}

#[test]
fn relay_forwards_bytes_verbatim() {
    let data = [1u8, 2, 3, 4, 5, 6, 7, 8];
    assert_eq!(relay_chunk(&data, 5), vec![1, 2, 3, 4, 5]);
    assert_eq!(relay_chunk(&data, 0), Vec::<u8>::new());
    assert_eq!(relay_chunk(&data, 8), data.to_vec());
}

#[test]
fn scenario_single_socks5_hop_socks5_client() {
    // S1.  Client negotiation and request, hop reply, client reply.
    assert_eq!(read_version(5), Ok(SocksVersion::Socks5));
    assert_eq!(read_socks5_auth_request(&[1, 0], 0), Ok(Some(((), 2))));
    let mut auth_reply = Vec::new();
    write_socks5_auth_reply(&mut auth_reply);
    assert_eq!(auth_reply, vec![5, 0]);
    let request = [5u8, 1, 0, 1, 0xc0, 0xa8, 0x00, 0x01, 0x01, 0xbb];
    let (command, used) = Socks5Command::read(&request, 0).unwrap().unwrap();
    assert_eq!(used, 10);
    assert_eq!(command, Socks5Command::Connect(ip(192, 168, 0, 1), 443));

    let chains = spec_of(vec![vec![Proxy::Socks5(ip(127, 0, 0, 1), 1080)]]);
    let chain = make_chain(&chains);
    let outbound = build_outbound_socks5(&chain, &command);
    assert_eq!(
        outbound,
        vec![5, 1, 0, 5, 1, 0, 1, 0xc0, 0xa8, 0x00, 0x01, 0x01, 0xbb]
    );

    let upstream = [5u8, 0, 5, 0, 0, 1, 0x0a, 0x00, 0x00, 0x01, 0x04, 0xd2];
    let ((bnd_ip, bnd_port), consumed) = read_chain_common(&upstream, &chain).unwrap().unwrap();
    assert_eq!(consumed, 12);
    assert_eq!((bnd_ip, bnd_port), (ip(10, 0, 0, 1), 1234));

    let mut client_reply = Vec::new();
    Socks5Reply::new(bnd_ip, bnd_port).write(&mut client_reply);
    assert_eq!(client_reply, vec![5, 0, 0, 1, 0x0a, 0x00, 0x00, 0x01, 0x04, 0xd2]);
}

#[test]
fn scenario_socks4_then_socks5_socks4_client() {
    // S2.  SOCKS4 client, chain [socks4 A, socks5 B], destination D.
    let a = Proxy::Socks4(ip(1, 1, 1, 1), 1001);
    let b = Proxy::Socks5(ip(2, 2, 2, 2), 1002);
    let chain = vec![a, b];
    let command = Socks4Command::Connect(ip(9, 9, 9, 9), 443);
    let outbound = build_outbound_socks4(&chain, &command);
    let mut expected = vec![4u8, 1, 0x03, 0xea, 2, 2, 2, 2, 0];
    expected.extend_from_slice(&[5, 1, 0]);
    expected.extend_from_slice(&[5, 1, 0, 1, 9, 9, 9, 9, 0x01, 0xbb]);
    assert_eq!(outbound, expected);

    // Replies arrive in hop order: one SOCKS4 reply, then the SOCKS5
    // negotiation reply and reply frame carrying H2's bound address.
    let mut upstream = vec![0u8, 90, 0, 0, 1, 1, 1, 1];
    upstream.extend_from_slice(&[5, 0]);
    upstream.extend_from_slice(&[5, 0, 0, 1, 7, 7, 7, 7, 0x10, 0x00]);
    let ((bnd_ip, bnd_port), consumed) = read_chain_common(&upstream, &chain).unwrap().unwrap();
    assert_eq!(consumed, upstream.len());
    assert_eq!((bnd_ip, bnd_port), (ip(7, 7, 7, 7), 4096));

    let mut client_reply = Vec::new();
    Socks4Reply::new(bnd_ip, bnd_port).write(&mut client_reply);
    assert_eq!(client_reply, vec![0, 90, 0x10, 0x00, 7, 7, 7, 7]);
}

#[test]
fn scenario_socks5_then_socks4_socks5_client() {
    // S3.  SOCKS5 client, chain [socks5 A, socks4 B], destination D.
    let a = Proxy::Socks5(ip(1, 1, 1, 1), 1001);
    let b = Proxy::Socks4(ip(2, 2, 2, 2), 1002);
    let chain = vec![a, b];
    let command = Socks5Command::Connect(ip(9, 9, 9, 9), 443);
    let outbound = build_outbound_socks5(&chain, &command);
    let mut expected = vec![5u8, 1, 0];
    expected.extend_from_slice(&[5, 1, 0, 1, 2, 2, 2, 2, 0x03, 0xea]);
    expected.extend_from_slice(&[4, 1, 0x01, 0xbb, 9, 9, 9, 9, 0]);
    assert_eq!(outbound, expected);

    // Reply order read: SOCKS5 method reply, SOCKS5 reply, SOCKS4 reply.
    let mut upstream = vec![5u8, 0];
    upstream.extend_from_slice(&[5, 0, 0, 1, 1, 1, 1, 1, 0, 0]);
    upstream.extend_from_slice(&[0, 90, 0x10, 0x00, 7, 7, 7, 7]);
    let ((bnd_ip, bnd_port), consumed) = read_chain_common(&upstream, &chain).unwrap().unwrap();
    assert_eq!(consumed, upstream.len());
    assert_eq!((bnd_ip, bnd_port), (ip(7, 7, 7, 7), 4096));

    let mut client_reply = Vec::new();
    Socks5Reply::new(bnd_ip, bnd_port).write(&mut client_reply);
    assert_eq!(client_reply, vec![5, 0, 0, 1, 7, 7, 7, 7, 0x10, 0x00]);
}

#[test]
fn scenario_method_rejection() {
    // S4.  Client negotiation `05 01 02`: the detector consumes the 5,
    // the negotiation fails before any chain is planned.
    assert_eq!(read_version(5), Ok(SocksVersion::Socks5));
    assert_eq!(
        read_socks5_auth_request(&[1, 2], 0),
        Err(SessionError::Socks5(Socks5Error::UnsupportedAuthMethod))
    );
}

#[test]
fn scenario_upstream_failure() {
    // S5.  Single SOCKS5 hop replies REP=5 after accepting no-auth.
    let chain = vec![Proxy::Socks5(ip(127, 0, 0, 1), 1080)];
    let upstream = [5u8, 0, 5, 5, 0, 1, 0, 0, 0, 0, 0, 0];
    assert_eq!(
        read_chain_common(&upstream, &chain),
        Err(SessionError::Socks5(Socks5Error::RequestFailed(5)))
    );
}

#[test]
fn scenario_version_error() {
    // S6.  First byte 0x06.
    assert_eq!(read_version(6), Err(SocksError::UnsupportedVersion));
}

#[test]
fn chain_replies_incomplete_until_last_hop_answers() {
    let chain = vec![
        Proxy::Socks4(ip(1, 1, 1, 1), 1001),
        Proxy::Socks4(ip(2, 2, 2, 2), 1002),
    ];
    // Only the first hop's reply has arrived so far.
    let first_only = [0u8, 90, 0, 0, 1, 1, 1, 1];
    assert_eq!(read_chain_common(&first_only, &chain), Ok(None));
    // A failure from the first hop aborts at once.
    let failed = [0u8, 92, 0, 0, 1, 1, 1, 1];
    assert_eq!(
        read_chain_common(&failed, &chain),
        Err(SessionError::Socks4(socks_chain::socks4::Error::RequestFailed(92)))
    );
}
