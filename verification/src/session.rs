use vstd::prelude::*;

use rand::Rng;

use crate::config::{spec_proxy_addr, Chains, Proxy};
use crate::socks::{parsed_as, Ipv4Addr, Parsed, SessionError};
use crate::socks4::{
    spec_read_socks4_reply, spec_socks4_command_bytes, spec_socks4_of_socks5, Socks4Command,
    Socks4Reply,
};
use crate::socks5::{
    read_socks5_auth_reply, spec_read_socks5_auth_reply, spec_read_socks5_reply,
    spec_socks5_auth_bytes, spec_socks5_command_bytes, spec_socks5_of_socks4, write_socks5_auth,
    Socks5Command, Socks5Reply,
};

verus! {

/// Relies on rand::Rng::gen_range over `0..n`: the sample lies in the
/// given nonempty range.  Distinct calls may return different indices.
#[verifier::external_body]
fn rand_index(n: usize) -> (r: usize)
    requires
        n > 0,
    ensures
        r < n,
{
    rand::thread_rng().gen_range(0..n)
}

/// Draws one concrete chain from the specification: one proxy per
/// stage, chosen at random and independently.  Whatever the draws, the
/// result has one hop per stage and each hop comes from its stage.
pub fn make_chain(chains: &Chains) -> (r: Vec<Proxy>)
    ensures
        r@.len() == chains@.len(),
        forall|j: int| 0 <= j < r@.len() ==> chains@[j].contains(#[trigger] r@[j]),
{
    let stages = chains.stages();
    let mut result: Vec<Proxy> = Vec::new();
    let mut i: usize = 0;
    while i < stages.len()
        invariant
            i <= stages@.len(),
            stages@.map_values(|c: crate::config::Chain| c@) == chains@,
            result@.len() == i,
            forall|j: int| 0 <= j < i ==> chains@[j].contains(#[trigger] result@[j]),
        decreases stages@.len() - i,
    {
        let stage = &stages[i];
        proof {
            use_type_invariant(stage);
        }
        let entries = stage.entries();
        let k = rand_index(entries.len());
        let p = entries[k];
        proof {
            assert(chains@[i as int] == stage@);
            assert(chains@[i as int].contains(p)) by {
                assert(chains@[i as int][k as int] == p);
            }
        }
        result.push(p);
        i += 1;
    }
    result
}

/// The request that instructs hop `p` to open a TCP connection to
/// `next`: always CONNECT, in `p`'s own protocol, with the SOCKS5
/// method negotiation first when `p` speaks SOCKS5.
pub open spec fn spec_adjacency_bytes(p: Proxy, next: Proxy) -> Seq<u8> {
    match p {
        Proxy::Socks4(_, _) => spec_socks4_command_bytes(
            Socks4Command::Connect(spec_proxy_addr(next).0, spec_proxy_addr(next).1),
        ),
        Proxy::Socks5(_, _) => spec_socks5_auth_bytes() + spec_socks5_command_bytes(
            Socks5Command::Connect(spec_proxy_addr(next).0, spec_proxy_addr(next).1),
        ),
    }
}

/// The concatenation, in order, of the adjacency requests for each
/// adjacent pair of hops in the chain.
pub open spec fn spec_chain_prefix_bytes(chain: Seq<Proxy>) -> Seq<u8>
    decreases chain.len(),
{
    if chain.len() <= 1 {
        Seq::empty()
    } else {
        spec_chain_prefix_bytes(chain.drop_last()) + spec_adjacency_bytes(
            chain[chain.len() - 2],
            chain[chain.len() - 1],
        )
    }
}

/// Appends the adjacency requests for the chain to `buf`: for each
/// adjacent pair, a request telling the earlier hop to connect to the
/// later one.
pub fn write_chain_common(buf: &mut Vec<u8>, chain: &Vec<Proxy>)
    requires
        chain@.len() >= 1,
    ensures
        final(buf)@ == old(buf)@ + spec_chain_prefix_bytes(chain@),
{
    let n = chain.len();
    let mut i: usize = 1;
    proof {
        assert(spec_chain_prefix_bytes(chain@.take(1int)) =~= Seq::<u8>::empty());
        assert(buf@ =~= old(buf)@ + spec_chain_prefix_bytes(chain@.take(1int)));
    }
    while i < n
        invariant
            1 <= i <= n == chain@.len(),
            buf@ == old(buf)@ + spec_chain_prefix_bytes(chain@.take(i as int)),
        decreases n - i,
    {
        let proxy = chain[i - 1];
        let next = chain[i];
        let (nip, nport) = next.addr();
        match proxy {
            Proxy::Socks4(_, _) => {
                let command = Socks4Command::Connect(nip, nport);
                command.write(buf);
            },
            Proxy::Socks5(_, _) => {
                write_socks5_auth(buf);
                let command = Socks5Command::Connect(nip, nport);
                command.write(buf);
            },
        }
        proof {
            assert(chain@.take(i as int + 1).drop_last() =~= chain@.take(i as int));
            assert(buf@ =~= old(buf)@ + spec_chain_prefix_bytes(chain@.take(i as int + 1)));
        }
        i += 1;
    }
    proof {
        assert(chain@.take(n as int) =~= chain@);
    }
}

/// The terminal request for a chain whose client spoke SOCKS4: the
/// client's command re-encoded in the last hop's protocol, with the
/// method negotiation first when that hop speaks SOCKS5.
pub open spec fn spec_terminal_bytes_socks4(last: Proxy, c: Socks4Command) -> Seq<u8> {
    match last {
        Proxy::Socks4(_, _) => spec_socks4_command_bytes(c),
        Proxy::Socks5(_, _) => spec_socks5_auth_bytes() + spec_socks5_command_bytes(
            spec_socks5_of_socks4(c),
        ),
    }
}

/// The terminal request for a chain whose client spoke SOCKS5.
pub open spec fn spec_terminal_bytes_socks5(last: Proxy, c: Socks5Command) -> Seq<u8> {
    match last {
        Proxy::Socks4(_, _) => spec_socks4_command_bytes(spec_socks4_of_socks5(c)),
        Proxy::Socks5(_, _) => spec_socks5_auth_bytes() + spec_socks5_command_bytes(c),
    }
}

/// The whole outbound stream for a SOCKS4 client: every adjacency
/// request in chain order, then the terminal request aimed at the last
/// hop.  It is written to the first hop before any reply is read.
pub open spec fn spec_outbound_socks4(chain: Seq<Proxy>, c: Socks4Command) -> Seq<u8> {
    spec_chain_prefix_bytes(chain) + spec_terminal_bytes_socks4(chain.last(), c)
}

/// The whole outbound stream for a SOCKS5 client.
pub open spec fn spec_outbound_socks5(chain: Seq<Proxy>, c: Socks5Command) -> Seq<u8> {
    spec_chain_prefix_bytes(chain) + spec_terminal_bytes_socks5(chain.last(), c)
}

/// Builds the outbound stream for a SOCKS4 client's command `command`
/// over the materialized chain.
pub fn build_outbound_socks4(chain: &Vec<Proxy>, command: &Socks4Command) -> (buf: Vec<u8>)
    requires
        chain@.len() >= 1,
    ensures
        buf@ == spec_outbound_socks4(chain@, *command),
{
    let mut buf: Vec<u8> = Vec::new();
    write_chain_common(&mut buf, chain);
    let last = chain[chain.len() - 1];
    match last {
        Proxy::Socks5(_, _) => {
            write_socks5_auth(&mut buf);
            let cmd5 = Socks5Command::from(command);
            cmd5.write(&mut buf);
        },
        Proxy::Socks4(_, _) => {
            command.write(&mut buf);
        },
    }
    proof {
        assert(buf@ =~= spec_outbound_socks4(chain@, *command));
    }
    buf
}

/// Builds the outbound stream for a SOCKS5 client's command `command`
/// over the materialized chain.
pub fn build_outbound_socks5(chain: &Vec<Proxy>, command: &Socks5Command) -> (buf: Vec<u8>)
    requires
        chain@.len() >= 1,
    ensures
        buf@ == spec_outbound_socks5(chain@, *command),
{
    let mut buf: Vec<u8> = Vec::new();
    write_chain_common(&mut buf, chain);
    let last = chain[chain.len() - 1];
    match last {
        Proxy::Socks5(_, _) => {
            write_socks5_auth(&mut buf);
            command.write(&mut buf);
        },
        Proxy::Socks4(_, _) => {
            let cmd4 = Socks4Command::from(command);
            cmd4.write(&mut buf);
        },
    }
    proof {
        assert(buf@ =~= spec_outbound_socks5(chain@, *command));
    }
    buf
}

/// The result of parsing one hop's reply: one SOCKS4 reply frame for a
/// SOCKS4 hop; a method-negotiation reply then a SOCKS5 reply frame
/// for a SOCKS5 hop.  The value is the hop's bound address.
pub open spec fn spec_read_hop_reply(s: Seq<u8>, p: Proxy) -> Parsed<(Ipv4Addr, u16)> {
    match p {
        Proxy::Socks4(_, _) => match spec_read_socks4_reply(s) {
            Parsed::Done(r, n) => Parsed::Done(((r.ip, r.port)), n),
            Parsed::Incomplete => Parsed::Incomplete,
            Parsed::Fail(e) => Parsed::Fail(e),
        },
        Proxy::Socks5(_, _) => match spec_read_socks5_auth_reply(s) {
            Parsed::Done(u, n) => match spec_read_socks5_reply(s.skip(n)) {
                Parsed::Done(r, m) => Parsed::Done(((r.ip, r.port)), n + m),
                Parsed::Incomplete => Parsed::Incomplete,
                Parsed::Fail(e) => Parsed::Fail(e),
            },
            Parsed::Incomplete => Parsed::Incomplete,
            Parsed::Fail(e) => Parsed::Fail(e),
        },
    }
}

/// The result of reading the chain's replies in hop order.  The value
/// is the bound address of the last hop's reply: earlier hops' replies
/// are checked for success and their addresses discarded; any failure
/// aborts with that hop's error.
pub open spec fn spec_read_chain(s: Seq<u8>, chain: Seq<Proxy>) -> Parsed<(Ipv4Addr, u16)>
    decreases chain.len(),
{
    if chain.len() == 0 {
        Parsed::Incomplete
    } else {
        match spec_read_hop_reply(s, chain[0]) {
            Parsed::Done(v, n) => if chain.len() == 1 {
                Parsed::Done(v, n)
            } else {
                match spec_read_chain(s.skip(n), chain.skip(1)) {
                    Parsed::Done(w, m) => Parsed::Done(w, n + m),
                    Parsed::Incomplete => Parsed::Incomplete,
                    Parsed::Fail(e) => Parsed::Fail(e),
                }
            },
            Parsed::Incomplete => Parsed::Incomplete,
            Parsed::Fail(e) => Parsed::Fail(e),
        }
    }
}

/// Reads the replies of the hops `i..` of the chain from `buf`
/// beginning at `pos`.
fn read_chain_from(buf: &[u8], pos: usize, chain: &Vec<Proxy>, i: usize) -> (r: Result<
    Option<((Ipv4Addr, u16), usize)>,
    SessionError,
>)
    requires
        pos <= buf.len(),
        i < chain@.len(),
    ensures
        parsed_as(r, spec_read_chain(buf@.skip(pos as int), chain@.skip(i as int))),
        r matches Ok(Some((v, n))) ==> n <= buf.len() - pos,
    decreases chain@.len() - i,
{
    let last = i == chain.len() - 1;
    let (v, used): ((Ipv4Addr, u16), usize) = match chain[i] {
        Proxy::Socks4(_, _) => {
            match Socks4Reply::read(buf, pos) {
                Err(e) => {
                    return Err(e);
                },
                Ok(None) => {
                    return Ok(None);
                },
                Ok(Some((reply, n))) => ((reply.ip(), reply.port()), n),
            }
        },
        Proxy::Socks5(_, _) => {
            let n1 = match read_socks5_auth_reply(buf, pos) {
                Err(e) => {
                    return Err(e);
                },
                Ok(None) => {
                    return Ok(None);
                },
                Ok(Some((_u, n1))) => n1,
            };
            proof {
                assert(buf@.skip(pos as int).skip(n1 as int) =~= buf@.skip(
                    pos as int + n1 as int,
                ));
            }
            match Socks5Reply::read(buf, pos + n1) {
                Err(e) => {
                    return Err(e);
                },
                Ok(None) => {
                    return Ok(None);
                },
                Ok(Some((reply, n2))) => ((reply.ip(), reply.port()), n1 + n2),
            }
        },
    };
    if last {
        Ok(Some((v, used)))
    } else {
        proof {
            assert(buf@.skip(pos as int).skip(used as int) =~= buf@.skip(
                pos as int + used as int,
            ));
            assert(chain@.skip(i as int).skip(1) =~= chain@.skip(i as int + 1));
        }
        match read_chain_from(buf, pos + used, chain, i + 1) {
            Err(e) => Err(e),
            Ok(None) => Ok(None),
            Ok(Some((w, m))) => Ok(Some((w, used + m))),
        }
    }
}

/// Reads the chain's replies in hop order from `buf` and returns the
/// last hop's bound address and the number of bytes consumed;
/// `Ok(None)` when more reply bytes are still needed.
pub fn read_chain_common(buf: &[u8], chain: &Vec<Proxy>) -> (r: Result<
    Option<((Ipv4Addr, u16), usize)>,
    SessionError,
>)
    requires
        chain@.len() >= 1,
    ensures
        parsed_as(r, spec_read_chain(buf@, chain@)),
        r matches Ok(Some((v, n))) ==> n <= buf.len(),
{
    proof {
        assert(buf@.skip(0) =~= buf@);
        assert(chain@.skip(0) =~= chain@);
    }
    read_chain_from(buf, 0, chain, 0)
}

/// The compute step of the relay loop: the bytes handed to the
/// opposite side are exactly the first `n` bytes that were read.
pub fn relay_chunk(data: &[u8], n: usize) -> (out: Vec<u8>)
    requires
        n <= data.len(),
    ensures
        out@ == data@.take(n as int),
{
    let mut out: Vec<u8> = Vec::new();
    let mut i: usize = 0;
    while i < n
        invariant
            i <= n <= data.len(),
            out@ == data@.take(i as int),
        decreases n - i,
    {
        out.push(data[i]);
        proof {
            assert(out@ =~= data@.take(i as int + 1));
        }
        i += 1;
    }
    out
}

/// The reply frames hop `p` sends on success, carrying bound address
/// `r`: one SOCKS4 reply, or a method-negotiation reply followed by a
/// SOCKS5 reply.
pub open spec fn spec_hop_reply_bytes(p: Proxy, r: (Ipv4Addr, u16)) -> Seq<u8> {
    match p {
        Proxy::Socks4(_, _) => crate::socks4::spec_socks4_reply_bytes(
            Socks4Reply { ip: r.0, port: r.1 },
        ),
        Proxy::Socks5(_, _) => crate::socks5::spec_socks5_auth_reply_bytes()
            + crate::socks5::spec_socks5_reply_bytes(Socks5Reply { ip: r.0, port: r.1 }),
    }
}

/// The whole reply stream of a chain in which every hop succeeded:
/// each hop's success frames in hop order, hop `i` reporting the bound
/// address `replies[i]`.
pub open spec fn spec_chain_reply_bytes(chain: Seq<Proxy>, replies: Seq<(Ipv4Addr, u16)>) -> Seq<
    u8,
>
    decreases chain.len(),
{
    if chain.len() == 0 {
        Seq::empty()
    } else {
        spec_hop_reply_bytes(chain[0], replies[0]) + spec_chain_reply_bytes(
            chain.skip(1),
            replies.skip(1),
        )
    }
}

/// One hop's success frames at the head of a longer stream parse to
/// that hop's bound address.
proof fn lemma_hop_reply_parse_prefix(p: Proxy, r: (Ipv4Addr, u16), rest: Seq<u8>)
    ensures
        spec_read_hop_reply(spec_hop_reply_bytes(p, r) + rest, p) == Parsed::<(
            Ipv4Addr,
            u16,
        )>::Done(r, spec_hop_reply_bytes(p, r).len() as int),
{
    let u = spec_hop_reply_bytes(p, r);
    match p {
        Proxy::Socks4(_, _) => {
            crate::socks4::lemma_socks4_reply_parse_prefix(
                Socks4Reply { ip: r.0, port: r.1 },
                rest,
            );
        },
        Proxy::Socks5(_, _) => {
            let reply = Socks5Reply { ip: r.0, port: r.1 };
            let tail = crate::socks5::spec_socks5_reply_bytes(reply) + rest;
            assert(u + rest =~= crate::socks5::spec_socks5_auth_reply_bytes() + tail);
            crate::socks5::lemma_socks5_auth_reply_parse_prefix(tail);
            assert((u + rest).skip(2) =~= tail);
            crate::socks5::lemma_socks5_reply_parse_prefix(reply, rest);
        },
    }
}

/// Law (reply bubbling, whole chain): when every hop replies success,
/// the chain's reply stream parses to the LAST hop's bound address,
/// and consumes the whole stream.
pub proof fn lemma_chain_reply_last(chain: Seq<Proxy>, replies: Seq<(Ipv4Addr, u16)>)
    requires
        chain.len() >= 1,
        replies.len() == chain.len(),
    ensures
        spec_read_chain(spec_chain_reply_bytes(chain, replies), chain) == Parsed::<(
            Ipv4Addr,
            u16,
        )>::Done(replies.last(), spec_chain_reply_bytes(chain, replies).len() as int),
    decreases chain.len(),
{
    let s = spec_chain_reply_bytes(chain, replies);
    let u = spec_hop_reply_bytes(chain[0], replies[0]);
    let rest = spec_chain_reply_bytes(chain.skip(1), replies.skip(1));
    assert(s == u + rest);
    lemma_hop_reply_parse_prefix(chain[0], replies[0], rest);
    if chain.len() == 1 {
        assert(rest =~= Seq::<u8>::empty());
        assert(replies.last() == replies[0]);
    } else {
        lemma_chain_reply_last(chain.skip(1), replies.skip(1));
        assert(s.skip(u.len() as int) =~= rest);
        assert(replies.skip(1).last() == replies.last());
    }
}

/// Law (reply bubbling): when the chain's reply stream yields the last
/// hop's bound address, the success reply re-encoded for a SOCKS4
/// client decodes back to that same address.
pub proof fn lemma_reply_bubbling_socks4(
    s: Seq<u8>,
    chain: Seq<Proxy>,
    ip: Ipv4Addr,
    port: u16,
    used: int,
)
    requires
        chain.len() >= 1,
        spec_read_chain(s, chain) == Parsed::<(Ipv4Addr, u16)>::Done((ip, port), used),
    ensures
        spec_read_socks4_reply(
            crate::socks4::spec_socks4_reply_bytes(Socks4Reply { ip, port }),
        ) == Parsed::<Socks4Reply>::Done(Socks4Reply { ip, port }, 8),
{
    crate::socks4::lemma_socks4_reply_round_trip(Socks4Reply { ip, port });
}

/// Law (reply bubbling): the SOCKS5 analogue of the above.
pub proof fn lemma_reply_bubbling_socks5(
    s: Seq<u8>,
    chain: Seq<Proxy>,
    ip: Ipv4Addr,
    port: u16,
    used: int,
)
    requires
        chain.len() >= 1,
        spec_read_chain(s, chain) == Parsed::<(Ipv4Addr, u16)>::Done((ip, port), used),
    ensures
        spec_read_socks5_reply(
            crate::socks5::spec_socks5_reply_bytes(Socks5Reply { ip, port }),
        ) == Parsed::<Socks5Reply>::Done(Socks5Reply { ip, port }, 10),
{
    crate::socks5::lemma_socks5_reply_round_trip(Socks5Reply { ip, port });
}

} // verus!
