//! A verified core for a SOCKS proxy multiplexer.
//!
//! The library covers the wire codecs for SOCKS4 and SOCKS5 (IPv4 only),
//! the version detector, the chain planner that draws one hop per stage,
//! and the chain establisher that builds the pipelined outbound byte
//! stream and parses the per-hop replies in order.  All socket work is
//! left to the surrounding program, which hands byte buffers in and out.

pub mod config;
pub mod session;
pub mod socks;
pub mod socks4;
pub mod socks5;
