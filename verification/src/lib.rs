//! A verified core for an ICMP traceroute: the packet codec, the probe
//! correlation rules, and the hop-by-hop controller that decides when a run
//! is finished. Socket I/O, name resolution and display live outside, in the
//! surrounding binary; everything here is pure logic with proved contracts.

pub mod checksum;
pub mod packet;
pub mod probe;
pub mod controller;
