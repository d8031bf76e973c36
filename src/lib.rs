//! A small userspace network front end: a packet buffer that grows and
//! shrinks at its front, Ethernet and ARP header codecs over that buffer,
//! an address-resolution cache and the receive-path dispatch that ties
//! them together.

pub mod arp;
pub mod errors;
pub mod ethernet;
pub mod ipv4;
pub mod mbuf;
pub mod wire;
