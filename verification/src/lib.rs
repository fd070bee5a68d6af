//! Unicast UDP links: the rules by which one bound datagram socket is shared
//! between per-peer links, stated over plain values and proved.
//!
//! Sockets, tasks and timers are left to the caller. Every decision that the
//! link layer takes between two socket operations is a function of this crate.

pub mod addr;
pub mod demux;
pub mod error;
pub mod facade;
pub mod leftover;
pub mod limits;
pub mod link;
pub mod locator;
pub mod manager;
pub mod table;
