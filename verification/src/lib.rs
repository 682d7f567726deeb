//! Decode-only views over captured link-layer frames.
//!
//! A frame is a borrowed window over a caller-owned buffer. Ethernet frames
//! dispatch to an IPv4 or IPv6 payload; 802.11 management frames expose a
//! region of tagged parameters, walked by a bounds-checked iterator and
//! decoded by typed accessors.

pub mod ethernet;
pub mod frame;
pub mod management;
pub mod wire;
