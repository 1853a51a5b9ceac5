//! Packet classification and ingress policy decisions for an XDP-based
//! network monitor and firewall, with the event and error types shared by
//! the kernel programs and the user-space tools.

pub mod enforce;
pub mod error;
pub mod event;
pub mod packet;
pub mod shared;

pub use error::{EfenceError, ErrorKind};
pub use event::{EfenceEvent, Ipv4Address, Tcp4Event, Udp4Event};
pub use shared::EfenceErrorCode;
