//! Firmware-side IPC substrate for a Cortex-M class co-processor that talks
//! to a host CPU over shared-memory descriptor rings.
//!
//! The crate models the four subsystems of that substrate: the resource
//! table (a static directory of memory regions doubling as an address
//! translator), the virtio split-ring transport, the message framing layer
//! on top of it, and the small pieces of chip glue whose behaviour is pure
//! computation (cache maintenance commands, mailbox addresses, the ISR
//! notification queue). Register access and other hardware effects live
//! outside the library.

pub mod am5728;
pub mod board;
pub mod fifo;
pub mod firmware;
pub mod resource_table;
pub mod rpmsg;
pub mod string32;
pub mod trace;
pub mod vring;
