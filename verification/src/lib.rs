//! Host-side driver for a device's serial rescue protocol: entering rescue
//! mode over a break condition, selecting operational modes with fixed-width
//! 4-byte tags, negotiating the link's baud rate, and delegating bulk payload
//! transfer to an external codec.
//!
//! The byte-serial transport and the collaborators consumed over it (the
//! line-oriented pattern waiter, the target reset side channel and the
//! bulk-transfer codec) are abstracted behind the [`uart::Uart`] trait, whose
//! contracts describe their effect on a ghost model of the link. The
//! [`serial::RescueSerial`] session is verified against those contracts;
//! [`sim::SimUart`] is a verified in-memory transport for exercising the
//! protocol against a scripted device.

pub mod baud;
pub mod error;
pub mod mode;
pub mod serial;
pub mod sim;
pub mod uart;
