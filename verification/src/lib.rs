//! Virtual PCI relay
//!
//! A virtual PCI relay for a paravisor. It consumes VPCI buses from the host and
//! relays them to the guest, filtering them as needed.
//!
//! What the relay decides is here; what it asks of the host, of the guest's
//! chipset and of the TDX module is left to the caller. Each operation that does
//! so is a sequence of steps: a step takes the reply to the last request, and
//! names the next.
//!
//! - [`relay`]: the relay itself.
//! - [`bus`]: relaying one bus.
//! - [`activity`]: waiting for activity, and processing it.
//! - [`startup`] and [`mock`]: the TDISP flows of a device.
//! - [`rpb`]: the RPB device.
//!
//! The modules whose names end in `_laws` state what holds of several steps
//! together.
pub mod activity;
pub mod allowed;
pub mod bus;
pub mod bus_laws;
pub mod guid;
pub mod hwid;
pub mod mmio;
pub mod mock;
pub mod poll_laws;
pub mod process_laws;
pub mod relay;
pub mod relay_laws;
pub mod report;
pub mod rpb;
pub mod slots;
pub mod startup;
pub mod startup_laws;
pub mod tdi;

pub use allowed::AllowedDevice;
pub use hwid::ClassCode;
pub use hwid::ProgrammingInterface;
pub use hwid::Subclass;
pub use relay::VpciRelay;
pub use relay::VpciRelayOptions;
pub use tdi::DmarTarget;
pub use tdi::TdiRangeSizeOffset;
