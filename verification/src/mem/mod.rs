//! The CPU's view of memory: addresses, the bus abstraction and the devices
//! behind it.

pub mod address;
pub mod bus;
pub mod memory;
pub mod ram;

pub use address::Address;
pub use bus::Bus;
pub use memory::Memory;
pub use ram::Ram;
