//! The pixel processing unit of a DMG-style handheld console, with the address
//! bus that lets it share a 16-bit memory space with other devices.
//!
//! Every function carries a contract over a mathematical model of the state it
//! touches, and every body is proved against its contract.

pub mod bus;
pub mod interrupt;
pub mod laws;
pub mod model;
pub mod oam;
pub mod palette;
pub mod ppu;
pub mod ram;
pub mod tile;
