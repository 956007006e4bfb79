//! A MOS 6502 core with a memory bus and the devices of a small machine.
pub mod flags;
pub mod ops_lookup;
pub mod display;
pub mod ram;
pub mod bus;
pub mod vic;
pub mod cpu;
pub mod c64;
pub mod debugger;
