//! The desktop test bench: a processor with its own 64 KiB memory array, stepped
//! from a terminal.
pub mod cpu;
pub mod model;
pub mod ram;
