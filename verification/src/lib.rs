//! An Intel 8080 processor emulator for an S-100 bus machine, with the memory,
//! front-panel and bus-transfer logic around it.
pub mod bits;
pub mod memory;
pub mod model;
pub mod ram;
pub mod cpu;
pub mod bench;
pub mod instructions;
pub mod runner;
pub mod recall;
pub mod tram;
pub mod panel;
pub mod sms;
pub mod bus;
pub mod bus_cpu;
pub mod card;
pub mod laws;
pub mod instruction_laws;
