//! A byte-addressable 8-bit virtual CPU: eight registers, a flag byte, a
//! downward-growing stack and a 256-byte memory shared by code and stack,
//! driven by a verified fetch-decode-execute cycle.

pub mod flags;
pub mod isa;
pub mod machine;
pub mod laws;
