//! CRC-64/NVME checksums over byte sources of any size, computed by an
//! accelerated digest or by a table-driven reference digest, fed in bounded
//! segments.

pub mod params;
pub mod engines;
pub mod stream;
pub mod compute;
pub mod command;
