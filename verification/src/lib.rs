//! Control plane for a heterogeneous fleet of camera devices: gimbals driven
//! over Bluetooth LE, cameras speaking a PTP-over-IP dialect on TCP, and
//! serial-attached LANC bridges. This crate holds the verified core: frame
//! encodings with their checksums, the fixed-point scaling of operator input,
//! the per-driver state machines that decide what goes on the wire, and the
//! configuration rules. All I/O lives outside the crate; callers feed plain
//! values in and carry the planned frames out.

pub mod bytes;
pub mod config;
pub mod crane;
pub mod crc;
pub mod device;
pub mod dispatcher;
pub mod dummy;
pub mod lanc;
pub mod lumix;
pub mod ronin;
