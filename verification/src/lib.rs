//! Host-sensor tools: a registry of named tools, argument validation against
//! declared schemas, a dispatcher, and the report builders behind each tool.
//!
//! Everything here is plain data in, plain data out. Reading the operating
//! system, the network or a repository is the caller's business; this crate
//! decides and formats.

pub mod text;
pub mod git;
pub mod bluetooth;
pub mod battery;
pub mod network;
pub mod units;
pub mod process;
pub mod sysinfo;
pub mod usb;
pub mod idle;
pub mod display;
pub mod weather;
pub mod schema;
pub mod registry;
pub mod dispatch;
pub mod catalog;
pub mod sensors;
