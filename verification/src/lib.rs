//! Verified request handling for the PetAgent plugin services.
//!
//! - `json`: the JSON values that requests carry and replies hold.
//! - `rpc`: JSON-RPC 2.0 replies and the limits of a request line.
//! - `echo`: the echo MCP tool.
//! - `disk`: the disk-usage MCP tool and its byte accounting.
//! - `clock`: the clock app service and its window state.
//! - `local_time`: the local clock, read and formatted through `chrono`.
//! - `sensors`: the hardware-temperature plugin: sensor classes, the order of
//!   readings and the report.
//! - `readings`: the readings and source notes built from what NVML and the
//!   hardware-monitor namespaces report.
//! - `native`: the values of the native plugin ABI and the native probe.
//! - `text`: character-level text operations.

pub mod clock;
pub mod disk;
pub mod echo;
pub mod json;
pub mod local_time;
pub mod native;
pub mod rpc;
pub mod readings;
pub mod sensors;
pub mod text;
