//! Control firmware logic for a USB-attached test-bed controller: the vendor
//! control-transfer protocol engine, the priority-ceiling task kernel, the
//! telemetry pipeline's buffer discipline and reading format, and the bounded
//! console queue towards the device under test.

pub mod bridge;
mod bytes;
pub mod config;
pub mod engine;
pub mod kernel;
mod payload;
pub mod protocol;
pub mod telemetry;
