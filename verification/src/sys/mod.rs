//! Platform layers.

pub mod host;
pub mod process;
pub mod wasm;
pub mod wasm_shim;
