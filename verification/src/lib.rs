//! Host-side object model of a WebAssembly runtime: arena-owned objects,
//! context-checked handles, bounds-checked linear memory and typed pointers,
//! and import resolution.

pub mod assoc;
pub mod context;
pub mod emscripten;
pub mod error;
pub mod export;
pub mod exports;
pub mod externals;
pub mod imports;
pub mod laws;
pub mod mem_access;
pub mod memory;
pub mod module;
pub mod ptr;
pub mod resource;
pub mod table;
pub mod text;
pub mod types;
pub mod units;
pub mod value;
pub mod wasi;
