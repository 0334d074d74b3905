//! Decoding of the WebAssembly binary format.
pub mod codes;
pub mod leb128;
pub mod module;
pub mod reader;
pub mod sections;
pub mod types;
