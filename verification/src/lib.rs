//! Setting up WebAssembly modules: translation, compilation, linking and instantiation as steps
//! around a compiler and a runtime, and some of what these need of the system.

pub mod entity;
pub mod error;
pub mod fcntl;
pub mod frontend;
pub mod image;
pub mod initializer;
pub mod jit;
pub mod linked;
pub mod payload;
pub mod signatures;
pub mod support;
pub mod support_laws;
pub mod unwind;
