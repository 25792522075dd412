//! Validation and compilation of WebAssembly modules: every function body is
//! type-checked against a simulated value stack and control-frame stack
//! while it is translated into a flat, branch-resolved instruction encoding.
//! Two policy checks go beside it: a denial of floating-point use, and a cap
//! on the initial pages of linear memory.

pub mod error;
pub mod isa;
pub mod module;
pub mod compile;
pub mod prepare;
pub mod policy;

pub use policy::{deny_floating_point, validate_memory_size};
pub use prepare::{compile_module, validate_module, CompiledModule, WasmiValidation};
