//! Command lines and link directives for building Halide kernels.
//!
//! The library decides every argument that is handed to the C++ compiler,
//! to `git` and to `make`; running those programs is left to the caller.
pub mod paths;
pub mod text;
pub mod invocation;
pub mod kernel;
pub mod source;
pub mod linking;
