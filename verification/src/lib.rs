//! Generator of weakly-linked C trampoline stubs for WASI hook functions.
//!
//! The library walks an already-parsed interface description (modules of
//! functions with wasm-level signatures), keeps the functions named in an
//! injected allow-list, and renders for each one a weak C stub that forwards
//! to an internal trampoline symbol. The whole output text is pinned down by
//! the contracts over `Seq<char>` models.

pub mod abi;
pub mod emit;
pub mod names;
pub mod types;

pub use abi::AbiVariant;
pub use emit::generate;
