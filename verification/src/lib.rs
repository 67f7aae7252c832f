//! A source-to-source rewrite that puts a guard around every call of a
//! foreign function.
//!
//! Given a module with blocks of foreign declarations, the rewrite leaves in
//! each block what is not a function, gives the module a wrapper for each
//! foreign function, and moves the functions themselves into one hidden
//! module. A wrapper has the name and signature of its function; its body
//! drops the caller's access rights to protected memory, calls the function,
//! and restores the rights.
//!
//! [`entry::mpk_create`] rewrites one annotated item, [`visit::visit_mod`]
//! one module. [`laws`] states what holds of every rewrite.

pub mod ast;
pub mod entry;
pub mod error;
pub mod laws;
pub mod partition;
pub mod propagate;
pub mod render;
pub mod rewrite;
pub mod text;
pub mod visit;
pub mod wrapper;
