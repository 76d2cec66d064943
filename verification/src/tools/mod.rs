//! The rules of the built-in tools: what each is called, what it refuses,
//! and how it words its results. Reading files, walking directories and
//! running commands is left to the caller.

pub mod bash;
pub mod file;
pub mod project;
pub mod search;
