//! What the operations of the library give, stated of their arguments and results.
//!
//! A law speaks of every result that an operation can give: it requires that the result is
//! one of the operation, and says what the result then holds.

pub mod backend;
pub mod configuration;
pub mod connection;
pub mod contexts;
pub mod dotfiles;
pub mod mounts;
pub mod navigation;
pub mod process;
pub mod values;
