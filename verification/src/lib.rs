//! The runtime of the Ad Astra script engine: data borrowing rules, memory
//! slices and cells, the interpreter stack and commands, operator dispatch,
//! and the runtime errors with their messages, specified and verified.

pub mod origin;
pub mod range;
pub mod ty;
pub mod error;
pub mod borrow;
pub mod memory;
pub mod registry;
pub mod cell;
pub mod coercion;
pub mod invoke;
pub mod ident;
pub mod intrinsics;
pub mod stack;
pub mod text;
pub mod hashing;
pub mod description;
pub mod operators;
pub mod slicing;
pub mod object;
pub mod assembly;
pub mod engine;
pub mod function;
