//! Turns a function whose first parameter is a typed `self` into a capability
//! interface with one method and one binding of that interface to the type of
//! `self`, so that the function can be called as a method of that type.
//!
//! The function is given as plain values ([`function::FunctionItem`]), and so
//! are the interface and the binding that [`expand::expand`] makes of it
//! ([`expand::Artifact`]). Every contract speaks of the models of these
//! values: trees and sequences of characters.
//!
//! - [`types`]: declared types and their model
//! - [`generics`]: generic parameters and constraint clauses
//! - [`function`]: attributes, visibility, signature and body
//! - [`find`]: which parameters a type refers to, and the partition by it
//! - [`rewrite`]: existentials become named type parameters
//! - [`scope`]: the names in scope and the padding of introduced names
//! - [`bounds`]: bounds of parameters move into the constraint clause
//! - [`expand`]: the checks and the assembly of interface and binding
//! - [`error`]: the refusals
//! - [`laws`]: what holds of every expansion

pub mod bounds;
pub mod error;
pub mod expand;
pub mod find;
pub mod function;
pub mod generics;
pub mod laws;
pub mod rewrite;
pub mod scope;
pub mod types;
