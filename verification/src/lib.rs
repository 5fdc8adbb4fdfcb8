//! Execution core of an ActionScript 3 virtual machine: the two-form text
//! value, the runtime value union, the explicit heap of objects, domains,
//! translation units and scripts, and the interpreter state that drives script
//! loading and one-time initialization.

pub mod abc;
pub mod activation;
pub mod avm2;
pub mod domain;
pub mod error;
pub mod heap;
pub mod loader;
pub mod method;
pub mod object;
pub mod script;
pub mod text;
pub mod value;
