//! Method descriptors. A method is never changed once made.

use vstd::prelude::*;
use crate::script::TranslationUnit;

verus! {

/// A function of the host, named by its place in the host's table of native
/// functions.
#[derive(Clone, Copy, Debug, PartialEq, Eq, Structural)]
pub struct NativeMethod(pub u32);

/// An entry point into the bytecode of a translation unit: an index into the
/// method table of the unit's container.
#[derive(Clone, Copy, Debug, PartialEq, Eq, Structural)]
pub struct BytecodeMethod {
    pub unit: TranslationUnit,
    pub method: u32,
}

/// Either a native function or a bytecode entry point.
#[derive(Clone, Copy, Debug, PartialEq, Eq, Structural)]
pub enum Method {
    Native(NativeMethod),
    Entry(BytecodeMethod),
}

} // verus!
