//! Runtime values.

use vstd::prelude::*;
use crate::object::Object;
use crate::text::Avm1String;

verus! {

/// A runtime value: a tagged union.
#[derive(Clone, Copy)]
pub enum Value<'gc> {
    Undefined,
    Null,
    Bool(bool),
    /// A double-precision number, held as its IEEE 754 bit pattern.
    Number(u64),
    Integer(i32),
    String(Avm1String<'gc>),
    Object(Object),
}

} // verus!
